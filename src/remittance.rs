use vstd::prelude::*;

use crate::address::{contains_address, holds_address, Address};
use crate::ledger::TransferOrder;

verus! {

/// Why a remittance operation was refused.
#[derive(Clone, Copy, Debug, PartialEq, Eq, Structural)]
pub enum RemittanceError {
    NotInitialized,
    NotAllowed,
    ForexNotConfigured,
    InvalidAmount,
    SwapFailed,
}

/// The settings `init` installs.
#[derive(Debug)]
pub struct RemittanceSetup {
    pub admin: Address,
    pub token: Address,
    /// The only addresses funds may be sent to.
    pub destinations: Vec<Address>,
    pub label: String,
}

/// The swap router and the second token of the currency pair.
#[derive(Debug)]
pub struct ForexRoute {
    pub router: Address,
    pub counter_token: Address,
}

/// A remittance account: it sends its token to a fixed list of destinations,
/// optionally through a currency swap, and can take part in a treasury.
#[derive(Debug)]
pub struct RemittanceAccount {
    pub setup: Option<RemittanceSetup>,
    pub forex: Option<ForexRoute>,
}

/// An order to swap exactly `amount_in` along `path` (first token in, last
/// token out) for at least `amount_out_min`, before `deadline`, into the
/// account's own balance; what comes out then goes to `to`.
#[derive(Debug)]
pub struct SwapOrder {
    pub router: Address,
    pub amount_in: i128,
    pub amount_out_min: i128,
    pub path: Vec<Address>,
    pub deadline: u64,
    pub output_token: Address,
    pub to: Address,
}

/// A call the account makes on a treasury, as one of its signers.
#[derive(Debug)]
pub enum TreasuryCall {
    Propose { treasury: Address, to: Address, amount: i128 },
    Approve { treasury: Address, request_id: u32 },
}

impl RemittanceAccount {
    /// `a` is an allowed destination.
    pub open spec fn allows(self, a: Seq<char>) -> bool {
        &&& self.setup is Some
        &&& contains_address(self.setup->Some_0.destinations@, a)
    }

    /// The error of the destination check for `to`, if any.
    pub open spec fn destination_error(self, to: Seq<char>) -> Option<RemittanceError> {
        if self.setup is None {
            Some(RemittanceError::NotInitialized)
        } else if !self.allows(to) {
            Some(RemittanceError::NotAllowed)
        } else {
            None
        }
    }

    /// An account with nothing configured.
    pub fn new() -> (r: RemittanceAccount)
        ensures
            r.setup is None,
            r.forex is None,
    {
        RemittanceAccount { setup: None, forex: None }
    }

    /// Installs admin, token, destinations and label; a configured swap
    /// route stays.
    pub fn init(&mut self, admin: Address, token: Address, destinations: Vec<Address>, label: String)
        ensures
            final(self).setup == Some((RemittanceSetup { admin, token, destinations, label })),
            final(self).forex == old(self).forex,
    {
        self.setup = Some(RemittanceSetup { admin, token, destinations, label });
    }

    /// Checks that `to` is an allowed destination.
    pub fn ensure_destination_allowed(&self, to: &Address) -> (r: Result<(), RemittanceError>)
        ensures
            match self.destination_error(to@) {
                Some(e) => r == Err::<(), RemittanceError>(e),
                None => r is Ok,
            },
    {
        match &self.setup {
            None => Err(RemittanceError::NotInitialized),
            Some(s) => {
                if holds_address(&s.destinations, to) {
                    Ok(())
                } else {
                    Err(RemittanceError::NotAllowed)
                }
            },
        }
    }

    /// A transfer of `amount` of the account's token to `to`, which must be
    /// an allowed destination.
    pub fn execute_transfer(&self, to: Address, amount: i128) -> (r: Result<
        TransferOrder,
        RemittanceError,
    >)
        ensures
            match self.destination_error(to@) {
                Some(e) => r == Err::<TransferOrder, RemittanceError>(e),
                None => r == Ok::<TransferOrder, RemittanceError>(
                    TransferOrder { asset: self.setup->Some_0.token, to, amount },
                ),
            },
    {
        match self.ensure_destination_allowed(&to) {
            Ok(()) => {},
            Err(e) => {
                return Err(e);
            },
        }
        match &self.setup {
            Some(s) => Ok(TransferOrder { asset: s.token.clone(), to, amount }),
            None => Err(RemittanceError::NotInitialized),
        }
    }

    /// A transfer of `amount` of the account's token to its admin, who must
    /// authorize it.
    pub fn admin_withdraw(&self, amount: i128) -> (r: Result<TransferOrder, RemittanceError>)
        ensures
            self.setup is None ==> r == Err::<TransferOrder, RemittanceError>(
                RemittanceError::NotInitialized,
            ),
            self.setup is Some ==> r == Ok::<TransferOrder, RemittanceError>(
                TransferOrder {
                    asset: self.setup->Some_0.token,
                    to: self.setup->Some_0.admin,
                    amount,
                },
            ),
    {
        match &self.setup {
            Some(s) => Ok(TransferOrder { asset: s.token.clone(), to: s.admin.clone(), amount }),
            None => Err(RemittanceError::NotInitialized),
        }
    }

    /// Replaces the list of allowed destinations.
    pub fn update_destinations(&mut self, destinations: Vec<Address>) -> (r: Result<
        (),
        RemittanceError,
    >)
        ensures
            old(self).setup is None ==> r == Err::<(), RemittanceError>(
                RemittanceError::NotInitialized,
            ) && *final(self) == *old(self),
            old(self).setup is Some ==> {
                &&& r is Ok
                &&& final(self).setup is Some
                &&& final(self).setup->Some_0.destinations == destinations
                &&& final(self).setup->Some_0.admin == old(self).setup->Some_0.admin
                &&& final(self).setup->Some_0.token == old(self).setup->Some_0.token
                &&& final(self).setup->Some_0.label == old(self).setup->Some_0.label
                &&& final(self).forex == old(self).forex
            },
    {
        match &mut self.setup {
            Some(s) => {
                s.destinations = destinations;
                Ok(())
            },
            None => Err(RemittanceError::NotInitialized),
        }
    }

    /// The account's label; empty before `init`.
    pub fn get_label(&self) -> (r: String)
        ensures
            self.setup is Some ==> r@ == self.setup->Some_0.label@,
            self.setup is None ==> r@ == Seq::<char>::empty(),
    {
        match &self.setup {
            Some(s) => s.label.clone(),
            None => String::new(),
        }
    }

    /// Sets the swap router and the counter token.
    pub fn configure_forex(&mut self, router: Address, counter_token: Address) -> (r: Result<
        (),
        RemittanceError,
    >)
        ensures
            old(self).setup is None ==> r == Err::<(), RemittanceError>(
                RemittanceError::NotInitialized,
            ) && *final(self) == *old(self),
            old(self).setup is Some ==> {
                &&& r is Ok
                &&& final(self).setup == old(self).setup
                &&& final(self).forex == Some((ForexRoute { router, counter_token }))
            },
    {
        if self.setup.is_none() {
            return Err(RemittanceError::NotInitialized);
        }
        self.forex = Some(ForexRoute { router, counter_token });
        Ok(())
    }

    /// The swap that sends `amount` to `to` in the other currency of the
    /// pair: out of the account's token when `swap_to_counter`, else into it.
    pub fn execute_forex_transfer(
        &self,
        to: Address,
        amount: i128,
        min_amount_out: i128,
        deadline: u64,
        swap_to_counter: bool,
    ) -> (r: Result<SwapOrder, RemittanceError>)
        ensures
            amount <= 0 || min_amount_out <= 0 ==> r == Err::<SwapOrder, RemittanceError>(
                RemittanceError::InvalidAmount,
            ),
            amount > 0 && min_amount_out > 0 && self.destination_error(to@) is Some ==> r == Err::<
                SwapOrder,
                RemittanceError,
            >(self.destination_error(to@)->Some_0),
            amount > 0 && min_amount_out > 0 && self.destination_error(to@) is None
                && self.forex is None ==> r == Err::<SwapOrder, RemittanceError>(
                RemittanceError::ForexNotConfigured,
            ),
            amount > 0 && min_amount_out > 0 && self.destination_error(to@) is None
                && self.forex is Some ==> r is Ok && ({
                let o = r->Ok_0;
                let primary = self.setup->Some_0.token;
                let counter = self.forex->Some_0.counter_token;
                &&& o.router == self.forex->Some_0.router
                &&& o.amount_in == amount
                &&& o.amount_out_min == min_amount_out
                &&& o.deadline == deadline
                &&& o.to == to
                &&& o.path@ == (if swap_to_counter {
                    seq![primary, counter]
                } else {
                    seq![counter, primary]
                })
                &&& o.output_token == (if swap_to_counter {
                    counter
                } else {
                    primary
                })
            }),
    {
        if amount <= 0 || min_amount_out <= 0 {
            return Err(RemittanceError::InvalidAmount);
        }
        match self.ensure_destination_allowed(&to) {
            Ok(()) => {},
            Err(e) => {
                return Err(e);
            },
        }
        let route = match &self.forex {
            Some(f) => f,
            None => {
                return Err(RemittanceError::ForexNotConfigured);
            },
        };
        let primary_token = match &self.setup {
            Some(s) => &s.token,
            None => {
                return Err(RemittanceError::NotInitialized);
            },
        };
        let counter_token = &route.counter_token;
        let mut path: Vec<Address> = Vec::new();
        let output_token = if swap_to_counter {
            path.push(primary_token.clone());
            path.push(counter_token.clone());
            counter_token.clone()
        } else {
            path.push(counter_token.clone());
            path.push(primary_token.clone());
            primary_token.clone()
        };
        Ok(
            SwapOrder {
                router: route.router.clone(),
                amount_in: amount,
                amount_out_min: min_amount_out,
                path,
                deadline,
                output_token,
                to,
            },
        )
    }

    /// The treasury proposal this account makes as a signer: `amount` to
    /// `to`, on `treasury`, which must be one of its destinations.
    pub fn initiate_multisig_withdraw(&self, treasury: Address, to: Address, amount: i128) -> (r:
        Result<TreasuryCall, RemittanceError>)
        ensures
            amount <= 0 ==> r == Err::<TreasuryCall, RemittanceError>(
                RemittanceError::InvalidAmount,
            ),
            amount > 0 && self.destination_error(treasury@) is Some ==> r == Err::<
                TreasuryCall,
                RemittanceError,
            >(self.destination_error(treasury@)->Some_0),
            amount > 0 && self.destination_error(treasury@) is None ==> r == Ok::<
                TreasuryCall,
                RemittanceError,
            >(TreasuryCall::Propose { treasury, to, amount }),
    {
        if amount <= 0 {
            return Err(RemittanceError::InvalidAmount);
        }
        match self.ensure_destination_allowed(&treasury) {
            Ok(()) => Ok(TreasuryCall::Propose { treasury, to, amount }),
            Err(e) => Err(e),
        }
    }

    /// The treasury approval this account makes as a signer, of request
    /// `request_id` on `treasury`, which must be one of its destinations.
    pub fn approve_multisig_withdraw(&self, treasury: Address, request_id: u32) -> (r: Result<
        TreasuryCall,
        RemittanceError,
    >)
        ensures
            self.destination_error(treasury@) is Some ==> r == Err::<TreasuryCall, RemittanceError>(
                self.destination_error(treasury@)->Some_0,
            ),
            self.destination_error(treasury@) is None ==> r == Ok::<TreasuryCall, RemittanceError>(
                TreasuryCall::Approve { treasury, request_id },
            ),
    {
        match self.ensure_destination_allowed(&treasury) {
            Ok(()) => Ok(TreasuryCall::Approve { treasury, request_id }),
            Err(e) => Err(e),
        }
    }
}

impl SwapOrder {
    /// The payout once the router has swapped: the last of the amounts it
    /// reports, in the output token, to the recipient. The router must
    /// report at least the amounts in and out, else `SwapFailed`.
    pub fn finish_forex_transfer(self, swap_amounts: &Vec<i128>) -> (r: Result<
        TransferOrder,
        RemittanceError,
    >)
        ensures
            swap_amounts@.len() < 2 ==> r == Err::<TransferOrder, RemittanceError>(
                RemittanceError::SwapFailed,
            ),
            swap_amounts@.len() >= 2 ==> r == Ok::<TransferOrder, RemittanceError>(
                TransferOrder {
                    asset: self.output_token,
                    to: self.to,
                    amount: swap_amounts@.last(),
                },
            ),
    {
        let n = swap_amounts.len();
        if n < 2 {
            return Err(RemittanceError::SwapFailed);
        }
        let amount_out = swap_amounts[n - 1];
        Ok(TransferOrder { asset: self.output_token, to: self.to, amount: amount_out })
    }
}

} // verus!
