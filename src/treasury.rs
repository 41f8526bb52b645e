use vstd::prelude::*;

use crate::address::{
    all_distinct, all_held, contains_address, copy_addresses, distinct_addresses, holds_address,
    Address,
};
use crate::ledger::{
    to_snapshot, shows, Approval, MultisigError, MultisigSummary, Proposal, TransferOrder,
    WithdrawalRequest, WithdrawalSnapshot,
};

verus! {

/// The treasury's configuration: who may approve and receive, how many
/// approvals release funds, and which asset moves.
#[derive(Debug)]
pub struct TreasuryConfig {
    pub admin: Address,
    pub asset: Address,
    /// Approvers, and at the same time the only allowed destinations.
    pub signers: Vec<Address>,
    pub threshold: u32,
    pub label: String,
}

/// The treasury's whole durable state: its configuration (absent until
/// `init`), the requests in id order, and the id the next request gets.
#[derive(Debug)]
pub struct MultisigTreasury {
    pub config: Option<TreasuryConfig>,
    pub requests: Vec<WithdrawalRequest>,
    pub next_request_id: u32,
}

/// `threshold` approvals out of `n_signers` signers is an admissible policy.
pub open spec fn valid_threshold(n_signers: nat, threshold: nat) -> bool {
    1 <= threshold <= n_signers
}

impl TreasuryConfig {
    /// `a` is one of the configured signers.
    pub open spec fn is_signer(self, a: Seq<char>) -> bool {
        contains_address(self.signers@, a)
    }

    /// The threshold is admissible for the signers, whose number fits a `u32`.
    pub open spec fn wf(self) -> bool {
        &&& valid_threshold(self.signers@.len(), self.threshold as nat)
        &&& self.signers@.len() <= u32::MAX
    }
}

/// The request stored under `id` is consistent with configuration `c`:
/// it carries its id, a positive amount, distinct approvals by signers,
/// and it stands executed exactly when its approvals reach the threshold.
pub open spec fn request_wf(req: WithdrawalRequest, c: TreasuryConfig, id: int) -> bool {
    &&& req.id == id
    &&& req.amount > 0
    &&& distinct_addresses(req.approvals@)
    &&& forall|k: int| 0 <= k < req.approvals@.len() ==> c.is_signer(#[trigger] req.approvals@[k]@)
    &&& req.executed <==> req.approvals@.len() >= c.threshold
    &&& !req.executed ==> req.completed_at == 0
}

/// The id of the request whose transfer a successful proposal ordered.
pub open spec fn proposal_transfer(r: Result<Proposal, MultisigError>) -> Option<u32> {
    match r {
        Ok(p) => if p.transfer is Some { Some(p.id) } else { None },
        Err(_) => None,
    }
}

/// Whether a successful approval ordered a transfer.
pub open spec fn approval_transfers(r: Result<Approval, MultisigError>) -> bool {
    match r {
        Ok(a) => a.transfer is Some,
        Err(_) => false,
    }
}

/// Runs the execution step on `request`: when it is not yet executed and
/// its approvals reach the threshold, the destination is checked again and
/// the request is marked executed at `now`, with the transfer to perform.
fn maybe_execute(config: &TreasuryConfig, request: &mut WithdrawalRequest, now: u64) -> (r: Result<
    Option<TransferOrder>,
    MultisigError,
>)
    ensures
        match r {
            Err(e) => {
                &&& e == MultisigError::DestinationNotAllowed
                &&& !old(request).executed
                &&& old(request).approvals@.len() >= config.threshold
                &&& !config.is_signer(old(request).to@)
                &&& *final(request) == *old(request)
            },
            Ok(None) => {
                &&& old(request).executed || old(request).approvals@.len() < config.threshold
                &&& *final(request) == *old(request)
            },
            Ok(Some(t)) => {
                &&& !old(request).executed
                &&& old(request).approvals@.len() >= config.threshold
                &&& config.is_signer(old(request).to@)
                &&& t == (TransferOrder {
                    asset: config.asset,
                    to: old(request).to,
                    amount: old(request).amount,
                })
                &&& *final(request) == (WithdrawalRequest {
                    executed: true,
                    completed_at: now,
                    ..*old(request)
                })
            },
        },
{
    if request.executed {
        return Ok(None);
    }
    if request.approvals.len() < config.threshold as usize {
        return Ok(None);
    }
    if !holds_address(&config.signers, &request.to) {
        return Err(MultisigError::DestinationNotAllowed);
    }
    let order = TransferOrder {
        asset: config.asset.clone(),
        to: request.to.clone(),
        amount: request.amount,
    };
    request.executed = true;
    request.completed_at = now;
    Ok(Some(order))
}

/// Whether the request stored under `id` is consistent with `config`.
fn request_consistent(req: &WithdrawalRequest, config: &TreasuryConfig, id: usize) -> (r: bool)
    ensures
        r == request_wf(*req, *config, id as int),
{
    req.id as usize == id && req.amount > 0 && all_distinct(&req.approvals) && all_held(
        &req.approvals,
        &config.signers,
    ) && req.executed == (req.approvals.len() >= config.threshold as usize) && (req.executed
        || req.completed_at == 0)
}

impl MultisigTreasury {
    /// The state invariant that every operation keeps.
    pub open spec fn wf(self) -> bool {
        &&& self.next_request_id == self.requests@.len()
        &&& match self.config {
            None => self.requests@.len() == 0,
            Some(c) => {
                &&& c.wf()
                &&& forall|i: int|
                    0 <= i < self.requests@.len() ==> request_wf(#[trigger] self.requests@[i], c, i)
            },
        }
    }

    /// `a` is currently a signer (and so an allowed destination).
    pub open spec fn is_signer(self, a: Seq<char>) -> bool {
        &&& self.config is Some
        &&& self.config->Some_0.is_signer(a)
    }

    /// The error `propose_withdraw` gives, in the order the checks run;
    /// `None` when the proposal is accepted.
    pub open spec fn propose_error(self, caller: Seq<char>, to: Seq<char>, amount: int) -> Option<
        MultisigError,
    > {
        if amount <= 0 {
            Some(MultisigError::InvalidAmount)
        } else if self.config is None {
            Some(MultisigError::NotInitialized)
        } else if !self.is_signer(to) {
            Some(MultisigError::DestinationNotAllowed)
        } else if !self.is_signer(caller) {
            Some(MultisigError::SignerNotAllowed)
        } else {
            None
        }
    }

    /// The complete effect of `propose_withdraw(caller, to, amount, now)` on
    /// state `self`: result `r` and state `post` afterwards.
    pub open spec fn propose_post(
        self,
        caller: Address,
        to: Address,
        amount: i128,
        now: u64,
        r: Result<Proposal, MultisigError>,
        post: Self,
    ) -> bool {
        match self.propose_error(caller@, to@, amount as int) {
            Some(e) => r == Err::<Proposal, MultisigError>(e) && post == self,
            None => {
                let c = self.config->Some_0;
                let id = self.next_request_id;
                let executes = c.threshold == 1;
                let req = post.requests@.last();
                &&& r == Ok::<Proposal, MultisigError>(
                    Proposal {
                        id,
                        transfer: if executes {
                            Some(TransferOrder { asset: c.asset, to, amount })
                        } else {
                            None
                        },
                    },
                )
                &&& post.config == self.config
                &&& post.next_request_id == id + 1
                &&& post.requests@ == self.requests@.push(req)
                &&& req.id == id
                &&& req.to == to
                &&& req.amount == amount
                &&& req.approvals@ == seq![caller]
                &&& req.executed == executes
                &&& req.initiator == caller
                &&& req.created_at == now
                &&& req.completed_at == (if executes { now } else { 0 })
            },
        }
    }

    /// The error `approve_withdraw` gives, in the order the checks run;
    /// `None` when the call succeeds.
    pub open spec fn approve_error(self, caller: Seq<char>, id: int) -> Option<MultisigError> {
        if self.config is None {
            Some(MultisigError::NotInitialized)
        } else if !self.is_signer(caller) {
            Some(MultisigError::SignerNotAllowed)
        } else if !(0 <= id < self.requests@.len()) {
            Some(MultisigError::RequestNotFound)
        } else if self.requests@[id].executed {
            None
        } else if contains_address(self.requests@[id].approvals@, caller) {
            Some(MultisigError::DuplicateApproval)
        } else if self.requests@[id].approvals@.len() + 1 >= self.config->Some_0.threshold
            && !self.is_signer(self.requests@[id].to@) {
            Some(MultisigError::DestinationNotAllowed)
        } else {
            None
        }
    }

    /// The complete effect of `approve_withdraw(caller, id, now)` on state
    /// `self`: result `r` and state `post` afterwards.
    pub open spec fn approve_post(
        self,
        caller: Address,
        id: u32,
        now: u64,
        r: Result<Approval, MultisigError>,
        post: Self,
    ) -> bool {
        match self.approve_error(caller@, id as int) {
            Some(e) => r == Err::<Approval, MultisigError>(e) && post == self,
            None => {
                let req = self.requests@[id as int];
                if req.executed {
                    &&& r == Ok::<Approval, MultisigError>(Approval { executed: true, transfer: None })
                    &&& post == self
                } else {
                    let c = self.config->Some_0;
                    let reaches = req.approvals@.len() + 1 >= c.threshold;
                    let new_req = post.requests@[id as int];
                    &&& r == Ok::<Approval, MultisigError>(
                        Approval {
                            executed: reaches,
                            transfer: if reaches {
                                Some(TransferOrder { asset: c.asset, to: req.to, amount: req.amount })
                            } else {
                                None
                            },
                        },
                    )
                    &&& post.config == self.config
                    &&& post.next_request_id == self.next_request_id
                    &&& post.requests@ == self.requests@.update(id as int, new_req)
                    &&& new_req.id == req.id
                    &&& new_req.to == req.to
                    &&& new_req.amount == req.amount
                    &&& new_req.approvals@ == req.approvals@.push(caller)
                    &&& new_req.executed == reaches
                    &&& new_req.initiator == req.initiator
                    &&& new_req.created_at == req.created_at
                    &&& new_req.completed_at == (if reaches { now } else { req.completed_at })
                }
            },
        }
    }

    /// A treasury that has not been initialized.
    pub fn new() -> (r: MultisigTreasury)
        ensures
            r.wf(),
            r.config is None,
            r.requests@.len() == 0,
    {
        MultisigTreasury { config: None, requests: Vec::new(), next_request_id: 0 }
    }

    /// Installs the configuration, with an empty request ledger whose
    /// counter starts at 0. Fails with `InvalidThreshold`, changing nothing,
    /// unless `1 <= threshold <= signers.len()`.
    pub fn init(
        &mut self,
        admin: Address,
        token: Address,
        signers: Vec<Address>,
        threshold: u32,
        label: String,
    ) -> (r: Result<(), MultisigError>)
        requires
            old(self).wf(),
            signers@.len() <= u32::MAX,
        ensures
            final(self).wf(),
            r is Ok <==> valid_threshold(signers@.len(), threshold as nat),
            r is Err ==> r == Err::<(), MultisigError>(MultisigError::InvalidThreshold),
            r is Err ==> *final(self) == *old(self),
            r is Ok ==> {
                &&& final(self).config == Some(
                    (TreasuryConfig { admin, asset: token, signers, threshold, label }),
                )
                &&& final(self).requests@.len() == 0
                &&& final(self).next_request_id == 0
            },
    {
        if signers.len() == 0 {
            return Err(MultisigError::InvalidThreshold);
        }
        if threshold == 0 || threshold as usize > signers.len() {
            return Err(MultisigError::InvalidThreshold);
        }
        self.config = Some(TreasuryConfig { admin, asset: token, signers, threshold, label });
        self.requests = Vec::new();
        self.next_request_id = 0;
        Ok(())
    }

    /// Proposes sending `amount` to `to`, by signer `caller`, at time `now`.
    /// The request gets the next id and `caller` as its first approval; with
    /// a threshold of 1 it executes at once and the transfer is returned.
    /// On an error nothing changes and no id is used up.
    pub fn propose_withdraw(&mut self, caller: Address, to: Address, amount: i128, now: u64) -> (r:
        Result<Proposal, MultisigError>)
        requires
            old(self).wf(),
            old(self).next_request_id < u32::MAX,
        ensures
            final(self).wf(),
            old(self).propose_post(caller, to, amount, now, r, *final(self)),
    {
        if amount <= 0 {
            return Err(MultisigError::InvalidAmount);
        }
        let config = match &self.config {
            Some(c) => c,
            None => {
                return Err(MultisigError::NotInitialized);
            },
        };
        if !holds_address(&config.signers, &to) {
            return Err(MultisigError::DestinationNotAllowed);
        }
        if !holds_address(&config.signers, &caller) {
            return Err(MultisigError::SignerNotAllowed);
        }
        let id = self.next_request_id;
        let mut approvals: Vec<Address> = Vec::new();
        approvals.push(caller.clone());
        let mut request = WithdrawalRequest {
            id,
            to,
            amount,
            approvals,
            executed: false,
            initiator: caller,
            created_at: now,
            completed_at: 0,
        };
        let transfer = match maybe_execute(config, &mut request, now) {
            Ok(t) => t,
            Err(e) => {
                return Err(e);
            },
        };
        self.requests.push(request);
        self.next_request_id = id + 1;
        proof {
            let c = self.config->Some_0;
            assert forall|i: int| 0 <= i < self.requests@.len() implies request_wf(
                #[trigger] self.requests@[i],
                c,
                i,
            ) by {
                if i < id {
                    assert(self.requests@[i] == old(self).requests@[i]);
                }
            }
        }
        Ok(Proposal { id, transfer })
    }

    /// Records the approval of request `id` by signer `caller` at time `now`.
    /// Approving an executed request succeeds and changes nothing. When this
    /// approval brings the count to the threshold, the destination is checked
    /// again, the request is marked executed and the transfer is returned.
    /// On an error nothing changes.
    pub fn approve_withdraw(&mut self, caller: Address, id: u32, now: u64) -> (r: Result<
        Approval,
        MultisigError,
    >)
        requires
            old(self).wf(),
        ensures
            final(self).wf(),
            old(self).approve_post(caller, id, now, r, *final(self)),
    {
        let config = match &self.config {
            Some(c) => c,
            None => {
                return Err(MultisigError::NotInitialized);
            },
        };
        if !holds_address(&config.signers, &caller) {
            return Err(MultisigError::SignerNotAllowed);
        }
        if id as usize >= self.requests.len() {
            return Err(MultisigError::RequestNotFound);
        }
        let idx = id as usize;
        if self.requests[idx].executed {
            return Ok(Approval { executed: true, transfer: None });
        }
        if holds_address(&self.requests[idx].approvals, &caller) {
            return Err(MultisigError::DuplicateApproval);
        }
        let mut request = self.requests[idx].clone();
        request.approvals.push(caller);
        let transfer = match maybe_execute(config, &mut request, now) {
            Ok(t) => t,
            Err(e) => {
                return Err(e);
            },
        };
        let executed = transfer.is_some();
        proof {
            let c = self.config->Some_0;
            let old_req = self.requests@[idx as int];
            assert(request.approvals@ == old_req.approvals@.push(caller));
            assert(request_wf(request, c, id as int)) by {
                assert forall|k: int| 0 <= k < request.approvals@.len() implies c.is_signer(
                    #[trigger] request.approvals@[k]@,
                ) by {
                    if k < old_req.approvals@.len() {
                        assert(request.approvals@[k] == old_req.approvals@[k]);
                    }
                }
                assert forall|a: int, b: int|
                    0 <= a < request.approvals@.len() && 0 <= b < request.approvals@.len() && a
                        != b implies #[trigger] request.approvals@[a]@
                    != #[trigger] request.approvals@[b]@ by {
                    if a < old_req.approvals@.len() && b < old_req.approvals@.len() {
                        assert(request.approvals@[a] == old_req.approvals@[a]);
                        assert(request.approvals@[b] == old_req.approvals@[b]);
                    } else if a < old_req.approvals@.len() {
                        assert(request.approvals@[a] == old_req.approvals@[a]);
                    } else {
                        assert(request.approvals@[b] == old_req.approvals@[b]);
                    }
                }
            }
        }
        self.requests.set(idx, request);
        proof {
            let c = self.config->Some_0;
            assert forall|i: int| 0 <= i < self.requests@.len() implies request_wf(
                #[trigger] self.requests@[i],
                c,
                i,
            ) by {
                if i != idx {
                    assert(self.requests@[i] == old(self).requests@[i]);
                }
            }
        }
        Ok(Approval { executed, transfer })
    }

    /// Whether this state satisfies the invariant that the operations
    /// require; a host checks it on state it reads back from storage.
    pub fn check_well_formed(&self) -> (r: bool)
        ensures
            r == self.wf(),
    {
        if self.next_request_id as usize != self.requests.len() {
            return false;
        }
        let c = match &self.config {
            None => {
                return self.requests.len() == 0;
            },
            Some(c) => c,
        };
        if c.signers.len() > u32::MAX as usize || c.threshold == 0 || c.threshold as usize
            > c.signers.len() {
            return false;
        }
        let n = self.requests.len();
        let mut i: usize = 0;
        while i < n
            invariant
                n == self.requests@.len(),
                i <= n,
                self.config == Some(*c),
                forall|k: int| 0 <= k < i ==> request_wf(#[trigger] self.requests@[k], *c, k),
            decreases n - i,
        {
            if !request_consistent(&self.requests[i], c, i) {
                return false;
            }
            i = i + 1;
        }
        true
    }

    /// Whether `address` is currently a signer, and so may approve and
    /// receive funds. False before `init`.
    pub fn is_eligible(&self, address: &Address) -> (r: bool)
        ensures
            r == self.is_signer(address@),
    {
        match &self.config {
            Some(c) => holds_address(&c.signers, address),
            None => false,
        }
    }

    /// Threshold, signer count and label.
    pub fn get_summary(&self) -> (r: Result<MultisigSummary, MultisigError>)
        requires
            self.wf(),
        ensures
            self.config is None ==> r == Err::<MultisigSummary, MultisigError>(
                MultisigError::NotInitialized,
            ),
            self.config is Some ==> r is Ok && r->Ok_0.threshold == self.config->Some_0.threshold
                && r->Ok_0.signer_count == self.config->Some_0.signers@.len()
                && r->Ok_0.label@ == self.config->Some_0.label@,
    {
        match &self.config {
            Some(c) => Ok(
                MultisigSummary {
                    threshold: c.threshold,
                    signer_count: c.signers.len() as u32,
                    label: c.label.clone(),
                },
            ),
            None => Err(MultisigError::NotInitialized),
        }
    }

    /// The configured signers, in the order given to `init`.
    pub fn get_signers(&self) -> (r: Result<Vec<Address>, MultisigError>)
        ensures
            self.config is None ==> r == Err::<Vec<Address>, MultisigError>(
                MultisigError::NotInitialized,
            ),
            self.config is Some ==> r is Ok && r->Ok_0@ == self.config->Some_0.signers@,
    {
        match &self.config {
            Some(c) => Ok(copy_addresses(&c.signers)),
            None => Err(MultisigError::NotInitialized),
        }
    }

    /// The request with id `id`.
    pub fn get_request(&self, id: u32) -> (r: Result<&WithdrawalRequest, MultisigError>)
        ensures
            id < self.requests@.len() ==> r == Ok::<&WithdrawalRequest, MultisigError>(
                &self.requests@[id as int],
            ),
            id >= self.requests@.len() ==> r == Err::<&WithdrawalRequest, MultisigError>(
                MultisigError::RequestNotFound,
            ),
    {
        if (id as usize) < self.requests.len() {
            Ok(&self.requests[id as usize])
        } else {
            Err(MultisigError::RequestNotFound)
        }
    }

    /// Every request, in ascending id order, with textual addresses.
    pub fn list_requests(&self) -> (r: Vec<WithdrawalSnapshot>)
        ensures
            r@.len() == self.requests@.len(),
            forall|i: int| 0 <= i < r@.len() ==> shows(#[trigger] r@[i], self.requests@[i]),
    {
        let n = self.requests.len();
        let mut out: Vec<WithdrawalSnapshot> = Vec::new();
        let mut i: usize = 0;
        while i < n
            invariant
                n == self.requests@.len(),
                i <= n,
                out@.len() == i,
                forall|k: int| 0 <= k < i ==> shows(#[trigger] out@[k], self.requests@[k]),
            decreases n - i,
        {
            out.push(to_snapshot(&self.requests[i]));
            i = i + 1;
        }
        out
    }
}

} // verus!
