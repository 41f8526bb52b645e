//! A custodial treasury owned jointly by a set of signers: withdrawals go
//! only to a signer, and only once a threshold of distinct signers has
//! approved them. A simpler remittance account with a fixed destination
//! list stands beside it.
//!
//! The library holds the state and makes every decision; the surrounding
//! host authenticates callers, supplies the time, performs the token
//! transfers and calls that the decisions order, and stores the state.

pub mod address;
pub mod laws;
pub mod ledger;
pub mod remittance;
pub mod treasury;

pub use address::Address;
pub use ledger::{
    Approval, DataKey, MultisigError, MultisigSummary, Proposal, TransferOrder, WithdrawalRequest,
    WithdrawalSnapshot,
};
pub use remittance::{
    ForexRoute, RemittanceAccount, RemittanceError, RemittanceSetup, SwapOrder, TreasuryCall,
};
pub use treasury::{MultisigTreasury, TreasuryConfig};
