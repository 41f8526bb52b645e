use vstd::prelude::*;

use crate::address::{copy_addresses, Address};

verus! {

/// Why a treasury operation was refused.
#[derive(Clone, Copy, Debug, PartialEq, Eq, Structural)]
pub enum MultisigError {
    NotInitialized,
    InvalidThreshold,
    InvalidAmount,
    SignerNotAllowed,
    RequestNotFound,
    DuplicateApproval,
    DestinationNotAllowed,
}

/// The slots in which a host keeps the treasury's durable state: one per
/// configuration field, the request counter, and one per request id.
#[derive(Clone, Copy, Debug, PartialEq, Eq, Structural)]
pub enum DataKey {
    Admin,
    Token,
    Signers,
    Threshold,
    Label,
    NextRequestId,
    Request(u32),
}

/// One proposed withdrawal, from proposal through execution.
#[derive(Debug)]
pub struct WithdrawalRequest {
    pub id: u32,
    pub to: Address,
    pub amount: i128,
    /// Distinct approving signers; the proposer comes first.
    pub approvals: Vec<Address>,
    pub executed: bool,
    pub initiator: Address,
    pub created_at: u64,
    /// `0` until the request executes.
    pub completed_at: u64,
}

/// A request with every address written out as text.
#[derive(Clone, Debug, PartialEq, Eq)]
pub struct WithdrawalSnapshot {
    pub id: u32,
    pub to: String,
    pub amount: i128,
    pub approvals: Vec<String>,
    pub executed: bool,
    pub initiator: String,
    pub created_at: u64,
    pub completed_at: u64,
}

/// Threshold, number of signers and label of a treasury.
#[derive(Clone, Debug, PartialEq, Eq)]
pub struct MultisigSummary {
    pub threshold: u32,
    pub signer_count: u32,
    pub label: String,
}

/// An order to move `amount` of `asset` from the treasury's own balance to `to`.
#[derive(Clone, Debug, PartialEq, Eq)]
pub struct TransferOrder {
    pub asset: Address,
    pub to: Address,
    pub amount: i128,
}

/// What a successful proposal produced: the new request's id, and the
/// transfer to perform when the proposal alone met the threshold.
#[derive(Clone, Debug, PartialEq, Eq)]
pub struct Proposal {
    pub id: u32,
    pub transfer: Option<TransferOrder>,
}

/// What a successful approval produced: whether the request now stands
/// executed, and the transfer to perform when this very call executed it.
#[derive(Clone, Debug, PartialEq, Eq)]
pub struct Approval {
    pub executed: bool,
    pub transfer: Option<TransferOrder>,
}

/// `snap` shows `req` field for field, each address by its key.
pub open spec fn shows(snap: WithdrawalSnapshot, req: WithdrawalRequest) -> bool {
    &&& snap.id == req.id
    &&& snap.to@ == req.to@
    &&& snap.amount == req.amount
    &&& snap.approvals@.len() == req.approvals@.len()
    &&& forall|i: int| 0 <= i < req.approvals@.len() ==> #[trigger] snap.approvals@[i]@ == req.approvals@[i]@
    &&& snap.executed == req.executed
    &&& snap.initiator@ == req.initiator@
    &&& snap.created_at == req.created_at
    &&& snap.completed_at == req.completed_at
}

/// Writes out `request` with textual addresses.
pub fn to_snapshot(request: &WithdrawalRequest) -> (r: WithdrawalSnapshot)
    ensures
        shows(r, *request),
{
    let n = request.approvals.len();
    let mut approvals: Vec<String> = Vec::new();
    let mut i: usize = 0;
    while i < n
        invariant
            n == request.approvals@.len(),
            i <= n,
            approvals@.len() == i,
            forall|k: int| 0 <= k < i ==> #[trigger] approvals@[k]@ == request.approvals@[k]@,
        decreases n - i,
    {
        approvals.push(request.approvals[i].to_display());
        i = i + 1;
    }
    WithdrawalSnapshot {
        id: request.id,
        to: request.to.to_display(),
        amount: request.amount,
        approvals,
        executed: request.executed,
        initiator: request.initiator.to_display(),
        created_at: request.created_at,
        completed_at: request.completed_at,
    }
}

impl Clone for WithdrawalRequest {
    fn clone(&self) -> (r: Self)
        ensures
            r.id == self.id,
            r.to == self.to,
            r.amount == self.amount,
            r.approvals@ == self.approvals@,
            r.executed == self.executed,
            r.initiator == self.initiator,
            r.created_at == self.created_at,
            r.completed_at == self.completed_at,
    {
        WithdrawalRequest {
            id: self.id,
            to: self.to.clone(),
            amount: self.amount,
            approvals: copy_addresses(&self.approvals),
            executed: self.executed,
            initiator: self.initiator.clone(),
            created_at: self.created_at,
            completed_at: self.completed_at,
        }
    }
}

} // verus!
