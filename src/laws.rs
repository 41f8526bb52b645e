use vstd::prelude::*;

use crate::address::{contains_address, distinct_addresses, Address};
use crate::ledger::{Approval, MultisigError, Proposal};
use crate::treasury::{approval_transfers, proposal_transfer, MultisigTreasury};

verus! {

/// One committed call on the treasury, `propose_withdraw` or
/// `approve_withdraw`, taking state `pre` to `post`; `ordered` is the id of
/// the request whose transfer the call ordered, if it ordered one.
pub open spec fn step(pre: MultisigTreasury, post: MultisigTreasury, ordered: Option<u32>) -> bool {
    ||| exists|caller: Address, to: Address, amount: i128, now: u64, r: Result<Proposal, MultisigError>|
        #[trigger] pre.propose_post(caller, to, amount, now, r, post) && ordered == proposal_transfer(r)
    ||| exists|caller: Address, id: u32, now: u64, r: Result<Approval, MultisigError>|
        #[trigger] pre.approve_post(caller, id, now, r, post) && ordered == (if approval_transfers(r) {
            Some(id)
        } else {
            None
        })
}

/// In every well-formed state each request's approvals are distinct
/// signers, so their number is the number of distinct approving signers,
/// and the request stands executed exactly when that number reaches the
/// threshold.
pub proof fn lemma_request_invariant(s: MultisigTreasury, id: int)
    requires
        s.wf(),
        0 <= id < s.requests@.len(),
    ensures
        s.config is Some,
        distinct_addresses(s.requests@[id].approvals@),
        forall|k: int|
            0 <= k < s.requests@[id].approvals@.len() ==> s.is_signer(
                #[trigger] s.requests@[id].approvals@[k]@,
            ),
        s.requests@[id].executed <==> s.requests@[id].approvals@.len()
            >= s.config->Some_0.threshold,
{
    let c = s.config->Some_0;
    assert(crate::treasury::request_wf(s.requests@[id], c, id));
}

/// A fresh approval of a pending request leaves it executed exactly when
/// the approvals with this one reach the threshold, all of them by current
/// signers, and the destination is a current signer at that moment.
pub proof fn lemma_approval_executes_iff(
    pre: MultisigTreasury,
    caller: Address,
    id: u32,
    now: u64,
    r: Result<Approval, MultisigError>,
    post: MultisigTreasury,
)
    requires
        pre.wf(),
        id < pre.requests@.len(),
        !pre.requests@[id as int].executed,
        !contains_address(pre.requests@[id as int].approvals@, caller@),
        pre.approve_post(caller, id, now, r, post),
    ensures
        ({
            let a = pre.requests@[id as int].approvals@.push(caller);
            post.requests@[id as int].executed <==> {
                &&& a.len() >= pre.config->Some_0.threshold
                &&& forall|k: int| 0 <= k < a.len() ==> pre.is_signer(#[trigger] a[k]@)
                &&& pre.is_signer(pre.requests@[id as int].to@)
            }
        }),
{
    lemma_request_invariant(pre, id as int);
    let a = pre.requests@[id as int].approvals@.push(caller);
    let old_a = pre.requests@[id as int].approvals@;
    if !pre.is_signer(caller@) {
        assert(a[old_a.len() as int] == caller);
    } else {
        assert forall|k: int| 0 <= k < a.len() implies pre.is_signer(#[trigger] a[k]@) by {
            if k < old_a.len() {
                assert(a[k] == old_a[k]);
            }
        }
    }
}

/// A proposal creates a request that is executed at once exactly when one
/// approval meets the threshold, the proposer is a signer and the
/// destination is a signer.
pub proof fn lemma_proposal_executes_iff(
    pre: MultisigTreasury,
    caller: Address,
    to: Address,
    amount: i128,
    now: u64,
    r: Result<Proposal, MultisigError>,
    post: MultisigTreasury,
)
    requires
        pre.wf(),
        pre.config is Some,
        amount > 0,
        pre.propose_post(caller, to, amount, now, r, post),
    ensures
        (r is Ok && post.requests@.last().executed) <==> {
            &&& 1 >= pre.config->Some_0.threshold
            &&& pre.is_signer(caller@)
            &&& pre.is_signer(to@)
        },
{
}

/// Approving a request that is already executed, as a signer, succeeds
/// with `executed == true`, orders no transfer and changes nothing.
pub proof fn lemma_approve_executed_is_noop(
    pre: MultisigTreasury,
    caller: Address,
    id: u32,
    now: u64,
    r: Result<Approval, MultisigError>,
    post: MultisigTreasury,
)
    requires
        pre.wf(),
        pre.is_signer(caller@),
        id < pre.requests@.len(),
        pre.requests@[id as int].executed,
        pre.approve_post(caller, id, now, r, post),
    ensures
        r == Ok::<Approval, MultisigError>(Approval { executed: true, transfer: None }),
        post == pre,
{
}

/// After a signer's approval that left the request pending, a second
/// approval of it by the same signer fails with `DuplicateApproval` and
/// changes nothing.
pub proof fn lemma_second_approval_is_duplicate(
    s0: MultisigTreasury,
    caller: Address,
    id: u32,
    t1: u64,
    r1: Result<Approval, MultisigError>,
    s1: MultisigTreasury,
    t2: u64,
    r2: Result<Approval, MultisigError>,
    s2: MultisigTreasury,
)
    requires
        s0.wf(),
        s0.approve_post(caller, id, t1, r1, s1),
        r1 is Ok,
        !r1->Ok_0.executed,
        s1.approve_post(caller, id, t2, r2, s2),
    ensures
        r2 == Err::<Approval, MultisigError>(MultisigError::DuplicateApproval),
        s2 == s1,
{
    let a = s1.requests@[id as int].approvals@;
    assert(a[a.len() - 1] == caller);
    assert(contains_address(a, caller@));
}

/// What one step keeps and what a transfer it orders implies: no request
/// disappears or leaves the executed state, and an ordered transfer belongs
/// to a request that was new or pending before and is executed after.
proof fn lemma_step_facts(pre: MultisigTreasury, post: MultisigTreasury, ordered: Option<u32>)
    requires
        pre.wf(),
        step(pre, post, ordered),
    ensures
        pre.requests@.len() <= post.requests@.len(),
        forall|j: int|
            0 <= j < pre.requests@.len() && #[trigger] pre.requests@[j].executed
                ==> post.requests@[j].executed,
        ordered is Some ==> {
            let i = ordered->Some_0 as int;
            &&& i < post.requests@.len()
            &&& post.requests@[i].executed
            &&& (i >= pre.requests@.len() || !pre.requests@[i].executed)
        },
{
    if exists|caller: Address, to: Address, amount: i128, now: u64, r: Result<Proposal, MultisigError>|
        #[trigger] pre.propose_post(caller, to, amount, now, r, post) && ordered == proposal_transfer(
            r,
        ) {
        let (caller, to, amount, now, r) = choose|
            caller: Address,
            to: Address,
            amount: i128,
            now: u64,
            r: Result<Proposal, MultisigError>,
        |
            #[trigger] pre.propose_post(caller, to, amount, now, r, post) && ordered
                == proposal_transfer(r);
        if pre.propose_error(caller@, to@, amount as int) is None {
            assert forall|j: int|
                0 <= j < pre.requests@.len() && #[trigger] pre.requests@[j].executed
                    implies post.requests@[j].executed by {
                assert(post.requests@[j] == pre.requests@[j]);
            }
        }
    } else {
        let (caller, id, now, r) = choose|
            caller: Address,
            id: u32,
            now: u64,
            r: Result<Approval, MultisigError>,
        |
            #[trigger] pre.approve_post(caller, id, now, r, post) && ordered == (if approval_transfers(
                r,
            ) {
                Some(id)
            } else {
                None
            });
        if pre.approve_error(caller@, id as int) is None && !pre.requests@[id as int].executed {
            assert forall|j: int|
                0 <= j < pre.requests@.len() && #[trigger] pre.requests@[j].executed
                    implies post.requests@[j].executed by {
                if j != id {
                    assert(post.requests@[j] == pre.requests@[j]);
                }
            }
        }
    }
}

/// Over any run of proposals and approvals through well-formed states,
/// failed calls included, the transfer of each request is ordered at most
/// once.
pub proof fn lemma_transfer_at_most_once(states: Seq<MultisigTreasury>, orders: Seq<Option<u32>>)
    requires
        states.len() == orders.len() + 1,
        forall|k: int| 0 <= k < states.len() ==> (#[trigger] states[k]).wf(),
        forall|k: int| 0 <= k < orders.len() ==> step(states[k], states[k + 1], #[trigger] orders[k]),
    ensures
        forall|a: int, b: int|
            0 <= a < b < orders.len() && (#[trigger] orders[a]) is Some ==> #[trigger] orders[b]
                != orders[a],
{
    lemma_ordered_stay_executed(states, orders, orders.len() as int);
    assert forall|a: int, b: int|
        0 <= a < b < orders.len() && (#[trigger] orders[a]) is Some implies #[trigger] orders[b]
        != orders[a] by {
        lemma_ordered_stay_executed(states, orders, b);
        lemma_step_facts(states[b], states[b + 1], orders[b]);
    }
}

/// After the first `n` steps of a run, every request whose transfer was
/// ordered exists and is executed.
proof fn lemma_ordered_stay_executed(states: Seq<MultisigTreasury>, orders: Seq<Option<u32>>, n: int)
    requires
        states.len() == orders.len() + 1,
        forall|k: int| 0 <= k < states.len() ==> (#[trigger] states[k]).wf(),
        forall|k: int| 0 <= k < orders.len() ==> step(states[k], states[k + 1], #[trigger] orders[k]),
        0 <= n <= orders.len(),
    ensures
        forall|a: int|
            0 <= a < n && (#[trigger] orders[a]) is Some ==> {
                &&& orders[a]->Some_0 < states[n].requests@.len()
                &&& states[n].requests@[orders[a]->Some_0 as int].executed
            },
    decreases n,
{
    if n > 0 {
        lemma_ordered_stay_executed(states, orders, n - 1);
        lemma_step_facts(states[n - 1], states[n], orders[n - 1]);
    }
}

} // verus!
