//! Laws of the protocol that relate several operations or hold of every
//! reachable state.
use vstd::prelude::*;

use crate::account::AccountId;
use crate::errors::TribeError;
use crate::founder::{after_payments, taken_payments, total, Founder};
use crate::tribe::{
    blocks_invite, ids_unique, invite_block, is_first_block, lemma_update_keeps_wf, none_pending, TribeModel,
    TribeStatus,
};

verus! {

/// Offering a series of payments to a founder, one `fund` call each: every
/// call fits in range; what the founder has paid in is what they had plus the
/// sum of the offers that were taken; they count as funded exactly when that
/// sum has reached the promise; and once funded, no later offer is taken.
pub proof fn lemma_funding_is_sum_of_taken(f: Founder, amounts: Seq<u128>)
    requires
        f.amount_funded + total(amounts) <= u128::MAX,
    ensures
        amounts.len() > 0 ==> after_payments(f, amounts.drop_last()).can_take(amounts.last()),
        after_payments(f, amounts).amount_funded == f.amount_funded + total(taken_payments(f, amounts)),
        after_payments(f, amounts).spec_is_funded() <==> f.amount_funded + total(
            taken_payments(f, amounts),
        ) >= f.amount_promised,
        after_payments(f, amounts) == f.with_funded(after_payments(f, amounts).amount_funded),
        f.spec_is_funded() ==> after_payments(f, amounts) == f && taken_payments(f, amounts).len() == 0,
    decreases amounts.len(),
{
    if amounts.len() > 0 {
        let init = amounts.drop_last();
        lemma_funding_is_sum_of_taken(f, init);
        lemma_taken_within_offered(f, init);
        let g = after_payments(f, init);
        if g.fund_result(amounts.last()) is Ok {
            assert(taken_payments(f, amounts).drop_last() =~= taken_payments(f, init));
        }
    }
}

/// The offers taken never sum to more than the offers made.
proof fn lemma_taken_within_offered(f: Founder, amounts: Seq<u128>)
    ensures
        total(taken_payments(f, amounts)) <= total(amounts),
    decreases amounts.len(),
{
    if amounts.len() > 0 {
        let init = amounts.drop_last();
        lemma_taken_within_offered(f, init);
        if after_payments(f, init).fund_result(amounts.last()) is Ok {
            assert(taken_payments(f, amounts).drop_last() =~= taken_payments(f, init));
        }
    }
}

/// Once a tribe is enabled or defunct, every operation is refused with the
/// lifecycle error and changes nothing: not the status, not the roster.
pub proof fn lemma_settled_tribe_is_frozen(
    t: TribeModel,
    caller: AccountId,
    target: AccountId,
    promised: u128,
    required: bool,
    value: u128,
)
    requires
        t.status != TribeStatus::Forming,
    ensures
        t.guard() is Some,
        t.accept(caller) == (t, Err::<(), TribeError>(t.guard()->Some_0)),
        t.reject(caller) == (t, Err::<(), TribeError>(t.guard()->Some_0)),
        t.fund(caller, value) == (t, Err::<u128, TribeError>(t.guard()->Some_0)),
        t.invite(caller, target, promised, required) == (t, Err::<(), TribeError>(t.guard()->Some_0)),
        t.activated() == t,
{
}

/// A rejection by a required founder of a forming tribe succeeds and makes the
/// tribe defunct at once, whatever the other founders have done.
pub proof fn lemma_required_rejection_ends_tribe(t: TribeModel, caller: AccountId)
    requires
        t.wf(),
        t.status == TribeStatus::Forming,
        t.has_founder(caller),
        t.founder(caller).required,
    ensures
        t.reject(caller).1 == Ok::<(), TribeError>(()),
        t.reject(caller).0.status == TribeStatus::Defunct,
{
}

/// A newly created tribe is well formed.
pub proof fn lemma_created_is_well_formed(caller: AccountId, name: Seq<char>, promised: u128)
    requires
        promised > 0,
    ensures
        TribeModel::created(caller, name, promised).wf(),
{
}

/// Every operation takes a well-formed tribe to a well-formed tribe.
pub proof fn lemma_operations_keep_well_formed(
    t: TribeModel,
    caller: AccountId,
    target: AccountId,
    promised: u128,
    required: bool,
    value: u128,
)
    requires
        t.wf(),
    ensures
        t.accept(caller).0.wf(),
        t.reject(caller).0.wf(),
        t.fund(caller, value).0.wf(),
        t.invite(caller, target, promised, required).0.wf(),
        t.activated().wf(),
{
    if t.status == TribeStatus::Forming && t.has_founder(caller) {
        let i = t.index_of(caller);
        let f = t.founder(caller);
        lemma_update_keeps_wf(t, i, f.with_vote(crate::founder::Vote::Accepted));
        lemma_update_keeps_wf(t, i, f.with_vote(crate::founder::Vote::Rejected));
        if let Ok(total) = f.fund_result(value) {
            lemma_update_keeps_wf(t, i, f.with_funded(total));
        }
    }
    if t.status == TribeStatus::Forming && invite_block(t.roster, target) is None {
        let next = t.roster.push(Founder::fresh(target, false, required, promised));
        assert forall|k: int| 0 <= k < t.roster.len() implies !blocks_invite(t.roster[k], target) by {
            if blocks_invite(t.roster[k], target) {
                lemma_first_block_exists(t.roster, target, k);
            }
        }
        assert(ids_unique(next)) by {
            assert forall|a: int, b: int|
                0 <= a < next.len() && 0 <= b < next.len() && a != b implies next[a].id != next[b].id by {
                if a < t.roster.len() && b < t.roster.len() {
                    assert(t.roster[a].id != t.roster[b].id);
                } else if a < t.roster.len() {
                    assert(!blocks_invite(t.roster[a], target));
                } else {
                    assert(!blocks_invite(t.roster[b], target));
                }
            }
        }
    }
}

/// If any position blocks `target`, some position is the first to block it.
proof fn lemma_first_block_exists(roster: Seq<Founder>, target: AccountId, k: int)
    requires
        0 <= k < roster.len(),
        blocks_invite(roster[k], target),
    ensures
        exists|j: int| is_first_block(roster, target, j),
    decreases k,
{
    if exists|m: int| 0 <= m < k && blocks_invite(roster[m], target) {
        let m = choose|m: int| 0 <= m < k && blocks_invite(roster[m], target);
        lemma_first_block_exists(roster, target, m);
    } else {
        assert(is_first_block(roster, target, k));
    }
}

/// In an enabled tribe no founder blocks activation.
pub proof fn lemma_enabled_has_nothing_pending(t: TribeModel)
    requires
        t.wf(),
        t.status == TribeStatus::Enabled,
    ensures
        none_pending(t.roster),
        forall|i: int| 0 <= i < t.roster.len() ==> !t.roster[i].spec_has_pending_activity(),
{
}

/// No two founders of a tribe share an identity.
pub proof fn lemma_roster_ids_unique(t: TribeModel)
    requires
        t.wf(),
    ensures
        ids_unique(t.roster),
{
}

} // verus!
