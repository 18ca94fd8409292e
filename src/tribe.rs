//! The tribe: a roster of founders and the lifecycle that activates or ends it.
use vstd::prelude::*;

use crate::account::AccountId;
use crate::errors::{error_text, MyDisplay, TribeError};
use crate::founder::{Founder, Vote};
use crate::text::{bool_text, push_bool};

verus! {

/// Where a tribe stands in its lifecycle. Only a forming tribe accepts
/// votes, payments and invitations; the other two states are final.
#[derive(PartialEq, Eq, Structural, Clone, Copy, Debug)]
pub enum TribeStatus {
    Forming,
    Enabled,
    Defunct,
}

/// The abstract state of a tribe.
pub struct TribeModel {
    pub name: Seq<char>,
    pub status: TribeStatus,
    pub roster: Seq<Founder>,
}

/// No two founders of `roster` share an identity.
pub open spec fn ids_unique(roster: Seq<Founder>) -> bool {
    forall|i: int, j: int|
        0 <= i < roster.len() && 0 <= j < roster.len() && i != j ==> roster[i].id != roster[j].id
}

/// No founder of `roster` still blocks activation.
pub open spec fn none_pending(roster: Seq<Founder>) -> bool {
    forall|i: int| 0 <= i < roster.len() ==> !roster[i].spec_has_pending_activity()
}

/// Founder `f` stops `target` from being invited: it is `target` already, or
/// it has resolved its obligation, or it has paid something in.
pub open spec fn blocks_invite(f: Founder, target: AccountId) -> bool {
    f.id == target || !f.spec_has_pending_activity() || f.spec_has_funds()
}

/// `j` is the first position of `roster` that blocks inviting `target`.
pub open spec fn is_first_block(roster: Seq<Founder>, target: AccountId, j: int) -> bool {
    &&& 0 <= j < roster.len()
    &&& blocks_invite(roster[j], target)
    &&& forall|k: int| 0 <= k < j ==> !blocks_invite(roster[k], target)
}

/// Why `target` cannot join `roster`, judged by the first founder in roster
/// order that stands in the way; `None` when nobody does.
pub open spec fn invite_block(roster: Seq<Founder>, target: AccountId) -> Option<TribeError> {
    if exists|j: int| is_first_block(roster, target, j) {
        let j = choose|j: int| is_first_block(roster, target, j);
        if roster[j].id == target {
            Some(TribeError::FounderAlreadyInvited)
        } else {
            Some(TribeError::TribeIsLocked)
        }
    } else {
        None
    }
}

impl TribeModel {
    /// Holds of every state a tribe can reach.
    pub open spec fn wf(self) -> bool {
        &&& self.roster.len() >= 1
        &&& self.roster[0].initial
        &&& self.roster[0].required
        &&& forall|i: int| 0 < i < self.roster.len() ==> !self.roster[i].initial
        &&& forall|i: int| 0 <= i < self.roster.len() ==> self.roster[i].wf()
        &&& ids_unique(self.roster)
        &&& self.status == TribeStatus::Enabled ==> none_pending(self.roster)
    }

    /// A tribe just created by `caller`, who pledged `promised`.
    pub open spec fn created(caller: AccountId, name: Seq<char>, promised: u128) -> TribeModel {
        TribeModel {
            name,
            status: TribeStatus::Forming,
            roster: seq![Founder::fresh(caller, true, true, promised)],
        }
    }

    /// The lifecycle guard of every mutating operation.
    pub open spec fn guard(self) -> Option<TribeError> {
        match self.status {
            TribeStatus::Forming => None,
            TribeStatus::Enabled => Some(TribeError::ActiveTribeCannotAcceptFounderAction),
            TribeStatus::Defunct => Some(TribeError::TribeIsDefunct),
        }
    }

    pub open spec fn has_founder(self, id: AccountId) -> bool {
        exists|i: int| 0 <= i < self.roster.len() && self.roster[i].id == id
    }

    /// The position of founder `id` in the roster.
    pub open spec fn index_of(self, id: AccountId) -> int {
        choose|i: int| 0 <= i < self.roster.len() && self.roster[i].id == id
    }

    /// The record of founder `id`.
    pub open spec fn founder(self, id: AccountId) -> Founder {
        self.roster[self.index_of(id)]
    }

    /// This state with the record of founder `id` replaced by `f`.
    pub open spec fn set_founder(self, id: AccountId, f: Founder) -> TribeModel {
        TribeModel { roster: self.roster.update(self.index_of(id), f), ..self }
    }

    /// The activation rule: a forming tribe in which no founder blocks
    /// activation becomes enabled; any other state stays as it is.
    pub open spec fn activated(self) -> TribeModel {
        if self.status == TribeStatus::Forming && none_pending(self.roster) {
            TribeModel { status: TribeStatus::Enabled, ..self }
        } else {
            self
        }
    }

    /// Founder `caller` accepts the tribe: the next state and the result.
    pub open spec fn accept(self, caller: AccountId) -> (TribeModel, Result<(), TribeError>) {
        if let Some(e) = self.guard() {
            (self, Err(e))
        } else if !self.has_founder(caller) {
            (self, Err(TribeError::NotAFounder))
        } else if self.founder(caller).spec_is_rejected() {
            (self, Err(TribeError::FounderRejectedInvitation))
        } else {
            (self.set_founder(caller, self.founder(caller).with_vote(Vote::Accepted)), Ok(()))
        }
    }

    /// Founder `caller` rejects the tribe: a required founder ends it, an
    /// optional one may let it activate.
    pub open spec fn reject(self, caller: AccountId) -> (TribeModel, Result<(), TribeError>) {
        if let Some(e) = self.guard() {
            (self, Err(e))
        } else if !self.has_founder(caller) {
            (self, Err(TribeError::NotAFounder))
        } else {
            let next = self.set_founder(caller, self.founder(caller).with_vote(Vote::Rejected));
            if self.founder(caller).required {
                (TribeModel { status: TribeStatus::Defunct, ..next }, Ok(()))
            } else {
                (next.activated(), Ok(()))
            }
        }
    }

    /// Founder `caller` pays in `value`: the next state and the founder's new total.
    pub open spec fn fund(self, caller: AccountId, value: u128) -> (TribeModel, Result<u128, TribeError>) {
        if let Some(e) = self.guard() {
            (self, Err(e))
        } else if !self.has_founder(caller) {
            (self, Err(TribeError::NotAFounder))
        } else {
            match self.founder(caller).fund_result(value) {
                Err(e) => (self, Err(e)),
                Ok(total) => (self.set_founder(caller, self.founder(caller).with_funded(total)).activated(), Ok(total)),
            }
        }
    }

    /// Founder `caller` invites `target`, who pledges `promised`.
    pub open spec fn invite(self, caller: AccountId, target: AccountId, promised: u128, required: bool) -> (
        TribeModel,
        Result<(), TribeError>,
    ) {
        if let Some(e) = self.guard() {
            (self, Err(e))
        } else if caller == target {
            (self, Err(TribeError::CanNotInviteInitialFounder))
        } else if !self.has_founder(caller) {
            (self, Err(TribeError::NotAFounder))
        } else if !self.founder(caller).initial {
            (self, Err(TribeError::NotInitialFounder))
        } else if let Some(e) = invite_block(self.roster, target) {
            (self, Err(e))
        } else if promised == 0 {
            (self, Err(TribeError::AmountPromisedIsZero))
        } else {
            (TribeModel { roster: self.roster.push(Founder::fresh(target, false, required, promised)), ..self }, Ok(()))
        }
    }

    /// A payment of `value` by `caller` cannot overflow that founder's total.
    pub open spec fn fund_fits(self, caller: AccountId, value: u128) -> bool {
        self.has_founder(caller) ==> self.founder(caller).can_take(value)
    }

    /// The status report of the tribe, as shown to people.
    pub open spec fn report(self) -> Seq<char> {
        "{\n    \"name\": "@ + self.name
            + ",\n    \"enabled\": "@ + bool_text(self.status == TribeStatus::Enabled)
            + ",\n    \"defunct\": "@ + bool_text(self.status == TribeStatus::Defunct)
            + "\n}"@
    }
}

/// In a well-formed state, the position of a founder found by any means is `index_of`.
pub proof fn lemma_index_of(t: TribeModel, id: AccountId, i: int)
    requires
        t.wf(),
        0 <= i < t.roster.len(),
        t.roster[i].id == id,
    ensures
        t.has_founder(id),
        t.index_of(id) == i,
{
    let j = t.index_of(id);
    assert(0 <= j < t.roster.len() && t.roster[j].id == id);
}

/// Replacing one record of a forming tribe by one with the same pledge keeps
/// the state well formed, before and after the activation rule.
pub proof fn lemma_update_keeps_wf(t: TribeModel, i: int, f: Founder)
    requires
        t.wf(),
        t.status == TribeStatus::Forming,
        0 <= i < t.roster.len(),
        f.id == t.roster[i].id,
        f.initial == t.roster[i].initial,
        f.required == t.roster[i].required,
        f.amount_promised == t.roster[i].amount_promised,
    ensures
        (TribeModel { roster: t.roster.update(i, f), ..t }).wf(),
        (TribeModel { roster: t.roster.update(i, f), ..t }).activated().wf(),
{
    let next = TribeModel { roster: t.roster.update(i, f), ..t };
    assert(ids_unique(next.roster)) by {
        assert forall|a: int, b: int|
            0 <= a < next.roster.len() && 0 <= b < next.roster.len() && a != b implies next.roster[a].id
            != next.roster[b].id by {
            assert(t.roster[a].id != t.roster[b].id);
        }
    }
}

/// If `j` is the first position that blocks `target`, it decides the refusal.
pub proof fn lemma_first_block(roster: Seq<Founder>, target: AccountId, j: int)
    requires
        is_first_block(roster, target, j),
    ensures
        invite_block(roster, target) == (if roster[j].id == target {
            Some(TribeError::FounderAlreadyInvited)
        } else {
            Some(TribeError::TribeIsLocked)
        }),
{
    let c = choose|c: int| is_first_block(roster, target, c);
    assert(is_first_block(roster, target, c));
    if c < j {
        assert(!blocks_invite(roster[c], target));
    } else if c > j {
        assert(!blocks_invite(roster[j], target));
    }
}

/// A tribe: its name, its lifecycle status and its roster of founders, the
/// initial founder first. Every operation either commits all of its effects
/// or, on an error, leaves the tribe as it was.
pub struct TribeContract {
    name: String,
    status: TribeStatus,
    founders: Vec<Founder>,
}

impl View for TribeContract {
    type V = TribeModel;

    closed spec fn view(&self) -> TribeModel {
        TribeModel { name: self.name@, status: self.status, roster: self.founders@ }
    }
}

impl TribeContract {
    pub open spec fn wf(&self) -> bool {
        self@.wf()
    }

    /// Creates a tribe whose only founder is `caller`, the initial founder,
    /// who pledges `initial_founder_amount_in_pico_needed`.
    pub fn new(caller: AccountId, init_name: String, initial_founder_amount_in_pico_needed: u128) -> (r: Result<
        TribeContract,
        TribeError,
    >)
        ensures
            initial_founder_amount_in_pico_needed == 0 ==> r is Err && r->Err_0
                == TribeError::AmountPromisedIsZero,
            initial_founder_amount_in_pico_needed > 0 ==> r is Ok && r->Ok_0.wf() && r->Ok_0@ == TribeModel::created(
                caller,
                init_name@,
                initial_founder_amount_in_pico_needed,
            ),
    {
        let founder = Founder::initial_founder(caller, initial_founder_amount_in_pico_needed)?;
        let mut founders: Vec<Founder> = Vec::new();
        founders.push(founder);
        let tribe = TribeContract { name: init_name, status: TribeStatus::Forming, founders };
        assert(tribe@.roster =~= seq![founder]);
        Ok(tribe)
    }

    /// Fails when the tribe no longer accepts founder actions.
    fn general_tribe_check(&self) -> (r: Result<(), TribeError>)
        ensures
            r == (match self@.guard() {
                Some(e) => Err(e),
                None => Ok(()),
            }),
    {
        match self.status {
            TribeStatus::Defunct => Err(TribeError::TribeIsDefunct),
            TribeStatus::Enabled => Err(TribeError::ActiveTribeCannotAcceptFounderAction),
            TribeStatus::Forming => Ok(()),
        }
    }

    /// The position of founder `founder_id` in the roster.
    pub fn get_founder_index(&self, founder_id: AccountId) -> (r: Result<usize, TribeError>)
        requires
            self.wf(),
        ensures
            r is Ok <==> self@.has_founder(founder_id),
            r is Ok ==> r->Ok_0 == self@.index_of(founder_id),
            r is Err ==> r->Err_0 == TribeError::NotAFounder,
    {
        let mut index: usize = 0;
        while index < self.founders.len()
            invariant
                self.wf(),
                0 <= index <= self.founders@.len(),
                forall|k: int| 0 <= k < index ==> self.founders@[k].id != founder_id,
            decreases self.founders@.len() - index,
        {
            if self.founders[index].id == founder_id {
                proof {
                    lemma_index_of(self@, founder_id, index as int);
                }
                return Ok(index);
            }
            index = index + 1;
        }
        Err(TribeError::NotAFounder)
    }

    /// A copy of the roster, in roster order.
    pub fn get_founder_list(&self) -> (r: Vec<Founder>)
        ensures
            r@ == self@.roster,
    {
        let mut list: Vec<Founder> = Vec::new();
        let mut i: usize = 0;
        while i < self.founders.len()
            invariant
                0 <= i <= self.founders@.len(),
                list@ == self.founders@.subrange(0, i as int),
            decreases self.founders@.len() - i,
        {
            list.push(self.founders[i]);
            i = i + 1;
            assert(list@ =~= self.founders@.subrange(0, i as int));
        }
        assert(list@ =~= self.founders@);
        list
    }

    /// Applies the activation rule: a forming tribe in which no founder still
    /// blocks activation becomes enabled.
    pub fn activate_tribe(&mut self)
        requires
            old(self).wf(),
        ensures
            final(self)@ == old(self)@.activated(),
            final(self).wf(),
    {
        if self.status != TribeStatus::Forming {
            return;
        }
        let mut i: usize = 0;
        while i < self.founders.len()
            invariant
                self.wf(),
                self.status == TribeStatus::Forming,
                0 <= i <= self.founders@.len(),
                forall|k: int| 0 <= k < i ==> !self.founders@[k].spec_has_pending_activity(),
            decreases self.founders@.len() - i,
        {
            if self.founders[i].has_pending_activity() {
                assert(!none_pending(self@.roster));
                return;
            }
            i = i + 1;
        }
        self.status = TribeStatus::Enabled;
    }

    /// Founder `caller` accepts the tribe, which they must do before paying in.
    pub fn accept_tribe(&mut self, caller: AccountId) -> (r: Result<(), TribeError>)
        requires
            old(self).wf(),
        ensures
            final(self).wf(),
            (final(self)@, r) == old(self)@.accept(caller),
    {
        self.general_tribe_check()?;
        let index = self.get_founder_index(caller)?;
        let mut founder = self.founders[index];
        if founder.is_rejected() {
            return Err(TribeError::FounderRejectedInvitation);
        }
        founder.vote_accept();
        proof {
            lemma_update_keeps_wf(self@, index as int, founder);
        }
        self.founders.set(index, founder);
        Ok(())
    }

    /// Founder `caller` rejects the tribe. A required founder's rejection makes
    /// the tribe defunct at once; an optional founder's may let it activate.
    pub fn reject_tribe(&mut self, caller: AccountId) -> (r: Result<(), TribeError>)
        requires
            old(self).wf(),
        ensures
            final(self).wf(),
            (final(self)@, r) == old(self)@.reject(caller),
    {
        self.general_tribe_check()?;
        let index = self.get_founder_index(caller)?;
        let mut founder = self.founders[index];
        founder.vote_reject();
        proof {
            lemma_update_keeps_wf(self@, index as int, founder);
        }
        self.founders.set(index, founder);
        if founder.required {
            self.status = TribeStatus::Defunct;
        } else {
            self.activate_tribe();
        }
        Ok(())
    }

    /// Founder `caller` pays `value` in; returns what that founder has paid
    /// in all, and activates the tribe once nobody blocks it.
    pub fn fund_tribe(&mut self, caller: AccountId, value: u128) -> (r: Result<u128, TribeError>)
        requires
            old(self).wf(),
            old(self)@.fund_fits(caller, value),
        ensures
            final(self).wf(),
            (final(self)@, r) == old(self)@.fund(caller, value),
    {
        self.general_tribe_check()?;
        let index = self.get_founder_index(caller)?;
        let mut founder = self.founders[index];
        let total = founder.fund(value)?;
        proof {
            lemma_update_keeps_wf(self@, index as int, founder);
        }
        self.founders.set(index, founder);
        self.activate_tribe();
        Ok(total)
    }

    /// Whether a payment of `value` by `caller` keeps that founder's total
    /// within range, as `fund_tribe` requires.
    pub fn can_fund(&self, caller: AccountId, value: u128) -> (r: bool)
        requires
            self.wf(),
        ensures
            r == self@.fund_fits(caller, value),
    {
        match self.get_founder_index(caller) {
            Ok(index) => self.founders[index].amount_funded <= u128::MAX - value,
            Err(_) => true,
        }
    }

    /// The initial founder `caller` invites `potential_founder`, who pledges
    /// `amount_in_pico`. Invitations close as soon as any founder has resolved
    /// their obligation or paid anything in.
    pub fn invite_founder(
        &mut self,
        caller: AccountId,
        potential_founder: AccountId,
        amount_in_pico: u128,
        required: bool,
    ) -> (r: Result<(), TribeError>)
        requires
            old(self).wf(),
        ensures
            final(self).wf(),
            (final(self)@, r) == old(self)@.invite(caller, potential_founder, amount_in_pico, required),
    {
        self.general_tribe_check()?;
        if caller == potential_founder {
            return Err(TribeError::CanNotInviteInitialFounder);
        }
        let index = self.get_founder_index(caller)?;
        if !self.founders[index].initial {
            return Err(TribeError::NotInitialFounder);
        }
        let mut j: usize = 0;
        while j < self.founders.len()
            invariant
                self@ == old(self)@,
                self.wf(),
                old(self)@.guard() is None,
                caller != potential_founder,
                old(self)@.has_founder(caller),
                old(self)@.founder(caller).initial,
                0 <= j <= self.founders@.len(),
                forall|k: int| 0 <= k < j ==> !blocks_invite(self.founders@[k], potential_founder),
            decreases self.founders@.len() - j,
        {
            let founder = self.founders[j];
            if founder.id == potential_founder {
                proof {
                    lemma_first_block(self@.roster, potential_founder, j as int);
                }
                return Err(TribeError::FounderAlreadyInvited);
            }
            if !founder.has_pending_activity() || founder.has_funds() {
                proof {
                    lemma_first_block(self@.roster, potential_founder, j as int);
                }
                return Err(TribeError::TribeIsLocked);
            }
            j = j + 1;
        }
        let new_founder = Founder::new(potential_founder, required, amount_in_pico)?;
        let ghost before = self@;
        self.founders.push(new_founder);
        proof {
            assert(ids_unique(self@.roster)) by {
                assert forall|a: int, b: int|
                    0 <= a < self@.roster.len() && 0 <= b < self@.roster.len() && a != b implies self@.roster[a].id
                    != self@.roster[b].id by {
                    if a < before.roster.len() && b < before.roster.len() {
                        assert(before.roster[a].id != before.roster[b].id);
                    } else if a < before.roster.len() {
                        assert(!blocks_invite(before.roster[a], potential_founder));
                    } else {
                        assert(!blocks_invite(before.roster[b], potential_founder));
                    }
                }
            }
        }
        Ok(())
    }

    /// The status report of founder `founder`, or the message saying that no
    /// such founder exists.
    pub fn get_founder_status(&self, founder: AccountId) -> (r: String)
        requires
            self.wf(),
        ensures
            r@ == (if self@.has_founder(founder) {
                self@.founder(founder).description()
            } else {
                error_text(TribeError::NotAFounder)
            }),
    {
        match self.get_founder_index(founder) {
            Ok(index) => self.founders[index].describe(),
            Err(err) => err.fmt(),
        }
    }

    /// The status report of the tribe: its name and whether it is enabled or defunct.
    pub fn get_tribe(&self) -> (r: String)
        ensures
            r@ == self@.report(),
    {
        let mut out = String::from_str("{\n    \"name\": ");
        out.append(self.name.as_str());
        out.append(",\n    \"enabled\": ");
        push_bool(&mut out, self.status == TribeStatus::Enabled);
        out.append(",\n    \"defunct\": ");
        push_bool(&mut out, self.status == TribeStatus::Defunct);
        out.append("\n}");
        out
    }

    pub fn name(&self) -> (r: &str)
        ensures
            r@ == self@.name,
    {
        self.name.as_str()
    }

    pub fn status(&self) -> (r: TribeStatus)
        ensures
            r == self@.status,
    {
        self.status
    }

    pub fn is_enabled(&self) -> (r: bool)
        ensures
            r == (self@.status == TribeStatus::Enabled),
    {
        self.status == TribeStatus::Enabled
    }

    pub fn is_defunct(&self) -> (r: bool)
        ensures
            r == (self@.status == TribeStatus::Defunct),
    {
        self.status == TribeStatus::Defunct
    }
}

} // verus!
