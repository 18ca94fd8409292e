//! One founder's pledge, vote and funding, and the transitions between them.
use vstd::prelude::*;

use crate::account::AccountId;
use crate::errors::TribeError;
use crate::text::{bool_text, decimal, push_bool, push_decimal};

verus! {

/// A founder's vote on the tribe.
#[derive(PartialEq, Eq, Structural, Clone, Copy, Debug)]
pub enum Vote {
    Pending,
    Accepted,
    Rejected,
}

/// One participant of a tribe: what they promised, how they voted and what
/// they have paid in so far.
#[derive(Clone, Copy, Debug)]
pub struct Founder {
    pub id: AccountId,
    pub initial: bool,
    pub required: bool,
    pub vote_action: Vote,
    pub amount_promised: u128,
    pub amount_funded: u128,
}

/// The sum of `amounts`.
pub open spec fn total(amounts: Seq<u128>) -> nat
    decreases amounts.len(),
{
    if amounts.len() == 0 {
        0
    } else {
        total(amounts.drop_last()) + amounts.last() as nat
    }
}

/// The record of `f` after `amounts` were offered to `fund` one after another,
/// in order; a refused offer leaves the record as it was.
pub open spec fn after_payments(f: Founder, amounts: Seq<u128>) -> Founder
    decreases amounts.len(),
{
    if amounts.len() == 0 {
        f
    } else {
        let g = after_payments(f, amounts.drop_last());
        match g.fund_result(amounts.last()) {
            Ok(t) => g.with_funded(t),
            Err(_) => g,
        }
    }
}

/// The offers among `amounts` that `fund` took, in order.
pub open spec fn taken_payments(f: Founder, amounts: Seq<u128>) -> Seq<u128>
    decreases amounts.len(),
{
    if amounts.len() == 0 {
        Seq::empty()
    } else {
        let rest = taken_payments(f, amounts.drop_last());
        if after_payments(f, amounts.drop_last()).fund_result(amounts.last()) is Ok {
            rest.push(amounts.last())
        } else {
            rest
        }
    }
}

impl Founder {
    /// Holds of every founder record the protocol can produce.
    pub open spec fn wf(&self) -> bool {
        self.amount_promised > 0
    }

    /// The record of a founder just invited, before any vote or payment.
    pub open spec fn fresh(id: AccountId, initial: bool, required: bool, promised: u128) -> Founder {
        Founder { id, initial, required, vote_action: Vote::Pending, amount_promised: promised, amount_funded: 0 }
    }

    /// This record with the vote changed to `v`.
    pub open spec fn with_vote(self, v: Vote) -> Founder {
        Founder { vote_action: v, ..self }
    }

    /// This record with `total` paid in.
    pub open spec fn with_funded(self, total: u128) -> Founder {
        Founder { amount_funded: total, ..self }
    }

    pub open spec fn spec_is_accepted(&self) -> bool {
        self.vote_action == Vote::Accepted
    }

    pub open spec fn spec_is_rejected(&self) -> bool {
        self.vote_action == Vote::Rejected
    }

    pub open spec fn spec_is_funded(&self) -> bool {
        self.amount_funded >= self.amount_promised
    }

    pub open spec fn spec_has_funds(&self) -> bool {
        self.amount_funded > 0
    }

    /// Whether this founder still blocks the tribe from activating.
    pub open spec fn spec_has_pending_activity(&self) -> bool {
        if self.spec_is_rejected() {
            false
        } else if self.spec_is_funded() {
            false
        } else if self.vote_action == Vote::Pending {
            self.required
        } else {
            true
        }
    }

    /// The outcome of paying in `amount`: the new total, or why it is refused.
    pub open spec fn fund_result(&self, amount: u128) -> Result<u128, TribeError> {
        if amount == 0 {
            Err(TribeError::FundingAmountMustBeGreaterThanZero)
        } else if self.spec_is_rejected() {
            Err(TribeError::FounderRejectedInvitation)
        } else if !self.spec_is_accepted() {
            Err(TribeError::FounderVoteActionPending)
        } else if self.spec_is_funded() {
            Err(TribeError::FundingAlreadyCompleted)
        } else {
            Ok((self.amount_funded + amount) as u128)
        }
    }

    /// Paying in `amount` cannot overflow the running total.
    pub open spec fn can_take(&self, amount: u128) -> bool {
        self.amount_funded + amount <= u128::MAX
    }

    /// Creates a founder invited into a tribe; the promise must be above zero.
    pub fn new(id: AccountId, required: bool, amount_promised: u128) -> (r: Result<Founder, TribeError>)
        ensures
            amount_promised == 0 ==> r == Err::<Founder, TribeError>(TribeError::AmountPromisedIsZero),
            amount_promised > 0 ==> r == Ok::<Founder, TribeError>(Founder::fresh(id, false, required, amount_promised)),
    {
        if amount_promised > 0 {
            Ok(Founder {
                id,
                initial: false,
                required,
                vote_action: Vote::Pending,
                amount_promised,
                amount_funded: 0,
            })
        } else {
            Err(TribeError::AmountPromisedIsZero)
        }
    }

    /// Creates the founder who starts a tribe: always required.
    pub fn initial_founder(id: AccountId, amount_promised: u128) -> (r: Result<Founder, TribeError>)
        ensures
            amount_promised == 0 ==> r == Err::<Founder, TribeError>(TribeError::AmountPromisedIsZero),
            amount_promised > 0 ==> r == Ok::<Founder, TribeError>(Founder::fresh(id, true, true, amount_promised)),
    {
        let mut founder = Founder::new(id, true, amount_promised)?;
        founder.initial = true;
        Ok(founder)
    }

    /// Pays `amount` in; refused unless the founder has accepted, has not
    /// rejected, and has not yet paid the full promise.
    pub fn fund(&mut self, amount: u128) -> (r: Result<u128, TribeError>)
        requires
            old(self).can_take(amount),
        ensures
            r == old(self).fund_result(amount),
            r is Ok ==> *final(self) == old(self).with_funded(r->Ok_0),
            r is Err ==> *final(self) == *old(self),
    {
        if amount == 0 {
            return Err(TribeError::FundingAmountMustBeGreaterThanZero);
        }
        if self.is_rejected() {
            return Err(TribeError::FounderRejectedInvitation);
        }
        if !self.is_accepted() {
            return Err(TribeError::FounderVoteActionPending);
        }
        if self.is_funded() {
            return Err(TribeError::FundingAlreadyCompleted);
        }
        self.amount_funded = self.amount_funded + amount;
        Ok(self.amount_funded)
    }

    /// Records an acceptance.
    pub fn vote_accept(&mut self)
        ensures
            *final(self) == old(self).with_vote(Vote::Accepted),
    {
        self.vote_action = Vote::Accepted;
    }

    /// Records a rejection.
    pub fn vote_reject(&mut self)
        ensures
            *final(self) == old(self).with_vote(Vote::Rejected),
    {
        self.vote_action = Vote::Rejected;
    }

    pub fn has_funds(&self) -> (r: bool)
        ensures
            r == self.spec_has_funds(),
    {
        self.amount_funded > 0
    }

    /// Whether this founder still blocks the tribe from activating: a rejected
    /// or fully paid founder never does, a pending one does when required, and
    /// one who accepted does until paid in full.
    pub fn has_pending_activity(&self) -> (r: bool)
        ensures
            r == self.spec_has_pending_activity(),
    {
        if self.is_rejected() {
            false
        } else if self.is_funded() {
            false
        } else if self.vote_action == Vote::Pending {
            self.required
        } else {
            true
        }
    }

    pub fn is_accepted(&self) -> (r: bool)
        ensures
            r == self.spec_is_accepted(),
    {
        self.vote_action == Vote::Accepted
    }

    pub fn is_funded(&self) -> (r: bool)
        ensures
            r == self.spec_is_funded(),
    {
        self.amount_funded >= self.amount_promised
    }

    pub fn is_rejected(&self) -> (r: bool)
        ensures
            r == self.spec_is_rejected(),
    {
        self.vote_action == Vote::Rejected
    }

    /// The status report of this founder, as shown to people.
    pub open spec fn description(&self) -> Seq<char> {
        "{\n    \"initial\": "@ + bool_text(self.initial)
            + ",\n    \"required\": "@ + bool_text(self.required)
            + ",\n    \"rejected\": "@ + bool_text(self.spec_is_rejected())
            + ",\n    \"completed\": "@ + bool_text(!self.spec_has_pending_activity())
            + ",\n    \"amount_promised\": "@ + decimal(self.amount_promised as nat)
            + ",\n    \"amount_funded\": "@ + decimal(self.amount_funded as nat)
            + "\n}"@
    }

    /// Renders the status report of this founder.
    pub fn describe(&self) -> (r: String)
        ensures
            r@ == self.description(),
    {
        let mut out = String::from_str("{\n    \"initial\": ");
        push_bool(&mut out, self.initial);
        out.append(",\n    \"required\": ");
        push_bool(&mut out, self.required);
        out.append(",\n    \"rejected\": ");
        push_bool(&mut out, self.is_rejected());
        out.append(",\n    \"completed\": ");
        push_bool(&mut out, !self.has_pending_activity());
        out.append(",\n    \"amount_promised\": ");
        push_decimal(&mut out, self.amount_promised);
        out.append(",\n    \"amount_funded\": ");
        push_decimal(&mut out, self.amount_funded);
        out.append("\n}");
        out
    }
}

} // verus!
