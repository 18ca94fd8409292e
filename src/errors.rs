//! The error kinds of the protocol and their human-readable messages.
use vstd::prelude::*;

verus! {

/// Every way an operation on a founder or a tribe can be refused.
#[derive(PartialEq, Eq, Structural, Clone, Copy, Debug)]
pub enum TribeError {
    ActiveTribeCannotAcceptFounderAction,
    AmountPromisedIsZero,
    CanNotInviteInitialFounder,
    FounderAlreadyInvited,
    FounderListNotFound,
    FounderRejectedInvitation,
    FounderVoteActionPending,
    FundingAlreadyCompleted,
    FundingAmountMustBeGreaterThanZero,
    NotAFounder,
    NotInitialFounder,
    TribeIsDefunct,
    TribeIsLocked,
}

/// The message shown to a person for each error kind.
pub open spec fn error_text(e: TribeError) -> Seq<char> {
    match e {
        TribeError::ActiveTribeCannotAcceptFounderAction => "Active tribe cannot accept founder action"@,
        TribeError::AmountPromisedIsZero => "Amount promised in pico must be greater than 0"@,
        TribeError::CanNotInviteInitialFounder => "The initial founder can not be invited to join their own tribe"@,
        TribeError::FounderAlreadyInvited => "AccountId already exists as a Founder"@,
        TribeError::FounderListNotFound => "Tribe list of founders  not found"@,
        TribeError::FounderRejectedInvitation => "Founder already rejected invitation to tribe"@,
        TribeError::FounderVoteActionPending => "Founder has not taken an action on pending invitation"@,
        TribeError::FundingAlreadyCompleted => "Founder has already completed funding"@,
        TribeError::FundingAmountMustBeGreaterThanZero => "Funding amount must be greater than zero amount"@,
        TribeError::NotAFounder => "AccountId is not a Founder"@,
        TribeError::NotInitialFounder => "AccountId is not the Initial Founder"@,
        TribeError::TribeIsDefunct => "Tribe is defunct and cannot accept any more activity"@,
        TribeError::TribeIsLocked => "Tribe is locked due to founder activity"@,
    }
}

/// Rendering of a value as text for people.
pub trait MyDisplay {
    fn fmt(&self) -> String;
}

impl MyDisplay for TribeError {
    fn fmt(&self) -> (r: String)
        ensures
            r@ == error_text(*self),
    {
        let text = match self {
            TribeError::ActiveTribeCannotAcceptFounderAction => "Active tribe cannot accept founder action",
            TribeError::AmountPromisedIsZero => "Amount promised in pico must be greater than 0",
            TribeError::CanNotInviteInitialFounder => "The initial founder can not be invited to join their own tribe",
            TribeError::FounderAlreadyInvited => "AccountId already exists as a Founder",
            TribeError::FounderListNotFound => "Tribe list of founders  not found",
            TribeError::FounderRejectedInvitation => "Founder already rejected invitation to tribe",
            TribeError::FounderVoteActionPending => "Founder has not taken an action on pending invitation",
            TribeError::FundingAlreadyCompleted => "Founder has already completed funding",
            TribeError::FundingAmountMustBeGreaterThanZero => "Funding amount must be greater than zero amount",
            TribeError::NotAFounder => "AccountId is not a Founder",
            TribeError::NotInitialFounder => "AccountId is not the Initial Founder",
            TribeError::TribeIsDefunct => "Tribe is defunct and cannot accept any more activity",
            TribeError::TribeIsLocked => "Tribe is locked due to founder activity",
        };
        String::from_str(text)
    }
}

} // verus!
