use tribe::{AccountId, Founder, TribeError, Vote};

#[test]
fn new_0() {
    let id = AccountId::from([0x0; 32]);
    let founder = Founder::new(id, false, 1234).expect("expected founder");
    assert_eq!(founder.id, id);
    assert!(founder.initial == false);
    assert_eq!(founder.required, false);
    assert_eq!(founder.amount_promised, 1234);
    assert_eq!(founder.amount_funded, 0);
}

#[test]
fn new_1() {
    let id = AccountId::from([0x0; 32]);
    let founder = Founder::new(id, true, 1234).expect("expected founder");
    assert_eq!(founder.id, id);
    assert!(founder.initial == false);
    assert_eq!(founder.required, true);
    assert_eq!(founder.amount_promised, 1234);
    assert_eq!(founder.amount_funded, 0);
}

#[test]
fn new_2() {
    let id = AccountId::from([0x0; 32]);
    let founder = Founder::new(id, false, 8899).expect("expected founder");
    assert_eq!(founder.id, id);
    assert!(founder.initial == false);
    assert_eq!(founder.required, false);
    assert_eq!(founder.amount_promised, 8899);
    assert_eq!(founder.amount_funded, 0);
}

#[test]
fn new_3() {
    let id = AccountId::from([0x0; 32]);
    let founder = Founder::new(id, true, 8899).expect("expected founder");
    assert_eq!(founder.id, id);
    assert!(founder.initial == false);
    assert_eq!(founder.required, true);
    assert_eq!(founder.amount_promised, 8899);
    assert_eq!(founder.amount_funded, 0);
}

#[test]
fn new_fails_when_amount_promised_is_zero() {
    let alice = AccountId::from([0x0; 32]);
    match Founder::new(alice, false, 0) {
        Ok(_) => assert!(false, "Should NOT have passed"),
        Err(e) => assert_eq!(e, TribeError::AmountPromisedIsZero),
    };
}

#[test]
fn initial_founder_can_create() {
    let alice = AccountId::from([0x0; 32]);
    let founder = Founder::initial_founder(alice, 1234).expect("expected founder");
    assert_eq!(founder.id, alice);
    assert!(founder.initial);
    assert!(founder.required);
    assert_eq!(founder.amount_promised, 1234);
    assert_eq!(founder.amount_funded, 0);
}

#[test]
fn initial_founder_fails_when_amount_promised_is_zero() {
    let alice = AccountId::from([0x0; 32]);
    match Founder::initial_founder(alice, 0) {
        Ok(_) => assert!(false, "Should NOT have passed."),
        Err(e) => assert_eq!(e, TribeError::AmountPromisedIsZero),
    };
}

#[test]
fn fund_should_fail_when_tribe_is_not_accepted() {
    let alice = AccountId::from([0x0; 32]);
    let mut founder = Founder::new(alice, true, 5000).expect("expected founder");
    match founder.fund(5000) {
        Ok(_) => assert!(false, "Should not have passed"),
        Err(err) => assert_eq!(err, TribeError::FounderVoteActionPending),
    }
}

#[test]
fn fund_should_fail_when_founder_rejected_tribe() {
    let alice = AccountId::from([0x0; 32]);
    let mut founder = Founder::new(alice, true, 5000).expect("expected founder");
    founder.vote_action = Vote::Rejected;
    match founder.fund(2000) {
        Ok(_) => assert!(false, "Should not have passed"),
        Err(err) => assert_eq!(err, TribeError::FounderRejectedInvitation),
    }
}

#[test]
fn fund_should_fail_with_zero_fund_amount() {
    let alice = AccountId::from([0x0; 32]);
    let mut founder = Founder::new(alice, true, 5000).expect("expected founder");
    match founder.fund(0) {
        Ok(_) => assert!(false, "Should not have passed"),
        Err(err) => assert_eq!(err, TribeError::FundingAmountMustBeGreaterThanZero),
    }
}

#[test]
fn fund_should_pass_when_tribe_is_accepted() {
    let alice = AccountId::from([0x0; 32]);
    let mut founder = Founder::new(alice, true, 5000).expect("expected founder");
    founder.vote_action = Vote::Accepted;
    let amount = founder.fund(5000).expect("funding ok");
    assert_eq!(amount, 5000);
}

#[test]
fn fund_should_allow_multiple_funding_events_until_promise_amount() {
    let alice = AccountId::from([0x0; 32]);
    let mut founder = Founder::new(alice, true, 5000).expect("expected founder");
    founder.vote_action = Vote::Accepted;
    let round1 = founder.fund(2000).expect("funding ok");
    let round2 = founder.fund(2000).expect("funding ok");
    let round3 = founder.fund(2000).expect("funding ok");
    assert_eq!(round1, 2000);
    assert_eq!(round2, 4000);
    assert_eq!(round3, 6000);
    assert!(founder.is_funded());
}

#[test]
fn fund_should_fail_when_founder_already_funded() {
    let alice = AccountId::from([0x0; 32]);
    let mut founder = Founder::new(alice, true, 5000).expect("expected founder");
    founder.vote_action = Vote::Accepted;
    assert_eq!(founder.is_funded(), false);
    founder.fund(5000).expect("funding ok");
    assert!(founder.is_funded());
    match founder.fund(5000) {
        Ok(_) => assert!(false, "Should not have passed"),
        Err(err) => assert_eq!(err, TribeError::FundingAlreadyCompleted),
    }
}

#[test]
fn has_funds_should_return_true() {
    let alice = AccountId::from([0x0; 32]);
    let mut founder = Founder::new(alice, true, 5000).expect("expected founder");
    founder.vote_action = Vote::Accepted;
    founder.fund(100).expect("funding should be ok");
    assert!(founder.has_funds())
}

#[test]
fn has_funds_should_return_false() {
    let alice = AccountId::from([0x0; 32]);
    let founder = Founder::new(alice, true, 5000).expect("expected founder");
    assert_eq!(founder.has_funds(), false)
}

#[test]
fn required_pending_5000_0() {
    let alice = AccountId::from([0x0; 32]);
    let mut founder = Founder::new(alice, true, 5000).expect("expected founder");
    if 0 > 0 {
        founder.vote_action = Vote::Accepted;
        founder.fund(0).expect("ok");
    }
    founder.vote_action = Vote::Pending;
    let result = founder.has_pending_activity();
    assert_eq!(true, result);
}

#[test]
fn required_accepted_5000_0() {
    let alice = AccountId::from([0x0; 32]);
    let mut founder = Founder::new(alice, true, 5000).expect("expected founder");
    if 0 > 0 {
        founder.vote_action = Vote::Accepted;
        founder.fund(0).expect("ok");
    }
    founder.vote_action = Vote::Accepted;
    let result = founder.has_pending_activity();
    assert_eq!(true, result);
}

#[test]
fn required_accepted_5000_5000() {
    let alice = AccountId::from([0x0; 32]);
    let mut founder = Founder::new(alice, true, 5000).expect("expected founder");
    if 5000 > 0 {
        founder.vote_action = Vote::Accepted;
        founder.fund(5000).expect("ok");
    }
    founder.vote_action = Vote::Accepted;
    let result = founder.has_pending_activity();
    assert_eq!(false, result);
}

#[test]
fn required_rejected_5000_0() {
    let alice = AccountId::from([0x0; 32]);
    let mut founder = Founder::new(alice, true, 5000).expect("expected founder");
    if 0 > 0 {
        founder.vote_action = Vote::Accepted;
        founder.fund(0).expect("ok");
    }
    founder.vote_action = Vote::Rejected;
    let result = founder.has_pending_activity();
    assert_eq!(false, result);
}

#[test]
fn required_rejected_5000_5000() {
    let alice = AccountId::from([0x0; 32]);
    let mut founder = Founder::new(alice, true, 5000).expect("expected founder");
    if 5000 > 0 {
        founder.vote_action = Vote::Accepted;
        founder.fund(5000).expect("ok");
    }
    founder.vote_action = Vote::Rejected;
    let result = founder.has_pending_activity();
    assert_eq!(false, result);
}

#[test]
fn optional_pending_5000_0() {
    let alice = AccountId::from([0x0; 32]);
    let mut founder = Founder::new(alice, false, 5000).expect("expected founder");
    if 0 > 0 {
        founder.vote_action = Vote::Accepted;
        founder.fund(0).expect("ok");
    }
    founder.vote_action = Vote::Pending;
    let result = founder.has_pending_activity();
    assert_eq!(false, result);
}

#[test]
fn optional_accepted_5000_0() {
    let alice = AccountId::from([0x0; 32]);
    let mut founder = Founder::new(alice, false, 5000).expect("expected founder");
    if 0 > 0 {
        founder.vote_action = Vote::Accepted;
        founder.fund(0).expect("ok");
    }
    founder.vote_action = Vote::Accepted;
    let result = founder.has_pending_activity();
    assert_eq!(true, result);
}

#[test]
fn optional_accepted_5000_5000() {
    let alice = AccountId::from([0x0; 32]);
    let mut founder = Founder::new(alice, false, 5000).expect("expected founder");
    if 5000 > 0 {
        founder.vote_action = Vote::Accepted;
        founder.fund(5000).expect("ok");
    }
    founder.vote_action = Vote::Accepted;
    let result = founder.has_pending_activity();
    assert_eq!(false, result);
}

#[test]
fn optional_rejected_5000_0() {
    let alice = AccountId::from([0x0; 32]);
    let mut founder = Founder::new(alice, false, 5000).expect("expected founder");
    if 0 > 0 {
        founder.vote_action = Vote::Accepted;
        founder.fund(0).expect("ok");
    }
    founder.vote_action = Vote::Rejected;
    let result = founder.has_pending_activity();
    assert_eq!(false, result);
}

#[test]
fn optional_rejected_5000_5000() {
    let alice = AccountId::from([0x0; 32]);
    let mut founder = Founder::new(alice, false, 5000).expect("expected founder");
    if 5000 > 0 {
        founder.vote_action = Vote::Accepted;
        founder.fund(5000).expect("ok");
    }
    founder.vote_action = Vote::Rejected;
    let result = founder.has_pending_activity();
    assert_eq!(false, result);
}

#[test]
fn is_accpted_true_with_required_founder_accepted() {
    let alice = AccountId::from([0x0; 32]);
    let mut founder = Founder::new(alice, true, 5555).expect("expected founder");
    founder.vote_action = Vote::Accepted;
    let result = founder.is_accepted();
    assert!(founder.initial == false);
    assert_eq!(founder.required, true);
    assert_eq!(true, result);
}

#[test]
fn is_accpted_false_with_required_founder_pending() {
    let alice = AccountId::from([0x0; 32]);
    let mut founder = Founder::new(alice, true, 5555).expect("expected founder");
    founder.vote_action = Vote::Pending;
    let result = founder.is_accepted();
    assert!(founder.initial == false);
    assert_eq!(founder.required, true);
    assert_eq!(false, result);
}

#[test]
fn is_accpted_false_with_required_founder_rejected() {
    let alice = AccountId::from([0x0; 32]);
    let mut founder = Founder::new(alice, true, 5555).expect("expected founder");
    founder.vote_action = Vote::Rejected;
    let result = founder.is_accepted();
    assert!(founder.initial == false);
    assert_eq!(founder.required, true);
    assert_eq!(false, result);
}

#[test]
fn is_accpted_true_with_founder_accepted() {
    let alice = AccountId::from([0x0; 32]);
    let mut founder = Founder::new(alice, false, 5555).expect("expected founder");
    founder.vote_action = Vote::Accepted;
    let result = founder.is_accepted();
    assert!(founder.initial == false);
    assert_eq!(founder.required, false);
    assert_eq!(true, result);
}

#[test]
fn is_accpted_false_with_founder_pending() {
    let alice = AccountId::from([0x0; 32]);
    let mut founder = Founder::new(alice, false, 5555).expect("expected founder");
    founder.vote_action = Vote::Pending;
    let result = founder.is_accepted();
    assert!(founder.initial == false);
    assert_eq!(founder.required, false);
    assert_eq!(false, result);
}

#[test]
fn is_accpted_false_with_founder_rejected() {
    let alice = AccountId::from([0x0; 32]);
    let mut founder = Founder::new(alice, false, 5555).expect("expected founder");
    founder.vote_action = Vote::Rejected;
    let result = founder.is_accepted();
    assert!(founder.initial == false);
    assert_eq!(founder.required, false);
    assert_eq!(false, result);
}

#[test]
fn is_funded_should_return_expected() {
    let alice = AccountId::from([0x0; 32]);
    let mut founder = Founder::new(alice, true, 5000).expect("expected founder");
    founder.vote_action = Vote::Accepted;
    assert_eq!(founder.is_funded(), false);
    assert_eq!(founder.fund(1000).expect("funding should pass"), 1000);
    assert_eq!(founder.is_funded(), false);
    assert_eq!(founder.fund(1000).expect("funding should pass"), 2000);
    assert_eq!(founder.is_funded(), false);
    assert_eq!(founder.fund(1000).expect("funding should pass"), 3000);
    assert_eq!(founder.is_funded(), false);
    assert_eq!(founder.fund(1000).expect("funding should pass"), 4000);
    assert_eq!(founder.is_funded(), false);
    assert_eq!(founder.fund(1000).expect("funding should pass"), 5000);
    assert!(founder.is_funded());
}

#[test]
fn founder_is_rejected_pending() {
    let alice = AccountId::from([0x0; 32]);
    let mut founder = Founder::new(alice, true, 5000).expect("expected founder");
    founder.vote_action = Vote::Pending;
    let result = founder.is_rejected();
    assert_eq!(false, result);
}

#[test]
fn founder_is_rejected_accepted() {
    let alice = AccountId::from([0x0; 32]);
    let mut founder = Founder::new(alice, true, 5000).expect("expected founder");
    founder.vote_action = Vote::Accepted;
    let result = founder.is_rejected();
    assert_eq!(false, result);
}

#[test]
fn founder_is_rejected_rejected() {
    let alice = AccountId::from([0x0; 32]);
    let mut founder = Founder::new(alice, true, 5000).expect("expected founder");
    founder.vote_action = Vote::Rejected;
    let result = founder.is_rejected();
    assert_eq!(true, result);
}
