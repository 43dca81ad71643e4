use lncashu::poller::{PollAction, QuoteState, SettlementPoller, SettlementRegistry};

#[test]
fn a_fresh_poller_waits_while_the_quote_is_unpaid() {
    let mut p = SettlementPoller::new();
    assert_eq!(p.observe(QuoteState::Unpaid), PollAction::Wait);
    assert_eq!(p.elapsed_secs, 10);
    assert_eq!(p.observe(QuoteState::Unpaid), PollAction::Wait);
    assert_eq!(p.elapsed_secs, 20);
    assert!(!p.finished);
    assert!(!p.claimed);
}

#[test]
fn a_poller_claims_exactly_once_when_the_quote_is_paid() {
    let mut p = SettlementPoller::new();
    assert_eq!(p.observe(QuoteState::Unpaid), PollAction::Wait);
    assert_eq!(p.observe(QuoteState::Paid), PollAction::Claim);
    assert!(p.claimed);
    assert!(p.finished);
    // The quote stays paid, but the finished task never claims again.
    assert_eq!(p.observe(QuoteState::Paid), PollAction::Stop);
    assert_eq!(p.observe(QuoteState::Unpaid), PollAction::Stop);
}

#[test]
fn a_poller_never_claims_after_the_timeout() {
    let mut p = SettlementPoller::new();
    // 18 unpaid checks bring the waited time to the 180-second timeout.
    for _ in 0..18 {
        assert_eq!(p.observe(QuoteState::Unpaid), PollAction::Wait);
    }
    assert_eq!(p.elapsed_secs, 180);
    // The quote becoming paid now is too late: the task stops unclaimed.
    assert_eq!(p.observe(QuoteState::Paid), PollAction::Stop);
    assert!(p.finished);
    assert!(!p.claimed);
    assert_eq!(p.observe(QuoteState::Paid), PollAction::Stop);
}

#[test]
fn the_registry_keeps_one_task_per_quote_id() {
    let mut registry = SettlementRegistry::new();
    let quote = "quote-a".to_string();
    assert!(!registry.contains(&quote));
    assert!(registry.schedule(&quote));
    assert!(registry.contains(&quote));
    // Scheduling the same quote again adds no second task.
    assert!(!registry.schedule(&quote));
    assert!(registry.contains(&quote));
}

#[test]
fn the_registry_steps_the_task_of_the_named_quote() {
    let mut registry = SettlementRegistry::new();
    let a = "quote-a".to_string();
    let b = "quote-b".to_string();
    registry.schedule(&a);
    registry.schedule(&b);
    assert_eq!(registry.step(&a, QuoteState::Unpaid), Some(PollAction::Wait));
    assert_eq!(registry.step(&a, QuoteState::Paid), Some(PollAction::Claim));
    // The other task is untouched and still claims on its own quote.
    assert_eq!(registry.step(&b, QuoteState::Paid), Some(PollAction::Claim));
    // A finished task stops for good.
    assert_eq!(registry.step(&a, QuoteState::Paid), Some(PollAction::Stop));
}

#[test]
fn stepping_an_unknown_quote_does_nothing() {
    let mut registry = SettlementRegistry::new();
    registry.schedule(&"quote-a".to_string());
    assert_eq!(registry.step(&"quote-b".to_string(), QuoteState::Paid), None);
}

#[test]
fn a_cancelled_task_never_claims() {
    let mut registry = SettlementRegistry::new();
    let quote = "quote-a".to_string();
    registry.schedule(&quote);
    assert!(registry.cancel(&quote));
    assert_eq!(registry.step(&quote, QuoteState::Paid), Some(PollAction::Stop));
    assert!(!registry.cancel(&"quote-b".to_string()));
}
