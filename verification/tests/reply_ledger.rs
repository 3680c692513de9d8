use relayer::{accept_reply, check_is_valid_request, EmailError, ExpectsReply, ParsedEmail, ReplyLedger};

fn parsed(in_reply_to: Option<&str>) -> ParsedEmail {
    ParsedEmail {
        from_addr: "user@example.com".to_string(),
        subject: "Send 1 TOKEN to 0xABC".to_string(),
        message_id: Some("<inbound-1@mail>".to_string()),
        in_reply_to: in_reply_to.map(|s| s.to_string()),
        body: "Confirmed".to_string(),
    }
}

#[test]
fn first_use_valid_then_always_rejected() {
    let mut ledger = ReplyLedger::new();
    let id = "<reply-1@mail>".to_string();
    assert!(ledger.is_valid_reply(&id));
    assert!(ledger.consume_reply(&id));
    assert!(!ledger.is_valid_reply(&id));
    assert!(!ledger.consume_reply(&id));
    assert!(!ledger.consume_reply(&id));
    assert!(!ledger.is_valid_reply(&id));
}

#[test]
fn distinct_identifiers_are_independent() {
    let mut ledger = ReplyLedger::new();
    assert!(ledger.consume_reply(&"<reply-1@mail>".to_string()));
    assert!(ledger.is_valid_reply(&"<reply-2@mail>".to_string()));
    assert!(ledger.consume_reply(&"<reply-2@mail>".to_string()));
    assert!(!ledger.is_valid_reply(&"<reply-1@mail>".to_string()));
    assert!(!ledger.is_valid_reply(&"<reply-2@mail>".to_string()));
}

#[test]
fn non_reply_email_is_valid() {
    let ledger = ReplyLedger::new();
    assert!(check_is_valid_request(&parsed(None), &ledger));
}

#[test]
fn reply_email_validity_follows_ledger() {
    let mut ledger = ReplyLedger::new();
    let email = parsed(Some("<ack-1@mail>"));
    assert!(check_is_valid_request(&email, &ledger));
    assert!(ledger.consume_reply(&"<ack-1@mail>".to_string()));
    assert!(!check_is_valid_request(&email, &ledger));
}

#[test]
fn duplicate_reply_is_validation_error() {
    let mut ledger = ReplyLedger::new();
    let email = parsed(Some("<ack-1@mail>"));
    assert!(accept_reply(&email, &mut ledger).is_ok());
    assert!(matches!(accept_reply(&email, &mut ledger), Err(EmailError::Validation)));
    // An email that is not a reply always passes, and is never recorded.
    assert!(accept_reply(&parsed(None), &mut ledger).is_ok());
    assert!(accept_reply(&parsed(None), &mut ledger).is_ok());
}

#[test]
fn duplicate_expectation_is_conflict() {
    let mut ledger = ReplyLedger::new();
    let mid = "<out-1@mail>".to_string();
    assert!(ledger.insert_expected_reply(&mid, Some("req-1".to_string())).is_ok());
    assert!(matches!(
        ledger.insert_expected_reply(&mid, Some("req-2".to_string())),
        Err(EmailError::Conflict)
    ));
    // The first registration is the one kept.
    assert_eq!(ledger.lookup_expectation(&mid), Some(Some("req-1".to_string())));
}

#[test]
fn expectation_without_request_is_tied_to_nothing() {
    let expectation = ExpectsReply::new_no_request_id();
    assert!(expectation.request_id().is_none());
    let tied = ExpectsReply::new(&"req-1".to_string());
    assert_eq!(tied.request_id(), &Some("req-1".to_string()));
}

#[test]
fn expectation_lookup_distinguishes_absent_and_untied() {
    let mut ledger = ReplyLedger::new();
    ledger.insert_expected_reply(&"<out-1@mail>".to_string(), None).unwrap();
    assert_eq!(ledger.lookup_expectation(&"<out-1@mail>".to_string()), Some(None));
    assert_eq!(ledger.lookup_expectation(&"<out-2@mail>".to_string()), None);
}
