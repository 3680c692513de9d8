use relayer::{
    get_email_auth_msg, handle_email, handle_email_event, record_delivery, EmailError, EmailEvent,
    EmailProof, LifecycleStore, ParsedEmail, ReplyLedger, RequestStatus, TemplateStore,
};

fn full_templates() -> TemplateStore {
    let mut t = TemplateStore::new();
    t.insert_template(
        "command_template.html".to_string(),
        "<p>{{body}}</p><p>{{requestId}}</p><p>{{command}}</p>".to_string(),
    );
    t.insert_template(
        "acknowledgement_template.html".to_string(),
        "<p>{{request}}</p>".to_string(),
    );
    t.insert_template(
        "completion_template.html".to_string(),
        "<p>{{requestId}}</p>".to_string(),
    );
    t.insert_template(
        "error_template.html".to_string(),
        "<p>{{error}}</p><p>{{userEmailAddr}}</p>".to_string(),
    );
    t
}

fn command_event() -> EmailEvent {
    EmailEvent::Command {
        request_id: "req-1".to_string(),
        email_address: "user@example.com".to_string(),
        command: "Send 1 TOKEN to 0xABC".to_string(),
        account_code: Some("123".to_string()),
        subject: "Send 1 TOKEN to 0xABC".to_string(),
        body: "Please execute".to_string(),
    }
}

fn parsed_reply() -> ParsedEmail {
    ParsedEmail {
        from_addr: "user@example.com".to_string(),
        subject: "Send 1 TOKEN to 0xABC".to_string(),
        message_id: Some("<orig-1@mail>".to_string()),
        in_reply_to: Some("<out-1@mail>".to_string()),
        body: "Confirmed".to_string(),
    }
}

fn store_with_request(status: RequestStatus) -> LifecycleStore {
    let mut store = LifecycleStore::new();
    store
        .create_request(
            &"req-1".to_string(),
            "user@example.com".to_string(),
            "Send 1 TOKEN to 0xABC".to_string(),
            Some("123".to_string()),
            "sepolia".to_string(),
            1_700_000_000,
        )
        .unwrap();
    if status == RequestStatus::EmailSent {
        store.update_status(&"req-1".to_string(), RequestStatus::EmailSent).unwrap();
    }
    store
}

#[test]
fn command_renders_all_fields_verbatim() {
    let p = handle_email_event(&command_event(), &full_templates()).unwrap();
    assert_eq!(
        p.email.body_html,
        "<p>Please execute</p><p>req-1</p><p>Send 1 TOKEN to 0xABC Code 123</p>"
    );
    assert_eq!(p.email.body_plain, "ZK Email request. Your request ID is req-1");
    assert_eq!(p.email.to, "user@example.com");
    assert_eq!(p.email.subject, "Send 1 TOKEN to 0xABC");
    // The first message of the thread carries no threading fields.
    assert!(p.email.reference.is_none());
    assert!(p.email.reply_to.is_none());
    assert!(p.expects_reply.is_some());
    assert_eq!(p.advance_on_delivery, Some("req-1".to_string()));
}

#[test]
fn command_registers_exactly_one_expectation() {
    let mut ledger = ReplyLedger::new();
    let mut store = store_with_request(RequestStatus::Created);
    let p = handle_email_event(&command_event(), &full_templates()).unwrap();
    record_delivery(
        &p.expects_reply,
        &p.advance_on_delivery,
        Ok("<out-1@mail>".to_string()),
        &mut ledger,
        &mut store,
    )
    .unwrap();
    // One expectation, tied to the same request the event named.
    assert_eq!(
        ledger.lookup_expectation(&"<out-1@mail>".to_string()),
        Some(Some("req-1".to_string()))
    );
    assert_eq!(ledger.lookup_expectation(&"<out-2@mail>".to_string()), None);
    assert_eq!(store.get_status(&"req-1".to_string()), Some(RequestStatus::EmailSent));
}

#[test]
fn delivery_failure_leaves_request_created() {
    let mut ledger = ReplyLedger::new();
    let mut store = store_with_request(RequestStatus::Created);
    let p = handle_email_event(&command_event(), &full_templates()).unwrap();
    let r = record_delivery(
        &p.expects_reply,
        &p.advance_on_delivery,
        Err("mail channel answered 502".to_string()),
        &mut ledger,
        &mut store,
    );
    match r {
        Err(EmailError::Delivery(diag)) => assert_eq!(diag, "mail channel answered 502"),
        other => panic!("expected a delivery error, got {:?}", other),
    }
    // Nothing was registered and the request stays eligible for retry.
    assert_eq!(ledger.lookup_expectation(&"<out-1@mail>".to_string()), None);
    assert_eq!(store.get_status(&"req-1".to_string()), Some(RequestStatus::Created));
}

#[test]
fn successful_pipeline_completes_request() {
    let mut store = store_with_request(RequestStatus::EmailSent);
    let ev = handle_email(&parsed_reply(), &"req-1".to_string(), Ok(()), &mut store).unwrap();
    match &ev {
        EmailEvent::Completion { email_addr, request_id, original_subject, original_message_id } => {
            assert_eq!(email_addr.as_str(), "user@example.com");
            assert_eq!(request_id.as_str(), "req-1");
            assert_eq!(original_subject.as_str(), "Send 1 TOKEN to 0xABC");
            assert_eq!(original_message_id, &Some("<orig-1@mail>".to_string()));
        },
        other => panic!("expected a completion event, got {:?}", other_kind(other)),
    }
    assert_eq!(store.get_status(&"req-1".to_string()), Some(RequestStatus::Completed));
    // The completion notification continues the thread and names the request.
    let p = handle_email_event(&ev, &full_templates()).unwrap();
    assert_eq!(p.email.subject, "Re: Send 1 TOKEN to 0xABC");
    assert_eq!(p.email.body_plain, "Your request ID is #req-1 is now complete.");
    assert!(p.email.body_plain.contains("req-1"));
    assert_eq!(p.email.reply_to, Some("<orig-1@mail>".to_string()));
    assert_eq!(p.email.reference, Some("<orig-1@mail>".to_string()));
    assert!(p.expects_reply.is_none());
    assert!(p.advance_on_delivery.is_none());
}

#[test]
fn failed_pipeline_emits_error_with_cause() {
    let mut store = store_with_request(RequestStatus::EmailSent);
    let ev = handle_email(
        &parsed_reply(),
        &"req-1".to_string(),
        Err(EmailError::Proof("circuit input malformed".to_string())),
        &mut store,
    )
    .unwrap();
    match &ev {
        EmailEvent::Error { email_addr, error, original_subject, original_message_id } => {
            assert_eq!(email_addr.as_str(), "user@example.com");
            assert_eq!(error.as_str(), "circuit input malformed");
            assert_eq!(original_subject.as_str(), "Send 1 TOKEN to 0xABC");
            assert_eq!(original_message_id, &Some("<orig-1@mail>".to_string()));
        },
        other => panic!("expected an error event, got {:?}", other_kind(other)),
    }
    // Failed, not Completed.
    assert_eq!(store.get_status(&"req-1".to_string()), Some(RequestStatus::Failed));
    let p = handle_email_event(&ev, &full_templates()).unwrap();
    assert_eq!(p.email.subject, "Re: Send 1 TOKEN to 0xABC");
    assert_eq!(
        p.email.body_plain,
        "An error occurred while processing your request. Error: circuit input malformed"
    );
    assert!(p.email.body_plain.contains("circuit input malformed"));
    assert_eq!(
        p.email.body_html,
        "<p>circuit input malformed</p><p>user@example.com</p>"
    );
}

#[test]
fn verification_failure_carries_its_cause() {
    let mut store = store_with_request(RequestStatus::EmailSent);
    let ev = handle_email(
        &parsed_reply(),
        &"req-1".to_string(),
        Err(EmailError::Verification("domain key mismatch".to_string())),
        &mut store,
    )
    .unwrap();
    match &ev {
        EmailEvent::Error { error, .. } => assert_eq!(error.as_str(), "domain key mismatch"),
        other => panic!("expected an error event, got {:?}", other_kind(other)),
    }
    assert_eq!(store.get_status(&"req-1".to_string()), Some(RequestStatus::Failed));
}

#[test]
fn chain_failure_carries_its_cause() {
    let mut store = store_with_request(RequestStatus::EmailSent);
    let ev = handle_email(
        &parsed_reply(),
        &"req-1".to_string(),
        Err(EmailError::Chain("transaction reverted".to_string())),
        &mut store,
    )
    .unwrap();
    match &ev {
        EmailEvent::Error { error, .. } => assert_eq!(error.as_str(), "transaction reverted"),
        other => panic!("expected an error event, got {:?}", other_kind(other)),
    }
    assert_eq!(store.get_status(&"req-1".to_string()), Some(RequestStatus::Failed));
}

#[test]
fn pipeline_conclusion_refused_before_acknowledgement() {
    // A request still in Created cannot jump to a terminal state.
    let mut store = store_with_request(RequestStatus::Created);
    let r = handle_email(&parsed_reply(), &"req-1".to_string(), Ok(()), &mut store);
    assert!(matches!(r, Err(EmailError::Conflict)));
    assert_eq!(store.get_status(&"req-1".to_string()), Some(RequestStatus::Created));
}

#[test]
fn ack_event_expects_no_reply() {
    let ev = EmailEvent::Ack {
        email_addr: "user@example.com".to_string(),
        command: "Send 1 TOKEN to 0xABC".to_string(),
        original_message_id: Some("<orig-1@mail>".to_string()),
        original_subject: "Send 1 TOKEN to 0xABC".to_string(),
    };
    let p = handle_email_event(&ev, &full_templates()).unwrap();
    assert_eq!(p.email.subject, "Re: Send 1 TOKEN to 0xABC");
    assert_eq!(
        p.email.body_plain,
        "Hi user@example.com!\nYour email with the command Send 1 TOKEN to 0xABC is received."
    );
    assert_eq!(p.email.body_html, "<p>Send 1 TOKEN to 0xABC</p>");
    assert_eq!(p.email.reply_to, Some("<orig-1@mail>".to_string()));
    assert!(p.expects_reply.is_none());
    assert!(p.advance_on_delivery.is_none());
}

#[test]
fn missing_template_fails_with_template_not_found() {
    let r = handle_email_event(&command_event(), &TemplateStore::new());
    match r {
        Err(EmailError::TemplateNotFound(name)) => {
            assert_eq!(name, "command_template.html");
        },
        other => panic!("expected TemplateNotFound, got {:?}", other.is_ok()),
    }
}

#[test]
fn broken_template_fails_with_render_error() {
    let mut templates = TemplateStore::new();
    templates.insert_template(
        "command_template.html".to_string(),
        "<p>{{#if}}</p>".to_string(),
    );
    let r = handle_email_event(&command_event(), &templates);
    assert!(matches!(r, Err(EmailError::Render(_))));
}

#[test]
fn missing_field_substitutes_empty_string() {
    // The single documented substitution policy: a field the template names
    // but the payload lacks renders as the empty string.
    let mut templates = full_templates();
    templates.insert_template(
        "completion_template.html".to_string(),
        "<p>{{requestId}}</p><p>{{absentField}}</p>".to_string(),
    );
    let ev = EmailEvent::Completion {
        email_addr: "user@example.com".to_string(),
        request_id: "req-1".to_string(),
        original_subject: "Send 1 TOKEN to 0xABC".to_string(),
        original_message_id: None,
    };
    let p = handle_email_event(&ev, &templates).unwrap();
    assert_eq!(p.email.body_html, "<p>req-1</p><p></p>");
    assert!(p.email.reference.is_none());
    assert!(p.email.reply_to.is_none());
}

#[test]
fn auth_msg_assembles_fields_and_zero_prefix() {
    let msg = get_email_auth_msg(
        42,
        vec![vec![1, 2, 3], vec![4]],
        EmailProof { bytes: vec![9, 9, 9] },
    );
    assert_eq!(msg.template_id, 42);
    assert_eq!(msg.command_params, vec![vec![1, 2, 3], vec![4]]);
    assert_eq!(msg.skipped_command_prefix, 0);
    assert_eq!(msg.proof.bytes, vec![9, 9, 9]);
}

fn other_kind(ev: &EmailEvent) -> &'static str {
    match ev {
        EmailEvent::Command { .. } => "Command",
        EmailEvent::Ack { .. } => "Ack",
        EmailEvent::Completion { .. } => "Completion",
        EmailEvent::Error { .. } => "Error",
    }
}
