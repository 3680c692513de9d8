use vstd::prelude::*;
use crate::error::{is_stage_failure, spec_cause, EmailError};
use crate::ledger::ReplyLedger;
use crate::mail::{clone_opt_string, opt_string_view, EmailEvent, EmailMessage, ExpectsReply, ParsedEmail};
use crate::render::{render_html, rendered_of, string_views, TemplateStore};
use crate::store::{advances, LifecycleStore, RequestStatus, RequestView};
use crate::text::{
    ack_body_plain, augment_command, augmented_command, build_ack_body_plain,
    build_command_body_plain, build_completion_body_plain, build_error_body_plain,
    build_reply_subject, command_body_plain, completion_body_plain, error_body_plain,
    reply_subject,
};

verus! {

/// A notification the orchestrator has decided on, together with what must be
/// recorded once the outbound mail channel reports its delivery.
pub struct PreparedNotification {
    /// The message to hand to the mail channel.
    pub email: EmailMessage,
    /// When present, register a reply expectation under the channel's returned
    /// message identifier, tied to this request.
    pub expects_reply: Option<ExpectsReply>,
    /// When present, advance this request to `EmailSent` once delivery
    /// succeeds and the expectation is registered.
    pub advance_on_delivery: Option<String>,
}

/// What `handle_email_event` owes for each event: the exact notification —
/// recipient, subject, threading fields, plain-text body, rendered HTML body —
/// and the delivery bookkeeping; or the rendering failure, with nothing else
/// done. Exactly one notification is prepared per event, and for a command
/// event its reply expectation and its status advance name the same request
/// that the event names.
pub open spec fn notification_prepared(
    event: EmailEvent,
    tmap: Map<Seq<char>, Seq<char>>,
    r: Result<PreparedNotification, EmailError>,
) -> bool {
    match event {
        EmailEvent::Command { request_id, email_address, command, account_code, subject, body } => {
            let name = "command_template.html"@;
            let cmd = augmented_command(command@, opt_string_view(account_code));
            if !tmap.contains_key(name) {
                r matches Err(e) && (e matches EmailError::TemplateNotFound(n) && n@ == name)
            } else {
                match rendered_of(
                    tmap[name],
                    seq!["body"@, "requestId"@, "command"@],
                    seq![body@, request_id@, cmd],
                ) {
                    Some(html) => r matches Ok(p) && ({
                        &&& p.email.to@ == email_address@
                        &&& p.email.subject@ == subject@
                        &&& p.email.reference is None
                        &&& p.email.reply_to is None
                        &&& p.email.body_plain@ == command_body_plain(request_id@)
                        &&& p.email.body_html@ == html
                        &&& p.email.body_attachments is None
                        &&& (p.expects_reply matches Some(er) && er.spec_request_id() == Some(
                            request_id@,
                        ))
                        &&& (p.advance_on_delivery matches Some(rid) && rid@ == request_id@)
                    }),
                    None => r matches Err(e) && e is Render,
                }
            }
        },
        EmailEvent::Ack { email_addr, command, original_message_id, original_subject } => {
            let name = "acknowledgement_template.html"@;
            if !tmap.contains_key(name) {
                r matches Err(e) && (e matches EmailError::TemplateNotFound(n) && n@ == name)
            } else {
                match rendered_of(tmap[name], seq!["request"@], seq![command@]) {
                    Some(html) => r matches Ok(p) && ({
                        &&& p.email.to@ == email_addr@
                        &&& p.email.subject@ == reply_subject(original_subject@)
                        &&& opt_string_view(p.email.reference) == opt_string_view(
                            original_message_id,
                        )
                        &&& opt_string_view(p.email.reply_to) == opt_string_view(
                            original_message_id,
                        )
                        &&& p.email.body_plain@ == ack_body_plain(email_addr@, command@)
                        &&& p.email.body_html@ == html
                        &&& p.email.body_attachments is None
                        &&& p.expects_reply is None
                        &&& p.advance_on_delivery is None
                    }),
                    None => r matches Err(e) && e is Render,
                }
            }
        },
        EmailEvent::Completion { email_addr, request_id, original_subject, original_message_id } => {
            let name = "completion_template.html"@;
            if !tmap.contains_key(name) {
                r matches Err(e) && (e matches EmailError::TemplateNotFound(n) && n@ == name)
            } else {
                match rendered_of(tmap[name], seq!["requestId"@], seq![request_id@]) {
                    Some(html) => r matches Ok(p) && ({
                        &&& p.email.to@ == email_addr@
                        &&& p.email.subject@ == reply_subject(original_subject@)
                        &&& opt_string_view(p.email.reference) == opt_string_view(
                            original_message_id,
                        )
                        &&& opt_string_view(p.email.reply_to) == opt_string_view(
                            original_message_id,
                        )
                        &&& p.email.body_plain@ == completion_body_plain(request_id@)
                        &&& p.email.body_html@ == html
                        &&& p.email.body_attachments is None
                        &&& p.expects_reply is None
                        &&& p.advance_on_delivery is None
                    }),
                    None => r matches Err(e) && e is Render,
                }
            }
        },
        EmailEvent::Error { email_addr, error, original_subject, original_message_id } => {
            let name = "error_template.html"@;
            if !tmap.contains_key(name) {
                r matches Err(e) && (e matches EmailError::TemplateNotFound(n) && n@ == name)
            } else {
                match rendered_of(
                    tmap[name],
                    seq!["error"@, "userEmailAddr"@],
                    seq![error@, email_addr@],
                ) {
                    Some(html) => r matches Ok(p) && ({
                        &&& p.email.to@ == email_addr@
                        &&& p.email.subject@ == reply_subject(original_subject@)
                        &&& opt_string_view(p.email.reference) == opt_string_view(
                            original_message_id,
                        )
                        &&& opt_string_view(p.email.reply_to) == opt_string_view(
                            original_message_id,
                        )
                        &&& p.email.body_plain@ == error_body_plain(error@)
                        &&& p.email.body_html@ == html
                        &&& p.email.body_attachments is None
                        &&& p.expects_reply is None
                        &&& p.advance_on_delivery is None
                    }),
                    None => r matches Err(e) && e is Render,
                }
            }
        },
    }
}

/// Handles an email event: builds the exact notification the event requires
/// and says what the delivery edge must record afterwards. A command event's
/// acknowledgement opens a new thread and expects a reply tied to the
/// request; completion, error and receipt acknowledgements continue the
/// original thread and expect none. Fails exactly when rendering fails —
/// `TemplateNotFound` for an unresolved identifier, `Render` for a template
/// that does not compile — and a failure here disturbs nothing: only this
/// event's processing ends.
pub fn handle_email_event(event: &EmailEvent, templates: &TemplateStore) -> (r: Result<
    PreparedNotification,
    EmailError,
>)
    ensures
        notification_prepared(*event, templates.templates_map(), r),
{
    match event {
        EmailEvent::Command { request_id, email_address, command, account_code, subject, body } => {
            let command_aug = augment_command(command, account_code);
            let body_plain = build_command_body_plain(request_id);
            let mut keys: Vec<String> = Vec::new();
            keys.push("body".to_owned());
            keys.push("requestId".to_owned());
            keys.push("command".to_owned());
            let mut vals: Vec<String> = Vec::new();
            vals.push(body.clone());
            vals.push(request_id.clone());
            vals.push(command_aug);
            proof {
                assert(string_views(keys@) =~= seq!["body"@, "requestId"@, "command"@]);
                assert(string_views(vals@) =~= seq![
                    body@,
                    request_id@,
                    augmented_command(command@, opt_string_view(*account_code)),
                ]);
            }
            let template_name = "command_template.html".to_owned();
            let body_html = match render_html(&template_name, &keys, &vals, templates) {
                Ok(html) => html,
                Err(e) => {
                    return Err(e);
                },
            };
            Ok(
                PreparedNotification {
                    email: EmailMessage {
                        to: email_address.clone(),
                        subject: subject.clone(),
                        reference: None,
                        reply_to: None,
                        body_plain: body_plain,
                        body_html: body_html,
                        body_attachments: None,
                    },
                    expects_reply: Some(ExpectsReply::new(request_id)),
                    advance_on_delivery: Some(request_id.clone()),
                },
            )
        },
        EmailEvent::Ack { email_addr, command, original_message_id, original_subject } => {
            let body_plain = build_ack_body_plain(email_addr, command);
            let mut keys: Vec<String> = Vec::new();
            keys.push("request".to_owned());
            let mut vals: Vec<String> = Vec::new();
            vals.push(command.clone());
            proof {
                assert(string_views(keys@) =~= seq!["request"@]);
                assert(string_views(vals@) =~= seq![command@]);
            }
            let template_name = "acknowledgement_template.html".to_owned();
            let body_html = match render_html(&template_name, &keys, &vals, templates) {
                Ok(html) => html,
                Err(e) => {
                    return Err(e);
                },
            };
            Ok(
                PreparedNotification {
                    email: EmailMessage {
                        to: email_addr.clone(),
                        subject: build_reply_subject(original_subject),
                        reference: clone_opt_string(original_message_id),
                        reply_to: clone_opt_string(original_message_id),
                        body_plain: body_plain,
                        body_html: body_html,
                        body_attachments: None,
                    },
                    expects_reply: None,
                    advance_on_delivery: None,
                },
            )
        },
        EmailEvent::Completion { email_addr, request_id, original_subject, original_message_id } => {
            let body_plain = build_completion_body_plain(request_id);
            let mut keys: Vec<String> = Vec::new();
            keys.push("requestId".to_owned());
            let mut vals: Vec<String> = Vec::new();
            vals.push(request_id.clone());
            proof {
                assert(string_views(keys@) =~= seq!["requestId"@]);
                assert(string_views(vals@) =~= seq![request_id@]);
            }
            let template_name = "completion_template.html".to_owned();
            let body_html = match render_html(&template_name, &keys, &vals, templates) {
                Ok(html) => html,
                Err(e) => {
                    return Err(e);
                },
            };
            Ok(
                PreparedNotification {
                    email: EmailMessage {
                        to: email_addr.clone(),
                        subject: build_reply_subject(original_subject),
                        reference: clone_opt_string(original_message_id),
                        reply_to: clone_opt_string(original_message_id),
                        body_plain: body_plain,
                        body_html: body_html,
                        body_attachments: None,
                    },
                    expects_reply: None,
                    advance_on_delivery: None,
                },
            )
        },
        EmailEvent::Error { email_addr, error, original_subject, original_message_id } => {
            let body_plain = build_error_body_plain(error);
            let mut keys: Vec<String> = Vec::new();
            keys.push("error".to_owned());
            keys.push("userEmailAddr".to_owned());
            let mut vals: Vec<String> = Vec::new();
            vals.push(error.clone());
            vals.push(email_addr.clone());
            proof {
                assert(string_views(keys@) =~= seq!["error"@, "userEmailAddr"@]);
                assert(string_views(vals@) =~= seq![error@, email_addr@]);
            }
            let template_name = "error_template.html".to_owned();
            let body_html = match render_html(&template_name, &keys, &vals, templates) {
                Ok(html) => html,
                Err(e) => {
                    return Err(e);
                },
            };
            Ok(
                PreparedNotification {
                    email: EmailMessage {
                        to: email_addr.clone(),
                        subject: build_reply_subject(original_subject),
                        reference: clone_opt_string(original_message_id),
                        reply_to: clone_opt_string(original_message_id),
                        body_plain: body_plain,
                        body_html: body_html,
                        body_attachments: None,
                    },
                    expects_reply: None,
                    advance_on_delivery: None,
                },
            )
        },
    }
}

/// Records what the outbound mail channel reported for a prepared
/// notification. A delivery failure is surfaced as `Delivery`, with every
/// downstream step skipped and nothing changed: the request keeps its prior
/// status and stays eligible for retry. On success the reply expectation, when
/// one was prepared, is registered under the channel's returned message
/// identifier — a failure to register it is a hard error, surfaced, since the
/// sent notification could no longer be correlated to its reply — and only
/// then is the request advanced to `EmailSent`. The consumed-reply record
/// never changes here.
pub fn record_delivery(
    expects_reply: &Option<ExpectsReply>,
    advance_on_delivery: &Option<String>,
    outcome: Result<String, String>,
    ledger: &mut ReplyLedger,
    store: &mut LifecycleStore,
) -> (r: Result<(), EmailError>)
    requires
        old(store).wf(),
    ensures
        final(store).wf(),
        final(ledger).consumed_ids() == old(ledger).consumed_ids(),
        outcome matches Err(diag) ==> (r matches Err(e) && (e matches EmailError::Delivery(d)
            && d@ == diag@)) && *final(ledger) == *old(ledger) && *final(store) == *old(store),
        outcome matches Ok(mid) ==> match *expects_reply {
            Some(er) => if old(ledger).expectations_map().contains_key(mid@) {
                (r matches Err(e) && e is Conflict) && *final(ledger) == *old(ledger)
                    && *final(store) == *old(store)
            } else {
                final(ledger).expectations_map() == old(ledger).expectations_map().insert(
                    mid@,
                    er.spec_request_id(),
                )
            },
            None => *final(ledger) == *old(ledger),
        },
        outcome matches Ok(mid) && (expects_reply is None || !old(
            ledger,
        ).expectations_map().contains_key(mid@)) ==> match *advance_on_delivery {
            None => r is Ok && *final(store) == *old(store),
            Some(rid) => if !old(store).requests_map().contains_key(rid@) {
                (r matches Err(e) && e is NotFound) && *final(store) == *old(store)
            } else if !advances(old(store).requests_map()[rid@].status, RequestStatus::EmailSent) {
                (r matches Err(e) && e is Conflict) && *final(store) == *old(store)
            } else {
                r is Ok && final(store).requests_map() == old(store).requests_map().insert(
                    rid@,
                    RequestView {
                        status: RequestStatus::EmailSent,
                        ..old(store).requests_map()[rid@]
                    },
                )
            },
        },
{
    let message_id = match outcome {
        Ok(mid) => mid,
        Err(diag) => {
            return Err(EmailError::Delivery(diag));
        },
    };
    if let Some(er) = expects_reply {
        let request_id = clone_opt_string(er.request_id());
        match ledger.insert_expected_reply(&message_id, request_id) {
            Ok(u) => u,
            Err(e) => {
                return Err(e);
            },
        }
    }
    if let Some(rid) = advance_on_delivery {
        match store.update_status(rid, RequestStatus::EmailSent) {
            Ok(u) => u,
            Err(e) => {
                return Err(e);
            },
        }
    }
    Ok(())
}

/// Concludes the reply pipeline for a request. The pipeline outcome is the
/// first failure of domain-key verification, proof generation or chain
/// submission — later stages are never run after a failure — or success when
/// all three succeeded. On success the request is advanced to `Completed` and
/// a `Completion` event emitted; on a stage failure it is advanced to `Failed`
/// and an `Error` event emitted, carrying the failure's cause in plain
/// language. Either event continues the original thread: it addresses the
/// parsed sender and points at the original subject and message identifier.
/// Fails only when the lifecycle store refuses the advance — an unknown
/// request, or one not in `EmailSent` — and then nothing changes.
pub fn handle_email(
    parsed: &ParsedEmail,
    request_id: &String,
    pipeline: Result<(), EmailError>,
    store: &mut LifecycleStore,
) -> (r: Result<EmailEvent, EmailError>)
    requires
        old(store).wf(),
        pipeline matches Err(e) ==> is_stage_failure(e),
    ensures
        final(store).wf(),
        ({
            let target = if pipeline is Ok {
                RequestStatus::Completed
            } else {
                RequestStatus::Failed
            };
            if !old(store).requests_map().contains_key(request_id@) {
                (r matches Err(e) && e is NotFound) && *final(store) == *old(store)
            } else if !advances(old(store).requests_map()[request_id@].status, target) {
                (r matches Err(e) && e is Conflict) && *final(store) == *old(store)
            } else {
                &&& final(store).requests_map() == old(store).requests_map().insert(
                    request_id@,
                    RequestView { status: target, ..old(store).requests_map()[request_id@] },
                )
                &&& match pipeline {
                    Ok(u) => r matches Ok(ev) && (ev matches EmailEvent::Completion {
                        email_addr,
                        request_id: rid,
                        original_subject,
                        original_message_id,
                    } && {
                        &&& email_addr@ == parsed.from_addr@
                        &&& rid@ == request_id@
                        &&& original_subject@ == parsed.subject@
                        &&& opt_string_view(original_message_id) == opt_string_view(
                            parsed.message_id,
                        )
                    }),
                    Err(e) => r matches Ok(ev) && (ev matches EmailEvent::Error {
                        email_addr,
                        error,
                        original_subject,
                        original_message_id,
                    } && {
                        &&& email_addr@ == parsed.from_addr@
                        &&& error@ == spec_cause(e)
                        &&& original_subject@ == parsed.subject@
                        &&& opt_string_view(original_message_id) == opt_string_view(
                            parsed.message_id,
                        )
                    }),
                }
            }
        }),
{
    let target = if pipeline.is_ok() {
        RequestStatus::Completed
    } else {
        RequestStatus::Failed
    };
    match store.update_status(request_id, target) {
        Ok(u) => u,
        Err(e) => {
            return Err(e);
        },
    }
    match pipeline {
        Ok(u) => Ok(
            EmailEvent::Completion {
                email_addr: parsed.from_addr.clone(),
                request_id: request_id.clone(),
                original_subject: parsed.subject.clone(),
                original_message_id: clone_opt_string(&parsed.message_id),
            },
        ),
        Err(e) => Ok(
            EmailEvent::Error {
                email_addr: parsed.from_addr.clone(),
                error: e.cause(),
                original_subject: parsed.subject.clone(),
                original_message_id: clone_opt_string(&parsed.message_id),
            },
        ),
    }
}

/// For one command event exactly one expectation is registered, tied to the
/// same request the event names: after the registration the map holds the new
/// message identifier, mapped to that request, and is otherwise untouched.
pub proof fn lemma_command_registers_one_expectation(
    before: Map<Seq<char>, Option<Seq<char>>>,
    after: Map<Seq<char>, Option<Seq<char>>>,
    message_id: Seq<char>,
    request_id: Seq<char>,
)
    requires
        !before.contains_key(message_id),
        after == before.insert(message_id, Some(request_id)),
    ensures
        after[message_id] == Some(request_id),
        after.dom() =~= before.dom().insert(message_id),
        forall|k: Seq<char>| k != message_id ==> (after.contains_key(k) <==> before.contains_key(k)),
        forall|k: Seq<char>| k != message_id && before.contains_key(k) ==> after[k] == before[k],
{
}

} // verus!
