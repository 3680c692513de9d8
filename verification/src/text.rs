use vstd::prelude::*;
use vstd::string::StringExecFns;
use crate::mail::opt_string_view;

verus! {

/// The command text as stored and rendered: the account code, when present,
/// is appended as a qualifier.
pub open spec fn augmented_command(command: Seq<char>, account_code: Option<Seq<char>>) -> Seq<
    char,
> {
    match account_code {
        Some(code) => command + " Code "@ + code,
        None => command,
    }
}

/// Plain-text body of the acknowledgement that a command was accepted.
pub open spec fn command_body_plain(request_id: Seq<char>) -> Seq<char> {
    "ZK Email request. Your request ID is "@ + request_id
}

/// Plain-text body of the completion notification.
pub open spec fn completion_body_plain(request_id: Seq<char>) -> Seq<char> {
    "Your request ID is #"@ + request_id + " is now complete."@
}

/// Plain-text body of the receipt acknowledgement.
pub open spec fn ack_body_plain(email_addr: Seq<char>, command: Seq<char>) -> Seq<char> {
    "Hi "@ + email_addr + "!\nYour email with the command "@ + command + " is received."@
}

/// Plain-text body of the error notification.
pub open spec fn error_body_plain(error: Seq<char>) -> Seq<char> {
    "An error occurred while processing your request. Error: "@ + error
}

/// Subject line of a notification that continues an existing thread.
pub open spec fn reply_subject(original_subject: Seq<char>) -> Seq<char> {
    "Re: "@ + original_subject
}

pub fn augment_command(command: &String, account_code: &Option<String>) -> (r: String)
    ensures
        r@ == augmented_command(command@, opt_string_view(*account_code)),
{
    match account_code {
        Some(code) => command.clone().concat(" Code ").concat(code.as_str()),
        None => command.clone(),
    }
}

pub fn build_command_body_plain(request_id: &String) -> (r: String)
    ensures
        r@ == command_body_plain(request_id@),
{
    "ZK Email request. Your request ID is ".to_owned().concat(request_id.as_str())
}

pub fn build_completion_body_plain(request_id: &String) -> (r: String)
    ensures
        r@ == completion_body_plain(request_id@),
{
    "Your request ID is #".to_owned().concat(request_id.as_str()).concat(" is now complete.")
}

pub fn build_ack_body_plain(email_addr: &String, command: &String) -> (r: String)
    ensures
        r@ == ack_body_plain(email_addr@, command@),
{
    "Hi ".to_owned().concat(email_addr.as_str()).concat(
        "!\nYour email with the command ",
    ).concat(command.as_str()).concat(" is received.")
}

pub fn build_error_body_plain(error: &String) -> (r: String)
    ensures
        r@ == error_body_plain(error@),
{
    "An error occurred while processing your request. Error: ".to_owned().concat(error.as_str())
}

pub fn build_reply_subject(original_subject: &String) -> (r: String)
    ensures
        r@ == reply_subject(original_subject@),
{
    "Re: ".to_owned().concat(original_subject.as_str())
}

/// The completion body embeds the request identifier verbatim.
pub proof fn lemma_completion_body_contains_request_id(request_id: Seq<char>)
    ensures
        exists|i: int|
            0 <= i && i + request_id.len() <= completion_body_plain(request_id).len() && (
            #[trigger] completion_body_plain(request_id).subrange(i, i + request_id.len() as int))
                == request_id,
{
    reveal_strlit("Your request ID is #");
    reveal_strlit(" is now complete.");
    let s = completion_body_plain(request_id);
    assert(s.subrange(20, 20 + request_id.len() as int) =~= request_id);
}

} // verus!
