//! Notification dispatcher: renders the verification message and validates
//! the destination address. Actual delivery over SMTP is the transport
//! boundary's job; a transport failure is mapped back into the taxonomy here
//! through [`classify_smtp_error`].

use vstd::prelude::*;
use vstd::string::StringExecFns;

verus! {

/// Why a verification message could not be delivered.
#[derive(Debug, Clone, Copy, PartialEq, Eq)]
pub enum DispatchError {
    /// The relay refused the dispatcher's credentials.
    AuthenticationFailed,
    /// The relay could not be reached, or failed for any other reason.
    TransportUnavailable,
    /// The destination address is malformed.
    InvalidRecipient,
}

/// A rendered verification message, ready for a mail transport.
#[derive(Debug, PartialEq, Eq)]
pub struct EmailMessage {
    pub to: String,
    pub to_name: String,
    pub subject: String,
    pub html_body: String,
}

/// The rendered HTML body: a fixed template with the recipient's name and
/// the verification code spliced in as plain visible text.
pub open spec fn rendered_body(name: Seq<char>, code: Seq<char>) -> Seq<char> {
    "<html><body><h2>Welcome to Dutchville!</h2><p>Hello, <strong>"@ + name
        + "</strong></p><p>Your verification code is:</p><h1>"@ + code
        + "</h1><p>Please enter this code to verify your account.</p></body></html>"@
}

/// `needle` occurs contiguously somewhere in `hay`.
pub open spec fn contains_seq(hay: Seq<char>, needle: Seq<char>) -> bool {
    exists|i: int| 0 <= i && i + needle.len() <= hay.len()
        && #[trigger] hay.subrange(i, i + needle.len() as int) == needle
}

/// Law: the rendered body shows the verification code, and the recipient's
/// name, as plain text.
pub proof fn lemma_rendered_body_shows_code(name: Seq<char>, code: Seq<char>)
    ensures
        contains_seq(rendered_body(name, code), code),
        contains_seq(rendered_body(name, code), name),
{
    let pre = "<html><body><h2>Welcome to Dutchville!</h2><p>Hello, <strong>"@;
    let mid = "</strong></p><p>Your verification code is:</p><h1>"@;
    let hay = rendered_body(name, code);
    let i: int = pre.len() as int + name.len() as int + mid.len() as int;
    assert(hay.subrange(i, i + code.len() as int) =~= code);
    assert(hay.subrange(pre.len() as int, pre.len() as int + name.len() as int) =~= name);
}

/// Render the verification message body for a recipient and code.
pub fn render_body(name: &str, code: &str) -> (body: String)
    ensures
        body@ == rendered_body(name@, code@),
{
    let mut body = String::from_str(
        "<html><body><h2>Welcome to Dutchville!</h2><p>Hello, <strong>",
    );
    body.append(name);
    body.append("</strong></p><p>Your verification code is:</p><h1>");
    body.append(code);
    body.append("</h1><p>Please enter this code to verify your account.</p></body></html>");
    body
}

/// Whether lettre's mailbox grammar accepts this destination address.
pub uninterp spec fn mailbox_ok(addr: Seq<char>) -> bool;

/// Relies on lettre's `Mailbox` parser (`str::parse::<Mailbox>`): whether an
/// address is accepted depends on its characters alone.
#[verifier::external_body]
fn check_mailbox(addr: &str) -> (r: bool)
    ensures
        r == mailbox_ok(addr@),
{
    addr.parse::<lettre::message::Mailbox>().is_ok()
}

/// Render the verification message for a recipient: refused with
/// `InvalidRecipient` exactly when the destination address is malformed;
/// otherwise the message carries the fixed subject and the rendered body
/// with the code in plain sight.
pub fn prepare_email(recipient: &str, fullname: &str, code: &str)
    -> (r: Result<EmailMessage, DispatchError>)
    ensures
        (r is Ok) == mailbox_ok(recipient@),
        r matches Ok(m) ==> {
            &&& m.to@ == recipient@
            &&& m.to_name@ == fullname@
            &&& m.subject@ == "Dutchville Account Verification"@
            &&& m.html_body@ == rendered_body(fullname@, code@)
        },
        r matches Err(e) ==> e == DispatchError::InvalidRecipient,
{
    if check_mailbox(recipient) {
        Ok(EmailMessage {
            to: String::from_str(recipient),
            to_name: String::from_str(fullname),
            subject: String::from_str("Dutchville Account Verification"),
            html_body: render_body(fullname, code),
        })
    } else {
        Err(DispatchError::InvalidRecipient)
    }
}

/// Map an SMTP failure, identified by the relay's three-digit reply code if
/// one was received, to the dispatch taxonomy: the authentication replies
/// (530, 534, 535, 538) mean the relay refused the dispatcher's credentials;
/// the mailbox replies (550, 551, 553) mean the recipient was rejected;
/// anything else, or no reply at all, is an unavailable transport.
pub fn classify_smtp_error(reply_code: Option<u16>) -> (e: DispatchError)
    ensures
        e == (match reply_code {
            Some(c) => if c == 530 || c == 534 || c == 535 || c == 538 {
                DispatchError::AuthenticationFailed
            } else if c == 550 || c == 551 || c == 553 {
                DispatchError::InvalidRecipient
            } else {
                DispatchError::TransportUnavailable
            },
            None => DispatchError::TransportUnavailable,
        }),
{
    match reply_code {
        Some(c) => {
            if c == 530 || c == 534 || c == 535 || c == 538 {
                DispatchError::AuthenticationFailed
            } else if c == 550 || c == 551 || c == 553 {
                DispatchError::InvalidRecipient
            } else {
                DispatchError::TransportUnavailable
            }
        },
        None => DispatchError::TransportUnavailable,
    }
}

} // verus!
