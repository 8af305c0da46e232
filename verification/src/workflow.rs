//! Registration workflow: the fixed sequence prepare, persist, notify, with
//! its failure exits and the uniform `{success, message}` response contract.
//!
//! Persistence must complete before notification is attempted, so the
//! workflow runs in two phases: [`register_submit`] prepares and persists,
//! and hands back either a terminal outcome or the message to dispatch;
//! [`register_finish`] turns the transport's verdict into the terminal
//! outcome. A dispatch failure never rolls the written row back.

use vstd::prelude::*;
use vstd::string::StringExecFns;
use crate::code::{generate_code, valid_code};
use crate::dispatch::{mailbox_ok, prepare_email, rendered_body, DispatchError, EmailMessage};
use crate::repository::{has_email, AccountStore, RepositoryError};
use crate::secret::{prepare_secret, prepared_secret};

verus! {

/// One registration submission, as received.
#[derive(Debug)]
pub struct RegistrationRequest {
    pub email: String,
    pub password: String,
    pub fullname: String,
    pub discord: String,
    pub age: i32,
}

/// The externally visible response: a success flag and a sanitized,
/// human-readable message.
#[derive(Debug)]
pub struct ApiResponse {
    pub success: bool,
    pub message: String,
}

/// The status-code class a terminal outcome maps to.
#[derive(Debug, Clone, Copy, PartialEq, Eq, Structural)]
pub enum StatusClass {
    Success,
    ClientError,
    ServerError,
}

/// A terminal state of the workflow.
#[derive(Debug, Clone, Copy, PartialEq, Eq, Structural)]
pub enum Outcome {
    /// Persisted and notified.
    Complete,
    /// The email already belongs to an account; nothing was written.
    DuplicateRejected,
    /// The repository refused the write for any other reason.
    PersistenceFailed,
    /// The row was written but the verification message was not delivered.
    NotificationFailed,
}

/// What the workflow asks for next after the persistence phase.
#[derive(Debug)]
pub enum RegisterStep {
    /// The row is durably written; this message must now be dispatched.
    Dispatch(EmailMessage),
    /// A terminal state was reached before any dispatch attempt.
    Done(Outcome),
}

/// A submission after the pure preparation phase: the password replaced by
/// its stored-secret form and a fresh verification code attached.
#[derive(Debug)]
pub struct PreparedRegistration {
    pub email: String,
    pub stored_secret: String,
    pub fullname: String,
    pub discord: String,
    pub age: i32,
    pub verification_code: String,
}

/// The pure preparation phase: apply the credential preparer and the code
/// generator. It cannot fail.
pub fn prepare(req: &RegistrationRequest) -> (p: PreparedRegistration)
    ensures
        p.email@ == req.email@,
        p.stored_secret@ == prepared_secret(req.password@),
        p.stored_secret@ != req.password@,
        p.fullname@ == req.fullname@,
        p.discord@ == req.discord@,
        p.age == req.age,
        valid_code(p.verification_code@),
{
    PreparedRegistration {
        email: req.email.clone(),
        stored_secret: prepare_secret(req.password.as_str()),
        fullname: req.fullname.clone(),
        discord: req.discord.clone(),
        age: req.age,
        verification_code: generate_code(),
    }
}

/// The terminal outcome a repository refusal maps to.
pub fn repository_error_outcome(e: &RepositoryError) -> (t: Outcome)
    ensures
        e is DuplicateEmail ==> t == Outcome::DuplicateRejected,
        e is Other ==> t == Outcome::PersistenceFailed,
{
    match e {
        RepositoryError::DuplicateEmail => Outcome::DuplicateRejected,
        RepositoryError::Other(_) => Outcome::PersistenceFailed,
    }
}

/// The notification phase's verdict, as a terminal outcome: the dispatch
/// result is always observed, never swallowed.
pub fn register_finish(outcome: Result<(), DispatchError>) -> (t: Outcome)
    ensures
        outcome is Ok ==> t == Outcome::Complete,
        outcome is Err ==> t == Outcome::NotificationFailed,
{
    match outcome {
        Ok(()) => Outcome::Complete,
        Err(_) => Outcome::NotificationFailed,
    }
}

/// The uniform response for a terminal outcome: success exactly on
/// `Complete`, and a sanitized message that never carries storage or
/// transport detail.
pub fn response_for(t: &Outcome) -> (resp: ApiResponse)
    ensures
        resp.success == (t is Complete),
        t is Complete ==> resp.message@ == "Check your email for verification code"@,
        t is DuplicateRejected ==> resp.message@ == "Email already exists"@,
        t is PersistenceFailed ==> resp.message@ == "Database error"@,
        t is NotificationFailed ==> resp.message@ == "Failed to send verification email"@,
{
    match t {
        Outcome::Complete => ApiResponse {
            success: true,
            message: String::from_str("Check your email for verification code"),
        },
        Outcome::DuplicateRejected => ApiResponse {
            success: false,
            message: String::from_str("Email already exists"),
        },
        Outcome::PersistenceFailed => ApiResponse {
            success: false,
            message: String::from_str("Database error"),
        },
        Outcome::NotificationFailed => ApiResponse {
            success: false,
            message: String::from_str("Failed to send verification email"),
        },
    }
}

/// The status-code class for a terminal outcome: duplicate rejection is the
/// client's error; persistence and dispatch failures are the server's.
pub fn status_class_for(t: &Outcome) -> (c: StatusClass)
    ensures
        c == (match *t {
            Outcome::Complete => StatusClass::Success,
            Outcome::DuplicateRejected => StatusClass::ClientError,
            Outcome::PersistenceFailed => StatusClass::ServerError,
            Outcome::NotificationFailed => StatusClass::ServerError,
        }),
{
    match t {
        Outcome::Complete => StatusClass::Success,
        Outcome::DuplicateRejected => StatusClass::ClientError,
        Outcome::PersistenceFailed => StatusClass::ServerError,
        Outcome::NotificationFailed => StatusClass::ServerError,
    }
}

/// The persistence phase: prepare the submission and write it to the store.
///
/// A taken email is rejected with nothing written and no dispatch requested.
/// A fresh email gets exactly one new row, unverified, with a valid code and
/// the stored-secret form of the password; the verification message for that
/// stored code is handed back for dispatch, unless the destination address
/// is malformed, in which case the row stays and notification has already
/// failed.
pub fn register_submit(store: &mut AccountStore, req: &RegistrationRequest) -> (step: RegisterStep)
    requires
        old(store).wf(),
    ensures
        final(store).wf(),
        has_email(old(store)@, req.email@) ==> {
            &&& final(store)@ == old(store)@
            &&& step == RegisterStep::Done(Outcome::DuplicateRejected)
        },
        !has_email(old(store)@, req.email@) ==> {
            &&& final(store)@.len() == old(store)@.len() + 1
            &&& final(store)@ == old(store)@.push(final(store)@.last())
            &&& {
                let acct = final(store)@.last();
                &&& acct.id == old(store)@.len()
                &&& acct.email@ == req.email@
                &&& acct.stored_secret@ == prepared_secret(req.password@)
                &&& acct.stored_secret@ != req.password@
                &&& acct.fullname@ == req.fullname@
                &&& acct.discord@ == req.discord@
                &&& acct.age == req.age
                &&& acct.is_verified == false
                &&& acct.verification_code matches Some(code) && valid_code(code@)
                    && (if mailbox_ok(req.email@) {
                        step matches RegisterStep::Dispatch(m)
                        && m.to@ == req.email@
                        && m.to_name@ == req.fullname@
                        && m.subject@ == "Dutchville Account Verification"@
                        && m.html_body@ == rendered_body(req.fullname@, code@)
                    } else {
                        step == RegisterStep::Done(Outcome::NotificationFailed)
                    })
            }
        },
{
    let p = prepare(req);
    let code = p.verification_code.clone();
    let created = store.create(
        p.email,
        p.stored_secret,
        p.fullname,
        p.discord,
        p.age,
        p.verification_code,
    );
    match created {
        Err(_) => RegisterStep::Done(Outcome::DuplicateRejected),
        Ok(_) => {
            match prepare_email(req.email.as_str(), req.fullname.as_str(), code.as_str()) {
                Ok(m) => RegisterStep::Dispatch(m),
                Err(_) => RegisterStep::Done(Outcome::NotificationFailed),
            }
        },
    }
}

/// The whole workflow against the store, with the transport's verdict on the
/// dispatch step supplied by the caller; the verdict is consulted only after
/// a successful write.
///
/// Success is reported exactly when a fresh row was written and its
/// verification message went out. A dispatch failure after a successful
/// write leaves the new row in place and unverified: there is no rollback.
pub fn register_with_transport(
    store: &mut AccountStore,
    req: &RegistrationRequest,
    transport_ok: bool,
) -> (resp: ApiResponse)
    requires
        old(store).wf(),
    ensures
        final(store).wf(),
        resp.success == (!has_email(old(store)@, req.email@) && mailbox_ok(req.email@)
            && transport_ok),
        resp.success ==> resp.message@ == "Check your email for verification code"@,
        has_email(old(store)@, req.email@) ==> {
            &&& final(store)@ == old(store)@
            &&& resp.message@ == "Email already exists"@
        },
        !has_email(old(store)@, req.email@) ==> {
            &&& final(store)@.len() == old(store)@.len() + 1
            &&& final(store)@ == old(store)@.push(final(store)@.last())
            &&& final(store)@.last().email@ == req.email@
            &&& final(store)@.last().is_verified == false
            &&& final(store)@.last().stored_secret@ != req.password@
            &&& final(store)@.last().verification_code matches Some(code) && valid_code(code@)
        },
        !has_email(old(store)@, req.email@) && !(mailbox_ok(req.email@) && transport_ok) ==> {
            resp.message@ == "Failed to send verification email"@
        },
{
    let step = register_submit(store, req);
    match step {
        RegisterStep::Done(t) => response_for(&t),
        RegisterStep::Dispatch(_message) => {
            let verdict: Result<(), DispatchError> = if transport_ok {
                Ok(())
            } else {
                Err(DispatchError::TransportUnavailable)
            };
            let t = register_finish(verdict);
            response_for(&t)
        },
    }
}

} // verus!
