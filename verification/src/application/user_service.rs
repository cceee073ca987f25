//! Decisions of a login inside a transaction: what follows the lookup of the
//! account, the check of the password, and how the transaction ends.
use vstd::prelude::*;
use std::convert::Infallible;
use crate::base::authentication::{AuthenticatedUser, AuthenticationError};
use crate::base::db::TxEnd;

verus! {

/// The answer of the account to a password.
#[derive(Clone, Copy, Debug, PartialEq, Eq, Structural)]
pub enum PasswordCheck {
    /// The password is right.
    Matched,
    /// The password is wrong; the account has recorded the failed attempt.
    BadPassword,
    /// The check could not be made.
    Failed,
}

/// What a login does after the password check.
#[derive(Debug)]
pub enum AuthStep {
    /// The user is authenticated.
    Grant(AuthenticatedUser),
    /// The failed attempt is saved with the account, then the login is refused.
    RecordBadPassword,
    /// The login is refused with this error.
    Refuse(AuthenticationError),
}

/// The outcome of looking the account up: a failed lookup is an inner error,
/// a missing account an unknown user name.
pub fn on_lookup<T, E>(found: Result<Option<T>, E>) -> (r: Result<T, AuthenticationError>)
    ensures
        found is Err ==> r == Err::<T, _>(AuthenticationError::InnerError),
        found matches Ok(None) ==> r == Err::<T, _>(AuthenticationError::UsernameNotFound),
        found matches Ok(Some(u)) ==> r == Ok::<T, AuthenticationError>(u),
{
    match found {
        Err(_) => Err(AuthenticationError::InnerError),
        Ok(None) => Err(AuthenticationError::UsernameNotFound),
        Ok(Some(u)) => Ok(u),
    }
}

/// What follows the password check of the account `id` with `email`, for a
/// login under `username`.
pub fn on_password_check(id: u128, username: &str, email: &str, check: PasswordCheck) -> (r:
    AuthStep)
    ensures
        check == PasswordCheck::Matched ==> (r matches AuthStep::Grant(u) && u.id == id
            && u.username@ == username@ && u.email@ == email@ && u.authorities@.len() == 0),
        check == PasswordCheck::BadPassword ==> r is RecordBadPassword,
        check == PasswordCheck::Failed ==> r matches AuthStep::Refuse(
            AuthenticationError::InnerError,
        ),
{
    match check {
        PasswordCheck::Matched => AuthStep::Grant(
            AuthenticatedUser {
                id,
                username: username.to_owned(),
                email: email.to_owned(),
                authorities: Vec::new(),
            },
        ),
        PasswordCheck::BadPassword => AuthStep::RecordBadPassword,
        PasswordCheck::Failed => AuthStep::Refuse(AuthenticationError::InnerError),
    }
}

/// The error after saving a failed attempt: a bad password once it is
/// saved, an inner error if saving failed.
pub fn on_bad_password_recorded(saved: bool) -> (r: AuthenticationError)
    ensures
        saved ==> r == AuthenticationError::BadPassword,
        !saved ==> r == AuthenticationError::InnerError,
{
    if saved {
        AuthenticationError::BadPassword
    } else {
        AuthenticationError::InnerError
    }
}

/// How the login transaction ends for an outcome: only an inner error rolls
/// back; a refused login is committed, so that a failed attempt is kept.
pub open spec fn settle_spec(outcome: Result<AuthenticatedUser, AuthenticationError>) -> TxEnd {
    match outcome {
        Err(AuthenticationError::InnerError) => TxEnd::Rollback,
        _ => TxEnd::Commit,
    }
}

pub fn settle(outcome: &Result<AuthenticatedUser, AuthenticationError>) -> (r: TxEnd)
    ensures
        r == settle_spec(*outcome),
{
    match outcome {
        Err(AuthenticationError::InnerError) => TxEnd::Rollback,
        _ => TxEnd::Commit,
    }
}

/// The answer of the login once the transaction has ended: the outcome, or an
/// inner error when ending the transaction failed.
pub fn after_settle(outcome: Result<AuthenticatedUser, AuthenticationError>, ended: bool) -> (r:
    Result<AuthenticatedUser, AuthenticationError>)
    ensures
        ended ==> r == outcome,
        !ended ==> r == Err::<AuthenticatedUser, _>(AuthenticationError::InnerError),
{
    if ended {
        outcome
    } else {
        Err(AuthenticationError::InnerError)
    }
}

/// A refused login is committed unless the service itself failed, so that a
/// bad password is kept for the lock policy.
pub proof fn law_failed_attempts_are_kept(u: AuthenticatedUser)
    ensures
        settle_spec(Err(AuthenticationError::BadPassword)) == TxEnd::Commit,
        settle_spec(Err(AuthenticationError::UsernameNotFound)) == TxEnd::Commit,
        settle_spec(Ok(u)) == TxEnd::Commit,
        settle_spec(Err(AuthenticationError::InnerError)) == TxEnd::Rollback,
{
}

/// What answering a request for a verification code does.
#[derive(Clone, Copy, Debug, PartialEq, Eq, Structural)]
pub enum VerificationAction {
    /// Nothing: the address is registered already, or the lookup failed.
    Skip,
    /// Cache a new code for the address and send it there.
    Send,
}

/// The action for an address, given whether looking it up found an account.
/// The request itself always succeeds, so that it does not tell which
/// addresses are registered.
pub fn verification_action<E>(registered: Result<bool, E>) -> (r: VerificationAction)
    ensures
        registered matches Ok(false) ==> r == VerificationAction::Send,
        !(registered matches Ok(false)) ==> r == VerificationAction::Skip,
{
    match registered {
        Ok(false) => VerificationAction::Send,
        _ => VerificationAction::Skip,
    }
}

/// The answer to a request for a verification code, given what looking the
/// address up gave (`registered`) and, where a code was sent, what sending
/// it gave (`delivery`). It is `Ok(())` whatever the lookup found and
/// whether or not anything failed, so that the answer never tells which
/// addresses are registered; failures are only logged.
pub fn verification_answer<E, F>(
    _registered: &Result<bool, E>,
    _delivery: &Option<Result<(), F>>,
) -> (r: Result<(), Infallible>)
    ensures
        r is Ok,
{
    Ok(())
}

} // verus!
