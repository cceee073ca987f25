//! The form-login flow over user name and password of the user service.
use vstd::prelude::*;
use crate::base::authentication::{
    carries_session_cookie, has_session_cookie, session_cookie, AuthenticationError, HttpMethod,
    SessionCookie, UsernamePasswordCredentials, SESSION_LIFETIME_NANOS,
};
use crate::base::clock::{instant_bound, now_nanos};
use crate::base::error::Cause;
use crate::base::text::{is_prefix, starts_with, str_eq};

verus! {

/// The login form.
#[derive(Debug)]
pub struct FormLoginCmd {
    pub username: String,
    pub password: String,
}

#[derive(Debug)]
pub struct UsernamePasswordFlow {}

/// A login is a `POST` to `/login`.
pub open spec fn is_login(path: Seq<char>, method: HttpMethod) -> bool {
    path == "/login"@ && method == HttpMethod::Post
}

/// Static files and `GET` requests are open to everyone.
pub open spec fn requires_authentication(path: Seq<char>, method: HttpMethod) -> bool {
    !is_prefix("/static"@, path) && method != HttpMethod::Get
}

/// The cause answered for a failed login: a wrong user name or password is
/// the client's error, anything else the service's.
pub open spec fn failure_cause(err: AuthenticationError) -> Cause {
    match err {
        AuthenticationError::UsernameNotFound => Cause::ClientBadRequest,
        AuthenticationError::BadPassword => Cause::ClientBadRequest,
        _ => Cause::InnerError,
    }
}

/// The message answered for a failed login; it does not tell whether the
/// user name or the password was wrong.
pub open spec fn failure_message(err: AuthenticationError) -> Seq<char> {
    match failure_cause(err) {
        Cause::InnerError => "authentication failed"@,
        _ => "username or password incorrect"@,
    }
}

impl UsernamePasswordFlow {
    pub fn is_authenticate_request(&self, path: &str, method: HttpMethod) -> (r: bool)
        ensures
            r == is_login(path@, method),
    {
        str_eq(path, "/login") && method == HttpMethod::Post
    }

    pub fn is_access_require_authentication(&self, path: &str, method: HttpMethod) -> (r: bool)
        ensures
            r == requires_authentication(path@, method),
    {
        !starts_with(path, "/static") && method != HttpMethod::Get
    }

    /// A request is authenticated when it carries the session cookie.
    pub fn is_authenticated(&self, cookie_names: &Vec<String>) -> (r: bool)
        ensures
            r == has_session_cookie(cookie_names@),
    {
        carries_session_cookie(cookie_names)
    }

    /// The credentials in a login form, taken as they are.
    pub fn extract_credential(&self, form: FormLoginCmd) -> (r: UsernamePasswordCredentials)
        ensures
            r.username@ == form.username@,
            r.password@ == form.password@,
    {
        UsernamePasswordCredentials { username: form.username, password: form.password }
    }

    /// The status answered to a request that needs a login.
    pub fn on_unauthenticated(&self) -> (r: u16)
        ensures
            r == 401,
    {
        401
    }

    /// The session cookie for the principal written as `principal`, issued
    /// now and valid for the session lifetime. It is always issued: the clock
    /// never lies so far ahead that the lifetime cannot be added.
    pub fn on_authenticate_success(&self, principal: String) -> (r: Option<SessionCookie>)
        ensures
            r is Some,
            r matches Some(c) ==> {
                &&& c.name@ == "id"@
                &&& c.value@ == principal@
                &&& c.http_only
                &&& !c.secure
                &&& c.path@ == "/"@
                &&& -instant_bound() + SESSION_LIFETIME_NANOS <= c.expires_at
                &&& c.expires_at <= instant_bound() + SESSION_LIFETIME_NANOS
            },
    {
        let now = now_nanos();
        if now <= i128::MAX - SESSION_LIFETIME_NANOS {
            Some(session_cookie(principal, now))
        } else {
            None
        }
    }

    /// The cause and the message answered for a failed login.
    pub fn on_authenticate_failure(&self, err: AuthenticationError) -> (r: (Cause, &'static str))
        ensures
            r.0 == failure_cause(err),
            r.1@ == failure_message(err),
    {
        let cause = match err {
            AuthenticationError::UsernameNotFound => Cause::ClientBadRequest,
            AuthenticationError::BadPassword => Cause::ClientBadRequest,
            _ => Cause::InnerError,
        };
        let message = match cause {
            Cause::InnerError => "authentication failed",
            _ => "username or password incorrect",
        };
        (cause, message)
    }
}

/// A wrong user name and a wrong password are answered alike, so that an
/// answer does not reveal which accounts exist.
pub proof fn law_failures_do_not_tell_accounts()
    ensures
        failure_cause(AuthenticationError::UsernameNotFound) == failure_cause(
            AuthenticationError::BadPassword,
        ),
        failure_message(AuthenticationError::UsernameNotFound) == failure_message(
            AuthenticationError::BadPassword,
        ),
{
}

/// Which requests of this flow need a login, over the path and the method:
/// a request needs one exactly when its path does not begin with `/static`
/// and its method is not `GET`; a login is a `POST` to `/login`.
pub proof fn law_access_rules(path: Seq<char>, method: HttpMethod)
    ensures
        requires_authentication(path, method) <==> (!(path.len() >= 7 && path.subrange(0, 7)
            == "/static"@) && method != HttpMethod::Get),
        is_login(path, method) <==> (path == "/login"@ && method == HttpMethod::Post),
{
    reveal_strlit("/static");
}

} // verus!
