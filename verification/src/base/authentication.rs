//! Shared vocabulary of authentication: errors, the authenticated user,
//! request methods, and the session cookie handed out after a login.
use vstd::prelude::*;

verus! {

/// Why an authentication failed.
#[derive(Clone, Copy, Debug, PartialEq, Eq, Structural)]
pub enum AuthenticationError {
    UsernameEmpty,
    PasswordEmpty,
    UsernameNotFound,
    BadPassword,
    InnerError,
    Unknown,
}

/// The user that a successful authentication yields.
#[derive(Debug)]
pub struct AuthenticatedUser {
    pub id: u128,
    pub username: String,
    pub email: String,
    pub authorities: Vec<String>,
}

/// A user name and a password as a login form sends them.
#[derive(Debug)]
pub struct UsernamePasswordCredentials {
    pub username: String,
    pub password: String,
}

/// The method of an HTTP request.
#[derive(Clone, Copy, Debug, PartialEq, Eq, Structural)]
pub enum HttpMethod {
    Get,
    Post,
    Put,
    Delete,
    Patch,
    Head,
    Options,
    Connect,
    Trace,
    Other,
}

/// How long a login session lasts: one hour, in nanoseconds.
pub const SESSION_LIFETIME_NANOS: i128 = 3_600_000_000_000i128;

/// The cookie that carries a logged-in user. Instants are nanoseconds since
/// the Unix epoch.
#[derive(Debug)]
pub struct SessionCookie {
    pub name: &'static str,
    pub value: String,
    pub http_only: bool,
    pub secure: bool,
    pub path: &'static str,
    pub expires_at: i128,
}

/// The session cookie for a principal written as `value`, issued at `now`:
/// named `id`, readable by the server only, sent over any connection, valid
/// for the whole site and for one hour.
pub fn session_cookie(value: String, now: i128) -> (r: SessionCookie)
    requires
        now <= i128::MAX - SESSION_LIFETIME_NANOS,
    ensures
        r.name@ == "id"@,
        r.value@ == value@,
        r.http_only,
        !r.secure,
        r.path@ == "/"@,
        r.expires_at == now + SESSION_LIFETIME_NANOS,
{
    SessionCookie {
        name: "id",
        value,
        http_only: true,
        secure: false,
        path: "/",
        expires_at: now + SESSION_LIFETIME_NANOS,
    }
}

/// Whether one of the cookie names is `id`, the session cookie.
pub open spec fn has_session_cookie(names: Seq<String>) -> bool {
    exists|i: int| 0 <= i < names.len() && names[i]@ == "id"@
}

pub fn carries_session_cookie(cookie_names: &Vec<String>) -> (r: bool)
    ensures
        r == has_session_cookie(cookie_names@),
{
    let mut i: usize = 0;
    while i < cookie_names.len()
        invariant
            i <= cookie_names@.len(),
            forall|j: int| 0 <= j < i ==> cookie_names@[j]@ != "id"@,
        decreases cookie_names@.len() - i,
    {
        if crate::base::text::str_eq(cookie_names[i].as_str(), "id") {
            return true;
        }
        i = i + 1;
    }
    false
}

/// Answers the outcome of an authentication.
pub trait AuthenticationSuccessHandler {
    type Response;

    type Principal;

    fn on_authentication_success(&self, principal: Self::Principal) -> Self::Response;
}

/// Answers a failed authentication.
pub trait AuthenticationFailureHandler {
    type Response;

    fn on_authentication_failure(&self, err: AuthenticationError) -> Self::Response;
}

/// Tells whether a request is one of those it looks for.
pub trait RequestMatcher {
    type Request;

    fn matches(&self, request: &Self::Request) -> bool;
}

/// A request carries the session cookie exactly when one of its cookie
/// names, at whatever position, is `id`: the order of the cookies does not
/// matter, and two lists of cookies together carry it when either does.
pub proof fn law_session_cookie_anywhere(names: Seq<String>, other: Seq<String>, i: int)
    ensures
        0 <= i < names.len() && names[i]@ == "id"@ ==> has_session_cookie(names),
        !has_session_cookie(Seq::<String>::empty()),
        has_session_cookie(names + other) == (has_session_cookie(names) || has_session_cookie(
            other,
        )),
        has_session_cookie(names + other) == has_session_cookie(other + names),
{
    let a = names + other;
    let b = other + names;
    if has_session_cookie(names) {
        let j = choose|j: int| 0 <= j < names.len() && names[j]@ == "id"@;
        assert(a[j] == names[j]);
        assert(b[other.len() + j] == names[j]);
    }
    if has_session_cookie(other) {
        let j = choose|j: int| 0 <= j < other.len() && other[j]@ == "id"@;
        assert(a[names.len() + j] == other[j]);
        assert(b[j] == other[j]);
    }
    if has_session_cookie(a) {
        let j = choose|j: int| 0 <= j < a.len() && a[j]@ == "id"@;
        if j < names.len() {
            assert(names[j] == a[j]);
        } else {
            assert(other[j - names.len()] == a[j]);
        }
    }
    if has_session_cookie(b) {
        let j = choose|j: int| 0 <= j < b.len() && b[j]@ == "id"@;
        if j < other.len() {
            assert(other[j] == b[j]);
        } else {
            assert(names[j - other.len()] == b[j]);
        }
    }
}

} // verus!
