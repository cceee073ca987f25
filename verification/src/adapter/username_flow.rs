//! The form-login flow that keeps the user in a session cookie.
use vstd::prelude::*;
use crate::adapter::user_principal::UsernamePasswordCredential;
use crate::base::authentication::{
    carries_session_cookie, has_session_cookie, session_cookie, AuthenticationError, HttpMethod,
    SessionCookie, SESSION_LIFETIME_NANOS,
};
use crate::base::clock::{instant_bound, now_nanos};
use crate::base::text::{is_prefix, starts_with, str_eq};

verus! {

/// The login form.
#[derive(Debug)]
pub struct FormLoginCmd {
    pub username: String,
    pub password: String,
}

#[derive(Clone, Debug)]
pub struct UsernameFlow {}

/// A login is a `POST` to `/login`.
pub open spec fn is_login(path: Seq<char>, method: HttpMethod) -> bool {
    path == "/login"@ && method == HttpMethod::Post
}

/// Static files, `/users`, and any `POST` are open to everyone.
pub open spec fn requires_authentication(path: Seq<char>, method: HttpMethod) -> bool {
    !is_prefix("/static"@, path) && path != "/users"@ && method != HttpMethod::Post
}

/// The status of an answer to a request that needs a login.
pub const UNAUTHORIZED: u16 = 401;

impl UsernameFlow {
    pub fn is_authenticate_request(&self, path: &str, method: HttpMethod) -> (r: bool)
        ensures
            r == is_login(path@, method),
    {
        str_eq(path, "/login") && method == HttpMethod::Post
    }

    pub fn is_access_require_authentication(&self, path: &str, method: HttpMethod) -> (r: bool)
        ensures
            r == requires_authentication(path@, method),
    {
        !starts_with(path, "/static") && !str_eq(path, "/users") && method != HttpMethod::Post
    }

    /// A request is authenticated when it carries the session cookie.
    pub fn is_authenticated(&self, cookie_names: &Vec<String>) -> (r: bool)
        ensures
            r == has_session_cookie(cookie_names@),
    {
        carries_session_cookie(cookie_names)
    }

    /// The credential in a login form.
    pub fn extract_credential(&self, form: FormLoginCmd) -> (r: Result<
        UsernamePasswordCredential,
        AuthenticationError,
    >)
        ensures
            form.username@.len() == 0 ==> r == Err::<UsernamePasswordCredential, _>(
                AuthenticationError::UsernameEmpty,
            ),
            form.username@.len() > 0 && form.password@.len() == 0 ==> r == Err::<
                UsernamePasswordCredential,
                _,
            >(AuthenticationError::PasswordEmpty),
            form.username@.len() > 0 && form.password@.len() > 0 ==> (r matches Ok(c)
                && c.username_view() == form.username@ && c.password_view() == form.password@),
    {
        UsernamePasswordCredential::new(form.username, form.password)
    }

    /// The status answered to a request that needs a login.
    pub fn on_unauthenticated(&self) -> (r: u16)
        ensures
            r == 401,
    {
        UNAUTHORIZED
    }

    /// The session cookie for the principal written as `principal`, issued
    /// now and valid for the session lifetime. It is always issued: the clock
    /// never lies so far ahead that the lifetime cannot be added.
    pub fn on_authenticate_success(&self, principal: String) -> (r: Option<SessionCookie>)
        ensures
            r is Some,
            r matches Some(c) ==> {
                &&& c.name@ == "id"@
                &&& c.value@ == principal@
                &&& c.http_only
                &&& !c.secure
                &&& c.path@ == "/"@
                &&& -instant_bound() + SESSION_LIFETIME_NANOS <= c.expires_at
                &&& c.expires_at <= instant_bound() + SESSION_LIFETIME_NANOS
            },
    {
        let now = now_nanos();
        if now <= i128::MAX - SESSION_LIFETIME_NANOS {
            Some(session_cookie(principal, now))
        } else {
            None
        }
    }
}

/// A login request never needs a login itself.
pub proof fn law_login_is_open(path: Seq<char>, method: HttpMethod)
    ensures
        is_login(path, method) ==> !requires_authentication(path, method),
{
}

/// Which requests of this flow need a login, over the path and the method:
/// a request needs one exactly when its path does not begin with `/static`,
/// is not `/users` itself, and its method is not `POST`. So every path below
/// `/users` needs a login for any other method, and a login is a `POST` to
/// `/login`.
pub proof fn law_access_rules(path: Seq<char>, method: HttpMethod, rest: Seq<char>)
    ensures
        requires_authentication(path, method) <==> (!(path.len() >= 7 && path.subrange(0, 7)
            == "/static"@) && path != "/users"@ && method != HttpMethod::Post),
        rest.len() > 0 && method != HttpMethod::Post ==> requires_authentication(
            "/users"@ + rest,
            method,
        ),
        is_login(path, method) <==> (path == "/login"@ && method == HttpMethod::Post),
{
    reveal_strlit("/static");
    reveal_strlit("/users");
    let p = "/users"@ + rest;
    if rest.len() > 0 {
        assert(p.len() > "/users"@.len());
        if p.len() >= 7 {
            assert(p.subrange(0, 7)[1] == 'u');
            assert("/static"@[1] == 's');
        }
    }
}

} // verus!
