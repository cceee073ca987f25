//! The credential of a form login.
use vstd::prelude::*;
use crate::base::authentication::AuthenticationError;

verus! {

/// A user name and a password, both present.
#[derive(Debug)]
pub struct UsernamePasswordCredential {
    username: String,
    password: String,
}

impl UsernamePasswordCredential {
    pub closed spec fn username_view(&self) -> Seq<char> {
        self.username@
    }

    pub closed spec fn password_view(&self) -> Seq<char> {
        self.password@
    }

    /// A credential from a user name and a password. An empty user name is
    /// refused first, then an empty password.
    pub fn new(username: String, password: String) -> (r: Result<Self, AuthenticationError>)
        ensures
            username@.len() == 0 ==> r == Err::<Self, _>(AuthenticationError::UsernameEmpty),
            username@.len() > 0 && password@.len() == 0 ==> r == Err::<Self, _>(
                AuthenticationError::PasswordEmpty,
            ),
            username@.len() > 0 && password@.len() > 0 ==> (r matches Ok(c) && c.username_view()
                == username@ && c.password_view() == password@),
    {
        if username.as_str().unicode_len() == 0 {
            return Err(AuthenticationError::UsernameEmpty);
        }
        if password.as_str().unicode_len() == 0 {
            return Err(AuthenticationError::PasswordEmpty);
        }
        Ok(UsernamePasswordCredential { username, password })
    }

    pub fn username(&self) -> (r: &str)
        ensures
            r@ == self.username_view(),
    {
        self.username.as_str()
    }

    pub fn password(&self) -> (r: &str)
        ensures
            r@ == self.password_view(),
    {
        self.password.as_str()
    }
}

/// The outcome of looking up the account of a principal: a failed lookup is
/// an unknown error, a missing account an unknown user name.
pub fn found_principal<T, E>(found: Result<Option<T>, E>) -> (r: Result<T, AuthenticationError>)
    ensures
        found is Err ==> r == Err::<T, _>(AuthenticationError::Unknown),
        found matches Ok(None) ==> r == Err::<T, _>(AuthenticationError::UsernameNotFound),
        found matches Ok(Some(u)) ==> r == Ok::<T, AuthenticationError>(u),
{
    match found {
        Err(_) => Err(AuthenticationError::Unknown),
        Ok(None) => Err(AuthenticationError::UsernameNotFound),
        Ok(Some(u)) => Ok(u),
    }
}

/// The outcome of checking a password against the stored hash: a stored hash
/// that cannot be read and a password that does not verify are both a bad
/// password.
pub fn password_outcome<T, E1, E2>(user: T, hash_read: Result<(), E1>, verified: Result<(), E2>) -> (r:
    Result<T, AuthenticationError>)
    ensures
        hash_read is Err ==> r == Err::<T, _>(AuthenticationError::BadPassword),
        hash_read is Ok && verified is Err ==> r == Err::<T, _>(AuthenticationError::BadPassword),
        hash_read is Ok && verified is Ok ==> r == Ok::<T, AuthenticationError>(user),
{
    match hash_read {
        Err(_) => Err(AuthenticationError::BadPassword),
        Ok(()) => match verified {
            Err(_) => Err(AuthenticationError::BadPassword),
            Ok(()) => Ok(user),
        },
    }
}

} // verus!
