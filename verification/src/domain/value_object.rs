//! States of the aggregates as the domain names them.
use vstd::prelude::*;

verus! {

/// Life cycle of an article.
#[derive(Clone, Copy, Debug, PartialEq, Eq, Structural)]
pub enum ArticleState {
    Draft,
    Published,
}

/// Life cycle of a blog post.
#[derive(Clone, Copy, Debug, PartialEq, Eq, Structural)]
pub enum BlogState {
    Draft,
    Released,
}

/// Life cycle of a user account.
#[derive(Clone, Copy, Debug, PartialEq, Eq, Structural)]
pub enum UserState {
    /// Registered, not verified yet.
    Inactive,
    /// In normal use.
    Active,
    /// Locked for a while after too many bad passwords.
    Locked,
    /// Disabled or suspended.
    Disabled,
}

/// What a security event of a user records.
#[derive(Clone, Copy, Debug, PartialEq, Eq, Structural)]
pub enum SecurityEventType {
    TryLoginWithBadPwd,
    PasswordChanged,
}

} // verus!
