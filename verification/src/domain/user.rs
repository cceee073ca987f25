//! The user aggregate as the persistence logic reads it.
use vstd::prelude::*;
use crate::domain::value_object::{SecurityEventType, UserState};

verus! {

/// Something that happened to the security of an account, such as a login
/// with a bad password. Instants are nanoseconds since the Unix epoch.
#[derive(Debug)]
pub struct SecurityEvent {
    pub id: u128,
    pub user_id: u128,
    pub event_type: SecurityEventType,
    pub message: String,
    pub created_at: i128,
}

/// A user account with its recent security events: those read from the
/// store, newest first, followed by those recorded since, in the order they
/// were recorded.
#[derive(Debug)]
pub struct User {
    pub id: u128,
    pub username: String,
    /// The stored password hash.
    pub password: String,
    pub email: String,
    pub state: UserState,
    pub create_at: i128,
    pub security_events: Vec<SecurityEvent>,
}

} // verus!
