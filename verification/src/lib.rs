//! Verified core of the starriver blogging service: request matching and
//! credential rules for authentication, upload type sniffing, attachment
//! bookkeeping, change plans for repository updates, state mappings between
//! the domain and the database, and validation of incoming commands.

pub mod base;
pub mod application;
pub mod domain;
pub mod adapter;
