//! User payloads of the HTTP layer.
use vstd::prelude::*;

verus! {

/// A registration as a client sends it.
#[derive(Debug)]
pub struct UserCmd {
    pub username: String,
    pub password: String,
}

} // verus!
