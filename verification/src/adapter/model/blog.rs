//! Blog payloads of the HTTP layer.
use vstd::prelude::*;

verus! {

/// A blog post as a client sends it.
#[derive(Debug)]
pub struct BlogCmd {
    pub title: String,
    pub body: String,
}

/// A blog post as the service answers it.
#[derive(Debug)]
pub struct BlogVo {
    pub title: String,
    pub body: String,
    pub state: String,
}

} // verus!
