//! The blog aggregate as the persistence logic reads it.
use vstd::prelude::*;
use crate::domain::identified::Identified;
use crate::domain::value_object::BlogState;

verus! {

/// A file attached to a blog post. Instants are nanoseconds since the Unix
/// epoch.
#[derive(Clone, Copy, Debug, PartialEq, Eq, Structural)]
pub struct Attachment {
    pub id: u128,
    pub blog_id: u128,
    pub create_at: i128,
    pub update_at: Option<i128>,
}

impl Identified for Attachment {
    open spec fn key(&self) -> u128 {
        self.id
    }

    fn id(&self) -> (r: u128) {
        self.id
    }
}

/// A blog post with its attachments.
#[derive(Debug)]
pub struct Blog {
    pub id: u128,
    pub title: String,
    pub content: String,
    pub state: BlogState,
    pub attachments: Vec<Attachment>,
    pub author_id: u128,
    pub create_at: i128,
    pub update_at: Option<i128>,
}

} // verus!
