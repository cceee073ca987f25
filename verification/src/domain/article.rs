//! The article aggregate as the persistence logic reads it.
use vstd::prelude::*;
use crate::domain::identified::Identified;
use crate::domain::value_object::ArticleState;

verus! {

/// A file attached to an article; it is stored under its identifier.
#[derive(Debug)]
pub struct Attachment {
    pub id: u128,
    pub file_name: String,
    pub article_id: u128,
}

impl Identified for Attachment {
    open spec fn key(&self) -> u128 {
        self.id
    }

    fn id(&self) -> (r: u128) {
        self.id
    }
}

/// An article with its attachments. Instants are nanoseconds since the Unix
/// epoch.
#[derive(Debug)]
pub struct Article {
    pub id: u128,
    pub title: String,
    pub content: String,
    pub state: ArticleState,
    pub attachments: Vec<Attachment>,
    pub author_id: u128,
    pub category_id: Option<u128>,
    pub published_at: Option<i128>,
}

} // verus!
