//! Persistence of articles: the repository handle and what an update of an
//! article writes.
use vstd::prelude::*;
use crate::application::attachment_diff::{added, diff_by_id, law_diff_unchanged, removed_ids};
use crate::application::db_state::{article_state_do_of, ArticleStateDo};
use crate::application::field_change::{
    change_of, change_opt_i128, change_opt_u128, change_string, change_u128, FieldChange,
};
use crate::domain::article::{Article, Attachment};
use crate::domain::identified::keys;

verus! {

/// The article repository over a connection, plain or inside a transaction.
pub struct DefaultArticleRepository<T> {
    conn: T,
}

impl<T> DefaultArticleRepository<T> {
    /// The connection the repository works on.
    pub closed spec fn connection(&self) -> T {
        self.conn
    }

    pub fn new(conn: T) -> (r: DefaultArticleRepository<T>)
        ensures
            r.connection() == conn,
    {
        Self { conn }
    }

    /// Gives the connection back, to commit or roll back a transaction.
    pub fn conn(self) -> (r: T)
        ensures
            r == self.connection(),
    {
        self.conn
    }
}

/// What an update writes to a text column: kept when the characters are the
/// same, written otherwise.
pub open spec fn text_change(c: FieldChange<String>, old: Seq<char>, new: Seq<char>) -> bool {
    if old == new {
        c matches FieldChange::Keep(v) && v@ == old
    } else {
        c matches FieldChange::Write(v) && v@ == new
    }
}

/// Splits the attachments of a revision: identifiers of the old ones that are
/// gone, and the new ones that were not there.
pub fn diff_attachment(old: &[Attachment], new: Vec<Attachment>) -> (r: (Vec<u128>, Vec<Attachment>))
    ensures
        r.0@ == removed_ids(old@, keys(new@)),
        r.1@ == added(new@, keys(old@)),
{
    diff_by_id(old, new)
}

/// Everything an update of an article writes: the attachment rows to delete
/// and to insert, and for each column whether it is kept or written.
#[derive(Debug)]
pub struct ArticleUpdatePlan {
    pub to_delete_ids: Vec<u128>,
    pub to_add: Vec<Attachment>,
    pub id: u128,
    pub title: FieldChange<String>,
    pub content: FieldChange<String>,
    pub state: FieldChange<ArticleStateDo>,
    pub author_id: FieldChange<u128>,
    pub category_id: FieldChange<Option<u128>>,
    pub published_at: FieldChange<Option<i128>>,
    /// The update instant, always written.
    pub updated_at: Option<i128>,
}

/// What an update at `now` from `original` to `modified` writes. The row
/// keeps the identifier of `original`; the creation instant is never
/// written, and the update instant is always written, as `now`.
pub fn update_plan(original: Article, modified: Article, now: i128) -> (r: ArticleUpdatePlan)
    ensures
        r.to_delete_ids@ == removed_ids(original.attachments@, keys(modified.attachments@)),
        r.to_add@ == added(modified.attachments@, keys(original.attachments@)),
        r.id == original.id,
        text_change(r.title, original.title@, modified.title@),
        text_change(r.content, original.content@, modified.content@),
        r.state == change_of(article_state_do_of(original.state), article_state_do_of(modified.state)),
        r.author_id == change_of(original.author_id, modified.author_id),
        r.category_id == change_of(original.category_id, modified.category_id),
        r.published_at == change_of(original.published_at, modified.published_at),
        r.updated_at == Some(now),
{
    let Article {
        id,
        title,
        content,
        state,
        attachments,
        author_id,
        category_id,
        published_at,
    } = original;
    let Article {
        id: _,
        title: new_title,
        content: new_content,
        state: new_state,
        attachments: new_attachments,
        author_id: new_author_id,
        category_id: new_category_id,
        published_at: new_published_at,
    } = modified;
    let (to_delete_ids, to_add) = diff_attachment(attachments.as_slice(), new_attachments);
    let old_state: ArticleStateDo = ArticleStateDo::from(state);
    let new_state: ArticleStateDo = ArticleStateDo::from(new_state);
    let state_change = if old_state == new_state {
        FieldChange::Keep(old_state)
    } else {
        FieldChange::Write(new_state)
    };
    ArticleUpdatePlan {
        to_delete_ids,
        to_add,
        id,
        title: change_string(title, new_title),
        content: change_string(content, new_content),
        state: state_change,
        author_id: change_u128(author_id, new_author_id),
        category_id: change_opt_u128(category_id, new_category_id),
        published_at: change_opt_i128(published_at, new_published_at),
        updated_at: Some(now),
    }
}

/// Saving an article that did not change touches no attachment row and
/// writes no column but the update instant.
pub proof fn law_unchanged_article_writes_nothing(original: Article, modified: Article)
    requires
        keys(original.attachments@) == keys(modified.attachments@),
        original.title@ == modified.title@,
        original.content@ == modified.content@,
        original.state == modified.state,
        original.author_id == modified.author_id,
        original.category_id == modified.category_id,
        original.published_at == modified.published_at,
    ensures
        removed_ids(original.attachments@, keys(modified.attachments@)).len() == 0,
        added(modified.attachments@, keys(original.attachments@)).len() == 0,
        forall|c: FieldChange<String>|
            text_change(c, original.title@, modified.title@) ==> c is Keep,
        forall|c: FieldChange<String>|
            text_change(c, original.content@, modified.content@) ==> c is Keep,
        change_of(article_state_do_of(original.state), article_state_do_of(modified.state)) is Keep,
        change_of(original.author_id, modified.author_id) is Keep,
        change_of(original.category_id, modified.category_id) is Keep,
        change_of(original.published_at, modified.published_at) is Keep,
{
    law_diff_unchanged(original.attachments@, modified.attachments@);
}

/// The row inserted for a new article.
#[derive(Debug)]
pub struct ArticleInsertRow {
    pub id: u128,
    pub title: String,
    pub content: String,
    pub state: ArticleStateDo,
    pub author_id: u128,
    pub category_id: Option<u128>,
    pub created_at: i128,
}

/// The row for a new article, created at `now`; it is not published yet and
/// never updated, and its attachments are stored apart.
pub fn insert_row(article: Article, now: i128) -> (r: ArticleInsertRow)
    ensures
        r.id == article.id,
        r.title@ == article.title@,
        r.content@ == article.content@,
        r.state == article_state_do_of(article.state),
        r.author_id == article.author_id,
        r.category_id == article.category_id,
        r.created_at == now,
{
    ArticleInsertRow {
        id: article.id,
        title: article.title,
        content: article.content,
        state: ArticleStateDo::from(article.state),
        author_id: article.author_id,
        category_id: article.category_id,
        created_at: now,
    }
}

} // verus!
