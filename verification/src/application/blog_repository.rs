//! Persistence of blog posts: the repository handle and what an update of a
//! post writes.
use vstd::prelude::*;
use crate::application::article_repository::text_change;
use crate::application::attachment_diff::{added, diff_by_id, removed_ids};
use crate::application::db_state::{blog_state_do_of, BlogStateDo};
use crate::application::field_change::{change_of, change_string, change_u128, FieldChange};
use crate::base::error::{ApiError, Cause};
use crate::domain::blog::{Attachment, Blog};
use crate::domain::identified::keys;

verus! {

/// The blog repository over a connection, plain or inside a transaction.
pub struct DefaultBlogRepository<T> {
    conn: T,
}

impl<T> DefaultBlogRepository<T> {
    /// The connection the repository works on.
    pub closed spec fn connection(&self) -> T {
        self.conn
    }

    pub fn new(conn: T) -> (r: DefaultBlogRepository<T>)
        ensures
            r.connection() == conn,
    {
        Self { conn }
    }

    /// Gives the connection back, to commit or roll back a transaction.
    pub fn conn(self) -> (r: T)
        ensures
            r == self.connection(),
    {
        self.conn
    }
}

/// Splits the attachments of a revision: identifiers of the stored ones that
/// are gone, and the new ones to insert.
pub fn diff_attachments(old: &[Attachment], new: Vec<Attachment>) -> (r: (Vec<u128>, Vec<Attachment>))
    ensures
        r.0@ == removed_ids(old@, keys(new@)),
        r.1@ == added(new@, keys(old@)),
{
    diff_by_id(old, new)
}

/// Everything an update of a blog post writes.
#[derive(Debug)]
pub struct BlogUpdatePlan {
    pub to_delete_ids: Vec<u128>,
    pub to_insert: Vec<Attachment>,
    pub id: u128,
    pub title: FieldChange<String>,
    pub content: FieldChange<String>,
    pub state: FieldChange<BlogStateDo>,
    pub author_id: FieldChange<u128>,
    /// The creation instant, kept as stored.
    pub create_at: i128,
    /// The update instant, always written.
    pub update_at: Option<i128>,
}

/// What saving `modified` at `now` writes, given the stored post `found` under its
/// identifier. A post that is not stored is refused.
pub fn update_plan(modified: Blog, found: Option<Blog>, now: i128) -> (r: Result<
    BlogUpdatePlan,
    ApiError,
>)
    ensures
        found is None <==> r is Err,
        r matches Err(e) ==> e.cause == Cause::ClientBadRequest && e.message@ == "Blog not found"@,
        found matches Some(f) ==> (r matches Ok(p) && {
            &&& p.to_delete_ids@ == removed_ids(f.attachments@, keys(modified.attachments@))
            &&& p.to_insert@ == added(modified.attachments@, keys(f.attachments@))
            &&& p.id == modified.id
            &&& text_change(p.title, f.title@, modified.title@)
            &&& text_change(p.content, f.content@, modified.content@)
            &&& p.state == change_of(blog_state_do_of(f.state), blog_state_do_of(modified.state))
            &&& p.author_id == change_of(f.author_id, modified.author_id)
            &&& p.create_at == f.create_at
            &&& p.update_at == Some(now)
        }),
{
    match found {
        None => Err(ApiError::new(Cause::ClientBadRequest, "Blog not found")),
        Some(f) => {
            let Blog {
                id,
                title: new_title,
                content: new_content,
                state: new_state,
                attachments: new_attachments,
                author_id: new_author_id,
                create_at: _,
                update_at: _,
            } = modified;
            let Blog { id: _, title, content, state, attachments, author_id, create_at, update_at: _ } =
                f;
            let (to_delete_ids, to_insert) = diff_attachments(attachments.as_slice(), new_attachments);
            let old_state: BlogStateDo = BlogStateDo::from_domain(state);
            let new_state: BlogStateDo = BlogStateDo::from_domain(new_state);
            let state_change = if old_state == new_state {
                FieldChange::Keep(old_state)
            } else {
                FieldChange::Write(new_state)
            };
            Ok(
                BlogUpdatePlan {
                    to_delete_ids,
                    to_insert,
                    id,
                    title: change_string(title, new_title),
                    content: change_string(content, new_content),
                    state: state_change,
                    author_id: change_u128(author_id, new_author_id),
                    create_at,
                    update_at: Some(now),
                },
            )
        },
    }
}


/// The row inserted for a new blog post.
#[derive(Debug)]
pub struct BlogInsertRow {
    pub id: u128,
    pub title: String,
    pub content: String,
    pub state: BlogStateDo,
    pub author_id: u128,
    pub create_at: i128,
}

/// The row for a new blog post, created at `now` and never updated; its
/// attachments are stored apart.
pub fn insert_row(blog: Blog, now: i128) -> (r: BlogInsertRow)
    ensures
        r.id == blog.id,
        r.title@ == blog.title@,
        r.content@ == blog.content@,
        r.state == blog_state_do_of(blog.state),
        r.author_id == blog.author_id,
        r.create_at == now,
{
    BlogInsertRow {
        id: blog.id,
        title: blog.title,
        content: blog.content,
        state: BlogStateDo::from_domain(blog.state),
        author_id: blog.author_id,
        create_at: now,
    }
}

} // verus!
