//! Blog posts built from commands.
use vstd::prelude::*;
use crate::application::dto::blog_dto::BlogCmd;
use crate::base::clock::now_nanos;
use crate::base::ids::fresh_id;
use crate::domain::blog::Blog;
use crate::domain::value_object::BlogState;

verus! {

/// A new draft post of `author_id` from a command, with a fresh identifier
/// and created now; it has no attachments and was never updated.
pub fn cmd_2_new_entity(author_id: u128, cmd: BlogCmd) -> (r: Blog)
    ensures
        r.title@ == cmd.title@,
        r.content@ == cmd.body@,
        r.state == BlogState::Draft,
        r.attachments@.len() == 0,
        r.author_id == author_id,
        r.update_at is None,
{
    let id = fresh_id();
    let now = now_nanos();
    new_draft(id, now, author_id, cmd)
}

/// A new draft post of `author_id` from a command, with the identifier `id`
/// and created at `now`; it has no attachments and was never updated.
pub fn new_draft(id: u128, now: i128, author_id: u128, cmd: BlogCmd) -> (r: Blog)
    ensures
        r.id == id,
        r.title@ == cmd.title@,
        r.content@ == cmd.body@,
        r.state == BlogState::Draft,
        r.attachments@.len() == 0,
        r.author_id == author_id,
        r.create_at == now,
        r.update_at is None,
{
    Blog {
        id,
        title: cmd.title,
        content: cmd.body,
        state: BlogState::Draft,
        attachments: Vec::new(),
        author_id,
        create_at: now,
        update_at: None,
    }
}

/// The post `to_update` with the title and the body of a command; everything
/// else is kept.
pub fn cmd_2_update_entity(cmd: BlogCmd, to_update: Blog) -> (r: Blog)
    ensures
        r.title@ == cmd.title@,
        r.content@ == cmd.body@,
        r.id == to_update.id,
        r.state == to_update.state,
        r.attachments == to_update.attachments,
        r.author_id == to_update.author_id,
        r.create_at == to_update.create_at,
        r.update_at == to_update.update_at,
{
    let mut to_update = to_update;
    to_update.title = cmd.title;
    to_update.content = cmd.body;
    to_update
}

} // verus!
