use starriver::application::blog_assembler::{cmd_2_new_entity, cmd_2_update_entity, new_draft};
use starriver::application::dto::blog_dto::BlogCmd;
use starriver::application::article_repository::insert_row as article_row;
use starriver::application::blog_repository::insert_row as blog_row;
use starriver::application::user_repository::insert_row as user_row;
use starriver::application::article_repository::{diff_attachment, update_plan, DefaultArticleRepository};
use starriver::application::blog_repository::{
    diff_attachments, update_plan as blog_update_plan, DefaultBlogRepository,
};
use starriver::application::db_state::{ArticleStateDo, BlogStateDo, SecurityEventTypeDo, UserStateDo};
use starriver::application::field_change::FieldChange;
use starriver::application::user_repository::{
    ensure_username_free, same_events, security_event_window_start, update_plan as user_update_plan,
};
use starriver::application::po_state::BlogState as StoredBlogState;
use starriver::base::error::Cause;
use starriver::domain::article::{Article, Attachment};
use starriver::domain::blog::{Attachment as BlogAttachment, Blog};
use starriver::domain::user::{SecurityEvent, User};
use starriver::domain::value_object::{ArticleState, BlogState, SecurityEventType, UserState};

fn att(id: u128) -> Attachment {
    Attachment { id, file_name: format!("{}.png", id), article_id: 7 }
}

fn article(title: &str, attachments: Vec<Attachment>, state: ArticleState) -> Article {
    Article {
        id: 7,
        title: title.to_string(),
        content: "body".to_string(),
        state,
        attachments,
        author_id: 1,
        category_id: Some(3),
        published_at: None,
    }
}

#[test]
fn diff_attachment_splits_revision() {
    let old = vec![att(1), att(2), att(3)];
    let new = vec![att(2), att(4), att(5)];
    let (to_delete, to_add) = diff_attachment(&old, new);
    assert_eq!(to_delete, vec![1, 3]);
    let ids: Vec<u128> = to_add.iter().map(|a| a.id).collect();
    assert_eq!(ids, vec![4, 5]);
}

#[test]
fn diff_attachment_of_same_list_is_empty() {
    let old = vec![att(1), att(2)];
    let (to_delete, to_add) = diff_attachment(&old, vec![att(2), att(1)]);
    assert!(to_delete.is_empty());
    assert!(to_add.is_empty());
}

#[test]
fn diff_attachments_of_blog() {
    let a = |id| BlogAttachment { id, blog_id: 9, create_at: 0, update_at: None };
    let (to_delete, to_insert) = diff_attachments(&[a(1), a(2)], vec![a(2), a(3)]);
    assert_eq!(to_delete, vec![1]);
    assert_eq!(to_insert, vec![a(3)]);
}

#[test]
fn article_plan_writes_only_changes() {
    let original = article("old", vec![att(1)], ArticleState::Draft);
    let mut modified = article("new", vec![att(1), att(2)], ArticleState::Published);
    modified.published_at = Some(42);
    let p = update_plan(original, modified, 900);
    assert!(p.to_delete_ids.is_empty());
    assert_eq!(p.to_add.len(), 1);
    assert_eq!(p.to_add[0].id, 2);
    assert_eq!(p.id, 7);
    assert!(matches!(p.title, FieldChange::Write(ref t) if t == "new"));
    assert!(matches!(p.content, FieldChange::Keep(ref c) if c == "body"));
    assert!(matches!(p.state, FieldChange::Write(ArticleStateDo::Released)));
    assert!(matches!(p.author_id, FieldChange::Keep(1)));
    assert!(matches!(p.category_id, FieldChange::Keep(Some(3))));
    assert!(matches!(p.published_at, FieldChange::Write(Some(42))));
    assert_eq!(p.updated_at, Some(900));
}

#[test]
fn article_plan_of_unchanged_article_keeps_everything() {
    let p = update_plan(
        article("same", vec![att(1)], ArticleState::Draft),
        article("same", vec![att(1)], ArticleState::Draft),
        901,
    );
    assert!(p.to_delete_ids.is_empty() && p.to_add.is_empty());
    assert!(matches!(p.title, FieldChange::Keep(_)));
    assert!(matches!(p.state, FieldChange::Keep(ArticleStateDo::Draft)));
    assert!(matches!(p.published_at, FieldChange::Keep(None)));
    assert_eq!(p.updated_at, Some(901));
}

fn blog(title: &str, state: BlogState, attachments: Vec<BlogAttachment>) -> Blog {
    Blog {
        id: 5,
        title: title.to_string(),
        content: "text".to_string(),
        state,
        attachments,
        author_id: 2,
        create_at: 100,
        update_at: None,
    }
}

#[test]
fn blog_plan_needs_stored_post() {
    let e = blog_update_plan(blog("t", BlogState::Draft, vec![]), None, 0).unwrap_err();
    assert_eq!(e.cause, Cause::ClientBadRequest);
    assert_eq!(e.message, "Blog not found");
}

#[test]
fn blog_plan_against_stored_post() {
    let a = BlogAttachment { id: 11, blog_id: 5, create_at: 1, update_at: None };
    let stored = blog("t", BlogState::Draft, vec![a]);
    let p = blog_update_plan(blog("t2", BlogState::Released, vec![]), Some(stored), 700).unwrap();
    assert_eq!(p.to_delete_ids, vec![11]);
    assert!(p.to_insert.is_empty());
    assert!(matches!(p.title, FieldChange::Write(ref t) if t == "t2"));
    assert!(matches!(p.state, FieldChange::Write(BlogStateDo::Released)));
    assert!(matches!(p.author_id, FieldChange::Keep(2)));
    assert_eq!(p.create_at, 100);
    assert_eq!(p.update_at, Some(700));
}

fn event(id: u128) -> SecurityEvent {
    SecurityEvent {
        id,
        user_id: 1,
        event_type: SecurityEventType::TryLoginWithBadPwd,
        message: "bad password".to_string(),
        created_at: 10,
    }
}

fn user(state: UserState, events: Vec<SecurityEvent>) -> User {
    User {
        id: 1,
        username: "alice".to_string(),
        password: "hash".to_string(),
        email: "alice@example.com".to_string(),
        state,
        create_at: 3,
        security_events: events,
    }
}

#[test]
fn user_plan_inserts_newest_event() {
    let stored = user(UserState::Active, vec![event(1)]);
    let modified = user(UserState::Locked, vec![event(1), event(2)]);
    let p = user_update_plan(modified, Some(stored), 800).unwrap();
    assert_eq!(p.event_to_insert.map(|e| e.id), Some(2));
    assert!(matches!(p.state, FieldChange::Write(UserStateDo::Locked)));
    assert!(matches!(p.username, FieldChange::Keep(ref u) if u == "alice"));
    assert_eq!(p.create_at, 3);
    assert_eq!(p.update_at, Some(800));
}

#[test]
fn user_plan_without_new_event() {
    let p = user_update_plan(
        user(UserState::Active, vec![event(1)]),
        Some(user(UserState::Active, vec![event(1)])),
        801,
    )
    .unwrap();
    assert!(p.event_to_insert.is_none());
    assert!(matches!(p.state, FieldChange::Keep(UserStateDo::Active)));
    assert_eq!(p.update_at, Some(801));
    let e = user_update_plan(user(UserState::Active, vec![]), None, 802).unwrap_err();
    assert_eq!(e.message, "User not found");
}

#[test]
fn events_compare_by_fields() {
    assert!(same_events(&vec![event(1)], &vec![event(1)]));
    assert!(!same_events(&vec![event(1)], &vec![event(2)]));
    assert!(!same_events(&vec![event(1)], &vec![]));
}

#[test]
fn username_must_be_free() {
    assert!(ensure_username_free::<()>(None, "bob").is_ok());
    let e = ensure_username_free(Some(()), "bob").unwrap_err();
    assert_eq!(e.cause, Cause::ClientBadRequest);
    assert_eq!(e.message, "username[bob] already exists");
}

#[test]
fn security_window_is_thirty_minutes() {
    assert_eq!(security_event_window_start(1_800_000_000_000 + 5), 5);
    let earliest = time::PrimitiveDateTime::MIN.assume_utc().unix_timestamp_nanos();
    assert_eq!(security_event_window_start(i128::MIN), earliest);
    assert_eq!(security_event_window_start(earliest), earliest);
    assert_eq!(security_event_window_start(earliest + 1_800_000_000_001), earliest + 1);
    assert_eq!(security_event_window_start(0), -1_800_000_000_000);
}

#[test]
fn states_round_trip_through_database() {
    for s in [ArticleStateDo::Draft, ArticleStateDo::Released] {
        assert_eq!(ArticleStateDo::from_db_value(s.db_value()), Some(s));
        assert_eq!(ArticleStateDo::from(ArticleState::from(s)), s);
    }
    for s in [UserStateDo::Inactive, UserStateDo::Active, UserStateDo::Locked, UserStateDo::Disabled] {
        assert_eq!(UserStateDo::from_db_value(s.db_value()), Some(s));
        assert_eq!(UserStateDo::from(UserState::from(s)), s);
    }
    assert_eq!(UserStateDo::Locked.db_value(), 2);
    assert_eq!(UserStateDo::from_db_value(4), None);
    assert_eq!(SecurityEventTypeDo::from(SecurityEventType::PasswordChanged).db_value(), 1);
    assert_eq!(BlogState::from(BlogStateDo::Released), BlogState::Released);
    assert_eq!(StoredBlogState::from(BlogState::Draft), StoredBlogState::Draft);
    assert_eq!(BlogState::from(StoredBlogState::Released), BlogState::Released);
    assert_eq!(StoredBlogState::from_db_value(1), Some(StoredBlogState::Released));
    assert_eq!(ArticleState::from(ArticleStateDo::Released), ArticleState::Published);
}

#[test]
fn repositories_give_their_connection_back() {
    assert_eq!(DefaultArticleRepository::new(17u8).conn(), 17u8);
    assert_eq!(DefaultBlogRepository::new("db").conn(), "db");
    assert_eq!(
        starriver::application::category_repository::DefaultCategoryRepository::new(3i32).conn(),
        3
    );
    assert_eq!(
        starriver::base::category_repository::DefaultCategoryRepository::new(4i32).conn(),
        4
    );
}

#[test]
fn blog_assembled_from_command() {
    let b = new_draft(5, 77, 2, BlogCmd { title: "t".to_string(), body: "b".to_string() });
    assert_eq!((b.id, b.create_at, b.author_id), (5, 77, 2));
    assert_eq!(b.title, "t");
    assert_eq!(b.content, "b");
    assert_eq!(b.state, BlogState::Draft);
    assert!(b.attachments.is_empty() && b.update_at.is_none());
    let fresh = cmd_2_new_entity(2, BlogCmd { title: "x".to_string(), body: "y".to_string() });
    let other = cmd_2_new_entity(2, BlogCmd { title: "x".to_string(), body: "y".to_string() });
    assert_ne!(fresh.id, other.id);
    assert_eq!(fresh.state, BlogState::Draft);
    let u = cmd_2_update_entity(BlogCmd { title: "n".to_string(), body: "m".to_string() }, b);
    assert_eq!(u.title, "n");
    assert_eq!(u.content, "m");
    assert_eq!(u.id, 5);
    assert_eq!(u.create_at, 77);
}

#[test]
fn insert_rows() {
    let r = user_row(user(UserState::Inactive, vec![]), 9);
    assert_eq!(r.state, UserStateDo::Active);
    assert_eq!(r.create_at, 9);
    assert_eq!(r.username, "alice");
    let r = article_row(article("a", vec![att(1)], ArticleState::Published), 8);
    assert_eq!(r.state, ArticleStateDo::Released);
    assert_eq!(r.created_at, 8);
    assert_eq!(r.category_id, Some(3));
    let r = blog_row(blog("b", BlogState::Released, vec![]), 6);
    assert_eq!(r.state, BlogStateDo::Released);
    assert_eq!(r.create_at, 6);
}
