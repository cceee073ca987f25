//! Persistence of users: what an update of a user account writes.
use vstd::prelude::*;
use crate::application::article_repository::text_change;
use crate::application::db_state::{user_state_do_of, UserStateDo};
use crate::application::field_change::{change_of, change_string, FieldChange};
use crate::base::clock::{earliest_instant, is_earliest_instant, earliest_instant_default};
use crate::base::error::{ApiError, Cause};
use crate::base::text::{concat, str_eq};
use crate::domain::user::{SecurityEvent, User};
use crate::domain::value_object::SecurityEventType;

verus! {

/// A security event as plain values.
pub open spec fn event_view(e: SecurityEvent) -> (u128, u128, SecurityEventType, Seq<char>, i128) {
    (e.id, e.user_id, e.event_type, e.message@, e.created_at)
}

/// The events of a list, as plain values.
pub open spec fn events_view(s: Seq<SecurityEvent>) -> Seq<(u128, u128, SecurityEventType, Seq<char>, i128)> {
    s.map_values(|e: SecurityEvent| event_view(e))
}

/// Whether two lists of events are the same, field by field.
pub fn same_events(a: &Vec<SecurityEvent>, b: &Vec<SecurityEvent>) -> (r: bool)
    ensures
        r == (events_view(a@) == events_view(b@)),
{
    if a.len() != b.len() {
        assert(events_view(a@).len() != events_view(b@).len());
        return false;
    }
    let mut i: usize = 0;
    while i < a.len()
        invariant
            i <= a@.len(),
            a@.len() == b@.len(),
            forall|j: int| 0 <= j < i ==> event_view(#[trigger] a@[j]) == event_view(b@[j]),
        decreases a@.len() - i,
    {
        let x = &a[i];
        let y = &b[i];
        let same = x.id == y.id && x.user_id == y.user_id && x.event_type == y.event_type
            && x.created_at == y.created_at && str_eq(x.message.as_str(), y.message.as_str());
        if !same {
            assert(events_view(a@)[i as int] != events_view(b@)[i as int]);
            return false;
        }
        i = i + 1;
    }
    assert(events_view(a@) =~= events_view(b@));
    true
}

/// Everything an update of a user account writes.
#[derive(Debug)]
pub struct UserUpdatePlan {
    /// The event to insert: the newest one, when the events changed.
    pub event_to_insert: Option<SecurityEvent>,
    pub id: u128,
    pub username: FieldChange<String>,
    pub password: FieldChange<String>,
    pub email: FieldChange<String>,
    pub state: FieldChange<UserStateDo>,
    /// The creation instant, kept as stored.
    pub create_at: i128,
    /// The update instant, always written.
    pub update_at: Option<i128>,
}

/// What saving `modified` at `now` writes, given the account `found` stored
/// under its user name. At most one event is new in one request, so only the newest
/// event of `modified` is inserted, and only when the events differ from the
/// stored ones. An account that is not stored is refused.
pub fn update_plan(modified: User, found: Option<User>, now: i128) -> (r: Result<
    UserUpdatePlan,
    ApiError,
>)
    ensures
        found is None <==> r is Err,
        r matches Err(e) ==> e.cause == Cause::ClientBadRequest && e.message@ == "User not found"@,
        found matches Some(f) ==> (r matches Ok(p) && {
            &&& (events_view(f.security_events@) != events_view(modified.security_events@)
                && modified.security_events@.len() > 0) ==> p.event_to_insert == Some(
                modified.security_events@.last(),
            )
            &&& !(events_view(f.security_events@) != events_view(modified.security_events@)
                && modified.security_events@.len() > 0) ==> p.event_to_insert is None
            &&& p.id == modified.id
            &&& text_change(p.username, f.username@, modified.username@)
            &&& text_change(p.password, f.password@, modified.password@)
            &&& text_change(p.email, f.email@, modified.email@)
            &&& p.state == change_of(user_state_do_of(f.state), user_state_do_of(modified.state))
            &&& p.create_at == f.create_at
            &&& p.update_at == Some(now)
        }),
{
    match found {
        None => Err(ApiError::new(Cause::ClientBadRequest, "User not found")),
        Some(f) => {
            let changed = !same_events(&f.security_events, &modified.security_events);
            let User {
                id,
                username: new_username,
                password: new_password,
                email: new_email,
                state: new_state,
                create_at: _,
                security_events: mut new_events,
            } = modified;
            let User {
                id: _,
                username,
                password,
                email,
                state,
                create_at,
                security_events: _,
            } = f;
            let event_to_insert = if changed {
                new_events.pop()
            } else {
                None
            };
            let old_state = UserStateDo::from(state);
            let new_state = UserStateDo::from(new_state);
            let state_change = if old_state == new_state {
                FieldChange::Keep(old_state)
            } else {
                FieldChange::Write(new_state)
            };
            Ok(
                UserUpdatePlan {
                    event_to_insert,
                    id,
                    username: change_string(username, new_username),
                    password: change_string(password, new_password),
                    email: change_string(email, new_email),
                    state: state_change,
                    create_at,
                    update_at: Some(now),
                },
            )
        },
    }
}

/// The message for a user name that is taken.
pub open spec fn taken_text(username: Seq<char>) -> Seq<char> {
    "username["@ + username + "] already exists"@
}

/// A new account may only take a user name that no account has.
pub fn ensure_username_free<T>(found: Option<T>, username: &str) -> (r: Result<(), ApiError>)
    ensures
        found is None <==> r is Ok,
        r matches Err(e) ==> e.cause == Cause::ClientBadRequest && e.message@ == taken_text(
            username@,
        ),
{
    match found {
        None => Ok(()),
        Some(_) => {
            let m = concat("username[", username);
            let m = concat(m.as_str(), "] already exists");
            Err(ApiError::from_string(Cause::ClientBadRequest, m))
        },
    }
}

/// How far back the security events of an account are read: thirty minutes,
/// in nanoseconds.
pub const SECURITY_EVENT_WINDOW_NANOS: i128 = 1_800_000_000_000i128;

/// The first instant of the window of security events read at `now`, when
/// the earliest instant that can be held is `earliest`: thirty minutes
/// earlier, or `earliest` when that lies before it.
pub open spec fn window_start(now: int, earliest: int) -> int {
    if now - SECURITY_EVENT_WINDOW_NANOS >= earliest {
        now - SECURITY_EVENT_WINDOW_NANOS
    } else {
        earliest
    }
}

/// The first instant of the window of security events read at `now`:
/// thirty minutes earlier, saturating at the earliest instant of the time
/// crate.
pub fn security_event_window_start(now: i128) -> (r: i128)
    ensures
        exists|e: int| is_earliest_instant(e) && r == window_start(now as int, e),
        now - SECURITY_EVENT_WINDOW_NANOS >= earliest_instant_default() ==> r == now
            - SECURITY_EVENT_WINDOW_NANOS,
{
    let earliest = earliest_instant();
    if now >= earliest + SECURITY_EVENT_WINDOW_NANOS {
        now - SECURITY_EVENT_WINDOW_NANOS
    } else {
        earliest
    }
}

/// The row inserted for a new account, created at `now`.
#[derive(Debug)]
pub struct UserInsertRow {
    pub id: u128,
    pub username: String,
    pub password: String,
    pub email: String,
    pub state: UserStateDo,
    pub create_at: i128,
}

/// The row for a new account: its fields as given, stored as active,
/// created at `now`, never updated.
pub fn insert_row(user: User, now: i128) -> (r: UserInsertRow)
    ensures
        r.id == user.id,
        r.username@ == user.username@,
        r.password@ == user.password@,
        r.email@ == user.email@,
        r.state == UserStateDo::Active,
        r.create_at == now,
{
    UserInsertRow {
        id: user.id,
        username: user.username,
        password: user.password,
        email: user.email,
        state: UserStateDo::Active,
        create_at: now,
    }
}

} // verus!
