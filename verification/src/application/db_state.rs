//! States as the database stores them (small integers), and their mapping to
//! the states of the domain.
use vstd::prelude::*;
use vstd::std_specs::convert::FromSpecImpl;
use crate::domain::value_object::{ArticleState, BlogState, SecurityEventType, UserState};

verus! {

/// Stored state of an article: 0 draft, 1 released.
#[derive(Clone, Copy, Debug, PartialEq, Eq, Structural)]
pub enum ArticleStateDo {
    Draft,
    Released,
}

/// Stored state of a blog post: 0 draft, 1 released.
#[derive(Clone, Copy, Debug, PartialEq, Eq, Structural)]
pub enum BlogStateDo {
    Draft,
    Released,
}

/// Stored state of a user: 0 inactive, 1 active, 2 locked, 3 disabled.
#[derive(Clone, Copy, Debug, PartialEq, Eq, Structural)]
pub enum UserStateDo {
    Inactive,
    Active,
    Locked,
    Disabled,
}

/// Stored type of a security event: 0 login with a bad password, 1 password
/// changed.
#[derive(Clone, Copy, Debug, PartialEq, Eq, Structural)]
pub enum SecurityEventTypeDo {
    TryLoginWithBadPwd,
    PasswordChanged,
}

// ---------------------------------------------------------------------------
// Article

pub open spec fn article_state_of(v: ArticleStateDo) -> ArticleState {
    match v {
        ArticleStateDo::Draft => ArticleState::Draft,
        ArticleStateDo::Released => ArticleState::Published,
    }
}

pub open spec fn article_state_do_of(v: ArticleState) -> ArticleStateDo {
    match v {
        ArticleState::Draft => ArticleStateDo::Draft,
        ArticleState::Published => ArticleStateDo::Released,
    }
}

impl From<ArticleStateDo> for ArticleState {
    fn from(value: ArticleStateDo) -> (r: Self) {
        match value {
            ArticleStateDo::Draft => ArticleState::Draft,
            ArticleStateDo::Released => ArticleState::Published,
        }
    }
}

impl FromSpecImpl<ArticleStateDo> for ArticleState {
    open spec fn obeys_from_spec() -> bool {
        true
    }

    open spec fn from_spec(v: ArticleStateDo) -> ArticleState {
        article_state_of(v)
    }
}

impl From<ArticleState> for ArticleStateDo {
    fn from(value: ArticleState) -> (r: Self) {
        match value {
            ArticleState::Draft => ArticleStateDo::Draft,
            ArticleState::Published => ArticleStateDo::Released,
        }
    }
}

impl FromSpecImpl<ArticleState> for ArticleStateDo {
    open spec fn obeys_from_spec() -> bool {
        true
    }

    open spec fn from_spec(v: ArticleState) -> ArticleStateDo {
        article_state_do_of(v)
    }
}

pub open spec fn article_state_code(v: ArticleStateDo) -> i16 {
    match v {
        ArticleStateDo::Draft => 0,
        ArticleStateDo::Released => 1,
    }
}

impl ArticleStateDo {
    /// The number stored in the database.
    pub fn db_value(&self) -> (r: i16)
        ensures
            r == article_state_code(*self),
    {
        match self {
            ArticleStateDo::Draft => 0,
            ArticleStateDo::Released => 1,
        }
    }

    /// The state stored as `v`, if `v` stands for one.
    pub fn from_db_value(v: i16) -> (r: Option<ArticleStateDo>)
        ensures
            r matches Some(s) ==> article_state_code(s) == v,
            r is None <==> (v != 0 && v != 1),
    {
        if v == 0 {
            Some(ArticleStateDo::Draft)
        } else if v == 1 {
            Some(ArticleStateDo::Released)
        } else {
            None
        }
    }
}

// ---------------------------------------------------------------------------
// Blog

pub open spec fn blog_state_of(v: BlogStateDo) -> BlogState {
    match v {
        BlogStateDo::Draft => BlogState::Draft,
        BlogStateDo::Released => BlogState::Released,
    }
}

impl From<BlogStateDo> for BlogState {
    fn from(value: BlogStateDo) -> (r: Self) {
        match value {
            BlogStateDo::Draft => BlogState::Draft,
            BlogStateDo::Released => BlogState::Released,
        }
    }
}

impl FromSpecImpl<BlogStateDo> for BlogState {
    open spec fn obeys_from_spec() -> bool {
        true
    }

    open spec fn from_spec(v: BlogStateDo) -> BlogState {
        blog_state_of(v)
    }
}

pub open spec fn blog_state_do_of(s: BlogState) -> BlogStateDo {
    match s {
        BlogState::Draft => BlogStateDo::Draft,
        BlogState::Released => BlogStateDo::Released,
    }
}

impl BlogStateDo {
    /// The stored state for a state of the domain.
    pub fn from_domain(s: BlogState) -> (r: BlogStateDo)
        ensures
            r == blog_state_do_of(s),
    {
        match s {
            BlogState::Draft => BlogStateDo::Draft,
            BlogState::Released => BlogStateDo::Released,
        }
    }
}

pub open spec fn blog_state_code(v: BlogStateDo) -> i16 {
    match v {
        BlogStateDo::Draft => 0,
        BlogStateDo::Released => 1,
    }
}

impl BlogStateDo {
    pub fn db_value(&self) -> (r: i16)
        ensures
            r == blog_state_code(*self),
    {
        match self {
            BlogStateDo::Draft => 0,
            BlogStateDo::Released => 1,
        }
    }

    pub fn from_db_value(v: i16) -> (r: Option<BlogStateDo>)
        ensures
            r matches Some(s) ==> blog_state_code(s) == v,
            r is None <==> (v != 0 && v != 1),
    {
        if v == 0 {
            Some(BlogStateDo::Draft)
        } else if v == 1 {
            Some(BlogStateDo::Released)
        } else {
            None
        }
    }
}

// ---------------------------------------------------------------------------
// User

pub open spec fn user_state_of(v: UserStateDo) -> UserState {
    match v {
        UserStateDo::Active => UserState::Active,
        UserStateDo::Inactive => UserState::Inactive,
        UserStateDo::Locked => UserState::Locked,
        UserStateDo::Disabled => UserState::Disabled,
    }
}

pub open spec fn user_state_do_of(v: UserState) -> UserStateDo {
    match v {
        UserState::Active => UserStateDo::Active,
        UserState::Inactive => UserStateDo::Inactive,
        UserState::Locked => UserStateDo::Locked,
        UserState::Disabled => UserStateDo::Disabled,
    }
}

impl From<UserStateDo> for UserState {
    fn from(value: UserStateDo) -> (r: Self) {
        match value {
            UserStateDo::Active => UserState::Active,
            UserStateDo::Inactive => UserState::Inactive,
            UserStateDo::Locked => UserState::Locked,
            UserStateDo::Disabled => UserState::Disabled,
        }
    }
}

impl FromSpecImpl<UserStateDo> for UserState {
    open spec fn obeys_from_spec() -> bool {
        true
    }

    open spec fn from_spec(v: UserStateDo) -> UserState {
        user_state_of(v)
    }
}

impl From<UserState> for UserStateDo {
    fn from(value: UserState) -> (r: Self) {
        match value {
            UserState::Active => UserStateDo::Active,
            UserState::Inactive => UserStateDo::Inactive,
            UserState::Locked => UserStateDo::Locked,
            UserState::Disabled => UserStateDo::Disabled,
        }
    }
}

impl FromSpecImpl<UserState> for UserStateDo {
    open spec fn obeys_from_spec() -> bool {
        true
    }

    open spec fn from_spec(v: UserState) -> UserStateDo {
        user_state_do_of(v)
    }
}

pub open spec fn user_state_code(v: UserStateDo) -> i16 {
    match v {
        UserStateDo::Inactive => 0,
        UserStateDo::Active => 1,
        UserStateDo::Locked => 2,
        UserStateDo::Disabled => 3,
    }
}

impl UserStateDo {
    pub fn db_value(&self) -> (r: i16)
        ensures
            r == user_state_code(*self),
    {
        match self {
            UserStateDo::Inactive => 0,
            UserStateDo::Active => 1,
            UserStateDo::Locked => 2,
            UserStateDo::Disabled => 3,
        }
    }

    pub fn from_db_value(v: i16) -> (r: Option<UserStateDo>)
        ensures
            r matches Some(s) ==> user_state_code(s) == v,
            r is None <==> !(0 <= v <= 3),
    {
        if v == 0 {
            Some(UserStateDo::Inactive)
        } else if v == 1 {
            Some(UserStateDo::Active)
        } else if v == 2 {
            Some(UserStateDo::Locked)
        } else if v == 3 {
            Some(UserStateDo::Disabled)
        } else {
            None
        }
    }
}

// ---------------------------------------------------------------------------
// Security events

pub open spec fn event_type_of(v: SecurityEventTypeDo) -> SecurityEventType {
    match v {
        SecurityEventTypeDo::TryLoginWithBadPwd => SecurityEventType::TryLoginWithBadPwd,
        SecurityEventTypeDo::PasswordChanged => SecurityEventType::PasswordChanged,
    }
}

pub open spec fn event_type_do_of(v: SecurityEventType) -> SecurityEventTypeDo {
    match v {
        SecurityEventType::TryLoginWithBadPwd => SecurityEventTypeDo::TryLoginWithBadPwd,
        SecurityEventType::PasswordChanged => SecurityEventTypeDo::PasswordChanged,
    }
}

impl From<SecurityEventTypeDo> for SecurityEventType {
    fn from(value: SecurityEventTypeDo) -> (r: Self) {
        match value {
            SecurityEventTypeDo::TryLoginWithBadPwd => SecurityEventType::TryLoginWithBadPwd,
            SecurityEventTypeDo::PasswordChanged => SecurityEventType::PasswordChanged,
        }
    }
}

impl FromSpecImpl<SecurityEventTypeDo> for SecurityEventType {
    open spec fn obeys_from_spec() -> bool {
        true
    }

    open spec fn from_spec(v: SecurityEventTypeDo) -> SecurityEventType {
        event_type_of(v)
    }
}

impl From<SecurityEventType> for SecurityEventTypeDo {
    fn from(value: SecurityEventType) -> (r: Self) {
        match value {
            SecurityEventType::TryLoginWithBadPwd => SecurityEventTypeDo::TryLoginWithBadPwd,
            SecurityEventType::PasswordChanged => SecurityEventTypeDo::PasswordChanged,
        }
    }
}

impl FromSpecImpl<SecurityEventType> for SecurityEventTypeDo {
    open spec fn obeys_from_spec() -> bool {
        true
    }

    open spec fn from_spec(v: SecurityEventType) -> SecurityEventTypeDo {
        event_type_do_of(v)
    }
}

pub open spec fn event_type_code(v: SecurityEventTypeDo) -> i16 {
    match v {
        SecurityEventTypeDo::TryLoginWithBadPwd => 0,
        SecurityEventTypeDo::PasswordChanged => 1,
    }
}

impl SecurityEventTypeDo {
    pub fn db_value(&self) -> (r: i16)
        ensures
            r == event_type_code(*self),
    {
        match self {
            SecurityEventTypeDo::TryLoginWithBadPwd => 0,
            SecurityEventTypeDo::PasswordChanged => 1,
        }
    }

    pub fn from_db_value(v: i16) -> (r: Option<SecurityEventTypeDo>)
        ensures
            r matches Some(s) ==> event_type_code(s) == v,
            r is None <==> (v != 0 && v != 1),
    {
        if v == 0 {
            Some(SecurityEventTypeDo::TryLoginWithBadPwd)
        } else if v == 1 {
            Some(SecurityEventTypeDo::PasswordChanged)
        } else {
            None
        }
    }
}

// ---------------------------------------------------------------------------
// Laws

/// Storing an article state and reading it back gives the same state, in
/// both directions.
pub proof fn law_article_state_round_trip(s: ArticleState, d: ArticleStateDo)
    ensures
        article_state_of(article_state_do_of(s)) == s,
        article_state_do_of(article_state_of(d)) == d,
{
}

/// Storing a blog state and reading it back gives the same state, in both
/// directions.
pub proof fn law_blog_state_round_trip(s: BlogState, d: BlogStateDo)
    ensures
        blog_state_of(blog_state_do_of(s)) == s,
        blog_state_do_of(blog_state_of(d)) == d,
{
}

/// Storing a user state and reading it back gives the same state, in both
/// directions.
pub proof fn law_user_state_round_trip(s: UserState, d: UserStateDo)
    ensures
        user_state_of(user_state_do_of(s)) == s,
        user_state_do_of(user_state_of(d)) == d,
{
}

/// Storing a security event type and reading it back gives the same type, in
/// both directions.
pub proof fn law_event_type_round_trip(s: SecurityEventType, d: SecurityEventTypeDo)
    ensures
        event_type_of(event_type_do_of(s)) == s,
        event_type_do_of(event_type_of(d)) == d,
{
}

/// Different stored states are written as different numbers.
pub proof fn law_state_codes_distinct(
    a1: ArticleStateDo,
    a2: ArticleStateDo,
    b1: BlogStateDo,
    b2: BlogStateDo,
    u1: UserStateDo,
    u2: UserStateDo,
    e1: SecurityEventTypeDo,
    e2: SecurityEventTypeDo,
)
    ensures
        article_state_code(a1) == article_state_code(a2) ==> a1 == a2,
        blog_state_code(b1) == blog_state_code(b2) ==> b1 == b2,
        user_state_code(u1) == user_state_code(u2) ==> u1 == u2,
        event_type_code(e1) == event_type_code(e2) ==> e1 == e2,
{
}

/// Each stored article state stands for the domain state of the same
/// meaning (draft for draft, released for published) and is written as the
/// number of the table: 0 for a draft, 1 for a released article.
pub proof fn law_article_states_by_name()
    ensures
        article_state_of(ArticleStateDo::Draft) == ArticleState::Draft,
        article_state_of(ArticleStateDo::Released) == ArticleState::Published,
        article_state_do_of(ArticleState::Draft) == ArticleStateDo::Draft,
        article_state_do_of(ArticleState::Published) == ArticleStateDo::Released,
        article_state_code(ArticleStateDo::Draft) == 0,
        article_state_code(ArticleStateDo::Released) == 1,
{
}

/// Each stored blog state stands for the domain state of the same name and
/// is written as 0 for a draft, 1 for a released post.
pub proof fn law_blog_states_by_name()
    ensures
        blog_state_of(BlogStateDo::Draft) == BlogState::Draft,
        blog_state_of(BlogStateDo::Released) == BlogState::Released,
        blog_state_do_of(BlogState::Draft) == BlogStateDo::Draft,
        blog_state_do_of(BlogState::Released) == BlogStateDo::Released,
        blog_state_code(BlogStateDo::Draft) == 0,
        blog_state_code(BlogStateDo::Released) == 1,
{
}

/// Each stored user state stands for the domain state of the same name, in
/// both directions, and is written as 0 inactive, 1 active, 2 locked,
/// 3 disabled; so a row stored with 3 is a disabled account.
pub proof fn law_user_states_by_name(d: UserStateDo)
    ensures
        user_state_of(UserStateDo::Inactive) == UserState::Inactive,
        user_state_of(UserStateDo::Active) == UserState::Active,
        user_state_of(UserStateDo::Locked) == UserState::Locked,
        user_state_of(UserStateDo::Disabled) == UserState::Disabled,
        user_state_do_of(UserState::Inactive) == UserStateDo::Inactive,
        user_state_do_of(UserState::Active) == UserStateDo::Active,
        user_state_do_of(UserState::Locked) == UserStateDo::Locked,
        user_state_do_of(UserState::Disabled) == UserStateDo::Disabled,
        user_state_code(UserStateDo::Inactive) == 0,
        user_state_code(UserStateDo::Active) == 1,
        user_state_code(UserStateDo::Locked) == 2,
        user_state_code(UserStateDo::Disabled) == 3,
        user_state_code(d) == 3 ==> user_state_of(d) == UserState::Disabled,
{
}

/// Each stored event type stands for the domain type of the same name and is
/// written as 0 for a login with a bad password, 1 for a changed password.
pub proof fn law_event_types_by_name()
    ensures
        event_type_of(SecurityEventTypeDo::TryLoginWithBadPwd)
            == SecurityEventType::TryLoginWithBadPwd,
        event_type_of(SecurityEventTypeDo::PasswordChanged) == SecurityEventType::PasswordChanged,
        event_type_do_of(SecurityEventType::TryLoginWithBadPwd)
            == SecurityEventTypeDo::TryLoginWithBadPwd,
        event_type_do_of(SecurityEventType::PasswordChanged)
            == SecurityEventTypeDo::PasswordChanged,
        event_type_code(SecurityEventTypeDo::TryLoginWithBadPwd) == 0,
        event_type_code(SecurityEventTypeDo::PasswordChanged) == 1,
{
}

} // verus!
