//! The stored state of a blog post in the earlier blog table layout.
use vstd::prelude::*;
use vstd::std_specs::convert::FromSpecImpl;
use crate::domain::value_object::BlogState as State;

verus! {

/// Stored state of a blog post: 0 draft, 1 released.
#[derive(Clone, Copy, Debug, PartialEq, Eq, Structural)]
pub enum BlogState {
    Draft,
    Released,
}

pub open spec fn state_of(v: BlogState) -> State {
    match v {
        BlogState::Draft => State::Draft,
        BlogState::Released => State::Released,
    }
}

pub open spec fn stored_state_of(v: State) -> BlogState {
    match v {
        State::Draft => BlogState::Draft,
        State::Released => BlogState::Released,
    }
}

impl From<BlogState> for State {
    fn from(value: BlogState) -> (r: Self) {
        match value {
            BlogState::Draft => State::Draft,
            BlogState::Released => State::Released,
        }
    }
}

impl FromSpecImpl<BlogState> for State {
    open spec fn obeys_from_spec() -> bool {
        true
    }

    open spec fn from_spec(v: BlogState) -> State {
        state_of(v)
    }
}

impl From<State> for BlogState {
    fn from(value: State) -> (r: Self) {
        match value {
            State::Draft => BlogState::Draft,
            State::Released => BlogState::Released,
        }
    }
}

impl FromSpecImpl<State> for BlogState {
    open spec fn obeys_from_spec() -> bool {
        true
    }

    open spec fn from_spec(v: State) -> BlogState {
        stored_state_of(v)
    }
}

pub open spec fn state_code(v: BlogState) -> i16 {
    match v {
        BlogState::Draft => 0,
        BlogState::Released => 1,
    }
}

impl BlogState {
    /// The number stored in the database.
    pub fn db_value(&self) -> (r: i16)
        ensures
            r == state_code(*self),
    {
        match self {
            BlogState::Draft => 0,
            BlogState::Released => 1,
        }
    }

    /// The state stored as `v`, if `v` stands for one.
    pub fn from_db_value(v: i16) -> (r: Option<BlogState>)
        ensures
            r matches Some(s) ==> state_code(s) == v,
            r is None <==> (v != 0 && v != 1),
    {
        if v == 0 {
            Some(BlogState::Draft)
        } else if v == 1 {
            Some(BlogState::Released)
        } else {
            None
        }
    }
}

/// Storing a blog state and reading it back gives the same state, in both
/// directions.
pub proof fn law_blog_state_round_trip(s: State, d: BlogState)
    ensures
        state_of(stored_state_of(s)) == s,
        stored_state_of(state_of(d)) == d,
{
}

/// Each stored blog state stands for the domain state of the same name and
/// is written as 0 for a draft, 1 for a released post.
pub proof fn law_blog_states_by_name()
    ensures
        state_of(BlogState::Draft) == State::Draft,
        state_of(BlogState::Released) == State::Released,
        stored_state_of(State::Draft) == BlogState::Draft,
        stored_state_of(State::Released) == BlogState::Released,
        state_code(BlogState::Draft) == 0,
        state_code(BlogState::Released) == 1,
{
}

} // verus!
