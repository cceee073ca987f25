//! The category use cases: the application handle and its answers for
//! missing categories.
use vstd::prelude::*;
use crate::base::error::{ApiError, Cause};
use crate::base::ids::{uuid_hyphenated, uuid_text};
use crate::base::text::concat;

verus! {

/// The category use cases over a query service `Q` and a repository `R`.
pub struct CategoryApplication<Q, R> {
    query: Q,
    repo: R,
}

impl<Q, R> CategoryApplication<Q, R> {
    pub closed spec fn query_view(&self) -> Q {
        self.query
    }

    pub closed spec fn repo_view(&self) -> R {
        self.repo
    }

    pub fn new(query: Q, repo: R) -> (r: Self)
        ensures
            r.query_view() == query,
            r.repo_view() == repo,
    {
        Self { query, repo }
    }

    /// The query service, to read categories.
    pub fn query(&self) -> (r: &Q)
        ensures
            *r == self.query_view(),
    {
        &self.query
    }

    /// The repository, to change categories.
    pub fn repo(&self) -> (r: &R)
        ensures
            *r == self.repo_view(),
    {
        &self.repo
    }
}

/// The message for a category that does not exist.
pub open spec fn missing_category_text(id: u128) -> Seq<char> {
    "category["@ + uuid_hyphenated(id) + "]not exist"@
}

/// The category found under `id`, or a refusal naming the identifier.
pub fn found_category<T>(found: Option<T>, id: u128) -> (r: Result<T, ApiError>)
    ensures
        found matches Some(c) ==> r == Ok::<T, ApiError>(c),
        found is None ==> (r matches Err(e) && e.cause == Cause::ClientBadRequest && e.message@
            == missing_category_text(id)),
{
    match found {
        Some(c) => Ok(c),
        None => {
            let m = concat("category[", uuid_text(id).as_str());
            let m = concat(m.as_str(), "]not exist");
            Err(ApiError::from_string(Cause::ClientBadRequest, m))
        },
    }
}

/// The category to update, or a refusal with an empty message when there is
/// none under the identifier.
pub fn category_to_update<T>(found: Option<T>) -> (r: Result<T, ApiError>)
    ensures
        found matches Some(c) ==> r == Ok::<T, ApiError>(c),
        found is None ==> (r matches Err(e) && e.cause == Cause::ClientBadRequest && e.message@
            == ""@),
{
    match found {
        Some(c) => Ok(c),
        None => Err(ApiError::with_bad_request("")),
    }
}

} // verus!
