//! Persistence of categories: the repository handle.
use vstd::prelude::*;

verus! {

/// The category repository over a connection. Categories have few fields,
/// so it mostly works without a transaction.
pub struct DefaultCategoryRepository<T> {
    conn: T,
}

impl<T> DefaultCategoryRepository<T> {
    /// The connection the repository works on.
    pub closed spec fn connection(&self) -> T {
        self.conn
    }

    pub fn new(conn: T) -> (r: DefaultCategoryRepository<T>)
        ensures
            r.connection() == conn,
    {
        Self { conn }
    }

    /// Gives the connection back.
    pub fn conn(self) -> (r: T)
        ensures
            r == self.connection(),
    {
        self.conn
    }
}

} // verus!
