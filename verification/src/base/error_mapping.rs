//! Mapping of database failures to repository errors.
use vstd::prelude::*;
use crate::base::error::{DbErrDetail, RepositoryError};
use crate::base::text::concat;

verus! {

/// The message of the infrastructure error for a failed conversion.
pub open spec fn try_into_message(from: Seq<char>, into: Seq<char>, source: Seq<char>) -> Seq<
    char,
> {
    "from "@ + from + " to "@ + into + ", source: "@ + source
}

/// Maps a database failure to the repository error the domain sees.
/// Connection problems become `ConnectionFailed`, a missing record becomes
/// `NotFound`, and everything else is an `Infrastructure` error.
pub fn map_db_error(err: DbErrDetail) -> (r: RepositoryError)
    ensures
        match err {
            DbErrDetail::ConnectionAcquire(s) => r matches RepositoryError::ConnectionFailed(m)
                && m@ == s@,
            DbErrDetail::TryIntoErr { from, into, source } => r matches RepositoryError::Infrastructure(
                m,
            ) && m@ == try_into_message(from@, into@, source@),
            DbErrDetail::Conn(s) => r matches RepositoryError::ConnectionFailed(m) && m@ == s@,
            DbErrDetail::Exec(s) => r matches RepositoryError::Infrastructure(m) && m@ == s@,
            DbErrDetail::Query(s) => r matches RepositoryError::Infrastructure(m) && m@ == s@,
            DbErrDetail::ConvertFromU64(_) => r matches RepositoryError::Infrastructure(m) && m@
                == "ConvertFromU64 error"@,
            DbErrDetail::UnpackInsertId => r matches RepositoryError::Infrastructure(m) && m@
                == "UnpackInsertId error"@,
            DbErrDetail::UpdateGetPrimaryKey => r matches RepositoryError::Infrastructure(m) && m@
                == "UpdateGetPrimaryKey error"@,
            DbErrDetail::RecordNotFound(s) => r matches RepositoryError::NotFound(m) && m@ == s@,
            DbErrDetail::AttrNotSet(_) => r matches RepositoryError::Infrastructure(m) && m@
                == "AttrNotSet error"@,
            DbErrDetail::Custom(_) => r matches RepositoryError::Infrastructure(m) && m@
                == "Custom error"@,
            DbErrDetail::Type(_) => r matches RepositoryError::Infrastructure(m) && m@
                == "Type error"@,
            DbErrDetail::Json(_) => r matches RepositoryError::Infrastructure(m) && m@
                == "Json error"@,
            DbErrDetail::Migration(_) => r matches RepositoryError::Infrastructure(m) && m@
                == "Migration error"@,
            DbErrDetail::RecordNotInserted => r matches RepositoryError::Infrastructure(m) && m@
                == "RecordNotInserted error"@,
            DbErrDetail::RecordNotUpdated => r matches RepositoryError::Infrastructure(m) && m@
                == "RecordNotUpdated error"@,
        },
{
    match err {
        DbErrDetail::ConnectionAcquire(s) => RepositoryError::ConnectionFailed(s),
        DbErrDetail::TryIntoErr { from, into, source } => {
            let m = concat("from ", from.as_str());
            let m = concat(m.as_str(), " to ");
            let m = concat(m.as_str(), into.as_str());
            let m = concat(m.as_str(), ", source: ");
            let m = concat(m.as_str(), source.as_str());
            RepositoryError::Infrastructure(m)
        },
        DbErrDetail::Conn(s) => RepositoryError::ConnectionFailed(s),
        DbErrDetail::Exec(s) => RepositoryError::Infrastructure(s),
        DbErrDetail::Query(s) => RepositoryError::Infrastructure(s),
        DbErrDetail::ConvertFromU64(_) => RepositoryError::Infrastructure(
            "ConvertFromU64 error".to_owned(),
        ),
        DbErrDetail::UnpackInsertId => RepositoryError::Infrastructure(
            "UnpackInsertId error".to_owned(),
        ),
        DbErrDetail::UpdateGetPrimaryKey => RepositoryError::Infrastructure(
            "UpdateGetPrimaryKey error".to_owned(),
        ),
        DbErrDetail::RecordNotFound(s) => RepositoryError::NotFound(s),
        DbErrDetail::AttrNotSet(_) => RepositoryError::Infrastructure("AttrNotSet error".to_owned()),
        DbErrDetail::Custom(_) => RepositoryError::Infrastructure("Custom error".to_owned()),
        DbErrDetail::Type(_) => RepositoryError::Infrastructure("Type error".to_owned()),
        DbErrDetail::Json(_) => RepositoryError::Infrastructure("Json error".to_owned()),
        DbErrDetail::Migration(_) => RepositoryError::Infrastructure("Migration error".to_owned()),
        DbErrDetail::RecordNotInserted => RepositoryError::Infrastructure(
            "RecordNotInserted error".to_owned(),
        ),
        DbErrDetail::RecordNotUpdated => RepositoryError::Infrastructure(
            "RecordNotUpdated error".to_owned(),
        ),
    }
}

} // verus!
