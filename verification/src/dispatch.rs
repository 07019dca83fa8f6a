//! Dispatch on the selected database kind: the one supported engine runs
//! the query; every other kind is rejected with a fixed error.
use vstd::prelude::*;

use crate::engine::run_sqlite_query;
use crate::table::QueryResult;

verus! {

/// The database kinds the command line can name. Only `Sqlite` is
/// functional; `Duckdb` is named in the interface but not implemented.
#[derive(Copy, Clone, Debug, PartialEq, Eq, PartialOrd, Ord, Structural)]
pub enum DBType {
    Sqlite,
    Duckdb,
}

impl DBType {
    /// The token naming this kind.
    pub fn label(&self) -> (s: String)
        ensures
            *self == DBType::Sqlite ==> s@ == "Sqlite"@,
            *self == DBType::Duckdb ==> s@ == "Duckdb"@,
    {
        match self {
            DBType::Sqlite => String::from_str("Sqlite"),
            DBType::Duckdb => String::from_str("Duckdb"),
        }
    }
}

/// What one dispatched invocation produced: a materialized result to
/// print, or the driver's error message to print. Either way the
/// invocation itself counts as successful.
pub enum QueryOutcome {
    Rows(QueryResult),
    Failed(String),
}

/// Runs `query` against the file at `path` on the selected kind. The
/// supported kind always yields `Ok`: a materialized, well-formed result
/// or the driver's message. Any other kind always yields the fixed
/// "Unsupported DB type" error, whatever the query and path hold.
pub fn run_query(path: &str, query: &str, db_type: &DBType) -> (r: Result<
    QueryOutcome,
    &'static str,
>)
    ensures
        (r is Ok) == (*db_type == DBType::Sqlite),
        r matches Err(m) ==> m@ == "Unsupported DB type"@,
        r matches Ok(o) ==> (o matches QueryOutcome::Rows(qr) ==> qr.wf()),
{
    match db_type {
        DBType::Sqlite => {
            match run_sqlite_query(path, query) {
                Ok(result) => Ok(QueryOutcome::Rows(result)),
                Err(msg) => Ok(QueryOutcome::Failed(msg)),
            }
        },
        _ => Err("Unsupported DB type"),
    }
}

} // verus!
