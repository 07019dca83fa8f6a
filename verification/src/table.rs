//! The materialized result of one query: column names and stringified rows.
use vstd::prelude::*;

verus! {

/// A fully materialized query result: the column names in declared order,
/// and every result row as a sequence of cell strings.
pub struct QueryResult {
    pub fields: Vec<String>,
    pub rows: Vec<Vec<String>>,
}

impl QueryResult {
    /// Every row holds exactly one value per column.
    pub open spec fn wf(&self) -> bool {
        forall|i: int|
            0 <= i < self.rows@.len() ==> (#[trigger] self.rows@[i])@.len() == self.fields@.len()
    }

    /// The number of columns.
    pub fn column_count(&self) -> (n: usize)
        ensures
            n == self.fields@.len(),
    {
        self.fields.len()
    }

    /// The number of rows.
    pub fn row_count(&self) -> (n: usize)
        ensures
            n == self.rows@.len(),
    {
        self.rows.len()
    }
}

} // verus!
