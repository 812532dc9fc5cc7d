//! Row-count statistics, and what a row limit does to them.

use vstd::prelude::*;

verus! {

/// What is known of one column.
#[derive(Clone, Debug, PartialEq, Eq)]
pub struct ColumnStatistics {
    /// The number of null values, if known.
    pub null_count: Option<usize>,
    /// The number of distinct values, if known.
    pub distinct_count: Option<usize>,
}

/// What is known of a node's output before it runs.
#[derive(Clone, Debug, PartialEq, Eq)]
pub struct Statistics {
    /// The number of rows, if known.
    pub num_rows: Option<usize>,
    /// The size of the output in bytes, if known.
    pub total_byte_size: Option<usize>,
    /// What is known of each column, if anything.
    pub column_statistics: Option<Vec<ColumnStatistics>>,
    /// Whether the figures are exact, or estimates and bounds.
    pub is_exact: bool,
}

impl Statistics {
    /// Statistics with nothing known.
    pub open spec fn unknown() -> Statistics {
        Statistics {
            num_rows: None,
            total_byte_size: None,
            column_statistics: None,
            is_exact: false,
        }
    }

    /// What a limit of `limit` rows makes of these statistics.
    ///
    /// A known row count within the limit leaves them as they are. A known
    /// row count above it becomes the limit, the exactness flag stays and
    /// everything else is forgotten. An unknown row count leaves nothing
    /// known.
    pub open spec fn limited(self, limit: usize) -> Statistics {
        match self.num_rows {
            Some(rows) => if rows <= limit {
                self
            } else {
                Statistics {
                    num_rows: Some(limit),
                    total_byte_size: None,
                    column_statistics: None,
                    is_exact: self.is_exact,
                }
            },
            None => Statistics::unknown(),
        }
    }
}

impl Default for Statistics {
    /// Statistics with nothing known.
    fn default() -> (s: Statistics)
        ensures
            s == Statistics::unknown(),
    {
        Statistics { num_rows: None, total_byte_size: None, column_statistics: None, is_exact: false }
    }
}

/// Derives the statistics of a limit node from those of its input.
pub fn limit_statistics(input: Statistics, limit: usize) -> (output: Statistics)
    ensures
        output == input.limited(limit),
        input.num_rows matches Some(rows) && rows <= limit ==> output == input,
        input.num_rows matches Some(rows) && rows > limit ==> {
            &&& output.num_rows == Some(limit)
            &&& output.is_exact == input.is_exact
            &&& output.total_byte_size is None
            &&& output.column_statistics is None
        },
        input.num_rows is None ==> output == Statistics::unknown(),
{
    match input.num_rows {
        Some(rows) => {
            if rows <= limit {
                input
            } else {
                Statistics {
                    num_rows: Some(limit),
                    total_byte_size: None,
                    column_statistics: None,
                    is_exact: input.is_exact,
                }
            }
        },
        None => Statistics::default(),
    }
}

} // verus!
