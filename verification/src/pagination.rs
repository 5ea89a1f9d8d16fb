//! Pages of rows, newest first.

use vstd::prelude::*;

verus! {

/// `chrono::NaiveDateTime`, carried as it is: a cursor into the rows.
#[verifier::external_type_specification]
#[verifier::external_body]
pub struct ExNaiveDateTime(chrono::NaiveDateTime);

/// The page size where the request names none.
pub const DEFAULT_LIMIT: usize = 10;

/// The largest page size.
pub const MAX_LIMIT: usize = 50;

/// What a request says of the page it wants.
#[derive(Debug)]
pub struct Options {
    pub limit: Option<usize>,
    pub before: Option<chrono::NaiveDateTime>,
    pub after: Option<chrono::NaiveDateTime>,
}

/// One page and the cursors that lead on from it.
#[derive(Debug)]
pub struct Page<T> {
    pub items: T,
    pub next_cursor: Option<chrono::NaiveDateTime>,
    pub prev_cursor: Option<chrono::NaiveDateTime>,
}

/// The page size for a request: what it asks for, at most fifty, and ten
/// where it asks for nothing.
pub open spec fn limit_for(requested: Option<usize>) -> usize {
    match requested {
        Some(limit) => if limit > MAX_LIMIT {
            MAX_LIMIT
        } else {
            limit
        },
        None => DEFAULT_LIMIT,
    }
}

impl Options {
    /// The page size for this request.
    pub fn page_limit(&self) -> (limit: usize)
        ensures
            limit == limit_for(self.limit),
            limit <= MAX_LIMIT,
    {
        match self.limit {
            Some(limit) => if limit > MAX_LIMIT {
                MAX_LIMIT
            } else {
                limit
            },
            None => DEFAULT_LIMIT,
        }
    }
}

/// Cuts the rows of a query that asked for one row more than the page
/// holds. Where that row came, it is taken off and handed back: more rows
/// follow, and the next page starts at it. Otherwise the rows are the page.
pub fn split_page<T>(rows: Vec<T>, limit: usize) -> (page: (Vec<T>, Option<T>))
    ensures
        rows@.len() == limit + 1 ==> page.0@ == rows@.take(limit as int) && page.1 == Some(
            rows@[limit as int],
        ),
        rows@.len() != limit + 1 ==> page.0@ == rows@ && page.1 is None,
{
    let mut items = rows;
    let found = items.len();
    if limit < usize::MAX && found == limit + 1 {
        let extra = items.pop();
        proof {
            assert(items@ =~= rows@.take(limit as int));
        }
        (items, extra)
    } else {
        (items, None)
    }
}

} // verus!
