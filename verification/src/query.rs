//! Building the initial query document for one worker.
//!
//! A query always sorts by natural document order (required for scroll
//! consistency) and always requests a finite page size. When more than one
//! worker takes part, the query carries a slice clause assigning this worker
//! its partition of the result set.

use vstd::prelude::*;
use crate::errors::ExportError;
use crate::json::json_filter_ok;
use crate::json::json_ok;

verus! {

/// The page size requested when none is configured.
pub const DEFAULT_PAGE_SIZE: usize = 100;

/// The filter used when none is configured: it matches every document.
pub const MATCH_ALL_FILTER: &'static str = "{\"match_all\":{}}";

/// A partition coordinate: the remote engine returns only the portion of
/// matching documents assigned to partition `id` out of `max` partitions,
/// covering the whole result set exactly once across all partitions.
#[derive(PartialEq, Eq, Structural, Clone, Copy, Debug)]
pub struct WorkerSlice {
    pub id: usize,
    pub max: usize,
}

/// The initial query document for one worker, immutable once built: a filter,
/// a page size, an implied sort by natural document order, and a slice clause
/// present exactly when more than one worker takes part.
pub struct Query {
    pub filter: String,
    pub size: usize,
    pub slice: Option<WorkerSlice>,
}

impl Query {
    /// An identical copy of this query.
    pub fn duplicate(&self) -> (r: Query)
        ensures
            r == *self,
    {
        Query { filter: self.filter.clone(), size: self.size, slice: self.slice }
    }
}

/// Builds the query for the worker `worker_id` of `worker_count`.
///
/// A missing filter defaults to matching every document; a filter that is not
/// valid structured data is rejected. A missing size defaults to
/// `DEFAULT_PAGE_SIZE`. The slice clause carries exactly this worker's
/// coordinates, and only when more than one worker takes part.
pub fn build_query(
    filter: Option<&str>,
    size: Option<usize>,
    worker_id: usize,
    worker_count: usize,
) -> (r: Result<Query, ExportError>)
    requires
        worker_id < worker_count,
    ensures
        (r is Ok) <==> (filter matches Some(f) ==> json_ok(f@)),
        r matches Ok(q) ==> {
            &&& (filter matches Some(f) ==> q.filter@ == f@)
            &&& (filter is None ==> q.filter@ == MATCH_ALL_FILTER@)
            &&& (size matches Some(s) ==> q.size == s)
            &&& (size is None ==> q.size == DEFAULT_PAGE_SIZE)
            &&& (worker_count > 1 ==> q.slice == Some(
                WorkerSlice { id: worker_id, max: worker_count },
            ))
            &&& (worker_count == 1 ==> q.slice is None)
        },
        r is Err ==> (r matches Err(ExportError::Query(_))),
{
    let filter_text: String = match filter {
        Some(f) => {
            if !json_filter_ok(f) {
                return Err(ExportError::Query("the filter is not valid structured data".to_owned()));
            }
            f.to_owned()
        },
        None => MATCH_ALL_FILTER.to_owned(),
    };
    let size_value: usize = match size {
        Some(s) => s,
        None => DEFAULT_PAGE_SIZE,
    };
    let slice: Option<WorkerSlice> = if worker_count > 1 {
        Some(WorkerSlice { id: worker_id, max: worker_count })
    } else {
        None
    };
    Ok(Query { filter: filter_text, size: size_value, slice })
}

} // verus!
