//! The export orchestrator's decisions.
//!
//! Everything that must be settled before any concurrent work begins is
//! decided here: the endpoint is parsed, the worker count resolved, and one
//! query built per worker. Only after all of it succeeds may any session
//! start, so a configuration fault can never leave partial side effects.
//!
//! The fan-out policy over concurrent workers is fixed and documented here:
//! every sibling session runs to completion even after another fails, and the
//! first failure in worker order is reported as the overall result.

use vstd::prelude::*;
use crate::document::Document;
use crate::endpoint::parse_cluster_info;
use crate::endpoint::parsed_url;
use crate::endpoint::spec_index_from_path;
use crate::endpoint::trim_trailing_slashes;
use crate::errors::ExportError;
use crate::errors::ProtocolFault;
use crate::json::PageInput;
use crate::json::json_ok;
use crate::progress::ProgressCounter;
use crate::query::DEFAULT_PAGE_SIZE;
use crate::query::MATCH_ALL_FILTER;
use crate::query::Query;
use crate::query::WorkerSlice;
use crate::query::build_query;
use crate::session::ScriptEnd;
use crate::session::counted_total;
use crate::session::emitted_docs;
use crate::session::run_scripted_session;
use crate::session::script_end;

verus! {

/// Relies on num_cpus::get: its documentation promises at least one.
#[verifier::external_body]
fn available_parallelism() -> (n: usize)
    ensures
        n >= 1,
{
    num_cpus::get()
}

/// The number of workers to export with: the requested count, or the
/// machine's available parallelism when none is requested.
pub fn resolve_workers(requested: Option<usize>) -> (r: usize)
    ensures
        requested matches Some(w) ==> r == w,
        requested is None ==> r >= 1,
{
    match requested {
        Some(w) => w,
        None => available_parallelism(),
    }
}

/// Whether an endpoint is acceptable: it parses, has a host, and carries an
/// http or https scheme.
pub open spec fn endpoint_accepted(s: Seq<char>) -> bool {
    parsed_url(s) matches Some(u) && u.1 && (u.0 == "http"@ || u.0 == "https"@)
}

/// What the query of worker `wid` of `count` must hold, given the configured
/// filter and page size.
pub open spec fn query_for_worker(
    q: Query,
    wid: int,
    count: int,
    filter: Option<&str>,
    size: Option<usize>,
) -> bool {
    &&& (filter matches Some(f) ==> q.filter@ == f@)
    &&& (filter is None ==> q.filter@ == MATCH_ALL_FILTER@)
    &&& (size matches Some(s) ==> q.size == s)
    &&& (size is None ==> q.size == DEFAULT_PAGE_SIZE)
    &&& (count > 1 ==> q.slice == Some(WorkerSlice { id: wid as usize, max: count as usize }))
    &&& (count == 1 ==> q.slice is None)
}

/// Everything an export needs before the first request: the cluster address,
/// the index name, and one query per worker.
pub struct ExportPlan {
    pub cluster: String,
    pub index: String,
    pub queries: Vec<Query>,
}

/// Decides the whole export up front: parses the endpoint, resolves the
/// worker count, validates the filter, and builds every worker's query.
///
/// Fails with a configuration fault when the endpoint does not parse, has no
/// host, or carries a scheme other than http or https; fails with a query
/// fault when a filter is given and is not valid structured data. Succeeds
/// exactly otherwise, before any request is issued.
pub fn plan_export(
    source: &str,
    workers: Option<usize>,
    size: Option<usize>,
    filter: Option<&str>,
) -> (r: Result<ExportPlan, ExportError>)
    ensures
        (r is Ok) <==> (endpoint_accepted(source@) && (filter matches Some(f) ==> json_ok(f@))),
        !endpoint_accepted(source@) ==> (r matches Err(ExportError::Config(_))),
        filter matches Some(f) && endpoint_accepted(source@) && !json_ok(f@) ==> (
        r matches Err(ExportError::Query(_))),
        r matches Ok(p) ==> {
            &&& (parsed_url(source@) matches Some(u) ==> p.cluster@ == trim_trailing_slashes(u.3)
                && p.index@ == spec_index_from_path(u.2))
            &&& (workers matches Some(w) ==> p.queries@.len() == w)
            &&& (workers is None ==> p.queries@.len() >= 1)
            &&& (forall|i: int|
                0 <= i < p.queries@.len() ==> query_for_worker(
                    #[trigger] p.queries@[i],
                    i,
                    p.queries@.len() as int,
                    filter,
                    size,
                ))
        },
{
    let (cluster, index) = match parse_cluster_info(source) {
        Ok(pair) => pair,
        Err(e) => {
            return Err(e);
        },
    };
    let count = resolve_workers(workers);
    // Validate the filter before any worker exists, whatever the count: a
    // query fault must abort the export with no work performed.
    match build_query(filter, size, 0, if count > 1 {
        count
    } else {
        1
    }) {
        Ok(_) => (),
        Err(e) => {
            return Err(e);
        },
    }
    let mut queries: Vec<Query> = Vec::new();
    let mut wid: usize = 0;
    while wid < count
        invariant
            wid <= count,
            queries@.len() == wid,
            filter matches Some(f) ==> json_ok(f@),
            forall|i: int|
                0 <= i < wid ==> query_for_worker(
                    #[trigger] queries@[i],
                    i,
                    count as int,
                    filter,
                    size,
                ),
        decreases count - wid,
    {
        match build_query(filter, size, wid, count) {
            Ok(q) => {
                queries.push(q);
            },
            Err(e) => {
                return Err(e);
            },
        }
        wid = wid + 1;
    }
    Ok(ExportPlan { cluster, index, queries })
}

// ---------------------------------------------------------------------------
// The whole export against scripted responses: every worker's session run to
// completion over its own page script, sharing one counter.
// ---------------------------------------------------------------------------

/// The counter total a whole export accumulates: the sum over workers of
/// their scripts' counted totals.
pub open spec fn scripts_counted_total(scripts: Seq<Vec<PageInput>>) -> nat
    decreases scripts.len(),
{
    if scripts.len() == 0 {
        0
    } else {
        counted_total(scripts[0]@) + scripts_counted_total(scripts.skip(1))
    }
}

/// The sum over workers of the sizes of their non-final pages: the pages a
/// session consumes before its terminal empty one.
pub open spec fn scripts_nonfinal_sum(scripts: Seq<Vec<PageInput>>) -> nat
    decreases scripts.len(),
{
    if scripts.len() == 0 {
        0
    } else {
        crate::session::page_size_sum(
            scripts[0]@.take(crate::session::pages_consumed(scripts[0]@) - 1),
        ) + scripts_nonfinal_sum(scripts.skip(1))
    }
}

/// LAW: after a full successful export — every worker's script ending in
/// success — the shared counter holds exactly the sum of all non-final page
/// sizes across all workers.
pub proof fn lemma_export_counts_nonfinal(scripts: Seq<Vec<PageInput>>)
    requires
        forall|w: int| 0 <= w < scripts.len() ==> (#[trigger] script_end(scripts[w]@)) is Success,
    ensures
        scripts_counted_total(scripts) == scripts_nonfinal_sum(scripts),
    decreases scripts.len(),
{
    if scripts.len() > 0 {
        assert(script_end(scripts[0]@) is Success);
        crate::session::lemma_counted_total_success(scripts[0]@);
        assert forall|w: int|
            0 <= w < scripts.skip(1).len() implies (#[trigger] script_end(
            scripts.skip(1)[w]@,
        )) is Success by {
            assert(scripts.skip(1)[w] == scripts[w + 1]);
        }
        lemma_export_counts_nonfinal(scripts.skip(1));
    }
}

/// The first protocol fault in worker order, if any worker's script ends in
/// one.
pub open spec fn first_fault(scripts: Seq<Vec<PageInput>>) -> Option<ProtocolFault>
    decreases scripts.len(),
{
    if scripts.len() == 0 {
        None
    } else if script_end(scripts[0]@) is Fault {
        Some(script_end(scripts[0]@)->0)
    } else {
        first_fault(scripts.skip(1))
    }
}

/// Whether some worker's script runs out before its session terminates.
pub open spec fn any_exhausted(scripts: Seq<Vec<PageInput>>) -> bool
    decreases scripts.len(),
{
    if scripts.len() == 0 {
        false
    } else {
        script_end(scripts[0]@) is Exhausted || any_exhausted(scripts.skip(1))
    }
}

/// What a whole scripted export reports: the final counter total, each
/// worker's emitted documents in worker order, the first failure if any, and
/// whether every session reached the terminal phase.
pub struct ExportReport {
    pub total: usize,
    pub outputs: Vec<Vec<Document>>,
    pub failure: Option<ExportError>,
    pub complete: bool,
}

/// Runs one session per worker over scripted pages, all sharing one counter
/// starting at zero.
///
/// Policy: every sibling session runs to completion even after another fails;
/// the first failure in worker order is reported as the overall result.
pub fn run_scripted_export(plan: ExportPlan, scripts: Vec<Vec<PageInput>>) -> (r: ExportReport)
    requires
        scripts@.len() == plan.queries@.len(),
        scripts_counted_total(scripts@) <= usize::MAX,
    ensures
        r.total == scripts_counted_total(scripts@),
        r.outputs@.len() == scripts@.len(),
        forall|w: int|
            0 <= w < scripts@.len() ==> (#[trigger] r.outputs@[w])@.map_values(
                |d: Document| d.fields@,
            ) == emitted_docs(scripts@[w]@),
        (r.failure is None) <==> (first_fault(scripts@) is None),
        r.failure matches Some(e) ==> (first_fault(scripts@) matches Some(f) && e
            == ExportError::Protocol(f)),
        r.complete == !any_exhausted(scripts@),
{
    let ghost all = scripts@;
    let mut counter = ProgressCounter::new();
    let mut rem_scripts = scripts;
    let mut rem_queries = plan.queries;
    let index = plan.index;
    let mut outputs: Vec<Vec<Document>> = Vec::new();
    let mut failure: Option<ExportError> = None;
    let mut complete = true;
    let ghost mut w: int = 0;
    while rem_scripts.len() > 0
        invariant
            0 <= w <= all.len(),
            rem_scripts@ =~= all.skip(w),
            rem_queries@.len() == rem_scripts@.len(),
            counter.total + scripts_counted_total(rem_scripts@) == scripts_counted_total(all),
            scripts_counted_total(all) <= usize::MAX,
            outputs@.len() == w,
            forall|k: int|
                0 <= k < w ==> (#[trigger] outputs@[k])@.map_values(|d: Document| d.fields@)
                    == emitted_docs(all[k]@),
            match failure {
                None => first_fault(all) == first_fault(rem_scripts@),
                Some(e) => first_fault(all) matches Some(f) && e == ExportError::Protocol(f),
            },
            failure is Some ==> first_fault(all) is Some,
            any_exhausted(all) == (!complete || any_exhausted(rem_scripts@)),
        decreases rem_scripts.len(),
    {
        let ghost rem0 = rem_scripts@;
        let script = rem_scripts.remove(0);
        let query = rem_queries.remove(0);
        proof {
            assert(script == rem0[0]);
            assert(rem_scripts@ =~= rem0.skip(1));
        }
        let report = run_scripted_session(index.clone(), query, script, &mut counter);
        outputs.push(report.emitted);
        if failure.is_none() {
            failure = report.failure;
        }
        if !report.finished {
            complete = false;
        }
        proof {
            w = w + 1;
        }
    }
    ExportReport { total: counter.current(), outputs, failure, complete }
}

} // verus!

