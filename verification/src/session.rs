//! The per-worker pagination state machine.
//!
//! A session issues the initial query, then repeatedly exchanges a cursor
//! token for the next page until a page is empty. A page with zero documents
//! is always the final page for its worker and is never followed by another
//! request. The remote cursor stays valid only for the scroll window since
//! the last request on it, so a driver must not stall between receiving a
//! page and issuing the continuation; that window is the transport's to
//! enforce, not re-checked here.

use vstd::prelude::*;
use crate::document::Document;
use crate::document::stripped_fields;
use crate::errors::ExportError;
use crate::errors::ProtocolFault;
use crate::json::PageInput;
use crate::progress::ProgressCounter;
use crate::query::Query;

verus! {

/// The scroll window parameter sent with every request: how long the remote
/// engine keeps the returned cursor valid.
pub const SCROLL_WINDOW: &'static str = "1m";

/// One request a session asks its driver to issue.
pub enum Request {
    /// The initial search: the query against the index, with the scroll
    /// window parameter.
    Initial { index: String, query: Query },
    /// A continuation: the cursor token and the scroll window parameter,
    /// carrying no filter.
    Continuation { cursor: String },
}

/// The phases of one pagination session.
pub enum SessionPhase {
    /// No request issued yet.
    Init,
    /// A request is in flight; a page or a transport failure comes next.
    Fetching,
    /// The last page's cursor, to be exchanged for the next page.
    Continuing { cursor: String },
    /// The single terminal phase, reached by success (an empty page) or by
    /// failure.
    Terminated { failure: Option<ExportError> },
}

/// The per-worker pagination state machine. Owned exclusively by one worker;
/// never shared.
pub struct ScrollSession {
    pub index: String,
    pub query: Query,
    pub phase: SessionPhase,
}

/// What one consumed page yields: the stripped documents for the output
/// stream, in order, and the count to add to the shared progress counter.
pub struct PageOutcome {
    pub emit: Vec<Document>,
    pub counted: usize,
}

impl ScrollSession {
    /// A fresh session holding a built query.
    pub fn new(index: String, query: Query) -> (s: ScrollSession)
        ensures
            s.index == index,
            s.query == query,
            s.phase is Init,
    {
        ScrollSession { index, query, phase: SessionPhase::Init }
    }

    /// Whether the session has reached the terminal phase.
    pub open spec fn terminated(self) -> bool {
        self.phase is Terminated
    }

    /// Whether the session terminated by success.
    pub open spec fn succeeded(self) -> bool {
        self.phase matches SessionPhase::Terminated { failure: None }
    }

    /// The next request to issue, if the session awaits one: the initial
    /// query first, a continuation keyed by the last cursor afterwards.
    /// A terminated session never asks for another request.
    pub fn next_request(&mut self) -> (r: Option<Request>)
        ensures
            final(self).index == old(self).index,
            final(self).query == old(self).query,
            old(self).phase is Init ==> (final(self).phase is Fetching && r == Some(
                Request::Initial { index: old(self).index, query: old(self).query },
            )),
            old(self).phase matches SessionPhase::Continuing { cursor } ==> (
            final(self).phase is Fetching && r == Some(Request::Continuation { cursor })),
            old(self).phase is Fetching ==> (r is None && *final(self) == *old(self)),
            old(self).phase is Terminated ==> (r is None && *final(self) == *old(self)),
    {
        match &self.phase {
            SessionPhase::Init => {
                let req = Request::Initial {
                    index: self.index.clone(),
                    query: self.query.duplicate(),
                };
                self.phase = SessionPhase::Fetching;
                Some(req)
            },
            SessionPhase::Continuing { cursor } => {
                let req = Request::Continuation { cursor: cursor.clone() };
                self.phase = SessionPhase::Fetching;
                Some(req)
            },
            SessionPhase::Fetching => None,
            SessionPhase::Terminated { .. } => None,
        }
    }

    /// Consumes the page answering the request in flight.
    ///
    /// A page without a document array terminates the session with a
    /// protocol failure. An empty page terminates it in success. Otherwise
    /// every document is stripped of its transient fields and handed back for
    /// emission, the page size is handed back for counting, and the session
    /// continues on the page's cursor — or terminates with a protocol
    /// failure when the cursor is absent.
    pub fn on_page(&mut self, page: PageInput) -> (r: PageOutcome)
        requires
            old(self).phase is Fetching,
        ensures
            final(self).index == old(self).index,
            final(self).query == old(self).query,
            page.docs is None ==> (final(self).phase == (SessionPhase::Terminated {
                failure: Some(ExportError::Protocol(ProtocolFault::DocumentsMissing)),
            }) && r.emit@.len() == 0 && r.counted == 0),
            page.docs matches Some(ds) ==> {
                &&& (ds@.len() == 0 ==> (final(self).phase == (SessionPhase::Terminated {
                    failure: None,
                }) && r.emit@.len() == 0 && r.counted == 0))
                &&& (ds@.len() > 0 ==> {
                    &&& r.counted == ds@.len()
                    &&& r.emit@.len() == ds@.len()
                    &&& (forall|i: int|
                        0 <= i < ds@.len() ==> #[trigger] r.emit@[i].fields@ == stripped_fields(
                            ds@[i].fields@,
                        ))
                    &&& (forall|i: int| 0 <= i < r.emit@.len() ==> (#[trigger] r.emit@[i]).clean())
                    &&& (page.cursor matches Some(c) ==> final(self).phase == (
                    SessionPhase::Continuing { cursor: c }))
                    &&& (page.cursor is None ==> final(self).phase == (SessionPhase::Terminated {
                        failure: Some(ExportError::Protocol(ProtocolFault::CursorMissing)),
                    }))
                })
            },
    {
        match page.docs {
            None => {
                self.phase = SessionPhase::Terminated {
                    failure: Some(ExportError::Protocol(ProtocolFault::DocumentsMissing)),
                };
                PageOutcome { emit: Vec::new(), counted: 0 }
            },
            Some(mut ds) => {
                if ds.len() == 0 {
                    self.phase = SessionPhase::Terminated { failure: None };
                    PageOutcome { emit: Vec::new(), counted: 0 }
                } else {
                    let n = ds.len();
                    let ghost orig = ds@;
                    let mut emit: Vec<Document> = Vec::new();
                    let ghost mut i: int = 0;
                    while ds.len() > 0
                        invariant
                            0 <= i <= orig.len(),
                            ds@ =~= orig.skip(i),
                            emit@.len() == i,
                            forall|j: int|
                                0 <= j < i ==> #[trigger] emit@[j].fields@ == stripped_fields(
                                    orig[j].fields@,
                                ),
                        decreases ds.len(),
                    {
                        let d = ds.remove(0);
                        proof {
                            assert(d == orig[i]);
                        }
                        let s = d.strip_transient();
                        emit.push(s);
                        proof {
                            i = i + 1;
                        }
                    }
                    proof {
                        assert forall|j: int| 0 <= j < emit@.len() implies (
                        #[trigger] emit@[j]).clean() by {
                            crate::document::lemma_stripped_fields(orig[j].fields@);
                        }
                    }
                    match page.cursor {
                        Some(c) => {
                            self.phase = SessionPhase::Continuing { cursor: c };
                        },
                        None => {
                            self.phase = SessionPhase::Terminated {
                                failure: Some(ExportError::Protocol(ProtocolFault::CursorMissing)),
                            };
                        },
                    }
                    PageOutcome { emit, counted: n }
                }
            },
        }
    }

    /// Records a transport-level failure of the request in flight: the
    /// session terminates in failure, short-circuiting the remaining phases.
    pub fn fail_transport(&mut self, message: String)
        requires
            old(self).phase is Fetching,
        ensures
            final(self).index == old(self).index,
            final(self).query == old(self).query,
            final(self).phase == (SessionPhase::Terminated {
                failure: Some(ExportError::Transport(message)),
            }),
    {
        self.phase = SessionPhase::Terminated {
            failure: Some(ExportError::Transport(message)),
        };
    }
}

// ---------------------------------------------------------------------------
// The session's behaviour over a whole script of pages, stated once at the
// specification level, and an executable driver proved to follow it.
// ---------------------------------------------------------------------------

/// Whether one page lets the session continue: it holds at least one document
/// and a continuation cursor.
pub open spec fn page_continues(p: PageInput) -> bool {
    &&& p.docs matches Some(ds) && ds@.len() > 0
    &&& p.cursor is Some
}

/// The number of documents one page contributes to the output stream and the
/// shared counter: the size of its document array, counted exactly when the
/// array is present and non-empty.
pub open spec fn page_doc_count(p: PageInput) -> nat {
    if p.docs is Some && p.docs->0@.len() > 0 {
        p.docs->0@.len()
    } else {
        0
    }
}

/// The stripped documents one page hands to the output stream, in order, as
/// field sequences.
pub open spec fn page_emitted(p: PageInput) -> Seq<Seq<(String, serde_json::Value)>> {
    if p.docs is Some && p.docs->0@.len() > 0 {
        p.docs->0@.map_values(|d: Document| stripped_fields(d.fields@))
    } else {
        Seq::empty()
    }
}

/// How a script of pages ends for one session.
pub enum ScriptEnd {
    /// The session reached the terminal phase by an empty page.
    Success,
    /// The session terminated in failure on a malformed page.
    Fault(ProtocolFault),
    /// The script ran out while the session still awaited a page.
    Exhausted,
}

/// How a session fed the pages of `pages`, in order, ends.
pub open spec fn script_end(pages: Seq<PageInput>) -> ScriptEnd
    decreases pages.len(),
{
    if pages.len() == 0 {
        ScriptEnd::Exhausted
    } else if pages[0].docs is None {
        ScriptEnd::Fault(ProtocolFault::DocumentsMissing)
    } else if pages[0].docs->0@.len() == 0 {
        ScriptEnd::Success
    } else if pages[0].cursor is None {
        ScriptEnd::Fault(ProtocolFault::CursorMissing)
    } else {
        script_end(pages.skip(1))
    }
}

/// How many pages of the script the session consumes — one request per
/// consumed page, and none after the terminal phase.
pub open spec fn pages_consumed(pages: Seq<PageInput>) -> int
    decreases pages.len(),
{
    if pages.len() == 0 {
        0
    } else if page_continues(pages[0]) {
        1 + pages_consumed(pages.skip(1))
    } else {
        1
    }
}

/// The total the shared counter grows by over the script.
pub open spec fn counted_total(pages: Seq<PageInput>) -> nat
    decreases pages.len(),
{
    if pages.len() == 0 {
        0
    } else if page_continues(pages[0]) {
        page_doc_count(pages[0]) + counted_total(pages.skip(1))
    } else {
        page_doc_count(pages[0])
    }
}

/// The documents the script emits, stripped, in order, as field sequences.
pub open spec fn emitted_docs(pages: Seq<PageInput>) -> Seq<Seq<(String, serde_json::Value)>>
    decreases pages.len(),
{
    if pages.len() == 0 {
        Seq::empty()
    } else if page_continues(pages[0]) {
        page_emitted(pages[0]) + emitted_docs(pages.skip(1))
    } else {
        page_emitted(pages[0])
    }
}

/// A session consumes at least one page of a non-empty script and never more
/// pages than the script holds.
pub proof fn lemma_pages_consumed_bounds(pages: Seq<PageInput>)
    ensures
        0 <= pages_consumed(pages) <= pages.len(),
        pages.len() > 0 ==> pages_consumed(pages) >= 1,
    decreases pages.len(),
{
    if pages.len() > 0 && page_continues(pages[0]) {
        lemma_pages_consumed_bounds(pages.skip(1));
    }
}

/// The sum of the document counts of a script's pages.
pub open spec fn page_size_sum(pages: Seq<PageInput>) -> nat
    decreases pages.len(),
{
    if pages.len() == 0 {
        0
    } else {
        page_doc_count(pages[0]) + page_size_sum(pages.skip(1))
    }
}

/// LAW: a session that terminates in success counts exactly the documents of
/// its non-final pages — the pages consumed before the terminal empty one —
/// so the shared counter's growth equals the sum of all non-final page sizes.
pub proof fn lemma_counted_total_success(pages: Seq<PageInput>)
    requires
        script_end(pages) is Success,
    ensures
        counted_total(pages) == page_size_sum(pages.take(pages_consumed(pages) - 1)),
    decreases pages.len(),
{
    let p = pages[0];
    if p.docs->0@.len() == 0 {
        assert(pages.take(0) =~= Seq::<PageInput>::empty());
    } else {
        let rest = pages.skip(1);
        lemma_counted_total_success(rest);
        lemma_pages_consumed_bounds(rest);
        let k = pages_consumed(rest);
        assert(pages.take(k + 1 - 1)[0] == p);
        assert(pages.take(k).skip(1) =~= rest.take(k - 1));
    }
}

/// LAW: no document a script emits carries a transient key, even when the
/// source documents did.
pub proof fn lemma_emitted_docs_clean(pages: Seq<PageInput>)
    ensures
        forall|i: int, j: int|
            0 <= i < emitted_docs(pages).len() && 0 <= j < emitted_docs(pages)[i].len()
                ==> !crate::document::is_transient_key(#[trigger] emitted_docs(pages)[i][j].0@),
    decreases pages.len(),
{
    if pages.len() > 0 {
        let p = pages[0];
        let head = page_emitted(p);
        assert forall|i: int, j: int|
            0 <= i < head.len() && 0 <= j < head[i].len() implies !crate::document::is_transient_key(
            #[trigger] head[i][j].0@,
        ) by {
            let ds = p.docs->0@;
            assert(head[i] == stripped_fields(ds[i].fields@));
            crate::document::lemma_stripped_fields(ds[i].fields@);
        }
        if page_continues(p) {
            lemma_emitted_docs_clean(pages.skip(1));
            let rest = emitted_docs(pages.skip(1));
            assert forall|i: int, j: int|
                0 <= i < emitted_docs(pages).len() && 0 <= j < emitted_docs(
                    pages,
                )[i].len() implies !crate::document::is_transient_key(
                #[trigger] emitted_docs(pages)[i][j].0@,
            ) by {
                if i < head.len() {
                    assert(emitted_docs(pages)[i] == head[i]);
                } else {
                    assert(emitted_docs(pages)[i] == rest[i - head.len()]);
                }
            }
        }
    }
}

/// What one scripted session reports back: how many requests it issued, the
/// stripped documents it emitted in order, its failure if any, and whether it
/// reached the terminal phase before the script ran out.
pub struct ScriptReport {
    pub requests: usize,
    pub emitted: Vec<Document>,
    pub failure: Option<ExportError>,
    pub finished: bool,
}

/// Runs one session to completion against a script of pages, one page per
/// issued request, counting every non-final page on the shared counter — the
/// whole pagination loop, with the page source held still so that its
/// behaviour is provable and testable.
pub fn run_scripted_session(
    index: String,
    query: Query,
    pages: Vec<PageInput>,
    counter: &mut ProgressCounter,
) -> (r: ScriptReport)
    requires
        old(counter).total + counted_total(pages@) <= usize::MAX,
    ensures
        final(counter).total == old(counter).total + counted_total(pages@),
        r.requests == pages_consumed(pages@),
        r.emitted@.map_values(|d: Document| d.fields@) == emitted_docs(pages@),
        r.finished == !(script_end(pages@) is Exhausted),
        script_end(pages@) is Success ==> r.failure is None,
        script_end(pages@) matches ScriptEnd::Fault(f) ==> r.failure == Some(
            ExportError::Protocol(f),
        ),
        script_end(pages@) is Exhausted ==> r.failure is None,
{
    let ghost all = pages@;
    let ghost c0 = counter.total;
    let n_pages = pages.len();
    let mut session = ScrollSession::new(index, query);
    let mut rem = pages;
    let mut emitted: Vec<Document> = Vec::new();
    let mut requests: usize = 0;
    let mut failure: Option<ExportError> = None;
    let mut finished = false;
    let mut running = true;
    proof {
        lemma_pages_consumed_bounds(all);
    }
    while running
        invariant
            c0 + counted_total(all) <= usize::MAX,
            all.len() == n_pages,
            0 <= pages_consumed(all) <= all.len(),
            running ==> (session.phase is Init || session.phase matches SessionPhase::Continuing {
                ..
            }),
            running ==> counter.total + counted_total(rem@) == c0 + counted_total(all),
            running ==> emitted@.map_values(|d: Document| d.fields@) + emitted_docs(rem@)
                == emitted_docs(all),
            running ==> requests + pages_consumed(rem@) == pages_consumed(all),
            running ==> script_end(rem@) == script_end(all),
            running ==> failure is None,
            !running ==> counter.total == c0 + counted_total(all),
            !running ==> requests == pages_consumed(all),
            !running ==> emitted@.map_values(|d: Document| d.fields@) == emitted_docs(all),
            !running ==> finished == !(script_end(all) is Exhausted),
            !running ==> (script_end(all) is Success ==> failure is None),
            !running ==> (script_end(all) matches ScriptEnd::Fault(f) ==> failure == Some(
                ExportError::Protocol(f),
            )),
            !running ==> (script_end(all) is Exhausted ==> failure is None),
        decreases rem.len() + (if running { 1int } else { 0int }),
    {
        if rem.len() == 0 {
            finished = false;
            running = false;
        } else {
            let ghost rem0 = rem@;
            proof {
                lemma_pages_consumed_bounds(rem0);
                lemma_pages_consumed_bounds(rem0.skip(1));
            }
            let _req = session.next_request();
            requests = requests + 1;
            let page = rem.remove(0);
            proof {
                assert(page == rem0[0]);
                assert(rem@ =~= rem0.skip(1));
            }
            let docs_present = page.docs.is_some();
            let page_len: usize = match &page.docs {
                Some(ds) => ds.len(),
                None => 0,
            };
            let has_cursor = page.cursor.is_some();
            let outcome = session.on_page(page);
            let _total = counter.add(outcome.counted);
            let mut fresh = outcome.emit;
            proof {
                assert(emitted@.map_values(|d: Document| d.fields@) + fresh@.map_values(
                    |d: Document| d.fields@,
                ) =~= (emitted@ + fresh@).map_values(|d: Document| d.fields@));
                assert(fresh@.map_values(|d: Document| d.fields@) =~= page_emitted(rem0[0]));
            }
            emitted.append(&mut fresh);
            if !docs_present {
                failure = Some(ExportError::Protocol(ProtocolFault::DocumentsMissing));
                finished = true;
                running = false;
            } else if page_len == 0 {
                failure = None;
                finished = true;
                running = false;
            } else if !has_cursor {
                failure = Some(ExportError::Protocol(ProtocolFault::CursorMissing));
                finished = true;
                running = false;
            }
        }
    }
    ScriptReport { requests, emitted, failure, finished }
}

} // verus!
