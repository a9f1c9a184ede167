use limber::build_query;
use limber::parse_cluster_info;
use limber::plan_export;
use limber::read_page;
use limber::run_scripted_export;
use limber::run_scripted_session;
use limber::Document;
use limber::ExportError;
use limber::PageInput;
use limber::ProgressCounter;
use limber::ProtocolFault;
use limber::Request;
use limber::ScrollSession;
use limber::SessionPhase;
use limber::WorkerSlice;
use limber::DEFAULT_PAGE_SIZE;
use limber::MATCH_ALL_FILTER;
use limber::SCROLL_WINDOW;

fn sval(s: &str) -> serde_json::Value {
    serde_json::Value::String(s.to_owned())
}

fn nval(n: u64) -> serde_json::Value {
    serde_json::Value::Number(serde_json::Number::from(n))
}

fn doc(fields: Vec<(&str, serde_json::Value)>) -> Document {
    Document { fields: fields.into_iter().map(|(k, v)| (k.to_owned(), v)).collect() }
}

fn page(docs: Vec<Document>, cursor: Option<&str>) -> PageInput {
    PageInput { docs: Some(docs), cursor: cursor.map(|c| c.to_owned()) }
}

fn keys(d: &Document) -> Vec<&str> {
    d.fields.iter().map(|(k, _)| k.as_str()).collect()
}

// --- Endpoint parsing ---

#[test]
fn endpoint_with_path_selects_index() {
    let (cluster, index) = parse_cluster_info("http://localhost:9200/logs").unwrap();
    assert_eq!(cluster, "http://localhost:9200");
    assert_eq!(index, "logs");
}

#[test]
fn endpoint_without_path_selects_all_indices() {
    let (cluster, index) = parse_cluster_info("http://localhost:9200").unwrap();
    assert_eq!(cluster, "http://localhost:9200");
    assert_eq!(index, "_all");
}

#[test]
fn endpoint_with_slash_path_selects_all_indices() {
    let (_, index) = parse_cluster_info("https://example.com/").unwrap();
    assert_eq!(index, "_all");
}

#[test]
fn endpoint_nested_path_keeps_inner_slashes() {
    let (_, index) = parse_cluster_info("http://host:9200//a/b").unwrap();
    assert_eq!(index, "a/b");
}

#[test]
fn endpoint_bad_scheme_is_config_error() {
    let r = parse_cluster_info("ftp://host/index");
    assert!(matches!(r, Err(ExportError::Config(_))));
}

#[test]
fn endpoint_unparsable_is_config_error() {
    let r = parse_cluster_info("not a resource");
    assert!(matches!(r, Err(ExportError::Config(_))));
}

#[test]
fn endpoint_without_host_is_config_error() {
    let r = parse_cluster_info("http://");
    assert!(matches!(r, Err(ExportError::Config(_))));
}

// --- Query building ---

#[test]
fn single_worker_query_has_no_slice() {
    let q = build_query(None, None, 0, 1).unwrap();
    assert!(q.slice.is_none());
    assert_eq!(q.size, DEFAULT_PAGE_SIZE);
    assert_eq!(q.filter, MATCH_ALL_FILTER);
}

#[test]
fn multi_worker_queries_carry_their_slice() {
    for id in 0..3 {
        let q = build_query(None, Some(25), id, 3).unwrap();
        assert_eq!(q.slice, Some(WorkerSlice { id, max: 3 }));
        assert!(q.slice.unwrap().id < q.slice.unwrap().max);
        assert_eq!(q.size, 25);
    }
}

#[test]
fn explicit_filter_is_kept() {
    let q = build_query(Some("{\"term\":{\"a\":1}}"), None, 0, 1).unwrap();
    assert_eq!(q.filter, "{\"term\":{\"a\":1}}");
}

#[test]
fn invalid_filter_is_query_error() {
    let r = build_query(Some("{not valid"), None, 0, 1);
    assert!(matches!(r, Err(ExportError::Query(_))));
}

#[test]
fn invalid_filter_aborts_plan_before_any_work() {
    let r = plan_export("http://localhost:9200/logs", Some(4), None, Some("nope["));
    assert!(matches!(r, Err(ExportError::Query(_))));
}

#[test]
fn plan_builds_one_query_per_worker() {
    let p = plan_export("http://localhost:9200/logs", Some(3), Some(10), None).unwrap();
    assert_eq!(p.cluster, "http://localhost:9200");
    assert_eq!(p.index, "logs");
    assert_eq!(p.queries.len(), 3);
    for (id, q) in p.queries.iter().enumerate() {
        assert_eq!(q.slice, Some(WorkerSlice { id, max: 3 }));
    }
}

#[test]
fn plan_with_bad_endpoint_is_config_error() {
    let r = plan_export("gopher://host/x", Some(1), None, None);
    assert!(matches!(r, Err(ExportError::Config(_))));
}

// --- Document stripping ---

#[test]
fn strip_removes_sort_and_score_only() {
    let d = doc(vec![
        ("_id", sval("a")),
        ("sort", nval(3)),
        ("_score", nval(1)),
        ("body", sval("text")),
    ]);
    let s = d.strip_transient();
    assert_eq!(keys(&s), vec!["_id", "body"]);
}

#[test]
fn strip_keeps_clean_document_unchanged() {
    let d = doc(vec![("x", nval(1)), ("y", sval("z"))]);
    let s = d.strip_transient();
    assert_eq!(keys(&s), vec!["x", "y"]);
    assert_eq!(s.fields[0].1, nval(1));
    assert_eq!(s.fields[1].1, sval("z"));
}

// --- Session state machine ---

#[test]
fn scripted_pages_emit_all_and_stop() {
    // Three pages: two documents, one document, then the empty terminal page.
    let q = build_query(None, Some(2), 0, 1).unwrap();
    let mut session = ScrollSession::new("logs".to_owned(), q);

    let mut requests = 0usize;
    let mut emitted = 0usize;
    let mut script = vec![
        page(vec![doc(vec![("n", nval(1))]), doc(vec![("n", nval(2))])], Some("c1")),
        page(vec![doc(vec![("n", nval(3))])], Some("c2")),
        page(vec![], Some("c3")),
    ];
    while let Some(req) = session.next_request() {
        match (requests, &req) {
            (0, Request::Initial { index, .. }) => assert_eq!(index.as_str(), "logs"),
            (_, Request::Continuation { cursor }) => {
                assert_eq!(cursor, if requests == 1 { "c1" } else { "c2" })
            },
            _ => panic!("initial request repeated"),
        }
        requests += 1;
        let outcome = session.on_page(script.remove(0));
        emitted += outcome.emit.len();
    }
    assert_eq!(requests, 3);
    assert_eq!(emitted, 3);
    assert!(matches!(session.phase, SessionPhase::Terminated { failure: None }));
    assert!(session.next_request().is_none());
}

#[test]
fn emitted_documents_carry_no_transient_fields() {
    let q = build_query(None, None, 0, 1).unwrap();
    let mut session = ScrollSession::new("i".to_owned(), q);
    session.next_request().unwrap();
    let outcome = session.on_page(page(
        vec![doc(vec![("sort", nval(9)), ("_score", nval(2)), ("a", sval("b"))])],
        Some("c"),
    ));
    assert_eq!(outcome.counted, 1);
    for d in &outcome.emit {
        for (k, _) in &d.fields {
            assert_ne!(k, "sort");
            assert_ne!(k, "_score");
        }
    }
    assert_eq!(keys(&outcome.emit[0]), vec!["a"]);
}

#[test]
fn missing_cursor_is_protocol_error_and_stops() {
    let q = build_query(None, None, 0, 1).unwrap();
    let mut session = ScrollSession::new("i".to_owned(), q);
    session.next_request().unwrap();
    let outcome = session.on_page(page(vec![doc(vec![("a", nval(1))])], None));
    // The page's documents were still emitted and counted.
    assert_eq!(outcome.emit.len(), 1);
    assert_eq!(outcome.counted, 1);
    assert!(matches!(
        session.phase,
        SessionPhase::Terminated { failure: Some(ExportError::Protocol(ProtocolFault::CursorMissing)) }
    ));
    assert!(session.next_request().is_none());
}

#[test]
fn missing_documents_is_protocol_error() {
    let q = build_query(None, None, 0, 1).unwrap();
    let mut session = ScrollSession::new("i".to_owned(), q);
    session.next_request().unwrap();
    let outcome = session.on_page(PageInput { docs: None, cursor: Some("c".to_owned()) });
    assert_eq!(outcome.emit.len(), 0);
    assert_eq!(outcome.counted, 0);
    assert!(matches!(
        session.phase,
        SessionPhase::Terminated { failure: Some(ExportError::Protocol(ProtocolFault::DocumentsMissing)) }
    ));
    assert!(session.next_request().is_none());
}

#[test]
fn transport_failure_terminates_session() {
    let q = build_query(None, None, 0, 1).unwrap();
    let mut session = ScrollSession::new("i".to_owned(), q);
    session.next_request().unwrap();
    session.fail_transport("connection refused".to_owned());
    assert!(matches!(
        session.phase,
        SessionPhase::Terminated { failure: Some(ExportError::Transport(_)) }
    ));
    assert!(session.next_request().is_none());
}

// --- Progress counter ---

#[test]
fn counter_accumulates_exact_sums() {
    let mut c = ProgressCounter::new();
    assert_eq!(c.current(), 0);
    assert_eq!(c.add(2), 2);
    assert_eq!(c.add(1), 3);
    assert_eq!(c.current(), 3);
}

#[test]
fn scripted_session_counts_nonfinal_pages() {
    let q = build_query(None, Some(2), 0, 1).unwrap();
    let mut c = ProgressCounter::new();
    let script = vec![
        page(vec![doc(vec![("n", nval(1))]), doc(vec![("n", nval(2))])], Some("c1")),
        page(vec![doc(vec![("n", nval(3))])], Some("c2")),
        page(vec![], None),
    ];
    let report = run_scripted_session("logs".to_owned(), q, script, &mut c);
    assert_eq!(report.requests, 3);
    assert_eq!(report.emitted.len(), 3);
    assert!(report.finished);
    assert!(report.failure.is_none());
    assert_eq!(c.current(), 3);
}

#[test]
fn exhausted_script_leaves_session_unfinished() {
    let q = build_query(None, None, 0, 1).unwrap();
    let mut c = ProgressCounter::new();
    let script = vec![page(vec![doc(vec![("n", nval(1))])], Some("c1"))];
    let report = run_scripted_session("i".to_owned(), q, script, &mut c);
    assert!(!report.finished);
    assert!(report.failure.is_none());
    assert_eq!(report.requests, 1);
    assert_eq!(c.current(), 1);
}

#[test]
fn plan_with_default_workers_has_at_least_one_query() {
    let p = plan_export("http://h:9200/i", None, None, None).unwrap();
    assert!(p.queries.len() >= 1);
}

// --- Whole-export scenario ---

#[test]
fn two_worker_export_end_to_end() {
    // Endpoint http://localhost:9200/logs, two workers, page size two,
    // default filter. Worker zero sees two pages of documents then the empty
    // page; worker one sees the empty page at once.
    let plan = plan_export("http://localhost:9200/logs", Some(2), Some(2), None).unwrap();
    assert_eq!(plan.index, "logs");
    let d1 = doc(vec![("id", sval("d1")), ("sort", nval(1))]);
    let d2 = doc(vec![("id", sval("d2")), ("sort", nval(2))]);
    let d3 = doc(vec![("id", sval("d3")), ("sort", nval(3))]);
    let scripts = vec![
        vec![
            page(vec![d1, d2], Some("cursorA")),
            page(vec![d3], Some("cursorB")),
            page(vec![], Some("cursorC")),
        ],
        vec![page(vec![], None)],
    ];
    let report = run_scripted_export(plan, scripts);
    assert!(report.failure.is_none());
    assert!(report.complete);
    assert_eq!(report.total, 3);
    let worker0: Vec<Vec<&str>> = report.outputs[0].iter().map(keys).collect();
    assert_eq!(worker0, vec![vec!["id"], vec!["id"], vec!["id"]]);
    assert_eq!(report.outputs[0][0].fields[0].1, sval("d1"));
    assert_eq!(report.outputs[0][1].fields[0].1, sval("d2"));
    assert_eq!(report.outputs[0][2].fields[0].1, sval("d3"));
    assert_eq!(report.outputs[1].len(), 0);
}

#[test]
fn export_reports_first_failing_worker() {
    let plan = plan_export("http://localhost:9200/logs", Some(2), None, None).unwrap();
    let scripts = vec![
        vec![page(vec![], None)],
        vec![page(vec![doc(vec![("a", nval(1))])], None)],
    ];
    let report = run_scripted_export(plan, scripts);
    assert!(matches!(
        report.failure,
        Some(ExportError::Protocol(ProtocolFault::CursorMissing))
    ));
    // The failing worker's page was still counted before the cursor check.
    assert_eq!(report.total, 1);
}

// --- Raw response reading ---

fn response(hits: Option<serde_json::Value>, scroll_id: Option<serde_json::Value>) -> serde_json::Value {
    let mut root = serde_json::Map::new();
    if let Some(h) = hits {
        let mut outer = serde_json::Map::new();
        outer.insert("hits".to_owned(), h);
        root.insert("hits".to_owned(), serde_json::Value::Object(outer));
    }
    if let Some(s) = scroll_id {
        root.insert("_scroll_id".to_owned(), s);
    }
    serde_json::Value::Object(root)
}

#[test]
fn read_page_extracts_documents_and_cursor() {
    let mut obj = serde_json::Map::new();
    obj.insert("id".to_owned(), sval("x"));
    let hits = serde_json::Value::Array(vec![serde_json::Value::Object(obj)]);
    let p = read_page(&response(Some(hits), Some(sval("cur"))));
    let docs = p.docs.unwrap();
    assert_eq!(docs.len(), 1);
    assert_eq!(docs[0].fields[0].0, "id");
    assert_eq!(p.cursor.as_deref(), Some("cur"));
}

#[test]
fn read_page_without_hits_has_no_documents() {
    let p = read_page(&response(None, Some(sval("cur"))));
    assert!(p.docs.is_none());
    assert_eq!(p.cursor.as_deref(), Some("cur"));
}

#[test]
fn read_page_with_non_array_hits_has_no_documents() {
    let p = read_page(&response(Some(sval("oops")), None));
    assert!(p.docs.is_none());
    assert!(p.cursor.is_none());
}

#[test]
fn read_page_with_non_object_hit_has_no_documents() {
    let hits = serde_json::Value::Array(vec![sval("bare")]);
    let p = read_page(&response(Some(hits), Some(sval("cur"))));
    assert!(p.docs.is_none());
}

#[test]
fn read_page_with_non_string_cursor_has_no_cursor() {
    let hits = serde_json::Value::Array(vec![]);
    let p = read_page(&response(Some(hits), Some(nval(7))));
    assert!(p.docs.is_some());
    assert!(p.cursor.is_none());
}

// --- Miscellany ---

#[test]
fn scroll_window_is_one_minute() {
    assert_eq!(SCROLL_WINDOW, "1m");
}

#[test]
fn progress_line_has_documented_shape() {
    assert_eq!(limber::progress_line(2, 3), "Fetched batch of 2, have now processed 3");
    assert_eq!(
        limber::progress_line(100, 12005),
        "Fetched batch of 100, have now processed 12005"
    );
    assert_eq!(limber::decimal_string(0), "0");
    assert_eq!(limber::decimal_string(907), "907");
}

#[test]
fn index_from_path_trims_and_defaults() {
    assert_eq!(limber::index_from_path(""), "_all");
    assert_eq!(limber::index_from_path("/"), "_all");
    assert_eq!(limber::index_from_path("/logs"), "logs");
    assert_eq!(limber::index_from_path("//a/b"), "a/b");
}

#[test]
fn worker_count_honours_request_and_defaults_to_parallelism() {
    assert_eq!(limber::resolve_workers(Some(5)), 5);
    assert_eq!(limber::resolve_workers(Some(0)), 0);
    assert!(limber::resolve_workers(None) >= 1);
}

#[test]
fn error_messages_name_their_fault() {
    let e = ExportError::Protocol(ProtocolFault::CursorMissing);
    assert!(e.message().contains("cursor"));
    let e = ExportError::Config("x".to_owned());
    assert!(e.message().contains("x"));
}
