//! A concurrent scroll-export engine for a remote, shard-partitioned search
//! index: worker partitioning via a slicing scheme, a per-worker pagination
//! state machine, shared progress accounting, and failure propagation.

mod document;
mod endpoint;
mod errors;
mod json;
mod plan;
mod progress;
mod query;
mod session;

pub use document::Document;
pub use document::is_transient_key;
pub use document::lemma_stripped_fields;
pub use document::stripped_fields;
pub use endpoint::ALL_INDICES_ALIAS;
pub use endpoint::index_from_path;
pub use endpoint::parse_cluster_info;
pub use endpoint::parsed_url;
pub use endpoint::spec_index_from_path;
pub use endpoint::trim_leading_slashes;
pub use endpoint::trim_trailing_slashes;
pub use errors::ExportError;
pub use errors::ProtocolFault;
pub use json::PageInput;
pub use json::json_ok;
pub use json::read_page;
pub use plan::ExportPlan;
pub use plan::ExportReport;
pub use plan::any_exhausted;
pub use plan::endpoint_accepted;
pub use plan::first_fault;
pub use plan::lemma_export_counts_nonfinal;
pub use plan::plan_export;
pub use plan::query_for_worker;
pub use plan::resolve_workers;
pub use plan::run_scripted_export;
pub use plan::scripts_counted_total;
pub use plan::scripts_nonfinal_sum;
pub use progress::ProgressCounter;
pub use progress::dec_digits;
pub use progress::decimal_string;
pub use progress::digit_char;
pub use progress::progress_line;
pub use progress::spec_progress_line;
pub use query::DEFAULT_PAGE_SIZE;
pub use query::MATCH_ALL_FILTER;
pub use query::Query;
pub use query::WorkerSlice;
pub use query::build_query;
pub use session::PageOutcome;
pub use session::Request;
pub use session::SCROLL_WINDOW;
pub use session::ScriptEnd;
pub use session::ScriptReport;
pub use session::ScrollSession;
pub use session::SessionPhase;
pub use session::counted_total;
pub use session::emitted_docs;
pub use session::lemma_counted_total_success;
pub use session::lemma_emitted_docs_clean;
pub use session::lemma_pages_consumed_bounds;
pub use session::page_continues;
pub use session::page_doc_count;
pub use session::page_emitted;
pub use session::page_size_sum;
pub use session::pages_consumed;
pub use session::run_scripted_session;
pub use session::script_end;
