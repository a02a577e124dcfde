//! The heap-statistics route: one report per request, taken from the live
//! allocator, answered as plain text.

use vstd::prelude::*;

verus! {

/// The path of the heap-statistics route.
pub const HEAP_STATS_PATH: &'static str = "/pprof/heap_stats";

/// The content type of every answer of the route.
pub const PLAIN_TEXT: &'static str = "text/plain; charset=utf-8";

/// The status of an answer that carries a report.
pub const STATUS_OK: u16 = 200;

/// The status of an answer to a request whose report could not be produced.
pub const STATUS_INTERNAL_SERVER_ERROR: u16 = 500;

/// The error of `std::io`, carried from the allocator query to the text of
/// its cause.
#[verifier::external_type_specification]
#[verifier::external_body]
pub struct ExIoError(std::io::Error);

/// Why the allocator gave no report.
#[derive(Debug)]
pub struct StatsError {
    pub cause: String,
}

/// An answer of the diagnostics endpoint, as plain values.
#[derive(Debug)]
pub struct DiagnosticsResponse {
    pub status: u16,
    pub content_type: String,
    pub body: Vec<u8>,
    /// Why there is no report, for the log; `None` beside a report.
    pub failure: Option<StatsError>,
}

/// Calls `tikv_jemalloc_ctl::stats_print::stats_print` with a fresh buffer as
/// the writer and the default options, and hands back the buffer, or the error
/// that the call returned. What the report holds depends on the allocator's
/// state at the time of the call, so nothing is claimed of it.
#[verifier::external_body]
fn allocator_stats_print() -> (r: Result<Vec<u8>, std::io::Error>) {
    let mut buf = Vec::new();
    match tikv_jemalloc_ctl::stats_print::stats_print(
        &mut buf,
        tikv_jemalloc_ctl::stats_print::Options::default(),
    ) {
        Ok(()) => Ok(buf),
        Err(err) => Err(err),
    }
}

/// Queries the allocator for a fresh report: the outcome of what its call returned.
fn collect_heap_stats() -> (r: Result<Vec<u8>, StatsError>)
    ensures
        exists|queried: Result<Vec<u8>, std::io::Error>| spec_stats_outcome(queried, r),
{
    let queried = allocator_stats_print();
    let outcome = stats_outcome(queried);
    assert(spec_stats_outcome(queried, outcome));
    outcome
}

/// How the outcome of a query follows from what the allocator's call
/// returned: the buffer it filled is the report, and the text of its error is
/// the cause.
pub open spec fn spec_stats_outcome(
    queried: Result<Vec<u8>, std::io::Error>,
    outcome: Result<Vec<u8>, StatsError>,
) -> bool {
    match queried {
        Ok(buffer) => outcome matches Ok(report) && report@ == buffer@,
        Err(err) => {
            &&& outcome matches Err(failure)
            &&& vstd::string::to_string_from_display_ensures::<std::io::Error>(&err, failure.cause)
        },
    }
}

/// Turns what the allocator's call returned into the outcome of the query.
/// The report is passed on untouched; an error is kept as its text.
pub fn stats_outcome(queried: Result<Vec<u8>, std::io::Error>) -> (r: Result<Vec<u8>, StatsError>)
    ensures
        spec_stats_outcome(queried, r),
{
    match queried {
        Ok(buffer) => Ok(buffer),
        Err(err) => Err(StatsError { cause: err.to_string() }),
    }
}

/// A response as the values it carries.
pub struct DiagnosticsResponseView {
    pub status: u16,
    pub content_type: Seq<char>,
    pub body: Seq<u8>,
    pub failure: Option<Seq<char>>,
}

impl View for DiagnosticsResponse {
    type V = DiagnosticsResponseView;

    open spec fn view(&self) -> DiagnosticsResponseView {
        DiagnosticsResponseView {
            status: self.status,
            content_type: self.content_type@,
            body: self.body@,
            failure: match self.failure {
                Some(err) => Some(err.cause@),
                None => None,
            },
        }
    }
}

/// The outcome of a query as the values it carries: the report's bytes, or
/// the text of the cause.
pub open spec fn spec_outcome(outcome: Result<Vec<u8>, StatsError>) -> Result<Seq<u8>, Seq<char>> {
    match outcome {
        Ok(report) => Ok(report@),
        Err(err) => Err(err.cause@),
    }
}

/// The answer owed for the outcome of one query.
pub open spec fn spec_heap_stats_response(
    outcome: Result<Seq<u8>, Seq<char>>,
) -> DiagnosticsResponseView {
    match outcome {
        Ok(report) => DiagnosticsResponseView {
            status: STATUS_OK,
            content_type: PLAIN_TEXT@,
            body: report,
            failure: None,
        },
        Err(cause) => DiagnosticsResponseView {
            status: STATUS_INTERNAL_SERVER_ERROR,
            content_type: PLAIN_TEXT@,
            body: Seq::empty(),
            failure: Some(cause),
        },
    }
}

/// The answer owed for the outcome of one query: the report with status 200,
/// or an empty body with status 500 and the cause kept for the log. A failed
/// query never takes the serving task down.
pub fn heap_stats_response(outcome: Result<Vec<u8>, StatsError>) -> (r: DiagnosticsResponse)
    ensures
        r@ == spec_heap_stats_response(spec_outcome(outcome)),
{
    match outcome {
        Ok(report) => DiagnosticsResponse {
            status: STATUS_OK,
            content_type: PLAIN_TEXT.to_owned(),
            body: report,
            failure: None,
        },
        Err(err) => DiagnosticsResponse {
            status: STATUS_INTERNAL_SERVER_ERROR,
            content_type: PLAIN_TEXT.to_owned(),
            body: Vec::new(),
            failure: Some(err),
        },
    }
}

/// Handles one request: queries the allocator and answers with what came
/// back. Nothing is kept between requests, so every answer reflects the
/// allocator at the time of its own query.
pub fn dump_heap_stats() -> (r: DiagnosticsResponse)
    ensures
        exists|outcome: Result<Seq<u8>, Seq<char>>| r@ == spec_heap_stats_response(outcome),
        r.content_type@ == PLAIN_TEXT@,
        r.status == STATUS_OK || r.status == STATUS_INTERNAL_SERVER_ERROR,
        r.status == STATUS_OK <==> r.failure is None,
        r.status == STATUS_INTERNAL_SERVER_ERROR ==> r.body@.len() == 0,
{
    heap_stats_response(collect_heap_stats())
}

/// However many requests are answered, and in whatever order: each one whose
/// query gave a report gets status 200, the plain-text content type and that
/// report as its body, so a report that is not empty gives a body that is not
/// empty. No answer depends on another request.
pub proof fn lemma_every_report_is_served(reports: Seq<Seq<u8>>)
    ensures
        forall|i: int|
            0 <= i < reports.len() ==> {
                let answer = #[trigger] spec_heap_stats_response(Ok(reports[i]));
                &&& answer.status == 200
                &&& answer.content_type == "text/plain; charset=utf-8"@
                &&& answer.body == reports[i]
                &&& (reports[i].len() > 0 ==> answer.body.len() > 0)
                &&& answer.failure is None
            },
{
}

} // verus!
