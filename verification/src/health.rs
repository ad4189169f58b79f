//! The metrics and health endpoint: which path serves what, and the health
//! answer for the engines' readiness.
use vstd::prelude::*;
use crate::text::same_text;

verus! {

/// The name of the counter of gRPC requests.
pub const GRPC_REQUESTS_TOTAL: &'static str = "sentiric_tts_gateway_grpc_requests_total";

/// What the metrics server answers a request with.
#[derive(Clone, Copy, Debug, PartialEq, Eq, Structural)]
pub enum MetricsRoute {
    /// The Prometheus metrics.
    Metrics,
    /// The health answer.
    Health,
    /// Not found.
    NotFound,
}

/// `GET /metrics` gives the metrics; `GET /health` and `GET /healthz` the
/// health answer; everything else is not found.
pub open spec fn route_for(method: Seq<char>, path: Seq<char>) -> MetricsRoute {
    if method == "GET"@ && path == "/metrics"@ {
        MetricsRoute::Metrics
    } else if method == "GET"@ && (path == "/health"@ || path == "/healthz"@) {
        MetricsRoute::Health
    } else {
        MetricsRoute::NotFound
    }
}

/// What the metrics server answers `method path` with.
pub fn route(method: &str, path: &str) -> (r: MetricsRoute)
    ensures
        r == route_for(method@, path@),
{
    if same_text(method, "GET") && same_text(path, "/metrics") {
        MetricsRoute::Metrics
    } else if same_text(method, "GET") && (same_text(path, "/health") || same_text(
        path,
        "/healthz",
    )) {
        MetricsRoute::Health
    } else {
        MetricsRoute::NotFound
    }
}

/// An HTTP answer: status and body.
#[derive(Clone, Debug, PartialEq, Eq)]
pub struct HttpReply {
    pub status: u16,
    pub body: String,
}

pub open spec fn bool_text(b: bool) -> Seq<char> {
    if b {
        "true"@
    } else {
        "false"@
    }
}

fn bool_str(b: bool) -> (s: &'static str)
    ensures
        s@ == bool_text(b),
{
    if b {
        "true"
    } else {
        "false"
    }
}

/// The health answer: ready (200) while at least one engine is, with each
/// engine's readiness; unavailable (503) when none is.
pub fn health_reply(coqui_ready: bool, mms_ready: bool) -> (r: HttpReply)
    ensures
        coqui_ready || mms_ready ==> r.status == 200 && r.body@ == "{\"status\":\"ok\", \"coqui\":"@
            + bool_text(coqui_ready) + ", \"mms\":"@ + bool_text(mms_ready) + "}"@,
        !(coqui_ready || mms_ready) ==> r.status == 503 && r.body@
            == "{\"status\":\"error\", \"upstream\":\"all_disconnected\"}"@,
{
    if coqui_ready || mms_ready {
        let mut body = "{\"status\":\"ok\", \"coqui\":".to_owned();
        body.append(bool_str(coqui_ready));
        body.append(", \"mms\":");
        body.append(bool_str(mms_ready));
        body.append("}");
        HttpReply { status: 200, body }
    } else {
        HttpReply {
            status: 503,
            body: "{\"status\":\"error\", \"upstream\":\"all_disconnected\"}".to_owned(),
        }
    }
}

/// The answer to a path the server does not serve: 404, empty.
pub fn not_found_reply() -> (r: HttpReply)
    ensures
        r.status == 404,
        r.body@.len() == 0,
{
    HttpReply { status: 404, body: String::new() }
}

} // verus!
