use vstd::prelude::*;

use crate::metric::{Metric, MetricOp, MetricUpdate, UpdateView, updates_view, upd};
use crate::text::{decimal_of, decimal_string, str_equals};

verus! {

/// The HTTP side of a request log entry.
#[derive(Clone, Debug)]
pub struct HttpLogDetailHttpInfo {
    pub status: i32,
    pub http_version: String,
    pub url: String,
    pub method: String,
    pub ip: String,
}

/// The error that an operation ended with.
#[derive(Clone, Debug)]
pub struct HttpLogDetailOperationError {
    pub path: String,
    pub error: String,
    pub code: String,
}

/// The GraphQL query of an operation.
#[derive(Clone, Debug)]
pub struct HttpLogDetailOperationQuery {
    pub operation_name: Option<String>,
    pub query: Option<String>,
}

/// The operation side of a request log entry. Whether an execution time
/// came with it is recorded here; the duration itself stays with the caller,
/// which records it where an update says so.
#[derive(Clone, Debug)]
pub struct HttpLogDetailOperation {
    pub has_execution_time: bool,
    pub request_id: String,
    pub parameterized_query_hash: Option<String>,
    pub response_size: i32,
    pub error: Option<HttpLogDetailOperationError>,
    pub query: Option<HttpLogDetailOperationQuery>,
}

/// The detail of an `http-log` entry.
#[derive(Clone, Debug)]
pub struct HttpLogDetails {
    pub request_id: String,
    pub operation: HttpLogDetailOperation,
    pub http_info: HttpLogDetailHttpInfo,
}

/// A websocket event: its type, and for an operation its detail.
#[derive(Clone, Debug)]
pub struct WebSocketDetailEvent {
    pub event_type: String,
    pub detail: Option<WebSocketDetailEventDetail>,
}

/// What happened to a websocket operation, with its error if it failed.
#[derive(Clone, Debug)]
pub struct WebSocketDetailEventDetailOperationType {
    pub operation_type: String,
    pub detail: Option<HttpLogDetailOperationError>,
}

/// The detail of a websocket operation event.
#[derive(Clone, Debug)]
pub struct WebSocketDetailEventDetail {
    pub operation_name: Option<String>,
    pub request_id: Option<String>,
    pub operation_type: WebSocketDetailEventDetailOperationType,
}

/// The connection of a websocket entry; nothing of it is read.
#[derive(Clone, Copy, Debug)]
pub struct WebSocketDetailConnInfo {}

/// The detail of a `websocket-log` entry.
#[derive(Clone, Debug)]
pub struct WebSocketDetail {
    pub event: WebSocketDetailEvent,
    pub connection_info: WebSocketDetailConnInfo,
}

/// One log entry. Its detail is given in each shape that it was readable
/// in; which one counts is decided by the log type.
#[derive(Clone, Debug)]
pub struct BaseLog {
    pub timestamp: String,
    pub level: String,
    pub logtype: String,
    pub http_detail: Option<HttpLogDetails>,
    pub websocket_detail: Option<WebSocketDetail>,
}

/// A text where there is one, the empty text otherwise.
pub open spec fn or_empty(o: Option<String>) -> Seq<char> {
    match o {
        Some(s) => s@,
        None => seq![],
    }
}

/// The code of an error where there is one, the empty text otherwise.
pub open spec fn code_or_empty(e: Option<HttpLogDetailOperationError>) -> Seq<char> {
    match e {
        Some(err) => err.code@,
        None => seq![],
    }
}

/// The updates of a request entry: the request counted by url and status;
/// for a GraphQL operation, the operation counted by name and error code,
/// and its execution time recorded under the same labels where it came.
pub open spec fn http_updates(h: HttpLogDetails) -> Seq<UpdateView> {
    let req = upd(
        Metric::RequestCounter,
        seq![h.http_info.url@, decimal_of(h.http_info.status as int)],
        MetricOp::Inc,
    );
    match h.operation.query {
        None => seq![req],
        Some(q) => {
            let labels = seq![or_empty(q.operation_name), code_or_empty(h.operation.error)];
            let counted = upd(Metric::RequestQueryCounter, labels, MetricOp::Inc);
            if h.operation.has_execution_time {
                seq![req, counted, upd(Metric::QueryExecutionTimes, labels, MetricOp::Observe)]
            } else {
                seq![req, counted]
            }
        },
    }
}

/// The updates of a websocket operation event.
pub open spec fn operation_updates(d: WebSocketDetailEventDetail) -> Seq<UpdateView> {
    let name = or_empty(d.operation_name);
    let t = d.operation_type.operation_type@;
    if t == "started"@ {
        seq![upd(Metric::ActiveWebsocketOperations, seq![], MetricOp::Inc)]
    } else if t == "stopped"@ {
        seq![
            upd(Metric::WebsocketOperations, seq![name, seq![]], MetricOp::Inc),
            upd(Metric::ActiveWebsocketOperations, seq![], MetricOp::Dec),
        ]
    } else if t == "query_err"@ {
        seq![
            upd(
                Metric::WebsocketOperations,
                seq![name, code_or_empty(d.operation_type.detail)],
                MetricOp::Inc,
            ),
        ]
    } else {
        seq![]
    }
}

/// The updates of a websocket entry: a connection accepted or closed moves
/// the connection gauge by one; an operation event is read as above; any
/// other event gives none.
pub open spec fn websocket_updates(w: WebSocketDetail) -> Seq<UpdateView> {
    let t = w.event.event_type@;
    if t == "accepted"@ {
        seq![upd(Metric::ActiveWebsocket, seq![], MetricOp::Inc)]
    } else if t == "closed"@ {
        seq![upd(Metric::ActiveWebsocket, seq![], MetricOp::Dec)]
    } else if t == "operation"@ {
        match w.event.detail {
            Some(d) => operation_updates(d),
            None => seq![],
        }
    } else {
        seq![]
    }
}

/// The updates of one log line: every line is counted; a line that parsed
/// is counted by its type and then read by it, `http-log` and
/// `websocket-log` alone giving more, and only where the detail had the
/// shape of its type.
pub open spec fn log_updates(log: Option<BaseLog>) -> Seq<UpdateView> {
    let total = upd(Metric::LogLinesTotal, seq![], MetricOp::Inc);
    match log {
        None => seq![total],
        Some(b) => {
            let by_type = upd(Metric::LogLines, seq![b.logtype@], MetricOp::Inc);
            let rest = if b.logtype@ == "http-log"@ {
                match b.http_detail {
                    Some(h) => http_updates(h),
                    None => seq![],
                }
            } else if b.logtype@ == "websocket-log"@ {
                match b.websocket_detail {
                    Some(w) => websocket_updates(w),
                    None => seq![],
                }
            } else {
                seq![]
            };
            seq![total, by_type] + rest
        },
    }
}

/// A text where there is one, the empty text otherwise.
fn text_or_empty(o: &Option<String>) -> (r: String)
    ensures
        r@ == or_empty(*o),
{
    match o {
        Some(s) => s.clone(),
        None => String::new(),
    }
}

/// The code of an error where there is one, the empty text otherwise.
fn error_code(e: &Option<HttpLogDetailOperationError>) -> (r: String)
    ensures
        r@ == code_or_empty(*e),
{
    match e {
        Some(err) => err.code.clone(),
        None => String::new(),
    }
}

/// The updates of a request entry.
pub fn handle_http_log(http: &HttpLogDetails) -> (r: Vec<MetricUpdate>)
    ensures
        updates_view(r@) == http_updates(*http),
{
    let mut out: Vec<MetricUpdate> = Vec::new();
    let status = decimal_string(http.http_info.status);
    out.push(
        MetricUpdate::labelled2(
            Metric::RequestCounter,
            http.http_info.url.as_str(),
            status.as_str(),
            MetricOp::Inc,
        ),
    );
    if let Some(query) = &http.operation.query {
        let error = error_code(&http.operation.error);
        let operation = text_or_empty(&query.operation_name);
        out.push(
            MetricUpdate::labelled2(
                Metric::RequestQueryCounter,
                operation.as_str(),
                error.as_str(),
                MetricOp::Inc,
            ),
        );
        if http.operation.has_execution_time {
            out.push(
                MetricUpdate::labelled2(
                    Metric::QueryExecutionTimes,
                    operation.as_str(),
                    error.as_str(),
                    MetricOp::Observe,
                ),
            );
        }
    }
    assert(updates_view(out@) =~= http_updates(*http));
    out
}

/// The updates of a websocket operation event.
fn handle_operation(detail: &WebSocketDetailEventDetail) -> (r: Vec<MetricUpdate>)
    ensures
        updates_view(r@) == operation_updates(*detail),
{
    let mut out: Vec<MetricUpdate> = Vec::new();
    let op_name = text_or_empty(&detail.operation_name);
    let t = detail.operation_type.operation_type.as_str();
    if str_equals(t, "started") {
        out.push(MetricUpdate::plain(Metric::ActiveWebsocketOperations, MetricOp::Inc));
    } else if str_equals(t, "stopped") {
        let none = String::new();
        out.push(
            MetricUpdate::labelled2(
                Metric::WebsocketOperations,
                op_name.as_str(),
                none.as_str(),
                MetricOp::Inc,
            ),
        );
        out.push(MetricUpdate::plain(Metric::ActiveWebsocketOperations, MetricOp::Dec));
    } else if str_equals(t, "query_err") {
        let err = error_code(&detail.operation_type.detail);
        out.push(
            MetricUpdate::labelled2(
                Metric::WebsocketOperations,
                op_name.as_str(),
                err.as_str(),
                MetricOp::Inc,
            ),
        );
    }
    assert(updates_view(out@) =~= operation_updates(*detail));
    out
}

/// The updates of a websocket entry.
pub fn handle_websocket_log(ws: &WebSocketDetail) -> (r: Vec<MetricUpdate>)
    ensures
        updates_view(r@) == websocket_updates(*ws),
{
    let t = ws.event.event_type.as_str();
    if str_equals(t, "accepted") {
        let mut out: Vec<MetricUpdate> = Vec::new();
        out.push(MetricUpdate::plain(Metric::ActiveWebsocket, MetricOp::Inc));
        assert(updates_view(out@) =~= websocket_updates(*ws));
        out
    } else if str_equals(t, "closed") {
        let mut out: Vec<MetricUpdate> = Vec::new();
        out.push(MetricUpdate::plain(Metric::ActiveWebsocket, MetricOp::Dec));
        assert(updates_view(out@) =~= websocket_updates(*ws));
        out
    } else if str_equals(t, "operation") {
        match &ws.event.detail {
            Some(d) => handle_operation(d),
            None => {
                let out: Vec<MetricUpdate> = Vec::new();
                assert(updates_view(out@) =~= websocket_updates(*ws));
                out
            },
        }
    } else {
        let out: Vec<MetricUpdate> = Vec::new();
        assert(updates_view(out@) =~= websocket_updates(*ws));
        out
    }
}

/// The updates of one log line; `None` stands for a line that did not parse
/// as a log entry.
pub fn log_processor(log: &Option<BaseLog>) -> (r: Vec<MetricUpdate>)
    ensures
        updates_view(r@) == log_updates(*log),
{
    let mut out: Vec<MetricUpdate> = Vec::new();
    out.push(MetricUpdate::plain(Metric::LogLinesTotal, MetricOp::Inc));
    match log {
        None => {
            assert(updates_view(out@) =~= log_updates(*log));
            out
        },
        Some(b) => {
            out.push(MetricUpdate::labelled(Metric::LogLines, b.logtype.as_str(), MetricOp::Inc));
            let ghost head = out@;
            let mut rest: Vec<MetricUpdate> = if str_equals(b.logtype.as_str(), "http-log") {
                match &b.http_detail {
                    Some(h) => handle_http_log(h),
                    None => Vec::new(),
                }
            } else if str_equals(b.logtype.as_str(), "websocket-log") {
                match &b.websocket_detail {
                    Some(w) => handle_websocket_log(w),
                    None => Vec::new(),
                }
            } else {
                Vec::new()
            };
            let ghost tail = rest@;
            out.append(&mut rest);
            assert(updates_view(head + tail) =~= updates_view(head) + updates_view(tail));
            assert(updates_view(out@) =~= log_updates(*log));
            out
        },
    }
}

} // verus!
