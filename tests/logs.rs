use hasura_metrics::logprocessor::{
    handle_http_log, handle_websocket_log, log_processor, BaseLog, HttpLogDetailHttpInfo,
    HttpLogDetailOperation, HttpLogDetailOperationError, HttpLogDetailOperationQuery,
    HttpLogDetails, WebSocketDetail, WebSocketDetailConnInfo, WebSocketDetailEvent,
    WebSocketDetailEventDetail, WebSocketDetailEventDetailOperationType,
};
use hasura_metrics::metric::{Metric, MetricOp, MetricUpdate};

fn update(metric: Metric, labels: &[&str], op: MetricOp) -> MetricUpdate {
    MetricUpdate { metric, labels: labels.iter().map(|s| s.to_string()).collect(), op }
}

fn ws_event(event_type: &str, detail: Option<WebSocketDetailEventDetail>) -> WebSocketDetail {
    WebSocketDetail {
        event: WebSocketDetailEvent { event_type: event_type.to_string(), detail },
        connection_info: WebSocketDetailConnInfo {},
    }
}

fn ws_log(detail: WebSocketDetail) -> BaseLog {
    BaseLog {
        timestamp: "2024-01-01T00:00:00".to_string(),
        level: "info".to_string(),
        logtype: "websocket-log".to_string(),
        http_detail: None,
        websocket_detail: Some(detail),
    }
}

fn operation(kind: &str, name: Option<&str>, code: Option<&str>) -> WebSocketDetailEventDetail {
    WebSocketDetailEventDetail {
        operation_name: name.map(|s| s.to_string()),
        request_id: None,
        operation_type: WebSocketDetailEventDetailOperationType {
            operation_type: kind.to_string(),
            detail: code.map(|c| HttpLogDetailOperationError {
                path: "$".to_string(),
                error: "boom".to_string(),
                code: c.to_string(),
            }),
        },
    }
}

fn http(status: i32, query: Option<Option<&str>>, code: Option<&str>, timed: bool) -> HttpLogDetails {
    HttpLogDetails {
        request_id: "r1".to_string(),
        operation: HttpLogDetailOperation {
            has_execution_time: timed,
            request_id: "r1".to_string(),
            parameterized_query_hash: None,
            response_size: 10,
            error: code.map(|c| HttpLogDetailOperationError {
                path: "$".to_string(),
                error: "e".to_string(),
                code: c.to_string(),
            }),
            query: query.map(|n| HttpLogDetailOperationQuery {
                operation_name: n.map(|s| s.to_string()),
                query: None,
            }),
        },
        http_info: HttpLogDetailHttpInfo {
            status,
            http_version: "HTTP/1.1".to_string(),
            url: "/v1/graphql".to_string(),
            method: "POST".to_string(),
            ip: "127.0.0.1".to_string(),
        },
    }
}

#[test]
fn websocket_accept_then_close_returns_gauge() {
    let up = log_processor(&Some(ws_log(ws_event("accepted", None))));
    let down = log_processor(&Some(ws_log(ws_event("closed", None))));
    let gauge = |us: &Vec<MetricUpdate>| -> i64 {
        us.iter()
            .filter(|u| u.metric == Metric::ActiveWebsocket)
            .map(|u| match u.op {
                MetricOp::Inc => 1,
                MetricOp::Dec => -1,
                _ => 0,
            })
            .sum()
    };
    assert_eq!(gauge(&up), 1);
    assert_eq!(gauge(&up) + gauge(&down), 0);
    assert_eq!(
        up,
        vec![
            update(Metric::LogLinesTotal, &[], MetricOp::Inc),
            update(Metric::LogLines, &["websocket-log"], MetricOp::Inc),
            update(Metric::ActiveWebsocket, &[], MetricOp::Inc),
        ]
    );
}

#[test]
fn websocket_operations_move_gauges() {
    assert_eq!(
        handle_websocket_log(&ws_event("operation", Some(operation("started", Some("q"), None)))),
        vec![update(Metric::ActiveWebsocketOperations, &[], MetricOp::Inc)]
    );
    assert_eq!(
        handle_websocket_log(&ws_event("operation", Some(operation("stopped", Some("q"), None)))),
        vec![
            update(Metric::WebsocketOperations, &["q", ""], MetricOp::Inc),
            update(Metric::ActiveWebsocketOperations, &[], MetricOp::Dec),
        ]
    );
    assert_eq!(
        handle_websocket_log(&ws_event("operation", Some(operation("query_err", None, Some("bad"))))),
        vec![update(Metric::WebsocketOperations, &["", "bad"], MetricOp::Inc)]
    );
    assert!(handle_websocket_log(&ws_event("operation", None)).is_empty());
    assert!(handle_websocket_log(&ws_event("operation", Some(operation("other", None, None)))).is_empty());
    assert!(handle_websocket_log(&ws_event("ping", None)).is_empty());
}

#[test]
fn http_log_counts_request_and_query() {
    assert_eq!(
        handle_http_log(&http(200, Some(Some("getUsers")), None, true)),
        vec![
            update(Metric::RequestCounter, &["/v1/graphql", "200"], MetricOp::Inc),
            update(Metric::RequestQueryCounter, &["getUsers", ""], MetricOp::Inc),
            update(Metric::QueryExecutionTimes, &["getUsers", ""], MetricOp::Observe),
        ]
    );
    assert_eq!(
        handle_http_log(&http(400, Some(None), Some("validation-failed"), false)),
        vec![
            update(Metric::RequestCounter, &["/v1/graphql", "400"], MetricOp::Inc),
            update(Metric::RequestQueryCounter, &["", "validation-failed"], MetricOp::Inc),
        ]
    );
    assert_eq!(
        handle_http_log(&http(-1, None, None, true)),
        vec![update(Metric::RequestCounter, &["/v1/graphql", "-1"], MetricOp::Inc)]
    );
}

#[test]
fn unparsable_and_other_lines_are_only_counted() {
    assert_eq!(log_processor(&None), vec![update(Metric::LogLinesTotal, &[], MetricOp::Inc)]);
    let other = BaseLog {
        timestamp: "t".to_string(),
        level: "info".to_string(),
        logtype: "startup".to_string(),
        http_detail: None,
        websocket_detail: Some(ws_event("accepted", None)),
    };
    assert_eq!(
        log_processor(&Some(other)),
        vec![
            update(Metric::LogLinesTotal, &[], MetricOp::Inc),
            update(Metric::LogLines, &["startup"], MetricOp::Inc),
        ]
    );
    let bad_detail = BaseLog {
        timestamp: "t".to_string(),
        level: "info".to_string(),
        logtype: "http-log".to_string(),
        http_detail: None,
        websocket_detail: None,
    };
    assert_eq!(log_processor(&Some(bad_detail)).len(), 2);
}
