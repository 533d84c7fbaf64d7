use hasura_metrics::cron_triggers::{
    check_cron_triggers, create_cron_trigger_request, CRON_FAILED_SQL, CRON_PROCESSED_SQL,
};
use hasura_metrics::event_triggers::{
    check_event_triggers, create_event_trigger_request, process_database, sql_type_for,
    DataSource, Metadata, EVENT_PROCESSED_SQL, EVENT_SUCCESSFUL_SQL,
};
use hasura_metrics::fetch::Fetch;
use hasura_metrics::health::check_health;
use hasura_metrics::metadata::{
    check_metadata, fetch_metadata, fetch_metadata_consistency, fetch_version,
    MetadataCheckRequest, MetadataCheckResponse, MetadataExportRequest, VersionResponse,
};
use hasura_metrics::metric::{Metric, MetricOp, MetricUpdate};
use hasura_metrics::scheduled_events::{check_scheduled_events, create_scheduled_event_request};
use hasura_metrics::sql::{SQLResult, SQLResultItem};

fn update(metric: Metric, labels: &[&str], op: MetricOp) -> MetricUpdate {
    MetricUpdate { metric, labels: labels.iter().map(|s| s.to_string()).collect(), op }
}

fn error(collector: &str) -> MetricUpdate {
    update(Metric::ErrorsTotal, &[collector], MetricOp::Inc)
}

fn ok(rows: Vec<SQLResultItem>) -> SQLResult {
    SQLResult { result_type: "TuplesOk".to_string(), result: Some(rows) }
}

fn header() -> SQLResultItem {
    SQLResultItem::StrStr("count".to_string(), "trigger_name".to_string())
}

fn source(name: Option<&str>, kind: Option<&str>) -> DataSource {
    DataSource { name: name.map(|s| s.to_string()), kind: kind.map(|s| s.to_string()) }
}

#[test]
fn cron_scenario_sets_failed_gauge_only() {
    let results = vec![
        ok(vec![header(), SQLResultItem::IntStr(3, "t1".to_string())]),
        ok(vec![header()]),
        ok(vec![header()]),
        ok(vec![header()]),
    ];
    let r = check_cron_triggers(Fetch::Responded { status: 200, body: Some(results) });
    assert_eq!(r, vec![update(Metric::CronTriggerFailed, &["t1"], MetricOp::SetTo(3))]);
}

#[test]
fn cron_positions_drive_their_gauges() {
    let results = vec![
        ok(vec![header(), SQLResultItem::IntStr(1, "a".to_string())]),
        ok(vec![header(), SQLResultItem::IntStr(2, "a".to_string())]),
        ok(vec![header(), SQLResultItem::StrStr("3".to_string(), "a".to_string())]),
        ok(vec![header(), SQLResultItem::IntStr(4, "a".to_string())]),
    ];
    let r = check_cron_triggers(Fetch::Responded { status: 200, body: Some(results) });
    assert_eq!(
        r,
        vec![
            update(Metric::CronTriggerFailed, &["a"], MetricOp::SetTo(1)),
            update(Metric::CronTriggerSuccessful, &["a"], MetricOp::SetTo(2)),
            update(Metric::CronTriggerPending, &["a"], MetricOp::SetTo(3)),
            update(Metric::CronTriggerProcessed, &["a"], MetricOp::SetTo(4)),
        ]
    );
}

#[test]
fn cron_failures_are_counted() {
    assert_eq!(check_cron_triggers(Fetch::Failed), vec![error("cron")]);
    assert_eq!(
        check_cron_triggers(Fetch::Responded { status: 500, body: None }),
        vec![error("cron")]
    );
    assert_eq!(
        check_cron_triggers(Fetch::Responded { status: 200, body: None }),
        vec![error("cron")]
    );
}

#[test]
fn cron_request_is_a_bulk_of_four() {
    let r = create_cron_trigger_request();
    assert_eq!(r.request_type, "bulk");
    assert_eq!(r.args.len(), 4);
    assert_eq!(r.args[0].args.sql, CRON_FAILED_SQL);
    assert_eq!(r.args[3].args.sql, CRON_PROCESSED_SQL);
    for q in &r.args {
        assert_eq!(q.request_type, "run_sql");
        assert_eq!(q.args.source, "default");
        assert!(!q.args.cascade);
        assert!(q.args.read_only);
    }
}

#[test]
fn scheduled_events_set_plain_gauges() {
    let lone = |s: &str| {
        ok(vec![SQLResultItem::Str(vec!["count".to_string()]), SQLResultItem::Str(vec![s.to_string()])])
    };
    let results = vec![
        lone("1"),
        ok(vec![SQLResultItem::Str(vec!["count".to_string()]), SQLResultItem::Int(vec![2])]),
        lone("x"),
        SQLResult { result_type: "CommandOk".to_string(), result: None },
    ];
    let r = check_scheduled_events(Fetch::Responded { status: 200, body: Some(results) });
    assert_eq!(
        r,
        vec![
            update(Metric::ScheduledEventsFailed, &[], MetricOp::SetTo(1)),
            update(Metric::ScheduledEventsSuccessful, &[], MetricOp::SetTo(2)),
            update(Metric::ScheduledEventsPending, &[], MetricOp::SetTo(0)),
        ]
    );
    assert_eq!(check_scheduled_events(Fetch::Failed), vec![error("scheduled")]);
    let req = create_scheduled_event_request();
    assert_eq!(req.args.len(), 4);
}

#[test]
fn event_triggers_are_labelled_by_database() {
    let results = vec![
        ok(vec![header(), SQLResultItem::IntStr(9, "e".to_string())]),
        ok(vec![header()]),
        ok(vec![header()]),
        ok(vec![header(), SQLResultItem::IntStr(7, "e".to_string())]),
    ];
    let r = process_database("main", Fetch::Responded { status: 200, body: Some(results) });
    assert_eq!(
        r,
        vec![
            update(Metric::EventTriggerProcessed, &["e", "main"], MetricOp::SetTo(9)),
            update(Metric::EventTriggerSuccessful, &["e", "main"], MetricOp::SetTo(7)),
        ]
    );
    assert_eq!(process_database("main", Fetch::Failed), vec![error("event")]);
}

#[test]
fn event_trigger_request_uses_source_and_kind() {
    let r = create_event_trigger_request("mssql_run_sql", "other");
    assert_eq!(r.request_type, "bulk");
    assert_eq!(r.args.len(), 4);
    assert_eq!(r.args[0].args.sql, EVENT_PROCESSED_SQL);
    assert_eq!(r.args[3].args.sql, EVENT_SUCCESSFUL_SQL);
    assert!(r.args.iter().all(|q| q.request_type == "mssql_run_sql" && q.args.source == "other"));
}

#[test]
fn databases_are_picked_by_engine() {
    assert_eq!(sql_type_for("postgres"), Some("run_sql".to_string()));
    assert_eq!(sql_type_for("mssql"), Some("mssql_run_sql".to_string()));
    assert_eq!(sql_type_for("bigquery"), None);
    let metadata = Metadata {
        sources: Some(vec![
            source(Some("a"), Some("postgres")),
            source(Some("b"), Some("bigquery")),
            source(None, Some("postgres")),
            source(Some("c"), Some("mssql")),
            source(Some("d"), None),
        ]),
    };
    let plan = check_event_triggers(&metadata);
    assert!(plan.updates.is_empty());
    let got: Vec<(String, String)> =
        plan.databases.iter().map(|d| (d.name.clone(), d.request_type.clone())).collect();
    assert_eq!(
        got,
        vec![
            ("a".to_string(), "run_sql".to_string()),
            ("c".to_string(), "mssql_run_sql".to_string()),
        ]
    );
}

#[test]
fn metadata_without_sources_is_counted() {
    let plan = check_event_triggers(&Metadata { sources: None });
    assert!(plan.databases.is_empty());
    assert_eq!(plan.updates, vec![error("event")]);
}

#[test]
fn inconsistent_metadata_scenario() {
    let (consistent, updates) = fetch_metadata_consistency(Fetch::Responded {
        status: 200,
        body: Some(MetadataCheckResponse { is_consistent: false }),
    });
    assert!(!consistent);
    assert_eq!(updates, vec![update(Metric::MetadataConsistency, &[], MetricOp::SetTo(0))]);
    let (metadata, updates) = check_metadata(Some(consistent), None);
    assert_eq!(updates, vec![error("metadata")]);
    assert_eq!(metadata.sources.as_ref().map(|s| s.len()), Some(0));
    let plan = check_event_triggers(&metadata);
    assert!(plan.databases.is_empty());
    assert!(plan.updates.is_empty());
}

#[test]
fn consistent_metadata_is_exported() {
    let (consistent, updates) = fetch_metadata_consistency(Fetch::Responded {
        status: 200,
        body: Some(MetadataCheckResponse { is_consistent: true }),
    });
    assert!(consistent);
    assert_eq!(updates, vec![update(Metric::MetadataConsistency, &[], MetricOp::SetTo(1))]);
    let exported = Metadata { sources: Some(vec![source(Some("a"), Some("postgres"))]) };
    let export = Fetch::Responded { status: 200, body: Some(exported) };
    let (metadata, updates) = check_metadata(Some(true), Some(export));
    assert!(updates.is_empty());
    assert_eq!(metadata.sources.unwrap()[0].name, Some("a".to_string()));
    let (metadata, updates) = check_metadata(Some(true), Some(Fetch::Failed));
    assert_eq!(updates, vec![error("metadata")]);
    assert!(metadata.sources.is_none());
    let (metadata, updates) = check_metadata(None, None);
    assert!(updates.is_empty());
    assert_eq!(metadata.sources.map(|s| s.len()), Some(0));
}

#[test]
fn consistency_failure_is_counted() {
    let (consistent, updates) = fetch_metadata_consistency(Fetch::Failed);
    assert!(!consistent);
    assert_eq!(updates, vec![error("metadata")]);
    let (metadata, updates) = fetch_metadata(Fetch::Responded { status: 403, body: None });
    assert!(metadata.sources.is_none());
    assert_eq!(updates, vec![error("metadata")]);
}

#[test]
fn version_resets_then_sets_one_label() {
    let r = fetch_version(Fetch::Responded {
        status: 200,
        body: Some(VersionResponse { version: "v2.40.0".to_string() }),
    });
    assert_eq!(
        r,
        vec![
            update(Metric::MetadataVersion, &[], MetricOp::Reset),
            update(Metric::MetadataVersion, &["v2.40.0"], MetricOp::SetTo(1)),
        ]
    );
    assert_eq!(fetch_version(Fetch::Failed), vec![error("version")]);
}

#[test]
fn metadata_requests_carry_their_type() {
    let r = MetadataCheckRequest::get_inconsistent_metadata();
    assert_eq!(r.request_type, "get_inconsistent_metadata");
    assert!(r.args.is_empty());
    let r = MetadataExportRequest::export_metadata();
    assert_eq!(r.request_type, "export_metadata");
    assert_eq!(r.version, 2);
    assert!(r.args.is_empty());
}

#[test]
fn health_timeout_sets_zero_and_counts() {
    assert_eq!(
        check_health(None),
        vec![update(Metric::HealthCheck, &[], MetricOp::SetTo(0)), error("health")]
    );
}

#[test]
fn health_status_sets_gauge() {
    assert_eq!(check_health(Some(200)), vec![update(Metric::HealthCheck, &[], MetricOp::SetTo(1))]);
    assert_eq!(check_health(Some(204)), vec![update(Metric::HealthCheck, &[], MetricOp::SetTo(1))]);
    assert_eq!(
        check_health(Some(503)),
        vec![update(Metric::HealthCheck, &[], MetricOp::SetTo(0)), error("health")]
    );
    assert_eq!(
        check_health(Some(500)),
        vec![update(Metric::HealthCheck, &[], MetricOp::SetTo(0)), error("health")]
    );
}
