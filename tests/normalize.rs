use hasura_metrics::fetch::Fetch;
use hasura_metrics::metric::{Metric, MetricOp, MetricUpdate};
use hasura_metrics::sql::{
    get_sql_entry_value, normalize_results, process_sql_result, SQLResult, SQLResultItem,
};
use hasura_metrics::text::parse_count;

fn set(metric: Metric, labels: &[&str], v: i64) -> MetricUpdate {
    MetricUpdate {
        metric,
        labels: labels.iter().map(|s| s.to_string()).collect(),
        op: MetricOp::SetTo(v),
    }
}

fn header() -> SQLResultItem {
    SQLResultItem::StrStr("count".to_string(), "trigger_name".to_string())
}

fn ok(rows: Vec<SQLResultItem>) -> SQLResult {
    SQLResult { result_type: "TuplesOk".to_string(), result: Some(rows) }
}

#[test]
fn text_count_parses_exactly() {
    let e = SQLResultItem::StrStr(" 42 ".to_string(), "t".to_string());
    assert_eq!(get_sql_entry_value(&e), (42, Some("t".to_string())));
    let e = SQLResultItem::StrStr("-7".to_string(), "t".to_string());
    assert_eq!(get_sql_entry_value(&e).0, -7);
    let e = SQLResultItem::StrStr("+9".to_string(), "t".to_string());
    assert_eq!(get_sql_entry_value(&e).0, 9);
}

#[test]
fn unparsable_text_count_is_zero() {
    let e = SQLResultItem::StrStr("abc".to_string(), "t".to_string());
    assert_eq!(get_sql_entry_value(&e), (0, Some("t".to_string())));
    assert_eq!(parse_count(""), 0);
    assert_eq!(parse_count("12x"), 0);
    assert_eq!(parse_count("99999999999999999999"), 0);
    assert_eq!(parse_count("9223372036854775807"), i64::MAX);
}

#[test]
fn unparsable_row_does_not_stop_siblings() {
    let q = ok(vec![
        header(),
        SQLResultItem::StrStr("bad".to_string(), "a".to_string()),
        SQLResultItem::StrStr("5".to_string(), "b".to_string()),
    ]);
    let r = process_sql_result(&q, Some(Metric::CronTriggerPending), None);
    assert_eq!(
        r,
        vec![
            set(Metric::CronTriggerPending, &["a"], 0),
            set(Metric::CronTriggerPending, &["b"], 5),
        ]
    );
}

#[test]
fn lone_counts_have_no_label() {
    let e = SQLResultItem::Str(vec!["  17".to_string()]);
    assert_eq!(get_sql_entry_value(&e), (17, None));
    let e = SQLResultItem::Int(vec![8]);
    assert_eq!(get_sql_entry_value(&e), (8, None));
    let e = SQLResultItem::Int(vec![8, 9]);
    assert_eq!(get_sql_entry_value(&e), (0, None));
    let e = SQLResultItem::Str(vec![]);
    assert_eq!(get_sql_entry_value(&e), (0, None));
}

#[test]
fn header_row_is_skipped() {
    let only_header = ok(vec![header()]);
    assert!(process_sql_result(&only_header, Some(Metric::CronTriggerFailed), None).is_empty());
    let empty = ok(vec![]);
    assert!(process_sql_result(&empty, Some(Metric::CronTriggerFailed), None).is_empty());
    let q = ok(vec![
        SQLResultItem::IntStr(100, "header".to_string()),
        SQLResultItem::IntStr(1, "x".to_string()),
    ]);
    assert_eq!(
        process_sql_result(&q, Some(Metric::CronTriggerFailed), None),
        vec![set(Metric::CronTriggerFailed, &["x"], 1)]
    );
}

#[test]
fn unlabelled_target_takes_the_scalar() {
    let q = ok(vec![
        SQLResultItem::Str(vec!["count".to_string()]),
        SQLResultItem::Str(vec!["12".to_string()]),
    ]);
    assert_eq!(
        process_sql_result(&q, Some(Metric::ScheduledEventsPending), None),
        vec![set(Metric::ScheduledEventsPending, &[], 12)]
    );
}

#[test]
fn labelled_row_without_label_uses_empty_label() {
    let q = ok(vec![header(), SQLResultItem::Int(vec![4])]);
    assert_eq!(
        process_sql_result(&q, Some(Metric::EventTriggerFailed), Some("db1")),
        vec![set(Metric::EventTriggerFailed, &["", "db1"], 4)]
    );
}

#[test]
fn failed_answer_gives_nothing() {
    let q = SQLResult {
        result_type: "CommandOk".to_string(),
        result: Some(vec![header(), SQLResultItem::IntStr(1, "x".to_string())]),
    };
    assert!(process_sql_result(&q, Some(Metric::CronTriggerFailed), None).is_empty());
    let q = SQLResult { result_type: "TuplesOk".to_string(), result: None };
    assert!(process_sql_result(&q, Some(Metric::CronTriggerFailed), None).is_empty());
    let q = SQLResult {
        result_type: "TuplesOK".to_string(),
        result: Some(vec![header(), SQLResultItem::IntStr(1, "x".to_string())]),
    };
    assert!(process_sql_result(&q, Some(Metric::CronTriggerFailed), None).is_empty());
}

#[test]
fn positions_beyond_targets_give_nothing() {
    let results = vec![
        ok(vec![header(), SQLResultItem::IntStr(1, "a".to_string())]),
        ok(vec![header(), SQLResultItem::IntStr(2, "b".to_string())]),
        ok(vec![header(), SQLResultItem::IntStr(3, "c".to_string())]),
    ];
    let targets = vec![Metric::CronTriggerFailed];
    assert_eq!(
        normalize_results(&results, &targets, None),
        vec![set(Metric::CronTriggerFailed, &["a"], 1)]
    );
    assert!(process_sql_result(&results[2], None, None).is_empty());
    assert!(normalize_results(&results, &vec![], None).is_empty());
}

#[test]
fn normalizing_twice_gives_the_same_updates() {
    let results = vec![
        ok(vec![header(), SQLResultItem::StrStr("3".to_string(), "a".to_string())]),
        ok(vec![header(), SQLResultItem::IntStr(2, "b".to_string())]),
    ];
    let targets = vec![Metric::CronTriggerFailed, Metric::CronTriggerSuccessful];
    let first = normalize_results(&results, &targets, Some("db"));
    let second = normalize_results(&results, &targets, Some("db"));
    assert_eq!(first, second);
    assert_eq!(
        first,
        vec![
            set(Metric::CronTriggerFailed, &["a", "db"], 3),
            set(Metric::CronTriggerSuccessful, &["b", "db"], 2),
        ]
    );
}

#[test]
fn fetch_is_only_usable_on_success() {
    let f: Fetch<u8> = Fetch::Responded { status: 204, body: Some(1) };
    assert_eq!(hasura_metrics::fetch::into_body(f), Some(1));
    let f: Fetch<u8> = Fetch::Responded { status: 500, body: Some(1) };
    assert_eq!(hasura_metrics::fetch::into_body(f), None);
    let f: Fetch<u8> = Fetch::Responded { status: 200, body: None };
    assert_eq!(hasura_metrics::fetch::into_body(f), None);
    let f: Fetch<u8> = Fetch::Failed;
    assert_eq!(hasura_metrics::fetch::into_body(f), None);
}
