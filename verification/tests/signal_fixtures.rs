use otap_df_pdata::model::metrics::{MetricData, NumberValue};
use otap_df_pdata::testing::logs_fixtures::{
    empty_logs, logs_multiple_resources_mixed_content, logs_with_full_resource_and_scope,
    logs_with_varying_attributes_and_properties, BASE_TIME, ONE_SEC,
};
use otap_df_pdata::testing::metrics_fixtures::{
    empty_metrics, metrics_multiple_sums_no_resource, metrics_sum_with_full_resource_and_scope,
    metrics_sum_with_no_resource_no_scope, metrics_with_no_metrics, metrics_with_no_scope_metrics,
};
use otap_df_pdata::testing::traces_fixtures::{empty_traces, traces_with_full_resource_and_scope};

#[test]
fn logs_fixture_shapes() {
    let l = logs_with_full_resource_and_scope();
    assert_eq!(l.resource_logs.len(), 1);
    let scopes = &l.resource_logs[0].scope_logs;
    assert_eq!(scopes.len(), 2);
    assert_eq!(scopes[0].scope.as_ref().unwrap().name, "scope-alpha");
    assert_eq!(scopes[1].log_records[0].severity_text, "HOTHOT");
    assert_eq!(scopes[1].log_records[1].time_unix_nano, BASE_TIME + 3 * ONE_SEC);
    assert!(empty_logs().resource_logs.is_empty());
    assert_eq!(logs_multiple_resources_mixed_content().resource_logs.len(), 2);
}

#[test]
fn varying_logs_cycle_severities() {
    let l = logs_with_varying_attributes_and_properties(8);
    let records = &l.resource_logs[0].scope_logs[0].log_records;
    assert_eq!(records.len(), 8);
    let sev: Vec<i32> = records.iter().map(|r| r.severity_number).collect();
    assert_eq!(sev, vec![5, 9, 13, 17, 5, 9, 13, 17]);
    let text: Vec<&str> = records.iter().map(|r| r.severity_text.as_str()).collect();
    assert_eq!(text, vec!["DEBUG", "INFO", "WARN", "ERROR", "DEBUG", "INFO", "WARN", "ERROR"]);
}

#[test]
fn traces_fixture_shapes() {
    let t = traces_with_full_resource_and_scope();
    let spans = &t.resource_spans[0].scope_spans[0].spans;
    assert_eq!(spans.len(), 2);
    assert_eq!(spans[0].trace_id, vec![1u8; 16]);
    assert_eq!(spans[1].span_id, vec![2u8; 8]);
    assert!(empty_traces().resource_spans.is_empty());
}

#[test]
fn metrics_fixture_shapes() {
    let m = metrics_sum_with_full_resource_and_scope();
    let metric = &m.resource_metrics[0].scope_metrics[0].metrics[0];
    assert_eq!(metric.name, "test.counter");
    match &metric.data {
        Some(MetricData::Sum(s)) => {
            assert_eq!(s.aggregation_temporality, 2);
            assert!(s.is_monotonic);
            let values: Vec<_> = s.data_points.iter().map(|p| (p.time_unix_nano, p.value)).collect();
            assert_eq!(values, vec![(1000, Some(NumberValue::AsInt(42))), (2000, Some(NumberValue::AsInt(100)))]);
        }
        _ => panic!("sum expected"),
    }
    let m = metrics_multiple_sums_no_resource();
    let second = &m.resource_metrics[0].scope_metrics[0].metrics[1];
    match &second.data {
        Some(MetricData::Sum(s)) => assert_eq!((s.aggregation_temporality, s.is_monotonic), (1, false)),
        _ => panic!("sum expected"),
    }
    let m = metrics_sum_with_no_resource_no_scope();
    let p = match &m.resource_metrics[0].scope_metrics[0].metrics[0].data {
        Some(MetricData::Sum(s)) => &s.data_points[0],
        _ => panic!("sum expected"),
    };
    assert_eq!(p.attributes[1].key, "mk2");
    assert!(empty_metrics().resource_metrics.is_empty());
    assert!(metrics_with_no_scope_metrics().resource_metrics[0].scope_metrics.is_empty());
    assert!(metrics_with_no_metrics().resource_metrics[0].scope_metrics[0].metrics.is_empty());
}
