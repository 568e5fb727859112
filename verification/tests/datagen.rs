use otap_df_pdata::model::common::{AnyValue, Value};
use otap_df_pdata::model::logs::LogsData;
use otap_df_pdata::model::metrics::{MetricData, MetricsData, NumberValue};
use otap_df_pdata::model::traces::TracesData;
use otap_df_pdata::testing::config::{LogsConfig, MetricsConfig, TracesConfig};
use otap_df_pdata::testing::generator::{DataGenerator, START_TIME, TIME_STEP};

fn log_rows(data: &LogsData) -> (usize, usize, usize, usize) {
    let mut logs = 0;
    let mut resource_attrs = 0;
    let mut scope_attrs = 0;
    let mut log_attrs = 0;
    for rl in &data.resource_logs {
        resource_attrs += rl.resource.as_ref().map_or(0, |r| r.attributes.len());
        for sl in &rl.scope_logs {
            scope_attrs += sl.scope.as_ref().map_or(0, |s| s.attributes.len());
            for l in &sl.log_records {
                logs += 1;
                log_attrs += l.attributes.len();
            }
        }
    }
    (logs, resource_attrs, scope_attrs, log_attrs)
}

fn span_rows(data: &TracesData) -> (usize, usize, usize, usize) {
    let mut spans = 0;
    let mut resource_attrs = 0;
    let mut scope_attrs = 0;
    let mut span_attrs = 0;
    for rs in &data.resource_spans {
        resource_attrs += rs.resource.as_ref().map_or(0, |r| r.attributes.len());
        for ss in &rs.scope_spans {
            scope_attrs += ss.scope.as_ref().map_or(0, |s| s.attributes.len());
            for s in &ss.spans {
                spans += 1;
                span_attrs += s.attributes.len();
            }
        }
    }
    (spans, resource_attrs, scope_attrs, span_attrs)
}

/// (metrics, number points, histogram points, summary points)
fn metric_rows(data: &MetricsData) -> (usize, usize, usize, usize) {
    let mut metrics = 0;
    let mut number = 0;
    let mut histogram = 0;
    let mut summary = 0;
    for rm in &data.resource_metrics {
        for sm in &rm.scope_metrics {
            for m in &sm.metrics {
                metrics += 1;
                match &m.data {
                    Some(MetricData::Gauge(g)) => number += g.data_points.len(),
                    Some(MetricData::Sum(s)) => number += s.data_points.len(),
                    Some(MetricData::Histogram(h)) => histogram += h.data_points.len(),
                    Some(MetricData::Summary(s)) => summary += s.data_points.len(),
                    None => {}
                }
            }
        }
    }
    (metrics, number, histogram, summary)
}

#[test]
fn test_logs_from_config_row_counts() {
    let num_resources = 3;
    let scopes_per_resource = 2;
    let logs_per_scope = 50;
    let resource_attrs = 3;
    let scope_attrs = 2;
    let log_attrs = 4;

    let mut datagen = DataGenerator::with_logs_config(
        LogsConfig::new(logs_per_scope)
            .with_resources(num_resources)
            .with_scopes_per_resource(scopes_per_resource)
            .with_resource_attrs(resource_attrs)
            .with_scope_attrs(scope_attrs)
            .with_log_attrs(log_attrs),
    );

    let data = datagen.generate_logs_from_config();
    let (logs, res_attrs, scp_attrs, lg_attrs) = log_rows(&data);

    let expected_logs = num_resources * scopes_per_resource * logs_per_scope;
    let expected_scopes = num_resources * scopes_per_resource;

    assert_eq!(logs, expected_logs);
    assert_eq!(res_attrs, num_resources * resource_attrs);
    assert_eq!(scp_attrs, expected_scopes * scope_attrs);
    assert_eq!(lg_attrs, expected_logs * log_attrs);
}

#[test]
fn test_traces_from_config_row_counts() {
    let num_resources = 2;
    let scopes_per_resource = 3;
    let spans_per_scope = 40;
    let resource_attrs = 2;
    let scope_attrs = 3;
    let span_attrs = 5;

    let mut datagen = DataGenerator::with_traces_config(
        TracesConfig::new(spans_per_scope)
            .with_resources(num_resources)
            .with_scopes_per_resource(scopes_per_resource)
            .with_resource_attrs(resource_attrs)
            .with_scope_attrs(scope_attrs)
            .with_span_attrs(span_attrs),
    );

    let data = datagen.generate_traces_from_config();
    let (spans, res_attrs, scp_attrs, sp_attrs) = span_rows(&data);

    let expected_spans = num_resources * scopes_per_resource * spans_per_scope;
    let expected_scopes = num_resources * scopes_per_resource;

    assert_eq!(spans, expected_spans);
    assert_eq!(res_attrs, num_resources * resource_attrs);
    assert_eq!(scp_attrs, expected_scopes * scope_attrs);
    assert_eq!(sp_attrs, expected_spans * span_attrs);
}

#[test]
fn test_metrics_from_config_row_counts() {
    let num_resources = 2;
    let scopes_per_resource = 2;
    let resource_attrs = 2;
    let scope_attrs = 3;
    let gauge_points = vec![10, 20];
    let sum_points = vec![15];
    let histogram_points = vec![5];
    let summary_points = vec![8];

    let config = MetricsConfig::new()
        .with_gauges(gauge_points.clone())
        .with_sums(sum_points.clone())
        .with_histograms(histogram_points.clone())
        .with_summaries(summary_points.clone())
        .with_resources(num_resources)
        .with_scopes_per_resource(scopes_per_resource)
        .with_resource_attrs(resource_attrs)
        .with_scope_attrs(scope_attrs);

    let total_metrics =
        gauge_points.len() + sum_points.len() + histogram_points.len() + summary_points.len();
    let total_number_points: usize =
        gauge_points.iter().sum::<usize>() + sum_points.iter().sum::<usize>();
    let total_histogram_points: usize = histogram_points.iter().sum();
    let total_summary_points: usize = summary_points.iter().sum();

    assert_eq!(
        config.total_points(),
        total_number_points + total_histogram_points + total_summary_points,
    );

    let mut datagen = DataGenerator::with_metrics_config(config);
    let data = datagen.generate_metrics_from_config();
    let (metrics, number, histogram, summary) = metric_rows(&data);

    let total_scopes = num_resources * scopes_per_resource;

    // Each scope gets the full set of metrics.
    assert_eq!(metrics, total_scopes * total_metrics);
    assert_eq!(number, total_scopes * total_number_points);
    assert_eq!(histogram, total_scopes * total_histogram_points);
    assert_eq!(summary, total_scopes * total_summary_points);
}

fn string_value(v: &Option<AnyValue>) -> Option<&str> {
    match v.as_ref().and_then(|v| v.value.as_ref()) {
        Some(Value::StringValue(s)) => Some(s.as_str()),
        _ => None,
    }
}

#[test]
fn generated_attributes_are_numbered_by_prefix() {
    let mut datagen = DataGenerator::with_logs_config(
        LogsConfig::new(1).with_resource_attrs(3).with_scope_attrs(2).with_log_attrs(12),
    );
    let data = datagen.generate_logs_from_config();
    let resource = data.resource_logs[0].resource.as_ref().unwrap();
    let keys: Vec<&str> = resource.attributes.iter().map(|kv| kv.key.as_str()).collect();
    assert_eq!(keys, vec!["resource.attr_0", "resource.attr_1", "resource.attr_2"]);
    assert_eq!(string_value(&resource.attributes[2].value), Some("value_2"));
    let scope = data.resource_logs[0].scope_logs[0].scope.as_ref().unwrap();
    assert_eq!(scope.name, "scope_0");
    assert_eq!(scope.attributes[1].key, "scope.attr_1");
    let log = &data.resource_logs[0].scope_logs[0].log_records[0];
    assert_eq!(log.attributes[11].key, "log.attr_11");
    assert_eq!(string_value(&log.attributes[11].value), Some("value_11"));
}

#[test]
fn config_logs_take_two_fresh_timestamps_each() {
    let mut datagen = DataGenerator::with_logs_config(
        LogsConfig::new(3).with_resources(2).with_scopes_per_resource(2),
    );
    let data = datagen.generate_logs_from_config();
    let mut expected = START_TIME;
    for rl in &data.resource_logs {
        for (s, sl) in rl.scope_logs.iter().enumerate() {
            assert_eq!(sl.scope.as_ref().unwrap().name, format!("scope_{s}"));
            for l in &sl.log_records {
                assert_eq!(l.time_unix_nano, expected);
                assert_eq!(l.observed_time_unix_nano, expected + TIME_STEP);
                assert_eq!(l.severity_number, 9);
                expected += 2 * TIME_STEP;
            }
        }
    }
    assert_eq!(expected, START_TIME + 24 * TIME_STEP);
}

#[test]
fn config_spans_are_numbered_in_build_order() {
    let mut datagen = DataGenerator::with_traces_config(
        TracesConfig::new(2).with_resources(2).with_scopes_per_resource(2).with_span_attrs(1),
    );
    let data = datagen.generate_traces_from_config();
    let mut counter: u64 = 0;
    for rs in &data.resource_spans {
        for ss in &rs.scope_spans {
            for s in &ss.spans {
                counter += 1;
                assert_eq!(s.trace_id, vec![0u8; 16]);
                assert_eq!(s.span_id, counter.to_be_bytes().to_vec());
                assert_eq!(s.name, format!("span_{counter}"));
                assert_eq!(s.start_time_unix_nano, START_TIME + 2 * (counter - 1) * TIME_STEP);
                assert_eq!(s.end_time_unix_nano, START_TIME + (2 * counter - 1) * TIME_STEP);
                let status = s.status.as_ref().unwrap();
                assert_eq!((status.code, status.message.as_str()), (1, "ok"));
                assert_eq!(s.attributes[0].key, "span.attr_0");
            }
        }
    }
    assert_eq!(counter, 8);
}

#[test]
fn config_metrics_values_and_names() {
    let config = MetricsConfig::new()
        .with_gauges(vec![2])
        .with_sums(vec![1])
        .with_histograms(vec![1])
        .with_summaries(vec![2])
        .with_varying_attributes(true)
        .with_metric_attrs(1);
    assert_eq!(config.metric_count(), 4);
    let mut datagen = DataGenerator::with_metrics_config(config);
    let data = datagen.generate_metrics_from_config();
    let metrics = &data.resource_metrics[0].scope_metrics[0].metrics;
    let names: Vec<&str> = metrics.iter().map(|m| m.name.as_str()).collect();
    assert_eq!(names, vec!["gauge_0", "sum_0", "histogram_0", "summary_0"]);
    assert_eq!(metrics[2].description, "Histogram metric 0");
    assert_eq!(metrics[3].unit, "ms");
    assert_eq!(metrics[0].metadata[0].key, "metric.attr_0");
    match &metrics[0].data {
        Some(MetricData::Gauge(g)) => {
            assert_eq!(g.data_points[1].value, Some(NumberValue::AsDouble(20.0f64.to_bits())));
            assert_eq!(g.data_points[1].time_unix_nano, START_TIME + TIME_STEP);
            assert_eq!(g.data_points[1].attributes[0].key, "point_id");
        }
        _ => panic!("gauge expected"),
    }
    match &metrics[1].data {
        Some(MetricData::Sum(s)) => {
            assert_eq!(s.aggregation_temporality, 2);
            assert!(s.is_monotonic);
            assert_eq!(s.data_points[0].time_unix_nano, START_TIME + 2 * TIME_STEP);
            assert_eq!(s.data_points[0].value, Some(NumberValue::AsDouble(10.0f64.to_bits())));
        }
        _ => panic!("sum expected"),
    }
    match &metrics[2].data {
        Some(MetricData::Histogram(h)) => {
            let p = &h.data_points[0];
            assert_eq!(h.aggregation_temporality, 1);
            assert_eq!(p.count, 10);
            assert_eq!(p.sum, Some(100.0f64.to_bits()));
            assert_eq!(p.bucket_counts, vec![1, 2, 3, 4]);
            let bounds: Vec<u64> = [0.0f64, 10.0, 50.0, 100.0].iter().map(|b| b.to_bits()).collect();
            assert_eq!(p.explicit_bounds, bounds);
        }
        _ => panic!("histogram expected"),
    }
    match &metrics[3].data {
        Some(MetricData::Summary(s)) => {
            let p = &s.data_points[1];
            assert_eq!(p.count, 21);
            assert_eq!(p.sum, 220.0f64.to_bits());
            assert_eq!(p.quantile_values[0].quantile, 0.5f64.to_bits());
            assert_eq!(p.quantile_values[0].value, 51.0f64.to_bits());
            assert_eq!(p.quantile_values[1].quantile, 0.95f64.to_bits());
            assert_eq!(p.quantile_values[1].value, 96.0f64.to_bits());
            assert_eq!(p.time_unix_nano, START_TIME + 5 * TIME_STEP);
        }
        _ => panic!("summary expected"),
    }
}

#[test]
fn fixed_shape_logs_and_traces() {
    let mut datagen = DataGenerator::new(0);
    let logs = datagen.generate_logs();
    assert_eq!(logs.resource_logs.len(), 2);
    assert_eq!(logs.resource_logs[0].scope_logs[1].scope.as_ref().unwrap().name, "scope2");
    let l = &logs.resource_logs[0].scope_logs[1].log_records[0];
    assert_eq!((l.time_unix_nano, l.observed_time_unix_nano, l.severity_number),
        (START_TIME + 2 * TIME_STEP, START_TIME + 3 * TIME_STEP, 17));
    let traces = datagen.generate_traces();
    let spans = &traces.resource_spans[0].scope_spans[0].spans;
    assert_eq!(spans.len(), 3);
    assert_eq!(spans[2].span_id, vec![3u8; 8]);
    assert_eq!(spans[2].name, "span2");
    assert_eq!(spans[0].start_time_unix_nano, START_TIME + 6 * TIME_STEP);
}

#[test]
fn fixed_shape_metrics_draw_from_the_budget() {
    let mut datagen = DataGenerator::new(4);
    let data = datagen.generate_metrics();
    let metrics = &data.resource_metrics[0].scope_metrics[0].metrics;
    let counts: Vec<usize> = metrics
        .iter()
        .map(|m| match &m.data {
            Some(MetricData::Gauge(g)) => g.data_points.len(),
            Some(MetricData::Sum(s)) => s.data_points.len(),
            _ => usize::MAX,
        })
        .collect();
    assert_eq!(counts, vec![3, 1, 0]);
    assert_eq!(metrics[1].unit, "By");
    match &metrics[0].data {
        Some(MetricData::Gauge(g)) => {
            assert_eq!(g.data_points[2].value, Some(NumberValue::AsDouble(20.0f64.to_bits())));
            assert_eq!(g.data_points[0].value, Some(NumberValue::AsDouble(0.0f64.to_bits())));
        }
        _ => panic!("gauge expected"),
    }
    // the budget is spent: the next call draws nothing
    let again = datagen.generate_metrics();
    let m = &again.resource_metrics[0].scope_metrics[0].metrics[0];
    match &m.data {
        Some(MetricData::Gauge(g)) => assert!(g.data_points.is_empty()),
        _ => panic!("gauge expected"),
    }
}

#[test]
fn every_scope_gets_the_same_metrics() {
    let config = MetricsConfig::new()
        .with_gauges(vec![2])
        .with_summaries(vec![1])
        .with_resources(2)
        .with_scopes_per_resource(2)
        .with_scope_attrs(1)
        .with_resource_attrs(2);
    let mut datagen = DataGenerator::with_metrics_config(config);
    let data = datagen.generate_metrics_from_config();
    let first = &data.resource_metrics[0].scope_metrics[0].metrics;
    for rm in &data.resource_metrics {
        assert_eq!(rm.resource.as_ref().unwrap().attributes.len(), 2);
        for (s, sm) in rm.scope_metrics.iter().enumerate() {
            assert_eq!(sm.scope.as_ref().unwrap().name, format!("scope_{s}"));
            assert_eq!(&sm.metrics, first);
        }
    }
}
