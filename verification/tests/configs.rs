use otap_df_pdata::testing::config::{LogsConfig, MetricsConfig, TracesConfig};

#[test]
fn metrics_config_defaults_and_setters() {
    let c = MetricsConfig::new();
    assert!(c.gauge_points.is_empty() && c.sum_points.is_empty());
    assert!(c.histogram_points.is_empty() && c.summary_points.is_empty());
    assert!(!c.vary_attributes);
    assert_eq!((c.num_resources, c.scopes_per_resource), (1, 1));
    assert_eq!((c.resource_attrs, c.scope_attrs, c.metric_attrs), (0, 0, 0));
    assert_eq!(c.total_points(), 0);
    assert_eq!(c.metric_count(), 0);
    let c = MetricsConfig::default()
        .with_gauges(vec![1, 2])
        .with_sums(vec![3])
        .with_histograms(vec![4, 5, 6])
        .with_summaries(vec![])
        .with_varying_attributes(true)
        .with_resources(7)
        .with_scopes_per_resource(8)
        .with_resource_attrs(9)
        .with_scope_attrs(10)
        .with_metric_attrs(11);
    assert_eq!(c.total_points(), 21);
    assert_eq!(c.metric_count(), 6);
    assert!(c.vary_attributes);
    assert_eq!((c.num_resources, c.scopes_per_resource), (7, 8));
    assert_eq!((c.resource_attrs, c.scope_attrs, c.metric_attrs), (9, 10, 11));
}

#[test]
fn logs_and_traces_config_setters() {
    let l = LogsConfig::new(5);
    assert_eq!((l.logs_per_scope, l.num_resources, l.scopes_per_resource), (5, 1, 1));
    assert_eq!((l.resource_attrs, l.scope_attrs, l.log_attrs), (0, 0, 0));
    let l = l.with_resources(2).with_scopes_per_resource(3).with_resource_attrs(4).with_scope_attrs(5).with_log_attrs(6);
    assert_eq!((l.num_resources, l.scopes_per_resource, l.resource_attrs, l.scope_attrs, l.log_attrs), (2, 3, 4, 5, 6));
    let t = TracesConfig::new(9);
    assert_eq!((t.spans_per_scope, t.num_resources, t.scopes_per_resource), (9, 1, 1));
    let t = t.with_resources(2).with_scopes_per_resource(3).with_resource_attrs(4).with_scope_attrs(5).with_span_attrs(6);
    assert_eq!((t.num_resources, t.scopes_per_resource, t.resource_attrs, t.scope_attrs, t.span_attrs), (2, 3, 4, 5, 6));
}
