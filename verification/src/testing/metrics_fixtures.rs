//! Metrics fixtures: pre-constructed metrics data for OTLP edge cases.
use vstd::prelude::*;
use crate::model::common::{
    attr, attrs1, attrs2, empty_scope, named_scope, resource_with, str_value, AnyValue,
    AnyValueModel, InstrumentationScope, KeyValue, Resource,
};
use crate::model::metrics::{
    int_point, metric_model, resource_metrics_model, scope_metrics_model, Metric, MetricData,
    MetricDataModel, MetricModel, MetricsData, NumberDataPoint, NumberDataPointModel, ResourceMetrics,
    ResourceMetricsModel, ScopeMetrics, Sum, AGGREGATION_TEMPORALITY_CUMULATIVE,
    AGGREGATION_TEMPORALITY_DELTA,
};

verus! {

/// Model of a monotonic cumulative sum metric named `name` over `points`.
pub open spec fn cumulative_counter(name: Seq<char>, points: Seq<NumberDataPointModel>) -> MetricModel {
    metric_model(
        name,
        MetricDataModel::Sum {
            data_points: points,
            aggregation_temporality: AGGREGATION_TEMPORALITY_CUMULATIVE,
            is_monotonic: true,
        },
    )
}

fn counter(name: &str, points: Vec<NumberDataPoint>) -> (r: Metric)
    ensures
        r@ == cumulative_counter(name@, points@.map_values(|p: NumberDataPoint| p@)),
{
    let sum = Sum::new(AGGREGATION_TEMPORALITY_CUMULATIVE, true, points);
    let r = Metric::new(name, MetricData::Sum(sum));
    assert(r@ =~~= cumulative_counter(name@, sum.data_points@.map_values(|p: NumberDataPoint| p@)));
    r
}

pub open spec fn metrics_sum_with_full_resource_and_scope_model() -> Seq<ResourceMetricsModel> {
    seq![resource_metrics_model(
        resource_with(Seq::empty()),
        seq![scope_metrics_model(
            named_scope("test-scope"@),
            seq![cumulative_counter("test.counter"@, seq![int_point(1000, 42), int_point(2000, 100)])],
        )],
    )]
}

/// Metrics with full resource, scope, and data points.
pub fn metrics_sum_with_full_resource_and_scope() -> (r: MetricsData)
    ensures
        r@ == metrics_sum_with_full_resource_and_scope_model(),
{
    let m = counter("test.counter", vec![NumberDataPoint::int_at(1000, 42), NumberDataPoint::int_at(2000, 100)]);
    let r = MetricsData::new(vec![ResourceMetrics::new(
        Resource::empty(),
        vec![ScopeMetrics::new(InstrumentationScope::named("test-scope"), vec![m])],
    )]);
    assert(r@ =~~= metrics_sum_with_full_resource_and_scope_model());
    r
}

pub open spec fn metrics_sum_with_no_resource_model() -> Seq<ResourceMetricsModel> {
    seq![resource_metrics_model(
        resource_with(Seq::empty()),
        seq![scope_metrics_model(
            named_scope("test-scope"@),
            seq![cumulative_counter("test.counter"@, seq![int_point(1000, 42)])],
        )],
    )]
}

/// Metrics with no resource.
pub fn metrics_sum_with_no_resource() -> (r: MetricsData)
    ensures
        r@ == metrics_sum_with_no_resource_model(),
{
    let m = counter("test.counter", vec![NumberDataPoint::int_at(1000, 42)]);
    let r = MetricsData::new(vec![ResourceMetrics::new(
        Resource::empty(),
        vec![ScopeMetrics::new(InstrumentationScope::named("test-scope"), vec![m])],
    )]);
    assert(r@ =~~= metrics_sum_with_no_resource_model());
    r
}

pub open spec fn metrics_sum_with_no_scope_model() -> Seq<ResourceMetricsModel> {
    seq![resource_metrics_model(
        resource_with(seq![attr("resource"@, str_value("value"@))]),
        seq![scope_metrics_model(
            empty_scope(),
            seq![cumulative_counter("test.counter"@, seq![int_point(1000, 42)])],
        )],
    )]
}

/// Metrics with no scope.
pub fn metrics_sum_with_no_scope() -> (r: MetricsData)
    ensures
        r@ == metrics_sum_with_no_scope_model(),
{
    let m = counter("test.counter", vec![NumberDataPoint::int_at(1000, 42)]);
    let r = MetricsData::new(vec![ResourceMetrics::new(
        Resource::with_attributes(attrs1(KeyValue::new("resource", AnyValue::new_string("value")))),
        vec![ScopeMetrics::new(InstrumentationScope::empty(), vec![m])],
    )]);
    assert(r@ =~~= metrics_sum_with_no_scope_model());
    r
}

pub open spec fn metrics_sum_with_no_resource_no_scope_model() -> Seq<ResourceMetricsModel> {
    seq![resource_metrics_model(
        resource_with(Seq::empty()),
        seq![scope_metrics_model(
            empty_scope(),
            seq![cumulative_counter(
                "test.counter"@,
                seq![NumberDataPointModel {
                    attributes: seq![attr("mk1"@, str_value("attr"@)), attr("mk2"@, AnyValueModel::Int(2))],
                    ..int_point(1000, 42)
                }],
            )],
        )],
    )]
}

/// Metrics with neither resource nor scope.
pub fn metrics_sum_with_no_resource_no_scope() -> (r: MetricsData)
    ensures
        r@ == metrics_sum_with_no_resource_no_scope_model(),
{
    let mut p = NumberDataPoint::int_at(1000, 42);
    p.attributes = attrs2(
        KeyValue::new("mk1", AnyValue::new_string("attr")),
        KeyValue::new("mk2", AnyValue::new_int(2)),
    );
    let m = counter("test.counter", vec![p]);
    let r = MetricsData::new(vec![ResourceMetrics::new(
        Resource::empty(),
        vec![ScopeMetrics::new(InstrumentationScope::empty(), vec![m])],
    )]);
    assert(r@ =~~= metrics_sum_with_no_resource_no_scope_model());
    r
}

pub open spec fn metrics_sum_with_no_data_points_model() -> Seq<ResourceMetricsModel> {
    seq![resource_metrics_model(
        resource_with(Seq::empty()),
        seq![scope_metrics_model(named_scope("test-scope"@), seq![cumulative_counter("test.counter"@, Seq::empty())])],
    )]
}

/// Sum metric with no data points.
pub fn metrics_sum_with_no_data_points() -> (r: MetricsData)
    ensures
        r@ == metrics_sum_with_no_data_points_model(),
{
    let m = counter("test.counter", Vec::new());
    let r = MetricsData::new(vec![ResourceMetrics::new(
        Resource::empty(),
        vec![ScopeMetrics::new(InstrumentationScope::named("test-scope"), vec![m])],
    )]);
    assert(r@ =~~= metrics_sum_with_no_data_points_model());
    r
}

/// Completely empty metrics data.
pub fn empty_metrics() -> (r: MetricsData)
    ensures
        r@ == Seq::<ResourceMetricsModel>::empty(),
{
    let r = MetricsData::new(Vec::new());
    assert(r@ =~~= Seq::<ResourceMetricsModel>::empty());
    r
}

pub open spec fn metrics_with_no_scope_metrics_model() -> Seq<ResourceMetricsModel> {
    seq![resource_metrics_model(resource_with(Seq::empty()), Seq::empty())]
}

/// Resource with no scope metrics.
pub fn metrics_with_no_scope_metrics() -> (r: MetricsData)
    ensures
        r@ == metrics_with_no_scope_metrics_model(),
{
    let r = MetricsData::new(vec![ResourceMetrics::new(Resource::empty(), Vec::new())]);
    assert(r@ =~~= metrics_with_no_scope_metrics_model());
    r
}

pub open spec fn metrics_with_no_metrics_model() -> Seq<ResourceMetricsModel> {
    seq![resource_metrics_model(
        resource_with(Seq::empty()),
        seq![scope_metrics_model(named_scope("scope"@), Seq::empty())],
    )]
}

/// Scope with no metrics.
pub fn metrics_with_no_metrics() -> (r: MetricsData)
    ensures
        r@ == metrics_with_no_metrics_model(),
{
    let r = MetricsData::new(vec![ResourceMetrics::new(
        Resource::empty(),
        vec![ScopeMetrics::new(InstrumentationScope::named("scope"), Vec::new())],
    )]);
    assert(r@ =~~= metrics_with_no_metrics_model());
    r
}

pub open spec fn metrics_multiple_sums_no_resource_model() -> Seq<ResourceMetricsModel> {
    seq![resource_metrics_model(
        resource_with(Seq::empty()),
        seq![scope_metrics_model(
            named_scope("scope"@),
            seq![
                cumulative_counter("test.counter1"@, seq![int_point(1000, 42)]),
                metric_model(
                    "test.counter2"@,
                    MetricDataModel::Sum {
                        data_points: seq![int_point(2000, 99)],
                        aggregation_temporality: AGGREGATION_TEMPORALITY_DELTA,
                        is_monotonic: false,
                    },
                ),
            ],
        )],
    )]
}

/// Multiple sum metrics with no resource.
pub fn metrics_multiple_sums_no_resource() -> (r: MetricsData)
    ensures
        r@ == metrics_multiple_sums_no_resource_model(),
{
    let m1 = counter("test.counter1", vec![NumberDataPoint::int_at(1000, 42)]);
    let delta = Sum::new(AGGREGATION_TEMPORALITY_DELTA, false, vec![NumberDataPoint::int_at(2000, 99)]);
    let m2 = Metric::new("test.counter2", MetricData::Sum(delta));
    let r = MetricsData::new(vec![ResourceMetrics::new(
        Resource::empty(),
        vec![ScopeMetrics::new(InstrumentationScope::named("scope"), vec![m1, m2])],
    )]);
    assert(r@ =~~= metrics_multiple_sums_no_resource_model());
    r
}

} // verus!
