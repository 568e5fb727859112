//! OTLP metrics messages and their models. Floating-point quantities are
//! held as IEEE-754 binary64 bit patterns.
use vstd::prelude::*;
use crate::model::common::{
    copy_key_values, copy_string, key_values_model, opt_resource_model, opt_scope_model, InstrumentationScope, KeyValue,
    KeyValueModel, Resource, ResourceModel, ScopeModel,
};

verus! {

/// `AggregationTemporality` values.
pub const AGGREGATION_TEMPORALITY_UNSPECIFIED: i32 = 0;
pub const AGGREGATION_TEMPORALITY_DELTA: i32 = 1;
pub const AGGREGATION_TEMPORALITY_CUMULATIVE: i32 = 2;

/// The value of a number data point.
#[derive(Debug, Clone, Copy, PartialEq, Eq)]
pub enum NumberValue {
    /// IEEE-754 binary64 bit pattern of the double value.
    AsDouble(u64),
    AsInt(i64),
}

/// A data point of a gauge or a sum.
#[derive(Debug, PartialEq)]
pub struct NumberDataPoint {
    pub attributes: Vec<KeyValue>,
    pub start_time_unix_nano: u64,
    pub time_unix_nano: u64,
    pub value: Option<NumberValue>,
    pub flags: u32,
}

/// A data point of a histogram.
#[derive(Debug, PartialEq)]
pub struct HistogramDataPoint {
    pub attributes: Vec<KeyValue>,
    pub start_time_unix_nano: u64,
    pub time_unix_nano: u64,
    pub count: u64,
    /// IEEE-754 binary64 bit pattern of the sum, when present.
    pub sum: Option<u64>,
    pub bucket_counts: Vec<u64>,
    /// IEEE-754 binary64 bit patterns of the bucket bounds.
    pub explicit_bounds: Vec<u64>,
    pub flags: u32,
    pub min: Option<u64>,
    pub max: Option<u64>,
}

/// A quantile of a summary data point (both as IEEE-754 bit patterns).
#[derive(Debug, Clone, Copy, PartialEq, Eq)]
pub struct ValueAtQuantile {
    pub quantile: u64,
    pub value: u64,
}

/// A data point of a summary.
#[derive(Debug, PartialEq)]
pub struct SummaryDataPoint {
    pub attributes: Vec<KeyValue>,
    pub start_time_unix_nano: u64,
    pub time_unix_nano: u64,
    pub count: u64,
    /// IEEE-754 binary64 bit pattern of the sum.
    pub sum: u64,
    pub quantile_values: Vec<ValueAtQuantile>,
    pub flags: u32,
}

/// A gauge.
#[derive(Debug, PartialEq)]
pub struct Gauge {
    pub data_points: Vec<NumberDataPoint>,
}

/// A sum.
#[derive(Debug, PartialEq)]
pub struct Sum {
    pub data_points: Vec<NumberDataPoint>,
    pub aggregation_temporality: i32,
    pub is_monotonic: bool,
}

/// A histogram.
#[derive(Debug, PartialEq)]
pub struct Histogram {
    pub data_points: Vec<HistogramDataPoint>,
    pub aggregation_temporality: i32,
}

/// A summary.
#[derive(Debug, PartialEq)]
pub struct Summary {
    pub data_points: Vec<SummaryDataPoint>,
}

/// The data of a metric.
#[derive(Debug, PartialEq)]
pub enum MetricData {
    Gauge(Gauge),
    Sum(Sum),
    Histogram(Histogram),
    Summary(Summary),
}

/// A metric.
#[derive(Debug, PartialEq)]
pub struct Metric {
    pub name: String,
    pub description: String,
    pub unit: String,
    pub metadata: Vec<KeyValue>,
    pub data: Option<MetricData>,
}

/// The metrics produced by one instrumentation scope.
#[derive(Debug, PartialEq)]
pub struct ScopeMetrics {
    pub scope: Option<InstrumentationScope>,
    pub metrics: Vec<Metric>,
    pub schema_url: String,
}

/// The metrics produced by one resource.
#[derive(Debug, PartialEq)]
pub struct ResourceMetrics {
    pub resource: Option<Resource>,
    pub scope_metrics: Vec<ScopeMetrics>,
    pub schema_url: String,
}

/// A collection of metrics grouped by resource and scope.
#[derive(Debug, PartialEq)]
pub struct MetricsData {
    pub resource_metrics: Vec<ResourceMetrics>,
}

/// Model of a [`NumberDataPoint`].
#[verifier::ext_equal]
pub struct NumberDataPointModel {
    pub attributes: Seq<KeyValueModel>,
    pub start_time_unix_nano: u64,
    pub time_unix_nano: u64,
    pub value: Option<NumberValue>,
    pub flags: u32,
}

/// Model of a [`HistogramDataPoint`].
#[verifier::ext_equal]
pub struct HistogramDataPointModel {
    pub attributes: Seq<KeyValueModel>,
    pub start_time_unix_nano: u64,
    pub time_unix_nano: u64,
    pub count: u64,
    pub sum: Option<u64>,
    pub bucket_counts: Seq<u64>,
    pub explicit_bounds: Seq<u64>,
    pub flags: u32,
    pub min: Option<u64>,
    pub max: Option<u64>,
}

/// Model of a [`SummaryDataPoint`].
#[verifier::ext_equal]
pub struct SummaryDataPointModel {
    pub attributes: Seq<KeyValueModel>,
    pub start_time_unix_nano: u64,
    pub time_unix_nano: u64,
    pub count: u64,
    pub sum: u64,
    pub quantile_values: Seq<ValueAtQuantile>,
    pub flags: u32,
}

/// Model of a [`MetricData`].
#[verifier::ext_equal]
#[allow(inconsistent_fields)]
pub enum MetricDataModel {
    Gauge { data_points: Seq<NumberDataPointModel> },
    Sum {
        data_points: Seq<NumberDataPointModel>,
        aggregation_temporality: i32,
        is_monotonic: bool,
    },
    Histogram { data_points: Seq<HistogramDataPointModel>, aggregation_temporality: i32 },
    Summary { data_points: Seq<SummaryDataPointModel> },
}

/// Model of a [`Metric`].
#[verifier::ext_equal]
pub struct MetricModel {
    pub name: Seq<char>,
    pub description: Seq<char>,
    pub unit: Seq<char>,
    pub metadata: Seq<KeyValueModel>,
    pub data: Option<MetricDataModel>,
}

/// Model of a [`ScopeMetrics`].
#[verifier::ext_equal]
pub struct ScopeMetricsModel {
    pub scope: Option<ScopeModel>,
    pub metrics: Seq<MetricModel>,
    pub schema_url: Seq<char>,
}

/// Model of a [`ResourceMetrics`].
#[verifier::ext_equal]
pub struct ResourceMetricsModel {
    pub resource: Option<ResourceModel>,
    pub scope_metrics: Seq<ScopeMetricsModel>,
    pub schema_url: Seq<char>,
}

impl View for NumberDataPoint {
    type V = NumberDataPointModel;

    open spec fn view(&self) -> NumberDataPointModel {
        NumberDataPointModel {
            attributes: key_values_model(self.attributes@),
            start_time_unix_nano: self.start_time_unix_nano,
            time_unix_nano: self.time_unix_nano,
            value: self.value,
            flags: self.flags,
        }
    }
}

impl View for HistogramDataPoint {
    type V = HistogramDataPointModel;

    open spec fn view(&self) -> HistogramDataPointModel {
        HistogramDataPointModel {
            attributes: key_values_model(self.attributes@),
            start_time_unix_nano: self.start_time_unix_nano,
            time_unix_nano: self.time_unix_nano,
            count: self.count,
            sum: self.sum,
            bucket_counts: self.bucket_counts@,
            explicit_bounds: self.explicit_bounds@,
            flags: self.flags,
            min: self.min,
            max: self.max,
        }
    }
}

impl View for SummaryDataPoint {
    type V = SummaryDataPointModel;

    open spec fn view(&self) -> SummaryDataPointModel {
        SummaryDataPointModel {
            attributes: key_values_model(self.attributes@),
            start_time_unix_nano: self.start_time_unix_nano,
            time_unix_nano: self.time_unix_nano,
            count: self.count,
            sum: self.sum,
            quantile_values: self.quantile_values@,
            flags: self.flags,
        }
    }
}

/// The models of a sequence of number data points.
pub open spec fn number_points_model(s: Seq<NumberDataPoint>) -> Seq<NumberDataPointModel> {
    s.map_values(|p: NumberDataPoint| p@)
}

impl View for MetricData {
    type V = MetricDataModel;

    open spec fn view(&self) -> MetricDataModel {
        match self {
            MetricData::Gauge(g) => MetricDataModel::Gauge {
                data_points: number_points_model(g.data_points@),
            },
            MetricData::Sum(s) => MetricDataModel::Sum {
                data_points: number_points_model(s.data_points@),
                aggregation_temporality: s.aggregation_temporality,
                is_monotonic: s.is_monotonic,
            },
            MetricData::Histogram(h) => MetricDataModel::Histogram {
                data_points: h.data_points@.map_values(|p: HistogramDataPoint| p@),
                aggregation_temporality: h.aggregation_temporality,
            },
            MetricData::Summary(s) => MetricDataModel::Summary {
                data_points: s.data_points@.map_values(|p: SummaryDataPoint| p@),
            },
        }
    }
}

impl View for Metric {
    type V = MetricModel;

    open spec fn view(&self) -> MetricModel {
        MetricModel {
            name: self.name@,
            description: self.description@,
            unit: self.unit@,
            metadata: key_values_model(self.metadata@),
            data: match self.data {
                Some(d) => Some(d@),
                None => None,
            },
        }
    }
}

impl View for ScopeMetrics {
    type V = ScopeMetricsModel;

    open spec fn view(&self) -> ScopeMetricsModel {
        ScopeMetricsModel {
            scope: opt_scope_model(self.scope),
            metrics: self.metrics@.map_values(|m: Metric| m@),
            schema_url: self.schema_url@,
        }
    }
}

impl View for ResourceMetrics {
    type V = ResourceMetricsModel;

    open spec fn view(&self) -> ResourceMetricsModel {
        ResourceMetricsModel {
            resource: opt_resource_model(self.resource),
            scope_metrics: self.scope_metrics@.map_values(|s: ScopeMetrics| s@),
            schema_url: self.schema_url@,
        }
    }
}

impl View for MetricsData {
    type V = Seq<ResourceMetricsModel>;

    open spec fn view(&self) -> Seq<ResourceMetricsModel> {
        self.resource_metrics@.map_values(|r: ResourceMetrics| r@)
    }
}

/// Model of a number data point at `time` holding the integer `value`,
/// every other field at its default.
pub open spec fn int_point(time: u64, value: i64) -> NumberDataPointModel {
    NumberDataPointModel {
        attributes: Seq::empty(),
        start_time_unix_nano: 0,
        time_unix_nano: time,
        value: Some(NumberValue::AsInt(value)),
        flags: 0,
    }
}

/// Model of a metric named `name` holding `data`, every other field empty.
pub open spec fn metric_model(name: Seq<char>, data: MetricDataModel) -> MetricModel {
    MetricModel {
        name,
        description: Seq::empty(),
        unit: Seq::empty(),
        metadata: Seq::empty(),
        data: Some(data),
    }
}

/// Model of the scope metrics of `scope`.
pub open spec fn scope_metrics_model(scope: ScopeModel, metrics: Seq<MetricModel>) -> ScopeMetricsModel {
    ScopeMetricsModel { scope: Some(scope), metrics, schema_url: Seq::empty() }
}

/// Model of the resource metrics of `resource`.
pub open spec fn resource_metrics_model(
    resource: ResourceModel,
    scope_metrics: Seq<ScopeMetricsModel>,
) -> ResourceMetricsModel {
    ResourceMetricsModel { resource: Some(resource), scope_metrics, schema_url: Seq::empty() }
}

impl NumberDataPoint {
    /// A data point at `time` holding the integer `value`.
    pub fn int_at(time: u64, value: i64) -> (r: NumberDataPoint)
        ensures
            r@ == int_point(time, value),
    {
        NumberDataPoint {
            attributes: Vec::new(),
            start_time_unix_nano: 0,
            time_unix_nano: time,
            value: Some(NumberValue::AsInt(value)),
            flags: 0,
        }
    }
}

impl Sum {
    /// A sum over `data_points`.
    pub fn new(aggregation_temporality: i32, is_monotonic: bool, data_points: Vec<NumberDataPoint>) -> (r: Sum)
        ensures
            r.aggregation_temporality == aggregation_temporality,
            r.is_monotonic == is_monotonic,
            r.data_points@ == data_points@,
    {
        Sum { data_points, aggregation_temporality, is_monotonic }
    }
}

impl Metric {
    /// A metric named `name` holding `data`.
    pub fn new(name: &str, data: MetricData) -> (r: Metric)
        ensures
            r@ == metric_model(name@, data@),
    {
        Metric {
            name: String::from_str(name),
            description: String::new(),
            unit: String::new(),
            metadata: Vec::new(),
            data: Some(data),
        }
    }
}

impl ScopeMetrics {
    /// The metrics of `scope`.
    pub fn new(scope: InstrumentationScope, metrics: Vec<Metric>) -> (r: ScopeMetrics)
        ensures
            r@ == scope_metrics_model(scope@, metrics@.map_values(|m: Metric| m@)),
    {
        ScopeMetrics { scope: Some(scope), metrics, schema_url: String::new() }
    }
}

impl ResourceMetrics {
    /// The scope metrics of `resource`.
    pub fn new(resource: Resource, scope_metrics: Vec<ScopeMetrics>) -> (r: ResourceMetrics)
        ensures
            r@ == resource_metrics_model(resource@, scope_metrics@.map_values(|s: ScopeMetrics| s@)),
    {
        ResourceMetrics { resource: Some(resource), scope_metrics, schema_url: String::new() }
    }
}

impl MetricsData {
    /// Metrics data holding `resource_metrics`.
    pub fn new(resource_metrics: Vec<ResourceMetrics>) -> (r: MetricsData)
        ensures
            r@ == resource_metrics@.map_values(|x: ResourceMetrics| x@),
    {
        MetricsData { resource_metrics }
    }
}

/// Model of a metric with every descriptive field given.
pub open spec fn described_metric(
    name: Seq<char>,
    description: Seq<char>,
    unit: Seq<char>,
    metadata: Seq<KeyValueModel>,
    data: MetricDataModel,
) -> MetricModel {
    MetricModel { name, description, unit, metadata, data: Some(data) }
}

impl Metric {
    /// A metric with its name, description, unit, metadata and data.
    pub fn described(
        name: String,
        description: String,
        unit: &str,
        metadata: Vec<KeyValue>,
        data: MetricData,
    ) -> (r: Metric)
        ensures
            r@ == described_metric(name@, description@, unit@, key_values_model(metadata@), data@),
    {
        Metric { name, description, unit: String::from_str(unit), metadata, data: Some(data) }
    }
}

/* ------------------------------ copies ------------------------------ */

/// A copy of a list of integers.
pub fn copy_u64s(v: &Vec<u64>) -> (r: Vec<u64>)
    ensures
        r@ == v@,
{
    let mut r: Vec<u64> = Vec::with_capacity(v.len());
    let mut i: usize = 0;
    while i < v.len()
        invariant
            i <= v.len(),
            r@ == v@.subrange(0, i as int),
        decreases v.len() - i,
    {
        r.push(v[i]);
        i += 1;
        assert(r@ =~= v@.subrange(0, i as int));
    }
    assert(v@.subrange(0, v.len() as int) =~= v@);
    r
}

/// A deep copy of a number data point.
pub fn copy_number_point(p: &NumberDataPoint) -> (r: NumberDataPoint)
    ensures
        r@ == p@,
{
    NumberDataPoint {
        attributes: copy_key_values(&p.attributes),
        start_time_unix_nano: p.start_time_unix_nano,
        time_unix_nano: p.time_unix_nano,
        value: p.value,
        flags: p.flags,
    }
}

/// A deep copy of a list of number data points.
pub fn copy_number_points(v: &Vec<NumberDataPoint>) -> (r: Vec<NumberDataPoint>)
    ensures
        number_points_model(r@) == number_points_model(v@),
{
    let mut r: Vec<NumberDataPoint> = Vec::with_capacity(v.len());
    let mut i: usize = 0;
    while i < v.len()
        invariant
            i <= v.len(),
            r.len() == i,
            forall|j: int| 0 <= j < i ==> #[trigger] r@[j]@ == v@[j]@,
        decreases v.len() - i,
    {
        r.push(copy_number_point(&v[i]));
        i += 1;
    }
    assert(number_points_model(r@) =~= number_points_model(v@));
    r
}

/// A deep copy of a histogram data point.
pub fn copy_histogram_point(p: &HistogramDataPoint) -> (r: HistogramDataPoint)
    ensures
        r@ == p@,
{
    HistogramDataPoint {
        attributes: copy_key_values(&p.attributes),
        start_time_unix_nano: p.start_time_unix_nano,
        time_unix_nano: p.time_unix_nano,
        count: p.count,
        sum: p.sum,
        bucket_counts: copy_u64s(&p.bucket_counts),
        explicit_bounds: copy_u64s(&p.explicit_bounds),
        flags: p.flags,
        min: p.min,
        max: p.max,
    }
}

/// A deep copy of a summary data point.
pub fn copy_summary_point(p: &SummaryDataPoint) -> (r: SummaryDataPoint)
    ensures
        r@ == p@,
{
    let mut q: Vec<ValueAtQuantile> = Vec::with_capacity(p.quantile_values.len());
    let mut i: usize = 0;
    while i < p.quantile_values.len()
        invariant
            i <= p.quantile_values.len(),
            q@ == p.quantile_values@.subrange(0, i as int),
        decreases p.quantile_values.len() - i,
    {
        q.push(p.quantile_values[i]);
        i += 1;
        assert(q@ =~= p.quantile_values@.subrange(0, i as int));
    }
    assert(p.quantile_values@.subrange(0, p.quantile_values.len() as int) =~= p.quantile_values@);
    SummaryDataPoint {
        attributes: copy_key_values(&p.attributes),
        start_time_unix_nano: p.start_time_unix_nano,
        time_unix_nano: p.time_unix_nano,
        count: p.count,
        sum: p.sum,
        quantile_values: q,
        flags: p.flags,
    }
}

/// A deep copy of the data of a metric.
pub fn copy_metric_data(d: &MetricData) -> (r: MetricData)
    ensures
        r@ == d@,
{
    match d {
        MetricData::Gauge(g) => MetricData::Gauge(Gauge { data_points: copy_number_points(&g.data_points) }),
        MetricData::Sum(s) => MetricData::Sum(Sum {
            data_points: copy_number_points(&s.data_points),
            aggregation_temporality: s.aggregation_temporality,
            is_monotonic: s.is_monotonic,
        }),
        MetricData::Histogram(h) => {
            let mut r: Vec<HistogramDataPoint> = Vec::with_capacity(h.data_points.len());
            let mut i: usize = 0;
            while i < h.data_points.len()
                invariant
                    i <= h.data_points.len(),
                    r.len() == i,
                    forall|j: int| 0 <= j < i ==> #[trigger] r@[j]@ == h.data_points@[j]@,
                decreases h.data_points.len() - i,
            {
                r.push(copy_histogram_point(&h.data_points[i]));
                i += 1;
            }
            let c = Histogram { data_points: r, aggregation_temporality: h.aggregation_temporality };
            assert(c.data_points@.map_values(|p: HistogramDataPoint| p@)
                =~= h.data_points@.map_values(|p: HistogramDataPoint| p@));
            MetricData::Histogram(c)
        },
        MetricData::Summary(s) => {
            let mut r: Vec<SummaryDataPoint> = Vec::with_capacity(s.data_points.len());
            let mut i: usize = 0;
            while i < s.data_points.len()
                invariant
                    i <= s.data_points.len(),
                    r.len() == i,
                    forall|j: int| 0 <= j < i ==> #[trigger] r@[j]@ == s.data_points@[j]@,
                decreases s.data_points.len() - i,
            {
                r.push(copy_summary_point(&s.data_points[i]));
                i += 1;
            }
            let c = Summary { data_points: r };
            assert(c.data_points@.map_values(|p: SummaryDataPoint| p@)
                =~= s.data_points@.map_values(|p: SummaryDataPoint| p@));
            MetricData::Summary(c)
        },
    }
}

/// A deep copy of a metric.
pub fn copy_metric(m: &Metric) -> (r: Metric)
    ensures
        r@ == m@,
{
    let data = match &m.data {
        Some(d) => Some(copy_metric_data(d)),
        None => None,
    };
    Metric {
        name: copy_string(&m.name),
        description: copy_string(&m.description),
        unit: copy_string(&m.unit),
        metadata: copy_key_values(&m.metadata),
        data,
    }
}

/// A deep copy of a list of metrics.
pub fn copy_metrics(v: &Vec<Metric>) -> (r: Vec<Metric>)
    ensures
        r@.map_values(|m: Metric| m@) == v@.map_values(|m: Metric| m@),
{
    let mut r: Vec<Metric> = Vec::with_capacity(v.len());
    let mut i: usize = 0;
    while i < v.len()
        invariant
            i <= v.len(),
            r.len() == i,
            forall|j: int| 0 <= j < i ==> #[trigger] r@[j]@ == v@[j]@,
        decreases v.len() - i,
    {
        r.push(copy_metric(&v[i]));
        i += 1;
    }
    assert(r@.map_values(|m: Metric| m@) =~= v@.map_values(|m: Metric| m@));
    r
}

} // verus!
