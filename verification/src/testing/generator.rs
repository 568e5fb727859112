//! A generator of synthetic telemetry whose timestamps advance by one second
//! per use, and whose fixed-shape metrics draw on a limited budget of points.
use vstd::prelude::*;
use crate::model::binary64::{binary64_from_int, binary64_of};
use crate::model::common::{
    attr, key_values_model, named_scope, resource_with, str_value, AnyValue, InstrumentationScope, KeyValue, KeyValueModel, Resource, lemma_key_values_model_push,
};
use crate::model::logs::{
    plain_log, resource_logs_model, scope_logs_model, LogRecord, LogsData, ResourceLogs,
    ResourceLogsModel, ScopeLogs, SEVERITY_NUMBER_ERROR, SEVERITY_NUMBER_INFO,
};
use crate::model::metrics::{
    described_metric, resource_metrics_model, scope_metrics_model, Gauge, Metric, MetricData, MetricDataModel, MetricsData, NumberDataPoint, NumberDataPointModel, NumberValue, ResourceMetrics, ResourceMetricsModel, ScopeMetrics, Sum, AGGREGATION_TEMPORALITY_DELTA,
};
use crate::model::traces::{
    filled, filled_bytes, plain_span, resource_spans_model, scope_spans_model, ResourceSpans,
    ResourceSpansModel, ScopeSpans, Span, SpanModel, Status, StatusModel, TracesData,
    SPAN_KIND_UNSPECIFIED, STATUS_CODE_OK,
};
use crate::testing::config::{LogsConfig, MetricsConfig, TracesConfig};
use crate::testing::text::{append_decimal, decimal, with_decimal};

verus! {

/// The first timestamp a generator hands out: 10^15 ns after the Unix epoch.
pub const START_TIME: u64 = 1_000_000_000_000_000;

/// The step between two consecutive timestamps: one second.
pub const TIME_STEP: u64 = 1_000_000_000;

/// `k` steps after `t`.
pub open spec fn tick(t: u64, k: int) -> u64 {
    (t + k * TIME_STEP) as u64
}

/// The state of a [`DataGenerator`].
pub struct GeneratorModel {
    /// Points that the fixed-shape metrics may draw in all.
    pub limit: usize,
    /// Points drawn so far.
    pub count: usize,
    /// The next timestamp.
    pub time: u64,
    pub metrics_config: Option<MetricsConfig>,
    pub logs_config: Option<LogsConfig>,
    pub traces_config: Option<TracesConfig>,
}

/// Generator for test data.
pub struct DataGenerator {
    limit: usize,
    count: usize,
    time_value: u64,
    metrics_config: Option<MetricsConfig>,
    logs_config: Option<LogsConfig>,
    traces_config: Option<TracesConfig>,
}

impl View for DataGenerator {
    type V = GeneratorModel;

    closed spec fn view(&self) -> GeneratorModel {
        GeneratorModel {
            limit: self.limit,
            count: self.count,
            time: self.time_value,
            metrics_config: self.metrics_config,
            logs_config: self.logs_config,
            traces_config: self.traces_config,
        }
    }
}

/// A fresh generator state.
pub open spec fn fresh(
    limit: usize,
    metrics_config: Option<MetricsConfig>,
    logs_config: Option<LogsConfig>,
    traces_config: Option<TracesConfig>,
) -> GeneratorModel {
    GeneratorModel { limit, count: 0, time: START_TIME, metrics_config, logs_config, traces_config }
}

/// `g` after `steps` timestamps and `drawn` points.
pub open spec fn advanced(g: GeneratorModel, steps: int, drawn: int) -> GeneratorModel {
    GeneratorModel { count: (g.count + drawn) as usize, time: tick(g.time, steps), ..g }
}

/// The points that a request for `n` points draws from the budget of `g`.
pub open spec fn drawn(g: GeneratorModel, n: int) -> int {
    if n <= g.limit - g.count {
        n
    } else {
        g.limit - g.count
    }
}

impl DataGenerator {
    #[verifier::type_invariant]
    spec fn within_budget(&self) -> bool {
        self.count <= self.limit
    }

    /// A generator whose fixed-shape metrics may draw `limit` points.
    pub fn new(limit: usize) -> (r: DataGenerator)
        ensures
            r@ == fresh(limit, None, None, None),
    {
        DataGenerator {
            limit,
            count: 0,
            time_value: START_TIME,
            metrics_config: None,
            logs_config: None,
            traces_config: None,
        }
    }

    /// A generator with a metrics configuration.
    pub fn with_metrics_config(config: MetricsConfig) -> (r: DataGenerator)
        ensures
            r@ == fresh(0, Some(config), None, None),
    {
        DataGenerator {
            limit: 0,
            count: 0,
            time_value: START_TIME,
            metrics_config: Some(config),
            logs_config: None,
            traces_config: None,
        }
    }

    /// A generator with a logs configuration.
    pub fn with_logs_config(config: LogsConfig) -> (r: DataGenerator)
        ensures
            r@ == fresh(0, None, Some(config), None),
    {
        DataGenerator {
            limit: 0,
            count: 0,
            time_value: START_TIME,
            metrics_config: None,
            logs_config: Some(config),
            traces_config: None,
        }
    }

    /// A generator with a traces configuration.
    pub fn with_traces_config(config: TracesConfig) -> (r: DataGenerator)
        ensures
            r@ == fresh(0, None, None, Some(config)),
    {
        DataGenerator {
            limit: 0,
            count: 0,
            time_value: START_TIME,
            metrics_config: None,
            logs_config: None,
            traces_config: Some(config),
        }
    }

    /// A unique timestamp: the current one, after which the clock moves one
    /// second on.
    pub(crate) fn timestamp(&mut self) -> (r: u64)
        requires
            old(self)@.time + TIME_STEP <= u64::MAX,
        ensures
            r == old(self)@.time,
            final(self)@ == advanced(old(self)@, 1, 0),
    {
        proof {
            use_type_invariant(&*self);
        }
        let val = self.time_value;
        self.time_value = self.time_value + TIME_STEP;
        val
    }

    /// Draw up to `n` points from the budget; the number drawn.
    fn consume(&mut self, n: usize) -> (r: usize)
        ensures
            r == drawn(old(self)@, n as int),
            final(self)@ == advanced(old(self)@, 0, r as int),
    {
        proof {
            use_type_invariant(&*self);
        }
        let room = self.limit - self.count;
        let take = if n <= room { n } else { room };
        self.count = self.count + take;
        take
    }

    /// The configured metrics shape.
    pub(crate) fn metrics_shape(&self) -> (r: &MetricsConfig)
        requires
            self@.metrics_config is Some,
        ensures
            *r == self@.metrics_config->0,
    {
        self.metrics_config.as_ref().unwrap()
    }

    /// The configured logs shape.
    pub(crate) fn logs_shape(&self) -> (r: &LogsConfig)
        requires
            self@.logs_config is Some,
        ensures
            *r == self@.logs_config->0,
    {
        self.logs_config.as_ref().unwrap()
    }

    /// The configured traces shape.
    pub(crate) fn traces_shape(&self) -> (r: &TracesConfig)
        requires
            self@.traces_config is Some,
        ensures
            *r == self@.traces_config->0,
    {
        self.traces_config.as_ref().unwrap()
    }
}

/// The attributes `{prefix}.attr_{i}` = `"value_{i}"` for `i` in `0..count`.
pub open spec fn attrs_model(prefix: Seq<char>, count: nat) -> Seq<KeyValueModel> {
    Seq::new(
        count,
        |i: int| attr(prefix + ".attr_"@ + decimal(i as nat), str_value("value_"@ + decimal(i as nat))),
    )
}

/// Generate `count` synthetic attributes with the given key prefix.
pub(crate) fn generate_attrs(prefix: &str, count: usize) -> (r: Vec<KeyValue>)
    ensures
        key_values_model(r@) == attrs_model(prefix@, count as nat),
{
    let mut out: Vec<KeyValue> = Vec::with_capacity(count);
    let mut i: usize = 0;
    while i < count
        invariant
            i <= count,
            key_values_model(out@) == attrs_model(prefix@, i as nat),
        decreases count - i,
    {
        let mut key = String::from_str(prefix);
        key.append(".attr_");
        append_decimal(&mut key, i as u64);
        let value = with_decimal("value_", i as u64);
        let kv = KeyValue::new_owned(key, AnyValue::new_owned_string(value));
        proof {
            lemma_key_values_model_push(out@, kv);
            assert(attrs_model(prefix@, (i + 1) as nat) =~= attrs_model(prefix@, i as nat).push(kv@));
        }
        out.push(kv);
        i += 1;
    }
    out
}

/// The points `i * 10.0` for `i` in `0..n`, stamped from `t` on.
pub open spec fn tenfold_points(t: u64, n: int) -> Seq<NumberDataPointModel> {
    Seq::new(
        n as nat,
        |i: int|
            NumberDataPointModel {
                attributes: Seq::empty(),
                start_time_unix_nano: 0,
                time_unix_nano: tick(t, i),
                value: Some(NumberValue::AsDouble(binary64_of((10 * i) as nat))),
                flags: 0,
            },
    )
}

/// The points that the fixed-shape metrics draw from the budget of `g`.
pub open spec fn fixed_metrics_draw(g: GeneratorModel) -> int {
    drawn(g, 6)
}

/// The fixed-shape metrics generated from state `g`: two gauges and a sum
/// that draw up to three, two and one points from the budget.
pub open spec fn generated_metrics_model(g: GeneratorModel) -> Seq<ResourceMetricsModel> {
    let t1 = drawn(g, 3);
    let g1 = advanced(g, t1, t1);
    let t2 = drawn(g1, 2);
    let g2 = advanced(g1, t2, t2);
    let t3 = drawn(g2, 1);
    seq![resource_metrics_model(
        resource_with(Seq::empty()),
        seq![scope_metrics_model(
            named_scope(Seq::empty()),
            seq![
                described_metric("gauge1"@, "First gauge"@, "1"@, Seq::empty(), MetricDataModel::Gauge {
                    data_points: tenfold_points(g.time, t1),
                }),
                described_metric("gauge2"@, "Second gauge"@, "By"@, Seq::empty(), MetricDataModel::Gauge {
                    data_points: tenfold_points(g1.time, t2),
                }),
                described_metric("sum1"@, "A sum"@, "1"@, Seq::empty(), MetricDataModel::Sum {
                    data_points: tenfold_points(g2.time, t3),
                    aggregation_temporality: AGGREGATION_TEMPORALITY_DELTA,
                    is_monotonic: true,
                }),
            ],
        )],
    )]
}

/// The fixed-shape logs generated from the timestamp `t` on.
pub open spec fn generated_logs_model(t: u64) -> Seq<ResourceLogsModel> {
    seq![
        resource_logs_model(
            resource_with(Seq::empty()),
            seq![
                scope_logs_model(named_scope("scope"@), seq![plain_log(tick(t, 0), tick(t, 1), SEVERITY_NUMBER_INFO)]),
                scope_logs_model(named_scope("scope2"@), seq![plain_log(tick(t, 2), tick(t, 3), SEVERITY_NUMBER_ERROR)]),
            ],
        ),
        resource_logs_model(
            resource_with(Seq::empty()),
            seq![scope_logs_model(named_scope("scope"@), seq![plain_log(tick(t, 4), tick(t, 5), SEVERITY_NUMBER_INFO)])],
        ),
    ]
}

/// A span of trace `[0; 16]` with status OK, started at `t` and ended one
/// step later.
pub open spec fn ok_span(t: u64, span_id: Seq<u8>, name: Seq<char>) -> SpanModel {
    SpanModel {
        status: Some(StatusModel { message: "ok"@, code: STATUS_CODE_OK }),
        ..plain_span(filled(0, 16), span_id, name, SPAN_KIND_UNSPECIFIED, t, tick(t, 1))
    }
}

/// The `k`-th (from zero) span of the fixed-shape traces, from `t` on.
pub open spec fn generated_span(t: u64, k: int, name: Seq<char>) -> SpanModel {
    ok_span(tick(t, 2 * k), filled((k + 1) as u8, 8), name)
}

/// The fixed-shape traces generated from the timestamp `t` on.
pub open spec fn generated_traces_model(t: u64) -> Seq<ResourceSpansModel> {
    seq![resource_spans_model(
        resource_with(Seq::empty()),
        seq![scope_spans_model(
            named_scope(Seq::empty()),
            seq![generated_span(t, 0, "span0"@), generated_span(t, 1, "span1"@), generated_span(t, 2, "span2"@)],
        )],
    )]
}

impl DataGenerator {
    fn draw_tenfold_points(&mut self, n: usize) -> (r: Vec<NumberDataPoint>)
        requires
            old(self)@.time + drawn(old(self)@, n as int) * TIME_STEP <= u64::MAX,
        ensures
            r@.map_values(|p: NumberDataPoint| p@) == tenfold_points(old(self)@.time, drawn(old(self)@, n as int)),
            final(self)@ == advanced(old(self)@, drawn(old(self)@, n as int), drawn(old(self)@, n as int)),
    {
        let ghost g = self@;
        let k = self.consume(n);
        let mut out: Vec<NumberDataPoint> = Vec::with_capacity(k);
        let mut i: usize = 0;
        while i < k
            invariant
                i <= k,
                k == drawn(g, n as int),
                g.time + k * TIME_STEP <= u64::MAX,
                self@ == advanced(g, i as int, k as int),
                out.len() == i,
                forall|j: int| 0 <= j < i ==> #[trigger] out@[j]@ == tenfold_points(g.time, k as int)[j],
            decreases k - i,
        {
            let v = binary64_from_int(i as u64 * 10);
            let t = self.timestamp();
            out.push(NumberDataPoint {
                attributes: Vec::new(),
                start_time_unix_nano: 0,
                time_unix_nano: t,
                value: Some(NumberValue::AsDouble(v)),
                flags: 0,
            });
            i += 1;
        }
        assert(out@.map_values(|p: NumberDataPoint| p@) =~= tenfold_points(g.time, k as int));
        out
    }

    fn build_gauge_data(&mut self, n: usize) -> (r: Vec<NumberDataPoint>)
        requires
            old(self)@.time + drawn(old(self)@, n as int) * TIME_STEP <= u64::MAX,
        ensures
            r@.map_values(|p: NumberDataPoint| p@) == tenfold_points(old(self)@.time, drawn(old(self)@, n as int)),
            final(self)@ == advanced(old(self)@, drawn(old(self)@, n as int), drawn(old(self)@, n as int)),
    {
        self.draw_tenfold_points(n)
    }

    fn build_sum_data(&mut self, n: usize) -> (r: Vec<NumberDataPoint>)
        requires
            old(self)@.time + drawn(old(self)@, n as int) * TIME_STEP <= u64::MAX,
        ensures
            r@.map_values(|p: NumberDataPoint| p@) == tenfold_points(old(self)@.time, drawn(old(self)@, n as int)),
            final(self)@ == advanced(old(self)@, drawn(old(self)@, n as int), drawn(old(self)@, n as int)),
    {
        self.draw_tenfold_points(n)
    }

    /// Generate fixed-shape logs: two resources, three scopes, one log record
    /// per scope, six timestamps.
    pub fn generate_logs(&mut self) -> (r: LogsData)
        requires
            old(self)@.time + 6 * TIME_STEP <= u64::MAX,
        ensures
            r@ == generated_logs_model(old(self)@.time),
            final(self)@ == advanced(old(self)@, 6, 0),
    {
        let ghost t = self@.time;
        let l1 = LogRecord::at(self.timestamp(), self.timestamp(), SEVERITY_NUMBER_INFO);
        let l2 = LogRecord::at(self.timestamp(), self.timestamp(), SEVERITY_NUMBER_ERROR);
        let l3 = LogRecord::at(self.timestamp(), self.timestamp(), SEVERITY_NUMBER_INFO);
        let r = LogsData::new(vec![
            ResourceLogs::new(
                Resource::empty(),
                vec![
                    ScopeLogs::new(InstrumentationScope::named("scope"), vec![l1]),
                    ScopeLogs::new(InstrumentationScope::named("scope2"), vec![l2]),
                ],
            ),
            ResourceLogs::new(
                Resource::empty(),
                vec![ScopeLogs::new(InstrumentationScope::named("scope"), vec![l3])],
            ),
        ]);
        assert(r@ =~~= generated_logs_model(t));
        r
    }

    /// A span of trace `[0; 16]` with status OK, stamped with the next two
    /// timestamps.
    pub(crate) fn stamped_ok_span(&mut self, span_id: Vec<u8>, name: String) -> (r: Span)
        requires
            old(self)@.time + 2 * TIME_STEP <= u64::MAX,
        ensures
            r@ == ok_span(old(self)@.time, span_id@, name@),
            final(self)@ == advanced(old(self)@, 2, 0),
    {
        let start = self.timestamp();
        let end = self.timestamp();
        let mut s = Span::new(filled_bytes(0, 16), span_id, name, SPAN_KIND_UNSPECIFIED, start, end);
        s.status = Some(Status::new(STATUS_CODE_OK, "ok"));
        s
    }

    /// Generate fixed-shape traces: one resource, one scope, three spans,
    /// six timestamps.
    pub fn generate_traces(&mut self) -> (r: TracesData)
        requires
            old(self)@.time + 6 * TIME_STEP <= u64::MAX,
        ensures
            r@ == generated_traces_model(old(self)@.time),
            final(self)@ == advanced(old(self)@, 6, 0),
    {
        let ghost t = self@.time;
        let s0 = self.stamped_ok_span(filled_bytes(1, 8), String::from_str("span0"));
        let s1 = self.stamped_ok_span(filled_bytes(2, 8), String::from_str("span1"));
        let s2 = self.stamped_ok_span(filled_bytes(3, 8), String::from_str("span2"));
        let r = TracesData::new(vec![ResourceSpans::new(
            Resource::empty(),
            vec![ScopeSpans::new(InstrumentationScope::empty(), vec![s0, s1, s2])],
        )]);
        assert(r@ =~~= generated_traces_model(t));
        r
    }

    /// Generate fixed-shape metrics: two gauges and a sum that draw up to
    /// three, two and one points from the budget.
    pub fn generate_metrics(&mut self) -> (r: MetricsData)
        requires
            old(self)@.time + fixed_metrics_draw(old(self)@) * TIME_STEP <= u64::MAX,
        ensures
            r@ == generated_metrics_model(old(self)@),
            final(self)@ == advanced(old(self)@, fixed_metrics_draw(old(self)@), fixed_metrics_draw(old(self)@)),
    {
        let ghost g = self@;
        let p1 = self.build_gauge_data(3);
        let p2 = self.build_gauge_data(2);
        let p3 = self.build_sum_data(1);
        let m1 = Metric::described(String::from_str("gauge1"), String::from_str("First gauge"), "1", Vec::new(), MetricData::Gauge(Gauge { data_points: p1 }));
        let m2 = Metric::described(String::from_str("gauge2"), String::from_str("Second gauge"), "By", Vec::new(), MetricData::Gauge(Gauge { data_points: p2 }));
        let m3 = Metric::described(String::from_str("sum1"), String::from_str("A sum"), "1", Vec::new(), MetricData::Sum(Sum::new(AGGREGATION_TEMPORALITY_DELTA, true, p3)));
        let r = MetricsData::new(vec![ResourceMetrics::new(
            Resource::empty(),
            vec![ScopeMetrics::new(InstrumentationScope::empty(), vec![m1, m2, m3])],
        )]);
        proof {
            assert(key_values_model(Seq::<KeyValue>::empty()) =~= Seq::<KeyValueModel>::empty());
        }
        assert(r@ =~~= generated_metrics_model(g));
        r
    }
}

} // verus!
