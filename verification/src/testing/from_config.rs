//! Telemetry generated from a configured shape: every resource holds the same
//! scopes, every scope the same number of items, and each item takes fresh
//! timestamps in the order in which it is built.
use vstd::prelude::*;
use crate::model::binary64::{binary64_from_int, binary64_of};
use crate::model::common::{
    attr, attrs1, copy_key_values, key_values_model, resource_with, AnyValue, AnyValueModel,
    InstrumentationScope, KeyValue, KeyValueModel, Resource, ResourceModel, ScopeModel,
};
use crate::model::metrics::{
    copy_metrics, described_metric, resource_metrics_model, scope_metrics_model, Gauge, Histogram,
    HistogramDataPoint, HistogramDataPointModel, Metric, MetricData, MetricDataModel, MetricModel,
    MetricsData, NumberDataPoint, NumberDataPointModel, NumberValue, ResourceMetrics,
    ResourceMetricsModel, ScopeMetrics, Sum, Summary, SummaryDataPoint, SummaryDataPointModel,
    ValueAtQuantile, AGGREGATION_TEMPORALITY_CUMULATIVE, AGGREGATION_TEMPORALITY_DELTA,
};
use crate::model::logs::{
    plain_log, resource_logs_model, scope_logs_model, LogRecord, LogRecordModel, LogsData,
    ResourceLogs, ResourceLogsModel, ScopeLogs, ScopeLogsModel, SEVERITY_NUMBER_INFO,
};
use crate::model::traces::{
    resource_spans_model, scope_spans_model, ResourceSpans, ResourceSpansModel, ScopeSpans, Span,
    SpanModel, TracesData,
};
use crate::testing::config::{total, LogsConfig, MetricsConfig, TracesConfig};
use crate::testing::generator::{
    advanced, attrs_model, generate_attrs, ok_span, tick, DataGenerator, TIME_STEP,
};
use crate::testing::text::{decimal, with_decimal};

verus! {

/// The scope named `scope_{s}` with the given attributes.
pub open spec fn numbered_scope(s: int, attributes: Seq<KeyValueModel>) -> ScopeModel {
    ScopeModel {
        name: "scope_"@ + decimal(s as nat),
        version: Seq::empty(),
        attributes,
        dropped_attributes_count: 0,
    }
}

/// The scope named `scope_{s}` with the given attributes.
fn scope_numbered(s: usize, attributes: Vec<KeyValue>) -> (r: InstrumentationScope)
    ensures
        r@ == numbered_scope(s as int, key_values_model(attributes@)),
{
    InstrumentationScope {
        name: with_decimal("scope_", s as u64),
        version: String::new(),
        attributes,
        dropped_attributes_count: 0,
    }
}

/// A configured resource: `count` synthetic `resource` attributes.
pub open spec fn config_resource(count: nat) -> ResourceModel {
    resource_with(attrs_model("resource"@, count))
}

/// A configured scope: `scope_{s}` with `count` synthetic `scope` attributes.
pub open spec fn config_scope(s: int, count: nat) -> ScopeModel {
    numbered_scope(s, attrs_model("scope"@, count))
}

proof fn lemma_block_step(i: int, n: int, total: int)
    requires
        0 <= i < total,
        0 <= n,
    ensures
        i * n + n == (i + 1) * n,
        (i + 1) * n <= total * n,
{
    assert(i * n + n == (i + 1) * n) by (nonlinear_arith);
    assert((i + 1) * n <= total * n) by (nonlinear_arith)
        requires i + 1 <= total, 0 <= n;
}

/* ------------------------------ logs ------------------------------ */

/// The records of one configured scope, stamped from `t` on: record `l`
/// takes the timestamps `2l` and `2l + 1` steps after `t`.
pub open spec fn config_scope_records(t: u64, n: nat, attributes: Seq<KeyValueModel>) -> Seq<LogRecordModel> {
    Seq::new(
        n,
        |l: int|
            LogRecordModel {
                attributes,
                ..plain_log(tick(t, 2 * l), tick(t, 2 * l + 1), SEVERITY_NUMBER_INFO)
            },
    )
}

/// The scope logs of configured scope `s`, stamped from `t` on.
pub open spec fn config_scope_logs(c: LogsConfig, t: u64, s: int) -> ScopeLogsModel {
    scope_logs_model(
        config_scope(s, c.scope_attrs as nat),
        config_scope_records(t, c.logs_per_scope as nat, attrs_model("log"@, c.log_attrs as nat)),
    )
}

/// The resource logs of one configured resource, stamped from `t` on:
/// scope `s` starts `2 * s * logs_per_scope` steps after `t`.
pub open spec fn config_resource_logs(c: LogsConfig, t: u64) -> ResourceLogsModel {
    resource_logs_model(
        config_resource(c.resource_attrs as nat),
        Seq::new(
            c.scopes_per_resource as nat,
            |s: int| config_scope_logs(c, tick(t, 2 * (s * c.logs_per_scope)), s),
        ),
    )
}

/// The log records of one configured resource.
pub open spec fn logs_per_resource(c: LogsConfig) -> int {
    c.scopes_per_resource * c.logs_per_scope
}

/// The log records generated from configuration `c`.
pub open spec fn log_count(c: LogsConfig) -> int {
    c.num_resources * logs_per_resource(c)
}

/// The logs generated from configuration `c`, stamped from `t` on:
/// resource `r` starts `2 * r * logs_per_resource(c)` steps after `t`.
pub open spec fn logs_from_config_model(c: LogsConfig, t: u64) -> Seq<ResourceLogsModel> {
    Seq::new(
        c.num_resources as nat,
        |r: int| config_resource_logs(c, tick(t, 2 * (r * logs_per_resource(c)))),
    )
}

impl DataGenerator {
    fn config_log_records(&mut self, n: usize, attributes: &Vec<KeyValue>) -> (r: Vec<LogRecord>)
        requires
            old(self)@.time + 2 * n * TIME_STEP <= u64::MAX,
        ensures
            r@.map_values(|l: LogRecord| l@) == config_scope_records(old(self)@.time, n as nat, key_values_model(attributes@)),
            final(self)@ == advanced(old(self)@, 2 * n, 0),
    {
        let ghost g = self@;
        let mut out: Vec<LogRecord> = Vec::with_capacity(n);
        let mut l: usize = 0;
        while l < n
            invariant
                l <= n,
                g.time + 2 * n * TIME_STEP <= u64::MAX,
                self@ == advanced(g, 2 * l, 0),
                out.len() == l,
                forall|j: int| 0 <= j < l ==> #[trigger] out@[j]@ == config_scope_records(g.time, n as nat, key_values_model(attributes@))[j],
            decreases n - l,
        {
            let time = self.timestamp();
            let observed = self.timestamp();
            let mut rec = LogRecord::at(time, observed, SEVERITY_NUMBER_INFO);
            rec.attributes = copy_key_values(attributes);
            out.push(rec);
            l += 1;
        }
        assert(out@.map_values(|l: LogRecord| l@) =~= config_scope_records(g.time, n as nat, key_values_model(attributes@)));
        out
    }

    fn config_resource_logs_of(
        &mut self,
        c: &LogsConfig,
        log_attrs: &Vec<KeyValue>,
        scope_attrs: &Vec<KeyValue>,
        resource_attrs: &Vec<KeyValue>,
    ) -> (r: ResourceLogs)
        requires
            old(self)@.time + 2 * logs_per_resource(*c) * TIME_STEP <= u64::MAX,
            key_values_model(log_attrs@) == attrs_model("log"@, c.log_attrs as nat),
            key_values_model(scope_attrs@) == attrs_model("scope"@, c.scope_attrs as nat),
            key_values_model(resource_attrs@) == attrs_model("resource"@, c.resource_attrs as nat),
        ensures
            r@ == config_resource_logs(*c, old(self)@.time),
            final(self)@ == advanced(old(self)@, 2 * logs_per_resource(*c), 0),
    {
        let ghost g = self@;
        let n = c.logs_per_scope;
        let mut scopes: Vec<ScopeLogs> = Vec::with_capacity(c.scopes_per_resource);
        let mut s: usize = 0;
        while s < c.scopes_per_resource
            invariant
                s <= c.scopes_per_resource,
                n == c.logs_per_scope,
                g.time + 2 * logs_per_resource(*c) * TIME_STEP <= u64::MAX,
                key_values_model(log_attrs@) == attrs_model("log"@, c.log_attrs as nat),
                key_values_model(scope_attrs@) == attrs_model("scope"@, c.scope_attrs as nat),
                self@ == advanced(g, 2 * (s * n), 0),
                scopes.len() == s,
                forall|j: int| 0 <= j < s ==> #[trigger] scopes@[j]@ == config_scope_logs(*c, tick(g.time, 2 * (j * n)), j),
            decreases c.scopes_per_resource - s,
        {
            proof {
                lemma_block_step(s as int, n as int, c.scopes_per_resource as int);
            }
            let records = self.config_log_records(n, log_attrs);
            let scope = scope_numbered(s, copy_key_values(scope_attrs));
            scopes.push(ScopeLogs::new(scope, records));
            s += 1;
        }
        let r = ResourceLogs::new(Resource::with_attributes(copy_key_values(resource_attrs)), scopes);
        assert(r@ =~~= config_resource_logs(*c, g.time));
        r
    }

    /// Generate logs from the configured shape: `num_resources` resources of
    /// `scopes_per_resource` scopes of `logs_per_scope` records each, every
    /// record taking two fresh timestamps.
    pub fn generate_logs_from_config(&mut self) -> (r: LogsData)
        requires
            old(self)@.logs_config is Some,
            old(self)@.time + 2 * log_count(old(self)@.logs_config->0) * TIME_STEP <= u64::MAX,
        ensures
            r@ == logs_from_config_model(old(self)@.logs_config->0, old(self)@.time),
            final(self)@ == advanced(old(self)@, 2 * log_count(old(self)@.logs_config->0), 0),
    {
        let ghost g = self@;
        let shape = self.logs_shape();
        let c = LogsConfig {
            logs_per_scope: shape.logs_per_scope,
            num_resources: shape.num_resources,
            scopes_per_resource: shape.scopes_per_resource,
            resource_attrs: shape.resource_attrs,
            scope_attrs: shape.scope_attrs,
            log_attrs: shape.log_attrs,
        };
        let log_attrs = generate_attrs("log", c.log_attrs);
        let scope_attrs = generate_attrs("scope", c.scope_attrs);
        let resource_attrs = generate_attrs("resource", c.resource_attrs);
        let ghost per = logs_per_resource(c);
        let mut resources: Vec<ResourceLogs> = Vec::with_capacity(c.num_resources);
        let mut r: usize = 0;
        while r < c.num_resources
            invariant
                r <= c.num_resources,
                c == g.logs_config->0,
                per == logs_per_resource(c),
                per >= 0,
                g.time + 2 * log_count(c) * TIME_STEP <= u64::MAX,
                key_values_model(log_attrs@) == attrs_model("log"@, c.log_attrs as nat),
                key_values_model(scope_attrs@) == attrs_model("scope"@, c.scope_attrs as nat),
                key_values_model(resource_attrs@) == attrs_model("resource"@, c.resource_attrs as nat),
                self@ == advanced(g, 2 * (r * per), 0),
                resources.len() == r,
                forall|j: int| 0 <= j < r ==> #[trigger] resources@[j]@ == config_resource_logs(c, tick(g.time, 2 * (j * per))),
            decreases c.num_resources - r,
        {
            proof {
                lemma_block_step(r as int, per, c.num_resources as int);
            }
            let res = self.config_resource_logs_of(&c, &log_attrs, &scope_attrs, &resource_attrs);
            resources.push(res);
            r += 1;
        }
        let out = LogsData::new(resources);
        assert(out@ =~~= logs_from_config_model(c, g.time));
        out
    }
}

/* ------------------------------ traces ------------------------------ */

/// The big-endian bytes of `n`.
pub open spec fn be_bytes(n: u64) -> Seq<u8> {
    Seq::new(8, |i: int| ((n >> ((56 - 8 * i) as u64)) & 0xff) as u8)
}

/// The big-endian bytes of `n`.
fn be_bytes_of(n: u64) -> (r: Vec<u8>)
    ensures
        r@ == be_bytes(n),
{
    let mut out: Vec<u8> = Vec::with_capacity(8);
    let mut i: u64 = 0;
    while i < 8
        invariant
            i <= 8,
            out@ == be_bytes(n).subrange(0, i as int),
        decreases 8 - i,
    {
        out.push(((n >> (56 - 8 * i)) & 0xff) as u8);
        i += 1;
        assert(out@ =~= be_bytes(n).subrange(0, i as int));
    }
    assert(be_bytes(n).subrange(0, 8) =~= be_bytes(n));
    out
}

/// The spans of one configured scope, stamped from `t` on, after `before`
/// spans: span `p` is the `before + p + 1`-th, with that number as its big-
/// endian span id and in its name `span_{number}`.
pub open spec fn config_scope_spans(t: u64, before: int, n: nat, attributes: Seq<KeyValueModel>) -> Seq<SpanModel> {
    Seq::new(
        n,
        |p: int|
            SpanModel {
                attributes,
                ..ok_span(tick(t, 2 * p), be_bytes((before + p + 1) as u64), "span_"@ + decimal((before + p + 1) as nat))
            },
    )
}

/// The resource spans of one configured resource, stamped from `t` on,
/// after `before` spans.
pub open spec fn config_resource_spans(c: TracesConfig, t: u64, before: int) -> ResourceSpansModel {
    resource_spans_model(
        config_resource(c.resource_attrs as nat),
        Seq::new(
            c.scopes_per_resource as nat,
            |s: int|
                scope_spans_model(
                    config_scope(s, c.scope_attrs as nat),
                    config_scope_spans(
                        tick(t, 2 * (s * c.spans_per_scope)),
                        before + s * c.spans_per_scope,
                        c.spans_per_scope as nat,
                        attrs_model("span"@, c.span_attrs as nat),
                    ),
                ),
        ),
    )
}

/// The spans of one configured resource.
pub open spec fn spans_per_resource(c: TracesConfig) -> int {
    c.scopes_per_resource * c.spans_per_scope
}

/// The spans generated from configuration `c`.
pub open spec fn span_count(c: TracesConfig) -> int {
    c.num_resources * spans_per_resource(c)
}

/// The traces generated from configuration `c`, stamped from `t` on.
pub open spec fn traces_from_config_model(c: TracesConfig, t: u64) -> Seq<ResourceSpansModel> {
    Seq::new(
        c.num_resources as nat,
        |r: int| config_resource_spans(c, tick(t, 2 * (r * spans_per_resource(c))), r * spans_per_resource(c)),
    )
}

impl DataGenerator {
    fn config_spans(&mut self, n: usize, before: u64, attributes: &Vec<KeyValue>) -> (r: Vec<Span>)
        requires
            old(self)@.time + 2 * n * TIME_STEP <= u64::MAX,
            before + n <= u64::MAX,
        ensures
            r@.map_values(|x: Span| x@) == config_scope_spans(old(self)@.time, before as int, n as nat, key_values_model(attributes@)),
            final(self)@ == advanced(old(self)@, 2 * n, 0),
    {
        let ghost g = self@;
        let mut out: Vec<Span> = Vec::with_capacity(n);
        let mut p: usize = 0;
        while p < n
            invariant
                p <= n,
                g.time + 2 * n * TIME_STEP <= u64::MAX,
                before + n <= u64::MAX,
                self@ == advanced(g, 2 * p, 0),
                out.len() == p,
                forall|j: int| 0 <= j < p ==> #[trigger] out@[j]@ == config_scope_spans(g.time, before as int, n as nat, key_values_model(attributes@))[j],
            decreases n - p,
        {
            let number = before + p as u64 + 1;
            let name = with_decimal("span_", number);
            let mut span = self.stamped_ok_span(be_bytes_of(number), name);
            span.attributes = copy_key_values(attributes);
            out.push(span);
            p += 1;
        }
        assert(out@.map_values(|x: Span| x@) =~= config_scope_spans(g.time, before as int, n as nat, key_values_model(attributes@)));
        out
    }

    fn config_resource_spans_of(
        &mut self,
        c: &TracesConfig,
        before: u64,
        span_attrs: &Vec<KeyValue>,
        scope_attrs: &Vec<KeyValue>,
        resource_attrs: &Vec<KeyValue>,
    ) -> (r: ResourceSpans)
        requires
            old(self)@.time + 2 * spans_per_resource(*c) * TIME_STEP <= u64::MAX,
            before + spans_per_resource(*c) <= u64::MAX,
            key_values_model(span_attrs@) == attrs_model("span"@, c.span_attrs as nat),
            key_values_model(scope_attrs@) == attrs_model("scope"@, c.scope_attrs as nat),
            key_values_model(resource_attrs@) == attrs_model("resource"@, c.resource_attrs as nat),
        ensures
            r@ == config_resource_spans(*c, old(self)@.time, before as int),
            final(self)@ == advanced(old(self)@, 2 * spans_per_resource(*c), 0),
    {
        let ghost g = self@;
        let n = c.spans_per_scope;
        let mut scopes: Vec<ScopeSpans> = Vec::with_capacity(c.scopes_per_resource);
        let mut s: usize = 0;
        let mut done: u64 = before;
        while s < c.scopes_per_resource
            invariant
                s <= c.scopes_per_resource,
                n == c.spans_per_scope,
                g.time + 2 * spans_per_resource(*c) * TIME_STEP <= u64::MAX,
                before + spans_per_resource(*c) <= u64::MAX,
                done == before + s * n,
                key_values_model(span_attrs@) == attrs_model("span"@, c.span_attrs as nat),
                key_values_model(scope_attrs@) == attrs_model("scope"@, c.scope_attrs as nat),
                self@ == advanced(g, 2 * (s * n), 0),
                scopes.len() == s,
                forall|j: int| 0 <= j < s ==> #[trigger] scopes@[j]@ == scope_spans_model(
                    config_scope(j, c.scope_attrs as nat),
                    config_scope_spans(tick(g.time, 2 * (j * n)), before + j * n, n as nat, attrs_model("span"@, c.span_attrs as nat)),
                ),
            decreases c.scopes_per_resource - s,
        {
            proof {
                lemma_block_step(s as int, n as int, c.scopes_per_resource as int);
            }
            let spans = self.config_spans(n, done, span_attrs);
            let scope = scope_numbered(s, copy_key_values(scope_attrs));
            scopes.push(ScopeSpans::new(scope, spans));
            done = done + n as u64;
            s += 1;
        }
        let r = ResourceSpans::new(Resource::with_attributes(copy_key_values(resource_attrs)), scopes);
        assert(r@ =~~= config_resource_spans(*c, g.time, before as int));
        r
    }

    /// Generate traces from the configured shape: `num_resources` resources of
    /// `scopes_per_resource` scopes of `spans_per_scope` spans each, numbered
    /// from one on in the order they are built, every span taking two fresh
    /// timestamps.
    pub fn generate_traces_from_config(&mut self) -> (r: TracesData)
        requires
            old(self)@.traces_config is Some,
            old(self)@.time + 2 * span_count(old(self)@.traces_config->0) * TIME_STEP <= u64::MAX,
        ensures
            r@ == traces_from_config_model(old(self)@.traces_config->0, old(self)@.time),
            final(self)@ == advanced(old(self)@, 2 * span_count(old(self)@.traces_config->0), 0),
    {
        let ghost g = self@;
        let shape = self.traces_shape();
        let c = TracesConfig {
            spans_per_scope: shape.spans_per_scope,
            num_resources: shape.num_resources,
            scopes_per_resource: shape.scopes_per_resource,
            resource_attrs: shape.resource_attrs,
            scope_attrs: shape.scope_attrs,
            span_attrs: shape.span_attrs,
        };
        let span_attrs = generate_attrs("span", c.span_attrs);
        let scope_attrs = generate_attrs("scope", c.scope_attrs);
        let resource_attrs = generate_attrs("resource", c.resource_attrs);
        let ghost per = spans_per_resource(c);
        proof {
            assert(per >= 0) by (nonlinear_arith)
                requires per == c.scopes_per_resource * c.spans_per_scope;
        }
        let mut resources: Vec<ResourceSpans> = Vec::with_capacity(c.num_resources);
        let mut r: usize = 0;
        let mut done: u64 = 0;
        while r < c.num_resources
            invariant
                r <= c.num_resources,
                c == g.traces_config->0,
                per == spans_per_resource(c),
                per >= 0,
                done == r * per,
                g.time + 2 * span_count(c) * TIME_STEP <= u64::MAX,
                key_values_model(span_attrs@) == attrs_model("span"@, c.span_attrs as nat),
                key_values_model(scope_attrs@) == attrs_model("scope"@, c.scope_attrs as nat),
                key_values_model(resource_attrs@) == attrs_model("resource"@, c.resource_attrs as nat),
                self@ == advanced(g, 2 * (r * per), 0),
                resources.len() == r,
                forall|j: int| 0 <= j < r ==> #[trigger] resources@[j]@ == config_resource_spans(c, tick(g.time, 2 * (j * per)), j * per),
            decreases c.num_resources - r,
        {
            proof {
                lemma_block_step(r as int, per, c.num_resources as int);
            }
            let res = self.config_resource_spans_of(&c, done, &span_attrs, &scope_attrs, &resource_attrs);
            resources.push(res);
            done = done + (c.scopes_per_resource as u64) * (c.spans_per_scope as u64);
            r += 1;
        }
        let out = TracesData::new(resources);
        assert(out@ =~~= traces_from_config_model(c, g.time));
        out
    }
}

/* ------------------------------ metrics ------------------------------ */

/// The binary64 bit pattern of `0.5`.
pub const BINARY64_ONE_HALF: u64 = 0x3FE0_0000_0000_0000;

/// The binary64 bit pattern of `0.95`.
pub const BINARY64_NINETY_FIVE_HUNDREDTHS: u64 = 0x3FEE_6666_6666_6666;

/// The attributes of the `i`-th point of a metric: `point_id = i` when
/// attributes vary, none otherwise.
pub open spec fn point_attrs(i: int, vary: bool) -> Seq<KeyValueModel> {
    if vary {
        seq![attr("point_id"@, AnyValueModel::Int(i as i64))]
    } else {
        Seq::empty()
    }
}

fn point_attrs_of(i: usize, vary: bool) -> (r: Vec<KeyValue>)
    requires
        i <= i64::MAX,
    ensures
        key_values_model(r@) == point_attrs(i as int, vary),
{
    if vary {
        attrs1(KeyValue::new("point_id", AnyValue::new_int(i as i64)))
    } else {
        let r: Vec<KeyValue> = Vec::new();
        assert(key_values_model(r@) =~= Seq::<KeyValueModel>::empty());
        r
    }
}

/// The points of a configured gauge or sum, stamped from `t` on: point `i`
/// holds `(i + 1) * 10.0`.
pub open spec fn number_points(t: u64, n: nat, vary: bool) -> Seq<NumberDataPointModel> {
    Seq::new(
        n,
        |i: int|
            NumberDataPointModel {
                attributes: point_attrs(i, vary),
                start_time_unix_nano: 0,
                time_unix_nano: tick(t, i),
                value: Some(NumberValue::AsDouble(binary64_of((10 * (i + 1)) as nat))),
                flags: 0,
            },
    )
}

/// The points of a configured histogram, stamped from `t` on: point `i`
/// counts `10 + i` values summing to `100 + 10 i`, in four buckets bounded by
/// 0, 10, 50 and 100.
pub open spec fn histogram_points(t: u64, n: nat, vary: bool) -> Seq<HistogramDataPointModel> {
    Seq::new(
        n,
        |i: int|
            HistogramDataPointModel {
                attributes: point_attrs(i, vary),
                start_time_unix_nano: 0,
                time_unix_nano: tick(t, i),
                count: (10 + i) as u64,
                sum: Some(binary64_of((100 + 10 * i) as nat)),
                bucket_counts: seq![1u64, 2u64, 3u64, 4u64],
                explicit_bounds: seq![binary64_of(0), binary64_of(10), binary64_of(50), binary64_of(100)],
                flags: 0,
                min: None,
                max: None,
            },
    )
}

/// The points of a configured summary, stamped from `t` on: point `i` counts
/// `20 + i` values summing to `200 + 20 i`, with median `50 + i` and 95th
/// percentile `95 + i`.
pub open spec fn summary_points(t: u64, n: nat, vary: bool) -> Seq<SummaryDataPointModel> {
    Seq::new(
        n,
        |i: int|
            SummaryDataPointModel {
                attributes: point_attrs(i, vary),
                start_time_unix_nano: 0,
                time_unix_nano: tick(t, i),
                count: (20 + i) as u64,
                sum: binary64_of((200 + 20 * i) as nat),
                quantile_values: seq![
                    ValueAtQuantile { quantile: BINARY64_ONE_HALF, value: binary64_of((50 + i) as nat) },
                    ValueAtQuantile { quantile: BINARY64_NINETY_FIVE_HUNDREDTHS, value: binary64_of((95 + i) as nat) },
                ],
                flags: 0,
            },
    )
}

/// The four kinds of configured metrics, in the order they are generated.
#[derive(Clone, Copy, PartialEq, Eq, Debug)]
pub enum MetricKind {
    Gauge,
    Sum,
    Histogram,
    Summary,
}

/// The name of the `idx`-th metric of a kind.
pub open spec fn kind_name(kind: MetricKind, idx: int) -> Seq<char> {
    match kind {
        MetricKind::Gauge => "gauge_"@ + decimal(idx as nat),
        MetricKind::Sum => "sum_"@ + decimal(idx as nat),
        MetricKind::Histogram => "histogram_"@ + decimal(idx as nat),
        MetricKind::Summary => "summary_"@ + decimal(idx as nat),
    }
}

/// The description of the `idx`-th metric of a kind.
pub open spec fn kind_description(kind: MetricKind, idx: int) -> Seq<char> {
    match kind {
        MetricKind::Gauge => "Gauge metric "@ + decimal(idx as nat),
        MetricKind::Sum => "Sum metric "@ + decimal(idx as nat),
        MetricKind::Histogram => "Histogram metric "@ + decimal(idx as nat),
        MetricKind::Summary => "Summary metric "@ + decimal(idx as nat),
    }
}

/// The unit of the metrics of a kind.
pub open spec fn kind_unit(kind: MetricKind) -> Seq<char> {
    match kind {
        MetricKind::Gauge => "1"@,
        MetricKind::Sum => "1"@,
        MetricKind::Histogram => "s"@,
        MetricKind::Summary => "ms"@,
    }
}

/// The data of a metric of a kind with `n` points stamped from `t` on:
/// sums are cumulative and monotonic, histograms delta.
pub open spec fn kind_data(kind: MetricKind, t: u64, n: nat, vary: bool) -> MetricDataModel {
    match kind {
        MetricKind::Gauge => MetricDataModel::Gauge { data_points: number_points(t, n, vary) },
        MetricKind::Sum => MetricDataModel::Sum {
            data_points: number_points(t, n, vary),
            aggregation_temporality: AGGREGATION_TEMPORALITY_CUMULATIVE,
            is_monotonic: true,
        },
        MetricKind::Histogram => MetricDataModel::Histogram {
            data_points: histogram_points(t, n, vary),
            aggregation_temporality: AGGREGATION_TEMPORALITY_DELTA,
        },
        MetricKind::Summary => MetricDataModel::Summary { data_points: summary_points(t, n, vary) },
    }
}

/// The metrics of one kind with the given point counts, stamped from `t` on:
/// metric `idx` starts after the points of the metrics before it.
pub open spec fn kind_metrics(kind: MetricKind, counts: Seq<usize>, vary: bool, metric_attrs: nat, t: u64) -> Seq<MetricModel> {
    Seq::new(
        counts.len(),
        |idx: int|
            described_metric(
                kind_name(kind, idx),
                kind_description(kind, idx),
                kind_unit(kind),
                attrs_model("metric"@, metric_attrs),
                kind_data(kind, tick(t, total(counts.subrange(0, idx)) as int), counts[idx] as nat, vary),
            ),
    )
}

/// The metrics of configuration `c`, stamped from `t` on: gauges, then sums,
/// then histograms, then summaries.
pub open spec fn config_metrics(c: MetricsConfig, t: u64) -> Seq<MetricModel> {
    let g = total(c.gauge_points@) as int;
    let s = total(c.sum_points@) as int;
    let h = total(c.histogram_points@) as int;
    let vary = c.vary_attributes;
    let ma = c.metric_attrs as nat;
    kind_metrics(MetricKind::Gauge, c.gauge_points@, vary, ma, t)
        + kind_metrics(MetricKind::Sum, c.sum_points@, vary, ma, tick(t, g))
        + kind_metrics(MetricKind::Histogram, c.histogram_points@, vary, ma, tick(t, g + s))
        + kind_metrics(MetricKind::Summary, c.summary_points@, vary, ma, tick(t, g + s + h))
}

/// The metrics generated from configuration `c`, stamped from `t` on: every
/// scope of every resource holds the same metrics.
pub open spec fn metrics_from_config_model(c: MetricsConfig, t: u64) -> Seq<ResourceMetricsModel> {
    Seq::new(
        c.num_resources as nat,
        |r: int|
            resource_metrics_model(
                config_resource(c.resource_attrs as nat),
                Seq::new(
                    c.scopes_per_resource as nat,
                    |s: int| scope_metrics_model(config_scope(s, c.scope_attrs as nat), config_metrics(c, t)),
                ),
            ),
    )
}

fn copy_counts(v: &Vec<usize>) -> (r: Vec<usize>)
    ensures
        r@ == v@,
{
    let mut r: Vec<usize> = Vec::with_capacity(v.len());
    let mut i: usize = 0;
    while i < v.len()
        invariant
            i <= v.len(),
            r@ == v@.subrange(0, i as int),
        decreases v.len() - i,
    {
        r.push(v[i]);
        i += 1;
        assert(r@ =~= v@.subrange(0, i as int));
    }
    assert(v@.subrange(0, v.len() as int) =~= v@);
    r
}

impl DataGenerator {
    /// Number data points `(i + 1) * 10.0` for `i` in `0..n`.
    fn build_number_data_points(&mut self, n: usize, vary: bool) -> (r: Vec<NumberDataPoint>)
        requires
            old(self)@.time + n * TIME_STEP <= u64::MAX,
        ensures
            r@.map_values(|p: NumberDataPoint| p@) == number_points(old(self)@.time, n as nat, vary),
            final(self)@ == advanced(old(self)@, n as int, 0),
    {
        let ghost g = self@;
        let mut out: Vec<NumberDataPoint> = Vec::with_capacity(n);
        let mut i: usize = 0;
        while i < n
            invariant
                i <= n,
                g.time + n * TIME_STEP <= u64::MAX,
                self@ == advanced(g, i as int, 0),
                out.len() == i,
                forall|j: int| 0 <= j < i ==> #[trigger] out@[j]@ == number_points(g.time, n as nat, vary)[j],
            decreases n - i,
        {
            let value = binary64_from_int((i as u64 + 1) * 10);
            let time = self.timestamp();
            out.push(NumberDataPoint {
                attributes: point_attrs_of(i, vary),
                start_time_unix_nano: 0,
                time_unix_nano: time,
                value: Some(NumberValue::AsDouble(value)),
                flags: 0,
            });
            i += 1;
        }
        assert(out@.map_values(|p: NumberDataPoint| p@) =~= number_points(g.time, n as nat, vary));
        out
    }

    /// Histogram data points for `i` in `0..n`.
    fn build_histogram_data_points(&mut self, n: usize, vary: bool) -> (r: Vec<HistogramDataPoint>)
        requires
            old(self)@.time + n * TIME_STEP <= u64::MAX,
        ensures
            r@.map_values(|p: HistogramDataPoint| p@) == histogram_points(old(self)@.time, n as nat, vary),
            final(self)@ == advanced(old(self)@, n as int, 0),
    {
        let ghost g = self@;
        let b0 = binary64_from_int(0);
        let b10 = binary64_from_int(10);
        let b50 = binary64_from_int(50);
        let b100 = binary64_from_int(100);
        let mut out: Vec<HistogramDataPoint> = Vec::with_capacity(n);
        let mut i: usize = 0;
        while i < n
            invariant
                i <= n,
                g.time + n * TIME_STEP <= u64::MAX,
                b0 == binary64_of(0),
                b10 == binary64_of(10),
                b50 == binary64_of(50),
                b100 == binary64_of(100),
                self@ == advanced(g, i as int, 0),
                out.len() == i,
                forall|j: int| 0 <= j < i ==> #[trigger] out@[j]@ == histogram_points(g.time, n as nat, vary)[j],
            decreases n - i,
        {
            let time = self.timestamp();
            let sum = binary64_from_int(100 + i as u64 * 10);
            let p = HistogramDataPoint {
                attributes: point_attrs_of(i, vary),
                start_time_unix_nano: 0,
                time_unix_nano: time,
                count: 10 + i as u64,
                sum: Some(sum),
                bucket_counts: vec![1, 2, 3, 4],
                explicit_bounds: vec![b0, b10, b50, b100],
                flags: 0,
                min: None,
                max: None,
            };
            assert(p@ =~~= histogram_points(g.time, n as nat, vary)[i as int]);
            out.push(p);
            i += 1;
        }
        assert(out@.map_values(|p: HistogramDataPoint| p@) =~= histogram_points(g.time, n as nat, vary));
        out
    }

    /// Summary data points for `i` in `0..n`.
    fn build_summary_data_points(&mut self, n: usize, vary: bool) -> (r: Vec<SummaryDataPoint>)
        requires
            old(self)@.time + n * TIME_STEP <= u64::MAX,
        ensures
            r@.map_values(|p: SummaryDataPoint| p@) == summary_points(old(self)@.time, n as nat, vary),
            final(self)@ == advanced(old(self)@, n as int, 0),
    {
        let ghost g = self@;
        let mut out: Vec<SummaryDataPoint> = Vec::with_capacity(n);
        let mut i: usize = 0;
        while i < n
            invariant
                i <= n,
                g.time + n * TIME_STEP <= u64::MAX,
                self@ == advanced(g, i as int, 0),
                out.len() == i,
                forall|j: int| 0 <= j < i ==> #[trigger] out@[j]@ == summary_points(g.time, n as nat, vary)[j],
            decreases n - i,
        {
            let time = self.timestamp();
            let sum = binary64_from_int(200 + i as u64 * 20);
            let median = binary64_from_int(50 + i as u64);
            let high = binary64_from_int(95 + i as u64);
            let p = SummaryDataPoint {
                attributes: point_attrs_of(i, vary),
                start_time_unix_nano: 0,
                time_unix_nano: time,
                count: 20 + i as u64,
                sum,
                quantile_values: vec![
                    ValueAtQuantile { quantile: BINARY64_ONE_HALF, value: median },
                    ValueAtQuantile { quantile: BINARY64_NINETY_FIVE_HUNDREDTHS, value: high },
                ],
                flags: 0,
            };
            assert(p@ =~~= summary_points(g.time, n as nat, vary)[i as int]);
            out.push(p);
            i += 1;
        }
        assert(out@.map_values(|p: SummaryDataPoint| p@) =~= summary_points(g.time, n as nat, vary));
        out
    }

    fn kind_data_of(&mut self, kind: MetricKind, n: usize, vary: bool) -> (r: MetricData)
        requires
            old(self)@.time + n * TIME_STEP <= u64::MAX,
        ensures
            r@ == kind_data(kind, old(self)@.time, n as nat, vary),
            final(self)@ == advanced(old(self)@, n as int, 0),
    {
        match kind {
            MetricKind::Gauge => MetricData::Gauge(Gauge { data_points: self.build_number_data_points(n, vary) }),
            MetricKind::Sum => MetricData::Sum(Sum::new(
                AGGREGATION_TEMPORALITY_CUMULATIVE,
                true,
                self.build_number_data_points(n, vary),
            )),
            MetricKind::Histogram => MetricData::Histogram(Histogram {
                data_points: self.build_histogram_data_points(n, vary),
                aggregation_temporality: AGGREGATION_TEMPORALITY_DELTA,
            }),
            MetricKind::Summary => MetricData::Summary(Summary { data_points: self.build_summary_data_points(n, vary) }),
        }
    }

    fn kind_metrics_of(
        &mut self,
        kind: MetricKind,
        counts: &Vec<usize>,
        vary: bool,
        metric_attrs: &Vec<KeyValue>,
        metric_attrs_count: usize,
        metrics: &mut Vec<Metric>,
    )
        requires
            old(self)@.time + total(counts@) * TIME_STEP <= u64::MAX,
            key_values_model(metric_attrs@) == attrs_model("metric"@, metric_attrs_count as nat),
        ensures
            final(metrics)@.map_values(|m: Metric| m@) == old(metrics)@.map_values(|m: Metric| m@)
                + kind_metrics(kind, counts@, vary, metric_attrs_count as nat, old(self)@.time),
            final(self)@ == advanced(old(self)@, total(counts@) as int, 0),
    {
        let ghost g = self@;
        let ghost before = metrics@.map_values(|m: Metric| m@);
        let ghost model = kind_metrics(kind, counts@, vary, metric_attrs_count as nat, g.time);
        let mut idx: usize = 0;
        while idx < counts.len()
            invariant
                idx <= counts.len(),
                g.time + total(counts@) * TIME_STEP <= u64::MAX,
                key_values_model(metric_attrs@) == attrs_model("metric"@, metric_attrs_count as nat),
                model == kind_metrics(kind, counts@, vary, metric_attrs_count as nat, g.time),
                self@ == advanced(g, total(counts@.subrange(0, idx as int)) as int, 0),
                metrics@.map_values(|m: Metric| m@) == before + model.subrange(0, idx as int),
            decreases counts.len() - idx,
        {
            proof {
                assert(counts@.subrange(0, idx + 1).drop_last() =~= counts@.subrange(0, idx as int));
                crate::testing::config::lemma_total_prefix(counts@, idx + 1);
            }
            let n = counts[idx];
            let data = self.kind_data_of(kind, n, vary);
            let (name, description, unit) = match kind {
                MetricKind::Gauge => (with_decimal("gauge_", idx as u64), with_decimal("Gauge metric ", idx as u64), "1"),
                MetricKind::Sum => (with_decimal("sum_", idx as u64), with_decimal("Sum metric ", idx as u64), "1"),
                MetricKind::Histogram => (with_decimal("histogram_", idx as u64), with_decimal("Histogram metric ", idx as u64), "s"),
                MetricKind::Summary => (with_decimal("summary_", idx as u64), with_decimal("Summary metric ", idx as u64), "ms"),
            };
            let m = Metric::described(name, description, unit, copy_key_values(metric_attrs), data);
            let ghost prev = metrics@;
            metrics.push(m);
            proof {
                assert(m@ == model[idx as int]);
                assert(metrics@.map_values(|m: Metric| m@) =~= prev.map_values(|m: Metric| m@).push(m@));
                assert(model.subrange(0, idx + 1) =~= model.subrange(0, idx as int).push(model[idx as int]));
                assert(metrics@.map_values(|m: Metric| m@) =~= before + model.subrange(0, idx + 1));
            }
            idx += 1;
        }
        assert(counts@.subrange(0, counts.len() as int) =~= counts@);
        assert(model.subrange(0, counts.len() as int) =~= model);
    }

    /// Generate metrics from the configured shape: gauges, sums, histograms
    /// and summaries with the configured point counts, every point taking a
    /// fresh timestamp; each of `scopes_per_resource` scopes of each of
    /// `num_resources` resources holds the same metrics.
    pub fn generate_metrics_from_config(&mut self) -> (r: MetricsData)
        requires
            old(self)@.metrics_config is Some,
            old(self)@.time + old(self)@.metrics_config->0.spec_total_points() * TIME_STEP <= u64::MAX,
        ensures
            r@ == metrics_from_config_model(old(self)@.metrics_config->0, old(self)@.time),
            final(self)@ == advanced(old(self)@, old(self)@.metrics_config->0.spec_total_points() as int, 0),
    {
        let ghost g = self@;
        let ghost c = g.metrics_config->0;
        let shape = self.metrics_shape();
        let gauges = copy_counts(&shape.gauge_points);
        let sums = copy_counts(&shape.sum_points);
        let histograms = copy_counts(&shape.histogram_points);
        let summaries = copy_counts(&shape.summary_points);
        let vary = shape.vary_attributes;
        let num_resources = shape.num_resources;
        let scopes_per_resource = shape.scopes_per_resource;
        let resource_attrs_count = shape.resource_attrs;
        let scope_attrs_count = shape.scope_attrs;
        let metric_attrs_count = shape.metric_attrs;
        let metric_attrs = generate_attrs("metric", metric_attrs_count);
        let mut metrics: Vec<Metric> = Vec::new();
        let ghost tg = total(c.gauge_points@) as int;
        let ghost ts = total(c.sum_points@) as int;
        let ghost th = total(c.histogram_points@) as int;
        self.kind_metrics_of(MetricKind::Gauge, &gauges, vary, &metric_attrs, metric_attrs_count, &mut metrics);
        self.kind_metrics_of(MetricKind::Sum, &sums, vary, &metric_attrs, metric_attrs_count, &mut metrics);
        self.kind_metrics_of(MetricKind::Histogram, &histograms, vary, &metric_attrs, metric_attrs_count, &mut metrics);
        self.kind_metrics_of(MetricKind::Summary, &summaries, vary, &metric_attrs, metric_attrs_count, &mut metrics);
        proof {
            assert(metrics@.map_values(|m: Metric| m@) =~= config_metrics(c, g.time));
        }
        let scope_attrs = generate_attrs("scope", scope_attrs_count);
        let resource_attrs = generate_attrs("resource", resource_attrs_count);
        let mut resources: Vec<ResourceMetrics> = Vec::with_capacity(num_resources);
        let mut r: usize = 0;
        while r < num_resources
            invariant
                r <= num_resources,
                num_resources == c.num_resources,
                scopes_per_resource == c.scopes_per_resource,
                metrics@.map_values(|m: Metric| m@) == config_metrics(c, g.time),
                key_values_model(scope_attrs@) == attrs_model("scope"@, c.scope_attrs as nat),
                key_values_model(resource_attrs@) == attrs_model("resource"@, c.resource_attrs as nat),
                resources.len() == r,
                forall|j: int| 0 <= j < r ==> #[trigger] resources@[j]@ == metrics_from_config_model(c, g.time)[j],
            decreases num_resources - r,
        {
            let mut scopes: Vec<ScopeMetrics> = Vec::with_capacity(scopes_per_resource);
            let mut s: usize = 0;
            while s < scopes_per_resource
                invariant
                    s <= scopes_per_resource,
                    scopes_per_resource == c.scopes_per_resource,
                    metrics@.map_values(|m: Metric| m@) == config_metrics(c, g.time),
                    key_values_model(scope_attrs@) == attrs_model("scope"@, c.scope_attrs as nat),
                    scopes.len() == s,
                    forall|j: int| 0 <= j < s ==> #[trigger] scopes@[j]@ == scope_metrics_model(config_scope(j, c.scope_attrs as nat), config_metrics(c, g.time)),
                decreases scopes_per_resource - s,
            {
                let scope = scope_numbered(s, copy_key_values(&scope_attrs));
                scopes.push(ScopeMetrics::new(scope, copy_metrics(&metrics)));
                s += 1;
            }
            let res = ResourceMetrics::new(Resource::with_attributes(copy_key_values(&resource_attrs)), scopes);
            assert(res@ =~~= metrics_from_config_model(c, g.time)[r as int]);
            resources.push(res);
            r += 1;
        }
        let out = MetricsData::new(resources);
        assert(out@ =~~= metrics_from_config_model(c, g.time));
        out
    }
}

/* ------------------------------ laws ------------------------------ */

/// Positions in a grid of `rows` by `cols` cells numbered row by row are
/// distinct: `r1 * cols + c1 == r2 * cols + c2` only for the same cell.
proof fn lemma_row_major_injective(r1: int, c1: int, r2: int, c2: int, cols: int)
    requires
        0 <= c1 < cols,
        0 <= c2 < cols,
        r1 * cols + c1 == r2 * cols + c2,
    ensures
        r1 == r2,
        c1 == c2,
{
    vstd::arithmetic::div_mod::lemma_fundamental_div_mod_converse(r1 * cols + c1, cols, r1, c1);
    vstd::arithmetic::div_mod::lemma_fundamental_div_mod_converse(r2 * cols + c2, cols, r2, c2);
}

/// The position of record `l` of scope `s` of resource `r` among all the
/// records generated from `c`, in build order.
pub open spec fn log_position(c: LogsConfig, r: int, s: int, l: int) -> int {
    (r * c.scopes_per_resource + s) * c.logs_per_scope + l
}

/// Law: the configured logs have `num_resources` resources, each with
/// `scopes_per_resource` scopes named `scope_{s}`, each with
/// `logs_per_scope` records; and record `l` of scope `s` of resource `r`
/// carries the timestamps `2k` and `2k + 1` steps after the start, where
/// `k` is its position in build order.
pub proof fn law_config_log_shape_and_times(c: LogsConfig, t: u64, r: int, s: int, l: int)
    requires
        t + 2 * log_count(c) * TIME_STEP <= u64::MAX,
        0 <= r < c.num_resources,
        0 <= s < c.scopes_per_resource,
        0 <= l < c.logs_per_scope,
    ensures
        logs_from_config_model(c, t).len() == c.num_resources,
        logs_from_config_model(c, t)[r].scope_logs.len() == c.scopes_per_resource,
        logs_from_config_model(c, t)[r].scope_logs[s].scope == Some(config_scope(s, c.scope_attrs as nat)),
        logs_from_config_model(c, t)[r].scope_logs[s].log_records.len() == c.logs_per_scope,
        logs_from_config_model(c, t)[r].scope_logs[s].log_records[l].time_unix_nano
            == t + 2 * log_position(c, r, s, l) * TIME_STEP,
        logs_from_config_model(c, t)[r].scope_logs[s].log_records[l].observed_time_unix_nano
            == t + (2 * log_position(c, r, s, l) + 1) * TIME_STEP,
{
    let ss = c.scopes_per_resource as int;
    let ll = c.logs_per_scope as int;
    let k = log_position(c, r, s, l);
    assert(log_count(c) == c.num_resources * (ss * ll));
    assert(k < log_count(c)) by (nonlinear_arith)
        requires
            k == (r * ss + s) * ll + l,
            log_count(c) == c.num_resources * (ss * ll),
            0 <= r < c.num_resources,
            0 <= s < ss,
            0 <= l < ll,
    {
        assert((r * ss + s) * ll + l < (r * ss + s + 1) * ll);
        assert(r * ss + s + 1 <= (r + 1) * ss);
        assert((r * ss + s + 1) * ll <= (r + 1) * ss * ll);
        assert((r + 1) * ss * ll <= c.num_resources * ss * ll);
    }
    assert(0 <= r * (ss * ll) && 0 <= s * ll && 0 <= k) by (nonlinear_arith)
        requires 0 <= r, 0 <= s, 0 <= l, 0 <= ss, 0 <= ll, k == (r * ss + s) * ll + l;
    assert(k == r * (ss * ll) + s * ll + l) by (nonlinear_arith)
        requires k == (r * ss + s) * ll + l;
}

/// Law: the timestamps of the configured logs are unique: two different
/// records never share a timestamp.
pub proof fn law_config_log_times_unique(
    c: LogsConfig,
    t: u64,
    r1: int, s1: int, l1: int,
    r2: int, s2: int, l2: int,
)
    requires
        t + 2 * log_count(c) * TIME_STEP <= u64::MAX,
        0 <= r1 < c.num_resources,
        0 <= s1 < c.scopes_per_resource,
        0 <= l1 < c.logs_per_scope,
        0 <= r2 < c.num_resources,
        0 <= s2 < c.scopes_per_resource,
        0 <= l2 < c.logs_per_scope,
        (r1, s1, l1) != (r2, s2, l2),
    ensures
        logs_from_config_model(c, t)[r1].scope_logs[s1].log_records[l1].time_unix_nano
            != logs_from_config_model(c, t)[r2].scope_logs[s2].log_records[l2].time_unix_nano,
{
    law_config_log_shape_and_times(c, t, r1, s1, l1);
    law_config_log_shape_and_times(c, t, r2, s2, l2);
    if log_position(c, r1, s1, l1) == log_position(c, r2, s2, l2) {
        lemma_row_major_injective(
            r1 * c.scopes_per_resource + s1, l1,
            r2 * c.scopes_per_resource + s2, l2,
            c.logs_per_scope as int,
        );
        lemma_row_major_injective(r1, s1, r2, s2, c.scopes_per_resource as int);
    }
}

/// The number of the `p`-th span of scope `s` of resource `r` (from one
/// on, in build order).
pub open spec fn span_number(c: TracesConfig, r: int, s: int, p: int) -> int {
    (r * c.scopes_per_resource + s) * c.spans_per_scope + p + 1
}

/// Law: the configured traces have `num_resources` resources, each with
/// `scopes_per_resource` scopes, each with `spans_per_scope` spans; span `p`
/// of scope `s` of resource `r` is numbered by its position in build order
/// (from one on), carries that number as its big-endian span id and in its
/// name, and takes the timestamps two steps per earlier span after the start.
pub proof fn law_config_span_numbering(c: TracesConfig, t: u64, r: int, s: int, p: int)
    requires
        t + 2 * span_count(c) * TIME_STEP <= u64::MAX,
        0 <= r < c.num_resources,
        0 <= s < c.scopes_per_resource,
        0 <= p < c.spans_per_scope,
    ensures
        traces_from_config_model(c, t).len() == c.num_resources,
        traces_from_config_model(c, t)[r].scope_spans.len() == c.scopes_per_resource,
        traces_from_config_model(c, t)[r].scope_spans[s].spans.len() == c.spans_per_scope,
        span_number(c, r, s, p) <= span_count(c),
        traces_from_config_model(c, t)[r].scope_spans[s].spans[p].span_id == be_bytes(span_number(c, r, s, p) as u64),
        traces_from_config_model(c, t)[r].scope_spans[s].spans[p].name == "span_"@ + decimal(span_number(c, r, s, p) as nat),
        traces_from_config_model(c, t)[r].scope_spans[s].spans[p].start_time_unix_nano
            == t + 2 * (span_number(c, r, s, p) - 1) * TIME_STEP,
{
    let ss = c.scopes_per_resource as int;
    let pp = c.spans_per_scope as int;
    let k = span_number(c, r, s, p) - 1;
    assert(span_count(c) == c.num_resources * (ss * pp));
    assert(k < span_count(c)) by (nonlinear_arith)
        requires
            k == (r * ss + s) * pp + p,
            span_count(c) == c.num_resources * (ss * pp),
            0 <= r < c.num_resources,
            0 <= s < ss,
            0 <= p < pp,
    {
        assert((r * ss + s) * pp + p < (r * ss + s + 1) * pp);
        assert(r * ss + s + 1 <= (r + 1) * ss);
        assert((r * ss + s + 1) * pp <= (r + 1) * ss * pp);
        assert((r + 1) * ss * pp <= c.num_resources * ss * pp);
    }
    assert(0 <= r * (ss * pp) && 0 <= s * pp && 0 <= k) by (nonlinear_arith)
        requires 0 <= r, 0 <= s, 0 <= p, 0 <= ss, 0 <= pp, k == (r * ss + s) * pp + p;
    assert(k == r * (ss * pp) + s * pp + p) by (nonlinear_arith)
        requires k == (r * ss + s) * pp + p;
}

/// The number of data points of metric data.
pub open spec fn data_point_count(d: MetricDataModel) -> nat {
    match d {
        MetricDataModel::Gauge { data_points } => data_points.len(),
        MetricDataModel::Sum { data_points, .. } => data_points.len(),
        MetricDataModel::Histogram { data_points, .. } => data_points.len(),
        MetricDataModel::Summary { data_points } => data_points.len(),
    }
}

/// Law: every scope of every resource of the configured metrics holds the
/// same metrics, one per configured point count (gauges first, then sums,
/// histograms and summaries).
pub proof fn law_config_metrics_shared(c: MetricsConfig, t: u64, r: int, s: int)
    requires
        0 <= r < c.num_resources,
        0 <= s < c.scopes_per_resource,
    ensures
        metrics_from_config_model(c, t)[r].scope_metrics[s].metrics == config_metrics(c, t),
        config_metrics(c, t).len() == c.spec_metric_count(),
{
}

/// Law: the `idx`-th metric of a kind holds as many data points as its
/// configured count, of the kind's data.
pub proof fn law_kind_metric_points(kind: MetricKind, counts: Seq<usize>, vary: bool, metric_attrs: nat, t: u64, idx: int)
    requires
        0 <= idx < counts.len(),
    ensures
        kind_metrics(kind, counts, vary, metric_attrs, t)[idx].data is Some,
        data_point_count(kind_metrics(kind, counts, vary, metric_attrs, t)[idx].data->0) == counts[idx],
{
}

/// The number of data points of a sequence of metrics.
pub open spec fn metrics_points(ms: Seq<MetricModel>) -> nat
    decreases ms.len(),
{
    if ms.len() == 0 {
        0
    } else {
        metrics_points(ms.drop_last()) + match ms.last().data {
            Some(d) => data_point_count(d),
            None => 0,
        }
    }
}

proof fn lemma_metrics_points_concat(a: Seq<MetricModel>, b: Seq<MetricModel>)
    ensures
        metrics_points(a + b) == metrics_points(a) + metrics_points(b),
    decreases b.len(),
{
    if b.len() == 0 {
        assert(a + b =~= a);
    } else {
        lemma_metrics_points_concat(a, b.drop_last());
        assert((a + b).drop_last() =~= a + b.drop_last());
    }
}

proof fn lemma_kind_metrics_points(kind: MetricKind, counts: Seq<usize>, vary: bool, metric_attrs: nat, t: u64)
    ensures
        metrics_points(kind_metrics(kind, counts, vary, metric_attrs, t)) == crate::testing::config::total(counts),
    decreases counts.len(),
{
    if counts.len() > 0 {
        let shorter = counts.drop_last();
        lemma_kind_metrics_points(kind, shorter, vary, metric_attrs, t);
        let ms = kind_metrics(kind, counts, vary, metric_attrs, t);
        let ns = kind_metrics(kind, shorter, vary, metric_attrs, t);
        assert forall|idx: int| 0 <= idx < shorter.len() implies counts.subrange(0, idx) == shorter.subrange(0, idx) by {
            assert(counts.subrange(0, idx) =~= shorter.subrange(0, idx));
        }
        assert(ms.drop_last() =~= ns);
        law_kind_metric_points(kind, counts, vary, metric_attrs, t, counts.len() - 1);
    } else {
        assert(kind_metrics(kind, counts, vary, metric_attrs, t) =~= Seq::<MetricModel>::empty());
    }
}

/// Law: each scope of the configured metrics holds, over all its metrics, as
/// many data points as the configuration's total point count.
pub proof fn law_config_points_per_scope(c: MetricsConfig, t: u64)
    ensures
        metrics_points(config_metrics(c, t)) == c.spec_total_points(),
{
    let g = total(c.gauge_points@) as int;
    let sm = total(c.sum_points@) as int;
    let h = total(c.histogram_points@) as int;
    let vary = c.vary_attributes;
    let ma = c.metric_attrs as nat;
    let a = kind_metrics(MetricKind::Gauge, c.gauge_points@, vary, ma, t);
    let b = kind_metrics(MetricKind::Sum, c.sum_points@, vary, ma, tick(t, g));
    let d = kind_metrics(MetricKind::Histogram, c.histogram_points@, vary, ma, tick(t, g + sm));
    let e = kind_metrics(MetricKind::Summary, c.summary_points@, vary, ma, tick(t, g + sm + h));
    lemma_kind_metrics_points(MetricKind::Gauge, c.gauge_points@, vary, ma, t);
    lemma_kind_metrics_points(MetricKind::Sum, c.sum_points@, vary, ma, tick(t, g));
    lemma_kind_metrics_points(MetricKind::Histogram, c.histogram_points@, vary, ma, tick(t, g + sm));
    lemma_kind_metrics_points(MetricKind::Summary, c.summary_points@, vary, ma, tick(t, g + sm + h));
    lemma_metrics_points_concat(a, b);
    lemma_metrics_points_concat(a + b, d);
    lemma_metrics_points_concat(a + b + d, e);
}

} // verus!
