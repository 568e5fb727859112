//! Shapes of the telemetry that the data generator produces from a
//! configuration.
use vstd::prelude::*;

verus! {

/// The sum of a sequence of counts.
pub open spec fn total(s: Seq<usize>) -> nat
    decreases s.len(),
{
    if s.len() == 0 {
        0
    } else {
        total(s.drop_last()) + s.last() as nat
    }
}

/// Configuration for generating metrics with specific shapes.
#[derive(Debug, Clone)]
pub struct MetricsConfig {
    /// Number of data points per gauge metric (one gauge per entry).
    pub gauge_points: Vec<usize>,
    /// Number of data points per sum metric (one sum per entry).
    pub sum_points: Vec<usize>,
    /// Number of data points per histogram metric (one histogram per entry).
    pub histogram_points: Vec<usize>,
    /// Number of data points per summary metric (one summary per entry).
    pub summary_points: Vec<usize>,
    /// Whether to add varying attributes to data points.
    pub vary_attributes: bool,
    /// Number of distinct resources (default 1).
    pub num_resources: usize,
    /// Number of scopes per resource (default 1).
    pub scopes_per_resource: usize,
    /// Number of attributes per resource (default 0).
    pub resource_attrs: usize,
    /// Number of attributes per scope (default 0).
    pub scope_attrs: usize,
    /// Number of metadata attributes per metric (default 0).
    pub metric_attrs: usize,
}

impl MetricsConfig {
    /// No metrics, one resource with one scope, no attributes.
    pub open spec fn is_default(&self) -> bool {
        &&& self.gauge_points@ == Seq::<usize>::empty()
        &&& self.sum_points@ == Seq::<usize>::empty()
        &&& self.histogram_points@ == Seq::<usize>::empty()
        &&& self.summary_points@ == Seq::<usize>::empty()
        &&& !self.vary_attributes
        &&& self.num_resources == 1
        &&& self.scopes_per_resource == 1
        &&& self.resource_attrs == 0
        &&& self.scope_attrs == 0
        &&& self.metric_attrs == 0
    }

    /// The number of data points over all metrics.
    pub open spec fn spec_total_points(&self) -> nat {
        total(self.gauge_points@) + total(self.sum_points@) + total(self.histogram_points@)
            + total(self.summary_points@)
    }

    /// The number of metrics.
    pub open spec fn spec_metric_count(&self) -> nat {
        self.gauge_points@.len() + self.sum_points@.len() + self.histogram_points@.len()
            + self.summary_points@.len()
    }
}

impl Default for MetricsConfig {
    fn default() -> (r: MetricsConfig)
        ensures
            r.is_default(),
    {
        MetricsConfig {
            gauge_points: Vec::new(),
            sum_points: Vec::new(),
            histogram_points: Vec::new(),
            summary_points: Vec::new(),
            vary_attributes: false,
            num_resources: 1,
            scopes_per_resource: 1,
            resource_attrs: 0,
            scope_attrs: 0,
            metric_attrs: 0,
        }
    }
}

fn sum_counts(s: &Vec<usize>) -> (r: usize)
    requires
        total(s@) <= usize::MAX,
    ensures
        r == total(s@),
{
    let mut acc: usize = 0;
    let mut i: usize = 0;
    while i < s.len()
        invariant
            i <= s.len(),
            acc == total(s@.subrange(0, i as int)),
            total(s@) <= usize::MAX,
        decreases s.len() - i,
    {
        proof {
            assert(s@.subrange(0, i + 1).drop_last() =~= s@.subrange(0, i as int));
            lemma_total_prefix(s@, i + 1);
        }
        acc = acc + s[i];
        i += 1;
    }
    assert(s@.subrange(0, i as int) =~= s@);
    acc
}

/// A prefix of a sequence of counts sums to no more than the whole.
pub proof fn lemma_total_prefix(s: Seq<usize>, n: int)
    requires
        0 <= n <= s.len(),
    ensures
        total(s.subrange(0, n)) <= total(s),
    decreases s.len(),
{
    if n < s.len() {
        assert(s.drop_last().subrange(0, n) =~= s.subrange(0, n));
        lemma_total_prefix(s.drop_last(), n);
    } else {
        assert(s.subrange(0, n) =~= s);
    }
}

impl MetricsConfig {
    /// Create a new empty metrics configuration.
    pub fn new() -> (r: MetricsConfig)
        ensures
            r.is_default(),
    {
        MetricsConfig::default()
    }

    /// Add gauge metrics with the specified point counts.
    pub fn with_gauges(self, points: Vec<usize>) -> (r: MetricsConfig)
        ensures
            r == (MetricsConfig { gauge_points: points, ..self }),
    {
        MetricsConfig { gauge_points: points, ..self }
    }

    /// Add sum metrics with the specified point counts.
    pub fn with_sums(self, points: Vec<usize>) -> (r: MetricsConfig)
        ensures
            r == (MetricsConfig { sum_points: points, ..self }),
    {
        MetricsConfig { sum_points: points, ..self }
    }

    /// Add histogram metrics with the specified point counts.
    pub fn with_histograms(self, points: Vec<usize>) -> (r: MetricsConfig)
        ensures
            r == (MetricsConfig { histogram_points: points, ..self }),
    {
        MetricsConfig { histogram_points: points, ..self }
    }

    /// Add summary metrics with the specified point counts.
    pub fn with_summaries(self, points: Vec<usize>) -> (r: MetricsConfig)
        ensures
            r == (MetricsConfig { summary_points: points, ..self }),
    {
        MetricsConfig { summary_points: points, ..self }
    }

    /// Enable varying attributes on data points.
    pub fn with_varying_attributes(self, vary: bool) -> (r: MetricsConfig)
        ensures
            r == (MetricsConfig { vary_attributes: vary, ..self }),
    {
        MetricsConfig { vary_attributes: vary, ..self }
    }

    /// Set the number of distinct resources.
    pub fn with_resources(self, n: usize) -> (r: MetricsConfig)
        ensures
            r == (MetricsConfig { num_resources: n, ..self }),
    {
        MetricsConfig { num_resources: n, ..self }
    }

    /// Set the number of scopes per resource.
    pub fn with_scopes_per_resource(self, n: usize) -> (r: MetricsConfig)
        ensures
            r == (MetricsConfig { scopes_per_resource: n, ..self }),
    {
        MetricsConfig { scopes_per_resource: n, ..self }
    }

    /// Set the number of attributes per resource.
    pub fn with_resource_attrs(self, n: usize) -> (r: MetricsConfig)
        ensures
            r == (MetricsConfig { resource_attrs: n, ..self }),
    {
        MetricsConfig { resource_attrs: n, ..self }
    }

    /// Set the number of attributes per scope.
    pub fn with_scope_attrs(self, n: usize) -> (r: MetricsConfig)
        ensures
            r == (MetricsConfig { scope_attrs: n, ..self }),
    {
        MetricsConfig { scope_attrs: n, ..self }
    }

    /// Set the number of metadata attributes per metric.
    pub fn with_metric_attrs(self, n: usize) -> (r: MetricsConfig)
        ensures
            r == (MetricsConfig { metric_attrs: n, ..self }),
    {
        MetricsConfig { metric_attrs: n, ..self }
    }

    /// The total data point count across all metrics.
    pub fn total_points(&self) -> (r: usize)
        requires
            self.spec_total_points() <= usize::MAX,
        ensures
            r == self.spec_total_points(),
    {
        let g = sum_counts(&self.gauge_points);
        let s = sum_counts(&self.sum_points);
        let h = sum_counts(&self.histogram_points);
        let q = sum_counts(&self.summary_points);
        g + s + h + q
    }

    /// The total number of metrics.
    pub fn metric_count(&self) -> (r: usize)
        requires
            self.spec_metric_count() <= usize::MAX,
        ensures
            r == self.spec_metric_count(),
    {
        self.gauge_points.len() + self.sum_points.len() + self.histogram_points.len()
            + self.summary_points.len()
    }
}

/// Configuration for generating logs with a specific number of log records.
#[derive(Debug, Clone)]
pub struct LogsConfig {
    /// Number of log records per scope.
    pub logs_per_scope: usize,
    /// Number of distinct resources (default 1).
    pub num_resources: usize,
    /// Number of scopes per resource (default 1).
    pub scopes_per_resource: usize,
    /// Number of attributes per resource (default 0).
    pub resource_attrs: usize,
    /// Number of attributes per scope (default 0).
    pub scope_attrs: usize,
    /// Number of attributes per log record (default 0).
    pub log_attrs: usize,
}

impl LogsConfig {
    /// A configuration with `logs_per_scope` log records per scope, one
    /// resource with one scope, and no attributes.
    pub fn new(logs_per_scope: usize) -> (r: LogsConfig)
        ensures
            r == (LogsConfig {
                logs_per_scope,
                num_resources: 1,
                scopes_per_resource: 1,
                resource_attrs: 0,
                scope_attrs: 0,
                log_attrs: 0,
            }),
    {
        LogsConfig {
            logs_per_scope,
            num_resources: 1,
            scopes_per_resource: 1,
            resource_attrs: 0,
            scope_attrs: 0,
            log_attrs: 0,
        }
    }

    /// Set the number of distinct resources.
    pub fn with_resources(self, n: usize) -> (r: LogsConfig)
        ensures
            r == (LogsConfig { num_resources: n, ..self }),
    {
        LogsConfig { num_resources: n, ..self }
    }

    /// Set the number of scopes per resource.
    pub fn with_scopes_per_resource(self, n: usize) -> (r: LogsConfig)
        ensures
            r == (LogsConfig { scopes_per_resource: n, ..self }),
    {
        LogsConfig { scopes_per_resource: n, ..self }
    }

    /// Set the number of attributes per resource.
    pub fn with_resource_attrs(self, n: usize) -> (r: LogsConfig)
        ensures
            r == (LogsConfig { resource_attrs: n, ..self }),
    {
        LogsConfig { resource_attrs: n, ..self }
    }

    /// Set the number of attributes per scope.
    pub fn with_scope_attrs(self, n: usize) -> (r: LogsConfig)
        ensures
            r == (LogsConfig { scope_attrs: n, ..self }),
    {
        LogsConfig { scope_attrs: n, ..self }
    }

    /// Set the number of attributes per log record.
    pub fn with_log_attrs(self, n: usize) -> (r: LogsConfig)
        ensures
            r == (LogsConfig { log_attrs: n, ..self }),
    {
        LogsConfig { log_attrs: n, ..self }
    }
}

/// Configuration for generating traces with a specific number of spans.
#[derive(Debug, Clone)]
pub struct TracesConfig {
    /// Number of spans per scope.
    pub spans_per_scope: usize,
    /// Number of distinct resources (default 1).
    pub num_resources: usize,
    /// Number of scopes per resource (default 1).
    pub scopes_per_resource: usize,
    /// Number of attributes per resource (default 0).
    pub resource_attrs: usize,
    /// Number of attributes per scope (default 0).
    pub scope_attrs: usize,
    /// Number of attributes per span (default 0).
    pub span_attrs: usize,
}

impl TracesConfig {
    /// A configuration with `spans_per_scope` spans per scope, one resource
    /// with one scope, and no attributes.
    pub fn new(spans_per_scope: usize) -> (r: TracesConfig)
        ensures
            r == (TracesConfig {
                spans_per_scope,
                num_resources: 1,
                scopes_per_resource: 1,
                resource_attrs: 0,
                scope_attrs: 0,
                span_attrs: 0,
            }),
    {
        TracesConfig {
            spans_per_scope,
            num_resources: 1,
            scopes_per_resource: 1,
            resource_attrs: 0,
            scope_attrs: 0,
            span_attrs: 0,
        }
    }

    /// Set the number of distinct resources.
    pub fn with_resources(self, n: usize) -> (r: TracesConfig)
        ensures
            r == (TracesConfig { num_resources: n, ..self }),
    {
        TracesConfig { num_resources: n, ..self }
    }

    /// Set the number of scopes per resource.
    pub fn with_scopes_per_resource(self, n: usize) -> (r: TracesConfig)
        ensures
            r == (TracesConfig { scopes_per_resource: n, ..self }),
    {
        TracesConfig { scopes_per_resource: n, ..self }
    }

    /// Set the number of attributes per resource.
    pub fn with_resource_attrs(self, n: usize) -> (r: TracesConfig)
        ensures
            r == (TracesConfig { resource_attrs: n, ..self }),
    {
        TracesConfig { resource_attrs: n, ..self }
    }

    /// Set the number of attributes per scope.
    pub fn with_scope_attrs(self, n: usize) -> (r: TracesConfig)
        ensures
            r == (TracesConfig { scope_attrs: n, ..self }),
    {
        TracesConfig { scope_attrs: n, ..self }
    }

    /// Set the number of attributes per span.
    pub fn with_span_attrs(self, n: usize) -> (r: TracesConfig)
        ensures
            r == (TracesConfig { span_attrs: n, ..self }),
    {
        TracesConfig { span_attrs: n, ..self }
    }
}

} // verus!
