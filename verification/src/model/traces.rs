//! OTLP trace messages and their models.
use vstd::prelude::*;
use crate::model::common::{
    key_values_model, opt_resource_model, opt_scope_model, InstrumentationScope, KeyValue,
    KeyValueModel, Resource, ResourceModel, ScopeModel,
};

verus! {

/// `SpanKind` values.
pub const SPAN_KIND_UNSPECIFIED: i32 = 0;
pub const SPAN_KIND_INTERNAL: i32 = 1;
pub const SPAN_KIND_SERVER: i32 = 2;
pub const SPAN_KIND_CLIENT: i32 = 3;

/// `StatusCode` values.
pub const STATUS_CODE_UNSET: i32 = 0;
pub const STATUS_CODE_OK: i32 = 1;
pub const STATUS_CODE_ERROR: i32 = 2;

/// The status of a span.
#[derive(Debug, PartialEq)]
pub struct Status {
    pub message: String,
    pub code: i32,
}

/// A time-stamped event of a span.
#[derive(Debug, PartialEq)]
pub struct SpanEvent {
    pub time_unix_nano: u64,
    pub name: String,
    pub attributes: Vec<KeyValue>,
    pub dropped_attributes_count: u32,
}

/// A link from a span to another span.
#[derive(Debug, PartialEq)]
pub struct SpanLink {
    pub trace_id: Vec<u8>,
    pub span_id: Vec<u8>,
    pub trace_state: String,
    pub attributes: Vec<KeyValue>,
    pub dropped_attributes_count: u32,
    pub flags: u32,
}

/// A span.
#[derive(Debug, PartialEq)]
pub struct Span {
    pub trace_id: Vec<u8>,
    pub span_id: Vec<u8>,
    pub trace_state: String,
    pub parent_span_id: Vec<u8>,
    pub flags: u32,
    pub name: String,
    pub kind: i32,
    pub start_time_unix_nano: u64,
    pub end_time_unix_nano: u64,
    pub attributes: Vec<KeyValue>,
    pub dropped_attributes_count: u32,
    pub events: Vec<SpanEvent>,
    pub dropped_events_count: u32,
    pub links: Vec<SpanLink>,
    pub dropped_links_count: u32,
    pub status: Option<Status>,
}

/// The spans produced by one instrumentation scope.
#[derive(Debug, PartialEq)]
pub struct ScopeSpans {
    pub scope: Option<InstrumentationScope>,
    pub spans: Vec<Span>,
    pub schema_url: String,
}

/// The spans produced by one resource.
#[derive(Debug, PartialEq)]
pub struct ResourceSpans {
    pub resource: Option<Resource>,
    pub scope_spans: Vec<ScopeSpans>,
    pub schema_url: String,
}

/// A collection of spans grouped by resource and scope.
#[derive(Debug, PartialEq)]
pub struct TracesData {
    pub resource_spans: Vec<ResourceSpans>,
}

/// Model of a [`Status`].
#[verifier::ext_equal]
pub struct StatusModel {
    pub message: Seq<char>,
    pub code: i32,
}

/// Model of a [`SpanEvent`].
#[verifier::ext_equal]
pub struct SpanEventModel {
    pub time_unix_nano: u64,
    pub name: Seq<char>,
    pub attributes: Seq<KeyValueModel>,
    pub dropped_attributes_count: u32,
}

/// Model of a [`SpanLink`].
#[verifier::ext_equal]
pub struct SpanLinkModel {
    pub trace_id: Seq<u8>,
    pub span_id: Seq<u8>,
    pub trace_state: Seq<char>,
    pub attributes: Seq<KeyValueModel>,
    pub dropped_attributes_count: u32,
    pub flags: u32,
}

/// Model of a [`Span`].
#[verifier::ext_equal]
pub struct SpanModel {
    pub trace_id: Seq<u8>,
    pub span_id: Seq<u8>,
    pub trace_state: Seq<char>,
    pub parent_span_id: Seq<u8>,
    pub flags: u32,
    pub name: Seq<char>,
    pub kind: i32,
    pub start_time_unix_nano: u64,
    pub end_time_unix_nano: u64,
    pub attributes: Seq<KeyValueModel>,
    pub dropped_attributes_count: u32,
    pub events: Seq<SpanEventModel>,
    pub dropped_events_count: u32,
    pub links: Seq<SpanLinkModel>,
    pub dropped_links_count: u32,
    pub status: Option<StatusModel>,
}

/// Model of a [`ScopeSpans`].
#[verifier::ext_equal]
pub struct ScopeSpansModel {
    pub scope: Option<ScopeModel>,
    pub spans: Seq<SpanModel>,
    pub schema_url: Seq<char>,
}

/// Model of a [`ResourceSpans`].
#[verifier::ext_equal]
pub struct ResourceSpansModel {
    pub resource: Option<ResourceModel>,
    pub scope_spans: Seq<ScopeSpansModel>,
    pub schema_url: Seq<char>,
}

impl View for Status {
    type V = StatusModel;

    open spec fn view(&self) -> StatusModel {
        StatusModel { message: self.message@, code: self.code }
    }
}

impl View for SpanEvent {
    type V = SpanEventModel;

    open spec fn view(&self) -> SpanEventModel {
        SpanEventModel {
            time_unix_nano: self.time_unix_nano,
            name: self.name@,
            attributes: key_values_model(self.attributes@),
            dropped_attributes_count: self.dropped_attributes_count,
        }
    }
}

impl View for SpanLink {
    type V = SpanLinkModel;

    open spec fn view(&self) -> SpanLinkModel {
        SpanLinkModel {
            trace_id: self.trace_id@,
            span_id: self.span_id@,
            trace_state: self.trace_state@,
            attributes: key_values_model(self.attributes@),
            dropped_attributes_count: self.dropped_attributes_count,
            flags: self.flags,
        }
    }
}

impl View for Span {
    type V = SpanModel;

    open spec fn view(&self) -> SpanModel {
        SpanModel {
            trace_id: self.trace_id@,
            span_id: self.span_id@,
            trace_state: self.trace_state@,
            parent_span_id: self.parent_span_id@,
            flags: self.flags,
            name: self.name@,
            kind: self.kind,
            start_time_unix_nano: self.start_time_unix_nano,
            end_time_unix_nano: self.end_time_unix_nano,
            attributes: key_values_model(self.attributes@),
            dropped_attributes_count: self.dropped_attributes_count,
            events: self.events@.map_values(|e: SpanEvent| e@),
            dropped_events_count: self.dropped_events_count,
            links: self.links@.map_values(|l: SpanLink| l@),
            dropped_links_count: self.dropped_links_count,
            status: match self.status {
                Some(s) => Some(s@),
                None => None,
            },
        }
    }
}

impl View for ScopeSpans {
    type V = ScopeSpansModel;

    open spec fn view(&self) -> ScopeSpansModel {
        ScopeSpansModel {
            scope: opt_scope_model(self.scope),
            spans: self.spans@.map_values(|s: Span| s@),
            schema_url: self.schema_url@,
        }
    }
}

impl View for ResourceSpans {
    type V = ResourceSpansModel;

    open spec fn view(&self) -> ResourceSpansModel {
        ResourceSpansModel {
            resource: opt_resource_model(self.resource),
            scope_spans: self.scope_spans@.map_values(|s: ScopeSpans| s@),
            schema_url: self.schema_url@,
        }
    }
}

impl View for TracesData {
    type V = Seq<ResourceSpansModel>;

    open spec fn view(&self) -> Seq<ResourceSpansModel> {
        self.resource_spans@.map_values(|r: ResourceSpans| r@)
    }
}


/// `n` copies of `b`.
pub open spec fn filled(b: u8, n: nat) -> Seq<u8> {
    Seq::new(n, |_i: int| b)
}

/// A byte string of `n` copies of `b`.
pub fn filled_bytes(b: u8, n: usize) -> (r: Vec<u8>)
    ensures
        r@ == filled(b, n as nat),
{
    let mut r: Vec<u8> = Vec::with_capacity(n);
    let mut i: usize = 0;
    while i < n
        invariant
            i <= n,
            r@ == filled(b, i as nat),
        decreases n - i,
    {
        r.push(b);
        i += 1;
        assert(r@ =~= filled(b, i as nat));
    }
    r
}

/// Model of a span with the given ids, name, kind and times, every other
/// field at its default (no status).
pub open spec fn plain_span(trace_id: Seq<u8>, span_id: Seq<u8>, name: Seq<char>, kind: i32, start: u64, end: u64) -> SpanModel {
    SpanModel {
        trace_id,
        span_id,
        trace_state: Seq::empty(),
        parent_span_id: Seq::empty(),
        flags: 0,
        name,
        kind,
        start_time_unix_nano: start,
        end_time_unix_nano: end,
        attributes: Seq::empty(),
        dropped_attributes_count: 0,
        events: Seq::empty(),
        dropped_events_count: 0,
        links: Seq::empty(),
        dropped_links_count: 0,
        status: None,
    }
}

/// Model of the scope spans of `scope`.
pub open spec fn scope_spans_model(scope: ScopeModel, spans: Seq<SpanModel>) -> ScopeSpansModel {
    ScopeSpansModel { scope: Some(scope), spans, schema_url: Seq::empty() }
}

/// Model of the resource spans of `resource`.
pub open spec fn resource_spans_model(resource: ResourceModel, scope_spans: Seq<ScopeSpansModel>) -> ResourceSpansModel {
    ResourceSpansModel { resource: Some(resource), scope_spans, schema_url: Seq::empty() }
}

impl Status {
    /// A status with the given code and message.
    pub fn new(code: i32, message: &str) -> (r: Status)
        ensures
            r@ == (StatusModel { message: message@, code }),
    {
        Status { message: String::from_str(message), code }
    }

    /// The unset status.
    pub fn unset() -> (r: Status)
        ensures
            r@ == (StatusModel { message: Seq::empty(), code: 0 }),
    {
        Status { message: String::new(), code: STATUS_CODE_UNSET }
    }
}

impl Span {
    /// A span with the given ids, name, kind and times.
    pub fn new(trace_id: Vec<u8>, span_id: Vec<u8>, name: String, kind: i32, start: u64, end: u64) -> (r: Span)
        ensures
            r@ == plain_span(trace_id@, span_id@, name@, kind, start, end),
    {
        Span {
            trace_id,
            span_id,
            trace_state: String::new(),
            parent_span_id: Vec::new(),
            flags: 0,
            name,
            kind,
            start_time_unix_nano: start,
            end_time_unix_nano: end,
            attributes: Vec::new(),
            dropped_attributes_count: 0,
            events: Vec::new(),
            dropped_events_count: 0,
            links: Vec::new(),
            dropped_links_count: 0,
            status: None,
        }
    }
}

impl ScopeSpans {
    /// The spans of `scope`.
    pub fn new(scope: InstrumentationScope, spans: Vec<Span>) -> (r: ScopeSpans)
        ensures
            r@ == scope_spans_model(scope@, spans@.map_values(|s: Span| s@)),
    {
        ScopeSpans { scope: Some(scope), spans, schema_url: String::new() }
    }
}

impl ResourceSpans {
    /// The scope spans of `resource`.
    pub fn new(resource: Resource, scope_spans: Vec<ScopeSpans>) -> (r: ResourceSpans)
        ensures
            r@ == resource_spans_model(resource@, scope_spans@.map_values(|s: ScopeSpans| s@)),
    {
        ResourceSpans { resource: Some(resource), scope_spans, schema_url: String::new() }
    }
}

impl TracesData {
    /// Traces data holding `resource_spans`.
    pub fn new(resource_spans: Vec<ResourceSpans>) -> (r: TracesData)
        ensures
            r@ == resource_spans@.map_values(|x: ResourceSpans| x@),
    {
        TracesData { resource_spans }
    }
}

} // verus!
