//! Traces fixtures: pre-constructed traces data for OTLP edge cases.
use vstd::prelude::*;
use crate::model::common::{
    attr, attrs1, attrs2, empty_scope, named_scope, resource_with, str_value, AnyValue,
    AnyValueModel, InstrumentationScope, KeyValue, Resource, ScopeModel,
};
use crate::model::traces::{
    filled, filled_bytes, plain_span, resource_spans_model, scope_spans_model, ResourceSpans,
    ResourceSpansModel, ScopeSpans, Span, SpanModel, Status, StatusModel, TracesData,
    SPAN_KIND_CLIENT, SPAN_KIND_INTERNAL, SPAN_KIND_SERVER,
};

verus! {

/// Model of the `k`-th numbered span: trace id `[k; 16]`, span id `[k; 8]`.
pub open spec fn numbered_span(k: u8, name: Seq<char>, kind: i32, start: u64, end: u64) -> SpanModel {
    plain_span(filled(k, 16), filled(k, 8), name, kind, start, end)
}

fn numbered(k: u8, name: &str, kind: i32, start: u64, end: u64) -> (r: Span)
    ensures
        r@ == numbered_span(k, name@, kind, start, end),
{
    Span::new(filled_bytes(k, 16), filled_bytes(k, 8), String::from_str(name), kind, start, end)
}

pub open spec fn traces_with_full_resource_and_scope_model() -> Seq<ResourceSpansModel> {
    seq![resource_spans_model(
        resource_with(seq![attr("service.name"@, str_value("test-service"@))]),
        seq![scope_spans_model(
            ScopeModel {
                name: "test-scope"@,
                version: Seq::empty(),
                attributes: seq![attr("scopekey"@, str_value("scopeval"@))],
                dropped_attributes_count: 0,
            },
            seq![
                SpanModel {
                    status: Some(StatusModel { message: Seq::empty(), code: 0 }),
                    ..numbered_span(1, "span1"@, SPAN_KIND_INTERNAL, 1000, 2000)
                },
                SpanModel {
                    status: Some(StatusModel { message: Seq::empty(), code: 0 }),
                    ..numbered_span(2, "span2"@, SPAN_KIND_SERVER, 3000, 4000)
                },
            ],
        )],
    )]
}

/// Traces with full resource and scope.
pub fn traces_with_full_resource_and_scope() -> (r: TracesData)
    ensures
        r@ == traces_with_full_resource_and_scope_model(),
{
    let mut s1 = numbered(1, "span1", SPAN_KIND_INTERNAL, 1000, 2000);
    s1.status = Some(Status::unset());
    let mut s2 = numbered(2, "span2", SPAN_KIND_SERVER, 3000, 4000);
    s2.status = Some(Status::unset());
    let scope = InstrumentationScope {
        name: String::from_str("test-scope"),
        version: String::new(),
        attributes: attrs1(KeyValue::new("scopekey", AnyValue::new_string("scopeval"))),
        dropped_attributes_count: 0,
    };
    let r = TracesData::new(vec![ResourceSpans::new(
        Resource::with_attributes(attrs1(KeyValue::new("service.name", AnyValue::new_string("test-service")))),
        vec![ScopeSpans::new(scope, vec![s1, s2])],
    )]);
    assert(r@ =~~= traces_with_full_resource_and_scope_model());
    r
}

pub open spec fn traces_with_no_resource_model() -> Seq<ResourceSpansModel> {
    seq![resource_spans_model(
        resource_with(Seq::empty()),
        seq![scope_spans_model(named_scope("test-scope"@), seq![numbered_span(1, "span1"@, SPAN_KIND_INTERNAL, 1000, 2000)])],
    )]
}

/// Traces with no resource.
pub fn traces_with_no_resource() -> (r: TracesData)
    ensures
        r@ == traces_with_no_resource_model(),
{
    let r = TracesData::new(vec![ResourceSpans::new(
        Resource::empty(),
        vec![ScopeSpans::new(
            InstrumentationScope::named("test-scope"),
            vec![numbered(1, "span1", SPAN_KIND_INTERNAL, 1000, 2000)],
        )],
    )]);
    assert(r@ =~~= traces_with_no_resource_model());
    r
}

pub open spec fn traces_with_no_scope_model() -> Seq<ResourceSpansModel> {
    seq![resource_spans_model(
        resource_with(seq![attr("resource"@, str_value("value"@))]),
        seq![scope_spans_model(empty_scope(), seq![numbered_span(1, "span1"@, SPAN_KIND_INTERNAL, 1000, 2000)])],
    )]
}

/// Traces with no scope.
pub fn traces_with_no_scope() -> (r: TracesData)
    ensures
        r@ == traces_with_no_scope_model(),
{
    let r = TracesData::new(vec![ResourceSpans::new(
        Resource::with_attributes(attrs1(KeyValue::new("resource", AnyValue::new_string("value")))),
        vec![ScopeSpans::new(
            InstrumentationScope::empty(),
            vec![numbered(1, "span1", SPAN_KIND_INTERNAL, 1000, 2000)],
        )],
    )]);
    assert(r@ =~~= traces_with_no_scope_model());
    r
}

pub open spec fn traces_with_no_resource_no_scope_model() -> Seq<ResourceSpansModel> {
    seq![resource_spans_model(
        resource_with(Seq::empty()),
        seq![scope_spans_model(empty_scope(), seq![SpanModel {
            attributes: seq![attr("sk1"@, str_value("attr"@)), attr("sk2"@, AnyValueModel::Int(2))],
            ..numbered_span(1, "span1"@, SPAN_KIND_INTERNAL, 1000, 2000)
        }])],
    )]
}

/// Traces with neither resource nor scope data.
pub fn traces_with_no_resource_no_scope() -> (r: TracesData)
    ensures
        r@ == traces_with_no_resource_no_scope_model(),
{
    let mut s = numbered(1, "span1", SPAN_KIND_INTERNAL, 1000, 2000);
    s.attributes = attrs2(
        KeyValue::new("sk1", AnyValue::new_string("attr")),
        KeyValue::new("sk2", AnyValue::new_int(2)),
    );
    let r = TracesData::new(vec![ResourceSpans::new(
        Resource::empty(),
        vec![ScopeSpans::new(InstrumentationScope::empty(), vec![s])],
    )]);
    assert(r@ =~~= traces_with_no_resource_no_scope_model());
    r
}

pub open spec fn traces_with_no_attributes_model() -> Seq<ResourceSpansModel> {
    traces_with_no_resource_model()
}

/// Traces with resource and scope but no attributes.
pub fn traces_with_no_attributes() -> (r: TracesData)
    ensures
        r@ == traces_with_no_attributes_model(),
{
    let r = TracesData::new(vec![ResourceSpans::new(
        Resource::empty(),
        vec![ScopeSpans::new(
            InstrumentationScope::named("test-scope"),
            vec![numbered(1, "span1", SPAN_KIND_INTERNAL, 1000, 2000)],
        )],
    )]);
    assert(r@ =~~= traces_with_no_attributes_model());
    r
}

/// Completely empty traces data.
pub fn empty_traces() -> (r: TracesData)
    ensures
        r@ == Seq::<ResourceSpansModel>::empty(),
{
    let r = TracesData::new(Vec::new());
    assert(r@ =~= Seq::<ResourceSpansModel>::empty());
    r
}

pub open spec fn traces_with_empty_scope_spans_model() -> Seq<ResourceSpansModel> {
    seq![resource_spans_model(resource_with(Seq::empty()), Seq::empty())]
}

/// A resource with no scope spans.
pub fn traces_with_empty_scope_spans() -> (r: TracesData)
    ensures
        r@ == traces_with_empty_scope_spans_model(),
{
    let r = TracesData::new(vec![ResourceSpans::new(Resource::empty(), Vec::new())]);
    assert(r@ =~~= traces_with_empty_scope_spans_model());
    r
}

pub open spec fn traces_with_empty_spans_model() -> Seq<ResourceSpansModel> {
    seq![resource_spans_model(resource_with(Seq::empty()), seq![scope_spans_model(named_scope("scope"@), Seq::empty())])]
}

/// A scope with no spans.
pub fn traces_with_empty_spans() -> (r: TracesData)
    ensures
        r@ == traces_with_empty_spans_model(),
{
    let r = TracesData::new(vec![ResourceSpans::new(
        Resource::empty(),
        vec![ScopeSpans::new(InstrumentationScope::named("scope"), Vec::new())],
    )]);
    assert(r@ =~~= traces_with_empty_spans_model());
    r
}

pub open spec fn traces_multiple_spans_no_resource_model() -> Seq<ResourceSpansModel> {
    seq![resource_spans_model(
        resource_with(Seq::empty()),
        seq![scope_spans_model(named_scope("scope"@), seq![
            numbered_span(1, "span1"@, SPAN_KIND_INTERNAL, 1000, 2000),
            numbered_span(2, "span2"@, SPAN_KIND_SERVER, 3000, 4000),
            numbered_span(3, "span3"@, SPAN_KIND_CLIENT, 5000, 6000),
        ])],
    )]
}

/// Multiple spans with no resource.
pub fn traces_multiple_spans_no_resource() -> (r: TracesData)
    ensures
        r@ == traces_multiple_spans_no_resource_model(),
{
    let r = TracesData::new(vec![ResourceSpans::new(
        Resource::empty(),
        vec![ScopeSpans::new(
            InstrumentationScope::named("scope"),
            vec![
                numbered(1, "span1", SPAN_KIND_INTERNAL, 1000, 2000),
                numbered(2, "span2", SPAN_KIND_SERVER, 3000, 4000),
                numbered(3, "span3", SPAN_KIND_CLIENT, 5000, 6000),
            ],
        )],
    )]);
    assert(r@ =~~= traces_multiple_spans_no_resource_model());
    r
}

pub open spec fn traces_multiple_scopes_no_resource_model() -> Seq<ResourceSpansModel> {
    seq![resource_spans_model(
        resource_with(Seq::empty()),
        seq![
            scope_spans_model(named_scope("scope1"@), seq![numbered_span(1, "span1"@, SPAN_KIND_INTERNAL, 1000, 2000)]),
            scope_spans_model(named_scope("scope2"@), seq![numbered_span(2, "span2"@, SPAN_KIND_SERVER, 3000, 4000)]),
        ],
    )]
}

/// Multiple scopes with no resource.
pub fn traces_multiple_scopes_no_resource() -> (r: TracesData)
    ensures
        r@ == traces_multiple_scopes_no_resource_model(),
{
    let r = TracesData::new(vec![ResourceSpans::new(
        Resource::empty(),
        vec![
            ScopeSpans::new(InstrumentationScope::named("scope1"), vec![numbered(1, "span1", SPAN_KIND_INTERNAL, 1000, 2000)]),
            ScopeSpans::new(InstrumentationScope::named("scope2"), vec![numbered(2, "span2", SPAN_KIND_SERVER, 3000, 4000)]),
        ],
    )]);
    assert(r@ =~~= traces_multiple_scopes_no_resource_model());
    r
}

pub open spec fn traces_multiple_resources_mixed_content_model() -> Seq<ResourceSpansModel> {
    seq![
        resource_spans_model(
            resource_with(Seq::empty()),
            seq![scope_spans_model(named_scope("scope1"@), seq![numbered_span(1, "span1"@, SPAN_KIND_INTERNAL, 1000, 2000)])],
        ),
        resource_spans_model(
            resource_with(Seq::empty()),
            seq![scope_spans_model(empty_scope(), seq![numbered_span(2, "span2"@, SPAN_KIND_SERVER, 3000, 4000)])],
        ),
    ]
}

/// Multiple resources with different content.
pub fn traces_multiple_resources_mixed_content() -> (r: TracesData)
    ensures
        r@ == traces_multiple_resources_mixed_content_model(),
{
    let r = TracesData::new(vec![
        ResourceSpans::new(
            Resource::empty(),
            vec![ScopeSpans::new(InstrumentationScope::named("scope1"), vec![numbered(1, "span1", SPAN_KIND_INTERNAL, 1000, 2000)])],
        ),
        ResourceSpans::new(
            Resource::empty(),
            vec![ScopeSpans::new(InstrumentationScope::empty(), vec![numbered(2, "span2", SPAN_KIND_SERVER, 3000, 4000)])],
        ),
    ]);
    assert(r@ =~~= traces_multiple_resources_mixed_content_model());
    r
}

} // verus!
