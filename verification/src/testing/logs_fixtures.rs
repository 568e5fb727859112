//! Logs fixtures: pre-constructed logs data for OTLP edge cases (empty
//! resources, scopes, attributes and other optional field combinations).
use vstd::prelude::*;
use crate::model::common::{
    attr, attrs1, attrs2, empty_scope, named_scope, resource_with, str_value, AnyValue, AnyValueModel,
    InstrumentationScope, KeyValue, Resource, ScopeModel,
};
use crate::model::logs::{
    plain_log, resource_logs_model, scope_logs_model, LogRecord, LogRecordModel, LogsData,
    ResourceLogs, ResourceLogsModel, ScopeLogs, ScopeLogsModel, SEVERITY_NUMBER_DEBUG,
    SEVERITY_NUMBER_ERROR, SEVERITY_NUMBER_INFO, SEVERITY_NUMBER_WARN,
};
use crate::testing::text::{decimal, with_decimal};

verus! {

/// 2025-01-15T10:30:00.000Z in nanoseconds since the Unix epoch.
pub const BASE_TIME: u64 = 1_736_937_000_000_000_000;

/// One second in nanoseconds.
pub const ONE_SEC: u64 = 1_000_000_000;

pub open spec fn logs_with_full_resource_and_scope_model() -> Seq<ResourceLogsModel> {
    seq![resource_logs_model(
        resource_with(seq![attr("res.id"@, str_value("self"@))]),
        seq![
            scope_logs_model(
                ScopeModel {
                    name: "scope-alpha"@,
                    version: "1.0.0"@,
                    attributes: seq![attr("scopekey"@, str_value("scopeval"@))],
                    dropped_attributes_count: 0,
                },
                seq![
                    LogRecordModel {
                        event_name: "event_1"@,
                        body: Some(str_value("first log in alpha"@)),
                        ..plain_log(BASE_TIME, (BASE_TIME + 100_000_000) as u64, SEVERITY_NUMBER_INFO)
                    },
                    LogRecordModel {
                        body: Some(str_value("second log in alpha"@)),
                        ..plain_log((BASE_TIME + ONE_SEC) as u64, (BASE_TIME + ONE_SEC + 100_000_000) as u64, SEVERITY_NUMBER_WARN)
                    },
                ],
            ),
            scope_logs_model(
                ScopeModel {
                    name: "scope-beta"@,
                    version: "2.0.0"@,
                    attributes: Seq::empty(),
                    dropped_attributes_count: 0,
                },
                seq![
                    LogRecordModel {
                        severity_text: "HOTHOT"@,
                        body: Some(str_value("first log in beta"@)),
                        ..plain_log((BASE_TIME + 2 * ONE_SEC) as u64, (BASE_TIME + 2 * ONE_SEC + 100_000_000) as u64, SEVERITY_NUMBER_ERROR)
                    },
                    LogRecordModel {
                        event_name: "event_2"@,
                        attributes: seq![attr("detail"@, str_value("no body here"@))],
                        ..plain_log((BASE_TIME + 3 * ONE_SEC) as u64, (BASE_TIME + 3 * ONE_SEC + 100_000_000) as u64, SEVERITY_NUMBER_DEBUG)
                    },
                ],
            ),
        ],
    )]
}

/// Two scopes with two logs each, for testing tree structure.
pub fn logs_with_full_resource_and_scope() -> (r: LogsData)
    ensures
        r@ == logs_with_full_resource_and_scope_model(),
{
    let mut l1 = LogRecord::at(BASE_TIME, BASE_TIME + 100_000_000, SEVERITY_NUMBER_INFO);
    l1.event_name = String::from_str("event_1");
    l1.body = Some(AnyValue::new_string("first log in alpha"));
    let mut l2 = LogRecord::at(BASE_TIME + ONE_SEC, BASE_TIME + ONE_SEC + 100_000_000, SEVERITY_NUMBER_WARN);
    l2.body = Some(AnyValue::new_string("second log in alpha"));
    let mut l3 = LogRecord::at(BASE_TIME + 2 * ONE_SEC, BASE_TIME + 2 * ONE_SEC + 100_000_000, SEVERITY_NUMBER_ERROR);
    l3.severity_text = String::from_str("HOTHOT");
    l3.body = Some(AnyValue::new_string("first log in beta"));
    let mut l4 = LogRecord::at(BASE_TIME + 3 * ONE_SEC, BASE_TIME + 3 * ONE_SEC + 100_000_000, SEVERITY_NUMBER_DEBUG);
    l4.event_name = String::from_str("event_2");
    l4.attributes = attrs1(KeyValue::new("detail", AnyValue::new_string("no body here")));
    let alpha = InstrumentationScope {
        name: String::from_str("scope-alpha"),
        version: String::from_str("1.0.0"),
        attributes: attrs1(KeyValue::new("scopekey", AnyValue::new_string("scopeval"))),
        dropped_attributes_count: 0,
    };
    let beta = InstrumentationScope {
        name: String::from_str("scope-beta"),
        version: String::from_str("2.0.0"),
        attributes: Vec::new(),
        dropped_attributes_count: 0,
    };
    let r = LogsData::new(vec![ResourceLogs::new(
        Resource::with_attributes(attrs1(KeyValue::new("res.id", AnyValue::new_string("self")))),
        vec![ScopeLogs::new(alpha, vec![l1, l2]), ScopeLogs::new(beta, vec![l3, l4])],
    )]);
    assert(r@ =~~= logs_with_full_resource_and_scope_model());
    r
}

pub open spec fn logs_with_no_resource_model() -> Seq<ResourceLogsModel> {
    seq![resource_logs_model(
        resource_with(Seq::empty()),
        seq![scope_logs_model(named_scope("test-scope"@), seq![plain_log(1000, 1100, SEVERITY_NUMBER_INFO)])],
    )]
}

/// Logs with no resource.
pub fn logs_with_no_resource() -> (r: LogsData)
    ensures
        r@ == logs_with_no_resource_model(),
{
    let r = LogsData::new(vec![ResourceLogs::new(
        Resource::empty(),
        vec![ScopeLogs::new(
            InstrumentationScope::named("test-scope"),
            vec![LogRecord::at(1000, 1100, SEVERITY_NUMBER_INFO)],
        )],
    )]);
    assert(r@ =~~= logs_with_no_resource_model());
    r
}


pub open spec fn log_with_no_scope_model() -> Seq<ResourceLogsModel> {
    seq![resource_logs_model(
        resource_with(seq![attr("resource"@, str_value("value"@))]),
        seq![scope_logs_model(empty_scope(), seq![plain_log(1000, 1100, SEVERITY_NUMBER_INFO)])],
    )]
}

/// One log with an empty scope.
pub fn log_with_no_scope() -> (r: LogsData)
    ensures
        r@ == log_with_no_scope_model(),
{
    let r = LogsData::new(vec![ResourceLogs::new(
        Resource::with_attributes(attrs1(KeyValue::new("resource", AnyValue::new_string("value")))),
        vec![ScopeLogs::new(InstrumentationScope::empty(), vec![LogRecord::at(1000, 1100, SEVERITY_NUMBER_INFO)])],
    )]);
    assert(r@ =~~= log_with_no_scope_model());
    r
}

pub open spec fn logs_with_no_resource_no_scope_model() -> Seq<ResourceLogsModel> {
    seq![resource_logs_model(
        resource_with(Seq::empty()),
        seq![scope_logs_model(empty_scope(), seq![LogRecordModel {
            attributes: seq![attr("lk1"@, str_value("attr"@)), attr("lk2"@, AnyValueModel::Int(2))],
            ..plain_log(1000, 1100, SEVERITY_NUMBER_INFO)
        }])],
    )]
}

/// Logs with neither resource nor scope data.
pub fn logs_with_no_resource_no_scope() -> (r: LogsData)
    ensures
        r@ == logs_with_no_resource_no_scope_model(),
{
    let mut l = LogRecord::at(1000, 1100, SEVERITY_NUMBER_INFO);
    l.attributes = attrs2(
        KeyValue::new("lk1", AnyValue::new_string("attr")),
        KeyValue::new("lk2", AnyValue::new_int(2)),
    );
    let r = LogsData::new(vec![ResourceLogs::new(
        Resource::empty(),
        vec![ScopeLogs::new(InstrumentationScope::empty(), vec![l])],
    )]);
    assert(r@ =~~= logs_with_no_resource_no_scope_model());
    r
}

pub open spec fn logs_with_no_attributes_model() -> Seq<ResourceLogsModel> {
    logs_with_no_resource_model()
}

/// Logs with resource and scope but no attributes.
pub fn logs_with_no_attributes() -> (r: LogsData)
    ensures
        r@ == logs_with_no_attributes_model(),
{
    let r = LogsData::new(vec![ResourceLogs::new(
        Resource::empty(),
        vec![ScopeLogs::new(
            InstrumentationScope::named("test-scope"),
            vec![LogRecord::at(1000, 1100, SEVERITY_NUMBER_INFO)],
        )],
    )]);
    assert(r@ =~~= logs_with_no_attributes_model());
    r
}

/// Completely empty logs data.
pub fn empty_logs() -> (r: LogsData)
    ensures
        r@ == Seq::<ResourceLogsModel>::empty(),
{
    let r = LogsData::new(Vec::new());
    assert(r@ =~= Seq::<ResourceLogsModel>::empty());
    r
}

pub open spec fn logs_with_empty_scope_logs_model() -> Seq<ResourceLogsModel> {
    seq![resource_logs_model(resource_with(Seq::empty()), Seq::empty())]
}

/// A resource with no scope logs.
pub fn logs_with_empty_scope_logs() -> (r: LogsData)
    ensures
        r@ == logs_with_empty_scope_logs_model(),
{
    let r = LogsData::new(vec![ResourceLogs::new(Resource::empty(), Vec::new())]);
    assert(r@ =~~= logs_with_empty_scope_logs_model());
    r
}

pub open spec fn logs_with_empty_log_records_model() -> Seq<ResourceLogsModel> {
    seq![resource_logs_model(
        resource_with(Seq::empty()),
        seq![scope_logs_model(named_scope("scope"@), Seq::empty())],
    )]
}

/// A scope with no log records.
pub fn logs_with_empty_log_records() -> (r: LogsData)
    ensures
        r@ == logs_with_empty_log_records_model(),
{
    let r = LogsData::new(vec![ResourceLogs::new(
        Resource::empty(),
        vec![ScopeLogs::new(InstrumentationScope::named("scope"), Vec::new())],
    )]);
    assert(r@ =~~= logs_with_empty_log_records_model());
    r
}

pub open spec fn logs_with_body_empty_string_model() -> Seq<ResourceLogsModel> {
    seq![resource_logs_model(
        resource_with(Seq::empty()),
        seq![scope_logs_model(named_scope("scope"@), seq![LogRecordModel {
            body: Some(str_value(""@)),
            ..plain_log(0, 0, 0)
        }])],
    )]
}

/// A log record whose body is an empty string.
pub fn logs_with_body_empty_string() -> (r: LogsData)
    ensures
        r@ == logs_with_body_empty_string_model(),
{
    let mut l = LogRecord::at(0, 0, 0);
    l.body = Some(AnyValue::new_string(""));
    let r = LogsData::new(vec![ResourceLogs::new(
        Resource::empty(),
        vec![ScopeLogs::new(InstrumentationScope::named("scope"), vec![l])],
    )]);
    assert(r@ =~~= logs_with_body_empty_string_model());
    r
}

pub open spec fn logs_multiple_records_no_resource_model() -> Seq<ResourceLogsModel> {
    seq![resource_logs_model(
        resource_with(Seq::empty()),
        seq![scope_logs_model(named_scope("scope"@), seq![
            plain_log(1000, 1100, SEVERITY_NUMBER_INFO),
            plain_log(2000, 2100, SEVERITY_NUMBER_WARN),
            plain_log(3000, 3100, SEVERITY_NUMBER_ERROR),
        ])],
    )]
}

/// Multiple log records with no resource.
pub fn logs_multiple_records_no_resource() -> (r: LogsData)
    ensures
        r@ == logs_multiple_records_no_resource_model(),
{
    let r = LogsData::new(vec![ResourceLogs::new(
        Resource::empty(),
        vec![ScopeLogs::new(
            InstrumentationScope::named("scope"),
            vec![
                LogRecord::at(1000, 1100, SEVERITY_NUMBER_INFO),
                LogRecord::at(2000, 2100, SEVERITY_NUMBER_WARN),
                LogRecord::at(3000, 3100, SEVERITY_NUMBER_ERROR),
            ],
        )],
    )]);
    assert(r@ =~~= logs_multiple_records_no_resource_model());
    r
}

pub open spec fn logs_multiple_scopes_no_resource_model() -> Seq<ResourceLogsModel> {
    seq![resource_logs_model(
        resource_with(Seq::empty()),
        seq![
            scope_logs_model(named_scope("scope1"@), seq![plain_log(1000, 1100, SEVERITY_NUMBER_INFO)]),
            scope_logs_model(named_scope("scope2"@), seq![plain_log(2000, 2100, SEVERITY_NUMBER_WARN)]),
        ],
    )]
}

/// Logs of several scopes with no resource.
pub fn logs_multiple_scopes_no_resource() -> (r: LogsData)
    ensures
        r@ == logs_multiple_scopes_no_resource_model(),
{
    let r = LogsData::new(vec![ResourceLogs::new(
        Resource::empty(),
        vec![
            ScopeLogs::new(InstrumentationScope::named("scope1"), vec![LogRecord::at(1000, 1100, SEVERITY_NUMBER_INFO)]),
            ScopeLogs::new(InstrumentationScope::named("scope2"), vec![LogRecord::at(2000, 2100, SEVERITY_NUMBER_WARN)]),
        ],
    )]);
    assert(r@ =~~= logs_multiple_scopes_no_resource_model());
    r
}

pub open spec fn logs_multiple_resources_mixed_content_model() -> Seq<ResourceLogsModel> {
    seq![
        resource_logs_model(
            resource_with(Seq::empty()),
            seq![scope_logs_model(named_scope("scope1"@), seq![plain_log(1000, 1100, SEVERITY_NUMBER_INFO)])],
        ),
        resource_logs_model(
            resource_with(Seq::empty()),
            seq![scope_logs_model(empty_scope(), seq![plain_log(2000, 2100, SEVERITY_NUMBER_WARN)])],
        ),
    ]
}

/// Logs of several resources with different content.
pub fn logs_multiple_resources_mixed_content() -> (r: LogsData)
    ensures
        r@ == logs_multiple_resources_mixed_content_model(),
{
    let r = LogsData::new(vec![
        ResourceLogs::new(
            Resource::empty(),
            vec![ScopeLogs::new(InstrumentationScope::named("scope1"), vec![LogRecord::at(1000, 1100, SEVERITY_NUMBER_INFO)])],
        ),
        ResourceLogs::new(
            Resource::empty(),
            vec![ScopeLogs::new(InstrumentationScope::empty(), vec![LogRecord::at(2000, 2100, SEVERITY_NUMBER_WARN)])],
        ),
    ]);
    assert(r@ =~~= logs_multiple_resources_mixed_content_model());
    r
}

/// The `code.namespace` of the `i`-th varying log record.
pub open spec fn varying_namespace(i: int) -> Seq<char> {
    if i % 3 == 0 {
        "main"@
    } else if i % 3 == 1 {
        "otap_dataflow_engine"@
    } else {
        "arrow::array"@
    }
}

/// The severity number of the `i`-th varying log record: the records cycle
/// through DEBUG (5), INFO (9), WARN (13) and ERROR (17).
pub open spec fn varying_severity_number(i: int) -> i32 {
    ((i % 4) * 4 + 5) as i32
}

/// The severity text of the `k`-th severity of the cycle (`k < 4`): the
/// third `_`-separated word of its `SEVERITY_NUMBER_*` name.
pub open spec fn varying_severity_text(k: int) -> Seq<char> {
    if k == 0 {
        "DEBUG"@
    } else if k == 1 {
        "INFO"@
    } else if k == 2 {
        "WARN"@
    } else {
        "ERROR"@
    }
}

/// Model of the `i`-th varying log record.
pub open spec fn varying_log(i: int) -> LogRecordModel {
    LogRecordModel {
        attributes: seq![
            attr("code.namespace"@, str_value(varying_namespace(i))),
            attr("code.line.number"@, AnyValueModel::Int((i % 5) as i64)),
        ],
        event_name: "event "@ + decimal(i as nat),
        severity_number: varying_severity_number(i),
        severity_text: varying_severity_text(i % 4),
        ..plain_log(i as u64, 0, 0)
    }
}

pub open spec fn logs_with_varying_attributes_and_properties_model(batch_size: nat) -> Seq<ResourceLogsModel> {
    seq![ResourceLogsModel {
        resource: None,
        scope_logs: seq![ScopeLogsModel {
            scope: None,
            log_records: Seq::new(batch_size, |i: int| varying_log(i)),
            schema_url: Seq::empty(),
        }],
        schema_url: Seq::empty(),
    }]
}

/// Logs with varying attributes and properties that follow some semantic
/// conventions, as a somewhat realistic batch of `batch_size` records for
/// exercising transformations such as filtering.
pub fn logs_with_varying_attributes_and_properties(batch_size: usize) -> (r: LogsData)
    ensures
        r@ == logs_with_varying_attributes_and_properties_model(batch_size as nat),
{
    let mut log_records: Vec<LogRecord> = Vec::with_capacity(batch_size);
    let mut i: usize = 0;
    while i < batch_size
        invariant
            i <= batch_size,
            log_records@.len() == i,
            forall|k: int| 0 <= k < i ==> (#[trigger] log_records@[k])@ == varying_log(k),
        decreases batch_size - i,
    {
        let namespace = if i % 3 == 0 {
            "main"
        } else if i % 3 == 1 {
            "otap_dataflow_engine"
        } else {
            "arrow::array"
        };
        let severity_text = if i % 4 == 0 {
            "DEBUG"
        } else if i % 4 == 1 {
            "INFO"
        } else if i % 4 == 2 {
            "WARN"
        } else {
            "ERROR"
        };
        let mut l = LogRecord::at(i as u64, 0, ((i % 4) * 4 + 5) as i32);
        l.attributes = attrs2(
            KeyValue::new("code.namespace", AnyValue::new_string(namespace)),
            KeyValue::new("code.line.number", AnyValue::new_int((i % 5) as i64)),
        );
        l.event_name = with_decimal("event ", i as u64);
        l.severity_text = String::from_str(severity_text);
        proof {
            assert(l@.attributes =~~= varying_log(i as int).attributes);
        }
        log_records.push(l);
        i += 1;
    }
    let r = LogsData {
        resource_logs: vec![ResourceLogs {
            resource: None,
            scope_logs: vec![ScopeLogs { scope: None, log_records, schema_url: String::new() }],
            schema_url: String::new(),
        }],
    };
    assert(r@ =~~= logs_with_varying_attributes_and_properties_model(batch_size as nat));
    r
}

} // verus!
