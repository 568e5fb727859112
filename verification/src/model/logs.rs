//! OTLP logs messages and their models.
use vstd::prelude::*;
use crate::model::common::{
    key_values_model, opt_any_value_model, opt_resource_model, opt_scope_model, AnyValue,
    AnyValueModel, InstrumentationScope, KeyValue, KeyValueModel, Resource, ResourceModel,
    ScopeModel,
};

verus! {

/// `SeverityNumber` values used by the log records of this crate.
pub const SEVERITY_NUMBER_DEBUG: i32 = 5;
pub const SEVERITY_NUMBER_INFO: i32 = 9;
pub const SEVERITY_NUMBER_WARN: i32 = 13;
pub const SEVERITY_NUMBER_ERROR: i32 = 17;

/// A log record.
#[derive(Debug, PartialEq)]
pub struct LogRecord {
    pub time_unix_nano: u64,
    pub observed_time_unix_nano: u64,
    pub severity_number: i32,
    pub severity_text: String,
    pub body: Option<AnyValue>,
    pub attributes: Vec<KeyValue>,
    pub dropped_attributes_count: u32,
    pub flags: u32,
    pub trace_id: Vec<u8>,
    pub span_id: Vec<u8>,
    pub event_name: String,
}

/// The log records produced by one instrumentation scope.
#[derive(Debug, PartialEq)]
pub struct ScopeLogs {
    pub scope: Option<InstrumentationScope>,
    pub log_records: Vec<LogRecord>,
    pub schema_url: String,
}

/// The log records produced by one resource.
#[derive(Debug, PartialEq)]
pub struct ResourceLogs {
    pub resource: Option<Resource>,
    pub scope_logs: Vec<ScopeLogs>,
    pub schema_url: String,
}

/// A collection of log records grouped by resource and scope.
#[derive(Debug, PartialEq)]
pub struct LogsData {
    pub resource_logs: Vec<ResourceLogs>,
}

/// Model of a [`LogRecord`].
#[verifier::ext_equal]
pub struct LogRecordModel {
    pub time_unix_nano: u64,
    pub observed_time_unix_nano: u64,
    pub severity_number: i32,
    pub severity_text: Seq<char>,
    pub body: Option<AnyValueModel>,
    pub attributes: Seq<KeyValueModel>,
    pub dropped_attributes_count: u32,
    pub flags: u32,
    pub trace_id: Seq<u8>,
    pub span_id: Seq<u8>,
    pub event_name: Seq<char>,
}

/// Model of a [`ScopeLogs`].
#[verifier::ext_equal]
pub struct ScopeLogsModel {
    pub scope: Option<ScopeModel>,
    pub log_records: Seq<LogRecordModel>,
    pub schema_url: Seq<char>,
}

/// Model of a [`ResourceLogs`].
#[verifier::ext_equal]
pub struct ResourceLogsModel {
    pub resource: Option<ResourceModel>,
    pub scope_logs: Seq<ScopeLogsModel>,
    pub schema_url: Seq<char>,
}

impl View for LogRecord {
    type V = LogRecordModel;

    open spec fn view(&self) -> LogRecordModel {
        LogRecordModel {
            time_unix_nano: self.time_unix_nano,
            observed_time_unix_nano: self.observed_time_unix_nano,
            severity_number: self.severity_number,
            severity_text: self.severity_text@,
            body: opt_any_value_model(self.body),
            attributes: key_values_model(self.attributes@),
            dropped_attributes_count: self.dropped_attributes_count,
            flags: self.flags,
            trace_id: self.trace_id@,
            span_id: self.span_id@,
            event_name: self.event_name@,
        }
    }
}

impl View for ScopeLogs {
    type V = ScopeLogsModel;

    open spec fn view(&self) -> ScopeLogsModel {
        ScopeLogsModel {
            scope: opt_scope_model(self.scope),
            log_records: self.log_records@.map_values(|r: LogRecord| r@),
            schema_url: self.schema_url@,
        }
    }
}

impl View for ResourceLogs {
    type V = ResourceLogsModel;

    open spec fn view(&self) -> ResourceLogsModel {
        ResourceLogsModel {
            resource: opt_resource_model(self.resource),
            scope_logs: self.scope_logs@.map_values(|s: ScopeLogs| s@),
            schema_url: self.schema_url@,
        }
    }
}

impl View for LogsData {
    type V = Seq<ResourceLogsModel>;

    open spec fn view(&self) -> Seq<ResourceLogsModel> {
        self.resource_logs@.map_values(|r: ResourceLogs| r@)
    }
}


/// Model of a log record with the given times and severity, every other
/// field at its default.
pub open spec fn plain_log(time: u64, observed: u64, severity: i32) -> LogRecordModel {
    LogRecordModel {
        time_unix_nano: time,
        observed_time_unix_nano: observed,
        severity_number: severity,
        severity_text: Seq::empty(),
        body: None,
        attributes: Seq::empty(),
        dropped_attributes_count: 0,
        flags: 0,
        trace_id: Seq::empty(),
        span_id: Seq::empty(),
        event_name: Seq::empty(),
    }
}

/// Model of the scope logs of `scope`.
pub open spec fn scope_logs_model(scope: ScopeModel, log_records: Seq<LogRecordModel>) -> ScopeLogsModel {
    ScopeLogsModel { scope: Some(scope), log_records, schema_url: Seq::empty() }
}

/// Model of the resource logs of `resource`.
pub open spec fn resource_logs_model(resource: ResourceModel, scope_logs: Seq<ScopeLogsModel>) -> ResourceLogsModel {
    ResourceLogsModel { resource: Some(resource), scope_logs, schema_url: Seq::empty() }
}

impl LogRecord {
    /// A log record with the given times and severity.
    pub fn at(time: u64, observed: u64, severity: i32) -> (r: LogRecord)
        ensures
            r@ == plain_log(time, observed, severity),
    {
        LogRecord {
            time_unix_nano: time,
            observed_time_unix_nano: observed,
            severity_number: severity,
            severity_text: String::new(),
            body: None,
            attributes: Vec::new(),
            dropped_attributes_count: 0,
            flags: 0,
            trace_id: Vec::new(),
            span_id: Vec::new(),
            event_name: String::new(),
        }
    }
}

impl ScopeLogs {
    /// The log records of `scope`.
    pub fn new(scope: InstrumentationScope, log_records: Vec<LogRecord>) -> (r: ScopeLogs)
        ensures
            r@ == scope_logs_model(scope@, log_records@.map_values(|l: LogRecord| l@)),
    {
        ScopeLogs { scope: Some(scope), log_records, schema_url: String::new() }
    }
}

impl ResourceLogs {
    /// The scope logs of `resource`.
    pub fn new(resource: Resource, scope_logs: Vec<ScopeLogs>) -> (r: ResourceLogs)
        ensures
            r@ == resource_logs_model(resource@, scope_logs@.map_values(|s: ScopeLogs| s@)),
    {
        ResourceLogs { resource: Some(resource), scope_logs, schema_url: String::new() }
    }
}

impl LogsData {
    /// Logs data holding `resource_logs`.
    pub fn new(resource_logs: Vec<ResourceLogs>) -> (r: LogsData)
        ensures
            r@ == resource_logs@.map_values(|x: ResourceLogs| x@),
    {
        LogsData { resource_logs }
    }
}

} // verus!
