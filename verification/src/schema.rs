//! The JSON layout of a trace: which fields a document must have, what each
//! must hold, and how a trace is written back.
//!
//! Field names are lower camel case. An optional field may be absent or
//! `null`. Fields the layout does not name are ignored. Nothing is defaulted:
//! a required field that is absent, or any field that holds the wrong kind of
//! value, is a fault, and the first fault in the order of the layout is the
//! one reported.

use crate::json;
use crate::json::{map_model, models, no_entries, value_model, JsonValue};
use crate::timestamp::{rfc3339_zulu_text, timestamp_of_text, Timestamp};
use crate::trace::{
    optional_wf, step_models, steps_wf, text_view, DurableTrace, StepModel, StepTrace, TaskInfo,
    TaskInfoModel, TraceModel,
};
use vstd::prelude::*;
use vstd::string::StringExecFns;

verus! {

/// Why a document is not a trace.
#[derive(Clone, Copy, Debug, PartialEq, Eq)]
pub enum SchemaError {
    /// A record of the layout is written as something other than an object.
    NotAnObject,
    /// A required field is absent.
    MissingField(&'static str),
    /// A field holds a value of the wrong kind.
    InvalidField(&'static str),
}

/// The fields of an object.
pub type Fields = Map<Seq<char>, JsonValue>;

/// The value under `key`, where the object has one.
pub open spec fn field(fields: Fields, key: Seq<char>) -> Option<JsonValue> {
    if fields.dom().contains(key) {
        Some(fields[key])
    } else {
        None
    }
}

/// Whether an optional field is left out: absent, or `null`.
pub open spec fn left_out(fields: Fields, key: Seq<char>) -> bool {
    field(fields, key) is None || field(fields, key) == Some(JsonValue::Null)
}

/// A required text field.
pub open spec fn required_text(fields: Fields, key: &'static str) -> Result<Seq<char>, SchemaError> {
    match field(fields, key@) {
        None => Err(SchemaError::MissingField(key)),
        Some(JsonValue::Text(text)) => Ok(text),
        Some(_) => Err(SchemaError::InvalidField(key)),
    }
}

/// An optional text field.
pub open spec fn optional_text(fields: Fields, key: &'static str) -> Result<
    Option<Seq<char>>,
    SchemaError,
> {
    if left_out(fields, key@) {
        Ok(None)
    } else {
        match field(fields, key@) {
            Some(JsonValue::Text(text)) => Ok(Some(text)),
            _ => Err(SchemaError::InvalidField(key)),
        }
    }
}

/// The timestamp a value holds: the reading of its text.
pub open spec fn time_of(value: JsonValue) -> Option<Timestamp> {
    match value {
        JsonValue::Text(text) => timestamp_of_text(text),
        _ => None,
    }
}

/// A required timestamp field.
pub open spec fn required_time(fields: Fields, key: &'static str) -> Result<Timestamp, SchemaError> {
    match field(fields, key@) {
        None => Err(SchemaError::MissingField(key)),
        Some(value) => match time_of(value) {
            Some(at) => Ok(at),
            None => Err(SchemaError::InvalidField(key)),
        },
    }
}

/// An optional timestamp field.
pub open spec fn optional_time(fields: Fields, key: &'static str) -> Result<
    Option<Timestamp>,
    SchemaError,
> {
    if left_out(fields, key@) {
        Ok(None)
    } else {
        match time_of(field(fields, key@)->Some_0) {
            Some(at) => Ok(Some(at)),
            None => Err(SchemaError::InvalidField(key)),
        }
    }
}

/// A required field that counts: an integer from 0 to `u32::MAX`.
pub open spec fn required_count(fields: Fields, key: &'static str) -> Result<u32, SchemaError> {
    match field(fields, key@) {
        None => Err(SchemaError::MissingField(key)),
        Some(JsonValue::Integer(n)) => if 0 <= n <= u32::MAX {
            Ok(n as u32)
        } else {
            Err(SchemaError::InvalidField(key))
        },
        Some(_) => Err(SchemaError::InvalidField(key)),
    }
}

/// An optional boolean field.
pub open spec fn optional_flag(fields: Fields, key: &'static str) -> Result<
    Option<bool>,
    SchemaError,
> {
    if left_out(fields, key@) {
        Ok(None)
    } else {
        match field(fields, key@) {
            Some(JsonValue::Bool(b)) => Ok(Some(b)),
            _ => Err(SchemaError::InvalidField(key)),
        }
    }
}

/// The fields of a value that is an object.
pub open spec fn fields_of(value: serde_json::Value) -> Fields {
    value_model(value)->Object_0
}

/// Reads a required text field of an object.
fn read_text(record: &serde_json::Value, key: &'static str) -> (r: Result<String, SchemaError>)
    requires
        value_model(*record) is Object,
    ensures
        match r {
            Ok(text) => required_text(fields_of(*record), key) == Ok::<Seq<char>, SchemaError>(text@),
            Err(e) => required_text(fields_of(*record), key) == Err::<Seq<char>, SchemaError>(e),
        },
{
    match json::get(record, key) {
        None => Err(SchemaError::MissingField(key)),
        Some(value) => match json::as_str(value) {
            Some(text) => Ok(String::from_str(text)),
            None => Err(SchemaError::InvalidField(key)),
        },
    }
}

/// Reads an optional text field of an object.
fn read_optional_text(record: &serde_json::Value, key: &'static str) -> (r: Result<
    Option<String>,
    SchemaError,
>)
    requires
        value_model(*record) is Object,
    ensures
        match r {
            Ok(text) => optional_text(fields_of(*record), key) == Ok::<
                Option<Seq<char>>,
                SchemaError,
            >(text_view(text)),
            Err(e) => optional_text(fields_of(*record), key) == Err::<
                Option<Seq<char>>,
                SchemaError,
            >(e),
        },
{
    match json::get(record, key) {
        None => Ok(None),
        Some(value) => if json::is_null(value) {
            Ok(None)
        } else {
            match json::as_str(value) {
                Some(text) => Ok(Some(String::from_str(text))),
                None => Err(SchemaError::InvalidField(key)),
            }
        },
    }
}

/// Reads the timestamp that a value holds.
fn read_time_value(value: &serde_json::Value) -> (r: Option<Timestamp>)
    ensures
        r == time_of(value_model(*value)),
        r matches Some(at) ==> at.wf(),
{
    match json::as_str(value) {
        Some(text) => Timestamp::parse_rfc3339(text),
        None => None,
    }
}

/// Reads a required timestamp field of an object.
fn read_time(record: &serde_json::Value, key: &'static str) -> (r: Result<Timestamp, SchemaError>)
    requires
        value_model(*record) is Object,
    ensures
        r == required_time(fields_of(*record), key),
        r matches Ok(at) ==> at.wf(),
{
    match json::get(record, key) {
        None => Err(SchemaError::MissingField(key)),
        Some(value) => match read_time_value(value) {
            Some(at) => Ok(at),
            None => Err(SchemaError::InvalidField(key)),
        },
    }
}

/// Reads an optional timestamp field of an object.
fn read_optional_time(record: &serde_json::Value, key: &'static str) -> (r: Result<
    Option<Timestamp>,
    SchemaError,
>)
    requires
        value_model(*record) is Object,
    ensures
        r == optional_time(fields_of(*record), key),
        r matches Ok(Some(at)) ==> at.wf(),
{
    match json::get(record, key) {
        None => Ok(None),
        Some(value) => if json::is_null(value) {
            Ok(None)
        } else {
            match read_time_value(value) {
                Some(at) => Ok(Some(at)),
                None => Err(SchemaError::InvalidField(key)),
            }
        },
    }
}

/// Reads a required counting field of an object.
fn read_count(record: &serde_json::Value, key: &'static str) -> (r: Result<u32, SchemaError>)
    requires
        value_model(*record) is Object,
    ensures
        r == required_count(fields_of(*record), key),
{
    match json::get(record, key) {
        None => Err(SchemaError::MissingField(key)),
        Some(value) => match json::as_u64(value) {
            Some(n) => if n <= u32::MAX as u64 {
                Ok(n as u32)
            } else {
                Err(SchemaError::InvalidField(key))
            },
            None => Err(SchemaError::InvalidField(key)),
        },
    }
}

/// Reads an optional boolean field of an object.
fn read_optional_flag(record: &serde_json::Value, key: &'static str) -> (r: Result<
    Option<bool>,
    SchemaError,
>)
    requires
        value_model(*record) is Object,
    ensures
        r == optional_flag(fields_of(*record), key),
{
    match json::get(record, key) {
        None => Ok(None),
        Some(value) => if json::is_null(value) {
            Ok(None)
        } else {
            match json::as_bool(value) {
                Some(b) => Ok(Some(b)),
                None => Err(SchemaError::InvalidField(key)),
            }
        },
    }
}

/// The task that a document describes, or the first fault that keeps it
/// from being one. The fields are `id`, `taskName`, `executionTime`,
/// `consecutiveFailures`, `executionVersion` and, optional, `lastFailure` and
/// `lastSuccess`.
pub open spec fn task_info_of(document: JsonValue) -> Result<TaskInfoModel, SchemaError> {
    match document {
        JsonValue::Object(f) => {
            let id = required_text(f, "id");
            let task_name = required_text(f, "taskName");
            let execution_time = required_time(f, "executionTime");
            let consecutive_failures = required_count(f, "consecutiveFailures");
            let execution_version = required_count(f, "executionVersion");
            let last_failure = optional_time(f, "lastFailure");
            let last_success = optional_time(f, "lastSuccess");
            if id is Err {
                Err(id->Err_0)
            } else if task_name is Err {
                Err(task_name->Err_0)
            } else if execution_time is Err {
                Err(execution_time->Err_0)
            } else if consecutive_failures is Err {
                Err(consecutive_failures->Err_0)
            } else if execution_version is Err {
                Err(execution_version->Err_0)
            } else if last_failure is Err {
                Err(last_failure->Err_0)
            } else if last_success is Err {
                Err(last_success->Err_0)
            } else {
                Ok(
                    TaskInfoModel {
                        id: id->Ok_0,
                        task_name: task_name->Ok_0,
                        execution_time: execution_time->Ok_0,
                        consecutive_failures: consecutive_failures->Ok_0,
                        execution_version: execution_version->Ok_0,
                        last_failure: last_failure->Ok_0,
                        last_success: last_success->Ok_0,
                    },
                )
            }
        },
        _ => Err(SchemaError::NotAnObject),
    }
}

/// Reads a task from a document.
pub fn decode_task_info(value: &serde_json::Value) -> (r: Result<TaskInfo, SchemaError>)
    ensures
        match r {
            Ok(info) => task_info_of(value_model(*value)) == Ok::<TaskInfoModel, SchemaError>(info@)
                && info@.wf(),
            Err(e) => task_info_of(value_model(*value)) == Err::<TaskInfoModel, SchemaError>(e),
        },
{
    if !json::is_object(value) {
        return Err(SchemaError::NotAnObject);
    }
    let id = read_text(value, "id")?;
    let task_name = read_text(value, "taskName")?;
    let execution_time = read_time(value, "executionTime")?;
    let consecutive_failures = read_count(value, "consecutiveFailures")?;
    let execution_version = read_count(value, "executionVersion")?;
    let last_failure = read_optional_time(value, "lastFailure")?;
    let last_success = read_optional_time(value, "lastSuccess")?;
    Ok(
        TaskInfo {
            id,
            task_name,
            execution_time,
            consecutive_failures,
            execution_version,
            last_failure,
            last_success,
        },
    )
}

/// How a timestamp is written: its RFC 3339 text, ending in `Z`.
pub open spec fn time_document(at: Timestamp) -> JsonValue {
    JsonValue::Text(rfc3339_zulu_text(at.secs as int, at.nanos as int))
}

/// How an optional timestamp is written: `null` where it is absent.
pub open spec fn optional_time_document(at: Option<Timestamp>) -> JsonValue {
    match at {
        Some(at) => time_document(at),
        None => JsonValue::Null,
    }
}

/// How an optional text is written: `null` where it is absent.
pub open spec fn optional_text_document(text: Option<Seq<char>>) -> JsonValue {
    match text {
        Some(text) => JsonValue::Text(text),
        None => JsonValue::Null,
    }
}

/// How an optional boolean is written: `null` where it is absent.
pub open spec fn optional_flag_document(flag: Option<bool>) -> JsonValue {
    match flag {
        Some(b) => JsonValue::Bool(b),
        None => JsonValue::Null,
    }
}

/// The document written for a task: an object with all seven fields.
pub open spec fn task_info_document(info: TaskInfoModel) -> JsonValue {
    JsonValue::Object(
        no_entries().insert("id"@, JsonValue::Text(info.id)).insert(
            "taskName"@,
            JsonValue::Text(info.task_name),
        ).insert("executionTime"@, time_document(info.execution_time)).insert(
            "consecutiveFailures"@,
            JsonValue::Integer(info.consecutive_failures as int),
        ).insert("executionVersion"@, JsonValue::Integer(info.execution_version as int)).insert(
            "lastFailure"@,
            optional_time_document(info.last_failure),
        ).insert("lastSuccess"@, optional_time_document(info.last_success)),
    )
}

/// Puts `value` under `key`.
fn put(
    entries: &mut serde_json::Map<String, serde_json::Value>,
    key: &'static str,
    value: serde_json::Value,
)
    ensures
        map_model(*final(entries)) == map_model(*old(entries)).insert(key@, value_model(value)),
{
    json::insert(entries, String::from_str(key), value);
}

/// Writes a text.
fn text_value(text: &String) -> (value: serde_json::Value)
    ensures
        value_model(value) == JsonValue::Text(text@),
{
    json::string(text.clone())
}

/// Writes an optional text.
fn optional_text_value(text: &Option<String>) -> (value: serde_json::Value)
    ensures
        value_model(value) == optional_text_document(text_view(*text)),
{
    match text {
        Some(text) => text_value(text),
        None => json::null(),
    }
}

/// Writes a timestamp.
fn time_value(at: Timestamp) -> (value: serde_json::Value)
    requires
        at.wf(),
    ensures
        value_model(value) == time_document(at),
        time_of(value_model(value)) == Some(at),
{
    json::string(at.to_rfc3339_zulu())
}

/// Writes an optional timestamp.
fn optional_time_value(at: Option<Timestamp>) -> (value: serde_json::Value)
    requires
        optional_wf(at),
    ensures
        value_model(value) == optional_time_document(at),
        at matches Some(t) ==> time_of(value_model(value)) == Some(t),
{
    match at {
        Some(at) => time_value(at),
        None => json::null(),
    }
}

/// Writes an optional boolean.
fn optional_flag_value(flag: Option<bool>) -> (value: serde_json::Value)
    ensures
        value_model(value) == optional_flag_document(flag),
{
    match flag {
        Some(b) => json::boolean(b),
        None => json::null(),
    }
}

/// The field names of a task are all different.
proof fn lemma_task_info_keys()
    ensures
        "id"@ != "taskName"@,
        "id"@ != "executionTime"@,
        "id"@ != "consecutiveFailures"@,
        "id"@ != "executionVersion"@,
        "id"@ != "lastFailure"@,
        "id"@ != "lastSuccess"@,
        "taskName"@ != "executionTime"@,
        "taskName"@ != "consecutiveFailures"@,
        "taskName"@ != "executionVersion"@,
        "taskName"@ != "lastFailure"@,
        "taskName"@ != "lastSuccess"@,
        "executionTime"@ != "consecutiveFailures"@,
        "executionTime"@ != "executionVersion"@,
        "executionTime"@ != "lastFailure"@,
        "executionTime"@ != "lastSuccess"@,
        "consecutiveFailures"@ != "executionVersion"@,
        "consecutiveFailures"@ != "lastFailure"@,
        "consecutiveFailures"@ != "lastSuccess"@,
        "executionVersion"@ != "lastFailure"@,
        "executionVersion"@ != "lastSuccess"@,
        "lastFailure"@ != "lastSuccess"@,
{
    reveal_strlit("id");
    reveal_strlit("taskName");
    reveal_strlit("executionTime");
    reveal_strlit("consecutiveFailures");
    reveal_strlit("executionVersion");
    reveal_strlit("lastFailure");
    reveal_strlit("lastSuccess");
    assert("id"@.len() == 2);
    assert("taskName"@.len() == 8);
    assert("executionTime"@.len() == 13);
    assert("consecutiveFailures"@.len() == 19);
    assert("executionVersion"@.len() == 16);
    assert("lastFailure"@.len() == 11);
    assert("lastSuccess"@.len() == 11);
    assert("lastFailure"@[4] != "lastSuccess"@[4]);
}

/// Writes a task as a document. Reading the document gives the task back.
pub fn encode_task_info(info: &TaskInfo) -> (value: serde_json::Value)
    requires
        info@.wf(),
    ensures
        value_model(value) == task_info_document(info@),
        task_info_of(value_model(value)) == Ok::<TaskInfoModel, SchemaError>(info@),
{
    let mut entries = json::new_map();
    put(&mut entries, "id", text_value(&info.id));
    put(&mut entries, "taskName", text_value(&info.task_name));
    put(&mut entries, "executionTime", time_value(info.execution_time));
    put(&mut entries, "consecutiveFailures", json::number(info.consecutive_failures as u64));
    put(&mut entries, "executionVersion", json::number(info.execution_version as u64));
    put(&mut entries, "lastFailure", optional_time_value(info.last_failure));
    put(&mut entries, "lastSuccess", optional_time_value(info.last_success));
    let value = json::object(entries);
    proof {
        lemma_task_info_keys();
    }
    value
}

/// A required field that holds a task.
pub open spec fn required_task(fields: Fields, key: &'static str) -> Result<
    TaskInfoModel,
    SchemaError,
> {
    match field(fields, key@) {
        None => Err(SchemaError::MissingField(key)),
        Some(value) => task_info_of(value),
    }
}

/// An optional field that holds a task.
pub open spec fn optional_task(fields: Fields, key: &'static str) -> Result<
    Option<TaskInfoModel>,
    SchemaError,
> {
    if left_out(fields, key@) {
        Ok(None)
    } else {
        match task_info_of(field(fields, key@)->Some_0) {
            Ok(info) => Ok(Some(info)),
            Err(e) => Err(e),
        }
    }
}

/// The step that a document describes, or the first fault that keeps it from
/// being one. The fields are `durableStepId`, `result` (optional),
/// `scheduledAt`, `completedAt` (optional), `inTaskInfo` and `outTaskInfo`
/// (optional).
pub open spec fn step_of(document: JsonValue) -> Result<StepModel, SchemaError> {
    match document {
        JsonValue::Object(f) => {
            let durable_step_id = required_text(f, "durableStepId");
            let result = optional_text(f, "result");
            let scheduled_at = required_time(f, "scheduledAt");
            let completed_at = optional_time(f, "completedAt");
            let in_task_info = required_task(f, "inTaskInfo");
            let out_task_info = optional_task(f, "outTaskInfo");
            if durable_step_id is Err {
                Err(durable_step_id->Err_0)
            } else if result is Err {
                Err(result->Err_0)
            } else if scheduled_at is Err {
                Err(scheduled_at->Err_0)
            } else if completed_at is Err {
                Err(completed_at->Err_0)
            } else if in_task_info is Err {
                Err(in_task_info->Err_0)
            } else if out_task_info is Err {
                Err(out_task_info->Err_0)
            } else {
                Ok(
                    StepModel {
                        durable_step_id: durable_step_id->Ok_0,
                        result: result->Ok_0,
                        scheduled_at: scheduled_at->Ok_0,
                        completed_at: completed_at->Ok_0,
                        in_task_info: in_task_info->Ok_0,
                        out_task_info: out_task_info->Ok_0,
                    },
                )
            }
        },
        _ => Err(SchemaError::NotAnObject),
    }
}

/// The model of an optional task.
pub open spec fn task_view(info: Option<TaskInfo>) -> Option<TaskInfoModel> {
    match info {
        Some(info) => Some(info@),
        None => None,
    }
}

/// Reads a required field of an object that holds a task.
fn read_task(record: &serde_json::Value, key: &'static str) -> (r: Result<TaskInfo, SchemaError>)
    requires
        value_model(*record) is Object,
    ensures
        match r {
            Ok(info) => required_task(fields_of(*record), key) == Ok::<TaskInfoModel, SchemaError>(
                info@,
            ) && info@.wf(),
            Err(e) => required_task(fields_of(*record), key) == Err::<TaskInfoModel, SchemaError>(e),
        },
{
    match json::get(record, key) {
        None => Err(SchemaError::MissingField(key)),
        Some(value) => decode_task_info(value),
    }
}

/// Reads an optional field of an object that holds a task.
fn read_optional_task(record: &serde_json::Value, key: &'static str) -> (r: Result<
    Option<TaskInfo>,
    SchemaError,
>)
    requires
        value_model(*record) is Object,
    ensures
        match r {
            Ok(info) => optional_task(fields_of(*record), key) == Ok::<
                Option<TaskInfoModel>,
                SchemaError,
            >(task_view(info)) && (info matches Some(i) ==> i@.wf()),
            Err(e) => optional_task(fields_of(*record), key) == Err::<
                Option<TaskInfoModel>,
                SchemaError,
            >(e),
        },
{
    match json::get(record, key) {
        None => Ok(None),
        Some(value) => if json::is_null(value) {
            Ok(None)
        } else {
            match decode_task_info(value) {
                Ok(info) => Ok(Some(info)),
                Err(e) => Err(e),
            }
        },
    }
}

/// Reads a step from a document.
pub fn decode_step(value: &serde_json::Value) -> (r: Result<StepTrace, SchemaError>)
    ensures
        match r {
            Ok(step) => step_of(value_model(*value)) == Ok::<StepModel, SchemaError>(step@)
                && step@.wf(),
            Err(e) => step_of(value_model(*value)) == Err::<StepModel, SchemaError>(e),
        },
{
    if !json::is_object(value) {
        return Err(SchemaError::NotAnObject);
    }
    let durable_step_id = read_text(value, "durableStepId")?;
    let result = read_optional_text(value, "result")?;
    let scheduled_at = read_time(value, "scheduledAt")?;
    let completed_at = read_optional_time(value, "completedAt")?;
    let in_task_info = read_task(value, "inTaskInfo")?;
    let out_task_info = read_optional_task(value, "outTaskInfo")?;
    Ok(StepTrace { durable_step_id, result, scheduled_at, completed_at, in_task_info, out_task_info })
}

/// How an optional task is written: `null` where it is absent.
pub open spec fn optional_task_document(info: Option<TaskInfoModel>) -> JsonValue {
    match info {
        Some(info) => task_info_document(info),
        None => JsonValue::Null,
    }
}

/// The document written for a step: an object with all six fields.
pub open spec fn step_document(step: StepModel) -> JsonValue {
    JsonValue::Object(
        no_entries().insert(
            "durableStepId"@,
            JsonValue::Text(step.durable_step_id),
        ).insert("result"@, optional_text_document(step.result)).insert(
            "scheduledAt"@,
            time_document(step.scheduled_at),
        ).insert("completedAt"@, optional_time_document(step.completed_at)).insert(
            "inTaskInfo"@,
            task_info_document(step.in_task_info),
        ).insert("outTaskInfo"@, optional_task_document(step.out_task_info)),
    )
}

/// Writes an optional task.
fn optional_task_value(info: &Option<TaskInfo>) -> (value: serde_json::Value)
    requires
        info matches Some(i) ==> i@.wf(),
    ensures
        value_model(value) == optional_task_document(task_view(*info)),
        info matches Some(i) ==> task_info_of(value_model(value)) == Ok::<
            TaskInfoModel,
            SchemaError,
        >(i@),
{
    match info {
        Some(info) => encode_task_info(info),
        None => json::null(),
    }
}

/// The field names of a step are all different.
proof fn lemma_step_keys()
    ensures
        "durableStepId"@ != "result"@,
        "durableStepId"@ != "scheduledAt"@,
        "durableStepId"@ != "completedAt"@,
        "durableStepId"@ != "inTaskInfo"@,
        "durableStepId"@ != "outTaskInfo"@,
        "result"@ != "scheduledAt"@,
        "result"@ != "completedAt"@,
        "result"@ != "inTaskInfo"@,
        "result"@ != "outTaskInfo"@,
        "scheduledAt"@ != "completedAt"@,
        "scheduledAt"@ != "inTaskInfo"@,
        "scheduledAt"@ != "outTaskInfo"@,
        "completedAt"@ != "inTaskInfo"@,
        "completedAt"@ != "outTaskInfo"@,
        "inTaskInfo"@ != "outTaskInfo"@,
{
    reveal_strlit("durableStepId");
    reveal_strlit("result");
    reveal_strlit("scheduledAt");
    reveal_strlit("completedAt");
    reveal_strlit("inTaskInfo");
    reveal_strlit("outTaskInfo");
    assert("durableStepId"@.len() == 13);
    assert("result"@.len() == 6);
    assert("scheduledAt"@.len() == 11);
    assert("completedAt"@.len() == 11);
    assert("inTaskInfo"@.len() == 10);
    assert("outTaskInfo"@.len() == 11);
    assert("scheduledAt"@[0] != "completedAt"@[0]);
    assert("scheduledAt"@[0] != "outTaskInfo"@[0]);
    assert("completedAt"@[0] != "outTaskInfo"@[0]);
}

/// Writes a step as a document. Reading the document gives the step back.
pub fn encode_step(step: &StepTrace) -> (value: serde_json::Value)
    requires
        step@.wf(),
    ensures
        value_model(value) == step_document(step@),
        step_of(value_model(value)) == Ok::<StepModel, SchemaError>(step@),
{
    let mut entries = json::new_map();
    put(&mut entries, "durableStepId", text_value(&step.durable_step_id));
    put(&mut entries, "result", optional_text_value(&step.result));
    put(&mut entries, "scheduledAt", time_value(step.scheduled_at));
    put(&mut entries, "completedAt", optional_time_value(step.completed_at));
    put(&mut entries, "inTaskInfo", encode_task_info(&step.in_task_info));
    put(&mut entries, "outTaskInfo", optional_task_value(&step.out_task_info));
    let value = json::object(entries);
    proof {
        lemma_step_keys();
    }
    value
}

/// The steps that the items of an array describe, in order, or the fault of
/// the first item that is no step.
pub open spec fn steps_of(items: Seq<JsonValue>) -> Result<Seq<StepModel>, SchemaError>
    decreases items.len(),
{
    if items.len() == 0 {
        Ok(Seq::empty())
    } else {
        match steps_of(items.drop_last()) {
            Err(e) => Err(e),
            Ok(front) => match step_of(items.last()) {
                Err(e) => Err(e),
                Ok(step) => Ok(front.push(step)),
            },
        }
    }
}

/// The required field that holds the steps: an array of steps.
pub open spec fn required_steps(fields: Fields, key: &'static str) -> Result<
    Seq<StepModel>,
    SchemaError,
> {
    match field(fields, key@) {
        None => Err(SchemaError::MissingField(key)),
        Some(JsonValue::Array(items)) => steps_of(items),
        Some(_) => Err(SchemaError::InvalidField(key)),
    }
}

/// The trace that a document describes, or the first fault that keeps it from
/// being one. The fields are `name`, `durableExecutionId`, `scheduledAt`,
/// `completedAt` (optional), `payload` (optional), `result` (optional),
/// `isError` (optional), `status`, `failureReason` (optional),
/// `failureSource` (optional), `version` and `steps`.
pub open spec fn trace_of(document: JsonValue) -> Result<TraceModel, SchemaError> {
    match document {
        JsonValue::Object(f) => {
            let name = required_text(f, "name");
            let durable_execution_id = required_text(f, "durableExecutionId");
            let scheduled_at = required_time(f, "scheduledAt");
            let completed_at = optional_time(f, "completedAt");
            let payload = optional_text(f, "payload");
            let result = optional_text(f, "result");
            let is_error = optional_flag(f, "isError");
            let status = required_text(f, "status");
            let failure_reason = optional_text(f, "failureReason");
            let failure_source = optional_text(f, "failureSource");
            let version = required_count(f, "version");
            let steps = required_steps(f, "steps");
            if name is Err {
                Err(name->Err_0)
            } else if durable_execution_id is Err {
                Err(durable_execution_id->Err_0)
            } else if scheduled_at is Err {
                Err(scheduled_at->Err_0)
            } else if completed_at is Err {
                Err(completed_at->Err_0)
            } else if payload is Err {
                Err(payload->Err_0)
            } else if result is Err {
                Err(result->Err_0)
            } else if is_error is Err {
                Err(is_error->Err_0)
            } else if status is Err {
                Err(status->Err_0)
            } else if failure_reason is Err {
                Err(failure_reason->Err_0)
            } else if failure_source is Err {
                Err(failure_source->Err_0)
            } else if version is Err {
                Err(version->Err_0)
            } else if steps is Err {
                Err(steps->Err_0)
            } else {
                Ok(
                    TraceModel {
                        name: name->Ok_0,
                        durable_execution_id: durable_execution_id->Ok_0,
                        scheduled_at: scheduled_at->Ok_0,
                        completed_at: completed_at->Ok_0,
                        payload: payload->Ok_0,
                        result: result->Ok_0,
                        is_error: is_error->Ok_0,
                        status: status->Ok_0,
                        failure_reason: failure_reason->Ok_0,
                        failure_source: failure_source->Ok_0,
                        version: version->Ok_0,
                        steps: steps->Ok_0,
                    },
                )
            }
        },
        _ => Err(SchemaError::NotAnObject),
    }
}

/// Reads the required field of an object that holds the steps.
fn read_steps(record: &serde_json::Value, key: &'static str) -> (r: Result<
    Vec<StepTrace>,
    SchemaError,
>)
    requires
        value_model(*record) is Object,
    ensures
        match r {
            Ok(steps) => required_steps(fields_of(*record), key) == Ok::<
                Seq<StepModel>,
                SchemaError,
            >(step_models(steps@)) && steps_wf(step_models(steps@)),
            Err(e) => required_steps(fields_of(*record), key) == Err::<Seq<StepModel>, SchemaError>(
                e,
            ),
        },
{
    let items = match json::get(record, key) {
        None => { return Err(SchemaError::MissingField(key)); },
        Some(value) => match json::as_array(value) {
            Some(items) => items,
            None => { return Err(SchemaError::InvalidField(key)); },
        },
    };
    let ghost documents = models(items@);
    let mut steps: Vec<StepTrace> = Vec::new();
    let mut i: usize = 0;
    proof {
        assert(step_models(steps@) =~= Seq::<StepModel>::empty());
    }
    while i < items.len()
        invariant
            i <= items.len(),
            documents == models(items@),
            required_steps(fields_of(*record), key) == steps_of(documents),
            steps_of(documents.take(i as int)) == Ok::<Seq<StepModel>, SchemaError>(
                step_models(steps@),
            ),
            steps_wf(step_models(steps@)),
        decreases items.len() - i,
    {
        proof {
            assert(documents.take(i + 1).drop_last() =~= documents.take(i as int));
            assert(documents.take(i + 1).last() == value_model(items[i as int]));
        }
        let ghost before = steps@;
        match decode_step(&items[i]) {
            Ok(step) => {
                steps.push(step);
                proof {
                    assert(step_models(steps@) =~= step_models(before).push(step@));
                }
            },
            Err(e) => {
                proof {
                    assert(steps_of(documents.take(i + 1)) == Err::<Seq<StepModel>, SchemaError>(e));
                    lemma_steps_fault_stays(documents, i + 1);
                }
                return Err(e);
            },
        }
        i = i + 1;
    }
    proof {
        assert(documents.take(i as int) =~= documents);
    }
    Ok(steps)
}

/// Once the first `n` items hold a fault, the whole array reports that fault.
proof fn lemma_steps_fault_stays(items: Seq<JsonValue>, n: int)
    requires
        0 <= n <= items.len(),
        steps_of(items.take(n)) is Err,
    ensures
        steps_of(items) == steps_of(items.take(n)),
    decreases items.len() - n,
{
    if n < items.len() {
        assert(items.take(n + 1).drop_last() =~= items.take(n));
        lemma_steps_fault_stays(items, n + 1);
    } else {
        assert(items.take(n) =~= items);
    }
}

/// Reads a trace from a document.
pub fn decode_trace(value: &serde_json::Value) -> (r: Result<DurableTrace, SchemaError>)
    ensures
        match r {
            Ok(trace) => trace_of(value_model(*value)) == Ok::<TraceModel, SchemaError>(trace@)
                && trace@.wf(),
            Err(e) => trace_of(value_model(*value)) == Err::<TraceModel, SchemaError>(e),
        },
{
    if !json::is_object(value) {
        return Err(SchemaError::NotAnObject);
    }
    let name = read_text(value, "name")?;
    let durable_execution_id = read_text(value, "durableExecutionId")?;
    let scheduled_at = read_time(value, "scheduledAt")?;
    let completed_at = read_optional_time(value, "completedAt")?;
    let payload = read_optional_text(value, "payload")?;
    let result = read_optional_text(value, "result")?;
    let is_error = read_optional_flag(value, "isError")?;
    let status = read_text(value, "status")?;
    let failure_reason = read_optional_text(value, "failureReason")?;
    let failure_source = read_optional_text(value, "failureSource")?;
    let version = read_count(value, "version")?;
    let steps = read_steps(value, "steps")?;
    Ok(
        DurableTrace {
            name,
            durable_execution_id,
            scheduled_at,
            completed_at,
            payload,
            result,
            is_error,
            status,
            failure_reason,
            failure_source,
            version,
            steps,
        },
    )
}

/// The array written for a run of steps: each step's document, in order.
pub open spec fn steps_document(steps: Seq<StepModel>) -> JsonValue {
    JsonValue::Array(steps.map_values(|step: StepModel| step_document(step)))
}

/// The document written for a trace: an object with all twelve fields.
pub open spec fn trace_document(trace: TraceModel) -> JsonValue {
    JsonValue::Object(
        no_entries().insert("name"@, JsonValue::Text(trace.name)).insert(
            "durableExecutionId"@,
            JsonValue::Text(trace.durable_execution_id),
        ).insert("scheduledAt"@, time_document(trace.scheduled_at)).insert(
            "completedAt"@,
            optional_time_document(trace.completed_at),
        ).insert("payload"@, optional_text_document(trace.payload)).insert(
            "result"@,
            optional_text_document(trace.result),
        ).insert("isError"@, optional_flag_document(trace.is_error)).insert(
            "status"@,
            JsonValue::Text(trace.status),
        ).insert("failureReason"@, optional_text_document(trace.failure_reason)).insert(
            "failureSource"@,
            optional_text_document(trace.failure_source),
        ).insert("version"@, JsonValue::Integer(trace.version as int)).insert(
            "steps"@,
            steps_document(trace.steps),
        ),
    )
}

/// Writes a run of steps as an array.
fn steps_value(steps: &Vec<StepTrace>) -> (value: serde_json::Value)
    requires
        steps_wf(step_models(steps@)),
    ensures
        value_model(value) == steps_document(step_models(steps@)),
        value_model(value) matches JsonValue::Array(items) && steps_of(items) == Ok::<
            Seq<StepModel>,
            SchemaError,
        >(step_models(steps@)),
{
    let ghost wanted = step_models(steps@);
    let mut items: Vec<serde_json::Value> = Vec::new();
    let mut i: usize = 0;
    proof {
        assert(models(items@) =~= wanted.take(0).map_values(|step: StepModel| step_document(step)));
        assert(wanted.take(0) =~= Seq::<StepModel>::empty());
    }
    while i < steps.len()
        invariant
            i <= steps.len(),
            wanted == step_models(steps@),
            steps_wf(wanted),
            models(items@) == wanted.take(i as int).map_values(|step: StepModel| step_document(step)),
            steps_of(models(items@)) == Ok::<Seq<StepModel>, SchemaError>(wanted.take(i as int)),
        decreases steps.len() - i,
    {
        proof {
            assert(wanted[i as int].wf());
            assert(wanted[i as int] == steps[i as int]@);
        }
        let ghost before = items@;
        let item = encode_step(&steps[i]);
        items.push(item);
        proof {
            assert(models(items@) =~= models(before).push(step_document(wanted[i as int])));
            assert(models(items@).drop_last() =~= models(before));
            assert(wanted.take(i + 1) =~= wanted.take(i as int).push(wanted[i as int]));
            assert(models(items@) =~= wanted.take(i + 1).map_values(
                |step: StepModel| step_document(step),
            ));
        }
        i = i + 1;
    }
    proof {
        assert(wanted.take(i as int) =~= wanted);
    }
    json::array(items)
}

/// The field names of a trace are all different.
proof fn lemma_trace_keys()
    ensures
        "name"@.len() == 4,
        "durableExecutionId"@.len() == 18,
        "scheduledAt"@.len() == 11,
        "completedAt"@.len() == 11,
        "payload"@.len() == 7,
        "result"@.len() == 6,
        "isError"@.len() == 7,
        "status"@.len() == 6,
        "failureReason"@.len() == 13,
        "failureSource"@.len() == 13,
        "version"@.len() == 7,
        "steps"@.len() == 5,
        "scheduledAt"@ != "completedAt"@,
        "payload"@ != "isError"@,
        "payload"@ != "version"@,
        "isError"@ != "version"@,
        "result"@ != "status"@,
        "failureReason"@ != "failureSource"@,
{
    reveal_strlit("name");
    reveal_strlit("durableExecutionId");
    reveal_strlit("scheduledAt");
    reveal_strlit("completedAt");
    reveal_strlit("payload");
    reveal_strlit("result");
    reveal_strlit("isError");
    reveal_strlit("status");
    reveal_strlit("failureReason");
    reveal_strlit("failureSource");
    reveal_strlit("version");
    reveal_strlit("steps");
    assert("scheduledAt"@[0] != "completedAt"@[0]);
    assert("payload"@[0] != "isError"@[0]);
    assert("payload"@[0] != "version"@[0]);
    assert("isError"@[0] != "version"@[0]);
    assert("result"@[0] != "status"@[0]);
    assert("failureReason"@[7] != "failureSource"@[7]);
}

/// Writes a trace as a document. Reading the document gives the trace back,
/// field for field.
pub fn encode_trace(trace: &DurableTrace) -> (value: serde_json::Value)
    requires
        trace@.wf(),
    ensures
        value_model(value) == trace_document(trace@),
        trace_of(value_model(value)) == Ok::<TraceModel, SchemaError>(trace@),
{
    let mut entries = json::new_map();
    put(&mut entries, "name", text_value(&trace.name));
    put(&mut entries, "durableExecutionId", text_value(&trace.durable_execution_id));
    put(&mut entries, "scheduledAt", time_value(trace.scheduled_at));
    put(&mut entries, "completedAt", optional_time_value(trace.completed_at));
    put(&mut entries, "payload", optional_text_value(&trace.payload));
    put(&mut entries, "result", optional_text_value(&trace.result));
    put(&mut entries, "isError", optional_flag_value(trace.is_error));
    put(&mut entries, "status", text_value(&trace.status));
    put(&mut entries, "failureReason", optional_text_value(&trace.failure_reason));
    put(&mut entries, "failureSource", optional_text_value(&trace.failure_source));
    put(&mut entries, "version", json::number(trace.version as u64));
    put(&mut entries, "steps", steps_value(&trace.steps));
    let value = json::object(entries);
    proof {
        lemma_trace_keys();
    }
    value
}

} // verus!
