//! Traces as JSON text: reading a trace from text and writing it back.

use crate::json;
use crate::json::{json_pretty_writing, json_reading, json_writing};
use crate::schema::{
    decode_trace, encode_task_info, encode_trace, task_info_document, trace_document, trace_of,
    SchemaError,
};
use crate::trace::{DurableTrace, TaskInfo, TaskInfoModel, TraceModel};
use vstd::prelude::*;
use vstd::string::StringExecFns;

verus! {

/// Why a text is not a trace.
#[derive(Clone, Debug, PartialEq, Eq)]
pub enum ParseError {
    /// The text is not JSON. Holds the reader's message.
    MalformedJson(String),
    /// The text is JSON, but a required field is absent or a field holds the
    /// wrong kind of value.
    SchemaMismatch(SchemaError),
}

/// What a `ParseError` holds, with its message as a character sequence.
pub enum ParseFault {
    MalformedJson(Seq<char>),
    SchemaMismatch(SchemaError),
}

impl View for ParseError {
    type V = ParseFault;

    open spec fn view(&self) -> ParseFault {
        match self {
            ParseError::MalformedJson(message) => ParseFault::MalformedJson(message@),
            ParseError::SchemaMismatch(e) => ParseFault::SchemaMismatch(*e),
        }
    }
}

/// The words for a fault of layout.
pub open spec fn schema_message(e: SchemaError) -> Seq<char> {
    match e {
        SchemaError::NotAnObject => "expected a JSON object"@,
        SchemaError::MissingField(key) => "missing field `"@ + key@ + "`"@,
        SchemaError::InvalidField(key) => "invalid value for field `"@ + key@ + "`"@,
    }
}

/// The words for a fault: the reader's own message where the text is not
/// JSON, else the words for the fault of layout.
pub open spec fn fault_message(fault: ParseFault) -> Seq<char> {
    match fault {
        ParseFault::MalformedJson(message) => message,
        ParseFault::SchemaMismatch(e) => schema_message(e),
    }
}

/// What reading a text gives: the trace it describes, or why it describes
/// none. The text must be JSON, and the document must be laid out as a trace.
pub open spec fn trace_reading(text: Seq<char>) -> Result<TraceModel, ParseFault> {
    match json_reading(text) {
        Err(message) => Err(ParseFault::MalformedJson(message)),
        Ok(document) => match trace_of(document) {
            Ok(trace) => Ok(trace),
            Err(e) => Err(ParseFault::SchemaMismatch(e)),
        },
    }
}

/// The compact JSON text of a trace.
pub open spec fn trace_writing(trace: TraceModel) -> Seq<char> {
    json_writing(trace_document(trace))
}

/// The indented JSON text of a task.
pub open spec fn task_info_writing(info: TaskInfoModel) -> Seq<char> {
    json_pretty_writing(task_info_document(info))
}

impl SchemaError {
    /// Describes the fault in words.
    pub fn message(&self) -> (text: String)
        ensures
            text@ == schema_message(*self),
    {
        match self {
            SchemaError::NotAnObject => String::from_str("expected a JSON object"),
            SchemaError::MissingField(key) => {
                let mut text = String::from_str("missing field `");
                text.append(key);
                text.append("`");
                text
            },
            SchemaError::InvalidField(key) => {
                let mut text = String::from_str("invalid value for field `");
                text.append(key);
                text.append("`");
                text
            },
        }
    }
}

impl ParseError {
    /// Describes the fault in words.
    pub fn message(&self) -> (text: String)
        ensures
            text@ == fault_message(self@),
    {
        match self {
            ParseError::MalformedJson(message) => message.clone(),
            ParseError::SchemaMismatch(e) => e.message(),
        }
    }
}

/// Reads a trace from JSON text. Nothing is returned in part: the result is
/// the whole trace, or the first fault found.
pub fn parse_trace(text: &str) -> (r: Result<DurableTrace, ParseError>)
    ensures
        match r {
            Ok(trace) => trace_reading(text@) == Ok::<TraceModel, ParseFault>(trace@) && trace@.wf(),
            Err(e) => trace_reading(text@) == Err::<TraceModel, ParseFault>(e@),
        },
{
    match json::read_json(text) {
        Err(error) => Err(ParseError::MalformedJson(json::error_text(&error))),
        Ok(value) => match decode_trace(&value) {
            Ok(trace) => Ok(trace),
            Err(e) => Err(ParseError::SchemaMismatch(e)),
        },
    }
}

/// Writes a trace as compact JSON text.
pub fn trace_to_json(trace: &DurableTrace) -> (text: String)
    requires
        trace@.wf(),
    ensures
        text@ == trace_writing(trace@),
{
    let value = encode_trace(trace);
    json::write_json(&value)
}

/// Writes a task as indented JSON text.
pub fn task_info_to_pretty_json(info: &TaskInfo) -> (text: String)
    requires
        info@.wf(),
    ensures
        text@ == task_info_writing(info@),
{
    let value = encode_task_info(info);
    json::write_json_pretty(&value)
}

} // verus!
