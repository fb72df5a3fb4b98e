//! The texts a timeline shows for a trace and for each of its steps.

use crate::duration::{duration_text, get_duration_string};
use crate::parse::{task_info_to_pretty_json, task_info_writing};
use crate::text::{append_signed_decimal, same_text, signed_decimal};
use crate::timestamp::rfc3339_text;
use crate::timestamp::Timestamp;
use crate::trace::{DurableTrace, StepModel, StepTrace, TraceModel};
use vstd::prelude::*;
use vstd::string::StringExecFns;

verus! {

/// The state of a run, as its status badge shows it.
#[derive(Clone, Copy, Debug, PartialEq, Eq, Structural)]
pub enum StatusKind {
    Running,
    Failed,
    Completed,
    Unknown,
}

/// The kind of a status text: `running`, `failed` and `completed` are
/// themselves, and every other text is unknown.
pub open spec fn status_kind_of(status: Seq<char>) -> StatusKind {
    if status == "running"@ {
        StatusKind::Running
    } else if status == "failed"@ {
        StatusKind::Failed
    } else if status == "completed"@ {
        StatusKind::Completed
    } else {
        StatusKind::Unknown
    }
}

/// The label of each kind of status.
pub open spec fn status_label(kind: StatusKind) -> Seq<char> {
    match kind {
        StatusKind::Running => "running"@,
        StatusKind::Failed => "failed"@,
        StatusKind::Completed => "completed"@,
        StatusKind::Unknown => "unknown"@,
    }
}

/// Tells the kind of a status text.
pub fn status_kind(status: &str) -> (kind: StatusKind)
    ensures
        kind == status_kind_of(status@),
{
    if same_text(status, "running") {
        StatusKind::Running
    } else if same_text(status, "failed") {
        StatusKind::Failed
    } else if same_text(status, "completed") {
        StatusKind::Completed
    } else {
        StatusKind::Unknown
    }
}

impl StatusKind {
    /// The label shown for this kind.
    pub fn label(self) -> (text: &'static str)
        ensures
            text@ == status_label(self),
    {
        match self {
            StatusKind::Running => "running",
            StatusKind::Failed => "failed",
            StatusKind::Completed => "completed",
            StatusKind::Unknown => "unknown",
        }
    }
}

/// The text of an instant that may be absent: its RFC 3339 text, or `-`.
pub open spec fn optional_time_text(at: Option<Timestamp>) -> Seq<char> {
    match at {
        Some(at) => rfc3339_text(at.secs as int, at.nanos as int),
        None => "-"@,
    }
}

/// How long a step ran, in words: the whole seconds from its start to its
/// completion, or that it has not completed.
pub open spec fn step_duration_text(step: StepModel) -> Seq<char> {
    match step.completed_at {
        Some(done) => signed_decimal(done.seconds_since(step.scheduled_at)) + " seconds"@,
        None => "Not completed"@,
    }
}

/// How long a trace ran, in words, or `-` while it has not completed.
pub open spec fn trace_duration_text(trace: TraceModel) -> Seq<char> {
    match trace.completed_at {
        Some(done) => duration_text(
            ((done.total_nanos() - trace.scheduled_at.total_nanos()) / 1_000_000_000) as nat,
        ),
        None => "-"@,
    }
}

/// An optional text, or `fallback` where it is absent.
fn text_or(text: &Option<String>, fallback: &str) -> (r: String)
    ensures
        r@ == match *text {
            Some(t) => t@,
            None => fallback@,
        },
{
    match text {
        Some(t) => t.clone(),
        None => String::from_str(fallback),
    }
}

impl StepTrace {
    /// When the step was scheduled, as RFC 3339 text.
    pub fn scheduled_at_text(&self) -> (text: String)
        requires
            self@.wf(),
        ensures
            text@ == rfc3339_text(self.scheduled_at.secs as int, self.scheduled_at.nanos as int),
    {
        self.scheduled_at.to_rfc3339()
    }

    /// When the step completed, as RFC 3339 text, or `-` where it has not.
    pub fn completed_at_text(&self) -> (text: String)
        requires
            self@.wf(),
        ensures
            text@ == optional_time_text(self.completed_at),
    {
        match self.completed_at {
            Some(done) => done.to_rfc3339(),
            None => String::from_str("-"),
        }
    }

    /// The task the step was given, as indented JSON.
    pub fn in_task_text(&self) -> (text: String)
        requires
            self@.wf(),
        ensures
            text@ == task_info_writing(self@.in_task_info),
    {
        task_info_to_pretty_json(&self.in_task_info)
    }

    /// The follow-up task the step produced, as indented JSON; empty where it
    /// produced none.
    pub fn out_task_text(&self) -> (text: String)
        requires
            self@.wf(),
        ensures
            text@ == match self@.out_task_info {
                Some(info) => task_info_writing(info),
                None => Seq::<char>::empty(),
            },
    {
        match &self.out_task_info {
            Some(info) => task_info_to_pretty_json(info),
            None => String::new(),
        }
    }

    /// The step's result, or `-` where it has none.
    pub fn result_text(&self) -> (text: String)
        ensures
            text@ == match self@.result {
                Some(result) => result,
                None => "-"@,
            },
    {
        text_or(&self.result, "-")
    }

    /// How long the step ran, in whole seconds, or that it has not completed.
    pub fn duration_text(&self) -> (text: String)
        requires
            self@.wf(),
        ensures
            text@ == step_duration_text(self@),
    {
        match self.completed_at {
            Some(done) => {
                let mut text = String::new();
                append_signed_decimal(&mut text, done.whole_seconds_since(self.scheduled_at));
                text.append(" seconds");
                assert(text@ =~= step_duration_text(self@));
                text
            },
            None => String::from_str("Not completed"),
        }
    }
}

impl DurableTrace {
    /// The kind of the trace's status.
    pub fn status_kind(&self) -> (kind: StatusKind)
        ensures
            kind == status_kind_of(self@.status),
    {
        status_kind(self.status.as_str())
    }

    /// The trace's input payload, or `No Payload` where it has none.
    pub fn payload_text(&self) -> (text: String)
        ensures
            text@ == match self@.payload {
                Some(payload) => payload,
                None => "No Payload"@,
            },
    {
        text_or(&self.payload, "No Payload")
    }

    /// Whether the trace's total duration can be worded: it has not completed,
    /// or it completed no earlier than it was scheduled.
    pub open spec fn duration_defined(self) -> bool {
        self.completed_at matches Some(done) ==> self.scheduled_at.total_nanos()
            <= done.total_nanos()
    }

    /// Tells whether the trace's total duration can be worded.
    pub fn has_duration(&self) -> (r: bool)
        requires
            self@.wf(),
        ensures
            r == self.duration_defined(),
    {
        match self.completed_at {
            Some(done) => self.scheduled_at.not_after(done),
            None => true,
        }
    }

    /// How long the trace ran, in words, or `-` while it has not completed.
    pub fn duration_text(&self) -> (text: String)
        requires
            self@.wf(),
            self.duration_defined(),
        ensures
            text@ == trace_duration_text(self@),
    {
        match self.completed_at {
            Some(done) => get_duration_string(done.signed_duration_since(self.scheduled_at)),
            None => String::from_str("-"),
        }
    }
}

} // verus!
