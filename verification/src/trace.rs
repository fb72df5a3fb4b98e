//! The trace record: one run of a workflow, its steps, and the tasks they ran.

use crate::timestamp::Timestamp;
use vstd::prelude::*;

verus! {

/// One attempt at a unit of work, as the workflow system describes it.
#[derive(Clone, Debug, PartialEq, Eq)]
pub struct TaskInfo {
    pub id: String,
    pub task_name: String,
    pub execution_time: Timestamp,
    pub consecutive_failures: u32,
    pub execution_version: u32,
    pub last_failure: Option<Timestamp>,
    pub last_success: Option<Timestamp>,
}

/// One executed step of a trace.
#[derive(Clone, Debug, PartialEq, Eq)]
pub struct StepTrace {
    pub durable_step_id: String,
    pub result: Option<String>,
    pub scheduled_at: Timestamp,
    pub completed_at: Option<Timestamp>,
    pub in_task_info: TaskInfo,
    pub out_task_info: Option<TaskInfo>,
}

/// One recorded execution of a durable workflow.
#[derive(Clone, Debug, PartialEq, Eq)]
pub struct DurableTrace {
    pub name: String,
    pub durable_execution_id: String,
    pub scheduled_at: Timestamp,
    pub completed_at: Option<Timestamp>,
    pub payload: Option<String>,
    pub result: Option<String>,
    pub is_error: Option<bool>,
    pub status: String,
    pub failure_reason: Option<String>,
    pub failure_source: Option<String>,
    pub version: u32,
    pub steps: Vec<StepTrace>,
}

/// What a `TaskInfo` holds, with its texts as character sequences.
pub struct TaskInfoModel {
    pub id: Seq<char>,
    pub task_name: Seq<char>,
    pub execution_time: Timestamp,
    pub consecutive_failures: u32,
    pub execution_version: u32,
    pub last_failure: Option<Timestamp>,
    pub last_success: Option<Timestamp>,
}

/// What a `StepTrace` holds, with its texts as character sequences.
pub struct StepModel {
    pub durable_step_id: Seq<char>,
    pub result: Option<Seq<char>>,
    pub scheduled_at: Timestamp,
    pub completed_at: Option<Timestamp>,
    pub in_task_info: TaskInfoModel,
    pub out_task_info: Option<TaskInfoModel>,
}

/// What a `DurableTrace` holds, with its texts as character sequences and its
/// steps as a sequence in the order given.
pub struct TraceModel {
    pub name: Seq<char>,
    pub durable_execution_id: Seq<char>,
    pub scheduled_at: Timestamp,
    pub completed_at: Option<Timestamp>,
    pub payload: Option<Seq<char>>,
    pub result: Option<Seq<char>>,
    pub is_error: Option<bool>,
    pub status: Seq<char>,
    pub failure_reason: Option<Seq<char>>,
    pub failure_source: Option<Seq<char>>,
    pub version: u32,
    pub steps: Seq<StepModel>,
}

/// The characters of an optional text.
pub open spec fn text_view(text: Option<String>) -> Option<Seq<char>> {
    match text {
        Some(s) => Some(s@),
        None => None,
    }
}

/// The models of a run of steps, in order.
pub open spec fn step_models(steps: Seq<StepTrace>) -> Seq<StepModel> {
    steps.map_values(|step: StepTrace| step@)
}

/// Whether every step's timestamps are well formed.
pub open spec fn steps_wf(steps: Seq<StepModel>) -> bool {
    forall|i: int| 0 <= i < steps.len() ==> (#[trigger] steps[i]).wf()
}

/// Whether an optional timestamp, where present, is well formed.
pub open spec fn optional_wf(t: Option<Timestamp>) -> bool {
    t matches Some(at) ==> at.wf()
}

impl View for TaskInfo {
    type V = TaskInfoModel;

    open spec fn view(&self) -> TaskInfoModel {
        TaskInfoModel {
            id: self.id@,
            task_name: self.task_name@,
            execution_time: self.execution_time,
            consecutive_failures: self.consecutive_failures,
            execution_version: self.execution_version,
            last_failure: self.last_failure,
            last_success: self.last_success,
        }
    }
}

impl TaskInfoModel {
    /// Every timestamp of the task is well formed.
    pub open spec fn wf(self) -> bool {
        &&& self.execution_time.wf()
        &&& optional_wf(self.last_failure)
        &&& optional_wf(self.last_success)
    }
}

impl View for StepTrace {
    type V = StepModel;

    open spec fn view(&self) -> StepModel {
        StepModel {
            durable_step_id: self.durable_step_id@,
            result: text_view(self.result),
            scheduled_at: self.scheduled_at,
            completed_at: self.completed_at,
            in_task_info: self.in_task_info@,
            out_task_info: match self.out_task_info {
                Some(info) => Some(info@),
                None => None,
            },
        }
    }
}

impl StepModel {
    /// Every timestamp of the step and of its tasks is well formed.
    pub open spec fn wf(self) -> bool {
        &&& self.scheduled_at.wf()
        &&& optional_wf(self.completed_at)
        &&& self.in_task_info.wf()
        &&& (self.out_task_info matches Some(info) ==> info.wf())
    }
}

impl View for DurableTrace {
    type V = TraceModel;

    open spec fn view(&self) -> TraceModel {
        TraceModel {
            name: self.name@,
            durable_execution_id: self.durable_execution_id@,
            scheduled_at: self.scheduled_at,
            completed_at: self.completed_at,
            payload: text_view(self.payload),
            result: text_view(self.result),
            is_error: self.is_error,
            status: self.status@,
            failure_reason: text_view(self.failure_reason),
            failure_source: text_view(self.failure_source),
            version: self.version,
            steps: step_models(self.steps@),
        }
    }
}

impl TraceModel {
    /// Every timestamp of the trace and of its steps is well formed.
    pub open spec fn wf(self) -> bool {
        &&& self.scheduled_at.wf()
        &&& optional_wf(self.completed_at)
        &&& steps_wf(self.steps)
    }
}

/// Tells whether an optional timestamp, where present, is well formed.
pub fn optional_is_wf(at: Option<Timestamp>) -> (r: bool)
    ensures
        r == optional_wf(at),
{
    match at {
        Some(at) => at.is_wf(),
        None => true,
    }
}

impl TaskInfo {
    /// Tells whether every timestamp of the task is well formed.
    pub fn is_wf(&self) -> (r: bool)
        ensures
            r == self@.wf(),
    {
        self.execution_time.is_wf() && optional_is_wf(self.last_failure) && optional_is_wf(
            self.last_success,
        )
    }
}

impl StepTrace {
    /// Tells whether every timestamp of the step and of its tasks is well formed.
    pub fn is_wf(&self) -> (r: bool)
        ensures
            r == self@.wf(),
    {
        self.scheduled_at.is_wf() && optional_is_wf(self.completed_at) && self.in_task_info.is_wf()
            && match &self.out_task_info {
            Some(info) => info.is_wf(),
            None => true,
        }
    }
}

/// Tells whether every step's timestamps are well formed.
pub fn steps_are_wf(steps: &Vec<StepTrace>) -> (r: bool)
    ensures
        r == steps_wf(step_models(steps@)),
{
    let mut i: usize = 0;
    while i < steps.len()
        invariant
            i <= steps.len(),
            forall|k: int| 0 <= k < i ==> (#[trigger] step_models(steps@)[k]).wf(),
        decreases steps.len() - i,
    {
        if !steps[i].is_wf() {
            assert(!step_models(steps@)[i as int].wf());
            return false;
        }
        i = i + 1;
    }
    true
}

impl DurableTrace {
    /// Tells whether every timestamp of the trace and of its steps is well formed.
    pub fn is_wf(&self) -> (r: bool)
        ensures
            r == self@.wf(),
    {
        self.scheduled_at.is_wf() && optional_is_wf(self.completed_at) && steps_are_wf(&self.steps)
    }
}

} // verus!
