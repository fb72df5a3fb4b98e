//! The store: the one trace that is currently loaded, or none, and what must
//! be written to the durable snapshot when that changes.
//!
//! The store never touches the snapshot itself. Each transition returns a
//! `StoreAction` that tells the owner of the snapshot what to do, and a
//! restart hands the snapshot's text back to `TraceStore::restore`.

use crate::parse::{parse_trace, trace_reading, trace_to_json, trace_writing, ParseError, ParseFault};
use crate::trace::{DurableTrace, TraceModel};
use vstd::prelude::*;

verus! {

/// What to do with the durable snapshot after a transition.
#[derive(Clone, Debug, PartialEq, Eq)]
pub enum StoreAction {
    /// Leave the snapshot as it is.
    Keep,
    /// Replace the snapshot with this text.
    Write(String),
}

/// What a `StoreAction` holds, with its text as a character sequence.
pub enum ActionModel {
    Keep,
    Write(Seq<char>),
}

impl View for StoreAction {
    type V = ActionModel;

    open spec fn view(&self) -> ActionModel {
        match self {
            StoreAction::Keep => ActionModel::Keep,
            StoreAction::Write(text) => ActionModel::Write(text@),
        }
    }
}

/// The snapshot after an action is carried out on it. An absent snapshot is `None`.
pub open spec fn snapshot_after(snapshot: Option<Seq<char>>, action: ActionModel) -> Option<
    Seq<char>,
> {
    match action {
        ActionModel::Keep => snapshot,
        ActionModel::Write(text) => Some(text),
    }
}

/// The trace a fresh start finds in a snapshot: the one its text describes.
/// No snapshot, or one that describes no trace, gives none.
pub open spec fn restored(snapshot: Option<Seq<char>>) -> Option<TraceModel> {
    match snapshot {
        None => None,
        Some(text) => match trace_reading(text) {
            Ok(trace) => Some(trace),
            Err(_) => None,
        },
    }
}

/// The action that goes with entering a state: a loaded trace is written to
/// the snapshot, and an empty store leaves the snapshot alone.
pub open spec fn action_for(state: Option<TraceModel>) -> ActionModel {
    match state {
        Some(trace) => ActionModel::Write(trace_writing(trace)),
        None => ActionModel::Keep,
    }
}

/// The currently loaded trace, or none.
pub struct TraceStore {
    current: Option<DurableTrace>,
}

impl View for TraceStore {
    type V = Option<TraceModel>;

    closed spec fn view(&self) -> Option<TraceModel> {
        match self.current {
            Some(trace) => Some(trace@),
            None => None,
        }
    }
}

impl TraceStore {
    #[verifier::type_invariant]
    spec fn inv(self) -> bool {
        self.current matches Some(trace) ==> trace@.wf()
    }

    /// An empty store.
    pub fn new() -> (store: TraceStore)
        ensures
            store@ is None,
    {
        TraceStore { current: None }
    }

    /// Starts from the durable snapshot: loaded with the trace that the
    /// snapshot's text describes, or empty where there is no snapshot or its
    /// text describes no trace. A restored trace is written to the snapshot
    /// again.
    pub fn restore(snapshot: Option<&str>) -> (r: (TraceStore, StoreAction))
        ensures
            r.0@ == restored(
                match snapshot {
                    Some(text) => Some(text@),
                    None => None,
                },
            ),
            r.1@ == action_for(r.0@),
    {
        match snapshot {
            None => (TraceStore { current: None }, StoreAction::Keep),
            Some(text) => match parse_trace(text) {
                Ok(trace) => {
                    let written = trace_to_json(&trace);
                    (TraceStore { current: Some(trace) }, StoreAction::Write(written))
                },
                Err(_) => (TraceStore { current: None }, StoreAction::Keep),
            },
        }
    }

    /// Loads the trace that `text` describes in place of whatever was loaded,
    /// and asks for it to be written to the snapshot. Where the text describes
    /// no trace, the store stays as it was and the fault is returned.
    pub fn load_text(&mut self, text: &str) -> (r: Result<StoreAction, ParseError>)
        ensures
            match r {
                Ok(action) => trace_reading(text@) == Ok::<TraceModel, ParseFault>(
                    final(self)@->Some_0,
                ) && final(self)@ is Some && action@ == action_for(final(self)@),
                Err(e) => trace_reading(text@) == Err::<TraceModel, ParseFault>(e@) && final(self)@
                    == old(self)@,
            },
    {
        match parse_trace(text) {
            Ok(trace) => {
                let written = trace_to_json(&trace);
                self.current = Some(trace);
                Ok(StoreAction::Write(written))
            },
            Err(e) => Err(e),
        }
    }

    /// Loads `trace` in place of whatever was loaded, and asks for it to be
    /// written to the snapshot.
    pub fn load(&mut self, trace: DurableTrace) -> (action: StoreAction)
        requires
            trace@.wf(),
        ensures
            final(self)@ == Some(trace@),
            action@ == action_for(final(self)@),
    {
        let written = trace_to_json(&trace);
        self.current = Some(trace);
        StoreAction::Write(written)
    }

    /// Empties the store. The snapshot is left as it is, so that a fresh start
    /// still finds the trace that was written last.
    pub fn clear(&mut self) -> (action: StoreAction)
        ensures
            final(self)@ is None,
            action@ == ActionModel::Keep,
    {
        self.current = None;
        StoreAction::Keep
    }

    /// The loaded trace, if there is one.
    pub fn current(&self) -> (r: Option<&DurableTrace>)
        ensures
            match r {
                Some(trace) => self@ == Some(trace@) && trace@.wf(),
                None => self@ is None,
            },
    {
        proof {
            use_type_invariant(self);
        }
        self.current.as_ref()
    }

    /// Whether a trace is loaded.
    pub fn is_loaded(&self) -> (r: bool)
        ensures
            r == (self@ is Some),
    {
        self.current.is_some()
    }
}

/// Emptying the store leaves the snapshot untouched: a fresh start after the
/// clear restores exactly what a fresh start before it would have restored.
pub proof fn lemma_clear_keeps_snapshot(snapshot: Option<Seq<char>>)
    ensures
        snapshot_after(snapshot, ActionModel::Keep) == snapshot,
        restored(snapshot_after(snapshot, ActionModel::Keep)) == restored(snapshot),
{
}

/// Loading a trace puts its text in the snapshot, whatever was there before.
pub proof fn lemma_load_writes_snapshot(snapshot: Option<Seq<char>>, trace: TraceModel)
    ensures
        snapshot_after(snapshot, action_for(Some(trace))) == Some(trace_writing(trace)),
{
}

} // verus!
