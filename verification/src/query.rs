//! From what a state query found to what the worker is told: the snapshot
//! of the state as text, or the failure of this one query.

use vstd::prelude::*;
use vstd::string::*;
use crate::error::{GetKeyboardLayoutError, GetOpenStatusError, MacError};
use crate::locale::{resolved, LocaleMap};
use crate::probe::ProbeOutcome;
use crate::worker::{Signal, WorkerEvent};

verus! {

/// The keyboard layout that a finished probe stands for.
pub open spec fn keyboard_layout_of(names: Map<u16, Seq<char>>, outcome: ProbeOutcome) -> Result<
    Seq<char>,
    GetKeyboardLayoutError,
> {
    match outcome {
        ProbeOutcome::Layout(layout) => resolved(names, layout),
        ProbeOutcome::Failed(failure) => Err(GetKeyboardLayoutError::Probe(failure)),
        ProbeOutcome::OpenStatus(_) => Err(GetKeyboardLayoutError::WrongOutcome),
    }
}

/// The open status that a finished probe stands for.
pub open spec fn open_status_of(outcome: ProbeOutcome) -> Result<Seq<char>, GetOpenStatusError> {
    match outcome {
        ProbeOutcome::OpenStatus(open) => Ok(
            if open {
                "ime-on"@
            } else {
                "ime-off"@
            },
        ),
        ProbeOutcome::Failed(failure) => Err(GetOpenStatusError::Probe(failure)),
        ProbeOutcome::Layout(_) => Err(GetOpenStatusError::WrongOutcome),
    }
}

/// What the worker is told about a query that gave `state` or failed with
/// the text `failure`.
pub open spec fn signal_of(result: Result<Seq<char>, Seq<char>>) -> Signal {
    match result {
        Ok(state) => Signal::Snapshot(state),
        Err(failure) => Signal::QueryFailed(failure),
    }
}

/// The locale name of the layout a probe found.
pub fn get_keyboard_layout(locale_map: &LocaleMap, outcome: ProbeOutcome) -> (result: Result<
    String,
    GetKeyboardLayoutError,
>)
    ensures
        match result {
            Ok(name) => keyboard_layout_of(locale_map@, outcome) == Ok::<
                Seq<char>,
                GetKeyboardLayoutError,
            >(name@),
            Err(error) => keyboard_layout_of(locale_map@, outcome) == Err::<
                Seq<char>,
                GetKeyboardLayoutError,
            >(error),
        },
{
    match outcome {
        ProbeOutcome::Layout(layout) => locale_map.resolve(layout),
        ProbeOutcome::Failed(failure) => Err(GetKeyboardLayoutError::Probe(failure)),
        ProbeOutcome::OpenStatus(_) => Err(GetKeyboardLayoutError::WrongOutcome),
    }
}

/// The open status a probe found, as text: `ime-on` or `ime-off`.
pub fn get_open_status(outcome: ProbeOutcome) -> (result: Result<String, GetOpenStatusError>)
    ensures
        match result {
            Ok(status) => open_status_of(outcome) == Ok::<Seq<char>, GetOpenStatusError>(status@),
            Err(error) => open_status_of(outcome) == Err::<Seq<char>, GetOpenStatusError>(error),
        },
{
    match outcome {
        ProbeOutcome::OpenStatus(open) => {
            if open {
                Ok(String::from_str("ime-on"))
            } else {
                Ok(String::from_str("ime-off"))
            }
        },
        ProbeOutcome::Failed(failure) => Err(GetOpenStatusError::Probe(failure)),
        ProbeOutcome::Layout(_) => Err(GetOpenStatusError::WrongOutcome),
    }
}

/// The identifier of the current keyboard input source. `source_id` is the
/// property as the text input services gave it, `None` where it was not a
/// string.
pub fn get_current_input_source(source_id: Option<String>) -> (result: Result<String, MacError>)
    ensures
        match result {
            Ok(id) => source_id == Some(id),
            Err(error) => source_id is None && error.0@ == "Type Miss match."@,
        },
{
    match source_id {
        Some(id) => Ok(id),
        None => Err(MacError(String::from_str("Type Miss match."))),
    }
}

/// What the worker is told about a query whose failure is already text.
pub fn query_event(result: Result<String, String>) -> (event: WorkerEvent)
    ensures
        event@ == signal_of(
            match result {
                Ok(state) => Ok(state@),
                Err(failure) => Err(failure@),
            },
        ),
{
    match result {
        Ok(state) => WorkerEvent::Snapshot(state),
        Err(failure) => WorkerEvent::QueryFailed(failure),
    }
}

/// What the worker is told about a keyboard layout query.
pub fn keyboard_layout_event(result: Result<String, GetKeyboardLayoutError>) -> (event: WorkerEvent)
    ensures
        event@ == signal_of(
            match result {
                Ok(name) => Ok(name@),
                Err(_) => Err("GetKeyboardLayoutError"@),
            },
        ),
{
    match result {
        Ok(name) => WorkerEvent::Snapshot(name),
        Err(error) => WorkerEvent::QueryFailed(error.describe()),
    }
}

/// What the worker is told about an open status query.
pub fn open_status_event(result: Result<String, GetOpenStatusError>) -> (event: WorkerEvent)
    ensures
        event@ == signal_of(
            match result {
                Ok(status) => Ok(status@),
                Err(_) => Err("GetOpenStatusError"@),
            },
        ),
{
    match result {
        Ok(status) => WorkerEvent::Snapshot(status),
        Err(error) => WorkerEvent::QueryFailed(error.describe()),
    }
}

/// What the worker is told about an input source query.
pub fn input_source_event(result: Result<String, MacError>) -> (event: WorkerEvent)
    ensures
        event@ == signal_of(
            match result {
                Ok(id) => Ok(id@),
                Err(error) => Err("MacError: "@ + error.0@),
            },
        ),
{
    match result {
        Ok(id) => WorkerEvent::Snapshot(id),
        Err(error) => WorkerEvent::QueryFailed(error.describe()),
    }
}

} // verus!
