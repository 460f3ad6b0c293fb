//! The debounce-and-query worker and its change detector.
//!
//! The worker is a state machine. Whoever runs it performs the request the
//! worker awaits (block on the mailbox, sleep, query the platform), reports
//! what happened as an event, and prints what the worker hands back.

use vstd::prelude::*;
use vstd::string::*;

verus! {

/// What the worker does with a query that failed.
#[derive(Clone, Copy, Debug, PartialEq, Eq, Structural)]
pub enum ErrorPolicy {
    /// The failure is printed and the worker waits for the next token.
    Report,
    /// The worker stops without a word; the driver keeps running.
    Halt,
}

/// Where the worker stands in its cycle.
#[derive(Clone, Copy, Debug, PartialEq, Eq, Structural)]
pub enum Phase {
    /// Blocked on the mailbox.
    AwaitingToken,
    /// A token was taken; the platform is given time to settle.
    Settling,
    /// The settle interval is over; the state is being queried.
    Querying,
    /// The worker has stopped for good.
    Halted,
}

/// What the worker asks its runner to do next.
#[derive(Clone, Copy, Debug, PartialEq, Eq, Structural)]
pub enum Request {
    /// Block until the mailbox hands out a token.
    TakeToken,
    /// Sleep for this many milliseconds.
    Sleep(u64),
    /// Query the current state.
    Query,
    /// Leave the loop.
    Halt,
}

/// The fixed behaviour of one program variant.
#[derive(Clone, Debug, PartialEq, Eq)]
pub struct WorkerConfig {
    /// Milliseconds to wait between taking a token and querying.
    pub settle_ms: u64,
    /// Whether a snapshot equal to the last emitted one is suppressed.
    pub dedupe: bool,
    /// The label printed before each value; `None` prints the bare value.
    pub label: Option<String>,
    /// What happens when a query fails.
    pub on_error: ErrorPolicy,
}

/// What a [`WorkerConfig`] means.
pub struct Rules {
    pub settle_ms: u64,
    pub dedupe: bool,
    pub label: Option<Seq<char>>,
    pub on_error: ErrorPolicy,
}

impl View for WorkerConfig {
    type V = Rules;

    open spec fn view(&self) -> Rules {
        Rules {
            settle_ms: self.settle_ms,
            dedupe: self.dedupe,
            label: match self.label {
                Some(label) => Some(label@),
                None => None,
            },
            on_error: self.on_error,
        }
    }
}

/// What the runner reports back to the worker.
#[derive(Debug, PartialEq, Eq)]
pub enum WorkerEvent {
    /// The mailbox handed out a token.
    TokenTaken,
    /// The requested sleep is over.
    SettleElapsed,
    /// The query returned this snapshot of the state.
    Snapshot(String),
    /// The query failed; the text describes the failure.
    QueryFailed(String),
}

impl Clone for WorkerEvent {
    fn clone(&self) -> (copy: WorkerEvent)
        ensures
            copy@ == self@,
    {
        match self {
            WorkerEvent::TokenTaken => WorkerEvent::TokenTaken,
            WorkerEvent::SettleElapsed => WorkerEvent::SettleElapsed,
            WorkerEvent::Snapshot(state) => WorkerEvent::Snapshot(state.clone()),
            WorkerEvent::QueryFailed(text) => WorkerEvent::QueryFailed(text.clone()),
        }
    }
}

/// What a [`WorkerEvent`] means.
pub enum Signal {
    TokenTaken,
    SettleElapsed,
    Snapshot(Seq<char>),
    QueryFailed(Seq<char>),
}

impl View for WorkerEvent {
    type V = Signal;

    open spec fn view(&self) -> Signal {
        match self {
            WorkerEvent::TokenTaken => Signal::TokenTaken,
            WorkerEvent::SettleElapsed => Signal::SettleElapsed,
            WorkerEvent::Snapshot(state) => Signal::Snapshot(state@),
            WorkerEvent::QueryFailed(text) => Signal::QueryFailed(text@),
        }
    }
}

/// What the runner has to print after a step.
#[derive(Clone, Debug, PartialEq, Eq)]
pub enum WorkerOutput {
    /// Nothing.
    Silent,
    /// A state report: one line for standard output.
    Emit(String),
    /// The description of a failed query.
    Report(String),
}

/// What a [`WorkerOutput`] means.
pub enum Output {
    Silent,
    Emit(Seq<char>),
    Report(Seq<char>),
}

impl View for WorkerOutput {
    type V = Output;

    open spec fn view(&self) -> Output {
        match self {
            WorkerOutput::Silent => Output::Silent,
            WorkerOutput::Emit(line) => Output::Emit(line@),
            WorkerOutput::Report(text) => Output::Report(text@),
        }
    }
}

/// The changing part of a worker: its phase and the state it emitted last.
pub struct WorkerModel {
    pub phase: Phase,
    pub last_emitted: Seq<char>,
}

/// The worker before its first step: waiting for a token, nothing emitted.
pub open spec fn initial_model() -> WorkerModel {
    WorkerModel { phase: Phase::AwaitingToken, last_emitted: Seq::empty() }
}

/// The line printed for `value`: `<label>: <value>`, or the bare value.
pub open spec fn line_for(label: Option<Seq<char>>, value: Seq<char>) -> Seq<char> {
    match label {
        Some(label) => label + ": "@ + value,
        None => value,
    }
}

/// Whether the change detector lets `state` through.
pub open spec fn passes_detector(rules: Rules, last_emitted: Seq<char>, state: Seq<char>) -> bool {
    !rules.dedupe || state != last_emitted
}

/// The worker after it has been told `signal`. A signal that does not answer
/// the request the worker was waiting on halts it.
pub open spec fn model_after_signal(rules: Rules, model: WorkerModel, signal: Signal) -> WorkerModel {
    match (model.phase, signal) {
        (Phase::AwaitingToken, Signal::TokenTaken) => WorkerModel {
            phase: Phase::Settling,
            ..model
        },
        (Phase::Settling, Signal::SettleElapsed) => WorkerModel { phase: Phase::Querying, ..model },
        (Phase::Querying, Signal::Snapshot(state)) => WorkerModel {
            phase: Phase::AwaitingToken,
            last_emitted: if passes_detector(rules, model.last_emitted, state) {
                state
            } else {
                model.last_emitted
            },
        },
        (Phase::Querying, Signal::QueryFailed(_)) => WorkerModel {
            phase: match rules.on_error {
                ErrorPolicy::Report => Phase::AwaitingToken,
                ErrorPolicy::Halt => Phase::Halted,
            },
            ..model
        },
        _ => WorkerModel { phase: Phase::Halted, ..model },
    }
}

/// What the worker has printed when it is told `signal`.
pub open spec fn output_for_signal(rules: Rules, model: WorkerModel, signal: Signal) -> Output {
    match (model.phase, signal) {
        (Phase::Querying, Signal::Snapshot(state)) => if passes_detector(
            rules,
            model.last_emitted,
            state,
        ) {
            Output::Emit(line_for(rules.label, state))
        } else {
            Output::Silent
        },
        (Phase::Querying, Signal::QueryFailed(text)) => match rules.on_error {
            ErrorPolicy::Report => Output::Report(text),
            ErrorPolicy::Halt => Output::Silent,
        },
        _ => Output::Silent,
    }
}

/// The request a worker in `phase` is waiting on.
pub open spec fn awaited(rules: Rules, phase: Phase) -> Request {
    match phase {
        Phase::AwaitingToken => Request::TakeToken,
        Phase::Settling => Request::Sleep(rules.settle_ms),
        Phase::Querying => Request::Query,
        Phase::Halted => Request::Halt,
    }
}

/// The debounce-and-query worker of one program variant.
pub struct Worker {
    config: WorkerConfig,
    phase: Phase,
    last_emitted: String,
}

impl View for Worker {
    type V = WorkerModel;

    closed spec fn view(&self) -> WorkerModel {
        WorkerModel { phase: self.phase, last_emitted: self.last_emitted@ }
    }
}

/// Renders one state report.
pub fn format_line(label: &Option<String>, value: &String) -> (line: String)
    ensures
        line@ == line_for(
            match *label {
                Some(l) => Some(l@),
                None => None,
            },
            value@,
        ),
{
    match label {
        Some(label) => {
            let mut line = label.clone();
            line.append(": ");
            line.append(value.as_str());
            line
        },
        None => value.clone(),
    }
}

impl Worker {
    /// The rules this worker follows.
    pub closed spec fn rules(&self) -> Rules {
        self.config@
    }

    /// A worker that waits for its first token and has emitted nothing yet.
    pub fn new(config: WorkerConfig) -> (worker: Worker)
        ensures
            worker.rules() == config@,
            worker@ == initial_model(),
    {
        Worker { config, phase: Phase::AwaitingToken, last_emitted: String::new() }
    }

    /// The request the runner has to perform next.
    pub fn awaits(&self) -> (request: Request)
        ensures
            request == awaited(self.rules(), self@.phase),
    {
        match self.phase {
            Phase::AwaitingToken => Request::TakeToken,
            Phase::Settling => Request::Sleep(self.config.settle_ms),
            Phase::Querying => Request::Query,
            Phase::Halted => Request::Halt,
        }
    }

    /// Where the worker stands in its cycle.
    pub fn phase(&self) -> (phase: Phase)
        ensures
            phase == self@.phase,
    {
        self.phase
    }

    /// The state that was emitted last; empty before the first report.
    pub fn last_emitted(&self) -> (state: &String)
        ensures
            state@ == self@.last_emitted,
    {
        &self.last_emitted
    }

    /// Tells the worker what happened and returns what has to be printed.
    pub fn step(&mut self, event: WorkerEvent) -> (output: WorkerOutput)
        ensures
            final(self).rules() == old(self).rules(),
            final(self)@ == model_after_signal(old(self).rules(), old(self)@, event@),
            output@ == output_for_signal(old(self).rules(), old(self)@, event@),
    {
        match (self.phase, event) {
            (Phase::AwaitingToken, WorkerEvent::TokenTaken) => {
                self.phase = Phase::Settling;
                WorkerOutput::Silent
            },
            (Phase::Settling, WorkerEvent::SettleElapsed) => {
                self.phase = Phase::Querying;
                WorkerOutput::Silent
            },
            (Phase::Querying, WorkerEvent::Snapshot(state)) => {
                self.phase = Phase::AwaitingToken;
                if self.config.dedupe && state == self.last_emitted {
                    WorkerOutput::Silent
                } else {
                    let line = format_line(&self.config.label, &state);
                    self.last_emitted = state;
                    WorkerOutput::Emit(line)
                }
            },
            (Phase::Querying, WorkerEvent::QueryFailed(text)) => {
                match self.config.on_error {
                    ErrorPolicy::Report => {
                        self.phase = Phase::AwaitingToken;
                        WorkerOutput::Report(text)
                    },
                    ErrorPolicy::Halt => {
                        self.phase = Phase::Halted;
                        WorkerOutput::Silent
                    },
                }
            },
            _ => {
                self.phase = Phase::Halted;
                WorkerOutput::Silent
            },
        }
    }
}

} // verus!
