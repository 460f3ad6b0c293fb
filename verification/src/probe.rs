//! The state queries of the desktop variants that have to find the focused
//! window first: the keyboard layout of its thread, or the open status of
//! its input method.
//!
//! A probe is a short conversation. It names the next call to make; the
//! caller makes it and answers with what came back. Handles are the plain
//! numbers behind the native handles, and zero is the invalid handle.

use vstd::prelude::*;

verus! {

/// How long the open-status message may stay unanswered, in milliseconds.
pub const OPEN_STATUS_TIMEOUT_MS: u32 = 100;

/// What a probe is after.
#[derive(Clone, Copy, Debug, PartialEq, Eq, Structural)]
pub enum QueryKind {
    /// The keyboard layout handle of the focused thread.
    KeyboardLayout,
    /// Whether the input method of the focused window is open.
    OpenStatus,
}

/// Why a probe ended without a state.
#[derive(Clone, Copy, Debug, PartialEq, Eq, Structural)]
pub enum ProbeFailure {
    /// No window is in the foreground.
    NoForegroundWindow,
    /// The thread has no keyboard layout, as console programs may.
    NoKeyboardLayout,
    /// The target window has no input method window.
    NoImeWindow,
    /// The input method window did not reply within the bound.
    NoReply,
    /// The answer does not belong to the call that was asked for.
    UnexpectedAnswer,
}

/// How a probe ended.
#[derive(Clone, Copy, Debug, PartialEq, Eq, Structural)]
pub enum ProbeOutcome {
    /// The keyboard layout handle, never zero.
    Layout(usize),
    /// Whether the input method is open.
    OpenStatus(bool),
    /// The probe failed.
    Failed(ProbeFailure),
}

/// The call a probe asks for.
#[derive(Clone, Copy, Debug, PartialEq, Eq, Structural)]
pub enum ProbeRequest {
    /// Which window is in the foreground.
    ForegroundWindow,
    /// Which thread owns this window.
    ThreadOfWindow(usize),
    /// The focus window of this GUI thread.
    GuiThreadInfo(u32),
    /// The keyboard layout of this thread.
    KeyboardLayoutOfThread(u32),
    /// The input method window that belongs to this window.
    DefaultImeWindow(usize),
    /// Send the open-status query to this window and wait for the reply no
    /// longer than the timeout, giving up at once on a hung receiver.
    OpenStatusMessage { window: usize, timeout_ms: u32 },
    /// Nothing more: the probe is over.
    Finish(ProbeOutcome),
}

/// What came back from a call.
#[derive(Clone, Copy, Debug, PartialEq, Eq, Structural)]
pub enum ProbeAnswer {
    /// A window handle; zero for none.
    Window(usize),
    /// A thread identifier.
    Thread(u32),
    /// Whether the GUI thread could be inspected, and its focus window.
    GuiThread { available: bool, focus: usize },
    /// A keyboard layout handle; zero for none.
    Layout(usize),
    /// Whether the message was answered in time, and the reply.
    Reply { delivered: bool, value: usize },
}

/// How far a probe has come, with what it has learnt so far.
#[derive(Clone, Copy, Debug, PartialEq, Eq, Structural)]
pub enum Stage {
    Foreground,
    ForegroundThread { foreground: usize },
    GuiThread { foreground: usize, thread: u32 },
    FocusThread { focus: usize },
    Layout { thread: u32 },
    ImeWindow { target: usize },
    Reply { ime_window: usize },
    Finished(ProbeOutcome),
}

/// Whether the GUI thread named a focus window that can be used.
pub open spec fn has_focus(available: bool, focus: usize) -> bool {
    available && focus != 0
}

/// The window whose input method is asked: the focus window where there is
/// one, else the foreground window.
pub open spec fn target_window(foreground: usize, available: bool, focus: usize) -> usize {
    if has_focus(available, focus) {
        focus
    } else {
        foreground
    }
}

/// The stage after `answer`. An answer of the wrong kind fails the probe; a
/// finished probe stays as it is.
pub open spec fn stage_after(kind: QueryKind, stage: Stage, answer: ProbeAnswer) -> Stage {
    match (stage, answer) {
        (Stage::Finished(outcome), _) => Stage::Finished(outcome),
        (Stage::Foreground, ProbeAnswer::Window(window)) => if window == 0 {
            Stage::Finished(ProbeOutcome::Failed(ProbeFailure::NoForegroundWindow))
        } else {
            Stage::ForegroundThread { foreground: window }
        },
        (Stage::ForegroundThread { foreground }, ProbeAnswer::Thread(thread)) => Stage::GuiThread {
            foreground,
            thread,
        },
        (Stage::GuiThread { foreground, thread }, ProbeAnswer::GuiThread { available, focus }) => {
            match kind {
                QueryKind::KeyboardLayout => if has_focus(available, focus) {
                    Stage::FocusThread { focus }
                } else {
                    Stage::Layout { thread }
                },
                QueryKind::OpenStatus => Stage::ImeWindow {
                    target: target_window(foreground, available, focus),
                },
            }
        },
        (Stage::FocusThread { focus }, ProbeAnswer::Thread(thread)) => Stage::Layout { thread },
        (Stage::Layout { thread }, ProbeAnswer::Layout(layout)) => if layout == 0 {
            Stage::Finished(ProbeOutcome::Failed(ProbeFailure::NoKeyboardLayout))
        } else {
            Stage::Finished(ProbeOutcome::Layout(layout))
        },
        (Stage::ImeWindow { target }, ProbeAnswer::Window(window)) => if window == 0 {
            Stage::Finished(ProbeOutcome::Failed(ProbeFailure::NoImeWindow))
        } else {
            Stage::Reply { ime_window: window }
        },
        (Stage::Reply { ime_window }, ProbeAnswer::Reply { delivered, value }) => if delivered {
            Stage::Finished(ProbeOutcome::OpenStatus(value != 0))
        } else {
            Stage::Finished(ProbeOutcome::Failed(ProbeFailure::NoReply))
        },
        _ => Stage::Finished(ProbeOutcome::Failed(ProbeFailure::UnexpectedAnswer)),
    }
}

/// The call that a probe in `stage` asks for.
pub open spec fn request_of(stage: Stage) -> ProbeRequest {
    match stage {
        Stage::Foreground => ProbeRequest::ForegroundWindow,
        Stage::ForegroundThread { foreground } => ProbeRequest::ThreadOfWindow(foreground),
        Stage::GuiThread { foreground, thread } => ProbeRequest::GuiThreadInfo(thread),
        Stage::FocusThread { focus } => ProbeRequest::ThreadOfWindow(focus),
        Stage::Layout { thread } => ProbeRequest::KeyboardLayoutOfThread(thread),
        Stage::ImeWindow { target } => ProbeRequest::DefaultImeWindow(target),
        Stage::Reply { ime_window } => ProbeRequest::OpenStatusMessage {
            window: ime_window,
            timeout_ms: OPEN_STATUS_TIMEOUT_MS,
        },
        Stage::Finished(outcome) => ProbeRequest::Finish(outcome),
    }
}

/// The stage after all of `answers`, one after the other.
pub open spec fn stage_after_all(kind: QueryKind, stage: Stage, answers: Seq<ProbeAnswer>) -> Stage
    decreases answers.len(),
{
    if answers.len() == 0 {
        stage
    } else {
        stage_after(kind, stage_after_all(kind, stage, answers.drop_last()), answers.last())
    }
}

/// The number of answers a probe in `stage` can still take before it is
/// finished, at most.
pub open spec fn answers_left(stage: Stage) -> nat {
    match stage {
        Stage::Foreground => 5,
        Stage::ForegroundThread { .. } => 4,
        Stage::GuiThread { .. } => 3,
        Stage::FocusThread { .. } => 2,
        Stage::ImeWindow { .. } => 2,
        Stage::Layout { .. } => 1,
        Stage::Reply { .. } => 1,
        Stage::Finished(_) => 0,
    }
}

/// One query of the focused window's state.
pub struct Probe {
    kind: QueryKind,
    stage: Stage,
}

impl Probe {
    /// What this probe is after.
    pub closed spec fn kind(&self) -> QueryKind {
        self.kind
    }

    /// How far this probe has come.
    pub closed spec fn stage(&self) -> Stage {
        self.stage
    }

    /// A probe that has not asked for anything yet.
    pub fn new(kind: QueryKind) -> (probe: Probe)
        ensures
            probe.kind() == kind,
            probe.stage() == Stage::Foreground,
    {
        Probe { kind, stage: Stage::Foreground }
    }

    /// The call to make next, or the outcome once the probe is over.
    pub fn request(&self) -> (request: ProbeRequest)
        ensures
            request == request_of(self.stage()),
    {
        match self.stage {
            Stage::Foreground => ProbeRequest::ForegroundWindow,
            Stage::ForegroundThread { foreground } => ProbeRequest::ThreadOfWindow(foreground),
            Stage::GuiThread { foreground: _, thread } => ProbeRequest::GuiThreadInfo(thread),
            Stage::FocusThread { focus } => ProbeRequest::ThreadOfWindow(focus),
            Stage::Layout { thread } => ProbeRequest::KeyboardLayoutOfThread(thread),
            Stage::ImeWindow { target } => ProbeRequest::DefaultImeWindow(target),
            Stage::Reply { ime_window } => ProbeRequest::OpenStatusMessage {
                window: ime_window,
                timeout_ms: OPEN_STATUS_TIMEOUT_MS,
            },
            Stage::Finished(outcome) => ProbeRequest::Finish(outcome),
        }
    }

    /// Takes the answer to the call that [`Probe::request`] named.
    pub fn answer(&mut self, answer: ProbeAnswer)
        ensures
            final(self).kind() == old(self).kind(),
            final(self).stage() == stage_after(old(self).kind(), old(self).stage(), answer),
    {
        let unexpected = Stage::Finished(ProbeOutcome::Failed(ProbeFailure::UnexpectedAnswer));
        let next = match self.stage {
            Stage::Finished(outcome) => Stage::Finished(outcome),
            Stage::Foreground => match answer {
                ProbeAnswer::Window(window) => if window == 0 {
                    Stage::Finished(ProbeOutcome::Failed(ProbeFailure::NoForegroundWindow))
                } else {
                    Stage::ForegroundThread { foreground: window }
                },
                _ => unexpected,
            },
            Stage::ForegroundThread { foreground } => match answer {
                ProbeAnswer::Thread(thread) => Stage::GuiThread { foreground, thread },
                _ => unexpected,
            },
            Stage::GuiThread { foreground, thread } => match answer {
                ProbeAnswer::GuiThread { available, focus } => {
                    let focused = available && focus != 0;
                    match self.kind {
                        QueryKind::KeyboardLayout => if focused {
                            Stage::FocusThread { focus }
                        } else {
                            Stage::Layout { thread }
                        },
                        QueryKind::OpenStatus => Stage::ImeWindow {
                            target: if focused {
                                focus
                            } else {
                                foreground
                            },
                        },
                    }
                },
                _ => unexpected,
            },
            Stage::FocusThread { focus: _ } => match answer {
                ProbeAnswer::Thread(thread) => Stage::Layout { thread },
                _ => unexpected,
            },
            Stage::Layout { thread: _ } => match answer {
                ProbeAnswer::Layout(layout) => if layout == 0 {
                    Stage::Finished(ProbeOutcome::Failed(ProbeFailure::NoKeyboardLayout))
                } else {
                    Stage::Finished(ProbeOutcome::Layout(layout))
                },
                _ => unexpected,
            },
            Stage::ImeWindow { target: _ } => match answer {
                ProbeAnswer::Window(window) => if window == 0 {
                    Stage::Finished(ProbeOutcome::Failed(ProbeFailure::NoImeWindow))
                } else {
                    Stage::Reply { ime_window: window }
                },
                _ => unexpected,
            },
            Stage::Reply { ime_window: _ } => match answer {
                ProbeAnswer::Reply { delivered, value } => if delivered {
                    Stage::Finished(ProbeOutcome::OpenStatus(value != 0))
                } else {
                    Stage::Finished(ProbeOutcome::Failed(ProbeFailure::NoReply))
                },
                _ => unexpected,
            },
        };
        self.stage = next;
    }

    /// The outcome, once the probe is over.
    pub fn outcome(&self) -> (outcome: Option<ProbeOutcome>)
        ensures
            outcome == match self.stage() {
                Stage::Finished(o) => Some(o),
                _ => None::<ProbeOutcome>,
            },
    {
        match self.stage {
            Stage::Finished(outcome) => Some(outcome),
            _ => None,
        }
    }
}

/// Every answer brings a probe closer to its end.
pub proof fn lemma_answer_makes_progress(kind: QueryKind, stage: Stage, answer: ProbeAnswer)
    ensures
        answers_left(stage_after(kind, stage, answer)) < answers_left(stage)
            || stage is Finished,
        stage is Finished ==> stage_after(kind, stage, answer) == stage,
{
}

/// One attempt, no retries: after five answers, whatever they were, the
/// probe is over.
pub proof fn lemma_probe_ends(kind: QueryKind, answers: Seq<ProbeAnswer>)
    ensures
        answers_left(stage_after_all(kind, Stage::Foreground, answers)) + answers.len() <= 5
            || stage_after_all(kind, Stage::Foreground, answers) is Finished,
        answers.len() >= 5 ==> stage_after_all(kind, Stage::Foreground, answers) is Finished,
    decreases answers.len(),
{
    if answers.len() > 0 {
        lemma_probe_ends(kind, answers.drop_last());
        lemma_answer_makes_progress(
            kind,
            stage_after_all(kind, Stage::Foreground, answers.drop_last()),
            answers.last(),
        );
    }
}

/// Without a foreground window either kind of probe fails at once.
pub proof fn lemma_no_foreground_window(kind: QueryKind)
    ensures
        stage_after_all(kind, Stage::Foreground, seq![ProbeAnswer::Window(0)]) == Stage::Finished(
            ProbeOutcome::Failed(ProbeFailure::NoForegroundWindow),
        ),
{
    let one = seq![ProbeAnswer::Window(0)];
    assert(one.drop_last() =~= Seq::<ProbeAnswer>::empty());
    assert(stage_after_all(kind, Stage::Foreground, one.drop_last()) == Stage::Foreground);
}

/// The first three answers of a probe that found a foreground window.
pub open spec fn focus_answers(
    foreground: usize,
    thread: u32,
    available: bool,
    focus: usize,
) -> Seq<ProbeAnswer> {
    seq![
        ProbeAnswer::Window(foreground),
        ProbeAnswer::Thread(thread),
        ProbeAnswer::GuiThread { available, focus },
    ]
}

/// What the first three answers lead to: a layout probe goes on with the
/// thread of the focus window where there is one and with the foreground
/// thread else; an open-status probe goes on with the target window.
pub proof fn lemma_focus_resolution(
    kind: QueryKind,
    foreground: usize,
    thread: u32,
    available: bool,
    focus: usize,
)
    requires
        foreground != 0,
    ensures
        stage_after_all(kind, Stage::Foreground, focus_answers(foreground, thread, available, focus))
            == (match kind {
            QueryKind::KeyboardLayout => if has_focus(available, focus) {
                Stage::FocusThread { focus }
            } else {
                Stage::Layout { thread }
            },
            QueryKind::OpenStatus => Stage::ImeWindow {
                target: target_window(foreground, available, focus),
            },
        }),
{
    let three = focus_answers(foreground, thread, available, focus);
    let two = seq![ProbeAnswer::Window(foreground), ProbeAnswer::Thread(thread)];
    let one = seq![ProbeAnswer::Window(foreground)];
    assert(three.drop_last() =~= two);
    assert(two.drop_last() =~= one);
    assert(one.drop_last() =~= Seq::<ProbeAnswer>::empty());
    assert(stage_after_all(kind, Stage::Foreground, one.drop_last()) == Stage::Foreground);
    assert(stage_after_all(kind, Stage::Foreground, one) == Stage::ForegroundThread { foreground });
    assert(stage_after_all(kind, Stage::Foreground, two) == Stage::GuiThread { foreground, thread });
}

/// A whole layout probe that found a foreground window: the layout is asked
/// of the focus window's thread where there is a focus window and of the
/// foreground window's thread else, and a layout handle of zero is a
/// failure.
pub proof fn lemma_layout_conversation(
    foreground: usize,
    thread: u32,
    available: bool,
    focus: usize,
    focus_thread: u32,
    layout: usize,
)
    requires
        foreground != 0,
    ensures
        ({
            let start = focus_answers(foreground, thread, available, focus);
            let asked = if has_focus(available, focus) {
                start.push(ProbeAnswer::Thread(focus_thread))
            } else {
                start
            };
            let outcome = if layout == 0 {
                ProbeOutcome::Failed(ProbeFailure::NoKeyboardLayout)
            } else {
                ProbeOutcome::Layout(layout)
            };
            &&& request_of(stage_after_all(QueryKind::KeyboardLayout, Stage::Foreground, asked))
                == ProbeRequest::KeyboardLayoutOfThread(
                if has_focus(available, focus) {
                    focus_thread
                } else {
                    thread
                },
            )
            &&& stage_after_all(
                QueryKind::KeyboardLayout,
                Stage::Foreground,
                asked.push(ProbeAnswer::Layout(layout)),
            ) == Stage::Finished(outcome)
        }),
{
    let kind = QueryKind::KeyboardLayout;
    let start = focus_answers(foreground, thread, available, focus);
    lemma_focus_resolution(kind, foreground, thread, available, focus);
    let asked = if has_focus(available, focus) {
        start.push(ProbeAnswer::Thread(focus_thread))
    } else {
        start
    };
    if has_focus(available, focus) {
        assert(asked.drop_last() =~= start);
    }
    assert(stage_after_all(kind, Stage::Foreground, asked) is Layout);
    assert(asked.push(ProbeAnswer::Layout(layout)).drop_last() =~= asked);
}

/// A whole open-status probe that found a foreground window: the input
/// method window of the target window is asked, and it is told off or on by
/// its reply, or failed where there is no such window or no reply in time.
pub proof fn lemma_open_status_conversation(
    foreground: usize,
    thread: u32,
    available: bool,
    focus: usize,
    ime_window: usize,
    delivered: bool,
    value: usize,
)
    requires
        foreground != 0,
    ensures
        ({
            let start = focus_answers(foreground, thread, available, focus);
            let found = start.push(ProbeAnswer::Window(ime_window));
            let outcome = if ime_window == 0 {
                ProbeOutcome::Failed(ProbeFailure::NoImeWindow)
            } else if delivered {
                ProbeOutcome::OpenStatus(value != 0)
            } else {
                ProbeOutcome::Failed(ProbeFailure::NoReply)
            };
            &&& request_of(stage_after_all(QueryKind::OpenStatus, Stage::Foreground, start))
                == ProbeRequest::DefaultImeWindow(target_window(foreground, available, focus))
            &&& stage_after_all(
                QueryKind::OpenStatus,
                Stage::Foreground,
                found.push(ProbeAnswer::Reply { delivered, value }),
            ) == Stage::Finished(outcome)
        }),
{
    let kind = QueryKind::OpenStatus;
    let start = focus_answers(foreground, thread, available, focus);
    lemma_focus_resolution(kind, foreground, thread, available, focus);
    let found = start.push(ProbeAnswer::Window(ime_window));
    let replied = found.push(ProbeAnswer::Reply { delivered, value });
    assert(found.drop_last() =~= start);
    assert(replied.drop_last() =~= found);
    let target = target_window(foreground, available, focus);
    assert(stage_after_all(kind, Stage::Foreground, start) == Stage::ImeWindow { target });
    assert(stage_after_all(kind, Stage::Foreground, found) == stage_after(
        kind,
        Stage::ImeWindow { target },
        ProbeAnswer::Window(ime_window),
    ));
}

/// The end of an open-status probe: the message goes to the input method
/// window with the fixed bound, a reply in time gives the status, and no
/// reply within the bound is a failure of this one query.
pub proof fn lemma_open_status_reply(target: usize, ime_window: usize, delivered: bool, value: usize)
    requires
        ime_window != 0,
    ensures
        request_of(
            stage_after(
                QueryKind::OpenStatus,
                Stage::ImeWindow { target },
                ProbeAnswer::Window(ime_window),
            ),
        ) == (ProbeRequest::OpenStatusMessage {
            window: ime_window,
            timeout_ms: OPEN_STATUS_TIMEOUT_MS,
        }),
        stage_after(
            QueryKind::OpenStatus,
            Stage::Reply { ime_window },
            ProbeAnswer::Reply { delivered, value },
        ) == Stage::Finished(
            if delivered {
                ProbeOutcome::OpenStatus(value != 0)
            } else {
                ProbeOutcome::Failed(ProbeFailure::NoReply)
            },
        ),
{
}

} // verus!
