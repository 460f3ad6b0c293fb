use ime_observer::driver::Variant;
use ime_observer::error::{GetKeyboardLayoutError, GetOpenStatusError, MacError};
use ime_observer::locale::{initialize_locale_map, InstalledLayout};
use ime_observer::probe::{
    Probe, ProbeAnswer, ProbeFailure, ProbeOutcome, ProbeRequest, QueryKind,
    OPEN_STATUS_TIMEOUT_MS,
};
use ime_observer::query::{
    get_current_input_source, get_keyboard_layout, get_open_status, input_source_event,
    keyboard_layout_event, open_status_event, query_event,
};
use ime_observer::variant::{query_kind, worker_config};
use ime_observer::worker::{Request, Worker, WorkerEvent, WorkerOutput};

fn run_probe(kind: QueryKind, answers: &[ProbeAnswer]) -> (Vec<ProbeRequest>, Probe) {
    let mut probe = Probe::new(kind);
    let mut requests = vec![probe.request()];
    for answer in answers {
        probe.answer(*answer);
        requests.push(probe.request());
    }
    (requests, probe)
}

#[test]
fn layout_probe_asks_the_thread_of_the_focus_window() {
    let (requests, probe) = run_probe(
        QueryKind::KeyboardLayout,
        &[
            ProbeAnswer::Window(0x100),
            ProbeAnswer::Thread(7),
            ProbeAnswer::GuiThread { available: true, focus: 0x200 },
            ProbeAnswer::Thread(9),
            ProbeAnswer::Layout(0x0411_0411),
        ],
    );
    assert_eq!(
        requests,
        vec![
            ProbeRequest::ForegroundWindow,
            ProbeRequest::ThreadOfWindow(0x100),
            ProbeRequest::GuiThreadInfo(7),
            ProbeRequest::ThreadOfWindow(0x200),
            ProbeRequest::KeyboardLayoutOfThread(9),
            ProbeRequest::Finish(ProbeOutcome::Layout(0x0411_0411)),
        ]
    );
    assert_eq!(probe.outcome(), Some(ProbeOutcome::Layout(0x0411_0411)));
}

#[test]
fn layout_probe_falls_back_to_the_foreground_thread() {
    for gui in [
        ProbeAnswer::GuiThread { available: false, focus: 0x200 },
        ProbeAnswer::GuiThread { available: true, focus: 0 },
    ] {
        let (requests, _) = run_probe(
            QueryKind::KeyboardLayout,
            &[ProbeAnswer::Window(0x100), ProbeAnswer::Thread(7), gui],
        );
        assert_eq!(requests[3], ProbeRequest::KeyboardLayoutOfThread(7));
    }
}

#[test]
fn layout_probe_fails_without_a_layout() {
    let (_, probe) = run_probe(
        QueryKind::KeyboardLayout,
        &[
            ProbeAnswer::Window(0x100),
            ProbeAnswer::Thread(7),
            ProbeAnswer::GuiThread { available: false, focus: 0 },
            ProbeAnswer::Layout(0),
        ],
    );
    assert_eq!(
        probe.outcome(),
        Some(ProbeOutcome::Failed(ProbeFailure::NoKeyboardLayout))
    );
}

#[test]
fn probe_fails_without_a_foreground_window() {
    for kind in [QueryKind::KeyboardLayout, QueryKind::OpenStatus] {
        let (requests, probe) = run_probe(kind, &[ProbeAnswer::Window(0)]);
        assert_eq!(
            requests[1],
            ProbeRequest::Finish(ProbeOutcome::Failed(ProbeFailure::NoForegroundWindow))
        );
        assert_eq!(
            probe.outcome(),
            Some(ProbeOutcome::Failed(ProbeFailure::NoForegroundWindow))
        );
    }
}

#[test]
fn open_status_probe_asks_the_input_method_window_of_the_focus() {
    let (requests, probe) = run_probe(
        QueryKind::OpenStatus,
        &[
            ProbeAnswer::Window(0x100),
            ProbeAnswer::Thread(7),
            ProbeAnswer::GuiThread { available: true, focus: 0x200 },
            ProbeAnswer::Window(0x300),
            ProbeAnswer::Reply { delivered: true, value: 1 },
        ],
    );
    assert_eq!(
        requests,
        vec![
            ProbeRequest::ForegroundWindow,
            ProbeRequest::ThreadOfWindow(0x100),
            ProbeRequest::GuiThreadInfo(7),
            ProbeRequest::DefaultImeWindow(0x200),
            ProbeRequest::OpenStatusMessage { window: 0x300, timeout_ms: 100 },
            ProbeRequest::Finish(ProbeOutcome::OpenStatus(true)),
        ]
    );
    assert_eq!(probe.outcome(), Some(ProbeOutcome::OpenStatus(true)));
    assert_eq!(OPEN_STATUS_TIMEOUT_MS, 100);
}

#[test]
fn open_status_probe_falls_back_to_the_foreground_window() {
    let (requests, _) = run_probe(
        QueryKind::OpenStatus,
        &[
            ProbeAnswer::Window(0x100),
            ProbeAnswer::Thread(7),
            ProbeAnswer::GuiThread { available: false, focus: 0x200 },
        ],
    );
    assert_eq!(requests[3], ProbeRequest::DefaultImeWindow(0x100));
}

#[test]
fn open_status_reply_zero_means_off() {
    let (_, probe) = run_probe(
        QueryKind::OpenStatus,
        &[
            ProbeAnswer::Window(0x100),
            ProbeAnswer::Thread(7),
            ProbeAnswer::GuiThread { available: true, focus: 0 },
            ProbeAnswer::Window(0x300),
            ProbeAnswer::Reply { delivered: true, value: 0 },
        ],
    );
    assert_eq!(probe.outcome(), Some(ProbeOutcome::OpenStatus(false)));
}

#[test]
fn open_status_probe_fails_without_an_input_method_window() {
    let (requests, _) = run_probe(
        QueryKind::OpenStatus,
        &[
            ProbeAnswer::Window(0x100),
            ProbeAnswer::Thread(7),
            ProbeAnswer::GuiThread { available: true, focus: 0x200 },
            ProbeAnswer::Window(0),
        ],
    );
    assert_eq!(
        requests[4],
        ProbeRequest::Finish(ProbeOutcome::Failed(ProbeFailure::NoImeWindow))
    );
}

#[test]
fn window_that_never_replies_is_an_error_of_one_query() {
    let (_, probe) = run_probe(
        QueryKind::OpenStatus,
        &[
            ProbeAnswer::Window(0x100),
            ProbeAnswer::Thread(7),
            ProbeAnswer::GuiThread { available: true, focus: 0x200 },
            ProbeAnswer::Window(0x300),
            ProbeAnswer::Reply { delivered: false, value: 1 },
        ],
    );
    let outcome = probe.outcome().unwrap();
    assert_eq!(outcome, ProbeOutcome::Failed(ProbeFailure::NoReply));
    assert_eq!(
        get_open_status(outcome),
        Err(GetOpenStatusError::Probe(ProbeFailure::NoReply))
    );
    let mut worker = Worker::new(worker_config(Variant::WindowsOpenStatus));
    worker.step(WorkerEvent::TokenTaken);
    worker.step(WorkerEvent::SettleElapsed);
    assert_eq!(
        worker.step(open_status_event(get_open_status(outcome))),
        WorkerOutput::Silent
    );
    assert_eq!(worker.awaits(), Request::Halt);
}

#[test]
fn answer_of_the_wrong_kind_fails_the_probe() {
    let (requests, probe) = run_probe(
        QueryKind::KeyboardLayout,
        &[ProbeAnswer::Window(0x100), ProbeAnswer::Layout(5)],
    );
    assert_eq!(
        requests[2],
        ProbeRequest::Finish(ProbeOutcome::Failed(ProbeFailure::UnexpectedAnswer))
    );
    assert_eq!(
        probe.outcome(),
        Some(ProbeOutcome::Failed(ProbeFailure::UnexpectedAnswer))
    );
}

#[test]
fn finished_probe_ignores_further_answers() {
    let (_, mut probe) = run_probe(QueryKind::OpenStatus, &[ProbeAnswer::Window(0)]);
    probe.answer(ProbeAnswer::Window(0x100));
    probe.answer(ProbeAnswer::Reply { delivered: true, value: 1 });
    assert_eq!(
        probe.outcome(),
        Some(ProbeOutcome::Failed(ProbeFailure::NoForegroundWindow))
    );
}

#[test]
fn unfinished_probe_has_no_outcome() {
    let (_, probe) = run_probe(QueryKind::OpenStatus, &[ProbeAnswer::Window(0x100)]);
    assert_eq!(probe.outcome(), None);
    assert_eq!(Probe::new(QueryKind::KeyboardLayout).outcome(), None);
}

#[test]
fn query_kinds_of_the_variants() {
    assert_eq!(query_kind(Variant::WindowsLayout), Some(QueryKind::KeyboardLayout));
    assert_eq!(query_kind(Variant::WindowsOpenStatus), Some(QueryKind::OpenStatus));
    assert_eq!(query_kind(Variant::MacOs), None);
    assert_eq!(query_kind(Variant::Fcitx5), None);
    assert_eq!(query_kind(Variant::Ibus), None);
}

#[test]
fn open_status_is_rendered_as_text() {
    assert_eq!(get_open_status(ProbeOutcome::OpenStatus(true)), Ok("ime-on".to_string()));
    assert_eq!(get_open_status(ProbeOutcome::OpenStatus(false)), Ok("ime-off".to_string()));
    assert_eq!(
        get_open_status(ProbeOutcome::Failed(ProbeFailure::NoImeWindow)),
        Err(GetOpenStatusError::Probe(ProbeFailure::NoImeWindow))
    );
    assert_eq!(
        get_open_status(ProbeOutcome::Layout(0x0411_0411)),
        Err(GetOpenStatusError::WrongOutcome)
    );
}

#[test]
fn keyboard_layout_of_each_outcome() {
    let layouts = vec![InstalledLayout { layout: 0x0411, name: Some("ja-JP".to_string()) }];
    let map = initialize_locale_map(&layouts).unwrap();
    assert_eq!(
        get_keyboard_layout(&map, ProbeOutcome::Layout(0x0411_0411)),
        Ok("ja-JP".to_string())
    );
    assert_eq!(
        get_keyboard_layout(&map, ProbeOutcome::Layout(0x0409_0409)),
        Err(GetKeyboardLayoutError::UnknownLanguage)
    );
    assert_eq!(
        get_keyboard_layout(&map, ProbeOutcome::Failed(ProbeFailure::NoForegroundWindow)),
        Err(GetKeyboardLayoutError::Probe(ProbeFailure::NoForegroundWindow))
    );
    assert_eq!(
        get_keyboard_layout(&map, ProbeOutcome::OpenStatus(true)),
        Err(GetKeyboardLayoutError::WrongOutcome)
    );
}

#[test]
fn input_source_that_is_no_string_is_an_error() {
    assert_eq!(
        get_current_input_source(Some("com.apple.keylayout.US".to_string())),
        Ok("com.apple.keylayout.US".to_string())
    );
    assert_eq!(
        get_current_input_source(None),
        Err(MacError("Type Miss match.".to_string()))
    );
}

#[test]
fn failures_are_described_as_they_are_printed() {
    assert_eq!(GetKeyboardLayoutError::UnknownLanguage.describe(), "GetKeyboardLayoutError");
    assert_eq!(
        GetKeyboardLayoutError::Probe(ProbeFailure::NoKeyboardLayout).describe(),
        "GetKeyboardLayoutError"
    );
    assert_eq!(GetOpenStatusError::WrongOutcome.describe(), "GetOpenStatusError");
    assert_eq!(
        MacError("Type Miss match.".to_string()).describe(),
        "MacError: Type Miss match."
    );
    assert_eq!(MacError(String::new()).describe(), "MacError: ");
}

#[test]
fn query_results_become_worker_events() {
    assert_eq!(
        query_event(Ok("keyboard-us".to_string())),
        WorkerEvent::Snapshot("keyboard-us".to_string())
    );
    assert_eq!(
        query_event(Err("bus gone".to_string())),
        WorkerEvent::QueryFailed("bus gone".to_string())
    );
    assert_eq!(
        keyboard_layout_event(Ok("ja-JP".to_string())),
        WorkerEvent::Snapshot("ja-JP".to_string())
    );
    assert_eq!(
        keyboard_layout_event(Err(GetKeyboardLayoutError::UnknownLanguage)),
        WorkerEvent::QueryFailed("GetKeyboardLayoutError".to_string())
    );
    assert_eq!(
        open_status_event(Ok("ime-on".to_string())),
        WorkerEvent::Snapshot("ime-on".to_string())
    );
    assert_eq!(
        open_status_event(Err(GetOpenStatusError::Probe(ProbeFailure::NoReply))),
        WorkerEvent::QueryFailed("GetOpenStatusError".to_string())
    );
    assert_eq!(
        input_source_event(Ok("com.apple.keylayout.US".to_string())),
        WorkerEvent::Snapshot("com.apple.keylayout.US".to_string())
    );
    assert_eq!(
        input_source_event(Err(MacError("Type Miss match.".to_string()))),
        WorkerEvent::QueryFailed("MacError: Type Miss match.".to_string())
    );
}
