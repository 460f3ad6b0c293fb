use ime_observer::driver::Variant;
use ime_observer::history::replay;
use ime_observer::mailbox::Mailbox;
use ime_observer::variant::worker_config;
use ime_observer::worker::{
    format_line, ErrorPolicy, Phase, Request, Worker, WorkerConfig, WorkerEvent, WorkerOutput,
};

fn cycle_events(states: &[&str]) -> Vec<WorkerEvent> {
    let mut events = Vec::new();
    for state in states {
        events.push(WorkerEvent::TokenTaken);
        events.push(WorkerEvent::SettleElapsed);
        events.push(WorkerEvent::Snapshot(state.to_string()));
    }
    events
}

#[test]
fn dedupe_emits_a_b_a_for_a_a_b_b_a() {
    let mut worker = Worker::new(worker_config(Variant::MacOs));
    let printed = replay(&mut worker, &cycle_events(&["A", "A", "B", "B", "A"]));
    assert_eq!(printed, vec!["A".to_string(), "B".to_string(), "A".to_string()]);
    assert_eq!(worker.last_emitted(), "A");
    assert_eq!(worker.phase(), Phase::AwaitingToken);
}

#[test]
fn without_dedupe_all_five_are_emitted() {
    let mut worker = Worker::new(worker_config(Variant::WindowsLayout));
    let printed = replay(&mut worker, &cycle_events(&["A", "A", "B", "B", "A"]));
    assert_eq!(
        printed,
        vec![
            "keyboard_layout: A".to_string(),
            "keyboard_layout: A".to_string(),
            "keyboard_layout: B".to_string(),
            "keyboard_layout: B".to_string(),
            "keyboard_layout: A".to_string(),
        ]
    );
}

#[test]
fn without_dedupe_every_variant_repeats() {
    for variant in [Variant::Fcitx5, Variant::Ibus, Variant::WindowsOpenStatus] {
        let mut worker = Worker::new(worker_config(variant));
        let printed = replay(&mut worker, &cycle_events(&["A", "A", "B", "B", "A"]));
        assert_eq!(printed.len(), 5);
    }
}

#[test]
fn dedupe_suppresses_an_empty_first_state() {
    let mut worker = Worker::new(worker_config(Variant::MacOs));
    let printed = replay(&mut worker, &cycle_events(&["", "x", ""]));
    assert_eq!(printed, vec!["x".to_string(), "".to_string()]);
}

#[test]
fn query_is_asked_for_only_after_the_settle_sleep() {
    let mut worker = Worker::new(worker_config(Variant::MacOs));
    assert_eq!(worker.awaits(), Request::TakeToken);
    assert_eq!(worker.step(WorkerEvent::TokenTaken), WorkerOutput::Silent);
    assert_eq!(worker.awaits(), Request::Sleep(40));
    assert_eq!(worker.phase(), Phase::Settling);
    assert_eq!(worker.step(WorkerEvent::SettleElapsed), WorkerOutput::Silent);
    assert_eq!(worker.awaits(), Request::Query);
    assert_eq!(
        worker.step(WorkerEvent::Snapshot("com.apple.keylayout.ABC".to_string())),
        WorkerOutput::Emit("com.apple.keylayout.ABC".to_string())
    );
    assert_eq!(worker.awaits(), Request::TakeToken);
}

#[test]
fn settle_intervals_of_the_variants() {
    let expected = [
        (Variant::Fcitx5, 0),
        (Variant::Ibus, 0),
        (Variant::MacOs, 40),
        (Variant::WindowsLayout, 50),
        (Variant::WindowsOpenStatus, 50),
    ];
    for (variant, settle_ms) in expected {
        let mut worker = Worker::new(worker_config(variant));
        worker.step(WorkerEvent::TokenTaken);
        assert_eq!(worker.awaits(), Request::Sleep(settle_ms));
    }
}

#[test]
fn snapshot_before_the_settle_sleep_halts_the_worker() {
    let mut worker = Worker::new(worker_config(Variant::WindowsLayout));
    worker.step(WorkerEvent::TokenTaken);
    assert_eq!(
        worker.step(WorkerEvent::Snapshot("en-US".to_string())),
        WorkerOutput::Silent
    );
    assert_eq!(worker.phase(), Phase::Halted);
    assert_eq!(worker.awaits(), Request::Halt);
    assert_eq!(worker.step(WorkerEvent::TokenTaken), WorkerOutput::Silent);
    assert_eq!(worker.awaits(), Request::Halt);
}

#[test]
fn failed_query_is_reported_and_the_worker_goes_on() {
    let mut worker = Worker::new(worker_config(Variant::WindowsLayout));
    worker.step(WorkerEvent::TokenTaken);
    worker.step(WorkerEvent::SettleElapsed);
    assert_eq!(
        worker.step(WorkerEvent::QueryFailed("GetKeyboardLayoutError".to_string())),
        WorkerOutput::Report("GetKeyboardLayoutError".to_string())
    );
    assert_eq!(worker.awaits(), Request::TakeToken);
    worker.step(WorkerEvent::TokenTaken);
    worker.step(WorkerEvent::SettleElapsed);
    assert_eq!(
        worker.step(WorkerEvent::Snapshot("ja-JP".to_string())),
        WorkerOutput::Emit("keyboard_layout: ja-JP".to_string())
    );
}

#[test]
fn failed_query_halts_the_open_status_worker() {
    let mut worker = Worker::new(worker_config(Variant::WindowsOpenStatus));
    worker.step(WorkerEvent::TokenTaken);
    worker.step(WorkerEvent::SettleElapsed);
    assert_eq!(
        worker.step(WorkerEvent::QueryFailed("GetOpenStatusError".to_string())),
        WorkerOutput::Silent
    );
    assert_eq!(worker.awaits(), Request::Halt);
    assert_eq!(worker.phase(), Phase::Halted);
}

#[test]
fn failed_query_does_not_touch_what_was_emitted_last() {
    let mut worker = Worker::new(worker_config(Variant::MacOs));
    let mut events = cycle_events(&["A"]);
    events.push(WorkerEvent::TokenTaken);
    events.push(WorkerEvent::SettleElapsed);
    events.push(WorkerEvent::QueryFailed("MacError: Type Miss match.".to_string()));
    events.extend(cycle_events(&["A", "B"]));
    let printed = replay(&mut worker, &events);
    assert_eq!(printed, vec!["A".to_string(), "B".to_string()]);
    assert_eq!(worker.last_emitted(), "B");
}

#[test]
fn format_line_with_and_without_label() {
    assert_eq!(
        format_line(&Some("ime_status".to_string()), &"keyboard-us".to_string()),
        "ime_status: keyboard-us"
    );
    assert_eq!(format_line(&None, &"xkb:us::eng".to_string()), "xkb:us::eng");
    assert_eq!(format_line(&Some(String::new()), &String::new()), ": ");
}

#[test]
fn labels_of_the_variants() {
    let state = "on".to_string();
    let expected = [
        (Variant::Fcitx5, "ime_status: on"),
        (Variant::Ibus, "on"),
        (Variant::MacOs, "on"),
        (Variant::WindowsLayout, "keyboard_layout: on"),
        (Variant::WindowsOpenStatus, "ime_open_status: on"),
    ];
    for (variant, line) in expected {
        assert_eq!(format_line(&worker_config(variant).label, &state), line);
    }
}

#[test]
fn worker_configs_of_the_variants() {
    assert_eq!(
        worker_config(Variant::MacOs),
        WorkerConfig { settle_ms: 40, dedupe: true, label: None, on_error: ErrorPolicy::Report }
    );
    assert_eq!(
        worker_config(Variant::WindowsOpenStatus),
        WorkerConfig {
            settle_ms: 50,
            dedupe: false,
            label: Some("ime_open_status".to_string()),
            on_error: ErrorPolicy::Halt,
        }
    );
    assert_eq!(
        worker_config(Variant::Fcitx5),
        WorkerConfig {
            settle_ms: 0,
            dedupe: false,
            label: Some("ime_status".to_string()),
            on_error: ErrorPolicy::Report,
        }
    );
    assert!(!worker_config(Variant::WindowsLayout).dedupe);
    assert!(!worker_config(Variant::Ibus).dedupe);
}

#[test]
fn event_clone_keeps_the_event() {
    let event = WorkerEvent::Snapshot("ja-JP".to_string());
    assert_eq!(event.clone(), event);
    assert_eq!(WorkerEvent::TokenTaken.clone(), WorkerEvent::TokenTaken);
    let failed = WorkerEvent::QueryFailed("x".to_string());
    assert_eq!(failed.clone(), failed);
}

#[test]
fn replay_of_nothing_prints_nothing() {
    let mut worker = Worker::new(worker_config(Variant::MacOs));
    assert_eq!(replay(&mut worker, &Vec::new()), Vec::<String>::new());
    assert_eq!(worker.phase(), Phase::AwaitingToken);
    assert_eq!(worker.last_emitted(), "");
}

#[test]
fn three_notifications_before_the_first_take_cause_one_query() {
    let mut mailbox = Mailbox::new();
    let mut worker = Worker::new(worker_config(Variant::MacOs));
    mailbox.deposit();
    mailbox.deposit();
    mailbox.deposit();
    let mut queries = 0;
    let mut printed = Vec::new();
    for _turn in 0..20 {
        let event = match worker.awaits() {
            Request::TakeToken => match mailbox.take() {
                Some(_) => WorkerEvent::TokenTaken,
                None => continue,
            },
            Request::Sleep(_) => WorkerEvent::SettleElapsed,
            Request::Query => {
                queries += 1;
                WorkerEvent::Snapshot("com.apple.inputmethod.Kotoeri".to_string())
            }
            Request::Halt => break,
        };
        if let WorkerOutput::Emit(line) = worker.step(event) {
            printed.push(line);
        }
    }
    assert_eq!(queries, 1);
    assert_eq!(printed, vec!["com.apple.inputmethod.Kotoeri".to_string()]);
    assert!(!mailbox.is_pending());
}
