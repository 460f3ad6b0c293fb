use ime_observer::driver::{
    Cleanup, Driver, DriverAnswer, DriverError, DriverRequest, ExitStatus, LoopKind,
    RunLoopResult, SetupStep, Variant, BUS_POLL_MS, RUN_LOOP_SLICE_MS,
};
use ime_observer::status_item::{locate_input_method_item, parse_item_address, ItemAddress};

const ALL_VARIANTS: [Variant; 5] = [
    Variant::Fcitx5,
    Variant::Ibus,
    Variant::MacOs,
    Variant::WindowsLayout,
    Variant::WindowsOpenStatus,
];

fn set_up(variant: Variant) -> (Vec<SetupStep>, Driver) {
    let mut driver = Driver::new(variant);
    let mut steps = Vec::new();
    while let DriverRequest::Setup(step) = driver.request() {
        steps.push(step);
        driver.answer(DriverAnswer::Succeeded);
    }
    (steps, driver)
}

#[test]
fn setup_steps_of_the_windows_layout_variant() {
    let (steps, driver) = set_up(Variant::WindowsLayout);
    assert_eq!(
        steps,
        vec![
            SetupStep::OpenMailbox,
            SetupStep::BuildLocaleMap,
            SetupStep::StartWorker,
            SetupStep::InstallForegroundHook,
            SetupStep::ModuleHandle,
            SetupStep::RegisterWindowClass,
            SetupStep::CreateMessageWindow,
            SetupStep::RegisterKeyboardInput,
            SetupStep::HideWindow,
        ]
    );
    assert_eq!(driver.request(), DriverRequest::NextMessage);
}

#[test]
fn setup_steps_of_the_open_status_variant() {
    let (steps, driver) = set_up(Variant::WindowsOpenStatus);
    assert_eq!(
        steps,
        vec![
            SetupStep::OpenMailbox,
            SetupStep::StartWorker,
            SetupStep::InstallForegroundHook,
            SetupStep::ModuleHandle,
            SetupStep::RegisterWindowClass,
            SetupStep::CreateMessageWindow,
            SetupStep::RegisterKeyboardInput,
            SetupStep::HideWindow,
        ]
    );
    assert_eq!(driver.request(), DriverRequest::NextMessage);
}

#[test]
fn setup_steps_of_the_macos_variant() {
    let (steps, driver) = set_up(Variant::MacOs);
    assert_eq!(
        steps,
        vec![
            SetupStep::OpenMailbox,
            SetupStep::StartWorker,
            SetupStep::ReachNotificationCenter,
            SetupStep::AddObserver,
        ]
    );
    assert_eq!(driver.request(), DriverRequest::RunLoopOnce { timeout_ms: 1000 });
    assert_eq!(RUN_LOOP_SLICE_MS, 1000);
}

#[test]
fn setup_steps_of_the_linux_variants() {
    let (steps, driver) = set_up(Variant::Fcitx5);
    assert_eq!(
        steps,
        vec![
            SetupStep::ConnectSessionBus,
            SetupStep::ListStatusItems,
            SetupStep::LocateInputMethodItem,
            SetupStep::OpenMailbox,
            SetupStep::SubscribeIconChanged,
            SetupStep::ConnectWorkerBus,
            SetupStep::StartWorker,
        ]
    );
    assert_eq!(driver.request(), DriverRequest::ProcessBus { timeout_ms: 1000 });
    let (steps, driver) = set_up(Variant::Ibus);
    assert_eq!(
        steps,
        vec![
            SetupStep::FindBusAddress,
            SetupStep::ConnectPrivateBus,
            SetupStep::SubscribeEngineChanged,
        ]
    );
    assert_eq!(driver.request(), DriverRequest::ProcessBus { timeout_ms: 1000 });
    assert_eq!(BUS_POLL_MS, 1000);
}

#[test]
fn plan_positions_agree_with_the_plan_length() {
    for variant in ALL_VARIANTS {
        let (steps, _) = set_up(variant);
        assert_eq!(variant.setup_len(), steps.len());
        for (position, step) in steps.iter().enumerate() {
            assert_eq!(variant.setup_step(position), Some(*step));
        }
        assert_eq!(variant.setup_step(steps.len()), None);
        assert_eq!(variant.setup_step(usize::MAX), None);
    }
}

#[test]
fn each_failing_setup_step_is_fatal() {
    for variant in ALL_VARIANTS {
        for failing in 0..variant.setup_len() {
            let mut driver = Driver::new(variant);
            for _ in 0..failing {
                driver.answer(DriverAnswer::Succeeded);
            }
            let step = variant.setup_step(failing).unwrap();
            assert_eq!(driver.request(), DriverRequest::Setup(step));
            driver.answer(DriverAnswer::Failed);
            let status = ExitStatus::Failed(DriverError::Setup(step));
            assert_eq!(driver.request(), DriverRequest::Exit(status));
            assert_eq!(driver.exit_status(), Some(status));
            driver.answer(DriverAnswer::Succeeded);
            driver.answer(DriverAnswer::Message(1));
            assert_eq!(driver.request(), DriverRequest::Exit(status));
            assert_eq!(status.exit_code(), 1);
        }
    }
}

#[test]
fn message_pump_runs_until_the_quit_message() {
    let (_, mut driver) = set_up(Variant::WindowsLayout);
    for fetched in [1, -1, 7] {
        assert_eq!(driver.request(), DriverRequest::NextMessage);
        driver.answer(DriverAnswer::Message(fetched));
        assert_eq!(driver.request(), DriverRequest::DispatchMessage);
        driver.answer(DriverAnswer::Succeeded);
    }
    assert_eq!(driver.exit_status(), None);
    driver.answer(DriverAnswer::Message(0));
    assert_eq!(driver.request(), DriverRequest::Cleanup(Cleanup::RemoveForegroundHook));
    driver.answer(DriverAnswer::Succeeded);
    assert_eq!(driver.request(), DriverRequest::Exit(ExitStatus::Clean));
    assert_eq!(driver.exit_status(), Some(ExitStatus::Clean));
    assert_eq!(ExitStatus::Clean.exit_code(), 0);
}

#[test]
fn failed_cleanup_still_ends_cleanly() {
    let (_, mut driver) = set_up(Variant::WindowsOpenStatus);
    driver.answer(DriverAnswer::Message(0));
    driver.answer(DriverAnswer::Failed);
    assert_eq!(driver.exit_status(), Some(ExitStatus::Clean));
}

#[test]
fn run_loop_turns_until_it_is_stopped() {
    let (_, mut driver) = set_up(Variant::MacOs);
    for result in [
        RunLoopResult::TimedOut,
        RunLoopResult::HandledSource,
        RunLoopResult::Finished,
    ] {
        driver.answer(DriverAnswer::RunLoop(result));
        assert_eq!(driver.request(), DriverRequest::RunLoopOnce { timeout_ms: 1000 });
    }
    driver.answer(DriverAnswer::RunLoop(RunLoopResult::Stopped));
    assert_eq!(driver.request(), DriverRequest::Cleanup(Cleanup::RemoveObserver));
    driver.answer(DriverAnswer::Succeeded);
    assert_eq!(driver.exit_status(), Some(ExitStatus::Clean));
}

#[test]
fn bus_is_polled_until_a_poll_fails() {
    for variant in [Variant::Fcitx5, Variant::Ibus] {
        let (_, mut driver) = set_up(variant);
        for _ in 0..3 {
            driver.answer(DriverAnswer::Succeeded);
            assert_eq!(driver.request(), DriverRequest::ProcessBus { timeout_ms: 1000 });
        }
        driver.answer(DriverAnswer::Failed);
        let status = ExitStatus::Failed(DriverError::Dispatch);
        assert_eq!(driver.request(), DriverRequest::Exit(status));
        assert_eq!(status.exit_code(), 1);
    }
}

#[test]
fn answer_of_the_wrong_kind_ends_the_driver() {
    let unexpected = ExitStatus::Failed(DriverError::UnexpectedAnswer);
    let mut driver = Driver::new(Variant::MacOs);
    driver.answer(DriverAnswer::Message(1));
    assert_eq!(driver.exit_status(), Some(unexpected));
    let (_, mut driver) = set_up(Variant::MacOs);
    driver.answer(DriverAnswer::Succeeded);
    assert_eq!(driver.exit_status(), Some(unexpected));
    let (_, mut driver) = set_up(Variant::WindowsLayout);
    driver.answer(DriverAnswer::RunLoop(RunLoopResult::Stopped));
    assert_eq!(driver.exit_status(), Some(unexpected));
    let (_, mut driver) = set_up(Variant::WindowsLayout);
    driver.answer(DriverAnswer::Message(1));
    driver.answer(DriverAnswer::Failed);
    assert_eq!(driver.exit_status(), Some(unexpected));
    let (_, mut driver) = set_up(Variant::Ibus);
    driver.answer(DriverAnswer::Message(0));
    assert_eq!(driver.exit_status(), Some(unexpected));
    let (_, mut driver) = set_up(Variant::MacOs);
    driver.answer(DriverAnswer::RunLoop(RunLoopResult::Stopped));
    driver.answer(DriverAnswer::Message(0));
    assert_eq!(driver.exit_status(), Some(unexpected));
    assert_eq!(unexpected.exit_code(), 1);
}

#[test]
fn loop_kinds_and_cleanups_of_the_variants() {
    assert_eq!(Variant::Fcitx5.loop_kind(), LoopKind::Bus);
    assert_eq!(Variant::Ibus.loop_kind(), LoopKind::Bus);
    assert_eq!(Variant::MacOs.loop_kind(), LoopKind::RunLoop);
    assert_eq!(Variant::WindowsLayout.loop_kind(), LoopKind::MessagePump);
    assert_eq!(Variant::WindowsOpenStatus.loop_kind(), LoopKind::MessagePump);
    assert_eq!(Variant::Fcitx5.cleanup(), None);
    assert_eq!(Variant::Ibus.cleanup(), None);
    assert_eq!(Variant::MacOs.cleanup(), Some(Cleanup::RemoveObserver));
    assert_eq!(Variant::WindowsLayout.cleanup(), Some(Cleanup::RemoveForegroundHook));
    assert_eq!(Variant::WindowsOpenStatus.cleanup(), Some(Cleanup::RemoveForegroundHook));
}

#[test]
fn item_address_is_split_at_the_first_at_sign() {
    assert_eq!(
        parse_item_address(":1.42@/StatusNotifierItem"),
        Some(ItemAddress {
            destination: ":1.42".to_string(),
            path: "/StatusNotifierItem".to_string(),
        })
    );
    assert_eq!(
        parse_item_address("org.fcitx.Fcitx5@/a@b"),
        Some(ItemAddress { destination: "org.fcitx.Fcitx5".to_string(), path: "/a@b".to_string() })
    );
    assert_eq!(
        parse_item_address("@"),
        Some(ItemAddress { destination: String::new(), path: String::new() })
    );
    assert_eq!(
        parse_item_address("名前@/道"),
        Some(ItemAddress { destination: "名前".to_string(), path: "/道".to_string() })
    );
}

#[test]
fn name_without_at_sign_is_no_item_address() {
    assert_eq!(parse_item_address(":1.42/StatusNotifierItem"), None);
    assert_eq!(parse_item_address(""), None);
}

#[test]
fn last_item_named_fcitx_is_picked() {
    let ids: Vec<String> =
        ["nm-applet", "Fcitx", "blueman", "Fcitx", "fcitx"].iter().map(|id| id.to_string()).collect();
    assert_eq!(locate_input_method_item(&ids), Some(3));
    let ids: Vec<String> = ["Fcitx", "nm-applet"].iter().map(|id| id.to_string()).collect();
    assert_eq!(locate_input_method_item(&ids), Some(0));
}

#[test]
fn no_item_named_fcitx_is_found() {
    let ids: Vec<String> = ["nm-applet", "fcitx", "Fcitx5", ""].iter().map(|id| id.to_string()).collect();
    assert_eq!(locate_input_method_item(&ids), None);
    assert_eq!(locate_input_method_item(&Vec::new()), None);
}
