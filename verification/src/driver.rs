//! The driver of each program variant: the steps that set a variant up, the
//! native event loop it then stays in, and what it cleans up on the way out.
//!
//! The driver decides; its runner acts. The runner performs the request the
//! driver names and answers with how it went. A setup step that fails ends
//! the program before the event loop is ever entered.

use vstd::prelude::*;

verus! {

/// How long one turn of the macOS run loop may take, in milliseconds.
pub const RUN_LOOP_SLICE_MS: u32 = 1000;

/// How long one poll of the message bus may take, in milliseconds.
pub const BUS_POLL_MS: u32 = 1000;

/// The program variants.
#[derive(Clone, Copy, Debug, PartialEq, Eq, Structural)]
pub enum Variant {
    /// Linux, input method framework fcitx5.
    Fcitx5,
    /// Linux, input method framework ibus.
    Ibus,
    /// macOS keyboard input sources.
    MacOs,
    /// Windows keyboard layouts.
    WindowsLayout,
    /// Windows input method on or off.
    WindowsOpenStatus,
}

/// One step of setting a variant up.
#[derive(Clone, Copy, Debug, PartialEq, Eq, Structural)]
pub enum SetupStep {
    /// Create the mailbox and make its deposit side known to the callbacks.
    OpenMailbox,
    /// Build the map from language identifiers to locale names.
    BuildLocaleMap,
    /// Start the worker context.
    StartWorker,
    /// Connect to the session message bus.
    ConnectSessionBus,
    /// Ask the status notifier watcher for the registered items.
    ListStatusItems,
    /// Find the status item of the input method among them.
    LocateInputMethodItem,
    /// Subscribe to the "icon changed" signal of that item.
    SubscribeIconChanged,
    /// Open the bus connection the worker queries through.
    ConnectWorkerBus,
    /// Ask the input method framework for the address of its own bus.
    FindBusAddress,
    /// Connect to that bus.
    ConnectPrivateBus,
    /// Subscribe to the "engine changed" signal.
    SubscribeEngineChanged,
    /// Get hold of the distributed notification center.
    ReachNotificationCenter,
    /// Register for "selected keyboard input source changed".
    AddObserver,
    /// Install the hook for foreground window changes.
    InstallForegroundHook,
    /// Get the handle of the running module.
    ModuleHandle,
    /// Register the class of the hidden window.
    RegisterWindowClass,
    /// Create the message-only window.
    CreateMessageWindow,
    /// Register for raw keyboard input.
    RegisterKeyboardInput,
    /// Hide the window.
    HideWindow,
}

/// How the native event loop of a variant is driven.
#[derive(Clone, Copy, Debug, PartialEq, Eq, Structural)]
pub enum LoopKind {
    /// Poll the message bus; a failed poll ends the program.
    Bus,
    /// Turn the run loop until it reports that it was stopped.
    RunLoop,
    /// Fetch and dispatch window messages until the quit message.
    MessagePump,
}

/// What one turn of the macOS run loop reports.
#[derive(Clone, Copy, Debug, PartialEq, Eq, Structural)]
pub enum RunLoopResult {
    Finished,
    Stopped,
    TimedOut,
    HandledSource,
}

/// What is undone when the event loop ends.
#[derive(Clone, Copy, Debug, PartialEq, Eq, Structural)]
pub enum Cleanup {
    /// Remove the notification observer.
    RemoveObserver,
    /// Remove the foreground hook.
    RemoveForegroundHook,
}

/// Why a driver gave up.
#[derive(Clone, Copy, Debug, PartialEq, Eq, Structural)]
pub enum DriverError {
    /// This setup step failed.
    Setup(SetupStep),
    /// The message bus could not be polled.
    Dispatch,
    /// The answer does not belong to the request.
    UnexpectedAnswer,
}

/// How a driver ended.
#[derive(Clone, Copy, Debug, PartialEq, Eq, Structural)]
pub enum ExitStatus {
    /// The event loop was told to end.
    Clean,
    /// The driver gave up.
    Failed(DriverError),
}

/// What the driver asks its runner to do.
#[derive(Clone, Copy, Debug, PartialEq, Eq, Structural)]
pub enum DriverRequest {
    /// Perform this setup step.
    Setup(SetupStep),
    /// Poll the message bus once, for at most this long.
    ProcessBus { timeout_ms: u32 },
    /// Turn the run loop once, for at most this long, returning as soon as
    /// one source was handled.
    RunLoopOnce { timeout_ms: u32 },
    /// Wait for the next window message.
    NextMessage,
    /// Translate and dispatch the message just fetched.
    DispatchMessage,
    /// Undo this.
    Cleanup(Cleanup),
    /// Leave with this status.
    Exit(ExitStatus),
}

/// How a request went.
#[derive(Clone, Copy, Debug, PartialEq, Eq, Structural)]
pub enum DriverAnswer {
    /// It was done.
    Succeeded,
    /// It could not be done.
    Failed,
    /// The value that fetching a window message returned.
    Message(i32),
    /// What the turn of the run loop reported.
    RunLoop(RunLoopResult),
}

/// Where a driver stands.
#[derive(Clone, Copy, Debug, PartialEq, Eq, Structural)]
pub enum DriverStage {
    /// Waiting for the setup step at this position of the plan.
    Setup(usize),
    /// Waiting for the event loop to report.
    Pumping,
    /// Waiting for a window message to be dispatched.
    Dispatching,
    /// Waiting for the cleanup.
    CleaningUp,
    /// Over.
    Exited(ExitStatus),
}

/// The setup steps of a variant, in the order in which they are taken.
pub open spec fn setup_plan(variant: Variant) -> Seq<SetupStep> {
    match variant {
        Variant::Fcitx5 => seq![
            SetupStep::ConnectSessionBus,
            SetupStep::ListStatusItems,
            SetupStep::LocateInputMethodItem,
            SetupStep::OpenMailbox,
            SetupStep::SubscribeIconChanged,
            SetupStep::ConnectWorkerBus,
            SetupStep::StartWorker,
        ],
        Variant::Ibus => seq![
            SetupStep::FindBusAddress,
            SetupStep::ConnectPrivateBus,
            SetupStep::SubscribeEngineChanged,
        ],
        Variant::MacOs => seq![
            SetupStep::OpenMailbox,
            SetupStep::StartWorker,
            SetupStep::ReachNotificationCenter,
            SetupStep::AddObserver,
        ],
        Variant::WindowsLayout => seq![
            SetupStep::OpenMailbox,
            SetupStep::BuildLocaleMap,
            SetupStep::StartWorker,
            SetupStep::InstallForegroundHook,
            SetupStep::ModuleHandle,
            SetupStep::RegisterWindowClass,
            SetupStep::CreateMessageWindow,
            SetupStep::RegisterKeyboardInput,
            SetupStep::HideWindow,
        ],
        Variant::WindowsOpenStatus => seq![
            SetupStep::OpenMailbox,
            SetupStep::StartWorker,
            SetupStep::InstallForegroundHook,
            SetupStep::ModuleHandle,
            SetupStep::RegisterWindowClass,
            SetupStep::CreateMessageWindow,
            SetupStep::RegisterKeyboardInput,
            SetupStep::HideWindow,
        ],
    }
}

/// The event loop of a variant.
pub open spec fn loop_kind(variant: Variant) -> LoopKind {
    match variant {
        Variant::Fcitx5 => LoopKind::Bus,
        Variant::Ibus => LoopKind::Bus,
        Variant::MacOs => LoopKind::RunLoop,
        Variant::WindowsLayout => LoopKind::MessagePump,
        Variant::WindowsOpenStatus => LoopKind::MessagePump,
    }
}

/// What a variant undoes once its event loop has ended.
pub open spec fn cleanup_of(variant: Variant) -> Option<Cleanup> {
    match loop_kind(variant) {
        LoopKind::Bus => None,
        LoopKind::RunLoop => Some(Cleanup::RemoveObserver),
        LoopKind::MessagePump => Some(Cleanup::RemoveForegroundHook),
    }
}

/// Whether fetching a window message returned anything but the quit
/// message.
pub open spec fn message_continues(fetched: i32) -> bool {
    fetched != 0
}

/// Whether the run loop goes on after a turn that reported `result`.
pub open spec fn run_loop_continues(result: RunLoopResult) -> bool {
    result != RunLoopResult::Stopped
}

/// The stage that follows the end of the event loop.
pub open spec fn stage_after_loop(variant: Variant) -> DriverStage {
    match cleanup_of(variant) {
        Some(_) => DriverStage::CleaningUp,
        None => DriverStage::Exited(ExitStatus::Clean),
    }
}

/// Whether `stage` is one that a driver of `variant` can be in.
pub open spec fn stage_fits(variant: Variant, stage: DriverStage) -> bool {
    match stage {
        DriverStage::Setup(position) => position < setup_plan(variant).len(),
        DriverStage::Pumping => true,
        DriverStage::Dispatching => loop_kind(variant) == LoopKind::MessagePump,
        DriverStage::CleaningUp => cleanup_of(variant) is Some,
        DriverStage::Exited(_) => true,
    }
}

/// The stage after `answer`. An answer that does not belong to the request
/// ends the driver; a driver that is over stays as it is.
pub open spec fn stage_after(variant: Variant, stage: DriverStage, answer: DriverAnswer) -> DriverStage {
    let unexpected = DriverStage::Exited(ExitStatus::Failed(DriverError::UnexpectedAnswer));
    match stage {
        DriverStage::Exited(status) => DriverStage::Exited(status),
        DriverStage::Setup(position) => match answer {
            DriverAnswer::Succeeded => if position + 1 < setup_plan(variant).len() {
                DriverStage::Setup((position + 1) as usize)
            } else {
                DriverStage::Pumping
            },
            DriverAnswer::Failed => DriverStage::Exited(
                ExitStatus::Failed(DriverError::Setup(setup_plan(variant)[position as int])),
            ),
            _ => unexpected,
        },
        DriverStage::Pumping => match (loop_kind(variant), answer) {
            (LoopKind::Bus, DriverAnswer::Succeeded) => DriverStage::Pumping,
            (LoopKind::Bus, DriverAnswer::Failed) => DriverStage::Exited(
                ExitStatus::Failed(DriverError::Dispatch),
            ),
            (LoopKind::RunLoop, DriverAnswer::RunLoop(result)) => if run_loop_continues(result) {
                DriverStage::Pumping
            } else {
                stage_after_loop(variant)
            },
            (LoopKind::MessagePump, DriverAnswer::Message(fetched)) => if message_continues(
                fetched,
            ) {
                DriverStage::Dispatching
            } else {
                stage_after_loop(variant)
            },
            _ => unexpected,
        },
        DriverStage::Dispatching => match answer {
            DriverAnswer::Succeeded => DriverStage::Pumping,
            _ => unexpected,
        },
        DriverStage::CleaningUp => match answer {
            DriverAnswer::Succeeded => DriverStage::Exited(ExitStatus::Clean),
            DriverAnswer::Failed => DriverStage::Exited(ExitStatus::Clean),
            _ => unexpected,
        },
    }
}

/// The request that a driver in `stage` waits on.
pub open spec fn request_of(variant: Variant, stage: DriverStage) -> DriverRequest {
    match stage {
        DriverStage::Setup(position) => DriverRequest::Setup(setup_plan(variant)[position as int]),
        DriverStage::Pumping => match loop_kind(variant) {
            LoopKind::Bus => DriverRequest::ProcessBus { timeout_ms: BUS_POLL_MS },
            LoopKind::RunLoop => DriverRequest::RunLoopOnce { timeout_ms: RUN_LOOP_SLICE_MS },
            LoopKind::MessagePump => DriverRequest::NextMessage,
        },
        DriverStage::Dispatching => DriverRequest::DispatchMessage,
        DriverStage::CleaningUp => match cleanup_of(variant) {
            Some(cleanup) => DriverRequest::Cleanup(cleanup),
            None => DriverRequest::Exit(ExitStatus::Clean),
        },
        DriverStage::Exited(status) => DriverRequest::Exit(status),
    }
}

/// The stage after all of `answers`, one after the other.
pub open spec fn stage_after_all(
    variant: Variant,
    stage: DriverStage,
    answers: Seq<DriverAnswer>,
) -> DriverStage
    decreases answers.len(),
{
    if answers.len() == 0 {
        stage
    } else {
        stage_after(variant, stage_after_all(variant, stage, answers.drop_last()), answers.last())
    }
}

/// Whether the native event loop has been entered by `stage`.
pub open spec fn in_event_loop(stage: DriverStage) -> bool {
    stage is Pumping || stage is Dispatching
}

/// The exit code of the process for `status`.
pub open spec fn exit_code_of(status: ExitStatus) -> i32 {
    match status {
        ExitStatus::Clean => 0,
        ExitStatus::Failed(_) => 1,
    }
}

impl Variant {
    /// The number of setup steps of this variant.
    pub fn setup_len(self) -> (len: usize)
        ensures
            len == setup_plan(self).len(),
    {
        match self {
            Variant::Fcitx5 => 7,
            Variant::Ibus => 3,
            Variant::MacOs => 4,
            Variant::WindowsLayout => 9,
            Variant::WindowsOpenStatus => 8,
        }
    }

    /// The setup step at `position` of this variant's plan.
    pub fn setup_step(self, position: usize) -> (step: Option<SetupStep>)
        ensures
            step == if position < setup_plan(self).len() {
                Some(setup_plan(self)[position as int])
            } else {
                None::<SetupStep>
            },
    {
        match self {
            Variant::Fcitx5 => match position {
                0 => Some(SetupStep::ConnectSessionBus),
                1 => Some(SetupStep::ListStatusItems),
                2 => Some(SetupStep::LocateInputMethodItem),
                3 => Some(SetupStep::OpenMailbox),
                4 => Some(SetupStep::SubscribeIconChanged),
                5 => Some(SetupStep::ConnectWorkerBus),
                6 => Some(SetupStep::StartWorker),
                _ => None,
            },
            Variant::Ibus => match position {
                0 => Some(SetupStep::FindBusAddress),
                1 => Some(SetupStep::ConnectPrivateBus),
                2 => Some(SetupStep::SubscribeEngineChanged),
                _ => None,
            },
            Variant::MacOs => match position {
                0 => Some(SetupStep::OpenMailbox),
                1 => Some(SetupStep::StartWorker),
                2 => Some(SetupStep::ReachNotificationCenter),
                3 => Some(SetupStep::AddObserver),
                _ => None,
            },
            Variant::WindowsLayout => match position {
                0 => Some(SetupStep::OpenMailbox),
                1 => Some(SetupStep::BuildLocaleMap),
                2 => Some(SetupStep::StartWorker),
                3 => Some(SetupStep::InstallForegroundHook),
                4 => Some(SetupStep::ModuleHandle),
                5 => Some(SetupStep::RegisterWindowClass),
                6 => Some(SetupStep::CreateMessageWindow),
                7 => Some(SetupStep::RegisterKeyboardInput),
                8 => Some(SetupStep::HideWindow),
                _ => None,
            },
            Variant::WindowsOpenStatus => match position {
                0 => Some(SetupStep::OpenMailbox),
                1 => Some(SetupStep::StartWorker),
                2 => Some(SetupStep::InstallForegroundHook),
                3 => Some(SetupStep::ModuleHandle),
                4 => Some(SetupStep::RegisterWindowClass),
                5 => Some(SetupStep::CreateMessageWindow),
                6 => Some(SetupStep::RegisterKeyboardInput),
                7 => Some(SetupStep::HideWindow),
                _ => None,
            },
        }
    }

    /// The event loop of this variant.
    pub fn loop_kind(self) -> (kind: LoopKind)
        ensures
            kind == loop_kind(self),
    {
        match self {
            Variant::Fcitx5 => LoopKind::Bus,
            Variant::Ibus => LoopKind::Bus,
            Variant::MacOs => LoopKind::RunLoop,
            Variant::WindowsLayout => LoopKind::MessagePump,
            Variant::WindowsOpenStatus => LoopKind::MessagePump,
        }
    }

    /// What this variant undoes once its event loop has ended.
    pub fn cleanup(self) -> (cleanup: Option<Cleanup>)
        ensures
            cleanup == cleanup_of(self),
    {
        match self.loop_kind() {
            LoopKind::Bus => None,
            LoopKind::RunLoop => Some(Cleanup::RemoveObserver),
            LoopKind::MessagePump => Some(Cleanup::RemoveForegroundHook),
        }
    }
}

impl ExitStatus {
    /// The exit code of the process: zero after a clean end, one else.
    pub fn exit_code(self) -> (code: i32)
        ensures
            code == exit_code_of(self),
    {
        match self {
            ExitStatus::Clean => 0,
            ExitStatus::Failed(_) => 1,
        }
    }
}

/// The driver of one program variant.
pub struct Driver {
    variant: Variant,
    stage: DriverStage,
}

impl Driver {
    #[verifier::type_invariant]
    spec fn fits(self) -> bool {
        stage_fits(self.variant, self.stage)
    }

    /// The variant this driver runs.
    pub closed spec fn variant(&self) -> Variant {
        self.variant
    }

    /// Where this driver stands.
    pub closed spec fn stage(&self) -> DriverStage {
        self.stage
    }

    /// A driver before its first setup step.
    pub fn new(variant: Variant) -> (driver: Driver)
        ensures
            driver.variant() == variant,
            driver.stage() == DriverStage::Setup(0),
    {
        Driver { variant, stage: DriverStage::Setup(0) }
    }

    /// The request the runner has to perform next.
    pub fn request(&self) -> (request: DriverRequest)
        ensures
            stage_fits(self.variant(), self.stage()),
            request == request_of(self.variant(), self.stage()),
    {
        proof {
            use_type_invariant(self);
        }
        match self.stage {
            DriverStage::Setup(position) => match self.variant.setup_step(position) {
                Some(step) => DriverRequest::Setup(step),
                None => DriverRequest::Exit(
                    ExitStatus::Failed(DriverError::UnexpectedAnswer),
                ),
            },
            DriverStage::Pumping => match self.variant.loop_kind() {
                LoopKind::Bus => DriverRequest::ProcessBus { timeout_ms: BUS_POLL_MS },
                LoopKind::RunLoop => DriverRequest::RunLoopOnce { timeout_ms: RUN_LOOP_SLICE_MS },
                LoopKind::MessagePump => DriverRequest::NextMessage,
            },
            DriverStage::Dispatching => DriverRequest::DispatchMessage,
            DriverStage::CleaningUp => match self.variant.cleanup() {
                Some(cleanup) => DriverRequest::Cleanup(cleanup),
                None => DriverRequest::Exit(ExitStatus::Clean),
            },
            DriverStage::Exited(status) => DriverRequest::Exit(status),
        }
    }

    /// Takes the answer to the request that [`Driver::request`] named.
    pub fn answer(&mut self, answer: DriverAnswer)
        ensures
            final(self).variant() == old(self).variant(),
            final(self).stage() == stage_after(old(self).variant(), old(self).stage(), answer),
    {
        proof {
            use_type_invariant(&*self);
        }
        let unexpected = DriverStage::Exited(ExitStatus::Failed(DriverError::UnexpectedAnswer));
        let after_loop = match self.variant.cleanup() {
            Some(_) => DriverStage::CleaningUp,
            None => DriverStage::Exited(ExitStatus::Clean),
        };
        let next = match self.stage {
            DriverStage::Exited(status) => DriverStage::Exited(status),
            DriverStage::Setup(position) => match answer {
                DriverAnswer::Succeeded => if position + 1 < self.variant.setup_len() {
                    DriverStage::Setup(position + 1)
                } else {
                    DriverStage::Pumping
                },
                DriverAnswer::Failed => match self.variant.setup_step(position) {
                    Some(step) => DriverStage::Exited(ExitStatus::Failed(DriverError::Setup(step))),
                    None => unexpected,
                },
                _ => unexpected,
            },
            DriverStage::Pumping => match self.variant.loop_kind() {
                LoopKind::Bus => match answer {
                    DriverAnswer::Succeeded => DriverStage::Pumping,
                    DriverAnswer::Failed => DriverStage::Exited(
                        ExitStatus::Failed(DriverError::Dispatch),
                    ),
                    _ => unexpected,
                },
                LoopKind::RunLoop => match answer {
                    DriverAnswer::RunLoop(result) => match result {
                        RunLoopResult::Stopped => after_loop,
                        _ => DriverStage::Pumping,
                    },
                    _ => unexpected,
                },
                LoopKind::MessagePump => match answer {
                    DriverAnswer::Message(fetched) => if fetched != 0 {
                        DriverStage::Dispatching
                    } else {
                        after_loop
                    },
                    _ => unexpected,
                },
            },
            DriverStage::Dispatching => match answer {
                DriverAnswer::Succeeded => DriverStage::Pumping,
                _ => unexpected,
            },
            DriverStage::CleaningUp => match answer {
                DriverAnswer::Succeeded => DriverStage::Exited(ExitStatus::Clean),
                DriverAnswer::Failed => DriverStage::Exited(ExitStatus::Clean),
                _ => unexpected,
            },
        };
        self.stage = next;
    }

    /// How the driver ended, once it is over.
    pub fn exit_status(&self) -> (status: Option<ExitStatus>)
        ensures
            status == match self.stage() {
                DriverStage::Exited(s) => Some(s),
                _ => None::<ExitStatus>,
            },
    {
        match self.stage {
            DriverStage::Exited(status) => Some(status),
            _ => None,
        }
    }
}

/// No answer takes a driver to a stage that does not fit its variant.
pub proof fn lemma_stage_stays_fitting(variant: Variant, stage: DriverStage, answer: DriverAnswer)
    requires
        stage_fits(variant, stage),
    ensures
        stage_fits(variant, stage_after(variant, stage, answer)),
{
}

/// A driver that is still setting up after `answers` has had every one of
/// them answered with success, and stands at the step after them.
pub proof fn lemma_setup_in_order(variant: Variant, answers: Seq<DriverAnswer>, position: usize)
    requires
        stage_after_all(variant, DriverStage::Setup(0), answers) == DriverStage::Setup(position),
    ensures
        position == answers.len(),
        forall|i: int| 0 <= i < answers.len() ==> answers[i] == DriverAnswer::Succeeded,
    decreases answers.len(),
{
    if answers.len() > 0 {
        let before = stage_after_all(variant, DriverStage::Setup(0), answers.drop_last());
        match before {
            DriverStage::Setup(earlier) => {
                lemma_setup_in_order(variant, answers.drop_last(), earlier);
                assert forall|i: int| 0 <= i < answers.len() implies answers[i]
                    == DriverAnswer::Succeeded by {
                    if i < answers.len() - 1 {
                        assert(answers.drop_last()[i] == answers[i]);
                    }
                }
            },
            _ => {},
        }
    }
}

/// The event loop is entered only after setup: a driver that has entered
/// its event loop, or gone beyond it to clean up or end cleanly, was told
/// that each step of its plan succeeded, in order, before anything else.
pub proof fn lemma_loop_follows_setup(variant: Variant, answers: Seq<DriverAnswer>)
    requires
        ({
            let stage = stage_after_all(variant, DriverStage::Setup(0), answers);
            in_event_loop(stage) || stage is CleaningUp || stage == DriverStage::Exited(
                ExitStatus::Clean,
            )
        }),
    ensures
        answers.len() >= setup_plan(variant).len(),
        forall|i: int| 0 <= i < setup_plan(variant).len() ==> answers[i] == DriverAnswer::Succeeded,
    decreases answers.len(),
{
    let plan = setup_plan(variant);
    if answers.len() == 0 {
    } else {
        let earlier = answers.drop_last();
        let before = stage_after_all(variant, DriverStage::Setup(0), earlier);
        match before {
            DriverStage::Setup(position) => {
                lemma_setup_in_order(variant, earlier, position);
                assert(position + 1 == plan.len());
                assert(answers.last() == DriverAnswer::Succeeded);
                assert forall|i: int| 0 <= i < plan.len() implies answers[i]
                    == DriverAnswer::Succeeded by {
                    if i < earlier.len() {
                        assert(earlier[i] == answers[i]);
                    }
                }
            },
            DriverStage::Exited(status) => {
                assert(status == ExitStatus::Clean);
                lemma_loop_follows_setup(variant, earlier);
                assert forall|i: int| 0 <= i < plan.len() implies answers[i]
                    == DriverAnswer::Succeeded by {
                    assert(earlier[i] == answers[i]);
                }
            },
            _ => {
                lemma_loop_follows_setup(variant, earlier);
                assert forall|i: int| 0 <= i < plan.len() implies answers[i]
                    == DriverAnswer::Succeeded by {
                    assert(earlier[i] == answers[i]);
                }
            },
        }
    }
}

/// A setup step that fails is fatal: when the steps before it succeeded and
/// it did not, the driver is over with that step's error, and nothing it is
/// told afterwards brings it into the event loop.
pub proof fn lemma_failed_setup_is_fatal(
    variant: Variant,
    position: usize,
    later: Seq<DriverAnswer>,
)
    requires
        position < setup_plan(variant).len(),
    ensures
        ({
            let answers = Seq::new(position as nat, |i: int| DriverAnswer::Succeeded).push(
                DriverAnswer::Failed,
            );
            let failed = DriverStage::Exited(
                ExitStatus::Failed(DriverError::Setup(setup_plan(variant)[position as int])),
            );
            &&& stage_after_all(variant, DriverStage::Setup(0), answers) == failed
            &&& stage_after_all(variant, failed, later) == failed
            &&& exit_code_of(failed->Exited_0) != 0
        }),
{
    let succeeded = Seq::new(position as nat, |i: int| DriverAnswer::Succeeded);
    let answers = succeeded.push(DriverAnswer::Failed);
    let failed = DriverStage::Exited(
        ExitStatus::Failed(DriverError::Setup(setup_plan(variant)[position as int])),
    );
    lemma_successes_advance(variant, position);
    assert(answers.drop_last() =~= succeeded);
    lemma_exit_is_final(variant, ExitStatus::Failed(
        DriverError::Setup(setup_plan(variant)[position as int]),
    ), later);
}

/// After `count` successful setup steps the driver waits on the next one.
pub proof fn lemma_successes_advance(variant: Variant, count: usize)
    requires
        count < setup_plan(variant).len(),
    ensures
        stage_after_all(
            variant,
            DriverStage::Setup(0),
            Seq::new(count as nat, |i: int| DriverAnswer::Succeeded),
        ) == DriverStage::Setup(count),
    decreases count,
{
    let answers = Seq::new(count as nat, |i: int| DriverAnswer::Succeeded);
    if count > 0 {
        let fewer = (count - 1) as usize;
        lemma_successes_advance(variant, fewer);
        assert(answers.drop_last() =~= Seq::new(fewer as nat, |i: int| DriverAnswer::Succeeded));
        assert(answers.last() == DriverAnswer::Succeeded);
    }
}

/// A driver that is over stays over, with the same status.
pub proof fn lemma_exit_is_final(variant: Variant, status: ExitStatus, answers: Seq<DriverAnswer>)
    ensures
        stage_after_all(variant, DriverStage::Exited(status), answers) == DriverStage::Exited(
            status,
        ),
    decreases answers.len(),
{
    if answers.len() > 0 {
        lemma_exit_is_final(variant, status, answers.drop_last());
    }
}

} // verus!
