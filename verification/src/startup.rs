//! The course of a start, from the data directory to the running code-server, and its
//! end when the window closes.

use vstd::prelude::*;

use crate::text;

verus! {

/// The environment variable that passes flags to the web view.
pub const WEBVIEW_ARGUMENTS_VARIABLE: &'static str = "WEBVIEW2_ADDITIONAL_BROWSER_ARGUMENTS";

/// Flags that keep the web view small: no memory pressure detection, no shader cache on
/// disk, no occlusion tracking, and a capped heap.
pub const WEBVIEW_ARGUMENTS: &'static str = "--memory-pressure-off --disable-gpu-shader-disk-cache --disable-features=CalculateNativeWinOcclusion --js-flags=--max-old-space-size=256";

/// The label of the window.
pub const MAIN_WINDOW: &'static str = "main";

/// How far a start has come: what is to be done next. The number is the port that was
/// found.
#[derive(Debug, Clone, Copy, PartialEq, Eq, Structural)]
pub enum StartupStage {
    /// Create the data directory. The start goes on if that fails.
    CreateDataDir,
    /// Open the log. The start goes on without a log if that fails.
    OpenLog,
    /// Look up the configuration of the window.
    FindWindowConfig,
    BuildWindow,
    FindPort,
    FindSidecar(u16),
    Provision(u16),
    /// Open the log for the output of code-server.
    OpenServerLog(u16),
    SpawnServer(u16),
    /// code-server was started.
    Serving(u16),
    /// The window is there and shows why code-server is not.
    Halted,
    /// There is no window.
    Refused,
}

/// What came of a [`StartupStage`].
#[derive(Debug)]
pub enum StartupAnswer {
    Outcome(Result<(), String>),
    /// Whether there is a configuration.
    Configured(bool),
    Port(Result<u16, String>),
}

/// What a [`StartupAnswer`] says.
pub enum StartupEvent {
    Outcome(Result<(), Seq<char>>),
    Configured(bool),
    Port(Result<u16, Seq<char>>),
}

impl View for StartupAnswer {
    type V = StartupEvent;

    open spec fn view(&self) -> StartupEvent {
        match *self {
            StartupAnswer::Outcome(Ok(_)) => StartupEvent::Outcome(Ok(())),
            StartupAnswer::Outcome(Err(reason)) => StartupEvent::Outcome(Err(reason@)),
            StartupAnswer::Configured(yes) => StartupEvent::Configured(yes),
            StartupAnswer::Port(Ok(port)) => StartupEvent::Port(Ok(port)),
            StartupAnswer::Port(Err(reason)) => StartupEvent::Port(Err(reason@)),
        }
    }
}

/// What a failed start has to say.
#[derive(Debug)]
pub enum StartupNotice {
    Nothing,
    /// A message for the splash page, and one for the log.
    ShowError { message: String, log: String },
    /// The reason why the start is given up.
    Refuse(String),
}

/// What a [`StartupNotice`] says.
pub enum Announcement {
    Nothing,
    ShowError { message: Seq<char>, log: Seq<char> },
    Refuse(Seq<char>),
}

impl View for StartupNotice {
    type V = Announcement;

    open spec fn view(&self) -> Announcement {
        match *self {
            StartupNotice::Nothing => Announcement::Nothing,
            StartupNotice::ShowError { message, log } => Announcement::ShowError {
                message: message@,
                log: log@,
            },
            StartupNotice::Refuse(reason) => Announcement::Refuse(reason@),
        }
    }
}

/// The stage after one that succeeded, for the stages that know no port or keep the
/// one they know.
pub open spec fn stage_on_success(stage: StartupStage) -> StartupStage {
    match stage {
        StartupStage::BuildWindow => StartupStage::FindPort,
        StartupStage::FindSidecar(port) => StartupStage::Provision(port),
        StartupStage::Provision(port) => StartupStage::OpenServerLog(port),
        StartupStage::OpenServerLog(port) => StartupStage::SpawnServer(port),
        StartupStage::SpawnServer(port) => StartupStage::Serving(port),
        _ => stage,
    }
}

/// What is said when code-server cannot be started.
pub open spec fn startup_error(reason: Seq<char>) -> Announcement {
    Announcement::ShowError { message: "Startup error: "@ + reason, log: "FATAL: "@ + reason }
}

/// Where a failure of a stage leads, and what it has to say.
pub open spec fn on_failure(stage: StartupStage, reason: Seq<char>) -> (StartupStage, Announcement) {
    match stage {
        StartupStage::BuildWindow => (
            StartupStage::Refused,
            Announcement::Refuse("failed to create main window: "@ + reason),
        ),
        StartupStage::FindPort => (
            StartupStage::Halted,
            Announcement::ShowError {
                message: "Cannot find a free network port: "@ + reason,
                log: "FATAL: cannot find free port: "@ + reason,
            },
        ),
        StartupStage::FindSidecar(_) => (StartupStage::Halted, startup_error(reason)),
        StartupStage::Provision(_) => (StartupStage::Halted, startup_error(reason)),
        StartupStage::OpenServerLog(_) => (
            StartupStage::Halted,
            startup_error("failed to open log file for code-server stdout: "@ + reason),
        ),
        StartupStage::SpawnServer(_) => (
            StartupStage::Halted,
            startup_error("failed to spawn code-server: "@ + reason),
        ),
        _ => (stage, Announcement::Nothing),
    }
}

/// What an answer leads to. An answer to something else than the stage changes nothing.
pub open spec fn startup_step(stage: StartupStage, event: StartupEvent) -> (StartupStage, Announcement) {
    match (stage, event) {
        (StartupStage::CreateDataDir, StartupEvent::Outcome(_)) => (
            StartupStage::OpenLog,
            Announcement::Nothing,
        ),
        (StartupStage::OpenLog, StartupEvent::Outcome(_)) => (
            StartupStage::FindWindowConfig,
            Announcement::Nothing,
        ),
        (StartupStage::FindWindowConfig, StartupEvent::Configured(true)) => (
            StartupStage::BuildWindow,
            Announcement::Nothing,
        ),
        (StartupStage::FindWindowConfig, StartupEvent::Configured(false)) => (
            StartupStage::Refused,
            Announcement::Refuse("no window config in tauri.conf.json"@),
        ),
        (StartupStage::FindPort, StartupEvent::Port(Ok(port))) => (
            StartupStage::FindSidecar(port),
            Announcement::Nothing,
        ),
        (StartupStage::FindPort, StartupEvent::Port(Err(reason))) => on_failure(stage, reason),
        (StartupStage::FindPort, StartupEvent::Outcome(_)) => (stage, Announcement::Nothing),
        (_, StartupEvent::Outcome(Ok(_))) => (stage_on_success(stage), Announcement::Nothing),
        (_, StartupEvent::Outcome(Err(reason))) => on_failure(stage, reason),
        _ => (stage, Announcement::Nothing),
    }
}

/// Whether a start is over.
pub open spec fn is_over(stage: StartupStage) -> bool {
    stage is Serving || stage is Halted || stage is Refused
}

/// The port that a stage has to do with.
pub open spec fn port_of(stage: StartupStage) -> Option<u16> {
    match stage {
        StartupStage::FindSidecar(port) => Some(port),
        StartupStage::Provision(port) => Some(port),
        StartupStage::OpenServerLog(port) => Some(port),
        StartupStage::SpawnServer(port) => Some(port),
        StartupStage::Serving(port) => Some(port),
        _ => None,
    }
}

/// The events of a start in which everything succeeds, whether or not there is a data
/// directory and a log.
pub open spec fn smooth_events(
    data_dir: Result<(), Seq<char>>,
    log: Result<(), Seq<char>>,
    port: u16,
) -> Seq<StartupEvent> {
    seq![
        StartupEvent::Outcome(data_dir),
        StartupEvent::Outcome(log),
        StartupEvent::Configured(true),
        StartupEvent::Outcome(Ok(())),
        StartupEvent::Port(Ok(port)),
        StartupEvent::Outcome(Ok(())),
        StartupEvent::Outcome(Ok(())),
        StartupEvent::Outcome(Ok(())),
        StartupEvent::Outcome(Ok(())),
    ]
}

/// The stage that a start reaches through some events.
pub open spec fn stage_through(events: Seq<StartupEvent>) -> StartupStage
    decreases events.len(),
{
    if events.len() == 0 {
        StartupStage::CreateDataDir
    } else {
        startup_step(stage_through(events.drop_last()), events.last()).0
    }
}

/// A start in which everything succeeds ends with code-server on the port that was
/// found. Neither a missing data directory nor a missing log prevents that.
pub proof fn law_smooth_start_serves(
    data_dir: Result<(), Seq<char>>,
    log: Result<(), Seq<char>>,
    port: u16,
)
    ensures
        stage_through(smooth_events(data_dir, log, port)) == StartupStage::Serving(port),
{
    let events = smooth_events(data_dir, log, port);
    let stages = seq![
        StartupStage::CreateDataDir,
        StartupStage::OpenLog,
        StartupStage::FindWindowConfig,
        StartupStage::BuildWindow,
        StartupStage::FindPort,
        StartupStage::FindSidecar(port),
        StartupStage::Provision(port),
        StartupStage::OpenServerLog(port),
        StartupStage::SpawnServer(port),
        StartupStage::Serving(port),
    ];
    lemma_stages(events, stages, 9);
    assert(events.take(9) =~= events);
}

proof fn lemma_stages(events: Seq<StartupEvent>, stages: Seq<StartupStage>, n: int)
    requires
        0 <= n <= events.len(),
        stages.len() == events.len() + 1,
        stages[0] == StartupStage::CreateDataDir,
        forall|i: int| 0 <= i < events.len() ==> startup_step(stages[i], #[trigger] events[i]).0 == stages[i + 1],
    ensures
        stage_through(events.take(n)) == stages[n],
    decreases n,
{
    if n > 0 {
        lemma_stages(events, stages, n - 1);
        assert(events.take(n).drop_last() =~= events.take(n - 1));
        assert(events.take(n).last() == events[n - 1]);
    }
}

/// A start that is over changes no more and says no more.
pub proof fn law_end_of_start_is_final(stage: StartupStage, event: StartupEvent)
    requires
        is_over(stage),
    ensures
        startup_step(stage, event) == (stage, Announcement::Nothing),
{
}

/// A start says something exactly when it ends without code-server: on the splash page
/// where there is a window, and otherwise as the reason for giving up.
pub proof fn law_failures_are_announced(stage: StartupStage, event: StartupEvent)
    requires
        !is_over(stage),
    ensures
        startup_step(stage, event).1 is ShowError <==> startup_step(stage, event).0 is Halted,
        startup_step(stage, event).1 is Refuse <==> startup_step(stage, event).0 is Refused,
{
}

/// Once a port is found it does not change.
pub proof fn law_port_is_kept(stage: StartupStage, event: StartupEvent)
    requires
        port_of(stage) is Some,
        port_of(startup_step(stage, event).0) is Some,
    ensures
        port_of(startup_step(stage, event).0) == port_of(stage),
{
}

/// How many stages come before one in a start that succeeds.
pub open spec fn stages_before(stage: StartupStage) -> int {
    match stage {
        StartupStage::CreateDataDir => 0,
        StartupStage::OpenLog => 1,
        StartupStage::FindWindowConfig => 2,
        StartupStage::BuildWindow => 3,
        StartupStage::FindPort => 4,
        StartupStage::FindSidecar(_) => 5,
        StartupStage::Provision(_) => 6,
        StartupStage::OpenServerLog(_) => 7,
        StartupStage::SpawnServer(_) => 8,
        StartupStage::Serving(_) => 9,
        _ => -1,
    }
}

/// Whether an event tells of a failure.
pub open spec fn is_failure(event: StartupEvent) -> bool {
    match event {
        StartupEvent::Outcome(outcome) => outcome is Err,
        StartupEvent::Configured(yes) => !yes,
        StartupEvent::Port(found) => found is Err,
    }
}

/// A start goes from stage to stage and skips none, and from the window on it does so
/// only by success. So code-server is started only when there is a window and a port,
/// when its files were found and when the data directory is prepared.
pub proof fn law_no_stage_is_skipped(stage: StartupStage, event: StartupEvent)
    requires
        startup_step(stage, event).0 != stage,
        startup_step(stage, event).0 !is Halted,
        startup_step(stage, event).0 !is Refused,
    ensures
        stages_before(startup_step(stage, event).0) == stages_before(stage) + 1,
        stages_before(stage) >= 2 ==> !is_failure(event),
{
}

/// Whatever the port and the reason are, a stage that cannot be done without ends the start
/// when it fails, with that reason: without a window the start is refused, and with one the
/// splash page and the log tell what failed.
pub proof fn law_failures_tell_their_reason(port: u16, reason: String)
    ensures
        startup_step(StartupStage::FindWindowConfig, StartupAnswer::Configured(false)@) == (
            StartupStage::Refused,
            Announcement::Refuse("no window config in tauri.conf.json"@),
        ),
        startup_step(StartupStage::BuildWindow, StartupAnswer::Outcome(Err(reason))@) == (
            StartupStage::Refused,
            Announcement::Refuse("failed to create main window: "@ + reason@),
        ),
        startup_step(StartupStage::FindPort, StartupAnswer::Port(Err(reason))@) == (
            StartupStage::Halted,
            Announcement::ShowError {
                message: "Cannot find a free network port: "@ + reason@,
                log: "FATAL: cannot find free port: "@ + reason@,
            },
        ),
        startup_step(StartupStage::FindSidecar(port), StartupAnswer::Outcome(Err(reason))@) == (
            StartupStage::Halted,
            Announcement::ShowError {
                message: "Startup error: "@ + reason@,
                log: "FATAL: "@ + reason@,
            },
        ),
        startup_step(StartupStage::Provision(port), StartupAnswer::Outcome(Err(reason))@) == (
            StartupStage::Halted,
            Announcement::ShowError {
                message: "Startup error: "@ + reason@,
                log: "FATAL: "@ + reason@,
            },
        ),
        startup_step(StartupStage::OpenServerLog(port), StartupAnswer::Outcome(Err(reason))@) == (
            StartupStage::Halted,
            Announcement::ShowError {
                message: "Startup error: "@ + ("failed to open log file for code-server stdout: "@ + reason@),
                log: "FATAL: "@ + ("failed to open log file for code-server stdout: "@ + reason@),
            },
        ),
        startup_step(StartupStage::SpawnServer(port), StartupAnswer::Outcome(Err(reason))@) == (
            StartupStage::Halted,
            Announcement::ShowError {
                message: "Startup error: "@ + ("failed to spawn code-server: "@ + reason@),
                log: "FATAL: "@ + ("failed to spawn code-server: "@ + reason@),
            },
        ),
{
}

/// Whatever the port is, success leads from each stage to the next and says nothing. The
/// data directory and the log are the exceptions: the start goes on without them too.
pub proof fn law_success_leads_on(outcome: Result<(), String>, port: u16)
    ensures
        startup_step(StartupStage::CreateDataDir, StartupAnswer::Outcome(outcome)@) == (
            StartupStage::OpenLog,
            Announcement::Nothing,
        ),
        startup_step(StartupStage::OpenLog, StartupAnswer::Outcome(outcome)@) == (
            StartupStage::FindWindowConfig,
            Announcement::Nothing,
        ),
        startup_step(StartupStage::FindWindowConfig, StartupAnswer::Configured(true)@) == (
            StartupStage::BuildWindow,
            Announcement::Nothing,
        ),
        startup_step(StartupStage::BuildWindow, StartupAnswer::Outcome(Ok(()))@) == (
            StartupStage::FindPort,
            Announcement::Nothing,
        ),
        startup_step(StartupStage::FindPort, StartupAnswer::Port(Ok(port))@) == (
            StartupStage::FindSidecar(port),
            Announcement::Nothing,
        ),
        startup_step(StartupStage::FindSidecar(port), StartupAnswer::Outcome(Ok(()))@) == (
            StartupStage::Provision(port),
            Announcement::Nothing,
        ),
        startup_step(StartupStage::Provision(port), StartupAnswer::Outcome(Ok(()))@) == (
            StartupStage::OpenServerLog(port),
            Announcement::Nothing,
        ),
        startup_step(StartupStage::OpenServerLog(port), StartupAnswer::Outcome(Ok(()))@) == (
            StartupStage::SpawnServer(port),
            Announcement::Nothing,
        ),
        startup_step(StartupStage::SpawnServer(port), StartupAnswer::Outcome(Ok(()))@) == (
            StartupStage::Serving(port),
            Announcement::Nothing,
        ),
{
}

/// What was not asked for changes nothing and says nothing.
pub proof fn law_start_ignores_what_it_did_not_ask(stage: StartupStage, answer: StartupAnswer)
    requires
        answer is Configured ==> stage !is FindWindowConfig,
        answer is Port ==> stage !is FindPort,
        answer is Outcome ==> stage is FindWindowConfig || stage is FindPort || stage is Serving || stage is Halted
            || stage is Refused,
    ensures
        startup_step(stage, answer@) == (stage, Announcement::Nothing),
{
}

/// A notice says the texts that it holds.
pub proof fn law_notices_say_what_they_hold(message: String, log: String)
    ensures
        StartupNotice::Nothing@ == Announcement::Nothing,
        (StartupNotice::ShowError { message, log })@ == (Announcement::ShowError {
            message: message@,
            log: log@,
        }),
        StartupNotice::Refuse(message)@ == Announcement::Refuse(message@),
{
}

/// The window and the variable for the flags of the web view have the names by which they
/// are looked up elsewhere.
pub proof fn law_names_of_the_window()
    ensures
        MAIN_WINDOW@ == "main"@,
        WEBVIEW_ARGUMENTS_VARIABLE@ == "WEBVIEW2_ADDITIONAL_BROWSER_ARGUMENTS"@,
{
}

/// A start under way.
#[derive(Debug)]
pub struct Startup {
    stage: StartupStage,
}

impl Startup {
    /// How far the start has come.
    pub closed spec fn reached(self) -> StartupStage {
        self.stage
    }

    /// Begins a start, once the data directory is chosen.
    pub fn new() -> (startup: Startup)
        ensures
            startup.reached() == StartupStage::CreateDataDir,
    {
        Startup { stage: StartupStage::CreateDataDir }
    }

    /// What is to be done next.
    pub fn stage(&self) -> (stage: StartupStage)
        ensures
            stage == self.reached(),
    {
        self.stage
    }

    /// Takes what came of the stage.
    pub fn report(&mut self, answer: StartupAnswer) -> (notice: StartupNotice)
        ensures
            (final(self).reached(), notice@) == startup_step(old(self).reached(), answer@),
    {
        proof {
            reveal_strlit("");
            assert(forall|reason: Seq<char>| #[trigger] (""@ + reason) =~= reason);
        }
        match answer {
            StartupAnswer::Configured(configured) => match self.stage {
                StartupStage::FindWindowConfig => {
                    if configured {
                        self.stage = StartupStage::BuildWindow;
                        StartupNotice::Nothing
                    } else {
                        self.stage = StartupStage::Refused;
                        StartupNotice::Refuse("no window config in tauri.conf.json".to_owned())
                    }
                },
                _ => StartupNotice::Nothing,
            },
            StartupAnswer::Port(found) => match self.stage {
                StartupStage::FindPort => match found {
                    Ok(port) => {
                        self.stage = StartupStage::FindSidecar(port);
                        StartupNotice::Nothing
                    },
                    Err(reason) => {
                        self.stage = StartupStage::Halted;
                        StartupNotice::ShowError {
                            message: text::joined("Cannot find a free network port: ", reason.as_str()),
                            log: text::joined("FATAL: cannot find free port: ", reason.as_str()),
                        }
                    },
                },
                _ => StartupNotice::Nothing,
            },
            StartupAnswer::Outcome(outcome) => match self.stage {
                StartupStage::CreateDataDir => {
                    self.stage = StartupStage::OpenLog;
                    StartupNotice::Nothing
                },
                StartupStage::OpenLog => {
                    self.stage = StartupStage::FindWindowConfig;
                    StartupNotice::Nothing
                },
                StartupStage::BuildWindow => match outcome {
                    Ok(_) => {
                        self.stage = StartupStage::FindPort;
                        StartupNotice::Nothing
                    },
                    Err(reason) => {
                        self.stage = StartupStage::Refused;
                        StartupNotice::Refuse(
                            text::joined("failed to create main window: ", reason.as_str()),
                        )
                    },
                },
                StartupStage::FindSidecar(port) => {
                    self.go_on(outcome, StartupStage::Provision(port), "")
                },
                StartupStage::Provision(port) => {
                    self.go_on(outcome, StartupStage::OpenServerLog(port), "")
                },
                StartupStage::OpenServerLog(port) => self.go_on(
                    outcome,
                    StartupStage::SpawnServer(port),
                    "failed to open log file for code-server stdout: ",
                ),
                StartupStage::SpawnServer(port) => self.go_on(
                    outcome,
                    StartupStage::Serving(port),
                    "failed to spawn code-server: ",
                ),
                _ => StartupNotice::Nothing,
            },
        }
    }

    /// Goes on to the next stage, or gives code-server up. `head` comes before the reason.
    fn go_on(&mut self, outcome: Result<(), String>, next: StartupStage, head: &str) -> (notice: StartupNotice)
        ensures
            match outcome {
                Ok(_) => final(self).reached() == next && notice@ == Announcement::Nothing,
                Err(reason) => final(self).reached() == StartupStage::Halted && notice@ == startup_error(
                    head@ + reason@,
                ),
            },
    {
        match outcome {
            Ok(_) => {
                self.stage = next;
                StartupNotice::Nothing
            },
            Err(reason) => {
                let reason = text::joined(head, reason.as_str());
                self.stage = StartupStage::Halted;
                StartupNotice::ShowError {
                    message: text::joined("Startup error: ", reason.as_str()),
                    log: text::joined("FATAL: ", reason.as_str()),
                }
            },
        }
    }
}

/// What is stopped on an event of the window, and what is left running. Only the end of
/// the window stops anything.
pub open spec fn on_window_event<C>(destroyed: bool, running: Option<C>) -> (Option<C>, Option<C>) {
    if destroyed {
        (running, None)
    } else {
        (None, running)
    }
}

/// The end of the window stops code-server, and once only.
pub proof fn law_server_is_stopped_once<C>(running: Option<C>, again: bool)
    ensures
        on_window_event(true, running).0 == running,
        on_window_event(again, on_window_event(true, running).1) == (None::<C>, None::<C>),
{
}

/// Events other than the end of the window stop nothing and leave what runs as it is, and
/// whatever happens, what runs is either stopped or left, never both and never neither.
pub proof fn law_only_the_end_of_the_window_stops<C>(destroyed: bool, running: Option<C>)
    ensures
        on_window_event(false, running) == (None::<C>, running),
        on_window_event(true, running) == (running, None::<C>),
        running is Some ==> (on_window_event(destroyed, running).0 is Some <==> destroyed),
        running is Some ==> (on_window_event(destroyed, running).1 is Some <==> !destroyed),
{
}

/// Hands out the process to stop on an event of the window, if there is one.
pub fn process_to_stop<C>(destroyed: bool, running: &mut Option<C>) -> (process: Option<C>)
    ensures
        (process, *final(running)) == on_window_event(destroyed, *old(running)),
{
    if destroyed {
        running.take()
    } else {
        None
    }
}

} // verus!
