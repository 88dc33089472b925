//! From the started code-server to the loaded editor.
//!
//! First the port has to open, then code-server has to answer over it, then the window
//! goes there. The splash page tells how far things are.

use vstd::prelude::*;

use crate::endpoint;
use crate::journal;
use crate::splash;
use crate::text;
use crate::watch;
use crate::watch::{Probe, Watch};

verus! {

/// How far things are.
#[derive(Debug, Clone, Copy, PartialEq, Eq, Structural)]
pub enum ReadinessStage {
    /// The port has to open.
    AwaitPort,
    /// code-server has to answer.
    AwaitAnswer,
    /// The window was sent to code-server.
    Loaded,
    /// The splash page shows why not.
    Failed,
}

/// What the user is told when the port does not open in time.
pub open spec fn port_closed_text() -> Seq<char> {
    "code-server failed to start within "@ + text::decimal(watch::TCP_POLL_TIMEOUT_SECS as nat)
        + "s. Check jogicode.log next to the app."@
}

/// The script that is run when the wait begins.
pub open spec fn opening_text() -> Seq<char> {
    splash::status_script_text("Starting code-server…"@)
}

/// Where the end of a watch leads, and the scripts that are run then.
pub open spec fn readiness_step(port: u16, stage: ReadinessStage, success: bool) -> (
    ReadinessStage,
    Seq<Seq<char>>,
) {
    match stage {
        ReadinessStage::AwaitPort => if success {
            (
                ReadinessStage::AwaitAnswer,
                seq![splash::status_script_text("Code-server port open, checking HTTP…"@)],
            )
        } else {
            (ReadinessStage::Failed, seq![splash::error_script_text(port_closed_text())])
        },
        ReadinessStage::AwaitAnswer => if success {
            (
                ReadinessStage::Loaded,
                seq![splash::status_script_text("Loading IDE…"@), endpoint::navigation_text(port)],
            )
        } else {
            (
                ReadinessStage::Failed,
                seq![
                    splash::error_script_text(
                        "code-server started but HTTP is not responding. Check jogicode.log."@,
                    ),
                ],
            )
        },
        _ => (stage, Seq::empty()),
    }
}

/// All scripts that are run, given how the watch over the port ends and how that over
/// the answer would end.
pub open spec fn all_scripts(port: u16, opens: bool, answers: bool) -> Seq<Seq<char>> {
    let (stage, first) = readiness_step(port, ReadinessStage::AwaitPort, opens);
    seq![opening_text()] + first + (if stage is AwaitAnswer {
        readiness_step(port, stage, answers).1
    } else {
        Seq::empty()
    })
}

/// The window is sent to code-server, and that last, exactly where the port opened and
/// code-server answered.
pub proof fn law_window_waits_for_server(port: u16, opens: bool, answers: bool)
    ensures
        opens && answers ==> all_scripts(port, opens, answers).last() == endpoint::navigation_text(port),
        !(opens && answers) ==> !all_scripts(port, opens, answers).contains(endpoint::navigation_text(port)),
{
    reveal_strlit("var s = document.getElementById('status'); s.textContent = '");
    reveal_strlit(
        "var s = document.getElementById('status'); if (!s.classList.contains('error')) { s.textContent = '",
    );
    reveal_strlit("window.location.href = 'http://");
    let scripts = all_scripts(port, opens, answers);
    if !(opens && answers) {
        assert forall|i: int| 0 <= i < scripts.len() implies #[trigger] scripts[i][0] == 'v' by {}
        assert(endpoint::navigation_text(port)[0] == 'w');
    }
}

/// Whatever the port is, an open port leads to the wait for an answer and an answer to the
/// loaded editor; a watch that fails leads to failure. The loaded editor and failure are
/// the end: no report leads away from them, and none runs a script there.
pub proof fn law_waiting_ends_for_good(port: u16, success: bool)
    ensures
        readiness_step(port, ReadinessStage::AwaitPort, true).0 == ReadinessStage::AwaitAnswer,
        readiness_step(port, ReadinessStage::AwaitAnswer, true).0 == ReadinessStage::Loaded,
        readiness_step(port, ReadinessStage::AwaitPort, false).0 == ReadinessStage::Failed,
        readiness_step(port, ReadinessStage::AwaitAnswer, false).0 == ReadinessStage::Failed,
        readiness_step(port, ReadinessStage::Loaded, success).0 == ReadinessStage::Loaded,
        readiness_step(port, ReadinessStage::Failed, success).0 == ReadinessStage::Failed,
        readiness_step(port, ReadinessStage::Loaded, success).1.len() == 0,
        readiness_step(port, ReadinessStage::Failed, success).1.len() == 0,
{
}

/// The stage that some reports lead to, from the beginning of the wait.
pub open spec fn stage_through(port: u16, reports: Seq<bool>) -> ReadinessStage
    decreases reports.len(),
{
    if reports.len() == 0 {
        ReadinessStage::AwaitPort
    } else {
        readiness_step(port, stage_through(port, reports.drop_last()), reports.last()).0
    }
}

/// All scripts that some reports run, from the beginning of the wait.
pub open spec fn scripts_through(port: u16, reports: Seq<bool>) -> Seq<Seq<char>>
    decreases reports.len(),
{
    if reports.len() == 0 {
        Seq::empty()
    } else {
        scripts_through(port, reports.drop_last()) + readiness_step(
            port,
            stage_through(port, reports.drop_last()),
            reports.last(),
        ).1
    }
}

/// However many reports come, the editor is loaded exactly if the first two were of
/// success, and the wait has failed exactly if one of the first two was not. What comes
/// after the reports that decide changes nothing.
pub proof fn law_first_reports_decide(port: u16, reports: Seq<bool>)
    ensures
        stage_through(port, reports) == ReadinessStage::Loaded <==> reports.len() >= 2 && reports[0] && reports[1],
        stage_through(port, reports) == ReadinessStage::Failed <==> (reports.len() >= 1 && !reports[0]) || (
        reports.len() >= 2 && reports[0] && !reports[1]),
        stage_through(port, reports) == ReadinessStage::AwaitPort <==> reports.len() == 0,
        stage_through(port, reports) == ReadinessStage::AwaitAnswer <==> reports.len() == 1 && reports[0],
    decreases reports.len(),
{
    if reports.len() > 0 {
        law_first_reports_decide(port, reports.drop_last());
    }
}

/// However many reports come, the window is sent to code-server at most once: where the
/// port opened and code-server answered, and with the address of that port; otherwise
/// never.
pub proof fn law_window_moves_at_most_once(port: u16, reports: Seq<bool>, i: int, j: int)
    ensures
        ({
            let scripts = scripts_through(port, reports);
            let navigation = "window.location.href = 'http://127.0.0.1:"@ + text::decimal(port as nat) + "';"@;
            &&& 0 <= i < scripts.len() && 0 <= j < scripts.len() && scripts[i] == navigation && scripts[j]
                == navigation ==> i == j
            &&& scripts.contains(navigation) <==> reports.len() >= 2 && reports[0] && reports[1]
        }),
    decreases reports.len(),
{
    let navigation = "window.location.href = 'http://127.0.0.1:"@ + text::decimal(port as nat) + "';"@;
    endpoint::law_address_is_asked_and_shown(port);
    assert(navigation == endpoint::navigation_text(port));
    reveal_strlit("var s = document.getElementById('status'); s.textContent = '");
    reveal_strlit(
        "var s = document.getElementById('status'); if (!s.classList.contains('error')) { s.textContent = '",
    );
    reveal_strlit("window.location.href = 'http://127.0.0.1:");
    assert(navigation[0] == 'w');
    let scripts = scripts_through(port, reports);
    if reports.len() > 0 {
        let earlier = reports.drop_last();
        let before = scripts_through(port, earlier);
        let stage = stage_through(port, earlier);
        let new = readiness_step(port, stage, reports.last()).1;
        law_first_reports_decide(port, earlier);
        law_window_moves_at_most_once(port, earlier, i, j);
        assert(scripts == before + new);
        assert forall|k: int| 0 <= k < new.len() implies (#[trigger] new[k] == navigation <==> k == 1) by {
            if k == 0 {
                assert(new[0][0] == 'v');
            }
        }
        if before.contains(navigation) {
            let at = before.index_of(navigation);
            assert(scripts[at] == navigation);
            assert(new.len() == 0);
            assert(scripts =~= before);
        } else {
            if new.len() == 2 {
                assert(scripts[before.len() as int + 1] == navigation);
            }
            assert forall|k: int| 0 <= k < scripts.len() && scripts[k] == navigation implies k == before.len() + 1 by {
                if k < before.len() {
                    assert(before.contains(before[k]));
                } else {
                    assert(scripts[k] == new[k - before.len()]);
                }
            }
        }
    }
}

/// What the splash page is told, whatever the port is: each text is shown by the script for
/// a status or for an error, and the window is sent off last.
pub proof fn law_what_the_splash_page_is_told(port: u16)
    ensures
        opening_text() == splash::status_script_text("Starting code-server…"@),
        readiness_step(port, ReadinessStage::AwaitPort, true).1 == seq![
            splash::status_script_text("Code-server port open, checking HTTP…"@),
        ],
        readiness_step(port, ReadinessStage::AwaitPort, false).1 == seq![
            splash::error_script_text(
                "code-server failed to start within 60s. Check jogicode.log next to the app."@,
            ),
        ],
        readiness_step(port, ReadinessStage::AwaitAnswer, true).1 == seq![
            splash::status_script_text("Loading IDE…"@),
            "window.location.href = 'http://127.0.0.1:"@ + text::decimal(port as nat) + "';"@,
        ],
        readiness_step(port, ReadinessStage::AwaitAnswer, false).1 == seq![
            splash::error_script_text(
                "code-server started but HTTP is not responding. Check jogicode.log."@,
            ),
        ],
        watch::TCP_POLL_TIMEOUT_SECS == 60,
        watch::HTTP_HEALTH_TIMEOUT_SECS == 30,
{
    endpoint::law_address_is_asked_and_shown(port);
    lemma_sixty();
    reveal_strlit("code-server failed to start within ");
    reveal_strlit("s. Check jogicode.log next to the app.");
    reveal_strlit("code-server failed to start within 60s. Check jogicode.log next to the app.");
    assert(port_closed_text() =~= "code-server failed to start within 60s. Check jogicode.log next to the app."@);
}

proof fn lemma_sixty()
    ensures
        text::decimal(60) == seq!['6', '0'],
{
    text::law_decimal_grows_by_digits(6, 0);
    text::law_decimal_grows_by_digits(0, 6);
    assert(text::decimal(6).push('0') =~= seq!['6', '0']);
}

/// What the log is told when a watch ends, whatever the port is. Where no watch ends there
/// is nothing to tell.
pub proof fn law_what_the_log_is_told(port: u16, success: bool)
    ensures
        end_messages(port, ReadinessStage::AwaitPort, true) == seq![
            "TCP port "@ + text::decimal(port as nat) + " is open"@,
            "TCP port open, starting HTTP health check…"@,
        ],
        end_messages(port, ReadinessStage::AwaitPort, false) == seq![
            "code-server did not open port "@ + text::decimal(port as nat) + " within 60s"@,
        ],
        end_messages(port, ReadinessStage::AwaitAnswer, true) == seq![
            "HTTP health check passed — code-server is responding"@,
            "navigating webview to code-server on port "@ + text::decimal(port as nat),
        ],
        end_messages(port, ReadinessStage::AwaitAnswer, false) == seq![
            "HTTP health check timed out"@,
            "HTTP health check failed — code-server is listening but not responding to HTTP"@,
        ],
        end_messages(port, ReadinessStage::Loaded, success).len() == 0,
        end_messages(port, ReadinessStage::Failed, success).len() == 0,
{
    lemma_sixty();
    reveal_strlit(" within ");
    reveal_strlit("s");
    reveal_strlit(" within 60s");
    let closed = end_messages(port, ReadinessStage::AwaitPort, false);
    assert(closed[0] =~= "code-server did not open port "@ + text::decimal(port as nat) + " within 60s"@);
}

/// The messages for the log when a watch ends: how it ended, and what comes of that.
pub open spec fn end_messages(port: u16, stage: ReadinessStage, success: bool) -> Seq<Seq<char>> {
    match (stage, success) {
        (ReadinessStage::AwaitPort, true) => seq![
            "TCP port "@ + text::decimal(port as nat) + " is open"@,
            "TCP port open, starting HTTP health check…"@,
        ],
        (ReadinessStage::AwaitPort, false) => seq![
            "code-server did not open port "@ + text::decimal(port as nat) + " within "@ + text::decimal(
                watch::TCP_POLL_TIMEOUT_SECS as nat,
            ) + "s"@,
        ],
        (ReadinessStage::AwaitAnswer, true) => seq![
            "HTTP health check passed — code-server is responding"@,
            "navigating webview to code-server on port "@ + text::decimal(port as nat),
        ],
        (ReadinessStage::AwaitAnswer, false) => seq![
            "HTTP health check timed out"@,
            "HTTP health check failed — code-server is listening but not responding to HTTP"@,
        ],
        _ => Seq::empty(),
    }
}

/// The log says that the port is open exactly if it opened, and that the health check
/// timed out exactly if code-server did not answer.
pub proof fn law_log_tells_how_watches_end(port: u16, success: bool)
    ensures
        journal::watch_message_text(Probe::Tcp, port, success) is Some <==> success,
        success ==> end_messages(port, ReadinessStage::AwaitPort, success)[0]
            == journal::watch_message_text(Probe::Tcp, port, success)->0,
        !success ==> !end_messages(port, ReadinessStage::AwaitPort, success).contains(
            journal::watch_message_text(Probe::Tcp, port, true)->0,
        ),
        end_messages(port, ReadinessStage::AwaitAnswer, success)[0] == journal::watch_message_text(
            Probe::Http,
            port,
            success,
        )->0,
        end_messages(port, ReadinessStage::AwaitAnswer, success).contains("HTTP health check timed out"@)
            <==> !success,
{
    reveal_strlit("TCP port ");
    reveal_strlit("code-server did not open port ");
    reveal_strlit("HTTP health check timed out");
    reveal_strlit("HTTP health check passed — code-server is responding");
    reveal_strlit("navigating webview to code-server on port ");
    if success {
        let timed_out = "HTTP health check timed out"@;
        let passed = "HTTP health check passed — code-server is responding"@;
        let navigating = "navigating webview to code-server on port "@ + text::decimal(port as nat);
        assert(passed.len() != timed_out.len());
        assert(navigating[0] == 'n' && timed_out[0] == 'H');
    } else {
        let open = journal::watch_message_text(Probe::Tcp, port, true)->0;
        let closed = end_messages(port, ReadinessStage::AwaitPort, success)[0];
        assert(open[0] == 'T' && closed[0] == 'c');
        assert(end_messages(port, ReadinessStage::AwaitAnswer, success)[0]
            == "HTTP health check timed out"@);
    }
}

/// The message for the log when the wait begins.
pub open spec fn opening_message_text(port: u16) -> Seq<char> {
    "waiting for TCP port "@ + text::decimal(port as nat) + " to open…"@
}

/// The watch that a stage needs, as what it watches for and how many seconds it lasts.
pub open spec fn watch_at(stage: ReadinessStage) -> Option<(Probe, u64)> {
    match stage {
        ReadinessStage::AwaitPort => Some((Probe::Tcp, watch::TCP_POLL_TIMEOUT_SECS)),
        ReadinessStage::AwaitAnswer => Some((Probe::Http, watch::HTTP_HEALTH_TIMEOUT_SECS)),
        _ => None,
    }
}

/// The port is watched for a minute and the answer for half of that, and both only until
/// they are decided; the log is told which port is waited for, whatever its number is.
pub proof fn law_waits_are_announced_and_limited(port: u16, stage: ReadinessStage)
    ensures
        watch_at(ReadinessStage::AwaitPort) == Some((Probe::Tcp, 60u64)),
        watch_at(ReadinessStage::AwaitAnswer) == Some((Probe::Http, 30u64)),
        watch_at(stage) is None <==> stage == ReadinessStage::Loaded || stage == ReadinessStage::Failed,
        opening_message_text(port).take(21) == "waiting for TCP port "@,
        opening_message_text(port).skip(opening_message_text(port).len() - 9) == " to open…"@,
        text::decimal_value(opening_message_text(port).subrange(21, opening_message_text(port).len() - 9)) == port,
{
    reveal_strlit("waiting for TCP port ");
    reveal_strlit(" to open…");
    let message = opening_message_text(port);
    let number = text::decimal(port as nat);
    text::law_decimal_reads_back(port as nat);
    assert(message.take(21) =~= "waiting for TCP port "@);
    assert(message.skip(message.len() - 9) =~= " to open…"@);
    assert(message.subrange(21, message.len() - 9) =~= number);
}

/// The wait for code-server on a port.
#[derive(Debug)]
pub struct Readiness {
    port: u16,
    stage: ReadinessStage,
}

impl Readiness {
    /// The port of code-server.
    pub closed spec fn port(self) -> u16 {
        self.port
    }

    /// How far things are.
    pub closed spec fn stage(self) -> ReadinessStage {
        self.stage
    }

    /// Begins the wait.
    pub fn new(port: u16) -> (readiness: Readiness)
        ensures
            readiness.port() == port,
            readiness.stage() == ReadinessStage::AwaitPort,
    {
        Readiness { port, stage: ReadinessStage::AwaitPort }
    }

    /// The script to run when the wait begins.
    pub fn opening_script() -> (script: String)
        ensures
            script@ == opening_text(),
    {
        splash::status_script("Starting code-server…")
    }

    /// The watch to carry out now, or `None` when the wait is over.
    pub fn watch(&self) -> (watch: Option<Watch>)
        ensures
            match (watch, watch_at(self.stage())) {
                (Some(watch), Some((probe, secs))) => watch.probe() == probe && watch.timeout_secs() == secs,
                (None, None) => true,
                _ => false,
            },
            match self.stage() {
                ReadinessStage::AwaitPort => {
                    &&& watch matches Some(watch)
                    &&& watch.probe() == Probe::Tcp
                    &&& watch.timeout_secs() == watch::TCP_POLL_TIMEOUT_SECS
                    &&& watch.state() == watch::waiting(watch::WatchNeed::Clock)
                },
                ReadinessStage::AwaitAnswer => {
                    &&& watch matches Some(watch)
                    &&& watch.probe() == Probe::Http
                    &&& watch.timeout_secs() == watch::HTTP_HEALTH_TIMEOUT_SECS
                    &&& watch.state() == watch::waiting(watch::WatchNeed::Clock)
                },
                _ => watch is None,
            },
    {
        match self.stage {
            ReadinessStage::AwaitPort => Some(Watch::new(Probe::Tcp, watch::TCP_POLL_TIMEOUT_SECS)),
            ReadinessStage::AwaitAnswer => Some(Watch::new(Probe::Http, watch::HTTP_HEALTH_TIMEOUT_SECS)),
            _ => None,
        }
    }

    /// The message for the log when the wait begins.
    pub fn opening_message(&self) -> (message: String)
        ensures
            message@ == opening_message_text(self.port()),
            message@ == "waiting for TCP port "@ + text::decimal(self.port() as nat) + " to open…"@,
    {
        let mut message = text::joined("waiting for TCP port ", text::to_decimal(self.port as u64).as_str());
        message.append(" to open…");
        message
    }

    /// The messages for the log when the watch ends.
    pub fn messages(&self, success: bool) -> (messages: Vec<String>)
        ensures
            text::texts(messages@) == end_messages(self.port(), self.stage(), success),
    {
        let mut messages: Vec<String> = Vec::new();
        match self.stage {
            ReadinessStage::AwaitPort => {
                match journal::watch_message(Probe::Tcp, self.port, success) {
                    Some(message) => {
                        messages.push(message);
                        messages.push("TCP port open, starting HTTP health check…".to_owned());
                    },
                    None => {
                        let mut message = text::joined(
                            "code-server did not open port ",
                            text::to_decimal(self.port as u64).as_str(),
                        );
                        message.append(" within ");
                        message.append(text::to_decimal(watch::TCP_POLL_TIMEOUT_SECS).as_str());
                        message.append("s");
                        messages.push(message);
                    },
                }
            },
            ReadinessStage::AwaitAnswer => {
                if let Some(message) = journal::watch_message(Probe::Http, self.port, success) {
                    messages.push(message);
                }
                if success {
                    messages.push(
                        text::joined(
                            "navigating webview to code-server on port ",
                            text::to_decimal(self.port as u64).as_str(),
                        ),
                    );
                } else {
                    messages.push(
                        "HTTP health check failed — code-server is listening but not responding to HTTP".to_owned(),
                    );
                }
            },
            _ => {},
        }
        proof {
            assert(text::texts(messages@) =~= end_messages(self.port(), self.stage(), success));
        }
        messages
    }

    /// Takes the end of the watch. Returns the scripts to run then, in order.
    pub fn report(&mut self, success: bool) -> (scripts: Vec<String>)
        ensures
            final(self).port() == old(self).port(),
            (final(self).stage(), scripts@.map_values(|script: String| script@)) == readiness_step(
                old(self).port(),
                old(self).stage(),
                success,
            ),
    {
        let mut scripts: Vec<String> = Vec::new();
        match self.stage {
            ReadinessStage::AwaitPort => {
                if success {
                    self.stage = ReadinessStage::AwaitAnswer;
                    scripts.push(splash::status_script("Code-server port open, checking HTTP…"));
                } else {
                    self.stage = ReadinessStage::Failed;
                    let mut message = text::joined(
                        "code-server failed to start within ",
                        text::to_decimal(watch::TCP_POLL_TIMEOUT_SECS).as_str(),
                    );
                    message.append("s. Check jogicode.log next to the app.");
                    scripts.push(splash::error_script(message.as_str()));
                }
            },
            ReadinessStage::AwaitAnswer => {
                if success {
                    self.stage = ReadinessStage::Loaded;
                    scripts.push(splash::status_script("Loading IDE…"));
                    scripts.push(endpoint::navigation_script(self.port));
                } else {
                    self.stage = ReadinessStage::Failed;
                    scripts.push(
                        splash::error_script(
                            "code-server started but HTTP is not responding. Check jogicode.log.",
                        ),
                    );
                }
            },
            _ => {},
        }
        proof {
            assert(scripts@.map_values(|script: String| script@) =~= readiness_step(
                old(self).port(),
                old(self).stage(),
                success,
            ).1);
        }
        scripts
    }
}

} // verus!
