//! The choice of a port for code-server.
//!
//! A few familiar ports are tried first. Windows may have reserved any of them,
//! so when all are refused the operating system picks one.

use vstd::prelude::*;

use crate::text;

verus! {

/// The first of the ports that are tried before the operating system picks one.
pub const FIRST_PREFERRED: u16 = 8080;

/// How many ports are tried, from [`FIRST_PREFERRED`] upwards.
pub const PREFERRED_COUNT: u16 = 6;

/// What binding a listener came to. A listener that was bound reports its local
/// port, or why it has none.
#[derive(Debug)]
pub enum BindReport {
    Bound(Result<u16, String>),
    Refused(String),
}

/// What a [`BindReport`] says.
pub enum Binding {
    Bound(Result<u16, Seq<char>>),
    Refused(Seq<char>),
}

impl View for BindReport {
    type V = Binding;

    open spec fn view(&self) -> Binding {
        match *self {
            BindReport::Bound(Ok(port)) => Binding::Bound(Ok(port)),
            BindReport::Bound(Err(reason)) => Binding::Bound(Err(reason@)),
            BindReport::Refused(reason) => Binding::Refused(reason@),
        }
    }
}

/// Where a scan stands after a report.
pub enum ScanState {
    Searching(nat),
    Found(u16),
    Failed(Seq<char>),
}

/// The port to bind after `refused` preferred ports were refused. Port 0 asks the
/// operating system for any free port.
pub open spec fn port_to_try(refused: nat) -> u16 {
    if refused < PREFERRED_COUNT {
        (FIRST_PREFERRED + refused) as u16
    } else {
        0
    }
}

/// What a report on [`port_to_try`] leads to.
pub open spec fn scan_step(refused: nat, report: Binding) -> ScanState {
    match report {
        Binding::Bound(local) => if refused < PREFERRED_COUNT {
            ScanState::Found(port_to_try(refused))
        } else {
            match local {
                Ok(port) => ScanState::Found(port),
                Err(reason) => ScanState::Failed("failed to get local addr: "@ + reason),
            }
        },
        Binding::Refused(reason) => if refused < PREFERRED_COUNT {
            ScanState::Searching(refused + 1)
        } else {
            ScanState::Failed("failed to bind to any port: "@ + reason)
        },
    }
}

/// The ports 8080 to 8085 are tried one after the other, and after them any free port,
/// which is asked for as port 0.
pub proof fn law_ports_are_tried_in_order(refused: nat)
    ensures
        refused < 6 ==> port_to_try(refused) == 8080 + refused,
        refused >= 6 ==> port_to_try(refused) == 0,
{
}

/// What a report leads to, whatever it says besides: a preferred port that was bound is
/// found, whatever its listener says of itself, and one that was refused is followed by the
/// next candidate. Where the operating system picks, its port is found, and each of its two
/// failures ends the scan with its reason.
pub proof fn law_reports_are_judged_by_candidate(refused: nat, local: Result<u16, String>, port: u16, reason: String)
    ensures
        refused < 6 ==> scan_step(refused, BindReport::Bound(local)@) == ScanState::Found((8080 + refused) as u16),
        refused < 6 ==> scan_step(refused, BindReport::Refused(reason)@) == ScanState::Searching(refused + 1),
        refused >= 6 ==> scan_step(refused, BindReport::Bound(Ok(port))@) == ScanState::Found(port),
        refused >= 6 ==> scan_step(refused, BindReport::Bound(Err(reason))@) == ScanState::Failed(
            "failed to get local addr: "@ + reason@,
        ),
        refused >= 6 ==> scan_step(refused, BindReport::Refused(reason)@) == ScanState::Failed(
            "failed to bind to any port: "@ + reason@,
        ),
{
}

/// The end of a scan, where `answer` says what binding each port comes to.
pub open spec fn scan(refused: nat, answer: spec_fn(u16) -> Binding) -> ScanState
    decreases PREFERRED_COUNT + 1 - refused,
{
    match scan_step(refused, answer(port_to_try(refused))) {
        ScanState::Searching(next) => scan(next, answer),
        end => end,
    }
}

/// The lowest preferred port that can be bound wins.
pub proof fn law_lowest_free_preferred_port_wins(answer: spec_fn(u16) -> Binding, port: u16)
    requires
        FIRST_PREFERRED <= port < FIRST_PREFERRED + PREFERRED_COUNT,
        answer(port) is Bound,
        forall|lower: u16| FIRST_PREFERRED <= lower < port ==> #[trigger] answer(lower) is Refused,
    ensures
        scan(0, answer) == ScanState::Found(port),
{
    lemma_scan_reaches(answer, (port - FIRST_PREFERRED) as nat, 0);
}

/// When no preferred port can be bound, the operating system decides: its port is
/// taken, and its refusal is the only failure of a scan.
pub proof fn law_system_port_is_the_last_resort(answer: spec_fn(u16) -> Binding)
    requires
        forall|port: u16|
            FIRST_PREFERRED <= port < FIRST_PREFERRED + PREFERRED_COUNT ==> #[trigger] answer(port) is Refused,
    ensures
        scan(0, answer) == match answer(0) {
            Binding::Bound(Ok(port)) => ScanState::Found(port),
            Binding::Bound(Err(reason)) => ScanState::Failed("failed to get local addr: "@ + reason),
            Binding::Refused(reason) => ScanState::Failed("failed to bind to any port: "@ + reason),
        },
{
    lemma_scan_reaches(answer, PREFERRED_COUNT as nat, 0);
}

/// A scan passes over the ports that are refused.
proof fn lemma_scan_reaches(answer: spec_fn(u16) -> Binding, refused: nat, from: nat)
    requires
        from <= refused <= PREFERRED_COUNT,
        forall|lower: u16|
            FIRST_PREFERRED <= lower < FIRST_PREFERRED + refused ==> #[trigger] answer(lower) is Refused,
    ensures
        scan(from, answer) == scan(refused, answer),
    decreases refused - from,
{
    if from < refused {
        assert(answer(port_to_try(from)) is Refused);
        lemma_scan_reaches(answer, refused, from + 1);
    }
}

/// A scan for a free port.
#[derive(Debug)]
pub struct PortScan {
    refused: u16,
}

impl PortScan {
    /// How many preferred ports were refused so far.
    pub closed spec fn refused(self) -> nat {
        self.refused as nat
    }

    /// Begins a scan at the first preferred port.
    pub fn new() -> (scan: PortScan)
        ensures
            scan.refused() == 0,
    {
        PortScan { refused: 0 }
    }

    /// The port to bind next on the loopback interface.
    pub fn candidate(&self) -> (port: u16)
        ensures
            port == port_to_try(self.refused()),
    {
        if self.refused < PREFERRED_COUNT {
            FIRST_PREFERRED + self.refused
        } else {
            0
        }
    }

    /// Takes the outcome of binding the candidate. Returns the end of the scan,
    /// or `None` when the next candidate is to be tried.
    pub fn report(&mut self, report: BindReport) -> (end: Option<Result<u16, String>>)
        ensures
            match scan_step(old(self).refused(), report@) {
                ScanState::Searching(refused) => end is None && final(self).refused() == refused,
                ScanState::Found(port) => end == Some(Ok::<u16, String>(port)) && *final(self) == *old(self),
                ScanState::Failed(reason) => {
                    &&& end matches Some(Err(message))
                    &&& message@ == reason
                    &&& *final(self) == *old(self)
                },
            },
    {
        if self.refused < PREFERRED_COUNT {
            match report {
                BindReport::Bound(_) => Some(Ok(FIRST_PREFERRED + self.refused)),
                BindReport::Refused(_) => {
                    self.refused = self.refused + 1;
                    None
                },
            }
        } else {
            match report {
                BindReport::Bound(Ok(port)) => Some(Ok(port)),
                BindReport::Bound(Err(reason)) => {
                    Some(Err(text::joined("failed to get local addr: ", reason.as_str())))
                },
                BindReport::Refused(reason) => {
                    Some(Err(text::joined("failed to bind to any port: ", reason.as_str())))
                },
            }
        }
    }
}

} // verus!
