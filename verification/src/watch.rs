//! Waiting for code-server to come up.
//!
//! A watch repeats one attempt until it succeeds or the time is over. Before each
//! attempt it looks at the clock, after a failed one it pauses.

use vstd::prelude::*;

use crate::endpoint;

verus! {

/// How long the port may take to open, in seconds.
pub const TCP_POLL_TIMEOUT_SECS: u64 = 60;

/// How long code-server may take to answer once its port is open, in seconds.
pub const HTTP_HEALTH_TIMEOUT_SECS: u64 = 30;

/// How many bytes of a reply are read at a time.
pub const REPLY_LIMIT: usize = 256;

/// How long one read or write of a health check may take, in seconds.
pub const EXCHANGE_TIMEOUT_SECS: u64 = 2;

/// What counts as success: that the port accepts a connection, or that it answers
/// a request with an HTTP response.
#[derive(Debug, Clone, Copy, PartialEq, Eq, Structural)]
pub enum Probe {
    Tcp,
    Http,
}

/// What a watch waits for.
#[derive(Debug, Clone, Copy, PartialEq, Eq, Structural)]
pub enum WatchNeed {
    /// The time since the watch began.
    Clock,
    /// A connection.
    Connect,
    /// The request sent over the connection.
    Send,
    /// The next bytes of the reply.
    Receive,
    /// A pause.
    Pause,
    /// Nothing: the watch is over, with success or without.
    Done(bool),
}

/// An answer to a [`WatchNeed`].
#[derive(Debug)]
pub enum WatchEvent {
    /// The time since the watch began, in nanoseconds.
    Elapsed(u128),
    /// Whether the connection came about.
    Connected(bool),
    /// Whether the request was sent.
    Sent(bool),
    /// The bytes that one read gave, or `None` if it failed.
    Received(Option<Vec<u8>>),
    /// The pause is over.
    Paused,
}

/// What a [`WatchEvent`] says.
pub enum Happening {
    Elapsed(nat),
    Connected(bool),
    Sent(bool),
    Received(Option<Seq<u8>>),
    Paused,
}

impl View for WatchEvent {
    type V = Happening;

    open spec fn view(&self) -> Happening {
        match *self {
            WatchEvent::Elapsed(nanos) => Happening::Elapsed(nanos as nat),
            WatchEvent::Connected(done) => Happening::Connected(done),
            WatchEvent::Sent(done) => Happening::Sent(done),
            WatchEvent::Received(Some(bytes)) => Happening::Received(Some(bytes@)),
            WatchEvent::Received(None) => Happening::Received(None),
            WatchEvent::Paused => Happening::Paused,
        }
    }
}

/// Whether `nanos` nanoseconds are less than `secs` seconds.
pub open spec fn in_time(secs: u64, nanos: nat) -> bool {
    nanos < secs * 1_000_000_000
}

/// Where a watch stands.
pub struct WatchState {
    pub need: WatchNeed,
    /// What was heard over the connection so far.
    pub heard: Seq<u8>,
}

/// A watch that waits for something and has heard nothing.
pub open spec fn waiting(need: WatchNeed) -> WatchState {
    WatchState { need, heard: Seq::empty() }
}

/// What a read leads to. A reply may come in pieces: while what was heard is a beginning
/// of an HTTP response, and the read gave something, there is more to hear.
pub open spec fn after_read(heard: Seq<u8>, bytes: Seq<u8>) -> WatchState {
    if endpoint::status_line_head().is_prefix_of(heard + bytes) {
        waiting(WatchNeed::Done(true))
    } else if bytes.len() > 0 && endpoint::is_unfinished(heard + bytes) {
        WatchState { need: WatchNeed::Receive, heard: heard + bytes }
    } else {
        waiting(WatchNeed::Pause)
    }
}

/// What an event leads to. An event that answers something else than the need changes
/// nothing.
pub open spec fn watch_step(probe: Probe, secs: u64, state: WatchState, event: Happening) -> WatchState {
    match (state.need, event) {
        (WatchNeed::Clock, Happening::Elapsed(nanos)) => if in_time(secs, nanos) {
            waiting(WatchNeed::Connect)
        } else {
            waiting(WatchNeed::Done(false))
        },
        (WatchNeed::Connect, Happening::Connected(true)) => match probe {
            Probe::Tcp => waiting(WatchNeed::Done(true)),
            Probe::Http => waiting(WatchNeed::Send),
        },
        (WatchNeed::Connect, Happening::Connected(false)) => waiting(WatchNeed::Pause),
        (WatchNeed::Send, Happening::Sent(true)) => waiting(WatchNeed::Receive),
        (WatchNeed::Send, Happening::Sent(false)) => waiting(WatchNeed::Pause),
        (WatchNeed::Receive, Happening::Received(Some(bytes))) => after_read(state.heard, bytes),
        (WatchNeed::Receive, Happening::Received(None)) => waiting(WatchNeed::Pause),
        (WatchNeed::Pause, Happening::Paused) => waiting(WatchNeed::Clock),
        _ => state,
    }
}

/// One round of a watch: what the clock shows, and what an attempt would meet.
pub struct Round {
    pub nanos: nat,
    pub connects: bool,
    pub sends: bool,
    /// What the reads over the connection give, until it gives no more.
    pub reads: Seq<Option<Seq<u8>>>,
}

/// The bytes that some reads give, up to the first one that fails or gives nothing.
pub open spec fn stream(reads: Seq<Option<Seq<u8>>>) -> Seq<u8>
    decreases reads.len(),
{
    if reads.len() == 0 {
        Seq::empty()
    } else {
        match reads[0] {
            Some(bytes) => if bytes.len() > 0 {
                bytes + stream(reads.drop_first())
            } else {
                Seq::empty()
            },
            None => Seq::empty(),
        }
    }
}

/// Whether an attempt in this round succeeds.
pub open spec fn succeeds(probe: Probe, round: Round) -> bool {
    match probe {
        Probe::Tcp => round.connects,
        Probe::Http => round.connects && round.sends && endpoint::status_line_head().is_prefix_of(
            stream(round.reads),
        ),
    }
}

/// A watch after some reads.
pub open spec fn after_reads(probe: Probe, secs: u64, state: WatchState, reads: Seq<Option<Seq<u8>>>) -> WatchState
    decreases reads.len(),
{
    if reads.len() == 0 {
        state
    } else {
        after_reads(
            probe,
            secs,
            watch_step(probe, secs, state, Happening::Received(reads[0])),
            reads.drop_first(),
        )
    }
}

/// A watch after a round.
pub open spec fn after_round(probe: Probe, secs: u64, state: WatchState, round: Round) -> WatchState {
    let state = watch_step(probe, secs, state, Happening::Elapsed(round.nanos));
    let state = watch_step(probe, secs, state, Happening::Connected(round.connects));
    let state = watch_step(probe, secs, state, Happening::Sent(round.sends));
    let state = after_reads(probe, secs, state, round.reads);
    let state = watch_step(probe, secs, state, Happening::Received(None));
    watch_step(probe, secs, state, Happening::Paused)
}

/// A new watch after some rounds.
pub open spec fn after_rounds(probe: Probe, secs: u64, rounds: Seq<Round>) -> WatchState
    decreases rounds.len(),
{
    if rounds.len() == 0 {
        waiting(WatchNeed::Clock)
    } else {
        after_round(probe, secs, after_rounds(probe, secs, rounds.drop_last()), rounds.last())
    }
}

/// A watch goes on while every round is in time and none succeeds.
pub proof fn law_watch_goes_on(probe: Probe, secs: u64, rounds: Seq<Round>)
    requires
        forall|i: int|
            0 <= i < rounds.len() ==> in_time(secs, (#[trigger] rounds[i]).nanos) && !succeeds(probe, rounds[i]),
    ensures
        after_rounds(probe, secs, rounds) == waiting(WatchNeed::Clock),
    decreases rounds.len(),
{
    if rounds.len() > 0 {
        let earlier = rounds.drop_last();
        assert forall|i: int| 0 <= i < earlier.len() implies in_time(secs, (#[trigger] earlier[i]).nanos)
            && !succeeds(probe, earlier[i]) by {
            assert(earlier[i] == rounds[i]);
        }
        law_watch_goes_on(probe, secs, earlier);
        assert(rounds.last() == rounds[rounds.len() - 1]);
        lemma_round(probe, secs, rounds.last());
    }
}

/// The first round that succeeds or is too late ends a watch: with success if it
/// is in time, without if it is late. Nothing that follows changes that.
pub proof fn law_first_decisive_round_ends_watch(probe: Probe, secs: u64, rounds: Seq<Round>, k: int)
    requires
        0 <= k < rounds.len(),
        forall|i: int|
            0 <= i < k ==> in_time(secs, (#[trigger] rounds[i]).nanos) && !succeeds(probe, rounds[i]),
        !in_time(secs, rounds[k].nanos) || succeeds(probe, rounds[k]),
    ensures
        after_rounds(probe, secs, rounds) == waiting(WatchNeed::Done(in_time(secs, rounds[k].nanos))),
    decreases rounds.len(),
{
    let earlier = rounds.drop_last();
    if k == rounds.len() - 1 {
        assert forall|i: int| 0 <= i < earlier.len() implies in_time(secs, (#[trigger] earlier[i]).nanos)
            && !succeeds(probe, earlier[i]) by {
            assert(earlier[i] == rounds[i]);
        }
        law_watch_goes_on(probe, secs, earlier);
        lemma_round(probe, secs, rounds.last());
    } else {
        assert(earlier[k] == rounds[k]);
        assert forall|i: int| 0 <= i < k implies in_time(secs, (#[trigger] earlier[i]).nanos)
            && !succeeds(probe, earlier[i]) by {
            assert(earlier[i] == rounds[i]);
        }
        law_first_decisive_round_ends_watch(probe, secs, earlier, k);
        lemma_reads_ignored(probe, secs, after_rounds(probe, secs, earlier), rounds.last().reads);
    }
}

/// A reply counts however it is cut into pieces: only the bytes matter that were read
/// before a read failed or gave nothing.
pub proof fn law_reply_may_come_in_pieces(secs: u64, reads: Seq<Option<Seq<u8>>>)
    ensures
        watch_step(
            Probe::Http,
            secs,
            after_reads(Probe::Http, secs, waiting(WatchNeed::Receive), reads),
            Happening::Received(None),
        ) == if endpoint::status_line_head().is_prefix_of(stream(reads)) {
            waiting(WatchNeed::Done(true))
        } else {
            waiting(WatchNeed::Pause)
        },
{
    lemma_reads(Probe::Http, secs, Seq::empty(), reads);
    assert(Seq::<u8>::empty() + stream(reads) =~= stream(reads));
}

/// What one round does to a watch that looks at the clock.
proof fn lemma_round(probe: Probe, secs: u64, round: Round)
    ensures
        after_round(probe, secs, waiting(WatchNeed::Clock), round) == if !in_time(secs, round.nanos) {
            waiting(WatchNeed::Done(false))
        } else if succeeds(probe, round) {
            waiting(WatchNeed::Done(true))
        } else {
            waiting(WatchNeed::Clock)
        },
{
    lemma_reads_ignored(probe, secs, waiting(WatchNeed::Done(false)), round.reads);
    lemma_reads_ignored(probe, secs, waiting(WatchNeed::Done(true)), round.reads);
    lemma_reads_ignored(probe, secs, waiting(WatchNeed::Pause), round.reads);
    lemma_reads(probe, secs, Seq::empty(), round.reads);
    assert(Seq::<u8>::empty() + stream(round.reads) =~= stream(round.reads));
}

/// Reads change nothing where none is waited for.
proof fn lemma_reads_ignored(probe: Probe, secs: u64, state: WatchState, reads: Seq<Option<Seq<u8>>>)
    requires
        state.need != WatchNeed::Receive,
    ensures
        after_reads(probe, secs, state, reads) == state,
    decreases reads.len(),
{
    if reads.len() > 0 {
        lemma_reads_ignored(probe, secs, state, reads.drop_first());
    }
}

/// What all reads of a connection come to.
proof fn lemma_reads(probe: Probe, secs: u64, heard: Seq<u8>, reads: Seq<Option<Seq<u8>>>)
    requires
        endpoint::is_unfinished(heard),
    ensures
        watch_step(
            probe,
            secs,
            after_reads(probe, secs, WatchState { need: WatchNeed::Receive, heard }, reads),
            Happening::Received(None),
        ) == if endpoint::status_line_head().is_prefix_of(heard + stream(reads)) {
            waiting(WatchNeed::Done(true))
        } else {
            waiting(WatchNeed::Pause)
        },
    decreases reads.len(),
{
    let head = endpoint::status_line_head();
    let state = WatchState { need: WatchNeed::Receive, heard };
    if reads.len() == 0 {
        assert(heard + stream(reads) =~= heard);
    } else {
        let rest = reads.drop_first();
        let next = watch_step(probe, secs, state, Happening::Received(reads[0]));
        lemma_reads_ignored(probe, secs, waiting(WatchNeed::Done(true)), rest);
        lemma_reads_ignored(probe, secs, waiting(WatchNeed::Pause), rest);
        if reads[0] is Some && reads[0]->0.len() > 0 {
            let all = heard + reads[0]->0;
            assert(heard + stream(reads) =~= all + stream(rest));
            if head.is_prefix_of(all) {
                assert((all + stream(rest)).subrange(0, head.len() as int) =~= all.subrange(
                    0,
                    head.len() as int,
                ));
            } else if endpoint::is_unfinished(all) {
                lemma_reads(probe, secs, all, rest);
            } else {
                if head.is_prefix_of(all + stream(rest)) {
                    let n = if all.len() < head.len() { all.len() as int } else { head.len() as int };
                    assert forall|i: int| 0 <= i < n implies head[i] == all[i] by {
                        assert(head[i] == (all + stream(rest)).subrange(0, head.len() as int)[i]);
                    }
                    if all.len() < head.len() {
                        assert(all =~= head.subrange(0, all.len() as int));
                    } else {
                        assert(head =~= all.subrange(0, head.len() as int));
                    }
                }
            }
        } else {
            assert(heard + stream(reads) =~= heard);
            if reads[0] is Some {
                assert(heard + reads[0]->0 =~= heard);
            }
        }
    }
}

/// A watch that lasts `secs` seconds goes on to the next attempt exactly while fewer than
/// that many thousand million nanoseconds have passed, and otherwise ends without success.
/// So it gives up neither early nor late, whatever it watches for and whatever it heard.
pub proof fn law_watch_lasts_its_time(probe: Probe, secs: u64, heard: Seq<u8>, nanos: u128)
    ensures
        ({
            let next = watch_step(
                probe,
                secs,
                WatchState { need: WatchNeed::Clock, heard },
                WatchEvent::Elapsed(nanos)@,
            ).need;
            &&& next == WatchNeed::Connect <==> nanos < secs * 1_000_000_000
            &&& next == WatchNeed::Done(false) <==> nanos >= secs * 1_000_000_000
        }),
{
}

/// An attempt is allowed longer by a watch that lasts longer: what is in time for one is in
/// time for every longer one, and a second more allows exactly a second more.
pub proof fn law_longer_watches_last_longer(probe: Probe, secs: u64, more: u64, nanos: u128)
    requires
        secs + more <= u64::MAX,
        nanos + more * 1_000_000_000 <= u128::MAX,
    ensures
        watch_step(
            probe,
            secs,
            WatchState { need: WatchNeed::Clock, heard: Seq::empty() },
            WatchEvent::Elapsed(nanos)@,
        ) == watch_step(
            probe,
            (secs + more) as u64,
            WatchState { need: WatchNeed::Clock, heard: Seq::empty() },
            WatchEvent::Elapsed((nanos + more * 1_000_000_000) as u128)@,
        ),
{
    assert((secs + more) * 1_000_000_000 == secs * 1_000_000_000 + more * 1_000_000_000);
}

/// A connection ends the watch for an open port with success, and lets the watch for an
/// answer send its request. Without a connection either pauses and then looks at the clock
/// again. The time that a watch lasts does not matter for that.
pub proof fn law_attempts_follow_the_probe(secs: u64, heard: Seq<u8>, probe: Probe)
    ensures
        watch_step(
            Probe::Tcp,
            secs,
            WatchState { need: WatchNeed::Connect, heard },
            WatchEvent::Connected(true)@,
        ).need == WatchNeed::Done(true),
        watch_step(
            Probe::Http,
            secs,
            WatchState { need: WatchNeed::Connect, heard },
            WatchEvent::Connected(true)@,
        ).need == WatchNeed::Send,
        watch_step(
            probe,
            secs,
            WatchState { need: WatchNeed::Connect, heard },
            WatchEvent::Connected(false)@,
        ).need == WatchNeed::Pause,
        watch_step(probe, secs, WatchState { need: WatchNeed::Send, heard }, WatchEvent::Sent(true)@) == (
        WatchState { need: WatchNeed::Receive, heard: Seq::empty() }),
        watch_step(probe, secs, WatchState { need: WatchNeed::Send, heard }, WatchEvent::Sent(false)@).need
            == WatchNeed::Pause,
        watch_step(probe, secs, WatchState { need: WatchNeed::Pause, heard }, WatchEvent::Paused@).need
            == WatchNeed::Clock,
{
}

/// A read ends the watch for an answer with success exactly if what was heard by then
/// begins with the characters `HTTP/`. It is followed by another exactly if it gave
/// something and what was heard is a shorter beginning of those; nothing that was heard is
/// lost then. Any other read, and one that fails, makes the watch pause.
pub proof fn law_answer_begins_like_http(
    probe: Probe,
    secs: u64,
    heard: Seq<u8>,
    bytes: Vec<u8>,
)
    ensures
        ({
            let all = heard + bytes@;
            let next = watch_step(
                probe,
                secs,
                WatchState { need: WatchNeed::Receive, heard },
                WatchEvent::Received(Some(bytes))@,
            );
            let begins = all.len() >= 5 && all[0] == 0x48 && all[1] == 0x54 && all[2] == 0x54 && all[3] == 0x50
                && all[4] == 0x2F;
            let may_begin = 0 < bytes@.len() && all.len() < 5 && (all.len() < 1 || all[0] == 0x48) && (all.len()
                < 2 || all[1] == 0x54) && (all.len() < 3 || all[2] == 0x54) && (all.len() < 4 || all[3] == 0x50);
            &&& next.need == WatchNeed::Done(true) <==> begins
            &&& next.need == WatchNeed::Receive <==> may_begin
            &&& may_begin ==> next.heard == all
            &&& next.need == WatchNeed::Pause <==> !begins && !may_begin
        }),
        watch_step(
            probe,
            secs,
            WatchState { need: WatchNeed::Receive, heard },
            WatchEvent::Received(None)@,
        ).need == WatchNeed::Pause,
{
    let all = heard + bytes@;
    endpoint::law_responses_begin_with_http(all);
}

/// What was not asked for changes nothing, and a watch that is over stays so.
pub proof fn law_watch_ignores_what_it_did_not_ask(
    probe: Probe,
    secs: u64,
    state: WatchState,
    event: WatchEvent,
)
    requires
        !(state.need is Clock && event is Elapsed),
        !(state.need is Connect && event is Connected),
        !(state.need is Send && event is Sent),
        !(state.need is Receive && event is Received),
        !(state.need is Pause && event is Paused),
    ensures
        watch_step(probe, secs, state, event@) == state,
{
}

/// A watch over some rounds, each of which begins with a look at the clock, succeeds
/// exactly if some round finds what is wanted and that round and all before it begin within
/// the time. The clock does not run backwards.
pub proof fn law_watch_succeeds_in_time(probe: Probe, secs: u64, rounds: Seq<Round>, k: int)
    requires
        0 <= k < rounds.len(),
        forall|i: int, j: int| 0 <= i <= j < rounds.len() ==> (#[trigger] rounds[i]).nanos <= (
        #[trigger] rounds[j]).nanos,
        succeeds(probe, rounds[k]),
        forall|i: int| 0 <= i < k ==> !succeeds(probe, #[trigger] rounds[i]),
    ensures
        rounds[k].nanos < secs * 1_000_000_000 ==> after_rounds(probe, secs, rounds).need == WatchNeed::Done(
            true,
        ),
        rounds[k].nanos >= secs * 1_000_000_000 ==> after_rounds(probe, secs, rounds).need == WatchNeed::Done(
            false,
        ),
{
    if rounds[k].nanos < secs * 1_000_000_000 {
        law_first_decisive_round_ends_watch(probe, secs, rounds, k);
    } else {
        let late = lemma_first_late_round(secs, rounds, k);
        law_first_decisive_round_ends_watch(probe, secs, rounds, late);
    }
}

/// Of the rounds that begin too late there is a first.
proof fn lemma_first_late_round(secs: u64, rounds: Seq<Round>, k: int) -> (late: int)
    requires
        0 <= k < rounds.len(),
        !in_time(secs, rounds[k].nanos),
    ensures
        0 <= late <= k,
        !in_time(secs, rounds[late].nanos),
        forall|i: int| 0 <= i < late ==> in_time(secs, (#[trigger] rounds[i]).nanos),
    decreases k,
{
    if exists|i: int| 0 <= i < k && !in_time(secs, (#[trigger] rounds[i]).nanos) {
        let i = choose|i: int| 0 <= i < k && !in_time(secs, (#[trigger] rounds[i]).nanos);
        lemma_first_late_round(secs, rounds, i)
    } else {
        k
    }
}

/// An attempt succeeds for an open port exactly if a connection comes about. For an answer
/// the request has to be sent too, and what is heard until a read fails or gives nothing
/// has to begin with `HTTP/`. A read that fails or gives nothing hides what would follow.
pub proof fn law_what_success_is(round: Round, bytes: Seq<u8>, rest: Seq<Option<Seq<u8>>>)
    ensures
        succeeds(Probe::Tcp, round) <==> round.connects,
        succeeds(Probe::Http, round) <==> round.connects && round.sends && stream(round.reads).len() >= 5 && stream(
            round.reads,
        ).take(5) == seq![0x48u8, 0x54u8, 0x54u8, 0x50u8, 0x2Fu8],
        stream(seq![None] + rest) == Seq::<u8>::empty(),
        stream(seq![Some(Seq::<u8>::empty())] + rest) == Seq::<u8>::empty(),
        bytes.len() > 0 ==> stream(seq![Some(bytes)] + rest) == bytes + stream(rest),
        stream(Seq::empty()) == Seq::<u8>::empty(),
{
    let all = stream(round.reads);
    endpoint::law_responses_begin_with_http(all);
    if all.len() >= 5 {
        let head = seq![0x48u8, 0x54u8, 0x54u8, 0x50u8, 0x2Fu8];
        if all.take(5) == head {
            assert(all.take(5)[0] == all[0] && all.take(5)[1] == all[1] && all.take(5)[2] == all[2]);
            assert(all.take(5)[3] == all[3] && all.take(5)[4] == all[4]);
        }
        if endpoint::status_line_head().is_prefix_of(all) {
            assert(all.take(5) =~= head);
        }
    }
    assert((seq![Some(bytes)] + rest).drop_first() =~= rest);
}

/// How long one connection may take to come about, in seconds.
pub open spec fn connection_limit(probe: Probe) -> u64 {
    match probe {
        Probe::Tcp => 1,
        Probe::Http => 2,
    }
}

/// How long the pause after a failed attempt lasts, in milliseconds.
pub open spec fn pause_length(probe: Probe) -> u64 {
    match probe {
        Probe::Tcp => 500,
        Probe::Http => 1000,
    }
}

/// A watch for an answer allows a connection twice the time that a watch for an open port
/// allows it, and pauses twice as long: a second and half a second for the port. No pause
/// and no connection lasts longer than the exchange may take.
pub proof fn law_limits_of_an_attempt(probe: Probe)
    ensures
        connection_limit(Probe::Tcp) == 1,
        pause_length(Probe::Tcp) == 500,
        connection_limit(Probe::Http) == 2 * connection_limit(Probe::Tcp),
        pause_length(Probe::Http) == 2 * pause_length(Probe::Tcp),
        connection_limit(probe) <= EXCHANGE_TIMEOUT_SECS,
        pause_length(probe) <= 1000 * EXCHANGE_TIMEOUT_SECS,
{
}

/// A read of a reply asks for more than the status line needs to be recognised, and an
/// exchange may take as long as a connection for it.
pub proof fn law_limits_of_an_exchange()
    ensures
        REPLY_LIMIT == 256,
        REPLY_LIMIT >= endpoint::status_line_head().len(),
        EXCHANGE_TIMEOUT_SECS == 2,
{
}

/// A watch over one port.
#[derive(Debug)]
pub struct Watch {
    probe: Probe,
    timeout_secs: u64,
    need: WatchNeed,
    heard: Vec<u8>,
}

impl Watch {
    /// What counts as success.
    pub closed spec fn probe(self) -> Probe {
        self.probe
    }

    /// How long the watch lasts, in seconds.
    pub closed spec fn timeout_secs(self) -> u64 {
        self.timeout_secs
    }

    /// Where the watch stands.
    pub closed spec fn state(self) -> WatchState {
        WatchState { need: self.need, heard: self.heard@ }
    }

    /// Begins a watch.
    pub fn new(probe: Probe, timeout_secs: u64) -> (watch: Watch)
        ensures
            watch.probe() == probe,
            watch.timeout_secs() == timeout_secs,
            watch.state() == waiting(WatchNeed::Clock),
    {
        Watch { probe, timeout_secs, need: WatchNeed::Clock, heard: Vec::new() }
    }

    /// What the watch waits for.
    pub fn need(&self) -> (need: WatchNeed)
        ensures
            need == self.state().need,
    {
        self.need
    }

    /// How long one connection may take to come about, in seconds.
    pub fn connect_timeout_secs(&self) -> (secs: u64)
        ensures
            secs == connection_limit(self.probe()),
            secs == (match self.probe() {
                Probe::Tcp => 1u64,
                Probe::Http => 2u64,
            }),
    {
        match self.probe {
            Probe::Tcp => 1,
            Probe::Http => 2,
        }
    }

    /// How long the pause after a failed attempt lasts, in milliseconds.
    pub fn pause_millis(&self) -> (millis: u64)
        ensures
            millis == pause_length(self.probe()),
            millis == (match self.probe() {
                Probe::Tcp => 500u64,
                Probe::Http => 1000u64,
            }),
    {
        match self.probe {
            Probe::Tcp => 500,
            Probe::Http => 1000,
        }
    }

    /// Takes an event.
    pub fn report(&mut self, event: WatchEvent)
        ensures
            final(self).probe() == old(self).probe(),
            final(self).timeout_secs() == old(self).timeout_secs(),
            final(self).state() == watch_step(
                old(self).probe(),
                old(self).timeout_secs(),
                old(self).state(),
                event@,
            ),
    {
        let ghost heard = self.heard@;
        match (self.need, event) {
            (WatchNeed::Clock, WatchEvent::Elapsed(nanos)) => {
                let limit: u128 = self.timeout_secs as u128 * 1_000_000_000;
                if nanos < limit {
                    self.wait_for(WatchNeed::Connect);
                } else {
                    self.wait_for(WatchNeed::Done(false));
                }
            },
            (WatchNeed::Connect, WatchEvent::Connected(done)) => {
                if !done {
                    self.wait_for(WatchNeed::Pause);
                } else {
                    match self.probe {
                        Probe::Tcp => self.wait_for(WatchNeed::Done(true)),
                        Probe::Http => self.wait_for(WatchNeed::Send),
                    }
                }
            },
            (WatchNeed::Send, WatchEvent::Sent(done)) => {
                if done {
                    self.wait_for(WatchNeed::Receive);
                } else {
                    self.wait_for(WatchNeed::Pause);
                }
            },
            (WatchNeed::Receive, WatchEvent::Received(Some(bytes))) => {
                let mut bytes = bytes;
                let got_some = bytes.len() > 0;
                let ghost read = bytes@;
                self.heard.append(&mut bytes);
                proof {
                    assert(self.heard@ =~= heard + read);
                }
                if endpoint::is_http_response(self.heard.as_slice()) {
                    self.wait_for(WatchNeed::Done(true));
                } else if !(got_some && endpoint::may_become_response(self.heard.as_slice())) {
                    self.wait_for(WatchNeed::Pause);
                }
            },
            (WatchNeed::Receive, WatchEvent::Received(None)) => {
                self.wait_for(WatchNeed::Pause);
            },
            (WatchNeed::Pause, WatchEvent::Paused) => {
                self.wait_for(WatchNeed::Clock);
            },
            _ => {},
        }
    }

    /// Turns to something else and forgets what was heard.
    fn wait_for(&mut self, need: WatchNeed)
        ensures
            final(self).probe() == old(self).probe(),
            final(self).timeout_secs() == old(self).timeout_secs(),
            final(self).state() == waiting(need),
    {
        self.need = need;
        self.heard.clear();
        proof {
            assert(self.heard@ =~= Seq::empty());
        }
    }
}

} // verus!
