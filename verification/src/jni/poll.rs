//! The decisions of one poll of a streamed search.
//!
//! A poll first takes every match that is ready; if it found nothing and the
//! search has not ended, it waits once for an item, and after a match keeps
//! taking what is ready. When it sees the end of the search (a cancellation,
//! an error or a closed channel) it marks the search complete and, unless an
//! error came, takes what is still ready so that the last matches are not
//! lost. The caller performs each receive that the poll asks for and hands
//! back what came.

use vstd::prelude::*;

use crate::error::{SearchError, SearchResult};
use crate::search::matcher::SearchMatch;

verus! {

/// What a poll asks of its caller next.
#[derive(PartialEq, Eq, Structural)]
pub enum PollAction {
    /// Receive without waiting.
    TryReceive,
    /// Receive, waiting up to the poll's timeout.
    WaitReceive,
    /// The poll is over.
    Finish,
}

/// What a receive gave back.
pub enum PollEvent {
    /// An item of the channel.
    Received(SearchResult<SearchMatch>),
    /// A receive without waiting found nothing ready (or the channel closed).
    Empty,
    /// A waiting receive timed out.
    TimedOut,
    /// A waiting receive found the channel closed and empty.
    Disconnected,
}

/// Where a poll stands.
#[derive(PartialEq, Eq, Structural)]
pub enum PollPhase {
    /// Taking what is ready, before any wait.
    Draining,
    /// Waiting once for an item.
    Waiting,
    /// Taking what is ready after the wait brought a match.
    DrainingAfterWait,
    /// The search has ended: taking the matches still ready.
    FinalDrain,
    /// Nothing more to receive.
    Done,
}

/// The model of a poll: its phase, the matches taken, whether the search has
/// ended, and the error to report, if one came.
pub struct PollState {
    pub phase: PollPhase,
    pub batch: Seq<SearchMatch>,
    pub complete: bool,
    pub pending: Option<SearchError>,
}

/// A poll that has not received anything.
pub open spec fn initial_poll() -> PollState {
    PollState { phase: PollPhase::Draining, batch: Seq::empty(), complete: false, pending: None }
}

/// `s` in phase `p`.
pub open spec fn with_phase(s: PollState, p: PollPhase) -> PollState {
    PollState { phase: p, batch: s.batch, complete: s.complete, pending: s.pending }
}

/// `s` with match `m` taken.
pub open spec fn with_match(s: PollState, m: SearchMatch) -> PollState {
    PollState { phase: s.phase, batch: s.batch.push(m), complete: s.complete, pending: s.pending }
}

/// `s` once the end of the search has been seen, with the error `e` if one came.
pub open spec fn with_end(s: PollState, e: Option<SearchError>) -> PollState {
    PollState { phase: s.phase, batch: s.batch, complete: true, pending: e }
}

/// After the end of the search without an error, the last ready matches are taken.
pub open spec fn final_check(s: PollState) -> PollState {
    if s.complete && s.pending is None {
        with_phase(s, PollPhase::FinalDrain)
    } else {
        with_phase(s, PollPhase::Done)
    }
}

/// When a drain stops: the first drain waits if it found nothing and the
/// search has not ended; otherwise the poll goes to its final check.
pub open spec fn after_drain(s: PollState) -> PollState {
    if s.phase == PollPhase::Draining && s.batch.len() == 0 && !s.complete {
        with_phase(s, PollPhase::Waiting)
    } else {
        final_check(s)
    }
}

/// The end of the search that an item brings: a cancellation ends it with no
/// error to report, any other error ends it with that error.
pub open spec fn ended_by(e: SearchError) -> Option<SearchError> {
    match e {
        SearchError::Cancelled => None,
        _ => Some(e),
    }
}

/// One step of a poll.
pub open spec fn poll_step(s: PollState, ev: PollEvent) -> PollState {
    match s.phase {
        PollPhase::Draining | PollPhase::DrainingAfterWait => match ev {
            PollEvent::Received(Ok(m)) => with_match(s, m),
            PollEvent::Received(Err(e)) => after_drain(with_end(s, ended_by(e))),
            _ => after_drain(s),
        },
        PollPhase::Waiting => match ev {
            PollEvent::Received(Ok(m)) => with_phase(with_match(s, m), PollPhase::DrainingAfterWait),
            PollEvent::Received(Err(e)) => final_check(with_end(s, ended_by(e))),
            PollEvent::Disconnected => final_check(with_end(s, None)),
            _ => final_check(s),
        },
        PollPhase::FinalDrain => match ev {
            PollEvent::Received(Ok(m)) => with_match(s, m),
            _ => with_phase(s, PollPhase::Done),
        },
        PollPhase::Done => s,
    }
}

/// What a poll in state `s` asks for.
pub open spec fn poll_action(s: PollState) -> PollAction {
    match s.phase {
        PollPhase::Waiting => PollAction::WaitReceive,
        PollPhase::Done => PollAction::Finish,
        _ => PollAction::TryReceive,
    }
}

/// The matches that an event brings.
pub open spec fn received_matches(ev: PollEvent) -> Seq<SearchMatch> {
    match ev {
        PollEvent::Received(Ok(m)) => seq![m],
        _ => Seq::empty(),
    }
}

/// The order of the phases; a poll never goes back.
pub open spec fn phase_rank(p: PollPhase) -> int {
    match p {
        PollPhase::Draining => 0,
        PollPhase::Waiting => 1,
        PollPhase::DrainingAfterWait => 2,
        PollPhase::FinalDrain => 3,
        PollPhase::Done => 4,
    }
}

/// The event marks the end of the search for a poll in phase `p`.
pub open spec fn ends_search(p: PollPhase, ev: PollEvent) -> bool {
    match p {
        PollPhase::Draining | PollPhase::DrainingAfterWait => ev matches PollEvent::Received(Err(_)),
        PollPhase::Waiting => ev matches PollEvent::Received(Err(_)) || ev matches PollEvent::Disconnected,
        _ => false,
    }
}

/// One poll of a streamed search.
pub struct PollBatch {
    phase: PollPhase,
    batch: Vec<SearchMatch>,
    complete: bool,
    pending: Option<SearchError>,
}

impl View for PollBatch {
    type V = PollState;

    closed spec fn view(&self) -> PollState {
        PollState { phase: self.phase, batch: self.batch@, complete: self.complete, pending: self.pending }
    }
}

impl PollBatch {
    /// A poll that has not received anything.
    pub fn new() -> (p: Self)
        ensures
            p@ == initial_poll(),
    {
        PollBatch { phase: PollPhase::Draining, batch: Vec::new(), complete: false, pending: None }
    }

    /// What the poll asks for next.
    pub fn next_action(&self) -> (a: PollAction)
        ensures
            a == poll_action(self@),
    {
        match self.phase {
            PollPhase::Waiting => PollAction::WaitReceive,
            PollPhase::Done => PollAction::Finish,
            _ => PollAction::TryReceive,
        }
    }

    /// Goes to the final check.
    fn go_final_check(&mut self)
        ensures
            final(self)@ == final_check(old(self)@),
    {
        if self.complete && self.pending.is_none() {
            self.phase = PollPhase::FinalDrain;
        } else {
            self.phase = PollPhase::Done;
        }
    }

    /// Ends a drain.
    fn end_drain(&mut self)
        ensures
            final(self)@ == after_drain(old(self)@),
    {
        let first = match self.phase {
            PollPhase::Draining => true,
            _ => false,
        };
        if first && self.batch.len() == 0 && !self.complete {
            self.phase = PollPhase::Waiting;
        } else {
            self.go_final_check();
        }
    }

    /// Records the end of the search, with the error that `e` leaves to report.
    fn end_search(&mut self, e: SearchError)
        ensures
            final(self)@ == with_end(old(self)@, ended_by(e)),
    {
        self.complete = true;
        self.pending = match e {
            SearchError::Cancelled => None,
            other => Some(other),
        };
    }

    /// Takes what the last receive gave back.
    pub fn on_event(&mut self, ev: PollEvent)
        ensures
            final(self)@ == poll_step(old(self)@, ev),
    {
        match self.phase {
            PollPhase::Draining | PollPhase::DrainingAfterWait => match ev {
                PollEvent::Received(Ok(m)) => {
                    self.batch.push(m);
                },
                PollEvent::Received(Err(e)) => {
                    self.end_search(e);
                    self.end_drain();
                },
                _ => {
                    self.end_drain();
                },
            },
            PollPhase::Waiting => match ev {
                PollEvent::Received(Ok(m)) => {
                    self.batch.push(m);
                    self.phase = PollPhase::DrainingAfterWait;
                },
                PollEvent::Received(Err(e)) => {
                    self.end_search(e);
                    self.go_final_check();
                },
                PollEvent::Disconnected => {
                    self.complete = true;
                    self.pending = None;
                    self.go_final_check();
                },
                _ => {
                    self.go_final_check();
                },
            },
            PollPhase::FinalDrain => match ev {
                PollEvent::Received(Ok(m)) => {
                    self.batch.push(m);
                },
                _ => {
                    self.phase = PollPhase::Done;
                },
            },
            PollPhase::Done => {},
        }
    }

    /// Whether the search is to be marked complete, and the poll's answer:
    /// the error that came, if one did, otherwise the matches taken.
    pub fn finish(self) -> (r: (bool, SearchResult<Vec<SearchMatch>>))
        ensures
            r.0 == self@.complete,
            match self@.pending {
                Some(e) => r.1 == Err::<Vec<SearchMatch>, SearchError>(e),
                None => r.1 matches Ok(v) && v@ == self@.batch,
            },
    {
        let complete = self.complete;
        match self.pending {
            Some(e) => (complete, Err(e)),
            None => (complete, Ok(self.batch)),
        }
    }
}

/// A poll loses no match: every match it receives before it is done joins
/// its batch, after the ones taken before; nothing else changes the batch.
pub proof fn law_poll_keeps_every_match(s: PollState, ev: PollEvent)
    ensures
        poll_step(s, ev).batch == if s.phase == PollPhase::Done {
            s.batch
        } else {
            s.batch + received_matches(ev)
        },
{
    let t = poll_step(s, ev);
    if s.phase != PollPhase::Done {
        match ev {
            PollEvent::Received(Ok(m)) => {
                assert(t.batch =~= s.batch + seq![m]);
            },
            _ => {
                assert(t.batch =~= s.batch + Seq::<SearchMatch>::empty());
            },
        }
    }
}

/// A poll never goes back to an earlier phase and leaves the waiting phase
/// at its next step, so it waits at most once.
pub proof fn law_poll_waits_at_most_once(s: PollState, ev: PollEvent)
    ensures
        phase_rank(poll_step(s, ev).phase) >= phase_rank(s.phase),
        s.phase == PollPhase::Waiting ==> phase_rank(poll_step(s, ev).phase) > phase_rank(s.phase),
        poll_step(s, ev).phase == PollPhase::Waiting ==> s.phase == PollPhase::Draining,
{
}

/// A poll marks the search complete exactly when it has seen the end of the
/// search: an error (a cancellation among them) while taking or waiting, or
/// a closed channel while waiting. Only an error other than a cancellation is
/// reported, and once one is, the poll is done.
pub proof fn law_poll_completes_at_search_end(s: PollState, ev: PollEvent)
    requires
        s.pending is Some ==> s.phase == PollPhase::Done,
    ensures
        poll_step(s, ev).complete == (s.complete || ends_search(s.phase, ev)),
        poll_step(s, ev).pending == match ev {
            PollEvent::Received(Err(e)) => if ends_search(s.phase, ev) {
                ended_by(e)
            } else {
                s.pending
            },
            _ => s.pending,
        },
        poll_step(s, ev).pending is Some ==> poll_step(s, ev).phase == PollPhase::Done,
{
}

/// The state of a poll in state `s` after the events `events`, in order.
pub open spec fn run_poll(s: PollState, events: Seq<PollEvent>) -> PollState
    decreases events.len(),
{
    if events.len() == 0 {
        s
    } else {
        run_poll(poll_step(s, events[0]), events.drop_first())
    }
}

/// The matches among `events` that arrive before a poll in state `s` is done.
pub open spec fn matches_before_done(s: PollState, events: Seq<PollEvent>) -> Seq<SearchMatch>
    decreases events.len(),
{
    if events.len() == 0 || s.phase == PollPhase::Done {
        Seq::empty()
    } else {
        received_matches(events[0]) + matches_before_done(poll_step(s, events[0]), events.drop_first())
    }
}

/// Over any run, a poll's batch is what it held, then every match that
/// arrived before it was done, in the order they arrived.
pub proof fn law_poll_run_keeps_every_match(s: PollState, events: Seq<PollEvent>)
    ensures
        run_poll(s, events).batch == s.batch + matches_before_done(s, events),
    decreases events.len(),
{
    if events.len() == 0 {
        assert(s.batch + Seq::<SearchMatch>::empty() =~= s.batch);
    } else {
        let t = poll_step(s, events[0]);
        law_poll_keeps_every_match(s, events[0]);
        law_poll_run_keeps_every_match(t, events.drop_first());
        if s.phase == PollPhase::Done {
            lemma_done_run(s, events);
            assert(s.batch + Seq::<SearchMatch>::empty() =~= s.batch);
        } else {
            assert(s.batch + (received_matches(events[0]) + matches_before_done(t, events.drop_first()))
                =~= (s.batch + received_matches(events[0])) + matches_before_done(t, events.drop_first()));
        }
    }
}

/// A finished poll stays as it is, whatever comes.
proof fn lemma_done_run(s: PollState, events: Seq<PollEvent>)
    requires
        s.phase == PollPhase::Done,
    ensures
        run_poll(s, events) == s,
    decreases events.len(),
{
    if events.len() > 0 {
        lemma_done_run(poll_step(s, events[0]), events.drop_first());
    }
}

} // verus!
