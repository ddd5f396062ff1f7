//! The decisions of a streamed search.
//!
//! A streamed search hands its files to worker threads as the walk finds them
//! and sends each match over a bounded channel. Before a file, the search
//! stops when it was cancelled or when the global limit has been reached;
//! entries that cannot be read and entries that are not files are skipped.
//! Each match is delivered under a claim on a shared counter: a claim at or
//! above the limit is given back and stops the search; a send that times out
//! is retried (unless the search was cancelled meanwhile); a closed channel
//! stops the search. A stop by cancellation is not an error of the search.
//!
//! The caller owns the threads, the counter and the channel, performs each
//! step that a `Delivery` asks for and hands back what came.

use std::path::PathBuf;

use vstd::prelude::*;

use crate::error::{ErrorView, SearchError, SearchResult};
use crate::search::config::SearchConfig;
use crate::search::matcher::{is_matcher_for, Matcher};

verus! {

/// What the walk handed out, as far as the search is concerned.
pub enum WalkItem {
    /// A file, by its path.
    File(PathBuf),
    /// A directory, a link or another entry that is not a file.
    NotAFile,
    /// An entry the walk could not read.
    Unreadable,
}

/// The compiled matcher of a streamed search, unless the search was cancelled
/// before it started.
pub fn stream_matcher(config: &SearchConfig, cancelled: bool) -> (r: SearchResult<Matcher>)
    ensures
        cancelled ==> (r matches Err(e) && e@ == ErrorView::Cancelled),
        !cancelled ==> is_matcher_for(*config, r),
{
    if cancelled {
        return Err(SearchError::Cancelled);
    }
    Matcher::new(config)
}

/// What becomes of one walk entry, given the cancellation flag and the
/// number of matches sent so far: the search stops when it was cancelled or
/// the limit is reached; otherwise a file is to be searched and any other
/// entry is skipped.
pub fn stream_entry_step(cancelled: bool, sent: usize, max_total: usize, item: WalkItem) -> (r: SearchResult<
    Option<PathBuf>,
>)
    ensures
        cancelled || sent >= max_total ==> (r matches Err(e) && e@ == ErrorView::Cancelled),
        !(cancelled || sent >= max_total) ==> match item {
            WalkItem::File(p) => r == Ok::<Option<PathBuf>, SearchError>(Some(p)),
            _ => r == Ok::<Option<PathBuf>, SearchError>(None),
        },
{
    if cancelled {
        return Err(SearchError::Cancelled);
    }
    if sent >= max_total {
        return Err(SearchError::Cancelled);
    }
    match item {
        WalkItem::File(p) => Ok(Some(p)),
        _ => Ok(None),
    }
}

/// The outcome of the whole streamed search: a stop by cancellation (which
/// includes reaching the limit and a closed channel) is no error, since the
/// matches sent stay valid.
pub fn stream_outcome(r: SearchResult<()>) -> (o: SearchResult<()>)
    ensures
        match r {
            Err(SearchError::Cancelled) => o matches Ok(()),
            _ => o == r,
        },
{
    match r {
        Err(SearchError::Cancelled) => Ok(()),
        other => other,
    }
}

/// What a send over the channel gave back.
#[derive(PartialEq, Eq, Structural)]
pub enum SendOutcome {
    Sent,
    TimedOut,
    Disconnected,
}

/// What a delivery asks of its caller next.
#[derive(PartialEq, Eq, Structural)]
pub enum DeliveryAction {
    /// Read the cancellation flag.
    ReadCancel,
    /// Add one to the shared count of sent matches, handing back the count before.
    Claim,
    /// Take one back from the shared count.
    Release,
    /// Send the match, waiting a bounded time.
    Send,
    /// The match was sent; go on with the next one.
    Delivered,
    /// Stop the search (as cancelled).
    Stop,
}

/// What the caller's step gave back.
pub enum DeliveryEvent {
    CancelRead(bool),
    Claimed(usize),
    Released,
    SendDone(SendOutcome),
}

/// Where the delivery of one match stands.
#[derive(PartialEq, Eq, Structural)]
pub enum DeliveryPhase {
    CheckBeforeClaim,
    Claiming,
    Releasing,
    CheckBeforeSend,
    Sending,
    Delivered,
    Stopped,
}

/// The model of a delivery: its phase, the limit, and the count that its
/// claim handed back, once it has claimed.
pub struct DeliveryState {
    pub phase: DeliveryPhase,
    pub max_total: usize,
    pub claimed: Option<usize>,
}

/// `s` in phase `p`.
pub open spec fn delivery_in(s: DeliveryState, p: DeliveryPhase) -> DeliveryState {
    DeliveryState { phase: p, max_total: s.max_total, claimed: s.claimed }
}

/// One step of a delivery. An event that the phase does not wait for changes nothing.
pub open spec fn delivery_step(s: DeliveryState, ev: DeliveryEvent) -> DeliveryState {
    match (s.phase, ev) {
        (DeliveryPhase::CheckBeforeClaim, DeliveryEvent::CancelRead(c)) => delivery_in(
            s,
            if c { DeliveryPhase::Stopped } else { DeliveryPhase::Claiming },
        ),
        (DeliveryPhase::Claiming, DeliveryEvent::Claimed(previous)) => DeliveryState {
            phase: if previous < s.max_total {
                DeliveryPhase::CheckBeforeSend
            } else {
                DeliveryPhase::Releasing
            },
            max_total: s.max_total,
            claimed: Some(previous),
        },
        (DeliveryPhase::Releasing, DeliveryEvent::Released) => delivery_in(s, DeliveryPhase::Stopped),
        (DeliveryPhase::CheckBeforeSend, DeliveryEvent::CancelRead(c)) => delivery_in(
            s,
            if c { DeliveryPhase::Stopped } else { DeliveryPhase::Sending },
        ),
        (DeliveryPhase::Sending, DeliveryEvent::SendDone(o)) => delivery_in(
            s,
            match o {
                SendOutcome::Sent => DeliveryPhase::Delivered,
                SendOutcome::TimedOut => DeliveryPhase::CheckBeforeSend,
                SendOutcome::Disconnected => DeliveryPhase::Stopped,
            },
        ),
        _ => s,
    }
}

/// What a delivery in state `s` asks for.
pub open spec fn delivery_action(s: DeliveryState) -> DeliveryAction {
    match s.phase {
        DeliveryPhase::CheckBeforeClaim | DeliveryPhase::CheckBeforeSend => DeliveryAction::ReadCancel,
        DeliveryPhase::Claiming => DeliveryAction::Claim,
        DeliveryPhase::Releasing => DeliveryAction::Release,
        DeliveryPhase::Sending => DeliveryAction::Send,
        DeliveryPhase::Delivered => DeliveryAction::Delivered,
        DeliveryPhase::Stopped => DeliveryAction::Stop,
    }
}

/// What every delivery keeps: from its claim on, it holds the count that the
/// claim handed back; it sends only under a claim below the limit, and gives
/// back a claim at or above it.
pub open spec fn delivery_inv(s: DeliveryState) -> bool {
    &&& (s.phase == DeliveryPhase::CheckBeforeClaim || s.phase == DeliveryPhase::Claiming) ==> s.claimed
        is None
    &&& (s.phase == DeliveryPhase::CheckBeforeSend || s.phase == DeliveryPhase::Sending || s.phase
        == DeliveryPhase::Delivered) ==> (s.claimed matches Some(p) && p < s.max_total)
    &&& s.phase == DeliveryPhase::Releasing ==> (s.claimed matches Some(p) && p >= s.max_total)
}

/// The delivery of one match.
pub struct Delivery {
    phase: DeliveryPhase,
    max_total: usize,
    claimed: Option<usize>,
}

impl View for Delivery {
    type V = DeliveryState;

    closed spec fn view(&self) -> DeliveryState {
        DeliveryState { phase: self.phase, max_total: self.max_total, claimed: self.claimed }
    }
}

impl Delivery {
    /// A delivery under the global limit `max_total`, which first reads the
    /// cancellation flag.
    pub fn new(max_total: usize) -> (d: Self)
        ensures
            d@ == (DeliveryState { phase: DeliveryPhase::CheckBeforeClaim, max_total, claimed: None }),
    {
        Delivery { phase: DeliveryPhase::CheckBeforeClaim, max_total, claimed: None }
    }

    /// What the delivery asks for next.
    pub fn next_action(&self) -> (a: DeliveryAction)
        ensures
            a == delivery_action(self@),
    {
        match self.phase {
            DeliveryPhase::CheckBeforeClaim | DeliveryPhase::CheckBeforeSend => DeliveryAction::ReadCancel,
            DeliveryPhase::Claiming => DeliveryAction::Claim,
            DeliveryPhase::Releasing => DeliveryAction::Release,
            DeliveryPhase::Sending => DeliveryAction::Send,
            DeliveryPhase::Delivered => DeliveryAction::Delivered,
            DeliveryPhase::Stopped => DeliveryAction::Stop,
        }
    }

    /// Takes what the last step gave back.
    pub fn on_event(&mut self, ev: DeliveryEvent)
        ensures
            final(self)@ == delivery_step(old(self)@, ev),
    {
        match (&self.phase, ev) {
            (DeliveryPhase::CheckBeforeClaim, DeliveryEvent::CancelRead(c)) => {
                self.phase = if c { DeliveryPhase::Stopped } else { DeliveryPhase::Claiming };
            },
            (DeliveryPhase::Claiming, DeliveryEvent::Claimed(previous)) => {
                self.claimed = Some(previous);
                self.phase = if previous < self.max_total {
                    DeliveryPhase::CheckBeforeSend
                } else {
                    DeliveryPhase::Releasing
                };
            },
            (DeliveryPhase::Releasing, DeliveryEvent::Released) => {
                self.phase = DeliveryPhase::Stopped;
            },
            (DeliveryPhase::CheckBeforeSend, DeliveryEvent::CancelRead(c)) => {
                self.phase = if c { DeliveryPhase::Stopped } else { DeliveryPhase::Sending };
            },
            (DeliveryPhase::Sending, DeliveryEvent::SendDone(o)) => {
                self.phase = match o {
                    SendOutcome::Sent => DeliveryPhase::Delivered,
                    SendOutcome::TimedOut => DeliveryPhase::CheckBeforeSend,
                    SendOutcome::Disconnected => DeliveryPhase::Stopped,
                };
            },
            _ => {},
        }
    }
}

/// A delivery sends a match only under a claim whose count was below the
/// global limit, and releases a claim whose count was not: the invariant
/// holds of a new delivery and every step keeps it.
pub proof fn law_delivery_within_limit(s: DeliveryState, ev: DeliveryEvent)
    ensures
        delivery_inv(DeliveryState { phase: DeliveryPhase::CheckBeforeClaim, max_total: s.max_total, claimed: None }),
        delivery_inv(s) ==> delivery_inv(delivery_step(s, ev)),
{
}

/// A send that times out does not stop the search: the same match is offered
/// again after the cancellation flag has been read.
pub proof fn law_delivery_retries_after_timeout(s: DeliveryState)
    requires
        s.phase == DeliveryPhase::Sending,
    ensures
        delivery_step(s, DeliveryEvent::SendDone(SendOutcome::TimedOut)).phase == DeliveryPhase::CheckBeforeSend,
        delivery_step(
            delivery_step(s, DeliveryEvent::SendDone(SendOutcome::TimedOut)),
            DeliveryEvent::CancelRead(false),
        ).phase == DeliveryPhase::Sending,
{
}

/// A claim at or above the limit is given back before the delivery stops:
/// the only way from a claim to a stop goes through a release.
pub proof fn law_delivery_gives_back_refused_claims(s: DeliveryState, ev: DeliveryEvent)
    ensures
        s.phase == DeliveryPhase::Claiming && delivery_step(s, ev).phase != DeliveryPhase::Claiming
            ==> (delivery_step(s, ev).phase == DeliveryPhase::Releasing || delivery_step(s, ev).phase
            == DeliveryPhase::CheckBeforeSend),
        s.phase == DeliveryPhase::Releasing ==> (delivery_step(s, ev).phase == DeliveryPhase::Releasing
            || delivery_step(s, ev).phase == DeliveryPhase::Stopped),
{
}

/// Delivered and stopped deliveries stay so.
pub proof fn law_delivery_final(s: DeliveryState, ev: DeliveryEvent)
    requires
        s.phase == DeliveryPhase::Delivered || s.phase == DeliveryPhase::Stopped,
    ensures
        delivery_step(s, ev) == s,
{
}

} // verus!
