//! The bookkeeping of searches driven from the JVM: search identifiers, the
//! cancellation flags of blocking searches, and the sessions of streamed ones.
//!
//! The registries are plain maps from a search id; the process-wide copies
//! and their locks live with the JVM entry points.

use std::collections::HashMap;
use std::sync::atomic::AtomicBool;
use std::sync::Arc;

use crossbeam_channel::Receiver;
use vstd::prelude::*;

use crate::error::{ErrorView, SearchError, SearchResult};
use crate::search::engine::SearchEngine;
use crate::search::matcher::{is_cancelled, raise_flag, SearchMatch};
use crate::util::shared::share;
use crate::util::text::{decimal, decimal_string, joined};

verus! {

broadcast use vstd::std_specs::hash::group_hash_axioms;

/// The receiving end of a `crossbeam-channel` channel.
#[verifier::external_type_specification]
#[verifier::external_body]
#[verifier::reject_recursive_types(T)]
pub struct ExReceiver<T>(Receiver<T>);

// ---------------------------------------------------------------------------
// Search identifiers
// ---------------------------------------------------------------------------

/// The identifier handed out after `id`: one more, wrapping to zero after the largest.
pub open spec fn following_id(id: u64) -> u64 {
    if id == u64::MAX { 0 } else { (id + 1) as u64 }
}

/// The `k`-th identifier handed out by a generator that starts at `first`.
pub open spec fn nth_id(first: u64, k: nat) -> u64 {
    ((first + k) % 0x1_0000_0000_0000_0000) as u64
}

/// Hands out search identifiers, one after the other, starting at 1.
pub struct SearchIdGenerator {
    next: u64,
}

impl SearchIdGenerator {
    /// The identifier that the next call hands out.
    pub closed spec fn next_id(&self) -> u64 {
        self.next
    }

    /// A generator whose first identifier is 1.
    pub fn new() -> (g: Self)
        ensures
            g.next_id() == 1,
    {
        SearchIdGenerator { next: 1 }
    }

    /// The next identifier.
    pub fn generate_search_id(&mut self) -> (id: u64)
        ensures
            id == old(self).next_id(),
            final(self).next_id() == following_id(id),
    {
        let id = self.next;
        self.next = self.next.wrapping_add(1);
        id
    }
}

/// A generator that starts at `first` hands out `nth_id(first, k)` at its
/// `k`-th call: the identifier after the `k`-th is the `k + 1`-th.
pub proof fn law_ids_follow_in_turn(first: u64, k: nat)
    ensures
        following_id(nth_id(first, k)) == nth_id(first, k + 1),
{
    let m: int = 0x1_0000_0000_0000_0000;
    let a: int = first + k;
    assert(0 <= a % m < m) by (nonlinear_arith)
        requires m > 0;
    assert((a + 1) % m == if a % m == m - 1 { 0 } else { a % m + 1 }) by (nonlinear_arith)
        requires m > 0, a >= 0;
}

/// A generator hands out no identifier twice within 2^64 calls: the `i`-th
/// and the `j`-th identifiers differ whenever `i < j < i + 2^64`.
pub proof fn law_search_ids_distinct(first: u64, i: nat, j: nat)
    requires
        i < j,
        j - i < 0x1_0000_0000_0000_0000,
    ensures
        nth_id(first, i) != nth_id(first, j),
{
    let m: int = 0x1_0000_0000_0000_0000;
    let a: int = first + i;
    let b: int = first + j;
    assert((a % m) != (b % m)) by (nonlinear_arith)
        requires m > 0, a >= 0, a < b, b - a < m;
}

// ---------------------------------------------------------------------------
// Blocking searches
// ---------------------------------------------------------------------------

/// The cancellation flags of the blocking searches under way, by search id.
pub struct CancelRegistry {
    flags: HashMap<u64, Arc<AtomicBool>>,
}

impl View for CancelRegistry {
    type V = Map<u64, Arc<AtomicBool>>;

    closed spec fn view(&self) -> Map<u64, Arc<AtomicBool>> {
        self.flags@
    }
}

impl CancelRegistry {
    /// An empty registry.
    pub fn new() -> (r: Self)
        ensures
            r@ == Map::<u64, Arc<AtomicBool>>::empty(),
    {
        CancelRegistry { flags: HashMap::new() }
    }

    /// Records the flag of search `id`.
    pub fn register(&mut self, id: u64, flag: Arc<AtomicBool>)
        ensures
            final(self)@ == old(self)@.insert(id, flag),
    {
        self.flags.insert(id, flag);
    }

    /// Whether search `id` is recorded.
    pub fn contains(&self, id: u64) -> (r: bool)
        ensures
            r == self@.contains_key(id),
    {
        self.flags.contains_key(&id)
    }

    /// Raises the flag of search `id`, if it is recorded; tells whether it was.
    pub fn cancel(&self, id: u64) -> (found: bool)
        ensures
            found == self@.contains_key(id),
    {
        match self.flags.get(&id) {
            Some(flag) => {
                raise_flag(flag);
                true
            },
            None => false,
        }
    }

    /// Forgets search `id`.
    pub fn remove(&mut self, id: u64)
        ensures
            final(self)@ == old(self)@.remove(id),
    {
        self.flags.remove(&id);
    }
}

// ---------------------------------------------------------------------------
// Streamed searches
// ---------------------------------------------------------------------------

/// A streamed search: its engine (for cancellation), the channel its matches
/// arrive on, and whether a poll has seen its end.
pub struct SearchSession {
    engine: SearchEngine,
    receiver: Receiver<SearchResult<SearchMatch>>,
    is_complete: Arc<AtomicBool>,
}

impl SearchSession {
    /// The engine of the search.
    pub closed spec fn spec_engine(&self) -> SearchEngine {
        self.engine
    }

    /// The channel the matches of the search arrive on.
    pub closed spec fn spec_receiver(&self) -> Receiver<SearchResult<SearchMatch>> {
        self.receiver
    }

    /// A session that no poll has seen the end of yet.
    pub fn new(engine: SearchEngine, receiver: Receiver<SearchResult<SearchMatch>>) -> (s: Self)
        ensures
            s.spec_engine() == engine,
            s.spec_receiver() == receiver,
    {
        SearchSession { engine, receiver, is_complete: Arc::new(AtomicBool::new(false)) }
    }

    /// The engine of the search.
    pub fn engine(&self) -> (e: &SearchEngine)
        ensures
            *e == self.spec_engine(),
    {
        &self.engine
    }

    /// The channel the matches arrive on: the one the session was made with.
    pub fn receiver(&self) -> (r: &Receiver<SearchResult<SearchMatch>>)
        ensures
            *r == self.spec_receiver(),
    {
        &self.receiver
    }

    /// Whether a poll has seen the end of the search.
    pub fn is_complete(&self) -> bool {
        is_cancelled(&self.is_complete)
    }

    /// Records that a poll has seen the end of the search.
    pub fn mark_complete(&self) {
        raise_flag(&self.is_complete);
    }

    /// Asks the search to stop.
    pub fn cancel(&self) {
        self.engine.cancel();
    }
}

/// The message of a poll for a search that is not registered.
pub open spec fn missing_session_message(id: u64) -> Seq<char> {
    "搜索会话 "@ + decimal(id as nat) + " 不存在"@
}

/// The sessions of the streamed searches, by search id.
pub struct SessionRegistry {
    sessions: HashMap<u64, Arc<SearchSession>>,
}

impl View for SessionRegistry {
    type V = Map<u64, Arc<SearchSession>>;

    closed spec fn view(&self) -> Map<u64, Arc<SearchSession>> {
        self.sessions@
    }
}

impl SessionRegistry {
    /// An empty registry.
    pub fn new() -> (r: Self)
        ensures
            r@ == Map::<u64, Arc<SearchSession>>::empty(),
    {
        SessionRegistry { sessions: HashMap::new() }
    }

    /// Records the session of search `id`.
    pub fn register(&mut self, id: u64, session: Arc<SearchSession>)
        ensures
            final(self)@ == old(self)@.insert(id, session),
    {
        self.sessions.insert(id, session);
    }

    /// Whether search `id` is recorded.
    pub fn contains(&self, id: u64) -> (r: bool)
        ensures
            r == self@.contains_key(id),
    {
        self.sessions.contains_key(&id)
    }

    /// The session of search `id`, shared, or an internal error naming the id.
    pub fn session(&self, id: u64) -> (r: SearchResult<Arc<SearchSession>>)
        ensures
            match r {
                Ok(s) => self@.contains_key(id) && s == self@[id],
                Err(e) => !self@.contains_key(id) && e@ == ErrorView::Internal(
                    missing_session_message(id),
                ),
            },
    {
        match self.sessions.get(&id) {
            Some(s) => Ok(share(s)),
            None => {
                let m = joined("搜索会话 ", decimal_string(id).as_str());
                Err(SearchError::Internal(joined(m.as_str(), " 不存在")))
            },
        }
    }

    /// Whether search `id` is over. A search that is not recorded counts as
    /// over, so that the JVM side stops polling it.
    pub fn is_search_complete(&self, id: u64) -> (r: bool)
        ensures
            !self@.contains_key(id) ==> r,
    {
        match self.sessions.get(&id) {
            Some(s) => s.is_complete(),
            None => true,
        }
    }

    /// Asks search `id` to stop, if it is recorded; tells whether it was.
    pub fn cancel(&self, id: u64) -> (found: bool)
        ensures
            found == self@.contains_key(id),
    {
        match self.sessions.get(&id) {
            Some(s) => {
                s.cancel();
                true
            },
            None => false,
        }
    }

    /// Forgets search `id`, releasing its engine and channel once no poll holds them.
    pub fn release(&mut self, id: u64)
        ensures
            final(self)@ == old(self)@.remove(id),
    {
        self.sessions.remove(&id);
    }
}

/// A released search counts as over: once `release(id)` has run the registry
/// no longer holds `id`, and `is_search_complete` answers `true` for every id
/// it does not hold.
pub proof fn law_released_search_is_complete(before: Map<u64, Arc<SearchSession>>, id: u64)
    ensures
        !before.remove(id).contains_key(id),
{
}

} // verus!
