//! A minimal on-chain data-feed store: a designated operator account publishes
//! opaque byte blobs ("events") tagged by publication time, and any participant
//! may propose pruning an entry once it is older than a configured staleness
//! window. The prune path is split in two: a pure admission check
//! (`validate_unsigned`) that decides whether a prune request is currently
//! valid, and an execution step (`remove_stale_event`) that trusts prior
//! admission. The host is expected to resolve call signatures to an
//! `AccountId`, sample the clock once per call, and only execute prune
//! requests that the admission check approved.

use vstd::prelude::*;

mod store;

pub mod mock;

pub use store::EventStore;
pub use store::Moment;

verus! {

/// Identity of a caller; the host resolves signatures to one of these.
pub type AccountId = u64;

/// The immutable configuration the pallet is deployed with.
pub struct Config {
    /// The sole account allowed to feed events.
    pub operator_account: AccountId,
    /// Upper bound on the byte length of a fed event; the host-level encoding
    /// layer rejects oversized input before the pallet is reached.
    pub max_event_size: u32,
    /// Minimum age, in `Moment` units, before an entry becomes prunable.
    pub stale_time: Moment,
    /// Base scheduling priority granted to admitted prune requests.
    pub unsigned_priority: u64,
}

/// Errors returned by the authenticated call path.
#[derive(Clone, Copy, Debug, PartialEq, Eq)]
pub enum Error {
    /// The caller of `feed_event` is not the operator account.
    NotOperatorAccount,
}

/// Notifications deposited on every successful state change.
#[derive(Clone, Copy, Debug, PartialEq, Eq)]
pub enum Event {
    /// An event was successfully fed at `time`.
    EventFeeded { time: Moment },
    /// The entry at `time` was removed from storage as stale.
    EventRemoved { time: Moment },
}

/// The calls the pallet dispatches, as the admission check sees them.
#[allow(non_camel_case_types)]
#[derive(Clone, Debug)]
pub enum Call {
    /// The authenticated ingestion call.
    feed_event { event: Vec<u8> },
    /// The permissionless prune call.
    remove_stale_event { time: Moment },
}

/// Where an unsigned transaction came from; the admission check ignores it.
#[derive(Clone, Copy, Debug, PartialEq, Eq)]
pub enum TransactionSource {
    InBlock,
    Local,
    External,
}

/// Why an unsigned transaction was rejected.
#[derive(Clone, Copy, Debug, PartialEq, Eq)]
pub enum InvalidTransaction {
    /// The call shape is not one the unsigned path accepts: categorically
    /// invalid, never retried.
    Call,
    /// The prune target is not admissible now: not yet stale, or no entry at
    /// that moment (already pruned, or never existed).
    Stale,
}

/// The scheduling data attached to an admitted unsigned transaction.
#[derive(Clone, Copy, Debug, PartialEq, Eq)]
pub struct ValidTransaction {
    /// Fixed base priority; the design does not escalate priority by age.
    pub priority: u64,
    /// Uniqueness tag: two admitted requests for the same moment at the same
    /// block are duplicates to the surrounding scheduler.
    pub provides: (u64, Moment),
    /// Bounded validity window, in sequence steps.
    pub longevity: u64,
    /// Whether the request is eligible for rebroadcast to peers.
    pub propagate: bool,
}

/// Number of sequence steps an admitted prune request stays valid for.
pub const PRUNE_LONGEVITY: u64 = 64;

/// The data-feed pallet: configuration, the time-indexed store, and the log of
/// deposited notifications.
pub struct Pallet {
    config: Config,
    store: EventStore,
    deposited_events: Vec<Event>,
}

impl Pallet {
    /// The pallet is well formed when its store is.
    pub closed spec fn wf(self) -> bool {
        self.store.wf()
    }

    /// The stored events: moment to event bytes.
    pub closed spec fn feeds(self) -> Map<Moment, Seq<u8>> {
        self.store.feeds()
    }

    /// The moment of the most recent successful feed (zero before any feed);
    /// never rolled back by a prune.
    pub closed spec fn most_recent_moment(self) -> Moment {
        self.store.most_recent_moment()
    }

    /// The configuration the pallet was built with.
    pub closed spec fn spec_config(self) -> Config {
        self.config
    }

    /// Every notification deposited so far, oldest first.
    pub closed spec fn spec_deposited(self) -> Seq<Event> {
        self.deposited_events@
    }

    /// What a query at `time` observes of the store.
    pub open spec fn spec_feed_at(self, time: Moment) -> Option<Seq<u8>> {
        if self.feeds().contains_key(time) {
            Some(self.feeds()[time])
        } else {
            None
        }
    }

    /// What a most-recent query observes: the feed at the pointer.
    pub open spec fn spec_most_recent_feed(self) -> Option<Seq<u8>> {
        self.spec_feed_at(self.most_recent_moment())
    }

    /// The admission rule for a prune of `time` at clock reading `now`: the
    /// entry must be strictly older than the staleness window (saturating, so
    /// nothing is stale while `stale_time > now`), and an entry must actually
    /// be stored at `time`.
    pub open spec fn prune_admissible(self, now: Moment, time: Moment) -> bool {
        now.saturating_sub(self.spec_config().stale_time) > time && self.feeds().contains_key(
            time,
        )
    }

    /// A fresh pallet: empty store, zero pointer, no notifications.
    pub fn new(config: Config) -> (p: Pallet)
        ensures
            p.wf(),
            p.feeds() == Map::<Moment, Seq<u8>>::empty(),
            p.most_recent_moment() == 0,
            p.spec_config() == config,
            p.spec_deposited() == Seq::<Event>::empty(),
    {
        Pallet { config, store: EventStore::new(), deposited_events: Vec::new() }
    }

    /// Feeds arbitrary data on chain; only the operator account may feed.
    /// `now` is the clock reading the host sampled for this call. A rejected
    /// call has no side effects; a successful one stores the bytes at `now`,
    /// points `most_recent_moment` at `now` (last-write-wins, even when `now`
    /// is older than the pointer), and deposits `EventFeeded`.
    pub fn feed_event(&mut self, feeder: AccountId, event: Vec<u8>, now: Moment) -> (r: Result<
        (),
        Error,
    >)
        requires
            old(self).wf(),
            event@.len() <= old(self).spec_config().max_event_size,
        ensures
            final(self).wf(),
            final(self).spec_config() == old(self).spec_config(),
            feeder == old(self).spec_config().operator_account ==> {
                &&& r == Ok::<(), Error>(())
                &&& final(self).feeds() == old(self).feeds().insert(now, event@)
                &&& final(self).most_recent_moment() == now
                &&& final(self).spec_deposited() == old(self).spec_deposited().push(
                    Event::EventFeeded { time: now },
                )
            },
            feeder != old(self).spec_config().operator_account ==> {
                &&& r == Err::<(), Error>(Error::NotOperatorAccount)
                &&& *final(self) == *old(self)
            },
    {
        if feeder != self.config.operator_account {
            return Err(Error::NotOperatorAccount);
        }
        self.store.put(now, event);
        self.deposited_events.push(Event::EventFeeded { time: now });
        Ok(())
    }

    /// Executes a prune: unconditionally deletes the entry at `time` (a silent
    /// no-op when absent) and deposits `EventRemoved`. Staleness is not
    /// re-checked here; correctness of the permissionless path depends on
    /// `validate_unsigned` having gated entry beforehand. The most-recent
    /// pointer is never moved, even when the pruned moment is the most recent.
    pub fn remove_stale_event(&mut self, time: Moment) -> (r: Result<(), Error>)
        requires
            old(self).wf(),
        ensures
            final(self).wf(),
            r == Ok::<(), Error>(()),
            final(self).spec_config() == old(self).spec_config(),
            final(self).feeds() == old(self).feeds().remove(time),
            !final(self).feeds().contains_key(time),
            final(self).most_recent_moment() == old(self).most_recent_moment(),
            final(self).spec_deposited() == old(self).spec_deposited().push(
                Event::EventRemoved { time },
            ),
    {
        self.store.remove(time);
        self.deposited_events.push(Event::EventRemoved { time });
        Ok(())
    }

    /// The pure admission check for unsigned transactions. Only a prune call
    /// can be admitted; any other call shape is rejected outright as
    /// categorically invalid. A prune of `time` is admitted exactly when
    /// `prune_admissible(now, time)` holds, and is then scheduled at the
    /// configured base priority, tagged with `(block_number, time)` for
    /// deduplication, with a bounded validity window, eligible for
    /// rebroadcast. Side-effect-free, so it may be re-evaluated by many
    /// independent validators against the same snapshot.
    pub fn validate_unsigned(
        &self,
        _source: TransactionSource,
        now: Moment,
        block_number: u64,
        call: &Call,
    ) -> (r: Result<ValidTransaction, InvalidTransaction>)
        requires
            self.wf(),
        ensures
            match *call {
                Call::remove_stale_event { time } => r == (if self.prune_admissible(now, time) {
                    Ok::<ValidTransaction, InvalidTransaction>(
                        ValidTransaction {
                            priority: self.spec_config().unsigned_priority,
                            provides: (block_number, time),
                            longevity: PRUNE_LONGEVITY,
                            propagate: true,
                        },
                    )
                } else {
                    Err::<ValidTransaction, InvalidTransaction>(InvalidTransaction::Stale)
                }),
                Call::feed_event { .. } => r == Err::<ValidTransaction, InvalidTransaction>(
                    InvalidTransaction::Call,
                ),
            },
    {
        match call {
            Call::remove_stale_event { time } => {
                let cutoff: Moment = now.saturating_sub(self.config.stale_time);
                if cutoff > *time && self.store.contains(*time) {
                    Ok(
                        ValidTransaction {
                            priority: self.config.unsigned_priority,
                            provides: (block_number, *time),
                            longevity: PRUNE_LONGEVITY,
                            propagate: true,
                        },
                    )
                } else {
                    Err(InvalidTransaction::Stale)
                }
            },
            Call::feed_event { .. } => Err(InvalidTransaction::Call),
        }
    }
    /// The most recently deposited notification, if any: what a subscriber
    /// that saw every notification would have seen last.
    pub fn last_deposited_event(&self) -> (r: Option<Event>)
        ensures
            match r {
                Some(e) => self.spec_deposited().len() > 0 && e == self.spec_deposited().last(),
                None => self.spec_deposited().len() == 0,
            },
    {
        let n: usize = self.deposited_events.len();
        if n == 0 {
            None
        } else {
            Some(self.deposited_events[n - 1])
        }
    }

    /// The configuration the pallet runs under.
    pub fn config(&self) -> (r: &Config)
        ensures
            *r == self.spec_config(),
    {
        &self.config
    }
}

/// Read-only access to the feed store: no side effects, no authorization.
pub trait OracleFeed {
    /// The stored events this reader observes.
    spec fn feed_map(&self) -> Map<Moment, Seq<u8>>;

    /// The most-recent pointer this reader observes.
    spec fn feed_pointer(&self) -> Moment;

    /// Well-formedness of the underlying store.
    spec fn feed_wf(&self) -> bool;

    /// Gets the most recently fed value; absent if no feed exists at the
    /// pointer (no feed ever happened, or the most recent entry was pruned).
    fn get_most_recent_feed(&self) -> (r: Option<Vec<u8>>)
        requires
            self.feed_wf(),
        ensures
            match r {
                Some(v) => self.feed_map().contains_key(self.feed_pointer()) && v@
                    == self.feed_map()[self.feed_pointer()],
                None => !self.feed_map().contains_key(self.feed_pointer()),
            },
    ;

    /// Gets the value fed at `time`; absent if no value exists there.
    fn get_feed_at_time(&self, time: Moment) -> (r: Option<Vec<u8>>)
        requires
            self.feed_wf(),
        ensures
            match r {
                Some(v) => self.feed_map().contains_key(time) && v@ == self.feed_map()[time],
                None => !self.feed_map().contains_key(time),
            },
    ;
}

/// Copies event bytes out of the store for a caller-owned result.
fn clone_bytes(v: &Vec<u8>) -> (r: Vec<u8>)
    ensures
        r@ == v@,
{
    let mut out: Vec<u8> = Vec::new();
    let mut i: usize = 0;
    while i < v.len()
        invariant
            i <= v@.len(),
            out@ == v@.subrange(0, i as int),
        decreases v@.len() - i,
    {
        out.push(v[i]);
        i = i + 1;
    }
    proof {
        assert(out@ =~= v@);
    }
    out
}

impl OracleFeed for Pallet {
    open spec fn feed_map(&self) -> Map<Moment, Seq<u8>> {
        self.feeds()
    }

    open spec fn feed_pointer(&self) -> Moment {
        self.most_recent_moment()
    }

    open spec fn feed_wf(&self) -> bool {
        self.wf()
    }

    fn get_most_recent_feed(&self) -> (r: Option<Vec<u8>>) {
        match self.store.most_recent() {
            Some(v) => Some(clone_bytes(v)),
            None => None,
        }
    }

    fn get_feed_at_time(&self, time: Moment) -> (r: Option<Vec<u8>>) {
        match self.store.get(time) {
            Some(v) => Some(clone_bytes(v)),
            None => None,
        }
    }
}

/// After feeding at `m1` and then at `m2` with `m1 < m2`, the most recent
/// feed is exactly the feed at `m2`. The hypotheses are the state changes
/// `feed_event` guarantees for its two successful calls in order.
pub proof fn lemma_feeds_in_order_most_recent(
    p0: Pallet,
    p1: Pallet,
    p2: Pallet,
    m1: Moment,
    e1: Seq<u8>,
    m2: Moment,
    e2: Seq<u8>,
)
    requires
        m1 < m2,
        p1.feeds() == p0.feeds().insert(m1, e1),
        p1.most_recent_moment() == m1,
        p2.feeds() == p1.feeds().insert(m2, e2),
        p2.most_recent_moment() == m2,
    ensures
        p2.spec_most_recent_feed() == p2.spec_feed_at(m2),
        p2.spec_most_recent_feed() == Some(e2),
{
}

/// Executing an admitted prune of `time` removes exactly that entry: the feed
/// at `time` becomes absent and the feed at every other moment is untouched,
/// as is the most-recent pointer. The hypotheses are the state change
/// `remove_stale_event` guarantees.
pub proof fn lemma_prune_removes_exactly(p: Pallet, q: Pallet, time: Moment)
    requires
        q.feeds() == p.feeds().remove(time),
        q.most_recent_moment() == p.most_recent_moment(),
    ensures
        q.spec_feed_at(time) is None,
        forall|t: Moment| t != time ==> q.spec_feed_at(t) == p.spec_feed_at(t),
        q.most_recent_moment() == p.most_recent_moment(),
{
}

/// Pruning an absent moment is a no-op: when nothing is stored at `time`, the
/// store a prune of `time` leaves behind is the store it found. Pruning is
/// thus idempotent.
pub proof fn lemma_prune_absent_noop(p: Pallet, q: Pallet, time: Moment)
    requires
        !p.feeds().contains_key(time),
        q.feeds() == p.feeds().remove(time),
    ensures
        q.feeds() == p.feeds(),
{
    assert(q.feeds() =~= p.feeds());
}

/// Pruning never moves the most-recent pointer, even when the pruned moment
/// is the most recent one: a later most-recent query then returns absent
/// rather than resurrecting an older value.
pub proof fn lemma_prune_most_recent_yields_absent(p: Pallet, q: Pallet)
    requires
        q.feeds() == p.feeds().remove(p.most_recent_moment()),
        q.most_recent_moment() == p.most_recent_moment(),
    ensures
        q.spec_most_recent_feed() is None,
{
}

} // verus!
