use vstd::prelude::*;
use dashmap::DashMap;
use crate::clock::Clock;

pub mod key_extractor;
pub mod middleware;

pub use key_extractor::{ExtractKey, Facet, FacetValue, FnExtractor, Rejection, RequestContext, UserExtractor};
pub use middleware::{Denial, RateLimitLayer, RateLimitLayerBuilder};

verus! {

/// Nanoseconds in one second: the unit in which buckets read time.
pub const NANOS_PER_SECOND: u128 = 1_000_000_000;

/// How a guarded resource is limited: shared by every key of that resource.
#[derive(Debug, Clone, Copy, Default, PartialEq, Eq, Structural)]
pub struct BucketConfiguration {
    pub capacity: u64,
    pub refill_rate: u64,
}

/// The mathematical state of a bucket.
pub struct BucketState {
    pub tokens: nat,
    pub last_acquire: nat,
    pub config: BucketConfiguration,
}

impl BucketState {
    /// Tokens never exceed the capacity.
    pub open spec fn inv(self) -> bool {
        self.tokens <= self.config.capacity
    }

    /// Whole seconds from the last refill to `now`; zero if `now` lies before it.
    pub open spec fn elapsed_secs(self, now: nat) -> nat {
        if now >= self.last_acquire {
            ((now - self.last_acquire) as nat) / (NANOS_PER_SECOND as nat)
        } else {
            0
        }
    }

    /// Tokens after refilling up to `now`, capped at the capacity.
    pub open spec fn refilled(self, now: nat) -> nat {
        let sum = self.tokens + self.elapsed_secs(now) * self.config.refill_rate;
        if sum <= self.config.capacity {
            sum as nat
        } else {
            self.config.capacity as nat
        }
    }

    /// Whether an acquire at `now` admits.
    pub open spec fn admits(self, now: nat) -> bool {
        self.refilled(now) > 0
    }

    /// The state after an acquire at `now`.
    pub open spec fn acquired(self, now: nat) -> BucketState {
        let t = self.refilled(now);
        BucketState {
            tokens: if t > 0 { (t - 1) as nat } else { 0 },
            last_acquire: now,
            config: self.config,
        }
    }

    /// A fresh bucket created at `now`: full.
    pub open spec fn fresh(config: BucketConfiguration, now: nat) -> BucketState {
        BucketState { tokens: config.capacity as nat, last_acquire: now, config }
    }
}

/// The state after `n` acquires, all at `now`.
pub open spec fn acquired_times(s: BucketState, now: nat, n: nat) -> BucketState
    decreases n,
{
    if n == 0 {
        s
    } else {
        acquired_times(s, now, (n - 1) as nat).acquired(now)
    }
}

/// How many of `n` acquires, all at `now`, admit.
pub open spec fn admitted_times(s: BucketState, now: nat, n: nat) -> nat
    decreases n,
{
    if n == 0 {
        0
    } else {
        admitted_times(s, now, (n - 1) as nat) + if acquired_times(s, now, (n - 1) as nat).admits(
            now,
        ) {
            1nat
        } else {
            0nat
        }
    }
}

/// A burst of acquires at one instant admits exactly as many as the bucket held
/// after refilling, so never more than its capacity, and its tokens stay within
/// the capacity throughout.
pub proof fn lemma_burst_bounded(s: BucketState, now: nat, n: nat)
    ensures
        admitted_times(s, now, n) == if n <= s.refilled(now) {
            n
        } else {
            s.refilled(now)
        },
        admitted_times(s, now, n) <= s.config.capacity,
        n > 0 ==> acquired_times(s, now, n).inv(),
        acquired_times(s, now, n).config == s.config,
    decreases n,
{
    if n > 0 {
        let m = (n - 1) as nat;
        lemma_burst_bounded(s, now, m);
        lemma_burst_refill(s, now, m);
    }
    lemma_burst_refill(s, now, n);
}

/// The state after one acquire at each of `times`, in turn.
pub open spec fn acquired_over(s: BucketState, times: Seq<nat>) -> BucketState
    decreases times.len(),
{
    if times.len() == 0 {
        s
    } else {
        acquired_over(s, times.drop_last()).acquired(times.last())
    }
}

/// How many of the acquires at `times` admit.
pub open spec fn admitted_over(s: BucketState, times: Seq<nat>) -> nat
    decreases times.len(),
{
    if times.len() == 0 {
        0
    } else {
        admitted_over(s, times.drop_last()) + if acquired_over(s, times.drop_last()).admits(
            times.last(),
        ) {
            1nat
        } else {
            0nat
        }
    }
}

/// Each of `times` comes less than a whole second after the one before it.
pub open spec fn within_a_second(times: Seq<nat>) -> bool {
    forall|i: int| 0 < i < times.len() ==> #[trigger] times[i] < times[i - 1] + NANOS_PER_SECOND
}

/// Acquires that each come less than a whole second after the previous one see
/// no refill between them: they admit exactly as many as the bucket held after
/// refilling at the first, so never more than its capacity.
pub proof fn lemma_quick_calls_bounded(s: BucketState, times: Seq<nat>)
    requires
        times.len() > 0,
        within_a_second(times),
    ensures
        admitted_over(s, times) == if times.len() <= s.refilled(times[0]) {
            times.len() as nat
        } else {
            s.refilled(times[0])
        },
        admitted_over(s, times) <= s.config.capacity,
        acquired_over(s, times).inv(),
{
    lemma_quick_trace(s, times);
}

/// The bucket after acquires at `times` that each come less than a second after
/// the previous one: one token fewer for each, down to none.
proof fn lemma_quick_trace(s: BucketState, times: Seq<nat>)
    requires
        times.len() > 0,
        within_a_second(times),
    ensures
        ({
            let r = s.refilled(times[0]);
            let t = acquired_over(s, times);
            let n = times.len() as nat;
            &&& t.last_acquire == times.last()
            &&& t.config == s.config
            &&& t.tokens == if n <= r {
                (r - n) as nat
            } else {
                0
            }
            &&& admitted_over(s, times) == if n <= r {
                n
            } else {
                r
            }
        }),
    decreases times.len(),
{
    if times.len() > 1 {
        let prefix = times.drop_last();
        assert forall|i: int| 0 < i < prefix.len() implies #[trigger] prefix[i] < prefix[i - 1]
            + NANOS_PER_SECOND by {
            assert(times[i] < times[i - 1] + NANOS_PER_SECOND);
        }
        lemma_quick_trace(s, prefix);
        let prev = acquired_over(s, prefix);
        let now = times.last();
        let k = times.len() - 1;
        assert(times[k] < times[k - 1] + NANOS_PER_SECOND);
        assert(prefix.last() == times[k - 1]);
        if now >= prev.last_acquire {
            let d = (now - prev.last_acquire) as nat;
            assert(d < NANOS_PER_SECOND);
            assert(d / (NANOS_PER_SECOND as nat) == 0) by (nonlinear_arith)
                requires d < NANOS_PER_SECOND;
        }
        let e = prev.elapsed_secs(now);
        assert(e == 0);
        assert(e * prev.config.refill_rate == 0) by (nonlinear_arith)
            requires e == 0;
        assert(prefix[0] == times[0]);
        assert(prev.refilled(now) == prev.tokens);
    } else {
        assert(times.drop_last().len() == 0);
        assert(acquired_over(s, times.drop_last()) == s);
        assert(admitted_over(s, times.drop_last()) == 0);
    }
}

/// After `n` acquires at `now`, refilling at `now` again adds nothing.
proof fn lemma_burst_refill(s: BucketState, now: nat, n: nat)
    ensures
        acquired_times(s, now, n).refilled(now) == if n <= s.refilled(now) {
            (s.refilled(now) - n) as nat
        } else {
            0
        },
        n > 0 ==> acquired_times(s, now, n).inv(),
        acquired_times(s, now, n).config == s.config,
    decreases n,
{
    if n > 0 {
        let m = (n - 1) as nat;
        lemma_burst_refill(s, now, m);
        let t = acquired_times(s, now, n);
        assert(t.last_acquire == now);
        assert(t.elapsed_secs(now) == 0);
        assert(t.elapsed_secs(now) * t.config.refill_rate == 0);
    }
}

/// A token bucket: permits that refill by whole elapsed seconds.
#[derive(Debug, Clone, Copy)]
pub struct Bucket {
    tokens: u64,
    last_acquire: u128,
    config: BucketConfiguration,
}

impl View for Bucket {
    type V = BucketState;

    closed spec fn view(&self) -> BucketState {
        BucketState {
            tokens: self.tokens as nat,
            last_acquire: self.last_acquire as nat,
            config: self.config,
        }
    }
}

impl Bucket {
    /// A full bucket whose last refill is `now` (nanoseconds on a monotonic clock).
    pub fn new(config: BucketConfiguration, now: u128) -> (r: Bucket)
        ensures
            r@ == BucketState::fresh(config, now as nat),
    {
        Bucket { tokens: config.capacity, last_acquire: now, config }
    }

    /// The same bucket under `config`: its tokens and last refill are kept.
    pub fn with_config(self, config: BucketConfiguration) -> (r: Bucket)
        ensures
            r@ == (BucketState { config, ..self@ }),
    {
        Bucket { config, ..self }
    }

    pub fn tokens(&self) -> (r: u64)
        ensures
            r == self@.tokens,
    {
        self.tokens
    }

    pub fn last_acquire(&self) -> (r: u128)
        ensures
            r == self@.last_acquire,
    {
        self.last_acquire
    }

    pub fn config(&self) -> (r: BucketConfiguration)
        ensures
            r == self@.config,
    {
        self.config
    }

    /// Refills by whole elapsed seconds up to `now`, then takes one token if any.
    pub fn acquire(&mut self, now: u128) -> (r: bool)
        ensures
            r == old(self)@.admits(now as nat),
            final(self)@ == old(self)@.acquired(now as nat),
            final(self)@.inv(),
    {
        let secs: u128 = if now >= self.last_acquire {
            (now - self.last_acquire) / NANOS_PER_SECOND
        } else {
            0
        };
        let full = self.tokens >= self.config.capacity;
        let room: u64 = if full {
            0
        } else {
            self.config.capacity - self.tokens
        };
        let refill: Option<u64> = if self.config.refill_rate == 0 {
            Some(0)
        } else if secs > u64::MAX as u128 {
            None
        } else {
            (secs as u64).checked_mul(self.config.refill_rate)
        };
        let ghost s = self@;
        proof {
            assert(secs == s.elapsed_secs(now as nat));
        }
        proof {
            if self.config.refill_rate == 0 {
                assert(secs * self.config.refill_rate == 0) by (nonlinear_arith)
                    requires self.config.refill_rate == 0;
            }
        }
        self.tokens = match refill {
            Some(amount) if !full && amount <= room => self.tokens + amount,
            _ => {
                proof {
                    let rate = self.config.refill_rate as int;
                    assert(secs * rate >= 0) by (nonlinear_arith)
                        requires secs >= 0, rate >= 0;
                    if secs > u64::MAX as u128 && rate > 0 {
                        assert(secs * rate >= secs) by (nonlinear_arith)
                            requires rate > 0, secs >= 0;
                    }
                    assert(s.tokens + secs * rate >= s.config.capacity);
                }
                self.config.capacity
            },
        };
        assert(self.tokens == s.refilled(now as nat));
        self.last_acquire = now;
        if self.tokens == 0 {
            false
        } else {
            self.tokens = self.tokens - 1;
            true
        }
    }
}

/// A network peer: an IP address and a port.
#[derive(Debug, Clone, Copy, PartialEq, Eq, Hash)]
pub enum SocketAddress {
    V4 { ip: u32, port: u16 },
    V6 { segments: u128, port: u16, flowinfo: u32, scope_id: u32 },
}

/// What distinguishes one caller from another within a guarded resource.
#[derive(Debug, Clone, Copy, PartialEq, Eq, Hash)]
pub enum Component {
    Uuid(u128),
    SocketAddr(SocketAddress),
}

/// A rate-limit key: the guarded resource's namespace and the caller's component.
#[derive(Debug, Clone, Copy, PartialEq, Eq, Hash)]
pub struct Key(pub &'static str, pub Component);

#[verifier::external_type_specification]
#[verifier::external_body]
#[verifier::reject_recursive_types(K)]
#[verifier::reject_recursive_types(V)]
#[verifier::reject_recursive_types(S)]
pub struct ExDashMap<K, V, S>(dashmap::DashMap<K, V, S>);

/// A concurrent map from keys to their buckets.
pub type BucketTable = DashMap<Key, Bucket>;

/// The buckets that a table holds, by key.
pub uninterp spec fn bucket_table(m: BucketTable) -> Map<Key, Bucket>;

/// Relies on dashmap::DashMap::new: the new map is empty.
#[verifier::external_body]
fn new_bucket_table() -> (r: BucketTable)
    ensures
        bucket_table(r).is_empty(),
{
    DashMap::new()
}

/// Relies on dashmap::DashMap::get: the bucket stored under `key`, if any, copied out.
#[verifier::external_body]
fn lookup_bucket(m: &BucketTable, key: &Key) -> (r: Option<Bucket>)
    ensures
        r == (if bucket_table(*m).contains_key(*key) {
            Some(bucket_table(*m)[*key])
        } else {
            None
        }),
{
    m.get(key).map(|b| *b)
}

/// Relies on dashmap::DashMap::insert: `key` maps to `bucket` afterwards, the rest is kept.
#[verifier::external_body]
fn store_bucket(m: &mut BucketTable, key: Key, bucket: Bucket)
    ensures
        bucket_table(*final(m)) == bucket_table(*old(m)).insert(key, bucket),
{
    m.insert(key, bucket);
}

/// The state the bucket for `key` is in before an acquire at `now` under
/// `config`, among `states`: the one there is, read under `config`, or a full
/// one made from `config`.
pub open spec fn current_in(
    states: Map<Key, BucketState>,
    key: Key,
    config: BucketConfiguration,
    now: nat,
) -> BucketState {
    if states.contains_key(key) {
        BucketState { config, ..states[key] }
    } else {
        BucketState::fresh(config, now)
    }
}

/// The bucket states after acquiring, at `now` and under `config`, for each key
/// of `calls` in turn.
pub open spec fn run_calls(
    states: Map<Key, BucketState>,
    calls: Seq<Key>,
    config: BucketConfiguration,
    now: nat,
) -> Map<Key, BucketState>
    decreases calls.len(),
{
    if calls.len() == 0 {
        states
    } else {
        let before = run_calls(states, calls.drop_last(), config, now);
        before.insert(calls.last(), current_in(before, calls.last(), config, now).acquired(now))
    }
}

/// How many of `calls` on `key` admit.
pub open spec fn admitted_for(
    states: Map<Key, BucketState>,
    calls: Seq<Key>,
    config: BucketConfiguration,
    now: nat,
    key: Key,
) -> nat
    decreases calls.len(),
{
    if calls.len() == 0 {
        0
    } else {
        let before = run_calls(states, calls.drop_last(), config, now);
        admitted_for(states, calls.drop_last(), config, now, key) + if calls.last() == key
            && current_in(before, key, config, now).admits(now) {
            1nat
        } else {
            0nat
        }
    }
}

/// How many of `calls` are on `key`.
pub open spec fn calls_on(calls: Seq<Key>, key: Key) -> nat
    decreases calls.len(),
{
    if calls.len() == 0 {
        0
    } else {
        calls_on(calls.drop_last(), key) + if calls.last() == key {
            1nat
        } else {
            0nat
        }
    }
}

/// Acquires at one instant under one configuration, on any keys and in any
/// order, admit on each key exactly as many as its bucket held after refilling,
/// and so never more than its capacity: calls on other keys neither add to nor
/// take from it, and no call on the key is lost.
pub proof fn lemma_interleaved_burst(
    states: Map<Key, BucketState>,
    calls: Seq<Key>,
    config: BucketConfiguration,
    now: nat,
    key: Key,
)
    ensures
        ({
            let start = current_in(states, key, config, now);
            let n = calls_on(calls, key);
            &&& admitted_for(states, calls, config, now, key) == if n <= start.refilled(now) {
                n
            } else {
                start.refilled(now)
            }
            &&& admitted_for(states, calls, config, now, key) <= start.config.capacity
        }),
{
    let start = current_in(states, key, config, now);
    lemma_key_trace(states, calls, config, now, key);
    lemma_burst_bounded(start, now, calls_on(calls, key));
}

/// The bucket of `key` after `calls` is the one it started in, acquired once
/// for each call on `key`.
proof fn lemma_key_trace(
    states: Map<Key, BucketState>,
    calls: Seq<Key>,
    config: BucketConfiguration,
    now: nat,
    key: Key,
)
    ensures
        current_in(run_calls(states, calls, config, now), key, config, now) == acquired_times(
            current_in(states, key, config, now),
            now,
            calls_on(calls, key),
        ),
        admitted_for(states, calls, config, now, key) == admitted_times(
            current_in(states, key, config, now),
            now,
            calls_on(calls, key),
        ),
    decreases calls.len(),
{
    if calls.len() > 0 {
        lemma_key_trace(states, calls.drop_last(), config, now, key);
    }
}

/// Token buckets by key, created full on first use.
#[derive(Debug)]
pub struct Buckets {
    buckets: BucketTable,
    clock: Clock,
}

impl Buckets {
    /// The bucket states by key.
    pub closed spec fn states(&self) -> Map<Key, BucketState> {
        bucket_table(self.buckets).map_values(|b: Bucket| b@)
    }

    /// Every bucket holds no more tokens than its capacity.
    pub open spec fn wf(&self) -> bool {
        forall|k: Key| #[trigger] self.states().contains_key(k) ==> self.states()[k].inv()
    }

    /// The state the bucket for `key` is in before an acquire at `now`.
    pub open spec fn current(&self, key: Key, config: BucketConfiguration, now: nat) -> BucketState {
        current_in(self.states(), key, config, now)
    }

    pub fn new() -> (r: Buckets)
        ensures
            r.wf(),
            r.states() == Map::<Key, BucketState>::empty(),
    {
        let r = Buckets { buckets: new_bucket_table(), clock: Clock::start() };
        assert(r.states() =~= Map::<Key, BucketState>::empty());
        r
    }

    /// Acquires a token for `key` at `now` under `config`; a key seen for the
    /// first time gets a full bucket.
    pub fn acquire_at(&mut self, key: Key, config: BucketConfiguration, now: u128) -> (r: bool)
        requires
            old(self).wf(),
        ensures
            final(self).wf(),
            r == old(self).current(key, config, now as nat).admits(now as nat),
            final(self).states() == old(self).states().insert(
                key,
                old(self).current(key, config, now as nat).acquired(now as nat),
            ),
    {
        let mut bucket = match lookup_bucket(&self.buckets, &key) {
            Some(b) => b.with_config(config),
            None => Bucket::new(config, now),
        };
        assert(bucket@ == self.current(key, config, now as nat));
        let admitted = bucket.acquire(now);
        let ghost before = self.states();
        store_bucket(&mut self.buckets, key, bucket);
        assert(self.states() =~= before.insert(key, bucket@));
        admitted
    }

    /// Acquires a token for `key` at the present time.
    pub fn acquire(&mut self, key: Key, config: BucketConfiguration) -> (r: bool)
        requires
            old(self).wf(),
        ensures
            final(self).wf(),
            exists|now: nat|
                r == old(self).current(key, config, now).admits(now) && final(self).states()
                    == old(self).states().insert(key, old(self).current(key, config, now).acquired(now)),
    {
        let now = self.clock.now();
        self.acquire_at(key, config, now)
    }
}

} // verus!
