use vstd::prelude::*;
use dashmap::DashMap;
use crate::rate_limit::NANOS_PER_SECOND;

verus! {

/// How long an indicator stays active after the last sign of activity, in nanoseconds.
pub const INDICATOR_TIMEOUT: u128 = 7 * NANOS_PER_SECOND;

/// What a producer must do after registering activity: the indicator was idle
/// and a new task takes it over, or the running task was told to carry on.
/// Either way a StartTyping is announced.
#[derive(Debug, Clone, Copy, PartialEq, Eq)]
pub enum Activation {
    Spawned { generation: u64 },
    Notified,
}

/// What the task that owns an indicator does when its timer fires.
#[derive(Debug, Clone, Copy, PartialEq, Eq)]
pub enum TaskStep {
    /// Activity came in meanwhile: sleep again until `until`.
    Wait { until: u128 },
    /// The task is done; it announces EndTyping where `announce` holds.
    Finish { announce: bool },
}

/// The mathematical state of an indicator.
pub struct IndicatorState {
    pub active: bool,
    pub deadline: nat,
    pub generation: nat,
}

/// The generation that follows `g`, wrapping at the end of `u64`.
pub open spec fn next_generation(g: nat) -> nat {
    if g >= u64::MAX {
        0
    } else {
        g + 1
    }
}

impl IndicatorState {
    /// What registering activity tells the producer to do.
    pub open spec fn activation(self) -> Activation {
        if self.active {
            Activation::Notified
        } else {
            Activation::Spawned { generation: next_generation(self.generation) as u64 }
        }
    }

    /// The state after registering activity at `now`: active until `now` plus
    /// the timeout; a new generation starts only when it was idle.
    pub open spec fn started(self, now: nat) -> IndicatorState {
        IndicatorState {
            active: true,
            deadline: (now + INDICATOR_TIMEOUT) as nat,
            generation: if self.active {
                self.generation
            } else {
                next_generation(self.generation)
            },
        }
    }

    /// The state after a clear: idle.
    pub open spec fn ended(self) -> IndicatorState {
        IndicatorState { active: false, ..self }
    }

    /// What the task of `generation` does when its timer fires at `now`.
    pub open spec fn timer_step(self, generation: nat, now: nat) -> TaskStep {
        if !self.active || generation != self.generation {
            TaskStep::Finish { announce: false }
        } else if now >= self.deadline {
            TaskStep::Finish { announce: true }
        } else {
            TaskStep::Wait { until: self.deadline as u128 }
        }
    }

    /// The state after the timer of the task of `generation` fired at `now`.
    pub open spec fn timer_fired(self, generation: nat, now: nat) -> IndicatorState {
        if self.active && generation == self.generation && now >= self.deadline {
            self.ended()
        } else {
            self
        }
    }
}

/// Whether an indicator is typing, when that ends, and which task owns it.
#[derive(Debug, Clone, Copy)]
pub struct Indicator {
    active: bool,
    deadline: u128,
    generation: u64,
}

impl View for Indicator {
    type V = IndicatorState;

    closed spec fn view(&self) -> IndicatorState {
        IndicatorState {
            active: self.active,
            deadline: self.deadline as nat,
            generation: self.generation as nat,
        }
    }
}

impl Indicator {
    /// An idle indicator.
    pub fn new() -> (r: Indicator)
        ensures
            r@ == idle(),
    {
        Indicator { active: false, deadline: 0, generation: 0 }
    }

    pub fn is_active(&self) -> (r: bool)
        ensures
            r == self@.active,
    {
        self.active
    }

    /// Registers activity at `now`: a StartTyping is due in every case; an idle
    /// indicator becomes active under a new task, an active one gets a fresh
    /// deadline and keeps its task.
    pub fn start_typing(&mut self, now: u128) -> (r: Activation)
        requires
            now + INDICATOR_TIMEOUT <= u128::MAX,
        ensures
            r == old(self)@.activation(),
            final(self)@ == old(self)@.started(now as nat),
    {
        let r = if self.active {
            Activation::Notified
        } else {
            self.generation = if self.generation == u64::MAX {
                0
            } else {
                self.generation + 1
            };
            self.active = true;
            Activation::Spawned { generation: self.generation }
        };
        self.deadline = now + INDICATOR_TIMEOUT;
        r
    }

    /// Clears activity: returns whether an EndTyping is due, which is when the
    /// indicator was active; it is idle afterwards.
    pub fn end_typing(&mut self) -> (r: bool)
        ensures
            r == old(self)@.active,
            final(self)@ == old(self)@.ended(),
    {
        let r = self.active;
        self.active = false;
        r
    }

    /// The timer of the task of `generation` fired at `now`.
    pub fn timer_fired(&mut self, generation: u64, now: u128) -> (r: TaskStep)
        ensures
            r == old(self)@.timer_step(generation as nat, now as nat),
            final(self)@ == old(self)@.timer_fired(generation as nat, now as nat),
    {
        if !self.active || generation != self.generation {
            TaskStep::Finish { announce: false }
        } else if now >= self.deadline {
            self.active = false;
            TaskStep::Finish { announce: true }
        } else {
            TaskStep::Wait { until: self.deadline }
        }
    }
}

/// Who is typing where.
#[derive(Debug, Clone, Copy, PartialEq, Eq, Hash)]
pub struct IndicatorKey {
    pub user_id: u128,
    pub group_id: u128,
}

/// A concurrent map from (user, group) pairs to their indicators.
pub type IndicatorTable = DashMap<IndicatorKey, Indicator>;

/// The indicators that a table holds, by key.
pub uninterp spec fn indicator_table(m: IndicatorTable) -> Map<IndicatorKey, Indicator>;

/// Relies on dashmap::DashMap::new: the new map is empty.
#[verifier::external_body]
fn new_indicator_table() -> (r: IndicatorTable)
    ensures
        indicator_table(r).is_empty(),
{
    DashMap::new()
}

/// Relies on dashmap::DashMap::get: the indicator stored under `key`, if any, copied out.
#[verifier::external_body]
fn lookup_indicator(m: &IndicatorTable, key: &IndicatorKey) -> (r: Option<Indicator>)
    ensures
        r == (if indicator_table(*m).contains_key(*key) {
            Some(indicator_table(*m)[*key])
        } else {
            None
        }),
{
    m.get(key).map(|i| *i)
}

/// Relies on dashmap::DashMap::insert: `key` maps to `indicator` afterwards, the rest is kept.
#[verifier::external_body]
fn store_indicator(m: &mut IndicatorTable, key: IndicatorKey, indicator: Indicator)
    ensures
        indicator_table(*final(m)) == indicator_table(*old(m)).insert(key, indicator),
{
    m.insert(key, indicator);
}

/// The state of an indicator that was never active.
pub open spec fn idle() -> IndicatorState {
    IndicatorState { active: false, deadline: 0, generation: 0 }
}

/// Typing indicators by (user, group); one is created on first activity and
/// never removed, only toggled.
#[derive(Debug)]
pub struct Indicators {
    indicators: IndicatorTable,
}

impl Indicators {
    /// The indicator states by key.
    pub closed spec fn states(&self) -> Map<IndicatorKey, IndicatorState> {
        indicator_table(self.indicators).map_values(|i: Indicator| i@)
    }

    /// The state of the indicator for `key`; idle where there is none.
    pub open spec fn current(&self, key: IndicatorKey) -> IndicatorState {
        if self.states().contains_key(key) {
            self.states()[key]
        } else {
            idle()
        }
    }

    pub fn new() -> (r: Indicators)
        ensures
            r.states().is_empty(),
    {
        let r = Indicators { indicators: new_indicator_table() };
        assert(r.states() =~= Map::<IndicatorKey, IndicatorState>::empty());
        r
    }

    /// Registers activity of `key` at `now`; see `Indicator::start_typing`.
    pub fn start_typing(&mut self, key: IndicatorKey, now: u128) -> (r: Activation)
        requires
            now + INDICATOR_TIMEOUT <= u128::MAX,
        ensures
            r == old(self).current(key).activation(),
            final(self).states() == old(self).states().insert(key, old(self).current(key).started(now as nat)),
    {
        let mut indicator = match lookup_indicator(&self.indicators, &key) {
            Some(i) => i,
            None => Indicator::new(),
        };
        let r = indicator.start_typing(now);
        let ghost before = self.states();
        store_indicator(&mut self.indicators, key, indicator);
        assert(self.states() =~= before.insert(key, indicator@));
        r
    }

    /// Clears activity of `key`: returns whether an EndTyping is due. A key
    /// without an indicator is left without one.
    pub fn end_typing(&mut self, key: IndicatorKey) -> (r: bool)
        ensures
            r == old(self).current(key).active,
            final(self).states() == if old(self).states().contains_key(key) {
                old(self).states().insert(key, old(self).states()[key].ended())
            } else {
                old(self).states()
            },
    {
        match lookup_indicator(&self.indicators, &key) {
            Some(i) => {
                let mut indicator = i;
                let r = indicator.end_typing();
                let ghost before = self.states();
                store_indicator(&mut self.indicators, key, indicator);
                assert(self.states() =~= before.insert(key, indicator@));
                r
            },
            None => false,
        }
    }

    /// The timer of the task of `generation` for `key` fired at `now`.
    pub fn timer_fired(&mut self, key: IndicatorKey, generation: u64, now: u128) -> (r: TaskStep)
        ensures
            r == old(self).current(key).timer_step(generation as nat, now as nat),
            final(self).states() == if old(self).states().contains_key(key) {
                old(self).states().insert(
                    key,
                    old(self).states()[key].timer_fired(generation as nat, now as nat),
                )
            } else {
                old(self).states()
            },
    {
        match lookup_indicator(&self.indicators, &key) {
            Some(i) => {
                let mut indicator = i;
                let r = indicator.timer_fired(generation, now);
                let ghost before = self.states();
                store_indicator(&mut self.indicators, key, indicator);
                assert(self.states() =~= before.insert(key, indicator@));
                r
            },
            None => TaskStep::Finish { announce: false },
        }
    }
}

/// Registering activity on an idle indicator starts a new task; registering
/// again before the deadline announces StartTyping again under the same task and
/// pushes the deadline to the timeout after the last activity. Until then the
/// task waits; when its timer fires at or after that deadline it announces
/// EndTyping exactly once, and after that nothing more is announced: neither a
/// later timer nor a clear.
pub proof fn lemma_debounce(s: IndicatorState, t1: nat, t2: nat, early: nat, late: nat)
    requires
        !s.active,
        t1 <= t2 < t1 + INDICATOR_TIMEOUT,
        early < t2 + INDICATOR_TIMEOUT <= late,
    ensures
        ({
            let a = s.started(t1);
            let b = a.started(t2);
            let g = a.generation;
            &&& s.activation() == (Activation::Spawned { generation: g as u64 })
            &&& a.activation() == Activation::Notified
            &&& b.generation == g
            &&& b.timer_step(g, early) == (TaskStep::Wait { until: (t2 + INDICATOR_TIMEOUT) as u128 })
            &&& b.timer_fired(g, early) == b
            &&& b.timer_step(g, late) == (TaskStep::Finish { announce: true })
            &&& !b.timer_fired(g, late).active
            &&& b.timer_fired(g, late).timer_step(g, late) == (TaskStep::Finish { announce: false })
            &&& b.timer_fired(g, late).ended() == b.timer_fired(g, late)
        }),
{
}

/// Clearing an active indicator announces EndTyping and leaves it idle; a second
/// clear announces nothing and changes nothing, and the task that owned it
/// finishes silently when its timer fires.
pub proof fn lemma_clear_idempotent(s: IndicatorState, now: nat)
    requires
        s.active,
    ensures
        !s.ended().active,
        s.ended().ended() == s.ended(),
        s.ended().timer_step(s.generation, now) == (TaskStep::Finish { announce: false }),
        s.ended().timer_fired(s.generation, now) == s.ended(),
{
}

} // verus!
