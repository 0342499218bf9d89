//! Countdown timer gating repeatable actions (firing, enemy spawning).
//!
//! The timer counts `current` down by each tick's delta and reports itself
//! elapsed once `current` drops below zero; `restart` winds it back up to
//! `cool_down`. The count saturates at `-COOLDOWN_LIMIT`, far below any
//! duration the timer accepts, so saturation never changes what `is_elapsed`
//! reports.

use vstd::prelude::*;

verus! {

/// Largest duration magnitude a timer holds, in milliseconds; also the floor
/// at which the running count saturates.
pub const COOLDOWN_LIMIT: i64 = 1_000_000_000;

#[derive(Clone, Copy, Debug, PartialEq, Eq, Structural)]
pub struct Cooldown {
    /// Milliseconds still to wait; negative once the timer has elapsed.
    pub current: i64,
    /// Duration the timer winds back to on restart, in milliseconds.
    pub cool_down: i64,
}

/// The timer's values stay within the accepted duration range.
pub open spec fn cooldown_wf(c: Cooldown) -> bool {
    &&& -COOLDOWN_LIMIT <= c.current <= COOLDOWN_LIMIT
    &&& -COOLDOWN_LIMIT <= c.cool_down <= COOLDOWN_LIMIT
}

/// The timer after one update by `delta` milliseconds.
pub open spec fn cooldown_stepped(c: Cooldown, delta: int) -> Cooldown {
    Cooldown {
        current: (if c.current - delta < -COOLDOWN_LIMIT {
            -COOLDOWN_LIMIT as int
        } else {
            c.current - delta
        }) as i64,
        cool_down: c.cool_down,
    }
}

/// The timer after a restart.
pub open spec fn cooldown_restarted(c: Cooldown) -> Cooldown {
    Cooldown { current: c.cool_down, cool_down: c.cool_down }
}

impl Cooldown {
    pub fn new(time: i64) -> (r: Cooldown)
        requires
            -COOLDOWN_LIMIT <= time <= COOLDOWN_LIMIT,
        ensures
            r == (Cooldown { current: time, cool_down: time }),
            cooldown_wf(r),
    {
        Cooldown { current: time, cool_down: time }
    }

    pub fn set_cooldown(&mut self, new_cooldown: i64)
        requires
            -COOLDOWN_LIMIT <= new_cooldown <= COOLDOWN_LIMIT,
        ensures
            *final(self) == (Cooldown { current: old(self).current, cool_down: new_cooldown }),
    {
        self.cool_down = new_cooldown;
    }

    /// Advances the timer by `delta` milliseconds.
    pub fn update(&mut self, delta: i64)
        requires
            cooldown_wf(*old(self)),
            0 <= delta <= COOLDOWN_LIMIT,
        ensures
            *final(self) == cooldown_stepped(*old(self), delta as int),
            cooldown_wf(*final(self)),
    {
        if self.current - delta < -COOLDOWN_LIMIT {
            self.current = -COOLDOWN_LIMIT;
        } else {
            self.current = self.current - delta;
        }
    }

    /// Whether the wait is over: strictly below zero, so a timer that has
    /// counted down to exactly zero has not yet elapsed.
    pub fn is_elapsed(&self) -> (r: bool)
        ensures
            r == (self.current < 0),
    {
        self.current < 0
    }

    /// Winds the timer back up to its full duration.
    pub fn restart(&mut self)
        ensures
            *final(self) == cooldown_restarted(*old(self)),
    {
        self.current = self.cool_down;
    }
}

/// The timer after a whole run of updates, one per element of `deltas`.
pub open spec fn cooldown_run(c: Cooldown, deltas: Seq<i64>) -> Cooldown
    decreases deltas.len(),
{
    if deltas.len() == 0 {
        c
    } else {
        cooldown_stepped(cooldown_run(c, deltas.drop_last()), deltas.last() as int)
    }
}

/// Total of a sequence of deltas.
pub open spec fn sum_of(deltas: Seq<i64>) -> int
    decreases deltas.len(),
{
    if deltas.len() == 0 {
        0
    } else {
        sum_of(deltas.drop_last()) + deltas.last()
    }
}

/// A run of nonnegative updates drives `current` down by exactly their sum,
/// up to the saturation floor.
pub proof fn lemma_cooldown_run(c: Cooldown, deltas: Seq<i64>)
    requires
        cooldown_wf(c),
        forall|i: int| 0 <= i < deltas.len() ==> 0 <= #[trigger] deltas[i] <= COOLDOWN_LIMIT,
    ensures
        cooldown_run(c, deltas).cool_down == c.cool_down,
        cooldown_run(c, deltas).current == if c.current - sum_of(deltas) < -COOLDOWN_LIMIT {
            -COOLDOWN_LIMIT as int
        } else {
            c.current - sum_of(deltas)
        },
        cooldown_wf(cooldown_run(c, deltas)),
    decreases deltas.len(),
{
    if deltas.len() > 0 {
        lemma_cooldown_run(c, deltas.drop_last());
        assert(deltas.last() == deltas[deltas.len() - 1]);
        assert(0 <= sum_of(deltas.drop_last())) by {
            lemma_sum_nonneg(deltas.drop_last());
        }
    }
}

/// A sequence of nonnegative deltas has a nonnegative sum.
proof fn lemma_sum_nonneg(deltas: Seq<i64>)
    requires
        forall|i: int| 0 <= i < deltas.len() ==> 0 <= #[trigger] deltas[i],
    ensures
        0 <= sum_of(deltas),
    decreases deltas.len(),
{
    if deltas.len() > 0 {
        lemma_sum_nonneg(deltas.drop_last());
    }
}

/// The cooldown law: right after a restart of a timer with a positive
/// duration the timer is not elapsed; after further updates it is elapsed
/// exactly when their total strictly exceeds the duration — a total of
/// exactly the duration leaves it not yet elapsed.
pub proof fn lemma_cooldown_elapses(c: Cooldown, deltas: Seq<i64>)
    requires
        cooldown_wf(c),
        0 < c.cool_down,
        forall|i: int| 0 <= i < deltas.len() ==> 0 <= #[trigger] deltas[i] <= COOLDOWN_LIMIT,
    ensures
        cooldown_restarted(c).current >= 0,
        cooldown_run(cooldown_restarted(c), deltas).current < 0 <==> sum_of(deltas)
            > c.cool_down,
{
    lemma_cooldown_run(cooldown_restarted(c), deltas);
}

} // verus!
