//! The alert coordinator and the alert signal slot.
//!
//! The coordinator is a two-state machine. Idle: the next bent
//! classification opens an alert window, records its start time and
//! emits a trigger, exactly once. Active: every classification is
//! swallowed until the fixed cooldown duration has elapsed, after
//! which the machine settles back to idle — a bent classification
//! that arrives on the very tick the window closes may open a new
//! window at once. Missed bends are lost, not queued.
//!
//! The slot is the single-slot, latest-value-wins handoff from the
//! sampling task to the alert-driving task: setting an already-set
//! slot coalesces, taking empties it, and no payload is carried
//! beyond "triggered".

use vstd::prelude::*;

verus! {

/// No alert in progress, or an alert window opened at a recorded
/// time.
#[derive(Clone, Copy, Debug, PartialEq, Eq, Structural)]
pub enum AlertState {
    Idle,
    Active { started_at: u64 },
}

/// The alert coordinator: the gating state and the fixed window
/// length.
pub struct AlertCoordinator {
    pub state: AlertState,
    pub duration_ms: u64,
}

/// The coordinator state after one classification arrives at time
/// `now`: an expired window settles to idle first, then a bent
/// classification in the idle state opens a window at `now`. A clock
/// that runs backwards past the window's start leaves the window
/// open.
pub open spec fn coord_step_state(st: AlertState, dur: u64, now: u64, bent: bool) -> AlertState {
    let settled = match st {
        AlertState::Active { started_at } => if started_at <= now && now - started_at >= dur {
            AlertState::Idle
        } else {
            st
        },
        AlertState::Idle => AlertState::Idle,
    };
    if settled == AlertState::Idle && bent {
        AlertState::Active { started_at: now }
    } else {
        settled
    }
}

/// Whether that classification emits a trigger: exactly when it is
/// bent and the coordinator is idle, or its window has just expired.
pub open spec fn coord_step_emits(st: AlertState, dur: u64, now: u64, bent: bool) -> bool {
    bent && match st {
        AlertState::Idle => true,
        AlertState::Active { started_at } => started_at <= now && now - started_at >= dur,
    }
}

/// The coordinator state after a whole run of classifications.
pub open spec fn coord_run_state(st: AlertState, dur: u64, ticks: Seq<(u64, bool)>) -> AlertState
    decreases ticks.len(),
{
    if ticks.len() == 0 {
        st
    } else {
        coord_run_state(
            coord_step_state(st, dur, ticks[0].0, ticks[0].1),
            dur,
            ticks.drop_first(),
        )
    }
}

/// How many triggers a whole run of classifications emits.
pub open spec fn coord_emit_count(st: AlertState, dur: u64, ticks: Seq<(u64, bool)>) -> nat
    decreases ticks.len(),
{
    if ticks.len() == 0 {
        0
    } else {
        (if coord_step_emits(st, dur, ticks[0].0, ticks[0].1) {
            1nat
        } else {
            0nat
        }) + coord_emit_count(
            coord_step_state(st, dur, ticks[0].0, ticks[0].1),
            dur,
            ticks.drop_first(),
        )
    }
}

impl AlertCoordinator {
    /// A coordinator with no alert in progress.
    pub fn new(duration_ms: u64) -> (r: AlertCoordinator)
        requires
            1 <= duration_ms,
        ensures
            r.state == AlertState::Idle,
            r.duration_ms == duration_ms,
    {
        AlertCoordinator { state: AlertState::Idle, duration_ms }
    }

    /// Feed one classification made at `now_ms`. Returns whether the
    /// alert fires: exactly on a bent classification that finds the
    /// coordinator idle or its window expired.
    pub fn on_classification(&mut self, now_ms: u64, bent: bool) -> (trigger: bool)
        ensures
            final(self).duration_ms == old(self).duration_ms,
            final(self).state == coord_step_state(
                old(self).state,
                old(self).duration_ms,
                now_ms,
                bent,
            ),
            trigger == coord_step_emits(old(self).state, old(self).duration_ms, now_ms, bent),
    {
        let expired: bool = match self.state {
            AlertState::Active { started_at } => now_ms >= started_at && now_ms - started_at
                >= self.duration_ms,
            AlertState::Idle => false,
        };
        if expired {
            self.state = AlertState::Idle;
        }
        let idle: bool = matches!(self.state, AlertState::Idle);
        if idle && bent {
            self.state = AlertState::Active { started_at: now_ms };
            true
        } else {
            false
        }
    }
}

/// Hold-state idempotence: while an alert window is open, further
/// classifications — however many, bent or not — emit nothing and
/// leave the window exactly as it is, as long as they arrive before
/// the window's duration has elapsed.
pub proof fn lemma_active_holds(t0: u64, dur: u64, ticks: Seq<(u64, bool)>)
    requires
        forall|i: int|
            0 <= i < ticks.len() ==> t0 <= (#[trigger] ticks[i]).0 && ticks[i].0 < t0 + dur,
    ensures
        coord_run_state(AlertState::Active { started_at: t0 }, dur, ticks) == (AlertState::Active {
            started_at: t0,
        }),
        coord_emit_count(AlertState::Active { started_at: t0 }, dur, ticks) == 0,
    decreases ticks.len(),
{
    if ticks.len() > 0 {
        let now = ticks[0].0;
        let bent = ticks[0].1;
        assert(!coord_step_emits(AlertState::Active { started_at: t0 }, dur, now, bent));
        assert(coord_step_state(AlertState::Active { started_at: t0 }, dur, now, bent)
            == (AlertState::Active { started_at: t0 }));
        assert(forall|i: int|
            0 <= i < ticks.drop_first().len() ==> t0 <= (#[trigger] ticks.drop_first()[i]).0
                && ticks.drop_first()[i].0 < t0 + dur) by {
            assert(forall|i: int|
                0 <= i < ticks.drop_first().len() ==> #[trigger] ticks.drop_first()[i]
                    == ticks[i + 1]);
        }
        lemma_active_holds(t0, dur, ticks.drop_first());
    }
}

/// One trigger per window: a bent classification that finds the
/// coordinator idle emits a trigger and opens a window, and no
/// classification that arrives while the window is still open emits
/// another — exactly one emission however long the bent state lasts.
pub proof fn lemma_single_trigger_per_window(dur: u64, t0: u64, ticks: Seq<(u64, bool)>)
    requires
        1 <= dur,
        forall|i: int|
            0 <= i < ticks.len() ==> t0 <= (#[trigger] ticks[i]).0 && ticks[i].0 < t0 + dur,
    ensures
        coord_step_emits(AlertState::Idle, dur, t0, true),
        coord_step_state(AlertState::Idle, dur, t0, true) == (AlertState::Active {
            started_at: t0,
        }),
        coord_emit_count(coord_step_state(AlertState::Idle, dur, t0, true), dur, ticks) == 0,
{
    lemma_active_holds(t0, dur, ticks);
}

/// The alert signal slot: a coalescing one-bit handoff.
pub struct SignalSlot {
    pub set: bool,
}

impl SignalSlot {
    /// An empty slot.
    pub fn new() -> (r: SignalSlot)
        ensures
            !r.set,
    {
        SignalSlot { set: false }
    }

    /// Raise the signal. Raising an already-raised signal coalesces:
    /// the slot holds one pending trigger, never a queue.
    pub fn signal(&mut self)
        ensures
            final(self).set,
    {
        self.set = true;
    }

    /// Consume the pending trigger, if any: returns whether one was
    /// pending and leaves the slot empty.
    pub fn take(&mut self) -> (r: bool)
        ensures
            r == old(self).set,
            !final(self).set,
    {
        let r = self.set;
        self.set = false;
        r
    }

    /// Clear the slot without looking at it.
    pub fn reset(&mut self)
        ensures
            !final(self).set,
    {
        self.set = false;
    }

    /// Whether a trigger is pending.
    pub fn is_signaled(&self) -> (r: bool)
        ensures
            r == self.set,
    {
        self.set
    }
}

} // verus!
