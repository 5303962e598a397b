use vstd::prelude::*;

use crate::event::{Event, EventCtx, ANIM_FRAME_TIMER_ID};
use crate::time::{Duration, Instant};

verus! {

/// Progress of a loader that has grown completely; progress is counted in
/// thousandths of the full hold.
pub const PROGRESS_MAX: u16 = 1000;

/// Thousandths of a full run covered after `elapsed` of `duration`
/// milliseconds, capped at the full run.
pub open spec fn run_progress(elapsed: nat, duration: nat) -> nat {
    if duration == 0 || elapsed >= duration {
        PROGRESS_MAX as nat
    } else {
        elapsed * (PROGRESS_MAX as nat) / duration
    }
}

#[derive(Copy, Clone, Debug, PartialEq, Eq, Structural)]
pub enum LoaderState {
    /// No hold in progress, progress is zero.
    Initial,
    /// Growing toward the full run; `from` is the progress at `start`.
    Growing { start: Instant, from: u16 },
    /// Shrinking toward zero; `from` is the progress at `start`.
    Shrinking { start: Instant, from: u16 },
    /// A completed hold, progress is full.
    Grown,
}

#[derive(Copy, Clone, Debug, PartialEq, Eq, Structural)]
pub enum LoaderMsg {
    GrownCompletely,
    ShrunkCompletely,
}

/// The hold timer: progress toward a full hold grows over `growing_ms`
/// and, once reversed, falls back to zero over `shrinking_ms`.
#[derive(Copy, Clone, Debug, PartialEq, Eq, Structural)]
pub struct Loader {
    pub growing_ms: u32,
    pub shrinking_ms: u32,
    pub state: LoaderState,
}

impl Loader {
    pub open spec fn wf(self) -> bool {
        match self.state {
            LoaderState::Growing { from, .. } => from <= PROGRESS_MAX,
            LoaderState::Shrinking { from, .. } => from <= PROGRESS_MAX,
            _ => true,
        }
    }

    /// A fresh loader for a hold of `growing_ms`; shrinking takes a third of it.
    pub open spec fn spec_new(growing_ms: u32) -> Loader {
        Loader { growing_ms, shrinking_ms: growing_ms / 3, state: LoaderState::Initial }
    }

    /// Progress at `now`, in thousandths of a full hold.
    pub open spec fn spec_progress(self, now: Instant) -> nat {
        match self.state {
            LoaderState::Initial => 0,
            LoaderState::Grown => PROGRESS_MAX as nat,
            LoaderState::Growing { start, from } => {
                let sum = from + run_progress(now.spec_elapsed_since(start), self.growing_ms as nat);
                if sum >= PROGRESS_MAX { PROGRESS_MAX as nat } else { sum as nat }
            },
            LoaderState::Shrinking { start, from } => {
                let fall = run_progress(now.spec_elapsed_since(start), self.shrinking_ms as nat);
                if fall >= from { 0 } else { (from - fall) as nat }
            },
        }
    }

    pub open spec fn spec_is_animating(self) -> bool {
        self.state is Growing || self.state is Shrinking
    }

    pub open spec fn spec_start_growing(self, now: Instant) -> Loader {
        let from = if self.state is Shrinking { self.spec_progress(now) } else { 0 };
        Loader { state: LoaderState::Growing { start: now, from: from as u16 }, ..self }
    }

    pub open spec fn spec_start_shrinking(self, now: Instant) -> Loader {
        Loader {
            state: LoaderState::Shrinking { start: now, from: self.spec_progress(now) as u16 },
            ..self
        }
    }

    /// The loader after an event at `now`, and what it reports: a growing
    /// loader at full progress completes, a shrinking one at zero empties.
    pub open spec fn spec_event(self, event: Event, now: Instant) -> (Loader, Option<LoaderMsg>) {
        if event == Event::Timer(crate::event::TimerToken { id: ANIM_FRAME_TIMER_ID }) {
            if self.state is Growing && self.spec_progress(now) == PROGRESS_MAX {
                (Loader { state: LoaderState::Grown, ..self }, Some(LoaderMsg::GrownCompletely))
            } else if self.state is Shrinking && self.spec_progress(now) == 0 {
                (Loader { state: LoaderState::Initial, ..self }, Some(LoaderMsg::ShrunkCompletely))
            } else {
                (self, None)
            }
        } else {
            (self, None)
        }
    }

    pub fn new(growing: Duration) -> (r: Loader)
        ensures
            r == Loader::spec_new(growing.millis),
            r.wf(),
    {
        Loader { growing_ms: growing.millis, shrinking_ms: growing.millis / 3, state: LoaderState::Initial }
    }

    /// Sets a new hold duration; the shrinking duration follows it.
    pub fn set_duration(&mut self, growing: Duration)
        ensures
            final(self).growing_ms == growing.millis,
            final(self).shrinking_ms == growing.millis / 3,
            final(self).state == old(self).state,
    {
        self.growing_ms = growing.millis;
        self.shrinking_ms = growing.millis / 3;
    }

    pub fn get_duration(&self) -> (r: Duration)
        ensures
            r.millis == self.growing_ms,
    {
        Duration::from_millis(self.growing_ms)
    }

    /// Forces the progress to zero and stops any run.
    pub fn reset(&mut self)
        ensures
            *final(self) == (Loader { state: LoaderState::Initial, ..*old(self) }),
    {
        self.state = LoaderState::Initial;
    }

    fn run_progress(elapsed: u64, duration: u32) -> (r: u16)
        ensures
            r as nat == run_progress(elapsed as nat, duration as nat),
            r <= PROGRESS_MAX,
    {
        if duration == 0 || elapsed >= duration as u64 {
            PROGRESS_MAX
        } else {
            proof {
                lemma_partial_run_below_full(elapsed as nat, duration as nat);
                assert(elapsed * 1000 <= 0xffff_ffffu64 * 1000) by (nonlinear_arith)
                    requires
                        elapsed < duration,
                        duration <= 0xffff_ffffu64,
                ;
            }
            ((elapsed * 1000) / (duration as u64)) as u16
        }
    }

    pub fn progress(&self, now: Instant) -> (r: u16)
        requires
            self.wf(),
        ensures
            r as nat == self.spec_progress(now),
            r <= PROGRESS_MAX,
    {
        match self.state {
            LoaderState::Initial => 0,
            LoaderState::Grown => PROGRESS_MAX,
            LoaderState::Growing { start, from } => {
                let ran = Self::run_progress(now.saturating_duration_since(start), self.growing_ms);
                if from + ran >= PROGRESS_MAX {
                    PROGRESS_MAX
                } else {
                    from + ran
                }
            },
            LoaderState::Shrinking { start, from } => {
                let fall = Self::run_progress(now.saturating_duration_since(start), self.shrinking_ms);
                if fall >= from {
                    0
                } else {
                    from - fall
                }
            },
        }
    }

    pub fn is_animating(&self) -> (r: bool)
        ensures
            r == self.spec_is_animating(),
    {
        match self.state {
            LoaderState::Growing { .. } | LoaderState::Shrinking { .. } => true,
            _ => false,
        }
    }

    /// Whether the progress has reached a full hold.
    pub fn is_completely_grown(&self, now: Instant) -> (r: bool)
        requires
            self.wf(),
        ensures
            r == (self.spec_progress(now) == PROGRESS_MAX),
    {
        self.progress(now) == PROGRESS_MAX
    }

    /// Whether the progress has fallen back to zero.
    pub fn is_completely_shrunk(&self, now: Instant) -> (r: bool)
        requires
            self.wf(),
        ensures
            r == (self.spec_progress(now) == 0),
    {
        self.progress(now) == 0
    }

    /// Starts growing toward a full hold; a shrinking loader resumes from its
    /// current progress, any other starts from zero.
    pub fn start_growing(&mut self, ctx: &mut EventCtx, now: Instant)
        requires
            old(self).wf(),
        ensures
            *final(self) == old(self).spec_start_growing(now),
            final(self).wf(),
            final(ctx).now == old(ctx).now,
            final(ctx).anim_frame_requested,
    {
        let from: u16 = match self.state {
            LoaderState::Shrinking { .. } => self.progress(now),
            _ => 0,
        };
        self.state = LoaderState::Growing { start: now, from };
        ctx.request_anim_frame();
    }

    /// Reverses toward zero from the current progress.
    pub fn start_shrinking(&mut self, ctx: &mut EventCtx, now: Instant)
        requires
            old(self).wf(),
        ensures
            *final(self) == old(self).spec_start_shrinking(now),
            final(self).wf(),
            final(ctx).now == old(ctx).now,
            final(ctx).anim_frame_requested,
    {
        let from = self.progress(now);
        self.state = LoaderState::Shrinking { start: now, from };
        ctx.request_anim_frame();
    }

    /// Handles an event at `ctx.now`: on an animation frame a running loader
    /// asks for a repaint and either reports its end or asks for a next frame.
    pub fn event(&mut self, ctx: &mut EventCtx, event: Event) -> (r: Option<LoaderMsg>)
        requires
            old(self).wf(),
        ensures
            (*final(self), r) == old(self).spec_event(event, old(ctx).now),
            final(self).wf(),
            final(ctx).now == old(ctx).now,
    {
        let now = ctx.now;
        if let Event::Timer(token) = event {
            if token.id == ANIM_FRAME_TIMER_ID && self.is_animating() {
                ctx.request_paint();
                let grows = match self.state {
                    LoaderState::Growing { .. } => true,
                    _ => false,
                };
                let p = self.progress(now);
                if grows && p == PROGRESS_MAX {
                    self.state = LoaderState::Grown;
                    return Some(LoaderMsg::GrownCompletely);
                } else if !grows && p == 0 {
                    self.state = LoaderState::Initial;
                    return Some(LoaderMsg::ShrunkCompletely);
                } else {
                    ctx.request_anim_frame();
                }
            }
        }
        None
    }
}

/// Short of the end of a run, less than the full run has been covered.
pub proof fn lemma_partial_run_below_full(elapsed: nat, duration: nat)
    requires
        elapsed < duration,
    ensures
        elapsed * 1000 / duration < 1000,
{
    let (e, d) = (elapsed as int, duration as int);
    assert(e * 1000 < d * 1000) by (nonlinear_arith)
        requires
            e < d,
    ;
    vstd::arithmetic::div_mod::lemma_div_by_multiple_is_strongly_ordered(e * 1000, d * 1000, 1000, d);
    vstd::arithmetic::div_mod::lemma_div_by_multiple(1000, d);
}

/// A run shown as progress never exceeds the full run, and covers more the
/// longer it has gone on.
pub proof fn lemma_run_progress_monotone(e1: nat, e2: nat, duration: nat)
    requires
        e1 <= e2,
    ensures
        run_progress(e1, duration) <= run_progress(e2, duration),
        run_progress(e2, duration) <= PROGRESS_MAX,
{
    if duration > 0 && e2 < duration {
        vstd::arithmetic::div_mod::lemma_div_is_ordered(e1 * 1000 as int, e2 * 1000 as int, duration as int);
        assert(e1 * 1000 <= e2 * 1000) by (nonlinear_arith)
            requires
                e1 <= e2,
        ;
        lemma_partial_run_below_full(e2, duration);
    } else if duration > 0 && e1 < duration {
        lemma_partial_run_below_full(e1, duration);
    }
}

impl Loader {
    /// Progress stays within zero and a full hold.
    pub proof fn lemma_progress_bounded(self, now: Instant)
        requires
            self.wf(),
        ensures
            self.spec_progress(now) <= PROGRESS_MAX,
    {
    }

    /// Once reversed, the progress of a hold never rises again, and it is
    /// back at zero when the shrinking duration has passed.
    pub proof fn lemma_shrinking_falls_to_zero(self, earlier: Instant, later: Instant)
        requires
            self.wf(),
            self.state is Shrinking,
            earlier.millis <= later.millis,
        ensures
            self.spec_progress(later) <= self.spec_progress(earlier),
            later.millis >= self.state->Shrinking_start.millis + self.shrinking_ms ==> self.spec_progress(later) == 0,
    {
        let start = self.state->Shrinking_start;
        lemma_run_progress_monotone(
            earlier.spec_elapsed_since(start),
            later.spec_elapsed_since(start),
            self.shrinking_ms as nat,
        );
    }

    /// A growing hold is at full progress once its duration has passed
    /// since it started.
    pub proof fn lemma_growing_completes(self, now: Instant)
        requires
            self.wf(),
            self.state is Growing,
            now.millis >= self.state->Growing_start.millis + self.growing_ms,
        ensures
            self.spec_progress(now) == PROGRESS_MAX,
    {
    }

    /// A hold grown from zero is short of full progress before its duration
    /// has passed.
    pub proof fn lemma_growing_incomplete(self, now: Instant)
        requires
            self.wf(),
            self.state == (LoaderState::Growing { start: self.state->Growing_start, from: 0 }),
            self.state->Growing_start.millis <= now.millis,
            now.millis < self.state->Growing_start.millis + self.growing_ms,
        ensures
            self.spec_progress(now) < PROGRESS_MAX,
    {
        let start = self.state->Growing_start;
        lemma_partial_run_below_full(now.spec_elapsed_since(start), self.growing_ms as nat);
    }
}

} // verus!
