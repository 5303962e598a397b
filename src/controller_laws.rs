//! What the button controller guarantees over whole gestures.
use vstd::prelude::*;

use crate::button::ButtonPos;
use crate::button_controller::{ButtonControllerMsg, ButtonState, ControlView, ControllerView};
use crate::event::{ButtonEvent, Event, PhysicalButton, TimerToken, ANIM_FRAME_TIMER_ID};
use crate::loader::{LoaderState, PROGRESS_MAX};
use crate::time::Instant;

verus! {

/// The gesture state after a button edge, by the transition table alone.
pub open spec fn gesture_next(g: ButtonState, b: ButtonEvent) -> ButtonState {
    match (g, b) {
        (ButtonState::Nothing, ButtonEvent::ButtonPressed(w)) => ButtonState::OneDown(w),
        (ButtonState::OneDown(d), ButtonEvent::ButtonReleased(x)) => {
            if x == d { ButtonState::Nothing } else { g }
        },
        (ButtonState::OneDown(d), ButtonEvent::ButtonPressed(x)) => {
            if x != d { ButtonState::BothDown } else { g }
        },
        (ButtonState::BothDown, ButtonEvent::ButtonReleased(x)) => ButtonState::OneReleased(x),
        (ButtonState::OneReleased(u), ButtonEvent::ButtonPressed(x)) => {
            if x == u { ButtonState::BothDown } else { g }
        },
        (ButtonState::OneReleased(u), ButtonEvent::ButtonReleased(x)) => {
            if x != u { ButtonState::Nothing } else { g }
        },
        (ButtonState::HTCNeedsRelease(n), ButtonEvent::ButtonReleased(x)) => {
            if x == n { ButtonState::Nothing } else { g }
        },
        _ => g,
    }
}

/// Whether the edge completes a gesture: the release of the single button
/// that was down (a click of its position), or the release of the second
/// button after both were down (a click of the middle).
pub open spec fn completes_cycle(g: ButtonState, b: ButtonEvent) -> bool {
    match (g, b) {
        (ButtonState::OneDown(d), ButtonEvent::ButtonReleased(x)) => x == d,
        (ButtonState::OneReleased(u), ButtonEvent::ButtonReleased(x)) => x != u,
        _ => false,
    }
}

/// The number of gestures that a sequence of edges completes from `g`.
pub open spec fn count_cycles(g: ButtonState, evs: Seq<(ButtonEvent, Instant)>) -> nat
    decreases evs.len(),
{
    if evs.len() == 0 {
        0
    } else {
        let b = evs[0].0;
        count_cycles(gesture_next(g, b), evs.skip(1)) + if completes_cycle(g, b) { 1nat } else { 0nat }
    }
}

/// Feeds timed button edges to the controller: the controller after them,
/// and how many triggers it reported.
pub open spec fn run_edges(v: ControllerView, evs: Seq<(ButtonEvent, Instant)>) -> (ControllerView, nat)
    decreases evs.len(),
{
    if evs.len() == 0 {
        (v, 0)
    } else {
        let (v1, out) = v.step(Event::Button(evs[0].0), evs[0].1);
        let (v2, n) = run_edges(v1, evs.skip(1));
        (v2, n + if out is Some { 1nat } else { 0nat })
    }
}

pub open spec fn is_tap(c: ControlView) -> bool {
    c is Tap
}

pub open spec fn all_tap(v: ControllerView) -> bool {
    is_tap(v.left) && is_tap(v.middle) && is_tap(v.right)
}

/// With click controls at all three positions, the controller follows the
/// transition table and reports exactly one trigger per completed gesture:
/// a click of a single button, or both down and then released one after
/// the other.
pub proof fn lemma_taps_trigger_once_per_gesture(v: ControllerView, evs: Seq<(ButtonEvent, Instant)>)
    requires
        all_tap(v),
    ensures
        run_edges(v, evs).1 == count_cycles(v.state, evs),
    decreases evs.len(),
{
    if evs.len() > 0 {
        let (b, t) = evs[0];
        let (v1, out) = v.step(Event::Button(b), t);
        assert(all_tap(v1));
        assert(v1.state == gesture_next(v.state, b));
        assert(out is Some <==> completes_cycle(v.state, b));
        lemma_taps_trigger_once_per_gesture(v1, evs.skip(1));
    }
}

/// With a click control in the middle, pressing both buttons and releasing
/// them one after the other triggers the middle position exactly once, on
/// the second release.
pub proof fn lemma_both_down_triggers_middle_on_second_release(
    v: ControllerView,
    first: PhysicalButton,
    second_released: PhysicalButton,
    t: Seq<Instant>,
)
    requires
        v.state == ButtonState::Nothing,
        v.middle is Tap,
        t.len() == 4,
    ensures
        ({
            let other = first.spec_other();
            let (v1, o1) = v.step(Event::Button(ButtonEvent::ButtonPressed(first)), t[0]);
            let (v2, o2) = v1.step(Event::Button(ButtonEvent::ButtonPressed(other)), t[1]);
            let (v3, o3) = v2.step(Event::Button(ButtonEvent::ButtonReleased(second_released)), t[2]);
            let (v4, o4) = v3.step(Event::Button(ButtonEvent::ButtonReleased(second_released.spec_other())), t[3]);
            &&& o1 is None && o2 is None && o3 is None
            &&& v2.state == ButtonState::BothDown
            &&& o4 == Some(ButtonControllerMsg::Triggered(ButtonPos::Middle))
            &&& v4.state == ButtonState::Nothing
        }),
{
}

pub open spec fn shows_pressed(c: ControlView) -> bool {
    c matches ControlView::Tap { pressed } && pressed
}

/// At most one position looks pressed.
pub open spec fn at_most_one_pressed(v: ControllerView) -> bool {
    &&& shows_pressed(v.left) ==> !shows_pressed(v.middle) && !shows_pressed(v.right)
    &&& shows_pressed(v.middle) ==> !shows_pressed(v.right)
}

/// Every event keeps at most one position looking pressed.
pub proof fn lemma_at_most_one_pressed(v: ControllerView, event: Event, now: Instant)
    requires
        at_most_one_pressed(v),
    ensures
        at_most_one_pressed(v.step(event, now).0),
{
}

/// Whether a control has a hold that is growing.
pub open spec fn is_growing(c: ControlView) -> bool {
    c matches ControlView::Hold { loader } && loader.state is Growing
}

/// Once a hold has completed, only the release of its button leaves the
/// waiting state: no other button edge does, and no timer event does while
/// no other hold is growing.
pub proof fn lemma_awaiting_release_left_only_by_release(v: ControllerView, event: Event, now: Instant)
    requires
        v.state is HTCNeedsRelease,
        !is_growing(v.left),
        !is_growing(v.middle),
        !is_growing(v.right),
    ensures
        ({
            let (v1, out) = v.step(event, now);
            let b = v.state->HTCNeedsRelease_0;
            &&& out is None
            &&& v1.state == if event == Event::Button(ButtonEvent::ButtonReleased(b)) {
                ButtonState::Nothing
            } else {
                v.state
            }
        }),
{
}

/// The animation-frame timer event.
pub open spec fn anim_frame() -> Event {
    Event::Timer(TimerToken { id: ANIM_FRAME_TIMER_ID })
}

/// A timer event whose token belongs to no running hold changes nothing and
/// triggers nothing.
pub proof fn lemma_stale_timer_ignored(v: ControllerView, token: TimerToken, now: Instant)
    requires
        token.id != ANIM_FRAME_TIMER_ID,
    ensures
        v.step(Event::Timer(token), now) == (v, None::<ButtonControllerMsg>),
{
}

/// Whether a control has no running hold.
pub open spec fn is_idle(c: ControlView) -> bool {
    match c {
        ControlView::Hold { loader } => !loader.spec_is_animating(),
        _ => true,
    }
}

/// Holding the left button, whose control is a hold control, for at least
/// its duration triggers the left position exactly once: the press reports
/// nothing, the first animation frame after the duration reports the
/// trigger, and the release that follows reports nothing and ends the
/// gesture.
pub proof fn lemma_hold_left_triggers_once(v: ControllerView, t0: Instant, t1: Instant, t2: Instant)
    requires
        v.wf(),
        v.state == ButtonState::Nothing,
        v.left is Hold,
        t0.millis + v.left->loader.growing_ms <= t1.millis,
        t1.millis <= t2.millis,
    ensures
        ({
            let (v1, o1) = v.step(Event::Button(ButtonEvent::ButtonPressed(PhysicalButton::Left)), t0);
            let (v2, o2) = v1.step(anim_frame(), t1);
            let (v3, o3) = v2.step(Event::Button(ButtonEvent::ButtonReleased(PhysicalButton::Left)), t2);
            &&& o1 is None
            &&& o2 == Some(ButtonControllerMsg::Triggered(ButtonPos::Left))
            &&& v2.state == ButtonState::HTCNeedsRelease(PhysicalButton::Left)
            &&& o3 is None
            &&& v3.state == ButtonState::Nothing
        }),
{
    let l = v.left->loader;
    l.lemma_progress_bounded(t0);
    let (v1, o1) = v.step(Event::Button(ButtonEvent::ButtonPressed(PhysicalButton::Left)), t0);
    let g = l.spec_start_growing(t0);
    assert(v1.left == ControlView::Hold { loader: g });
    g.lemma_growing_completes(t1);
}

/// While the left button is held, an animation frame before the hold's
/// duration has passed reports nothing and leaves the gesture as it is,
/// provided no other hold is running.
pub proof fn lemma_hold_left_early_frame(v: ControllerView, t0: Instant, t: Instant)
    requires
        v.wf(),
        v.state == ButtonState::Nothing,
        v.left is Hold,
        !(v.left->loader.state is Shrinking),
        is_idle(v.middle),
        is_idle(v.right),
        t0.millis <= t.millis,
        t.millis < t0.millis + v.left->loader.growing_ms,
    ensures
        ({
            let (v1, o1) = v.step(Event::Button(ButtonEvent::ButtonPressed(PhysicalButton::Left)), t0);
            let (v2, o2) = v1.step(anim_frame(), t);
            &&& o1 is None
            &&& o2 is None
            &&& v2 == v1
            &&& v1.state == ButtonState::OneDown(PhysicalButton::Left)
        }),
{
    let l = v.left->loader;
    let g = l.spec_start_growing(t0);
    let (v1, o1) = v.step(Event::Button(ButtonEvent::ButtonPressed(PhysicalButton::Left)), t0);
    assert(v1.left == ControlView::Hold { loader: g });
    g.lemma_growing_incomplete(t);
}

/// Releasing the left button before its hold's duration has passed
/// triggers nothing, neither on the release nor on any later animation
/// frame, provided no other hold is running; its progress then falls back
/// to zero without ever rising, and is zero once the shrinking duration has
/// passed.
pub proof fn lemma_early_release_never_triggers(
    v: ControllerView,
    t0: Instant,
    t1: Instant,
    ta: Instant,
    tb: Instant,
)
    requires
        v.wf(),
        v.state == ButtonState::Nothing,
        v.left is Hold,
        !(v.left->loader.state is Shrinking),
        is_idle(v.middle),
        is_idle(v.right),
        t0.millis <= t1.millis,
        t1.millis < t0.millis + v.left->loader.growing_ms,
        t1.millis <= ta.millis,
        ta.millis <= tb.millis,
    ensures
        ({
            let (v1, o1) = v.step(Event::Button(ButtonEvent::ButtonPressed(PhysicalButton::Left)), t0);
            let (v2, o2) = v1.step(Event::Button(ButtonEvent::ButtonReleased(PhysicalButton::Left)), t1);
            let (v3, o3) = v2.step(anim_frame(), ta);
            let shrinking = v2.left->loader;
            &&& o1 is None
            &&& o2 is None
            &&& o3 is None
            &&& v2.state == ButtonState::Nothing
            &&& shrinking.state is Shrinking
            &&& shrinking.spec_progress(tb) <= shrinking.spec_progress(ta)
            &&& tb.millis >= t1.millis + shrinking.shrinking_ms ==> shrinking.spec_progress(tb) == 0
        }),
{
    let l = v.left->loader;
    let g = l.spec_start_growing(t0);
    let (v1, o1) = v.step(Event::Button(ButtonEvent::ButtonPressed(PhysicalButton::Left)), t0);
    assert(v1.left == ControlView::Hold { loader: g });
    g.lemma_growing_incomplete(t1);
    g.lemma_progress_bounded(t1);
    let s = g.spec_start_shrinking(t1);
    let (v2, o2) = v1.step(Event::Button(ButtonEvent::ButtonReleased(PhysicalButton::Left)), t1);
    assert(v2.left == ControlView::Hold { loader: s });
    s.lemma_shrinking_falls_to_zero(ta, tb);
}

} // verus!
