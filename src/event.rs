use vstd::prelude::*;

use crate::time::{Duration, Instant};

verus! {

/// One of the two physical buttons of the device.
#[derive(Copy, Clone, Debug, PartialEq, Eq, Structural)]
pub enum PhysicalButton {
    Left,
    Right,
}

impl PhysicalButton {
    pub open spec fn spec_other(self) -> PhysicalButton {
        match self {
            PhysicalButton::Left => PhysicalButton::Right,
            PhysicalButton::Right => PhysicalButton::Left,
        }
    }
}

/// Button related input: edges of the physical buttons, and the hold
/// notifications that the button controller forwards to its controls.
#[derive(Copy, Clone, Debug, PartialEq, Eq, Structural)]
pub enum ButtonEvent {
    ButtonPressed(PhysicalButton),
    ButtonReleased(PhysicalButton),
    HoldStarted,
    HoldEnded,
}

/// Identifies one scheduled wake-up.
#[derive(Copy, Clone, Debug, PartialEq, Eq, Structural)]
pub struct TimerToken {
    pub id: u32,
}

/// Identifier of the token of the recurring animation-frame wake-up.
pub const ANIM_FRAME_TIMER_ID: u32 = 1;

impl TimerToken {
    /// The token of the recurring animation-frame wake-up.
    pub fn anim_frame() -> (r: TimerToken)
        ensures
            r.id == ANIM_FRAME_TIMER_ID,
    {
        TimerToken { id: ANIM_FRAME_TIMER_ID }
    }
}

/// Identifier of the first token handed out by `EventCtx::request_timer`.
pub const FIRST_TIMER_ID: u32 = 2;

/// Touch screen input, at a screen position.
#[derive(Copy, Clone, Debug, PartialEq, Eq, Structural)]
pub enum TouchEvent {
    TouchStart(i16, i16),
    TouchMove(i16, i16),
    TouchEnd(i16, i16),
}

/// A change of the USB connection.
#[derive(Copy, Clone, Debug, PartialEq, Eq, Structural)]
pub enum USBEvent {
    /// The host connected (`true`) or disconnected (`false`).
    Connected(bool),
}

/// An input event delivered to the components.
#[derive(Copy, Clone, Debug, PartialEq, Eq, Structural)]
pub enum Event {
    Button(ButtonEvent),
    Timer(TimerToken),
    Touch(TouchEvent),
    USB(USBEvent),
}

/// Context of event dispatch: the time at which an event is processed, the
/// requests that the components make to the surrounding runtime, and the
/// source of timer tokens.
pub struct EventCtx {
    pub now: Instant,
    pub paint_requested: bool,
    pub anim_frame_requested: bool,
    /// Wake-ups asked for during this dispatch: each token is to come back as
    /// a timer event once its duration has passed.
    pub timer_requests: Vec<(TimerToken, Duration)>,
    /// The token that the next timer request hands out.
    pub next_timer_id: u32,
}

impl EventCtx {
    pub fn new(now: Instant) -> (r: EventCtx)
        ensures
            r.now == now,
            !r.paint_requested,
            !r.anim_frame_requested,
            r.timer_requests@.len() == 0,
            r.next_timer_id == FIRST_TIMER_ID,
    {
        EventCtx {
            now,
            paint_requested: false,
            anim_frame_requested: false,
            timer_requests: Vec::new(),
            next_timer_id: FIRST_TIMER_ID,
        }
    }

    /// Starts the dispatch of a new event at `now`: the requests of the
    /// previous dispatch are dropped, the token source is kept.
    pub fn begin(&mut self, now: Instant)
        ensures
            final(self).now == now,
            !final(self).paint_requested,
            !final(self).anim_frame_requested,
            final(self).timer_requests@.len() == 0,
            final(self).next_timer_id == old(self).next_timer_id,
    {
        self.now = now;
        self.paint_requested = false;
        self.anim_frame_requested = false;
        self.timer_requests = Vec::new();
    }

    /// The token that the next `request_timer` hands out: tokens count up
    /// from `FIRST_TIMER_ID` and start over after the largest one.
    pub open spec fn token_after(id: u32) -> u32 {
        if id == u32::MAX {
            FIRST_TIMER_ID
        } else {
            (id + 1) as u32
        }
    }

    /// Asks for a timer event after `duration`, with a fresh token.
    pub fn request_timer(&mut self, duration: Duration) -> (r: TimerToken)
        ensures
            r.id == old(self).next_timer_id,
            final(self).next_timer_id == EventCtx::token_after(old(self).next_timer_id),
            final(self).timer_requests@ == old(self).timer_requests@.push((r, duration)),
            final(self).now == old(self).now,
            final(self).paint_requested == old(self).paint_requested,
            final(self).anim_frame_requested == old(self).anim_frame_requested,
    {
        let token = TimerToken { id: self.next_timer_id };
        self.next_timer_id = if self.next_timer_id == u32::MAX {
            FIRST_TIMER_ID
        } else {
            self.next_timer_id + 1
        };
        self.timer_requests.push((token, duration));
        token
    }

    /// Asks for the screen to be repainted after this dispatch.
    pub fn request_paint(&mut self)
        ensures
            final(self).now == old(self).now,
            final(self).paint_requested,
            final(self).anim_frame_requested == old(self).anim_frame_requested,
            final(self).timer_requests == old(self).timer_requests,
            final(self).next_timer_id == old(self).next_timer_id,
    {
        self.paint_requested = true;
    }

    /// Asks for an animation-frame timer event to be delivered soon.
    pub fn request_anim_frame(&mut self)
        ensures
            final(self).now == old(self).now,
            final(self).paint_requested == old(self).paint_requested,
            final(self).anim_frame_requested,
            final(self).timer_requests == old(self).timer_requests,
            final(self).next_timer_id == old(self).next_timer_id,
    {
        self.anim_frame_requested = true;
    }
}

} // verus!
