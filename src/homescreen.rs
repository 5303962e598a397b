use vstd::prelude::*;

use crate::event::{Event, EventCtx, TimerToken, TouchEvent, USBEvent};
use crate::loader::{Loader, LoaderMsg, PROGRESS_MAX};
use crate::time::{Duration, Instant};

verus! {

/// How long a touch must last before the lock hold starts, in milliseconds.
pub const LOADER_DELAY_MILLIS: u32 = 500;

/// Duration of the lock hold, in milliseconds.
pub const LOADER_DURATION_MILLIS: u32 = 2000;

#[derive(Copy, Clone, Debug, PartialEq, Eq, Structural)]
pub enum HomescreenMsg {
    Dismissed,
}

/// How urgent a home screen notification looks.
#[derive(Copy, Clone, Debug, PartialEq, Eq, Structural)]
pub enum NotificationLevel {
    /// Violet, with the magic icon.
    Magic,
    /// Yellow, with the warning icon.
    Warning,
    /// Red, with the warning icon.
    Alert,
}

/// The look of a notification of `level`: 2 is magic, 1 a warning, any
/// other an alert.
pub open spec fn spec_level_style(level: u32) -> NotificationLevel {
    if level == 2 {
        NotificationLevel::Magic
    } else if level == 1 {
        NotificationLevel::Warning
    } else {
        NotificationLevel::Alert
    }
}

/// What the home screen shows.
#[derive(Copy, Clone, Debug)]
pub enum HomescreenVisual {
    /// The lock hold in progress, with its progress.
    Loader { progress: u16 },
    /// The label and the notification, if any; `notification_only` when only
    /// the notification needs repainting.
    Home { label: &'static str, notification: Option<(&'static str, NotificationLevel)>, notification_only: bool },
}

/// The lock hold's answer to an event: a touch starts the delay (or resumes
/// a hold that is falling back), the delay's timer starts the hold, and the
/// end of the touch either locks, after a full hold, or lets the hold fall
/// back. Returns the hold timer, the pending delay, whether only the
/// notification needs repainting, and whether the screen is dismissed;
/// `fresh` is the token that a new delay gets.
pub open spec fn lock_hold_step(
    loader: Loader,
    delay: Option<TimerToken>,
    notification_only: bool,
    event: Event,
    now: Instant,
    fresh: TimerToken,
) -> (Loader, Option<TimerToken>, bool, bool) {
    match event {
        Event::Touch(TouchEvent::TouchStart(_, _)) => {
            if loader.spec_is_animating() {
                (loader.spec_start_growing(now), delay, notification_only, false)
            } else {
                (loader, Some(fresh), notification_only, false)
            }
        },
        Event::Touch(TouchEvent::TouchEnd(_, _)) => {
            if loader.spec_progress(now) == PROGRESS_MAX {
                (loader, None, notification_only, true)
            } else if loader.spec_is_animating() {
                (loader.spec_start_shrinking(now), None, notification_only, false)
            } else {
                (loader, None, notification_only, false)
            }
        },
        Event::Timer(token) => {
            if delay == Some(token) {
                (loader.spec_start_growing(now), None, false, false)
            } else {
                let (l, m) = loader.spec_event(event, now);
                (l, delay, if m == Some(LoaderMsg::ShrunkCompletely) { false } else { notification_only }, false)
            }
        },
        _ => (loader, delay, notification_only, false),
    }
}

/// The home screen: a label and a notification, and optionally a hold on
/// the touch screen that locks the device.
pub struct Homescreen {
    label: &'static str,
    notification: Option<(&'static str, u32)>,
    hold_to_lock: bool,
    loader: Loader,
    paint_notification_only: bool,
    delay: Option<TimerToken>,
}

impl Homescreen {
    pub closed spec fn wf(&self) -> bool {
        self.loader.wf()
    }

    pub closed spec fn spec_loader(&self) -> Loader {
        self.loader
    }

    pub closed spec fn spec_delay(&self) -> Option<TimerToken> {
        self.delay
    }

    pub closed spec fn spec_notification_only(&self) -> bool {
        self.paint_notification_only
    }

    pub closed spec fn spec_hold_to_lock(&self) -> bool {
        self.hold_to_lock
    }

    pub closed spec fn spec_label(&self) -> &'static str {
        self.label
    }

    pub closed spec fn spec_notification(&self) -> Option<(&'static str, u32)> {
        self.notification
    }

    pub fn new(label: &'static str, notification: Option<(&'static str, u32)>, hold_to_lock: bool) -> (r: Homescreen)
        ensures
            r.wf(),
            r.spec_label() == label,
            r.spec_notification() == notification,
            r.spec_hold_to_lock() == hold_to_lock,
            r.spec_loader() == Loader::spec_new(LOADER_DURATION_MILLIS),
            r.spec_delay() is None,
            !r.spec_notification_only(),
    {
        Homescreen {
            label,
            notification,
            hold_to_lock,
            loader: Loader::new(Duration::from_millis(LOADER_DURATION_MILLIS)),
            paint_notification_only: false,
            delay: None,
        }
    }

    fn level_to_style(level: u32) -> (r: NotificationLevel)
        ensures
            r == spec_level_style(level),
    {
        match level {
            2 => NotificationLevel::Magic,
            1 => NotificationLevel::Warning,
            _ => NotificationLevel::Alert,
        }
    }

    /// The notification to show: a missing USB connection comes first, as an
    /// alert, then the screen's own notification.
    pub fn get_notification(&self, usb_configured: bool) -> (r: Option<(&'static str, NotificationLevel)>)
        ensures
            !usb_configured ==> r == Some(("NO USB CONNECTION", NotificationLevel::Alert)),
            usb_configured ==> r == match self.spec_notification() {
                Some((t, level)) => Some((t, spec_level_style(level))),
                None => None,
            },
    {
        if !usb_configured {
            Some(("NO USB CONNECTION", Self::level_to_style(0)))
        } else if let Some((notification, level)) = self.notification {
            Some((notification, Self::level_to_style(level)))
        } else {
            None
        }
    }

    /// Only the notification needs repainting from now on.
    pub fn set_paint_notification(&mut self)
        ensures
            final(self).spec_notification_only(),
            final(self).spec_loader() == old(self).spec_loader(),
            final(self).spec_delay() == old(self).spec_delay(),
            final(self).spec_hold_to_lock() == old(self).spec_hold_to_lock(),
            final(self).spec_label() == old(self).spec_label(),
            final(self).spec_notification() == old(self).spec_notification(),
    {
        self.paint_notification_only = true;
    }

    /// A USB connection change repaints the notification.
    fn event_usb(&mut self, ctx: &mut EventCtx, event: Event)
        ensures
            final(self).spec_notification_only() == (old(self).spec_notification_only() || event is USB),
            final(self).loader == old(self).loader,
            final(self).delay == old(self).delay,
            final(self).hold_to_lock == old(self).hold_to_lock,
            final(self).label == old(self).label,
            final(self).notification == old(self).notification,
            final(ctx).now == old(ctx).now,
            final(ctx).next_timer_id == old(ctx).next_timer_id,
            final(ctx).timer_requests == old(ctx).timer_requests,
    {
        if let Event::USB(USBEvent::Connected(_)) = event {
            self.paint_notification_only = true;
            ctx.request_paint();
        }
    }

    /// The lock hold; true when a full hold ended.
    fn event_hold(&mut self, ctx: &mut EventCtx, event: Event) -> (r: bool)
        requires
            old(self).wf(),
        ensures
            final(self).wf(),
            (final(self).loader, final(self).delay, final(self).paint_notification_only, r) == lock_hold_step(
                old(self).loader,
                old(self).delay,
                old(self).paint_notification_only,
                event,
                old(ctx).now,
                TimerToken { id: old(ctx).next_timer_id },
            ),
            final(self).hold_to_lock == old(self).hold_to_lock,
            final(self).label == old(self).label,
            final(self).notification == old(self).notification,
            final(ctx).now == old(ctx).now,
    {
        let now = ctx.now;
        match event {
            Event::Touch(TouchEvent::TouchStart(_, _)) => {
                if self.loader.is_animating() {
                    self.loader.start_growing(ctx, now);
                } else {
                    self.delay = Some(ctx.request_timer(Duration::from_millis(LOADER_DELAY_MILLIS)));
                }
            },
            Event::Touch(TouchEvent::TouchEnd(_, _)) => {
                self.delay = None;
                if self.loader.is_completely_grown(now) {
                    return true;
                }
                if self.loader.is_animating() {
                    self.loader.start_shrinking(ctx, now);
                }
            },
            Event::Timer(token) => {
                if self.delay == Some(token) {
                    self.delay = None;
                    self.paint_notification_only = false;
                    self.loader.start_growing(ctx, now);
                    return false;
                }
            },
            _ => {},
        }
        match self.loader.event(ctx, event) {
            Some(LoaderMsg::ShrunkCompletely) => {
                self.loader.reset();
                self.paint_notification_only = false;
                ctx.request_paint();
            },
            // A full hold waits for the end of the touch.
            Some(LoaderMsg::GrownCompletely) => {},
            None => {},
        }
        false
    }

    /// Handles one event at `ctx.now`; with hold-to-lock on, the end of a
    /// full hold dismisses the screen.
    pub fn event(&mut self, ctx: &mut EventCtx, event: Event) -> (r: Option<HomescreenMsg>)
        requires
            old(self).wf(),
        ensures
            final(self).wf(),
            final(self).spec_hold_to_lock() == old(self).spec_hold_to_lock(),
            final(self).spec_label() == old(self).spec_label(),
            final(self).spec_notification() == old(self).spec_notification(),
            !old(self).spec_hold_to_lock() ==> r is None && final(self).spec_loader() == old(self).spec_loader()
                && final(self).spec_delay() == old(self).spec_delay()
                && final(self).spec_notification_only() == (old(self).spec_notification_only() || event is USB),
            old(self).spec_hold_to_lock() ==> ({
                let (l, d, n, dismissed) = lock_hold_step(
                    old(self).spec_loader(),
                    old(self).spec_delay(),
                    old(self).spec_notification_only() || event is USB,
                    event,
                    old(ctx).now,
                    TimerToken { id: old(ctx).next_timer_id },
                );
                &&& final(self).spec_loader() == l
                &&& final(self).spec_delay() == d
                &&& final(self).spec_notification_only() == n
                &&& r is Some <==> dismissed
            }),
            final(ctx).now == old(ctx).now,
    {
        self.event_usb(ctx, event);
        if self.hold_to_lock {
            if self.event_hold(ctx, event) {
                Some(HomescreenMsg::Dismissed)
            } else {
                None
            }
        } else {
            None
        }
    }

    /// What to show at `now`: the lock hold while it runs or once it is
    /// full, otherwise the label and the notification.
    pub fn paint(&self, now: Instant, usb_configured: bool) -> (r: HomescreenVisual)
        requires
            self.wf(),
        ensures
            (self.spec_loader().spec_is_animating() || self.spec_loader().spec_progress(now) == PROGRESS_MAX)
                <==> r is Loader,
            r matches HomescreenVisual::Loader { progress } ==> progress == self.spec_loader().spec_progress(now),
            r matches HomescreenVisual::Home { label, notification_only, .. } ==> (label == self.spec_label()
                && notification_only == self.spec_notification_only()),
    {
        if self.loader.is_animating() || self.loader.is_completely_grown(now) {
            HomescreenVisual::Loader { progress: self.loader.progress(now) }
        } else {
            HomescreenVisual::Home {
                label: self.label,
                notification: self.get_notification(usb_configured),
                notification_only: self.paint_notification_only,
            }
        }
    }
}

/// The lock screen: dismissed by a tap.
pub struct Lockscreen {
    label: &'static str,
    bootscreen: bool,
}

impl Lockscreen {
    pub closed spec fn spec_label(&self) -> &'static str {
        self.label
    }

    pub closed spec fn spec_bootscreen(&self) -> bool {
        self.bootscreen
    }

    pub fn new(label: &'static str, bootscreen: bool) -> (r: Lockscreen)
        ensures
            r.spec_label() == label,
            r.spec_bootscreen() == bootscreen,
    {
        Lockscreen { label, bootscreen }
    }

    /// The end of a touch dismisses the screen; nothing else does.
    pub fn event(&mut self, event: Event) -> (r: Option<HomescreenMsg>)
        ensures
            r is Some <==> event is Touch && event->Touch_0 is TouchEnd,
    {
        if let Event::Touch(TouchEvent::TouchEnd(_, _)) = event {
            return Some(HomescreenMsg::Dismissed);
        }
        None
    }

    /// The title and the hint: at boot the device is not yet connected,
    /// otherwise it is locked.
    pub fn texts(&self) -> (r: (&'static str, &'static str))
        ensures
            r == if self.spec_bootscreen() {
                ("NOT CONNECTED", "Tap to connect")
            } else {
                ("LOCKED", "Tap to unlock")
            },
    {
        if self.bootscreen {
            ("NOT CONNECTED", "Tap to connect")
        } else {
            ("LOCKED", "Tap to unlock")
        }
    }

    pub fn label(&self) -> (r: &'static str)
        ensures
            r == self.spec_label(),
    {
        self.label
    }
}

} // verus!
