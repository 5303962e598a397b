use trezor_ui::event::{Event, EventCtx, TimerToken, TouchEvent, USBEvent};
use trezor_ui::homescreen::{Homescreen, HomescreenMsg, HomescreenVisual, Lockscreen, NotificationLevel};
use trezor_ui::time::Instant;

fn touch_start() -> Event {
    Event::Touch(TouchEvent::TouchStart(10, 10))
}

fn touch_end() -> Event {
    Event::Touch(TouchEvent::TouchEnd(10, 10))
}

#[test]
fn full_hold_locks_on_touch_end() {
    let mut h = Homescreen::new("My device", None, true);
    let mut ctx = EventCtx::new(Instant::from_millis(0));
    assert_eq!(h.event(&mut ctx, touch_start()), None);
    assert_eq!(ctx.timer_requests.len(), 1);
    let (token, delay) = ctx.timer_requests[0];
    assert_eq!(delay.to_millis(), 500);
    ctx.begin(Instant::from_millis(500));
    assert_eq!(h.event(&mut ctx, Event::Timer(token)), None);
    assert!(ctx.anim_frame_requested);
    ctx.begin(Instant::from_millis(1500));
    match h.paint(Instant::from_millis(1500), true) {
        HomescreenVisual::Loader { progress } => assert_eq!(progress, 500),
        _ => panic!("the hold should be shown"),
    }
    ctx.begin(Instant::from_millis(2600));
    assert_eq!(h.event(&mut ctx, Event::Timer(TimerToken::anim_frame())), None);
    ctx.begin(Instant::from_millis(2700));
    assert_eq!(h.event(&mut ctx, touch_end()), Some(HomescreenMsg::Dismissed));
}

#[test]
fn short_touch_does_not_lock() {
    let mut h = Homescreen::new("My device", None, true);
    let mut ctx = EventCtx::new(Instant::from_millis(0));
    h.event(&mut ctx, touch_start());
    let (token, _) = ctx.timer_requests[0];
    ctx.begin(Instant::from_millis(200));
    assert_eq!(h.event(&mut ctx, touch_end()), None);
    // The delay was cancelled: its timer no longer starts the hold.
    ctx.begin(Instant::from_millis(500));
    assert_eq!(h.event(&mut ctx, Event::Timer(token)), None);
    assert!(!ctx.anim_frame_requested);
}

#[test]
fn released_hold_falls_back_and_resets() {
    let mut h = Homescreen::new("My device", None, true);
    let mut ctx = EventCtx::new(Instant::from_millis(0));
    h.event(&mut ctx, touch_start());
    let (token, _) = ctx.timer_requests[0];
    ctx.begin(Instant::from_millis(500));
    h.event(&mut ctx, Event::Timer(token));
    ctx.begin(Instant::from_millis(1000));
    assert_eq!(h.event(&mut ctx, touch_end()), None);
    ctx.begin(Instant::from_millis(2000));
    assert_eq!(h.event(&mut ctx, Event::Timer(TimerToken::anim_frame())), None);
    assert!(ctx.paint_requested);
    match h.paint(Instant::from_millis(2000), true) {
        HomescreenVisual::Home { label, notification, .. } => {
            assert_eq!(label, "My device");
            assert!(notification.is_none());
        }
        _ => panic!("the home screen should be shown"),
    }
}

#[test]
fn without_hold_to_lock_nothing_dismisses() {
    let mut h = Homescreen::new("My device", None, false);
    let mut ctx = EventCtx::new(Instant::from_millis(0));
    assert_eq!(h.event(&mut ctx, touch_start()), None);
    assert!(ctx.timer_requests.is_empty());
    assert_eq!(h.event(&mut ctx, touch_end()), None);
}

#[test]
fn usb_connection_repaints_notification_only() {
    let mut h = Homescreen::new("My device", Some(("Backup needed", 1)), false);
    let mut ctx = EventCtx::new(Instant::from_millis(0));
    h.event(&mut ctx, Event::USB(USBEvent::Connected(true)));
    assert!(ctx.paint_requested);
    match h.paint(Instant::from_millis(0), true) {
        HomescreenVisual::Home { notification, notification_only, .. } => {
            assert!(notification_only);
            assert_eq!(notification, Some(("Backup needed", NotificationLevel::Warning)));
        }
        _ => panic!("the home screen should be shown"),
    }
}

#[test]
fn notification_levels_and_missing_usb() {
    let h = Homescreen::new("x", Some(("Experimental", 2)), false);
    assert_eq!(h.get_notification(true), Some(("Experimental", NotificationLevel::Magic)));
    assert_eq!(h.get_notification(false), Some(("NO USB CONNECTION", NotificationLevel::Alert)));
    let h = Homescreen::new("x", Some(("Failure", 7)), false);
    assert_eq!(h.get_notification(true), Some(("Failure", NotificationLevel::Alert)));
    let mut h = Homescreen::new("x", None, false);
    assert_eq!(h.get_notification(true), None);
    h.set_paint_notification();
    match h.paint(Instant::from_millis(0), true) {
        HomescreenVisual::Home { notification_only, .. } => assert!(notification_only),
        _ => panic!("the home screen should be shown"),
    }
}

#[test]
fn lockscreen_dismissed_by_touch_end() {
    let mut l = Lockscreen::new("My device", false);
    assert_eq!(l.texts(), ("LOCKED", "Tap to unlock"));
    assert_eq!(l.label(), "My device");
    assert_eq!(l.event(touch_start()), None);
    assert_eq!(l.event(touch_end()), Some(HomescreenMsg::Dismissed));
    let b = Lockscreen::new("My device", true);
    assert_eq!(b.texts(), ("NOT CONNECTED", "Tap to connect"));
}

#[test]
fn timer_tokens_are_fresh() {
    let mut ctx = EventCtx::new(Instant::from_millis(0));
    let a = ctx.request_timer(trezor_ui::time::Duration::from_millis(1));
    let b = ctx.request_timer(trezor_ui::time::Duration::from_millis(1));
    assert_ne!(a, b);
    assert_ne!(a, TimerToken::anim_frame());
    ctx.next_timer_id = u32::MAX;
    let c = ctx.request_timer(trezor_ui::time::Duration::from_millis(1));
    assert_eq!(c.id, u32::MAX);
    assert_eq!(ctx.next_timer_id, 2);
}
