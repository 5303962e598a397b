use trezor_ui::event::{Event, EventCtx, TimerToken};
use trezor_ui::loader::{Loader, LoaderMsg, LoaderState, PROGRESS_MAX};
use trezor_ui::time::{Duration, Instant};

fn at(ms: u64) -> Instant {
    Instant::from_millis(ms)
}

#[test]
fn grows_linearly_to_full() {
    let mut ctx = EventCtx::new(at(1000));
    let mut l = Loader::new(Duration::from_millis(2000));
    assert_eq!(l.shrinking_ms, 666);
    assert_eq!(l.progress(at(1000)), 0);
    l.start_growing(&mut ctx, at(1000));
    assert!(ctx.anim_frame_requested);
    assert_eq!(l.progress(at(1500)), 250);
    assert_eq!(l.progress(at(3000)), PROGRESS_MAX);
    assert!(l.is_completely_grown(at(3500)));
}

#[test]
fn frame_reports_completion_once() {
    let mut l = Loader::new(Duration::from_millis(100));
    let mut ctx = EventCtx::new(at(0));
    l.start_growing(&mut ctx, at(0));
    let frame = Event::Timer(TimerToken::anim_frame());
    let mut ctx = EventCtx::new(at(50));
    assert_eq!(l.event(&mut ctx, frame), None);
    assert!(ctx.anim_frame_requested && ctx.paint_requested);
    let mut ctx = EventCtx::new(at(100));
    assert_eq!(l.event(&mut ctx, frame), Some(LoaderMsg::GrownCompletely));
    assert_eq!(l.state, LoaderState::Grown);
    let mut ctx = EventCtx::new(at(150));
    assert_eq!(l.event(&mut ctx, frame), None);
}

#[test]
fn shrinking_resumes_from_progress_and_empties() {
    let mut l = Loader::new(Duration::from_millis(3000));
    let mut ctx = EventCtx::new(at(0));
    l.start_growing(&mut ctx, at(0));
    l.start_shrinking(&mut ctx, at(1500));
    assert_eq!(l.progress(at(1500)), 500);
    assert_eq!(l.progress(at(2000)), 0);
    l.start_growing(&mut ctx, at(1750));
    assert_eq!(l.progress(at(1750)), 250);
    l.start_shrinking(&mut ctx, at(1750));
    let mut ctx = EventCtx::new(at(2100));
    assert_eq!(l.event(&mut ctx, Event::Timer(TimerToken::anim_frame())), Some(LoaderMsg::ShrunkCompletely));
    assert_eq!(l.state, LoaderState::Initial);
}

#[test]
fn zero_duration_is_immediately_full() {
    let mut l = Loader::new(Duration::from_millis(0));
    let mut ctx = EventCtx::new(at(5));
    l.start_growing(&mut ctx, at(5));
    assert_eq!(l.progress(at(5)), PROGRESS_MAX);
}

#[test]
fn reset_and_duration_changes() {
    let mut l = Loader::new(Duration::from_millis(900));
    let mut ctx = EventCtx::new(at(0));
    l.start_growing(&mut ctx, at(0));
    l.reset();
    assert_eq!(l.progress(at(450)), 0);
    assert!(!l.is_animating());
    l.set_duration(Duration::from_millis(300));
    assert_eq!(l.get_duration().to_millis(), 300);
    assert_eq!(l.shrinking_ms, 100);
}
