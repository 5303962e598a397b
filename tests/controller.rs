use trezor_ui::button::{ButtonDetails, ButtonLayout, ButtonPos, ConfigError, Icon};
use trezor_ui::button_controller::{ButtonController, ButtonControllerMsg, ButtonState};
use trezor_ui::event::{ButtonEvent, Event, EventCtx, PhysicalButton, TimerToken};
use trezor_ui::time::{Duration, Instant};

fn ctx_at(ms: u64) -> EventCtx {
    EventCtx::new(Instant::from_millis(ms))
}

fn press(b: PhysicalButton) -> Event {
    Event::Button(ButtonEvent::ButtonPressed(b))
}

fn release(b: PhysicalButton) -> Event {
    Event::Button(ButtonEvent::ButtonReleased(b))
}

fn frame() -> Event {
    Event::Timer(TimerToken::anim_frame())
}

fn taps() -> ButtonLayout {
    ButtonLayout::new(
        Some(ButtonDetails::text("BACK")),
        Some(ButtonDetails::text("SELECT")),
        Some(ButtonDetails::icon(Icon::new("next", 4))),
    )
}

fn send(c: &mut ButtonController, ms: u64, e: Event) -> Option<ButtonControllerMsg> {
    let mut ctx = ctx_at(ms);
    c.event(&mut ctx, e)
}

fn triggered(p: ButtonPos) -> Option<ButtonControllerMsg> {
    Some(ButtonControllerMsg::Triggered(p))
}

#[test]
fn left_click_triggers_left_on_release() {
    let mut c = ButtonController::new(taps()).unwrap();
    assert_eq!(send(&mut c, 0, press(PhysicalButton::Left)), None);
    assert_eq!(c.state(), ButtonState::OneDown(PhysicalButton::Left));
    assert_eq!(send(&mut c, 10, release(PhysicalButton::Left)), triggered(ButtonPos::Left));
    assert_eq!(c.state(), ButtonState::Nothing);
}

#[test]
fn right_click_triggers_right_on_release() {
    let mut c = ButtonController::new(taps()).unwrap();
    assert_eq!(send(&mut c, 0, press(PhysicalButton::Right)), None);
    assert_eq!(send(&mut c, 10, release(PhysicalButton::Right)), triggered(ButtonPos::Right));
}

#[test]
fn both_down_right_released_first_triggers_middle_after_second_release() {
    let mut c = ButtonController::new(taps()).unwrap();
    assert_eq!(send(&mut c, 0, press(PhysicalButton::Left)), None);
    assert_eq!(send(&mut c, 5, press(PhysicalButton::Right)), None);
    assert_eq!(c.state(), ButtonState::BothDown);
    assert_eq!(send(&mut c, 10, release(PhysicalButton::Right)), None);
    assert_eq!(c.state(), ButtonState::OneReleased(PhysicalButton::Right));
    assert_eq!(send(&mut c, 20, release(PhysicalButton::Left)), triggered(ButtonPos::Middle));
    assert_eq!(c.state(), ButtonState::Nothing);
}

#[test]
fn repressing_the_released_button_returns_to_both_down() {
    let mut c = ButtonController::new(taps()).unwrap();
    send(&mut c, 0, press(PhysicalButton::Right));
    send(&mut c, 1, press(PhysicalButton::Left));
    send(&mut c, 2, release(PhysicalButton::Left));
    assert_eq!(send(&mut c, 3, press(PhysicalButton::Left)), None);
    assert_eq!(c.state(), ButtonState::BothDown);
    send(&mut c, 4, release(PhysicalButton::Right));
    assert_eq!(send(&mut c, 5, release(PhysicalButton::Left)), triggered(ButtonPos::Middle));
}

#[test]
fn trigger_count_matches_completed_gestures() {
    let mut c = ButtonController::new(taps()).unwrap();
    let seq = [
        press(PhysicalButton::Left),
        release(PhysicalButton::Right),
        release(PhysicalButton::Left),
        press(PhysicalButton::Right),
        press(PhysicalButton::Left),
        release(PhysicalButton::Left),
        release(PhysicalButton::Right),
        press(PhysicalButton::Right),
        press(PhysicalButton::Right),
        release(PhysicalButton::Right),
        release(PhysicalButton::Left),
    ];
    let mut outs = Vec::new();
    for (i, e) in seq.iter().enumerate() {
        if let Some(m) = send(&mut c, i as u64, *e) {
            outs.push(m);
        }
    }
    assert_eq!(
        outs,
        vec![
            ButtonControllerMsg::Triggered(ButtonPos::Left),
            ButtonControllerMsg::Triggered(ButtonPos::Middle),
            ButtonControllerMsg::Triggered(ButtonPos::Right),
        ]
    );
}

#[test]
fn absent_position_never_triggers() {
    let layout = ButtonLayout::new(None, None, Some(ButtonDetails::text("NEXT")));
    let mut c = ButtonController::new(layout).unwrap();
    send(&mut c, 0, press(PhysicalButton::Left));
    assert_eq!(send(&mut c, 1, release(PhysicalButton::Left)), None);
    send(&mut c, 2, press(PhysicalButton::Left));
    send(&mut c, 3, press(PhysicalButton::Right));
    send(&mut c, 4, release(PhysicalButton::Left));
    assert_eq!(send(&mut c, 5, release(PhysicalButton::Right)), None);
}

fn hold_left(ms: u32) -> ButtonLayout {
    ButtonLayout::new(
        Some(ButtonDetails::text("HOLD").with_duration(Duration::from_millis(ms))),
        None,
        Some(ButtonDetails::text("NEXT")),
    )
}

#[test]
fn holding_left_for_its_duration_triggers_once() {
    let mut c = ButtonController::new(hold_left(1000)).unwrap();
    assert_eq!(send(&mut c, 100, press(PhysicalButton::Left)), None);
    assert_eq!(send(&mut c, 600, frame()), None);
    assert_eq!(send(&mut c, 1100, frame()), triggered(ButtonPos::Left));
    assert_eq!(c.state(), ButtonState::HTCNeedsRelease(PhysicalButton::Left));
    // A further frame does not fire the completed hold again.
    assert_eq!(send(&mut c, 1150, frame()), None);
    // Presses of the other button do not leave the state.
    assert_eq!(send(&mut c, 1200, press(PhysicalButton::Right)), None);
    assert_eq!(send(&mut c, 1250, release(PhysicalButton::Right)), None);
    assert_eq!(c.state(), ButtonState::HTCNeedsRelease(PhysicalButton::Left));
    assert_eq!(send(&mut c, 1300, release(PhysicalButton::Left)), None);
    assert_eq!(c.state(), ButtonState::Nothing);
}

#[test]
fn early_release_of_hold_never_triggers() {
    let mut c = ButtonController::new(hold_left(900)).unwrap();
    send(&mut c, 0, press(PhysicalButton::Left));
    assert_eq!(c.paint(Instant::from_millis(450)).0.unwrap().progress, Some(500));
    assert_eq!(send(&mut c, 450, release(PhysicalButton::Left)), None);
    // Shrinking takes a third of the hold: 300 ms for the full run.
    assert_eq!(c.paint(Instant::from_millis(450)).0.unwrap().progress, Some(500));
    assert_eq!(c.paint(Instant::from_millis(540)).0.unwrap().progress, Some(200));
    assert_eq!(c.paint(Instant::from_millis(600)).0.unwrap().progress, Some(0));
    assert_eq!(send(&mut c, 500, frame()), None);
    assert_eq!(send(&mut c, 700, frame()), None);
    assert_eq!(send(&mut c, 5000, frame()), None);
    assert_eq!(c.state(), ButtonState::Nothing);
}

#[test]
fn progress_never_rises_while_shrinking() {
    let mut c = ButtonController::new(hold_left(1000)).unwrap();
    send(&mut c, 0, press(PhysicalButton::Left));
    send(&mut c, 800, release(PhysicalButton::Left));
    let mut last = 1000;
    for t in (800..1200).step_by(7) {
        let p = c.paint(Instant::from_millis(t)).0.unwrap().progress.unwrap();
        assert!(p <= last);
        last = p;
    }
    assert_eq!(last, 0);
}

#[test]
fn middle_hold_completes_back_to_nothing() {
    let layout = ButtonLayout::new(
        Some(ButtonDetails::text("NO")),
        Some(ButtonDetails::armed_text("CONFIRM")),
        Some(ButtonDetails::text("YES")),
    );
    let mut c = ButtonController::new(layout).unwrap();
    send(&mut c, 0, press(PhysicalButton::Left));
    send(&mut c, 10, press(PhysicalButton::Right));
    assert_eq!(send(&mut c, 1010, frame()), triggered(ButtonPos::Middle));
    assert_eq!(c.state(), ButtonState::Nothing);
}

#[test]
fn stale_timer_token_is_ignored() {
    let mut c = ButtonController::new(hold_left(100)).unwrap();
    send(&mut c, 0, press(PhysicalButton::Left));
    assert_eq!(send(&mut c, 500, Event::Timer(TimerToken { id: 77 })), None);
    assert_eq!(c.state(), ButtonState::OneDown(PhysicalButton::Left));
}

#[test]
fn pressed_look_follows_state() {
    let mut c = ButtonController::new(taps()).unwrap();
    send(&mut c, 0, press(PhysicalButton::Left));
    let (l, m, r) = c.paint(Instant::from_millis(0));
    assert!(l.unwrap().pressed && !m.unwrap().pressed && !r.unwrap().pressed);
    send(&mut c, 1, press(PhysicalButton::Right));
    let (l, m, r) = c.paint(Instant::from_millis(1));
    assert!(!l.unwrap().pressed && m.unwrap().pressed && !r.unwrap().pressed);
    let mut ctx = ctx_at(2);
    c.event(&mut ctx, release(PhysicalButton::Left));
    assert!(!ctx.paint_requested);
    send(&mut c, 3, release(PhysicalButton::Right));
    let (l, m, r) = c.paint(Instant::from_millis(3));
    assert!(!l.unwrap().pressed && !m.unwrap().pressed && !r.unwrap().pressed);
}

#[test]
fn control_without_text_or_icon_is_refused() {
    let bare = ButtonDetails { text: None, icon: None, duration: None };
    let layout = ButtonLayout::new(Some(ButtonDetails::text("A")), Some(bare), None);
    assert_eq!(ButtonController::new(layout).err(), Some(ConfigError::NoTextOrIcon(ButtonPos::Middle)));
    let mut c = ButtonController::new(taps()).unwrap();
    let bad = ButtonLayout::new(Some(bare), None, None);
    assert_eq!(c.set(bad), Err(ConfigError::NoTextOrIcon(ButtonPos::Left)));
    // The refused layout left the click controls in place.
    send(&mut c, 0, press(PhysicalButton::Left));
    assert_eq!(send(&mut c, 1, release(PhysicalButton::Left)), triggered(ButtonPos::Left));
}

#[test]
fn set_replaces_controls_and_keeps_gesture() {
    let mut c = ButtonController::new(taps()).unwrap();
    send(&mut c, 0, press(PhysicalButton::Left));
    assert_eq!(c.set(ButtonLayout::new(None, None, None)), Ok(()));
    assert_eq!(c.state(), ButtonState::OneDown(PhysicalButton::Left));
    assert_eq!(send(&mut c, 1, release(PhysicalButton::Left)), None);
}
