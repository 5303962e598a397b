use trezor_ui::event::{ButtonEvent, Event, EventCtx, PhysicalButton};
use trezor_ui::pin::{PinEntry, PinEntryMsg, MAX_PIN_LENGTH};
use trezor_ui::time::Instant;

fn ev(e: ButtonEvent) -> Event {
    Event::Button(e)
}

fn send(p: &mut PinEntry, ms: u64, e: Event, next: u8) -> Option<PinEntryMsg> {
    let mut ctx = EventCtx::new(Instant::from_millis(ms));
    p.event(&mut ctx, e, next)
}

fn click(p: &mut PinEntry, b: PhysicalButton, next: u8) -> Option<PinEntryMsg> {
    send(p, 0, ev(ButtonEvent::ButtonPressed(b)), next);
    send(p, 0, ev(ButtonEvent::ButtonReleased(b)), next)
}

fn select(p: &mut PinEntry, next: u8) -> Option<PinEntryMsg> {
    send(p, 0, ev(ButtonEvent::ButtonPressed(PhysicalButton::Left)), next);
    send(p, 0, ev(ButtonEvent::ButtonPressed(PhysicalButton::Right)), next);
    send(p, 0, ev(ButtonEvent::ButtonReleased(PhysicalButton::Right)), next);
    send(p, 0, ev(ButtonEvent::ButtonReleased(PhysicalButton::Left)), next)
}

/// Holds both buttons for the confirm duration of an action choice.
fn hold_select(p: &mut PinEntry) -> Option<PinEntryMsg> {
    send(p, 0, ev(ButtonEvent::ButtonPressed(PhysicalButton::Left)), 3);
    send(p, 1, ev(ButtonEvent::ButtonPressed(PhysicalButton::Right)), 3);
    let m = send(p, 1100, Event::Timer(trezor_ui::event::TimerToken::anim_frame()), 3);
    send(p, 1200, ev(ButtonEvent::ButtonReleased(PhysicalButton::Right)), 3);
    send(p, 1300, ev(ButtonEvent::ButtonReleased(PhysicalButton::Left)), 3);
    m
}

#[test]
fn pin_scenario_right_then_select_appends_one() {
    let mut p = PinEntry::new("Enter PIN", "sub");
    assert_eq!(p.page_index(), 3);
    assert_eq!(p.header(), "Enter PIN");
    assert!(p.shows_subprompt());
    assert_eq!(click(&mut p, PhysicalButton::Right, 9), None);
    assert_eq!(p.page_index(), 4);
    assert_eq!(select(&mut p, 9), None);
    assert_eq!(p.pin(), "1");
    assert_eq!(p.page_index(), 9);
    assert_eq!(p.header(), "*");
    assert!(!p.shows_subprompt());
}

#[test]
fn digits_append_and_header_is_masked() {
    let mut p = PinEntry::new("PIN", "");
    select(&mut p, 8);
    select(&mut p, 12);
    assert_eq!(p.pin(), "05");
    assert_eq!(p.header(), "**");
}

#[test]
fn delete_removes_last_digit() {
    let mut p = PinEntry::new("PIN", "");
    select(&mut p, 4);
    select(&mut p, 4);
    assert_eq!(p.pin(), "01");
    // From digit zero, two steps left reach delete.
    let mut ctx = EventCtx::new(Instant::from_millis(0));
    let _ = &mut ctx;
    click(&mut p, PhysicalButton::Left, 3);
    click(&mut p, PhysicalButton::Left, 3);
    click(&mut p, PhysicalButton::Left, 3);
    click(&mut p, PhysicalButton::Left, 3);
    assert_eq!(p.page_index(), 0);
    assert_eq!(hold_select(&mut p), None);
    assert_eq!(p.pin(), "0");
    assert_eq!(hold_select(&mut p), None);
    assert_eq!(p.pin(), "");
    assert_eq!(p.header(), "PIN");
    assert_eq!(hold_select(&mut p), None);
    assert_eq!(p.pin(), "");
}

#[test]
fn show_reveals_pin_until_next_event() {
    let mut p = PinEntry::new("PIN", "");
    select(&mut p, 5);
    assert_eq!(p.page_index(), 5);
    click(&mut p, PhysicalButton::Left, 3);
    click(&mut p, PhysicalButton::Left, 3);
    click(&mut p, PhysicalButton::Left, 3);
    click(&mut p, PhysicalButton::Left, 3);
    assert_eq!(p.page_index(), 1);
    hold_select(&mut p);
    // The hold's own release events already masked the PIN again.
    assert_eq!(p.header(), "*");
    send(&mut p, 0, ev(ButtonEvent::ButtonPressed(PhysicalButton::Left)), 3);
    send(&mut p, 1, ev(ButtonEvent::ButtonPressed(PhysicalButton::Right)), 3);
    send(&mut p, 1100, Event::Timer(trezor_ui::event::TimerToken::anim_frame()), 3);
    assert_eq!(p.header(), "0");
    send(&mut p, 1200, ev(ButtonEvent::ButtonReleased(PhysicalButton::Right)), 3);
    assert_eq!(p.header(), "*");
}

#[test]
fn enter_confirms() {
    let mut p = PinEntry::new("PIN", "");
    click(&mut p, PhysicalButton::Left, 3);
    assert_eq!(p.page_index(), 2);
    assert_eq!(hold_select(&mut p), Some(PinEntryMsg::Confirmed));
}

#[test]
fn digits_beyond_maximum_are_ignored() {
    let mut p = PinEntry::new("PIN", "");
    for _ in 0..MAX_PIN_LENGTH {
        select(&mut p, 3);
    }
    assert_eq!(p.pin().len(), MAX_PIN_LENGTH);
    select(&mut p, 7);
    assert_eq!(p.pin().len(), MAX_PIN_LENGTH);
    // The page did not move to the drawn digit.
    assert_eq!(p.page_index(), 3);
    assert_eq!(p.header(), "*".repeat(MAX_PIN_LENGTH));
}
