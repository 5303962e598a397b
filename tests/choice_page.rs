use trezor_ui::choice::{ChoiceFactory, ChoicePage, ChoicePageMsg};
use trezor_ui::event::{ButtonEvent, Event, EventCtx, PhysicalButton};
use trezor_ui::geometry::Rect;
use trezor_ui::pin::ChoiceFactoryPIN;
use trezor_ui::time::Instant;

fn click<F: ChoiceFactory>(page: &mut ChoicePage<F>, b: PhysicalButton) -> Option<ChoicePageMsg> {
    let mut ctx = EventCtx::new(Instant::from_millis(0));
    assert_eq!(page.event(&mut ctx, Event::Button(ButtonEvent::ButtonPressed(b))), None);
    page.event(&mut ctx, Event::Button(ButtonEvent::ButtonReleased(b)))
}

fn select<F: ChoiceFactory>(page: &mut ChoicePage<F>) -> Option<ChoicePageMsg> {
    let mut ctx = EventCtx::new(Instant::from_millis(0));
    page.event(&mut ctx, Event::Button(ButtonEvent::ButtonPressed(PhysicalButton::Left)));
    page.event(&mut ctx, Event::Button(ButtonEvent::ButtonPressed(PhysicalButton::Right)));
    page.event(&mut ctx, Event::Button(ButtonEvent::ButtonReleased(PhysicalButton::Left)));
    page.event(&mut ctx, Event::Button(ButtonEvent::ButtonReleased(PhysicalButton::Right)))
}

#[test]
fn left_on_first_choice_reports_left_edge_without_carousel() {
    let mut page = ChoicePage::new(ChoiceFactoryPIN::new());
    assert_eq!(page.page_index(), 0);
    assert_eq!(click(&mut page, PhysicalButton::Left), Some(ChoicePageMsg::LeftMost));
    assert_eq!(page.page_index(), 0);
}

#[test]
fn left_on_first_choice_wraps_to_last_in_carousel() {
    let mut page = ChoicePage::new(ChoiceFactoryPIN::new()).with_carousel(true);
    assert_eq!(click(&mut page, PhysicalButton::Left), None);
    assert_eq!(page.page_index(), 12);
}

#[test]
fn right_on_last_choice_reports_right_edge_or_wraps() {
    let mut page = ChoicePage::new(ChoiceFactoryPIN::new()).with_initial_page_counter(12);
    assert!(!page.has_next_choice());
    assert!(page.has_previous_choice());
    assert_eq!(click(&mut page, PhysicalButton::Right), Some(ChoicePageMsg::RightMost));
    assert_eq!(page.page_index(), 12);
    let mut page = page.with_carousel(true);
    assert_eq!(click(&mut page, PhysicalButton::Right), None);
    assert_eq!(page.page_index(), 0);
}

#[test]
fn browsing_steps_and_middle_selects() {
    let mut page = ChoicePage::new(ChoiceFactoryPIN::new()).with_initial_page_counter(3);
    assert_eq!(click(&mut page, PhysicalButton::Right), None);
    assert_eq!(page.page_index(), 4);
    assert_eq!(select(&mut page), Some(ChoicePageMsg::Choice(4)));
    assert_eq!(click(&mut page, PhysicalButton::Left), None);
    assert_eq!(page.page_index(), 3);
}

#[test]
fn shown_choices_are_current_and_neighbours() {
    let page = ChoicePage::new(ChoiceFactoryPIN::new());
    let v = page.paint_choices();
    assert_eq!(v.center.text, "DELETE");
    assert!(v.left.is_none());
    assert_eq!(v.right.unwrap().text, "SHOW");
    let page = page.with_carousel(true);
    let v = page.paint_choices();
    assert_eq!(v.left.unwrap().text, "9");
    let page = page.with_initial_page_counter(12);
    let v = page.paint_choices();
    assert_eq!(v.left.unwrap().text, "8");
    assert_eq!(v.center.text, "9");
    assert_eq!(v.right.unwrap().text, "DELETE");
}

#[test]
fn reset_binds_new_choices_and_keeps_index_in_range() {
    let mut ctx = EventCtx::new(Instant::from_millis(0));
    let mut page = ChoicePage::new(ChoiceFactoryPIN::new()).with_initial_page_counter(10);
    page.reset(&mut ctx, ChoiceFactoryPIN::new(), false, true);
    assert_eq!(page.page_index(), 10);
    assert!(page.is_carousel());
    assert!(ctx.paint_requested);
    page.reset(&mut ctx, ChoiceFactoryPIN::new(), true, false);
    assert_eq!(page.page_index(), 0);
    assert!(!page.is_carousel());
}

#[test]
fn set_page_counter_moves_to_index() {
    let mut ctx = EventCtx::new(Instant::from_millis(0));
    let mut page = ChoicePage::new(ChoiceFactoryPIN::new());
    page.set_page_counter(&mut ctx, 7);
    assert_eq!(page.page_index(), 7);
    assert_eq!(page.paint_choices().center.text, "4");
}

#[test]
fn place_puts_buttons_in_bottom_strip() {
    let mut page = ChoicePage::new(ChoiceFactoryPIN::new());
    let b = Rect::new(0, 0, 128, 64);
    assert_eq!(page.place(b), b);
}

#[test]
fn pin_choices_have_confirm_hold_on_actions() {
    let f = ChoiceFactoryPIN::new();
    assert_eq!(f.count(), 13);
    let delete = f.get(0);
    assert_eq!(delete.icon.unwrap().name, "delete");
    let middle = delete.btn_layout.btn_middle.unwrap();
    assert_eq!(middle.text, Some("CONFIRM"));
    assert_eq!(middle.duration.unwrap().to_millis(), 1000);
    let digit = f.get(5);
    assert_eq!(digit.text, "2");
    assert!(digit.icon.is_none());
    assert!(digit.btn_layout.btn_middle.unwrap().duration.is_none());
}
