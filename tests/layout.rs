use trezor_ui::button::{placement, text_width, ButtonContent, ButtonPos, Icon};
use trezor_ui::confirm::HoldToConfirm;
use trezor_ui::geometry::Rect;
use trezor_ui::time::Duration;

#[test]
fn splits_clamp_to_area() {
    let r = Rect::new(10, 0, 110, 20);
    assert_eq!(r.split_left(30), (Rect::new(10, 0, 40, 20), Rect::new(40, 0, 110, 20)));
    assert_eq!(r.split_right(30), (Rect::new(10, 0, 80, 20), Rect::new(80, 0, 110, 20)));
    assert_eq!(r.split_left(500).0, r);
    assert_eq!(r.split_left(-5).0, Rect::new(10, 0, 10, 20));
    let (a, b, c) = r.split_center(20);
    assert_eq!((a, b, c), (Rect::new(10, 0, 50, 20), Rect::new(50, 0, 70, 20), Rect::new(70, 0, 110, 20)));
    assert_eq!(r.split_bottom(5), (Rect::new(10, 0, 110, 15), Rect::new(10, 15, 110, 20)));
}

#[test]
fn text_width_counts_characters() {
    assert_eq!(text_width(""), 0);
    assert_eq!(text_width("HOLD"), 24);
    assert_eq!(text_width("é"), 6);
}

#[test]
fn buttons_sit_at_their_position() {
    let area = Rect::new(0, 50, 128, 64);
    assert_eq!(placement(area, ButtonPos::Left, 31), Rect::new(0, 50, 31, 64));
    assert_eq!(placement(area, ButtonPos::Right, 31), Rect::new(97, 50, 128, 64));
    assert_eq!(placement(area, ButtonPos::Middle, 28), Rect::new(50, 50, 78, 64));
}

#[test]
fn hold_to_confirm_places_and_relabels() {
    let mut h = HoldToConfirm::text(ButtonPos::Right, "OK", Duration::from_millis(500));
    let area = Rect::new(0, 50, 128, 64);
    // Two characters of six pixels and seven of padding.
    assert_eq!(h.place(area), Rect::new(109, 50, 128, 64));
    h.set_text("CONFIRM", area);
    assert_eq!(h.get_text(), "CONFIRM");
    assert_eq!(h.paint(trezor_ui::time::Instant::from_millis(0)).area, Rect::new(79, 50, 128, 64));
    assert_eq!(h.get_duration().to_millis(), 500);
    h.set_duration(Duration::from_millis(800));
    assert_eq!(h.get_duration().to_millis(), 800);
    let i = HoldToConfirm::icon(ButtonPos::Left, Icon::new("tick", 8), Duration::from_millis(500));
    assert_eq!(i.get_text(), "tick");
    assert_eq!(i.paint(trezor_ui::time::Instant::from_millis(0)).content, ButtonContent::Icon(Icon::new("tick", 8)));
}
