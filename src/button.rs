use vstd::prelude::*;
use vstd::string::StrSliceExecFns;

use crate::event::EventCtx;
use crate::geometry::Rect;
use crate::time::Duration;

verus! {

/// One of the three logical button positions.
#[derive(Copy, Clone, Debug, PartialEq, Eq, Structural)]
pub enum ButtonPos {
    Left,
    Middle,
    Right,
}

/// A bitmap icon, known here by its name and width.
#[derive(Copy, Clone, Debug, PartialEq, Eq)]
pub struct Icon {
    pub name: &'static str,
    pub width: i16,
}

impl Icon {
    pub fn new(name: &'static str, width: i16) -> (r: Icon)
        ensures
            r.name == name,
            r.width == width,
    {
        Icon { name, width }
    }
}

/// What a screen declares for one position: a label or an icon, and a hold
/// duration that makes it a hold-to-confirm control.
#[derive(Copy, Clone, Debug)]
pub struct ButtonDetails {
    pub text: Option<&'static str>,
    pub icon: Option<Icon>,
    pub duration: Option<Duration>,
}

impl ButtonDetails {
    /// A control needs a label or an icon to be shown at all.
    pub open spec fn is_renderable(self) -> bool {
        self.text is Some || self.icon is Some
    }

    pub fn text(text: &'static str) -> (r: ButtonDetails)
        ensures
            r.text == Some(text),
            r.icon is None,
            r.duration is None,
            r.is_renderable(),
    {
        ButtonDetails { text: Some(text), icon: None, duration: None }
    }

    pub fn icon(icon: Icon) -> (r: ButtonDetails)
        ensures
            r.text is None,
            r.icon == Some(icon),
            r.duration is None,
            r.is_renderable(),
    {
        ButtonDetails { text: None, icon: Some(icon), duration: None }
    }

    /// A label that asks to be held for the default hold duration.
    pub fn armed_text(text: &'static str) -> (r: ButtonDetails)
        ensures
            r.text == Some(text),
            r.icon is None,
            r.duration == Some(Duration { millis: DEFAULT_HOLD_MILLIS }),
            r.is_renderable(),
    {
        ButtonDetails { text: Some(text), icon: None, duration: Some(Duration::from_millis(DEFAULT_HOLD_MILLIS)) }
    }

    /// The same control, to be held for `duration`.
    pub fn with_duration(self, duration: Duration) -> (r: ButtonDetails)
        ensures
            r.text == self.text,
            r.icon == self.icon,
            r.duration == Some(duration),
    {
        ButtonDetails { duration: Some(duration), ..self }
    }
}

/// Hold duration of an armed control, in milliseconds.
pub const DEFAULT_HOLD_MILLIS: u32 = 1000;

/// The controls of the three positions; `None` leaves a position empty.
#[derive(Copy, Clone, Debug)]
pub struct ButtonLayout {
    pub btn_left: Option<ButtonDetails>,
    pub btn_middle: Option<ButtonDetails>,
    pub btn_right: Option<ButtonDetails>,
}

/// Whether a declared control, if any, can be shown.
pub open spec fn details_renderable(details: Option<ButtonDetails>) -> bool {
    match details {
        Some(d) => d.is_renderable(),
        None => true,
    }
}

impl ButtonLayout {
    pub open spec fn is_renderable(self) -> bool {
        details_renderable(self.btn_left) && details_renderable(self.btn_middle)
            && details_renderable(self.btn_right)
    }

    pub fn new(
        btn_left: Option<ButtonDetails>,
        btn_middle: Option<ButtonDetails>,
        btn_right: Option<ButtonDetails>,
    ) -> (r: ButtonLayout)
        ensures
            r.btn_left == btn_left,
            r.btn_middle == btn_middle,
            r.btn_right == btn_right,
    {
        ButtonLayout { btn_left, btn_middle, btn_right }
    }
}

/// The left arrow of a "previous" button.
pub open spec fn spec_arrow_left_icon() -> Icon {
    Icon { name: "arrow_left", width: 4 }
}

/// The right arrow of a "next" button.
pub open spec fn spec_arrow_right_icon() -> Icon {
    Icon { name: "arrow_right", width: 4 }
}

/// The mark of a "select" button.
pub open spec fn spec_select_icon() -> Icon {
    Icon { name: "select", width: 8 }
}

/// Previous, select and next as click buttons with icons.
pub open spec fn spec_three_icons() -> ButtonLayout {
    ButtonLayout {
        btn_left: Some(ButtonDetails { text: None, icon: Some(spec_arrow_left_icon()), duration: None }),
        btn_middle: Some(ButtonDetails { text: None, icon: Some(spec_select_icon()), duration: None }),
        btn_right: Some(ButtonDetails { text: None, icon: Some(spec_arrow_right_icon()), duration: None }),
    }
}

impl ButtonLayout {
    /// Previous, select and next as click buttons with icons.
    pub fn default_three_icons() -> (r: ButtonLayout)
        ensures
            r == spec_three_icons(),
            r.is_renderable(),
    {
        ButtonLayout {
            btn_left: Some(ButtonDetails::icon(Icon::new("arrow_left", 4))),
            btn_middle: Some(ButtonDetails::icon(Icon::new("select", 8))),
            btn_right: Some(ButtonDetails::icon(Icon::new("arrow_right", 4))),
        }
    }
}

/// Whether a declared control, if any, can be shown.
pub fn details_renderable_exec(details: Option<ButtonDetails>) -> (r: bool)
    ensures
        r == details_renderable(details),
{
    match details {
        Some(d) => d.text.is_some() || d.icon.is_some(),
        None => true,
    }
}

impl ButtonLayout {
    /// Whether every declared control can be shown.
    pub fn is_renderable_exec(&self) -> (r: bool)
        ensures
            r == self.is_renderable(),
    {
        details_renderable_exec(self.btn_left) && details_renderable_exec(self.btn_middle)
            && details_renderable_exec(self.btn_right)
    }
}

/// Why a screen's buttons cannot be assembled.
#[derive(Copy, Clone, Debug, PartialEq, Eq, Structural)]
pub enum ConfigError {
    /// The control at this position has neither a label nor an icon.
    NoTextOrIcon(ButtonPos),
}

/// What a button shows.
#[derive(Copy, Clone, Debug, PartialEq, Eq)]
pub enum ButtonContent {
    Text(&'static str),
    Icon(Icon),
}

/// Width of one character of button text, in pixels.
pub const GLYPH_WIDTH: i16 = 6;

/// Longest text whose width is measured; longer text is as wide as this.
pub const MAX_MEASURED_CHARS: usize = 1000;

/// Horizontal room around a button's content, in pixels.
pub const BUTTON_PADDING: i16 = 7;

pub open spec fn spec_text_width(text: Seq<char>) -> int {
    if text.len() > MAX_MEASURED_CHARS {
        MAX_MEASURED_CHARS * GLYPH_WIDTH
    } else {
        text.len() * GLYPH_WIDTH
    }
}

/// Width in pixels of `text` set in the button font.
pub fn text_width(text: &str) -> (r: i16)
    ensures
        r == spec_text_width(text@),
        0 <= r <= MAX_MEASURED_CHARS * GLYPH_WIDTH,
{
    let n = text.unicode_len();
    if n > MAX_MEASURED_CHARS {
        (MAX_MEASURED_CHARS as i16) * GLYPH_WIDTH
    } else {
        (n as i16) * GLYPH_WIDTH
    }
}

impl ButtonContent {
    pub open spec fn spec_width(self) -> int {
        match self {
            ButtonContent::Text(t) => spec_text_width(t@),
            ButtonContent::Icon(i) => i.width as int,
        }
    }

    pub fn width(&self) -> (r: i16)
        ensures
            r == self.spec_width(),
    {
        match self {
            ButtonContent::Text(t) => text_width(t),
            ButtonContent::Icon(i) => i.width,
        }
    }
}

/// Width of a button around content `content_width` wide, limited to what
/// fits a screen coordinate.
pub open spec fn spec_button_width(content_width: int) -> int {
    if content_width > i16::MAX - BUTTON_PADDING {
        i16::MAX as int
    } else {
        content_width + BUTTON_PADDING
    }
}

pub fn button_width(content_width: i16) -> (r: i16)
    ensures
        r == spec_button_width(content_width as int),
{
    if content_width > i16::MAX - BUTTON_PADDING {
        i16::MAX
    } else {
        content_width + BUTTON_PADDING
    }
}

/// The part of `area` that a button `width` wide occupies at `pos`: the left
/// edge, the right edge, or the centre.
pub open spec fn spec_placement(area: Rect, pos: ButtonPos, width: int) -> Rect {
    match pos {
        ButtonPos::Left => area.spec_split_left(width).0,
        ButtonPos::Right => area.spec_split_right(width).1,
        ButtonPos::Middle => area.spec_split_center(width).1,
    }
}

pub fn placement(area: Rect, pos: ButtonPos, width: i16) -> (r: Rect)
    requires
        area.wf(),
    ensures
        r == spec_placement(area, pos, width as int),
        r.wf(),
{
    match pos {
        ButtonPos::Left => area.split_left(width).0,
        ButtonPos::Right => area.split_right(width).1,
        ButtonPos::Middle => area.split_center(width).1,
    }
}

/// What to draw for one button: its content in its area, and either its
/// pressed look or its hold progress.
#[derive(Copy, Clone, Debug)]
pub struct ButtonVisual {
    pub area: Rect,
    pub content: ButtonContent,
    pub pressed: bool,
    pub progress: Option<u16>,
}

/// A button that triggers on a click.
pub struct Button {
    pos: ButtonPos,
    content: ButtonContent,
    pressed: bool,
    area: Rect,
}

impl Button {
    pub closed spec fn spec_pos(&self) -> ButtonPos {
        self.pos
    }

    pub closed spec fn spec_content(&self) -> ButtonContent {
        self.content
    }

    pub closed spec fn spec_pressed(&self) -> bool {
        self.pressed
    }

    pub closed spec fn spec_area(&self) -> Rect {
        self.area
    }

    pub fn with_text(pos: ButtonPos, text: &'static str) -> (r: Button)
        ensures
            r.spec_pos() == pos,
            r.spec_content() == ButtonContent::Text(text),
            !r.spec_pressed(),
            r.spec_area().wf(),
    {
        Button { pos, content: ButtonContent::Text(text), pressed: false, area: Rect::zero() }
    }

    pub fn with_icon(pos: ButtonPos, icon: Icon) -> (r: Button)
        ensures
            r.spec_pos() == pos,
            r.spec_content() == ButtonContent::Icon(icon),
            !r.spec_pressed(),
            r.spec_area().wf(),
    {
        Button { pos, content: ButtonContent::Icon(icon), pressed: false, area: Rect::zero() }
    }

    pub fn content(&self) -> (r: ButtonContent)
        ensures
            r == self.spec_content(),
    {
        self.content
    }

    pub fn is_pressed(&self) -> (r: bool)
        ensures
            r == self.spec_pressed(),
    {
        self.pressed
    }

    pub fn area(&self) -> (r: Rect)
        ensures
            r == self.spec_area(),
    {
        self.area
    }

    /// Shows the button pressed or released, asking for a repaint only
    /// where the look changes.
    pub fn set_pressed(&mut self, ctx: &mut EventCtx, is_pressed: bool)
        ensures
            final(self).spec_pressed() == is_pressed,
            final(self).spec_pos() == old(self).spec_pos(),
            final(self).spec_content() == old(self).spec_content(),
            final(self).spec_area() == old(self).spec_area(),
            final(ctx).now == old(ctx).now,
            final(ctx).anim_frame_requested == old(ctx).anim_frame_requested,
            final(ctx).paint_requested == (old(ctx).paint_requested || old(self).spec_pressed()
                != is_pressed),
    {
        if self.pressed != is_pressed {
            self.pressed = is_pressed;
            ctx.request_paint();
        }
    }

    /// Places the button at its position within `bounds`, as wide as its
    /// content and padding.
    pub fn place(&mut self, bounds: Rect) -> (r: Rect)
        requires
            bounds.wf(),
        ensures
            r == spec_placement(bounds, old(self).spec_pos(), spec_button_width(old(self).spec_content().spec_width())),
            final(self).spec_area() == r,
            final(self).spec_pos() == old(self).spec_pos(),
            final(self).spec_content() == old(self).spec_content(),
            final(self).spec_pressed() == old(self).spec_pressed(),
    {
        let w = button_width(self.content.width());
        self.area = placement(bounds, self.pos, w);
        self.area
    }

    pub fn paint(&self) -> (r: ButtonVisual)
        ensures
            r.area == self.spec_area(),
            r.content == self.spec_content(),
            r.pressed == self.spec_pressed(),
            r.progress is None,
    {
        ButtonVisual { area: self.area, content: self.content, pressed: self.pressed, progress: None }
    }
}

} // verus!
