use vstd::prelude::*;

use crate::button::{
    details_renderable, details_renderable_exec, spec_button_width, spec_placement, Button,
    ButtonContent, ButtonDetails, ButtonLayout, ButtonPos, ButtonVisual, ConfigError,
    DEFAULT_HOLD_MILLIS,
};
use crate::confirm::{hold_step, HoldToConfirm, HoldToConfirmMsg};
use crate::event::{ButtonEvent, Event, EventCtx, PhysicalButton};
use crate::geometry::Rect;
use crate::loader::Loader;
use crate::time::{Duration, Instant};

verus! {

/// The gesture state of the two physical buttons.
#[derive(Copy, Clone, Debug, PartialEq, Eq, Structural)]
pub enum ButtonState {
    /// No button is down.
    Nothing,
    /// Exactly this button is down.
    OneDown(PhysicalButton),
    /// Both buttons are down.
    BothDown,
    /// This button was released after both were down; the other is still down.
    OneReleased(PhysicalButton),
    /// A hold of this button completed; only its release leaves this state.
    HTCNeedsRelease(PhysicalButton),
}

#[derive(Copy, Clone, Debug, PartialEq, Eq, Structural)]
pub enum ButtonControllerMsg {
    Triggered(ButtonPos),
}

/// The logical position that a physical button stands for on its own.
pub open spec fn pos_of(b: PhysicalButton) -> ButtonPos {
    match b {
        PhysicalButton::Left => ButtonPos::Left,
        PhysicalButton::Right => ButtonPos::Right,
    }
}

/// What a position's control is, as far as gestures are concerned.
#[derive(Copy, Clone, Debug, PartialEq, Eq, Structural)]
pub enum ControlView {
    /// No control: it never triggers.
    Absent,
    /// A click control, shown pressed or not.
    Tap { pressed: bool },
    /// A hold-to-confirm control with its hold timer.
    Hold { loader: Loader },
}

impl ControlView {
    pub open spec fn wf(self) -> bool {
        match self {
            ControlView::Hold { loader } => loader.wf(),
            _ => true,
        }
    }

    /// The control that a declaration gives: none, a hold control when a
    /// duration is declared, a click control otherwise.
    pub open spec fn of_details(details: Option<ButtonDetails>) -> ControlView {
        match details {
            None => ControlView::Absent,
            Some(d) => match d.duration {
                Some(duration) => ControlView::Hold { loader: Loader::spec_new(duration.millis) },
                None => ControlView::Tap { pressed: false },
            },
        }
    }

    pub open spec fn hold_started(self, now: Instant) -> ControlView {
        match self {
            ControlView::Hold { loader } => ControlView::Hold {
                loader: loader.spec_start_growing(now),
            },
            _ => self,
        }
    }

    pub open spec fn hold_ended(self, now: Instant) -> ControlView {
        match self {
            ControlView::Hold { loader } => ControlView::Hold {
                loader: if loader.spec_is_animating() {
                    loader.spec_start_shrinking(now)
                } else {
                    loader
                },
            },
            _ => self,
        }
    }

    pub open spec fn with_pressed(self, pressed: bool) -> ControlView {
        match self {
            ControlView::Tap { .. } => ControlView::Tap { pressed },
            _ => self,
        }
    }

    /// The control after a timer event, and whether its hold completed.
    pub open spec fn poll(self, event: Event, now: Instant) -> (ControlView, bool) {
        match self {
            ControlView::Hold { loader } => {
                let (l, m) = hold_step(loader, event, now);
                (ControlView::Hold { loader: l }, m == Some(HoldToConfirmMsg::Confirmed))
            },
            _ => (self, false),
        }
    }
}

/// The gesture state and the three controls.
#[derive(Copy, Clone, Debug, PartialEq, Eq, Structural)]
pub struct ControllerView {
    pub state: ButtonState,
    pub left: ControlView,
    pub middle: ControlView,
    pub right: ControlView,
}

impl ControllerView {
    pub open spec fn wf(self) -> bool {
        self.left.wf() && self.middle.wf() && self.right.wf()
    }

    pub open spec fn control(self, b: PhysicalButton) -> ControlView {
        match b {
            PhysicalButton::Left => self.left,
            PhysicalButton::Right => self.right,
        }
    }

    pub open spec fn with_control(self, b: PhysicalButton, c: ControlView) -> ControllerView {
        match b {
            PhysicalButton::Left => ControllerView { left: c, ..self },
            PhysicalButton::Right => ControllerView { right: c, ..self },
        }
    }

    /// Both buttons went down: holds of the single buttons end and the
    /// middle one starts.
    pub open spec fn middle_hold_started(self, now: Instant) -> ControllerView {
        ControllerView {
            left: self.left.hold_ended(now),
            middle: self.middle.hold_started(now),
            right: self.right.hold_ended(now),
            ..self
        }
    }

    /// Shows exactly the positions that the state holds down as pressed.
    pub open spec fn with_visuals(self) -> ControllerView {
        let (l, m, r) = match self.state {
            ButtonState::OneDown(PhysicalButton::Left) => (true, false, false),
            ButtonState::OneDown(PhysicalButton::Right) => (false, false, true),
            ButtonState::BothDown | ButtonState::OneReleased(_) => (false, true, false),
            _ => (false, false, false),
        };
        ControllerView {
            left: self.left.with_pressed(l),
            middle: self.middle.with_pressed(m),
            right: self.right.with_pressed(r),
            ..self
        }
    }

    /// The gesture transition on a physical button edge, before the visuals
    /// are updated.
    pub open spec fn button_transition(self, b: ButtonEvent, now: Instant) -> (ControllerView, Option<ButtonControllerMsg>) {
        match self.state {
            ButtonState::Nothing => match b {
                ButtonEvent::ButtonPressed(which) => (
                    ControllerView { state: ButtonState::OneDown(which), ..self }.with_control(
                        which,
                        self.control(which).hold_started(now),
                    ),
                    None,
                ),
                _ => (self, None),
            },
            ButtonState::OneDown(down) => match b {
                ButtonEvent::ButtonReleased(x) => {
                    if x == down {
                        let after = ControllerView { state: ButtonState::Nothing, ..self };
                        if self.control(down) is Tap {
                            (after, Some(ButtonControllerMsg::Triggered(pos_of(down))))
                        } else {
                            (after.with_control(down, self.control(down).hold_ended(now)), None)
                        }
                    } else {
                        (self, None)
                    }
                },
                ButtonEvent::ButtonPressed(x) => {
                    if x != down {
                        (
                            ControllerView {
                                state: ButtonState::BothDown,
                                ..self.middle_hold_started(now)
                            },
                            None,
                        )
                    } else {
                        (self, None)
                    }
                },
                _ => (self, None),
            },
            ButtonState::BothDown => match b {
                ButtonEvent::ButtonReleased(x) => (
                    ControllerView {
                        state: ButtonState::OneReleased(x),
                        middle: self.middle.hold_ended(now),
                        ..self
                    },
                    None,
                ),
                _ => (self, None),
            },
            ButtonState::OneReleased(up) => match b {
                ButtonEvent::ButtonPressed(x) => {
                    if x == up {
                        (
                            ControllerView {
                                state: ButtonState::BothDown,
                                ..self.middle_hold_started(now)
                            },
                            None,
                        )
                    } else {
                        (self, None)
                    }
                },
                ButtonEvent::ButtonReleased(x) => {
                    if x != up {
                        (
                            ControllerView { state: ButtonState::Nothing, ..self },
                            if self.middle is Tap {
                                Some(ButtonControllerMsg::Triggered(ButtonPos::Middle))
                            } else {
                                None
                            },
                        )
                    } else {
                        (self, None)
                    }
                },
                _ => (self, None),
            },
            ButtonState::HTCNeedsRelease(needs) => match b {
                ButtonEvent::ButtonReleased(x) => {
                    if x == needs {
                        (ControllerView { state: ButtonState::Nothing, ..self }, None)
                    } else {
                        (self, None)
                    }
                },
                _ => (self, None),
            },
        }
    }

    /// A timer event: the hold controls are polled left, middle, right, and
    /// the first completed hold triggers its position.
    pub open spec fn timer_transition(self, event: Event, now: Instant) -> (ControllerView, Option<ButtonControllerMsg>) {
        let (l, left_done) = self.left.poll(event, now);
        if left_done {
            (
                ControllerView {
                    state: ButtonState::HTCNeedsRelease(PhysicalButton::Left),
                    left: l,
                    ..self
                }.with_visuals(),
                Some(ButtonControllerMsg::Triggered(ButtonPos::Left)),
            )
        } else {
            let (m, middle_done) = self.middle.poll(event, now);
            if middle_done {
                (
                    ControllerView { state: ButtonState::Nothing, left: l, middle: m, ..self }.with_visuals(),
                    Some(ButtonControllerMsg::Triggered(ButtonPos::Middle)),
                )
            } else {
                let (r, right_done) = self.right.poll(event, now);
                if right_done {
                    (
                        ControllerView {
                            state: ButtonState::HTCNeedsRelease(PhysicalButton::Right),
                            left: l,
                            middle: m,
                            right: r,
                        }.with_visuals(),
                        Some(ButtonControllerMsg::Triggered(ButtonPos::Right)),
                    )
                } else {
                    (ControllerView { left: l, middle: m, right: r, ..self }, None)
                }
            }
        }
    }

    /// The controller after one event at `now`, and what it reports.
    pub open spec fn step(self, event: Event, now: Instant) -> (ControllerView, Option<ButtonControllerMsg>) {
        match event {
            Event::Button(b) => {
                let (v, out) = self.button_transition(b, now);
                (v.with_visuals(), out)
            },
            Event::Timer(_) => self.timer_transition(event, now),
            _ => (self, None),
        }
    }

    /// A controller for `layout` with no button down.
    pub open spec fn fresh(layout: ButtonLayout) -> ControllerView {
        ControllerView {
            state: ButtonState::Nothing,
            left: ControlView::of_details(layout.btn_left),
            middle: ControlView::of_details(layout.btn_middle),
            right: ControlView::of_details(layout.btn_right),
        }
    }

    /// The controller with its controls replaced by those of `layout`; the
    /// gesture in progress is kept.
    pub open spec fn with_layout(self, layout: ButtonLayout) -> ControllerView {
        ControllerView {
            state: self.state,
            left: ControlView::of_details(layout.btn_left),
            middle: ControlView::of_details(layout.btn_middle),
            right: ControlView::of_details(layout.btn_right),
        }
    }
}

/// Whether a drawn button shows its control at `now`: a click button its
/// pressed look, a hold control its progress.
pub open spec fn visual_matches(v: ButtonVisual, c: ControlView, now: Instant) -> bool {
    match c {
        ControlView::Tap { pressed } => v.pressed == pressed && v.progress is None,
        ControlView::Hold { loader } => !v.pressed && v.progress == Some(loader.spec_progress(now) as u16),
        ControlView::Absent => false,
    }
}

/// What a declaration, if any, shows.
pub open spec fn details_content(details: Option<ButtonDetails>) -> Option<ButtonContent> {
    match details {
        Some(d) => Some(content_of(d)),
        None => None,
    }
}

/// The area of a control at `pos` showing `content`, placed within `area`;
/// none where there is no control.
pub open spec fn placed_area(area: Rect, pos: Option<ButtonPos>, content: Option<ButtonContent>) -> Option<Rect> {
    match (pos, content) {
        (Some(p), Some(c)) => Some(spec_placement(area, p, spec_button_width(c.spec_width()))),
        _ => None,
    }
}

/// What a declaration shows: its label, or else its icon.
pub open spec fn content_of(d: ButtonDetails) -> ButtonContent {
    match d.text {
        Some(t) => ButtonContent::Text(t),
        None => ButtonContent::Icon(d.icon->Some_0),
    }
}

/// Defines what kind of button should be currently used.
pub enum ButtonType {
    Button(Button),
    HoldToConfirm(HoldToConfirm),
    Nothing,
}

impl ButtonType {
    pub open spec fn wf(&self) -> bool {
        match self {
            ButtonType::HoldToConfirm(h) => h.wf(),
            _ => true,
        }
    }

    pub open spec fn view(&self) -> ControlView {
        match self {
            ButtonType::Button(b) => ControlView::Tap { pressed: b.spec_pressed() },
            ButtonType::HoldToConfirm(h) => ControlView::Hold { loader: h.spec_loader() },
            ButtonType::Nothing => ControlView::Absent,
        }
    }

    pub open spec fn spec_area(&self) -> Option<Rect> {
        match self {
            ButtonType::Button(b) => Some(b.spec_area()),
            ButtonType::HoldToConfirm(h) => Some(h.spec_area()),
            ButtonType::Nothing => None,
        }
    }

    pub open spec fn spec_pos(&self) -> Option<ButtonPos> {
        match self {
            ButtonType::Button(b) => Some(b.spec_pos()),
            ButtonType::HoldToConfirm(h) => Some(h.spec_pos()),
            ButtonType::Nothing => None,
        }
    }

    pub open spec fn spec_content(&self) -> Option<ButtonContent> {
        match self {
            ButtonType::Button(b) => Some(b.spec_content()),
            ButtonType::HoldToConfirm(h) => Some(h.spec_content()),
            ButtonType::Nothing => None,
        }
    }

    /// The control declared by `btn_details` at `pos`; a declaration without
    /// label and icon is refused.
    pub fn from_button_details(pos: ButtonPos, btn_details: Option<ButtonDetails>) -> (r: Result<ButtonType, ConfigError>)
        ensures
            r is Ok <==> details_renderable(btn_details),
            r matches Err(e) ==> e == ConfigError::NoTextOrIcon(pos),
            r matches Ok(t) ==> {
                &&& t.wf()
                &&& t.view() == ControlView::of_details(btn_details)
                &&& t.spec_pos() == if btn_details is Some { Some(pos) } else { None }
                &&& t.spec_content() == match btn_details {
                    Some(d) => Some(content_of(d)),
                    None => None,
                }
            },
    {
        match btn_details {
            Some(details) => {
                if details.text.is_none() && details.icon.is_none() {
                    Err(ConfigError::NoTextOrIcon(pos))
                } else if details.duration.is_some() {
                    Ok(ButtonType::HoldToConfirm(Self::get_hold_to_confirm(pos, details)))
                } else {
                    Ok(ButtonType::Button(Self::get_button(pos, details)))
                }
            },
            None => Ok(ButtonType::Nothing),
        }
    }

    /// A click button showing the declared label, or else its icon.
    fn get_button(pos: ButtonPos, btn_details: ButtonDetails) -> (r: Button)
        requires
            btn_details.is_renderable(),
        ensures
            r.spec_content() == content_of(btn_details),
            !r.spec_pressed(),
            r.spec_pos() == pos,
    {
        match btn_details.text {
            Some(text) => Button::with_text(pos, text),
            None => Button::with_icon(pos, btn_details.icon.unwrap()),
        }
    }

    /// A hold control showing the declared label, or else its icon.
    fn get_hold_to_confirm(pos: ButtonPos, btn_details: ButtonDetails) -> (r: HoldToConfirm)
        requires
            btn_details.is_renderable(),
        ensures
            r.wf(),
            r.spec_content() == content_of(btn_details),
            r.spec_pos() == pos,
            r.spec_loader() == Loader::spec_new(match btn_details.duration {
                Some(d) => d.millis,
                None => DEFAULT_HOLD_MILLIS,
            }),
    {
        let duration = match btn_details.duration {
            Some(d) => d,
            None => Duration::from_millis(DEFAULT_HOLD_MILLIS),
        };
        match btn_details.text {
            Some(text) => HoldToConfirm::text(pos, text, duration),
            None => HoldToConfirm::icon(pos, btn_details.icon.unwrap(), duration),
        }
    }

    pub fn place(&mut self, button_area: Rect)
        requires
            old(self).wf(),
            button_area.wf(),
        ensures
            final(self).wf(),
            final(self).view() == old(self).view(),
            final(self).spec_content() == old(self).spec_content(),
            final(self).spec_pos() == old(self).spec_pos(),
            final(self).spec_area() == placed_area(button_area, old(self).spec_pos(), old(self).spec_content()),
    {
        match self {
            ButtonType::Button(button) => {
                button.place(button_area);
            },
            ButtonType::HoldToConfirm(htc) => {
                htc.place(button_area);
            },
            ButtonType::Nothing => {},
        }
    }

    /// What to draw for this control at `now`, if anything.
    pub fn paint(&self, now: Instant) -> (r: Option<ButtonVisual>)
        requires
            self.wf(),
        ensures
            r is Some <==> !(self.view() is Absent),
            r matches Some(v) ==> Some(v.content) == self.spec_content(),
            r matches Some(v) ==> visual_matches(v, self.view(), now),
    {
        match self {
            ButtonType::Button(button) => Some(button.paint()),
            ButtonType::HoldToConfirm(htc) => Some(htc.paint(now)),
            ButtonType::Nothing => None,
        }
    }
}


/// One position's control, wrapped so that it can be driven from outside:
/// a click button, a hold-to-confirm control, or nothing.
pub struct ButtonContainer {
    pos: ButtonPos,
    button_type: ButtonType,
}

impl ButtonContainer {
    pub closed spec fn wf(&self) -> bool {
        &&& self.button_type.wf()
        &&& (self.button_type.spec_pos() matches Some(p) ==> p == self.pos)
    }

    pub closed spec fn view(&self) -> ControlView {
        self.button_type.view()
    }

    pub closed spec fn spec_pos(&self) -> ButtonPos {
        self.pos
    }

    pub closed spec fn spec_content(&self) -> Option<ButtonContent> {
        self.button_type.spec_content()
    }

    /// Where the control is drawn, if there is one.
    pub closed spec fn spec_area(&self) -> Option<Rect> {
        self.button_type.spec_area()
    }

    /// The container at `pos` with the declared control; `None` leaves it
    /// inactive until `set`.
    pub fn new(pos: ButtonPos, btn_details: Option<ButtonDetails>) -> (r: Result<ButtonContainer, ConfigError>)
        ensures
            r is Ok <==> details_renderable(btn_details),
            r matches Err(e) ==> e == ConfigError::NoTextOrIcon(pos),
            r matches Ok(c) ==> {
                &&& c.wf()
                &&& c.spec_pos() == pos
                &&& c.view() == ControlView::of_details(btn_details)
                &&& c.spec_content() == details_content(btn_details)
            },
    {
        match ButtonType::from_button_details(pos, btn_details) {
            Ok(button_type) => Ok(ButtonContainer { pos, button_type }),
            Err(e) => Err(e),
        }
    }

    /// Replaces the control and places it within `button_area`; a declaration
    /// that cannot be shown is refused and nothing changes.
    pub fn set(&mut self, btn_details: Option<ButtonDetails>, button_area: Rect) -> (r: Result<(), ConfigError>)
        requires
            old(self).wf(),
            button_area.wf(),
        ensures
            final(self).wf(),
            final(self).spec_pos() == old(self).spec_pos(),
            r is Ok <==> details_renderable(btn_details),
            r matches Err(e) ==> e == ConfigError::NoTextOrIcon(old(self).spec_pos()) && *final(self) == *old(self),
            r is Ok ==> final(self).view() == ControlView::of_details(btn_details),
            r is Ok ==> final(self).spec_content() == details_content(btn_details),
            r is Ok ==> final(self).spec_area() == placed_area(button_area, match btn_details {
                Some(_) => Some(old(self).spec_pos()),
                None => None,
            }, final(self).spec_content()),
    {
        match ButtonType::from_button_details(self.pos, btn_details) {
            Ok(button_type) => {
                self.button_type = button_type;
                self.button_type.place(button_area);
                Ok(())
            },
            Err(e) => Err(e),
        }
    }

    pub fn place(&mut self, bounds: Rect)
        requires
            old(self).wf(),
            bounds.wf(),
        ensures
            final(self).wf(),
            final(self).view() == old(self).view(),
            final(self).spec_pos() == old(self).spec_pos(),
            final(self).spec_content() == old(self).spec_content(),
            final(self).spec_area() == placed_area(bounds, if old(self).spec_content() is Some {
                Some(old(self).spec_pos())
            } else {
                None
            }, old(self).spec_content()),
    {
        self.button_type.place(bounds);
    }

    /// What to draw for the control at `now`, if there is one.
    pub fn paint(&self, now: Instant) -> (r: Option<ButtonVisual>)
        requires
            self.wf(),
        ensures
            r is Some <==> !(self.view() is Absent),
            r matches Some(v) ==> Some(v.content) == self.spec_content(),
            r matches Some(v) ==> visual_matches(v, self.view(), now),
    {
        self.button_type.paint(now)
    }

    /// Shows a click button pressed or released; other controls have no
    /// pressed look.
    pub fn set_pressed(&mut self, ctx: &mut EventCtx, is_pressed: bool)
        requires
            old(self).wf(),
        ensures
            final(self).wf(),
            final(self).view() == old(self).view().with_pressed(is_pressed),
            final(self).spec_pos() == old(self).spec_pos(),
            final(ctx).now == old(ctx).now,
    {
        if let ButtonType::Button(btn) = &mut self.button_type {
            btn.set_pressed(ctx, is_pressed);
        }
    }

    /// Whether a single click triggers this position.
    pub fn reacts_to_single_click(&self) -> (r: bool)
        ensures
            r == self.view() is Tap,
    {
        match self.button_type {
            ButtonType::Button(_) => true,
            _ => false,
        }
    }

    /// Hands a timer event to a hold control; true when its hold completed.
    pub fn htc_got_triggered(&mut self, ctx: &mut EventCtx, event: Event) -> (r: bool)
        requires
            old(self).wf(),
        ensures
            final(self).wf(),
            (final(self).view(), r) == old(self).view().poll(event, old(ctx).now),
            final(self).spec_pos() == old(self).spec_pos(),
            final(ctx).now == old(ctx).now,
    {
        if let ButtonType::HoldToConfirm(htc) = &mut self.button_type {
            if let Some(HoldToConfirmMsg::Confirmed) = htc.event(ctx, event) {
                return true;
            }
        }
        false
    }

    /// Starts the hold of a hold control.
    pub fn hold_started(&mut self, ctx: &mut EventCtx)
        requires
            old(self).wf(),
        ensures
            final(self).wf(),
            final(self).view() == old(self).view().hold_started(old(ctx).now),
            final(self).spec_pos() == old(self).spec_pos(),
            final(ctx).now == old(ctx).now,
    {
        if let ButtonType::HoldToConfirm(htc) = &mut self.button_type {
            htc.event(ctx, Event::Button(ButtonEvent::HoldStarted));
        }
    }

    /// Ends the hold of a hold control; a running hold falls back.
    pub fn hold_ended(&mut self, ctx: &mut EventCtx)
        requires
            old(self).wf(),
        ensures
            final(self).wf(),
            final(self).view() == old(self).view().hold_ended(old(ctx).now),
            final(self).spec_pos() == old(self).spec_pos(),
            final(ctx).now == old(ctx).now,
    {
        if let ButtonType::HoldToConfirm(htc) = &mut self.button_type {
            htc.event(ctx, Event::Button(ButtonEvent::HoldEnded));
        }
    }
}

/// The button state machine: turns press and release edges of the two
/// physical buttons, and timer events, into triggers of the left, middle and
/// right positions.
pub struct ButtonController {
    left_btn: ButtonContainer,
    middle_btn: ButtonContainer,
    right_btn: ButtonContainer,
    state: ButtonState,
    button_area: Rect,
}

impl ButtonController {
    pub closed spec fn wf(&self) -> bool {
        &&& self.left_btn.wf()
        &&& self.middle_btn.wf()
        &&& self.right_btn.wf()
        &&& self.button_area.wf()
        &&& self.left_btn.spec_pos() == ButtonPos::Left
        &&& self.middle_btn.spec_pos() == ButtonPos::Middle
        &&& self.right_btn.spec_pos() == ButtonPos::Right
    }

    pub closed spec fn view(&self) -> ControllerView {
        ControllerView {
            state: self.state,
            left: self.left_btn.view(),
            middle: self.middle_btn.view(),
            right: self.right_btn.view(),
        }
    }

    /// The area within which the controls are placed.
    pub closed spec fn spec_button_area(&self) -> Rect {
        self.button_area
    }

    /// Where the left, middle and right controls are drawn.
    pub closed spec fn spec_areas(&self) -> (Option<Rect>, Option<Rect>, Option<Rect>) {
        (self.left_btn.spec_area(), self.middle_btn.spec_area(), self.right_btn.spec_area())
    }

    /// What the left, middle and right controls show.
    pub closed spec fn spec_contents(&self) -> (Option<ButtonContent>, Option<ButtonContent>, Option<ButtonContent>) {
        (self.left_btn.spec_content(), self.middle_btn.spec_content(), self.right_btn.spec_content())
    }

    proof fn lemma_view_wf(&self)
        requires
            self.wf(),
        ensures
            self.view().wf(),
    {
        lemma_control_wf(self.left_btn.button_type);
        lemma_control_wf(self.middle_btn.button_type);
        lemma_control_wf(self.right_btn.button_type);
    }

    /// The controller for `btn_layout`, with no button down; a layout with a
    /// control that has neither label nor icon is refused, naming the first
    /// such position from the left.
    pub fn new(btn_layout: ButtonLayout) -> (r: Result<ButtonController, ConfigError>)
        ensures
            r is Ok <==> btn_layout.is_renderable(),
            r matches Ok(c) ==> c.wf() && c.view() == ControllerView::fresh(btn_layout),
            r matches Ok(c) ==> c.spec_contents() == (
                details_content(btn_layout.btn_left),
                details_content(btn_layout.btn_middle),
                details_content(btn_layout.btn_right),
            ),
            r matches Err(e) ==> e == first_unrenderable(btn_layout),
    {
        let left_btn = match ButtonContainer::new(ButtonPos::Left, btn_layout.btn_left) {
            Ok(c) => c,
            Err(e) => return Err(e),
        };
        let middle_btn = match ButtonContainer::new(ButtonPos::Middle, btn_layout.btn_middle) {
            Ok(c) => c,
            Err(e) => return Err(e),
        };
        let right_btn = match ButtonContainer::new(ButtonPos::Right, btn_layout.btn_right) {
            Ok(c) => c,
            Err(e) => return Err(e),
        };
        Ok(ButtonController {
            left_btn,
            middle_btn,
            right_btn,
            state: ButtonState::Nothing,
            button_area: Rect::zero(),
        })
    }

    /// Replaces all three controls; the gesture in progress is kept. A layout
    /// with a control that cannot be shown is refused and nothing changes.
    pub fn set(&mut self, btn_layout: ButtonLayout) -> (r: Result<(), ConfigError>)
        requires
            old(self).wf(),
        ensures
            final(self).wf(),
            r is Ok <==> btn_layout.is_renderable(),
            r is Ok ==> final(self).view() == old(self).view().with_layout(btn_layout),
            r is Ok ==> final(self).spec_contents() == (
                details_content(btn_layout.btn_left),
                details_content(btn_layout.btn_middle),
                details_content(btn_layout.btn_right),
            ),
            r is Ok ==> final(self).spec_areas() == (
                placed_area(old(self).spec_button_area(), if btn_layout.btn_left is Some { Some(ButtonPos::Left) } else { None }, details_content(btn_layout.btn_left)),
                placed_area(old(self).spec_button_area(), if btn_layout.btn_middle is Some { Some(ButtonPos::Middle) } else { None }, details_content(btn_layout.btn_middle)),
                placed_area(old(self).spec_button_area(), if btn_layout.btn_right is Some { Some(ButtonPos::Right) } else { None }, details_content(btn_layout.btn_right)),
            ),
            final(self).spec_button_area() == old(self).spec_button_area(),
            r matches Err(e) ==> e == first_unrenderable(btn_layout) && final(self).view() == old(self).view(),
    {
        if !btn_layout.is_renderable_exec() {
            return Err(first_unrenderable_exec(btn_layout));
        }
        let area = self.button_area;
        let _ = self.left_btn.set(btn_layout.btn_left, area);
        let _ = self.middle_btn.set(btn_layout.btn_middle, area);
        let _ = self.right_btn.set(btn_layout.btn_right, area);
        Ok(())
    }

    /// Shows the three positions pressed or released.
    fn set_pressed(&mut self, ctx: &mut EventCtx, left: bool, mid: bool, right: bool)
        requires
            old(self).wf(),
        ensures
            final(self).wf(),
            final(self).view() == (ControllerView {
                left: old(self).view().left.with_pressed(left),
                middle: old(self).view().middle.with_pressed(mid),
                right: old(self).view().right.with_pressed(right),
                ..old(self).view()
            }),
            final(self).button_area == old(self).button_area,
            final(ctx).now == old(ctx).now,
    {
        self.left_btn.set_pressed(ctx, left);
        self.middle_btn.set_pressed(ctx, mid);
        self.right_btn.set_pressed(ctx, right);
    }

    /// Both buttons are down: holds of the single buttons end and the middle
    /// hold starts.
    fn middle_hold_started(&mut self, ctx: &mut EventCtx)
        requires
            old(self).wf(),
        ensures
            final(self).wf(),
            final(self).view() == old(self).view().middle_hold_started(old(ctx).now),
            final(self).button_area == old(self).button_area,
            final(ctx).now == old(ctx).now,
    {
        self.left_btn.hold_ended(ctx);
        self.middle_btn.hold_started(ctx);
        self.right_btn.hold_ended(ctx);
    }
    /// Polls the hold controls left, middle, right on a timer event; the
    /// first completed hold triggers its position and the state waits for
    /// the release of its button (the middle one returns to no button down).
    fn handle_htc_expiration(&mut self, ctx: &mut EventCtx, event: Event) -> (r: Option<ButtonControllerMsg>)
        requires
            old(self).wf(),
        ensures
            final(self).wf(),
            (final(self).view(), r) == old(self).view().timer_transition(event, old(ctx).now),
            final(self).button_area == old(self).button_area,
            final(ctx).now == old(ctx).now,
    {
        if self.left_btn.htc_got_triggered(ctx, event) {
            self.state = ButtonState::HTCNeedsRelease(PhysicalButton::Left);
            self.set_pressed(ctx, false, false, false);
            return Some(ButtonControllerMsg::Triggered(ButtonPos::Left));
        }
        if self.middle_btn.htc_got_triggered(ctx, event) {
            self.state = ButtonState::Nothing;
            self.set_pressed(ctx, false, false, false);
            return Some(ButtonControllerMsg::Triggered(ButtonPos::Middle));
        }
        if self.right_btn.htc_got_triggered(ctx, event) {
            self.state = ButtonState::HTCNeedsRelease(PhysicalButton::Right);
            self.set_pressed(ctx, false, false, false);
            return Some(ButtonControllerMsg::Triggered(ButtonPos::Right));
        }
        None
    }

    fn hold_started_of(&mut self, ctx: &mut EventCtx, which: PhysicalButton)
        requires
            old(self).wf(),
        ensures
            final(self).wf(),
            final(self).view() == old(self).view().with_control(which, old(self).view().control(which).hold_started(old(ctx).now)),
            final(self).button_area == old(self).button_area,
            final(ctx).now == old(ctx).now,
    {
        match which {
            PhysicalButton::Left => self.left_btn.hold_started(ctx),
            PhysicalButton::Right => self.right_btn.hold_started(ctx),
        }
    }

    fn hold_ended_of(&mut self, ctx: &mut EventCtx, which: PhysicalButton)
        requires
            old(self).wf(),
        ensures
            final(self).wf(),
            final(self).view() == old(self).view().with_control(which, old(self).view().control(which).hold_ended(old(ctx).now)),
            final(self).button_area == old(self).button_area,
            final(ctx).now == old(ctx).now,
    {
        match which {
            PhysicalButton::Left => self.left_btn.hold_ended(ctx),
            PhysicalButton::Right => self.right_btn.hold_ended(ctx),
        }
    }

    fn reacts_to_single_click_of(&self, which: PhysicalButton) -> (r: bool)
        ensures
            r == self.view().control(which) is Tap,
    {
        match which {
            PhysicalButton::Left => self.left_btn.reacts_to_single_click(),
            PhysicalButton::Right => self.right_btn.reacts_to_single_click(),
        }
    }

    fn pos_of(which: PhysicalButton) -> (r: ButtonPos)
        ensures
            r == pos_of(which),
    {
        match which {
            PhysicalButton::Left => ButtonPos::Left,
            PhysicalButton::Right => ButtonPos::Right,
        }
    }

    /// The gesture transition on a button edge, without the visuals.
    fn button_transition(&mut self, ctx: &mut EventCtx, button: ButtonEvent) -> (r: Option<ButtonControllerMsg>)
        requires
            old(self).wf(),
        ensures
            final(self).wf(),
            (final(self).view(), r) == old(self).view().button_transition(button, old(ctx).now),
            final(self).button_area == old(self).button_area,
            final(ctx).now == old(ctx).now,
    {
        let state = self.state;
        let mut msg: Option<ButtonControllerMsg> = None;
        match state {
            ButtonState::Nothing => {
                if let ButtonEvent::ButtonPressed(which) = button {
                    self.hold_started_of(ctx, which);
                    self.state = ButtonState::OneDown(which);
                }
            },
            ButtonState::OneDown(which_down) => match button {
                ButtonEvent::ButtonReleased(b) => {
                    if b == which_down {
                        self.state = ButtonState::Nothing;
                        if self.reacts_to_single_click_of(which_down) {
                            msg = Some(ButtonControllerMsg::Triggered(Self::pos_of(which_down)));
                        } else {
                            self.hold_ended_of(ctx, which_down);
                        }
                    }
                },
                ButtonEvent::ButtonPressed(b) => {
                    if b != which_down {
                        self.middle_hold_started(ctx);
                        self.state = ButtonState::BothDown;
                    }
                },
                _ => {},
            },
            ButtonState::BothDown => {
                if let ButtonEvent::ButtonReleased(b) = button {
                    self.middle_btn.hold_ended(ctx);
                    self.state = ButtonState::OneReleased(b);
                }
            },
            ButtonState::OneReleased(which_up) => match button {
                ButtonEvent::ButtonPressed(b) => {
                    if b == which_up {
                        self.middle_hold_started(ctx);
                        self.state = ButtonState::BothDown;
                    }
                },
                ButtonEvent::ButtonReleased(b) => {
                    if b != which_up {
                        self.state = ButtonState::Nothing;
                        if self.middle_btn.reacts_to_single_click() {
                            msg = Some(ButtonControllerMsg::Triggered(ButtonPos::Middle));
                        }
                    }
                },
                _ => {},
            },
            ButtonState::HTCNeedsRelease(needs_release) => {
                // Only the release of the button whose hold completed leaves this state.
                if let ButtonEvent::ButtonReleased(released) = button {
                    if released == needs_release {
                        self.state = ButtonState::Nothing;
                    }
                }
            },
        }
        msg
    }

    /// Shows as pressed exactly the positions that the state holds down.
    fn update_visuals(&mut self, ctx: &mut EventCtx)
        requires
            old(self).wf(),
        ensures
            final(self).wf(),
            final(self).view() == old(self).view().with_visuals(),
            final(self).button_area == old(self).button_area,
            final(ctx).now == old(ctx).now,
    {
        match self.state {
            ButtonState::OneDown(PhysicalButton::Left) => self.set_pressed(ctx, true, false, false),
            ButtonState::OneDown(PhysicalButton::Right) => self.set_pressed(ctx, false, false, true),
            ButtonState::BothDown | ButtonState::OneReleased(_) => self.set_pressed(ctx, false, true, false),
            _ => self.set_pressed(ctx, false, false, false),
        }
    }

    /// Handles one event at `ctx.now` and reports the position it triggers,
    /// if any.
    pub fn event(&mut self, ctx: &mut EventCtx, event: Event) -> (r: Option<ButtonControllerMsg>)
        requires
            old(self).wf(),
        ensures
            final(self).wf(),
            (final(self).view(), r) == old(self).view().step(event, old(ctx).now),
            final(ctx).now == old(ctx).now,
    {
        match event {
            Event::Button(button) => {
                let msg = self.button_transition(ctx, button);
                self.update_visuals(ctx);
                msg
            },
            Event::Timer(_) => self.handle_htc_expiration(ctx, event),
            _ => None,
        }
    }

    /// Places the three controls within `bounds`, which are kept for
    /// controls set later.
    pub fn place(&mut self, bounds: Rect) -> (r: Rect)
        requires
            old(self).wf(),
            bounds.wf(),
        ensures
            final(self).wf(),
            final(self).view() == old(self).view(),
            r == bounds,
            final(self).spec_button_area() == bounds,
            final(self).spec_contents() == old(self).spec_contents(),
            final(self).spec_areas() == (
                placed_area(bounds, if old(self).spec_contents().0 is Some { Some(ButtonPos::Left) } else { None }, old(self).spec_contents().0),
                placed_area(bounds, if old(self).spec_contents().1 is Some { Some(ButtonPos::Middle) } else { None }, old(self).spec_contents().1),
                placed_area(bounds, if old(self).spec_contents().2 is Some { Some(ButtonPos::Right) } else { None }, old(self).spec_contents().2),
            ),
    {
        self.button_area = bounds;
        self.left_btn.place(bounds);
        self.middle_btn.place(bounds);
        self.right_btn.place(bounds);
        bounds
    }

    /// What to draw for the left, middle and right controls at `now`.
    pub fn paint(&self, now: Instant) -> (r: (Option<ButtonVisual>, Option<ButtonVisual>, Option<ButtonVisual>))
        requires
            self.wf(),
        ensures
            r.0 is Some <==> !(self.view().left is Absent),
            r.1 is Some <==> !(self.view().middle is Absent),
            r.2 is Some <==> !(self.view().right is Absent),
            r.0 matches Some(v) ==> visual_matches(v, self.view().left, now),
            r.1 matches Some(v) ==> visual_matches(v, self.view().middle, now),
            r.2 matches Some(v) ==> visual_matches(v, self.view().right, now),
    {
        (self.left_btn.paint(now), self.middle_btn.paint(now), self.right_btn.paint(now))
    }

    /// The gesture state.
    pub fn state(&self) -> (r: ButtonState)
        ensures
            r == self.view().state,
    {
        self.state
    }
}

/// The first position from the left whose declared control cannot be shown.
pub open spec fn first_unrenderable(layout: ButtonLayout) -> ConfigError {
    if !details_renderable(layout.btn_left) {
        ConfigError::NoTextOrIcon(ButtonPos::Left)
    } else if !details_renderable(layout.btn_middle) {
        ConfigError::NoTextOrIcon(ButtonPos::Middle)
    } else {
        ConfigError::NoTextOrIcon(ButtonPos::Right)
    }
}

fn first_unrenderable_exec(layout: ButtonLayout) -> (r: ConfigError)
    ensures
        r == first_unrenderable(layout),
{
    if !details_renderable_exec(layout.btn_left) {
        ConfigError::NoTextOrIcon(ButtonPos::Left)
    } else if !details_renderable_exec(layout.btn_middle) {
        ConfigError::NoTextOrIcon(ButtonPos::Middle)
    } else {
        ConfigError::NoTextOrIcon(ButtonPos::Right)
    }
}

proof fn lemma_control_wf(t: ButtonType)
    requires
        t.wf(),
    ensures
        t.view().wf(),
{
    match t {
        ButtonType::HoldToConfirm(h) => {
            h.lemma_loader_wf();
        },
        _ => {},
    }
}

} // verus!
