use vstd::prelude::*;

use crate::button::{
    button_width, placement, spec_button_width, spec_placement, spec_text_width, text_width,
    ButtonContent, ButtonPos, ButtonVisual, Icon,
};
use crate::event::{ButtonEvent, Event, EventCtx};
use crate::geometry::Rect;
use crate::loader::{Loader, LoaderMsg};
use crate::time::{Duration, Instant};

verus! {

#[derive(Copy, Clone, Debug, PartialEq, Eq, Structural)]
pub enum HoldToConfirmMsg {
    Confirmed,
    FailedToConfirm,
}

/// The hold timer's answer to one event: a hold start begins growing, a hold
/// end reverses a running timer, and the timer then handles the event itself.
pub open spec fn hold_step(loader: Loader, event: Event, now: Instant) -> (Loader, Option<HoldToConfirmMsg>) {
    let l = match event {
        Event::Button(ButtonEvent::HoldStarted) => loader.spec_start_growing(now),
        Event::Button(ButtonEvent::HoldEnded) => {
            if loader.spec_is_animating() {
                loader.spec_start_shrinking(now)
            } else {
                loader
            }
        },
        _ => loader,
    };
    let (l2, m) = l.spec_event(event, now);
    (
        l2,
        match m {
            Some(LoaderMsg::GrownCompletely) => Some(HoldToConfirmMsg::Confirmed),
            Some(LoaderMsg::ShrunkCompletely) => Some(HoldToConfirmMsg::FailedToConfirm),
            None => None,
        },
    )
}

/// A control that confirms once it has been held for its duration.
pub struct HoldToConfirm {
    area: Rect,
    pos: ButtonPos,
    loader: Loader,
    content: ButtonContent,
    text_width: i16,
}

impl HoldToConfirm {
    pub closed spec fn wf(&self) -> bool {
        &&& self.loader.wf()
        &&& self.text_width == self.content.spec_width()
    }

    pub closed spec fn spec_loader(&self) -> Loader {
        self.loader
    }

    pub proof fn lemma_loader_wf(&self)
        requires
            self.wf(),
        ensures
            self.spec_loader().wf(),
    {
    }

    pub closed spec fn spec_pos(&self) -> ButtonPos {
        self.pos
    }

    pub closed spec fn spec_content(&self) -> ButtonContent {
        self.content
    }

    pub closed spec fn spec_area(&self) -> Rect {
        self.area
    }

    pub fn text(pos: ButtonPos, text: &'static str, duration: Duration) -> (r: HoldToConfirm)
        ensures
            r.wf(),
            r.spec_pos() == pos,
            r.spec_content() == ButtonContent::Text(text),
            r.spec_loader() == Loader::spec_new(duration.millis),
    {
        let text_width = text_width(text);
        HoldToConfirm {
            area: Rect::zero(),
            pos,
            loader: Loader::new(duration),
            content: ButtonContent::Text(text),
            text_width,
        }
    }

    pub fn icon(pos: ButtonPos, icon: Icon, duration: Duration) -> (r: HoldToConfirm)
        ensures
            r.wf(),
            r.spec_pos() == pos,
            r.spec_content() == ButtonContent::Icon(icon),
            r.spec_loader() == Loader::spec_new(duration.millis),
    {
        HoldToConfirm {
            area: Rect::zero(),
            pos,
            loader: Loader::new(duration),
            content: ButtonContent::Icon(icon),
            text_width: icon.width,
        }
    }

    /// Replaces the label and places the control again within `button_area`.
    pub fn set_text(&mut self, text: &'static str, button_area: Rect)
        requires
            old(self).wf(),
            button_area.wf(),
        ensures
            final(self).wf(),
            final(self).spec_content() == ButtonContent::Text(text),
            final(self).spec_pos() == old(self).spec_pos(),
            final(self).spec_loader() == old(self).spec_loader(),
            final(self).spec_area() == spec_placement(button_area, old(self).spec_pos(),
                spec_button_width(spec_text_width(text@))),
    {
        self.text_width = text_width(text);
        self.content = ButtonContent::Text(text);
        self.place(button_area);
    }

    /// Forces the hold progress back to zero.
    pub fn reset(&mut self)
        requires
            old(self).wf(),
        ensures
            final(self).wf(),
            final(self).spec_loader() == (Loader {
                state: crate::loader::LoaderState::Initial,
                ..old(self).spec_loader()
            }),
            final(self).spec_pos() == old(self).spec_pos(),
            final(self).spec_content() == old(self).spec_content(),
            final(self).spec_area() == old(self).spec_area(),
    {
        self.loader.reset();
    }

    pub fn set_duration(&mut self, duration: Duration)
        requires
            old(self).wf(),
        ensures
            final(self).wf(),
            final(self).spec_loader().growing_ms == duration.millis,
            final(self).spec_loader().shrinking_ms == duration.millis / 3,
            final(self).spec_loader().state == old(self).spec_loader().state,
            final(self).spec_pos() == old(self).spec_pos(),
            final(self).spec_content() == old(self).spec_content(),
            final(self).spec_area() == old(self).spec_area(),
    {
        self.loader.set_duration(duration);
    }

    pub fn get_duration(&self) -> (r: Duration)
        ensures
            r.millis == self.spec_loader().growing_ms,
    {
        self.loader.get_duration()
    }

    /// The label, or the icon's name for an icon.
    pub fn get_text(&self) -> (r: &'static str)
        ensures
            r == match self.spec_content() {
                ButtonContent::Text(t) => t,
                ButtonContent::Icon(i) => i.name,
            },
    {
        match self.content {
            ButtonContent::Text(t) => t,
            ButtonContent::Icon(i) => i.name,
        }
    }

    fn placement(&self, area: Rect, pos: ButtonPos) -> (r: Rect)
        requires
            self.wf(),
            area.wf(),
        ensures
            r == spec_placement(area, pos, spec_button_width(self.spec_content().spec_width())),
            r.wf(),
    {
        let button_width = button_width(self.text_width);
        placement(area, pos, button_width)
    }

    /// Places the control at its position within `bounds`.
    pub fn place(&mut self, bounds: Rect) -> (r: Rect)
        requires
            old(self).wf(),
            bounds.wf(),
        ensures
            final(self).wf(),
            r == spec_placement(bounds, old(self).spec_pos(), spec_button_width(
                old(self).spec_content().spec_width())),
            final(self).spec_area() == r,
            final(self).spec_pos() == old(self).spec_pos(),
            final(self).spec_content() == old(self).spec_content(),
            final(self).spec_loader() == old(self).spec_loader(),
    {
        self.area = self.placement(bounds, self.pos);
        self.area
    }

    /// Handles an event at `ctx.now`; reports a hold that completed or one
    /// that fell back to zero.
    pub fn event(&mut self, ctx: &mut EventCtx, event: Event) -> (r: Option<HoldToConfirmMsg>)
        requires
            old(self).wf(),
        ensures
            final(self).wf(),
            (final(self).spec_loader(), r) == hold_step(old(self).spec_loader(), event, old(ctx).now),
            final(self).spec_pos() == old(self).spec_pos(),
            final(self).spec_content() == old(self).spec_content(),
            final(self).spec_area() == old(self).spec_area(),
            final(ctx).now == old(ctx).now,
    {
        let now = ctx.now;
        match event {
            Event::Button(ButtonEvent::HoldStarted) => {
                self.loader.start_growing(ctx, now);
            },
            Event::Button(ButtonEvent::HoldEnded) => {
                if self.loader.is_animating() {
                    self.loader.start_shrinking(ctx, now);
                }
            },
            _ => {},
        }
        let msg = self.loader.event(ctx, event);
        match msg {
            Some(LoaderMsg::GrownCompletely) => Some(HoldToConfirmMsg::Confirmed),
            Some(LoaderMsg::ShrunkCompletely) => Some(HoldToConfirmMsg::FailedToConfirm),
            None => None,
        }
    }

    pub fn paint(&self, now: Instant) -> (r: ButtonVisual)
        requires
            self.wf(),
        ensures
            r.area == self.spec_area(),
            r.content == self.spec_content(),
            !r.pressed,
            r.progress == Some(self.spec_loader().spec_progress(now) as u16),
    {
        ButtonVisual {
            area: self.area,
            content: self.content,
            pressed: false,
            progress: Some(self.loader.progress(now)),
        }
    }
}

} // verus!
