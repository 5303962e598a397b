use vstd::prelude::*;

use crate::button::{ButtonDetails, ButtonLayout, ButtonPos, Icon};
use crate::button_controller::{ButtonController, ButtonControllerMsg, ControllerView};
use crate::event::{Event, EventCtx};
use crate::geometry::Rect;

verus! {

/// Height of the button strip at the bottom of a choice page, in pixels.
pub const BUTTON_HEIGHT: i16 = 12;

#[derive(Copy, Clone, Debug, PartialEq, Eq, Structural)]
pub enum ChoicePageMsg {
    /// The middle position selected the choice at this index.
    Choice(u8),
    /// Left was triggered on the first choice, outside carousel mode.
    LeftMost,
    /// Right was triggered on the last choice, outside carousel mode.
    RightMost,
}

/// One selectable item: its label, an optional icon, and the buttons shown
/// while it is the current choice.
#[derive(Copy, Clone, Debug)]
pub struct ChoiceItem {
    pub text: &'static str,
    pub icon: Option<Icon>,
    pub btn_layout: ButtonLayout,
}

impl ChoiceItem {
    pub fn new(text: &'static str, btn_layout: ButtonLayout) -> (r: ChoiceItem)
        ensures
            r == (ChoiceItem { text, icon: None, btn_layout }),
    {
        ChoiceItem { text, icon: None, btn_layout }
    }

    pub fn with_icon(self, icon: Icon) -> (r: ChoiceItem)
        ensures
            r == (ChoiceItem { icon: Some(icon), ..self }),
    {
        ChoiceItem { icon: Some(icon), ..self }
    }

    pub fn set_middle_btn(&mut self, btn_middle: Option<ButtonDetails>)
        ensures
            *final(self) == (ChoiceItem {
                btn_layout: ButtonLayout { btn_middle, ..old(self).btn_layout },
                ..*old(self)
            }),
    {
        self.btn_layout.btn_middle = btn_middle;
    }

    pub fn btn_layout(&self) -> (r: ButtonLayout)
        ensures
            r == self.btn_layout,
    {
        self.btn_layout
    }
}

/// A lazily queried sequence of choices: items are made one at a time, when
/// they are shown, so the whole sequence never needs to be held.
pub trait ChoiceFactory {
    /// The number of choices.
    spec fn spec_count(&self) -> nat;

    /// The choice at `index`.
    spec fn spec_get(&self, index: int) -> ChoiceItem;

    fn get(&self, choice_index: u8) -> (r: ChoiceItem)
        requires
            (choice_index as nat) < self.spec_count(),
        ensures
            r == self.spec_get(choice_index as int),
            r.btn_layout.is_renderable(),
    ;

    fn count(&self) -> (r: u8)
        ensures
            r as nat == self.spec_count(),
    ;
}

/// Where a navigation trigger leads from `index` among `count` choices, and
/// what the page reports: left and right step to the neighbour, wrap around
/// in carousel mode or else report the edge; middle selects.
pub open spec fn navigate(index: nat, count: nat, is_carousel: bool, out: Option<ButtonControllerMsg>) -> (nat, Option<ChoicePageMsg>) {
    match out {
        Some(ButtonControllerMsg::Triggered(ButtonPos::Left)) => {
            if index > 0 {
                ((index - 1) as nat, None)
            } else if is_carousel {
                ((count - 1) as nat, None)
            } else {
                (index, Some(ChoicePageMsg::LeftMost))
            }
        },
        Some(ButtonControllerMsg::Triggered(ButtonPos::Right)) => {
            if index + 1 < count {
                (index + 1, None)
            } else if is_carousel {
                (0, None)
            } else {
                (index, Some(ChoicePageMsg::RightMost))
            }
        },
        Some(ButtonControllerMsg::Triggered(ButtonPos::Middle)) => (index, Some(ChoicePageMsg::Choice(index as u8))),
        None => (index, None),
    }
}

/// Whether a trigger moves to another page (rather than reporting an edge,
/// a selection, or nothing).
pub open spec fn moves(index: nat, count: nat, is_carousel: bool, out: Option<ButtonControllerMsg>) -> bool {
    match out {
        Some(ButtonControllerMsg::Triggered(ButtonPos::Left)) => index > 0 || is_carousel,
        Some(ButtonControllerMsg::Triggered(ButtonPos::Right)) => index + 1 < count || is_carousel,
        _ => false,
    }
}

/// The page index after binding a sequence of `new_count` choices: zero when
/// asked for, or when the index kept would lie outside the new sequence.
pub open spec fn reset_index(index: nat, new_count: nat, reset_page_counter: bool) -> nat {
    if reset_page_counter || index >= new_count {
        0
    } else {
        index
    }
}

/// The three choices shown: the current one in the centre, with its
/// neighbours, or in carousel mode those of the other end, at the sides.
pub struct ChoiceVisuals {
    pub left: Option<ChoiceItem>,
    pub center: ChoiceItem,
    pub right: Option<ChoiceItem>,
}

/// A page that shows one choice of a sequence with its neighbours and lets
/// the user browse and select with the buttons.
pub struct ChoicePage<F: ChoiceFactory> {
    choices: F,
    buttons: ButtonController,
    page_counter: u8,
    is_carousel: bool,
}

impl<F: ChoiceFactory> ChoicePage<F> {
    pub closed spec fn wf(&self) -> bool {
        &&& self.choices.spec_count() >= 1
        &&& self.choices.spec_count() <= u8::MAX
        &&& (self.page_counter as nat) < self.choices.spec_count()
        &&& self.buttons.wf()
    }

    pub closed spec fn spec_page_counter(&self) -> nat {
        self.page_counter as nat
    }

    pub closed spec fn spec_choices(&self) -> F {
        self.choices
    }

    pub closed spec fn spec_is_carousel(&self) -> bool {
        self.is_carousel
    }

    pub closed spec fn buttons_view(&self) -> ControllerView {
        self.buttons.view()
    }

    /// The area of the button strip.
    pub closed spec fn spec_button_area(&self) -> Rect {
        self.buttons.spec_button_area()
    }

    pub proof fn lemma_wf(&self)
        requires
            self.wf(),
        ensures
            self.spec_choices().spec_count() >= 1,
            self.spec_page_counter() < self.spec_choices().spec_count(),
    {
    }

    /// A page on the first choice, outside carousel mode.
    pub fn new(choices: F) -> (r: ChoicePage<F>)
        requires
            choices.spec_count() >= 1,
        ensures
            r.wf(),
            r.spec_choices() == choices,
            r.spec_page_counter() == 0,
            !r.spec_is_carousel(),
            r.buttons_view() == ControllerView::fresh(choices.spec_get(0).btn_layout),
    {
        // The count is a `u8`, which bounds the page index.
        let _count = choices.count();
        let initial_btn_layout = choices.get(0).btn_layout();
        let buttons = ButtonController::new(initial_btn_layout).unwrap();
        ChoicePage { choices, buttons, page_counter: 0, is_carousel: false }
    }

    /// Starts on the choice at `page_counter` instead, with its buttons.
    pub fn with_initial_page_counter(self, page_counter: u8) -> (r: ChoicePage<F>)
        requires
            self.wf(),
            (page_counter as nat) < self.spec_choices().spec_count(),
        ensures
            r.wf(),
            r.spec_choices() == self.spec_choices(),
            r.spec_page_counter() == page_counter,
            r.spec_is_carousel() == self.spec_is_carousel(),
            r.buttons_view() == self.buttons_view().with_layout(
                self.spec_choices().spec_get(page_counter as int).btn_layout,
            ),
    {
        let mut page = self;
        page.page_counter = page_counter;
        page.set_buttons();
        page
    }

    /// Switches carousel mode on or off.
    pub fn with_carousel(self, carousel: bool) -> (r: ChoicePage<F>)
        requires
            self.wf(),
        ensures
            r.wf(),
            r.spec_choices() == self.spec_choices(),
            r.spec_page_counter() == self.spec_page_counter(),
            r.spec_is_carousel() == carousel,
            r.buttons_view() == self.buttons_view(),
    {
        let mut page = self;
        page.is_carousel = carousel;
        page
    }

    /// Binds a new sequence of choices to the same page. The page index is
    /// kept unless `reset_page_counter` asks for zero or it lies outside the
    /// new sequence; the buttons become those of the new current choice.
    pub fn reset(&mut self, ctx: &mut EventCtx, new_choices: F, reset_page_counter: bool, is_carousel: bool)
        requires
            old(self).wf(),
            new_choices.spec_count() >= 1,
        ensures
            final(self).wf(),
            final(self).spec_choices() == new_choices,
            final(self).spec_page_counter() == reset_index(
                old(self).spec_page_counter(),
                new_choices.spec_count(),
                reset_page_counter,
            ),
            final(self).spec_is_carousel() == is_carousel,
            final(self).buttons_view() == old(self).buttons_view().with_layout(
                new_choices.spec_get(final(self).spec_page_counter() as int).btn_layout,
            ),
            final(ctx).paint_requested,
            final(ctx).now == old(ctx).now,
    {
        let new_count = new_choices.count();
        self.choices = new_choices;
        if reset_page_counter || self.page_counter >= new_count {
            self.page_counter = 0;
        }
        self.update(ctx);
        self.is_carousel = is_carousel;
    }

    /// Goes to the choice at `page_counter`.
    pub fn set_page_counter(&mut self, ctx: &mut EventCtx, page_counter: u8)
        requires
            old(self).wf(),
            (page_counter as nat) < old(self).spec_choices().spec_count(),
        ensures
            final(self).wf(),
            final(self).spec_choices() == old(self).spec_choices(),
            final(self).spec_page_counter() == page_counter,
            final(self).spec_is_carousel() == old(self).spec_is_carousel(),
            final(self).buttons_view() == old(self).buttons_view().with_layout(
                old(self).spec_choices().spec_get(page_counter as int).btn_layout,
            ),
            final(ctx).paint_requested,
            final(ctx).now == old(ctx).now,
    {
        self.page_counter = page_counter;
        self.update(ctx);
    }

    /// The current choice with its neighbours, or in carousel mode those of
    /// the other end: at most three items are made.
    pub fn paint_choices(&self) -> (r: ChoiceVisuals)
        requires
            self.wf(),
        ensures
            r.center == self.spec_choices().spec_get(self.spec_page_counter() as int),
            r.left == if self.spec_page_counter() > 0 {
                Some(self.spec_choices().spec_get(self.spec_page_counter() - 1))
            } else if self.spec_is_carousel() {
                Some(self.spec_choices().spec_get(self.spec_choices().spec_count() - 1))
            } else {
                None
            },
            r.right == if self.spec_page_counter() + 1 < self.spec_choices().spec_count() {
                Some(self.spec_choices().spec_get(self.spec_page_counter() + 1 as int))
            } else if self.spec_is_carousel() {
                Some(self.spec_choices().spec_get(0))
            } else {
                None
            },
    {
        let center = self.show_current_choice();
        let left = if self.has_previous_choice() {
            Some(self.show_previous_choice())
        } else if self.is_carousel {
            Some(self.show_last_choice_on_left())
        } else {
            None
        };
        let right = if self.has_next_choice() {
            Some(self.show_next_choice())
        } else if self.is_carousel {
            Some(self.show_first_choice_on_right())
        } else {
            None
        };
        ChoiceVisuals { left, center, right }
    }

    /// Shows the buttons of the current choice and asks for a repaint.
    fn update(&mut self, ctx: &mut EventCtx)
        requires
            old(self).wf(),
        ensures
            final(self).wf(),
            final(self).choices == old(self).choices,
            final(self).page_counter == old(self).page_counter,
            final(self).is_carousel == old(self).is_carousel,
            final(self).buttons_view() == old(self).buttons_view().with_layout(
                old(self).choices.spec_get(old(self).page_counter as int).btn_layout,
            ),
            final(ctx).paint_requested,
            final(ctx).now == old(ctx).now,
    {
        self.set_buttons();
        self.clear(ctx);
    }

    /// Asks for the whole page to be repainted.
    fn clear(&self, ctx: &mut EventCtx)
        ensures
            final(ctx).paint_requested,
            final(ctx).now == old(ctx).now,
            final(ctx).anim_frame_requested == old(ctx).anim_frame_requested,
    {
        ctx.request_paint();
    }

    fn last_page_index(&self) -> (r: u8)
        requires
            self.wf(),
        ensures
            r as nat == self.choices.spec_count() - 1,
    {
        self.choices.count() - 1
    }

    /// Whether a choice precedes the current one.
    pub fn has_previous_choice(&self) -> (r: bool)
        ensures
            r == (self.spec_page_counter() > 0),
    {
        self.page_counter > 0
    }

    /// Whether a choice follows the current one.
    pub fn has_next_choice(&self) -> (r: bool)
        requires
            self.wf(),
        ensures
            r == (self.spec_page_counter() + 1 < self.spec_choices().spec_count()),
    {
        self.page_counter < self.last_page_index()
    }

    fn current_choice(&self) -> (r: ChoiceItem)
        requires
            self.wf(),
        ensures
            r == self.choices.spec_get(self.page_counter as int),
            r.btn_layout.is_renderable(),
    {
        self.get_choice(self.page_counter)
    }

    fn get_choice(&self, index: u8) -> (r: ChoiceItem)
        requires
            self.wf(),
            (index as nat) < self.choices.spec_count(),
        ensures
            r == self.choices.spec_get(index as int),
            r.btn_layout.is_renderable(),
    {
        self.choices.get(index)
    }

    fn show_current_choice(&self) -> (r: ChoiceItem)
        requires
            self.wf(),
        ensures
            r == self.choices.spec_get(self.page_counter as int),
    {
        self.current_choice()
    }

    fn show_previous_choice(&self) -> (r: ChoiceItem)
        requires
            self.wf(),
            self.page_counter > 0,
        ensures
            r == self.choices.spec_get(self.page_counter - 1),
    {
        self.get_choice(self.page_counter - 1)
    }

    fn show_next_choice(&self) -> (r: ChoiceItem)
        requires
            self.wf(),
            self.page_counter + 1 < self.choices.spec_count(),
        ensures
            r == self.choices.spec_get(self.page_counter + 1),
    {
        self.get_choice(self.page_counter + 1)
    }

    fn show_last_choice_on_left(&self) -> (r: ChoiceItem)
        requires
            self.wf(),
        ensures
            r == self.choices.spec_get(self.choices.spec_count() - 1),
    {
        self.get_choice(self.last_page_index())
    }

    fn show_first_choice_on_right(&self) -> (r: ChoiceItem)
        requires
            self.wf(),
        ensures
            r == self.choices.spec_get(0),
    {
        self.get_choice(0)
    }

    fn decrease_page_counter(&mut self)
        requires
            old(self).wf(),
            old(self).page_counter > 0,
        ensures
            final(self).wf(),
            final(self).page_counter == old(self).page_counter - 1,
            final(self).choices == old(self).choices,
            final(self).is_carousel == old(self).is_carousel,
            final(self).buttons == old(self).buttons,
    {
        self.page_counter -= 1;
    }

    fn increase_page_counter(&mut self)
        requires
            old(self).wf(),
            old(self).page_counter + 1 < old(self).choices.spec_count(),
        ensures
            final(self).wf(),
            final(self).page_counter == old(self).page_counter + 1,
            final(self).choices == old(self).choices,
            final(self).is_carousel == old(self).is_carousel,
            final(self).buttons == old(self).buttons,
    {
        self.page_counter += 1;
    }

    fn page_counter_to_zero(&mut self)
        requires
            old(self).wf(),
        ensures
            final(self).wf(),
            final(self).page_counter == 0,
            final(self).choices == old(self).choices,
            final(self).is_carousel == old(self).is_carousel,
            final(self).buttons == old(self).buttons,
    {
        self.page_counter = 0;
    }

    fn page_counter_to_max(&mut self)
        requires
            old(self).wf(),
        ensures
            final(self).wf(),
            final(self).page_counter as nat == old(self).choices.spec_count() - 1,
            final(self).choices == old(self).choices,
            final(self).is_carousel == old(self).is_carousel,
            final(self).buttons == old(self).buttons,
    {
        self.page_counter = self.last_page_index();
    }

    /// The index of the current choice.
    pub fn page_index(&self) -> (r: u8)
        ensures
            r as nat == self.spec_page_counter(),
    {
        self.page_counter
    }

    /// Whether browsing wraps around at the ends.
    pub fn is_carousel(&self) -> (r: bool)
        ensures
            r == self.spec_is_carousel(),
    {
        self.is_carousel
    }

    /// Shows the buttons of the current choice; the gesture in progress is kept.
    fn set_buttons(&mut self)
        requires
            old(self).wf(),
        ensures
            final(self).wf(),
            final(self).choices == old(self).choices,
            final(self).page_counter == old(self).page_counter,
            final(self).is_carousel == old(self).is_carousel,
            final(self).buttons_view() == old(self).buttons_view().with_layout(
                old(self).choices.spec_get(old(self).page_counter as int).btn_layout,
            ),
    {
        let btn_layout = self.current_choice().btn_layout();
        let _ = self.buttons.set(btn_layout);
    }

    /// Places the buttons in the bottom strip of `bounds`.
    pub fn place(&mut self, bounds: Rect) -> (r: Rect)
        requires
            old(self).wf(),
            bounds.wf(),
        ensures
            final(self).wf(),
            r == bounds,
            final(self).spec_choices() == old(self).spec_choices(),
            final(self).spec_page_counter() == old(self).spec_page_counter(),
            final(self).spec_is_carousel() == old(self).spec_is_carousel(),
            final(self).buttons_view() == old(self).buttons_view(),
            final(self).spec_button_area() == bounds.spec_split_bottom(BUTTON_HEIGHT as int).1,
    {
        let (_content_area, button_area) = bounds.split_bottom(BUTTON_HEIGHT);
        self.buttons.place(button_area);
        bounds
    }

    /// Handles one event at `ctx.now`: the buttons turn it into a trigger,
    /// which moves to a neighbouring choice (wrapping around in carousel
    /// mode), reports an edge, or selects the current choice.
    pub fn event(&mut self, ctx: &mut EventCtx, event: Event) -> (r: Option<ChoicePageMsg>)
        requires
            old(self).wf(),
        ensures
            final(self).wf(),
            ({
                let (bv, out) = old(self).buttons_view().step(event, old(ctx).now);
                let count = old(self).spec_choices().spec_count();
                let (index, msg) = navigate(old(self).spec_page_counter(), count, old(self).spec_is_carousel(), out);
                &&& final(self).spec_page_counter() == index
                &&& r == msg
                &&& final(self).buttons_view() == if moves(old(self).spec_page_counter(), count, old(self).spec_is_carousel(), out) {
                    bv.with_layout(old(self).spec_choices().spec_get(index as int).btn_layout)
                } else {
                    bv
                }
            }),
            final(self).spec_choices() == old(self).spec_choices(),
            final(self).spec_is_carousel() == old(self).spec_is_carousel(),
            final(ctx).now == old(ctx).now,
    {
        let button_event = self.buttons.event(ctx, event);
        match button_event {
            Some(ButtonControllerMsg::Triggered(ButtonPos::Left)) => {
                if self.has_previous_choice() {
                    self.decrease_page_counter();
                    self.update(ctx);
                } else if self.is_carousel {
                    self.page_counter_to_max();
                    self.update(ctx);
                } else {
                    self.clear(ctx);
                    return Some(ChoicePageMsg::LeftMost);
                }
            },
            Some(ButtonControllerMsg::Triggered(ButtonPos::Right)) => {
                if self.has_next_choice() {
                    self.increase_page_counter();
                    self.update(ctx);
                } else if self.is_carousel {
                    self.page_counter_to_zero();
                    self.update(ctx);
                } else {
                    self.clear(ctx);
                    return Some(ChoicePageMsg::RightMost);
                }
            },
            Some(ButtonControllerMsg::Triggered(ButtonPos::Middle)) => {
                self.clear(ctx);
                return Some(ChoicePageMsg::Choice(self.page_counter));
            },
            None => {},
        }
        None
    }
}

/// Left on the first choice never goes below it: outside carousel mode it
/// reports the left edge and stays, in carousel mode it goes to the last
/// choice.
pub proof fn lemma_left_at_first_choice(count: nat, is_carousel: bool)
    requires
        count >= 1,
    ensures
        ({
            let (index, msg) = navigate(0, count, is_carousel, Some(ButtonControllerMsg::Triggered(ButtonPos::Left)));
            &&& !is_carousel ==> index == 0 && msg == Some(ChoicePageMsg::LeftMost)
            &&& is_carousel ==> index == count - 1 && msg is None
        }),
{
}

/// Browsing keeps the page index inside the sequence.
pub proof fn lemma_navigate_in_range(index: nat, count: nat, is_carousel: bool, out: Option<ButtonControllerMsg>)
    requires
        index < count,
    ensures
        navigate(index, count, is_carousel, out).0 < count,
{
}

/// After a new sequence is bound, the page index lies inside it, so the
/// current choice is always fetched from the new sequence.
pub proof fn lemma_reset_index_in_range(index: nat, new_count: nat, reset_page_counter: bool)
    requires
        new_count >= 1,
    ensures
        reset_index(index, new_count, reset_page_counter) < new_count,
        !reset_page_counter && index < new_count ==> reset_index(index, new_count, reset_page_counter) == index,
{
}

} // verus!
