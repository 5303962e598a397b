use vstd::prelude::*;

use crate::button::{spec_three_icons, ButtonDetails, ButtonLayout, Icon, DEFAULT_HOLD_MILLIS};
use crate::button_controller::ControllerView;
use crate::choice::{moves, navigate, ChoiceFactory, ChoiceItem, ChoicePage, ChoicePageMsg};
use crate::event::{Event, EventCtx};
use crate::text_box::{
    is_ascii_char, lemma_ascii_utf8_len, lemma_utf8_len_concat, utf8_len, TextBox, TextLine,
    MAX_TEXT_LENGTH,
};
use crate::time::Duration;

verus! {

#[derive(Copy, Clone, Debug, PartialEq, Eq, Structural)]
pub enum PinEntryMsg {
    Confirmed,
    Cancelled,
}

/// Longest PIN, in digits.
pub const MAX_PIN_LENGTH: usize = 50;

/// Number of choices: the three actions and the ten digits.
pub const CHOICE_LENGTH: u8 = 13;

pub const DELETE_INDEX: u8 = 0;

pub const SHOW_INDEX: u8 = 1;

pub const ENTER_INDEX: u8 = 2;

/// Index of the digit zero; the digits follow in order.
pub const NUMBER_START_INDEX: u8 = 3;

/// The label of the PIN choice at `index`.
pub open spec fn pin_choice_text(index: int) -> &'static str {
    if index == 0 {
        "DELETE"
    } else if index == 1 {
        "SHOW"
    } else if index == 2 {
        "ENTER"
    } else if index == 3 {
        "0"
    } else if index == 4 {
        "1"
    } else if index == 5 {
        "2"
    } else if index == 6 {
        "3"
    } else if index == 7 {
        "4"
    } else if index == 8 {
        "5"
    } else if index == 9 {
        "6"
    } else if index == 10 {
        "7"
    } else if index == 11 {
        "8"
    } else {
        "9"
    }
}

fn choice_text(index: u8) -> (r: &'static str)
    ensures
        r == pin_choice_text(index as int),
{
    match index {
        0 => "DELETE",
        1 => "SHOW",
        2 => "ENTER",
        3 => "0",
        4 => "1",
        5 => "2",
        6 => "3",
        7 => "4",
        8 => "5",
        9 => "6",
        10 => "7",
        11 => "8",
        _ => "9",
    }
}

pub open spec fn is_digit(c: char) -> bool {
    '0' <= c && c <= '9'
}

/// Every digit choice is labelled with its one digit.
pub proof fn lemma_digit_labels(index: int)
    requires
        NUMBER_START_INDEX <= index < CHOICE_LENGTH,
    ensures
        pin_choice_text(index)@.len() == 1,
        is_digit(pin_choice_text(index)@[0]),
{
    reveal_strlit("0");
    reveal_strlit("1");
    reveal_strlit("2");
    reveal_strlit("3");
    reveal_strlit("4");
    reveal_strlit("5");
    reveal_strlit("6");
    reveal_strlit("7");
    reveal_strlit("8");
    reveal_strlit("9");
}

/// The icon of an action choice.
pub open spec fn pin_action_icon(index: int) -> Icon {
    if index == 0 {
        Icon { name: "delete", width: 8 }
    } else if index == 1 {
        Icon { name: "eye", width: 8 }
    } else {
        Icon { name: "tick", width: 8 }
    }
}

/// The PIN choice at `index`: browse and select buttons, and for the three
/// actions an icon and a middle button that must be held to confirm.
pub open spec fn pin_choice(index: int) -> ChoiceItem {
    let base = ChoiceItem { text: pin_choice_text(index), icon: None, btn_layout: spec_three_icons() };
    if index < NUMBER_START_INDEX {
        ChoiceItem {
            icon: Some(pin_action_icon(index)),
            btn_layout: ButtonLayout {
                btn_middle: Some(ButtonDetails {
                    text: Some("CONFIRM"),
                    icon: None,
                    duration: Some(Duration { millis: DEFAULT_HOLD_MILLIS }),
                }),
                ..base.btn_layout
            },
            ..base
        }
    } else {
        base
    }
}

/// The choices of PIN entry: delete, show, enter and the ten digits.
pub struct ChoiceFactoryPIN {}

impl ChoiceFactoryPIN {
    pub fn new() -> (r: ChoiceFactoryPIN) {
        ChoiceFactoryPIN {  }
    }
}

impl ChoiceFactory for ChoiceFactoryPIN {
    open spec fn spec_count(&self) -> nat {
        CHOICE_LENGTH as nat
    }

    open spec fn spec_get(&self, index: int) -> ChoiceItem {
        pin_choice(index)
    }

    fn get(&self, choice_index: u8) -> (r: ChoiceItem) {
        let choice_str = choice_text(choice_index);
        let mut choice_item = ChoiceItem::new(choice_str, ButtonLayout::default_three_icons());
        // Action choices confirm by holding the middle button.
        if choice_index == DELETE_INDEX || choice_index == SHOW_INDEX || choice_index == ENTER_INDEX {
            let confirm_btn = ButtonDetails::armed_text("CONFIRM");
            choice_item.set_middle_btn(Some(confirm_btn));
        }
        if choice_index == DELETE_INDEX {
            choice_item = choice_item.with_icon(Icon::new("delete", 8));
        } else if choice_index == SHOW_INDEX {
            choice_item = choice_item.with_icon(Icon::new("eye", 8));
        } else if choice_index == ENTER_INDEX {
            choice_item = choice_item.with_icon(Icon::new("tick", 8));
        }
        choice_item
    }

    fn count(&self) -> (r: u8) {
        CHOICE_LENGTH
    }
}

/// The header line: the prompt while no digit is entered, then the PIN
/// itself right after show was selected, and otherwise one `*` per digit.
pub open spec fn header_text(pin: Seq<char>, prompt: Seq<char>, show_real_pin: bool) -> Seq<char> {
    if pin.len() == 0 {
        prompt
    } else if show_real_pin {
        pin
    } else {
        Seq::new(pin.len(), |_i: int| '*')
    }
}

/// The selected index, if the page reported a selection.
pub open spec fn selection(msg: Option<ChoicePageMsg>) -> Option<u8> {
    match msg {
        Some(ChoicePageMsg::Choice(i)) => Some(i),
        _ => None,
    }
}

/// The PIN after a selection: delete removes the last digit, a digit is
/// appended while the PIN is shorter than its maximum, the rest keep it.
pub open spec fn pin_after(pin: Seq<char>, selected: Option<u8>) -> Seq<char> {
    match selected {
        Some(i) => {
            if i == DELETE_INDEX {
                if pin.len() > 0 { pin.drop_last() } else { pin }
            } else if i >= NUMBER_START_INDEX && pin.len() < MAX_PIN_LENGTH {
                pin + pin_choice_text(i as int)@
            } else {
                pin
            }
        },
        None => pin,
    }
}

/// Whether a selection appends a digit.
pub open spec fn appends_digit(pin: Seq<char>, selected: Option<u8>) -> bool {
    match selected {
        Some(i) => i >= NUMBER_START_INDEX && pin.len() < MAX_PIN_LENGTH,
        None => false,
    }
}

/// A screen for entering a PIN digit by digit on a carousel of choices.
pub struct PinEntry {
    choice_page: ChoicePage<ChoiceFactoryPIN>,
    pin_line: TextLine,
    subprompt: &'static str,
    show_subprompt: bool,
    prompt: &'static str,
    show_real_pin: bool,
    textbox: TextBox,
}

impl PinEntry {
    pub closed spec fn wf(&self) -> bool {
        &&& self.choice_page.wf()
        &&& self.choice_page.spec_is_carousel()
        &&& utf8_len(self.prompt@) <= MAX_TEXT_LENGTH
        &&& self.textbox.view().len() <= MAX_PIN_LENGTH
        &&& forall|i: int| 0 <= i < self.textbox.view().len() ==> is_digit(#[trigger] self.textbox.view()[i])
        &&& self.pin_line.view() == header_text(self.textbox.view(), self.prompt@, self.show_real_pin)
        &&& self.show_subprompt == (self.textbox.view().len() == 0)
    }

    pub closed spec fn spec_pin(&self) -> Seq<char> {
        self.textbox.view()
    }

    pub closed spec fn spec_prompt(&self) -> &'static str {
        self.prompt
    }

    pub closed spec fn spec_show_real_pin(&self) -> bool {
        self.show_real_pin
    }

    pub closed spec fn spec_header(&self) -> Seq<char> {
        self.pin_line.view()
    }

    pub closed spec fn spec_shows_subprompt(&self) -> bool {
        self.show_subprompt
    }

    pub closed spec fn spec_page_index(&self) -> nat {
        self.choice_page.spec_page_counter()
    }

    pub closed spec fn buttons_view(&self) -> ControllerView {
        self.choice_page.buttons_view()
    }

    /// The PIN is all digits, so one byte per digit.
    proof fn lemma_pin_len(&self)
        requires
            self.wf(),
        ensures
            utf8_len(self.spec_pin()) == self.spec_pin().len(),
    {
        let ghost p = self.textbox.view();
        assert forall|i: int| 0 <= i < p.len() implies is_ascii_char(#[trigger] p[i]) by {
            assert(is_digit(p[i]));
        }
        lemma_ascii_utf8_len(p);
    }

    /// An empty PIN on the digit zero, showing `prompt` and `subprompt`;
    /// the prompt must fit the header line.
    pub fn new(prompt: &'static str, subprompt: &'static str) -> (r: PinEntry)
        requires
            utf8_len(prompt@) <= MAX_TEXT_LENGTH,
        ensures
            r.wf(),
            r.spec_pin() == Seq::<char>::empty(),
            !r.spec_show_real_pin(),
            r.spec_page_index() == NUMBER_START_INDEX,
            r.spec_prompt() == prompt,
            r.spec_header() == prompt@,
            r.spec_shows_subprompt(),
            r.buttons_view() == ControllerView::fresh(pin_choice(NUMBER_START_INDEX as int).btn_layout),
    {
        let choices = ChoiceFactoryPIN::new();
        let choice_page = ChoicePage::new(choices).with_initial_page_counter(NUMBER_START_INDEX).with_carousel(
            true,
        );
        PinEntry {
            choice_page,
            pin_line: TextLine::from_str(prompt),
            subprompt,
            show_subprompt: true,
            prompt,
            show_real_pin: false,
            textbox: TextBox::empty(),
        }
    }

    fn append_new_digit(&mut self, ctx: &mut EventCtx, page_counter: u8)
        requires
            old(self).wf(),
            NUMBER_START_INDEX <= page_counter < CHOICE_LENGTH,
            old(self).spec_pin().len() < MAX_PIN_LENGTH,
        ensures
            final(self).textbox.view() == old(self).textbox.view() + pin_choice_text(page_counter as int)@,
            final(self).textbox.view().len() <= MAX_PIN_LENGTH,
            forall|i: int| 0 <= i < final(self).textbox.view().len() ==> is_digit(#[trigger] final(self).textbox.view()[i]),
            final(self).choice_page == old(self).choice_page,
            final(self).prompt == old(self).prompt,
            final(self).show_real_pin == old(self).show_real_pin,
            final(self).pin_line == old(self).pin_line,
            final(self).show_subprompt == old(self).show_subprompt,
            final(ctx).now == old(ctx).now,
    {
        let digit = choice_text(page_counter);
        proof {
            lemma_digit_labels(page_counter as int);
            self.lemma_pin_len();
            lemma_ascii_utf8_len(digit@);
        }
        self.textbox.append_slice(ctx, digit);
        proof {
            let p = old(self).textbox.view() + digit@;
            assert forall|i: int| 0 <= i < p.len() implies is_digit(#[trigger] p[i]) by {
                if i >= old(self).textbox.view().len() {
                    assert(p[i] == digit@[0]);
                }
            }
        }
    }

    fn delete_last_digit(&mut self, ctx: &mut EventCtx)
        requires
            old(self).wf(),
        ensures
            old(self).spec_pin().len() > 0 ==> final(self).textbox.view() == old(self).textbox.view().drop_last(),
            old(self).spec_pin().len() == 0 ==> final(self).textbox.view() == old(self).textbox.view(),
            final(self).textbox.view().len() <= MAX_PIN_LENGTH,
            forall|i: int| 0 <= i < final(self).textbox.view().len() ==> is_digit(#[trigger] final(self).textbox.view()[i]),
            final(self).choice_page == old(self).choice_page,
            final(self).prompt == old(self).prompt,
            final(self).show_real_pin == old(self).show_real_pin,
            final(self).pin_line == old(self).pin_line,
            final(self).show_subprompt == old(self).show_subprompt,
            final(ctx).now == old(ctx).now,
    {
        self.textbox.delete_last(ctx);
    }

    /// Refreshes the header and asks for a repaint.
    fn update(&mut self, ctx: &mut EventCtx)
        requires
            old(self).textbox.view().len() <= MAX_PIN_LENGTH,
            forall|i: int| 0 <= i < old(self).textbox.view().len() ==> is_digit(#[trigger] old(self).textbox.view()[i]),
            utf8_len(old(self).prompt@) <= MAX_TEXT_LENGTH,
        ensures
            final(self).pin_line.view() == header_text(old(self).textbox.view(), old(self).prompt@, old(self).show_real_pin),
            final(self).show_subprompt == (old(self).textbox.view().len() == 0),
            final(self).choice_page == old(self).choice_page,
            final(self).textbox == old(self).textbox,
            final(self).prompt == old(self).prompt,
            final(self).show_real_pin == old(self).show_real_pin,
            final(ctx).paint_requested,
            final(ctx).now == old(ctx).now,
    {
        self.update_header_info();
        ctx.request_paint();
    }

    /// Shows the prompt and sub-prompt while the PIN is empty, and otherwise
    /// the PIN, in digits or masked, without the sub-prompt.
    fn update_header_info(&mut self)
        requires
            old(self).textbox.view().len() <= MAX_PIN_LENGTH,
            forall|i: int| 0 <= i < old(self).textbox.view().len() ==> is_digit(#[trigger] old(self).textbox.view()[i]),
            utf8_len(old(self).prompt@) <= MAX_TEXT_LENGTH,
        ensures
            final(self).pin_line.view() == header_text(old(self).textbox.view(), old(self).prompt@, old(self).show_real_pin),
            final(self).show_subprompt == (old(self).textbox.view().len() == 0),
            final(self).choice_page == old(self).choice_page,
            final(self).textbox == old(self).textbox,
            final(self).prompt == old(self).prompt,
            final(self).show_real_pin == old(self).show_real_pin,
    {
        let show_prompts = self.is_empty();
        let ghost p = self.textbox.view();
        proof {
            assert forall|i: int| 0 <= i < p.len() implies is_ascii_char(#[trigger] p[i]) by {
                assert(is_digit(p[i]));
            }
            lemma_ascii_utf8_len(p);
        }
        let text = if show_prompts {
            TextLine::from_str(self.prompt)
        } else if self.show_real_pin {
            TextLine::from_str(self.pin())
        } else {
            proof {
                reveal_strlit("*");
            }
            let masked = TextLine::repeated("*", self.textbox.len());
            proof {
                assert(masked.view() =~= Seq::new(p.len(), |_i: int| '*'));
            }
            masked
        };
        self.pin_line = text;
        self.show_subprompt = show_prompts;
    }

    /// The PIN entered so far.
    pub fn pin(&self) -> (r: &str)
        ensures
            r@ == self.spec_pin(),
    {
        self.textbox.content()
    }

    /// The header line as shown.
    pub fn header(&self) -> (r: &str)
        ensures
            r@ == self.spec_header(),
    {
        self.pin_line.as_str()
    }

    /// Whether the sub-prompt is shown under the header.
    pub fn shows_subprompt(&self) -> (r: bool)
        ensures
            r == self.spec_shows_subprompt(),
    {
        self.show_subprompt
    }

    /// The index of the choice shown.
    pub fn page_index(&self) -> (r: u8)
        ensures
            r as nat == self.spec_page_index(),
    {
        self.choice_page.page_index()
    }

    fn is_full(&self) -> (r: bool)
        requires
            self.wf(),
        ensures
            r == (self.spec_pin().len() >= MAX_PIN_LENGTH),
    {
        proof {
            self.lemma_pin_len();
        }
        self.textbox.is_full()
    }

    fn is_empty(&self) -> (r: bool)
        ensures
            r == (self.textbox.view().len() == 0),
    {
        self.textbox.is_empty()
    }

    /// Handles one event at `ctx.now`. A PIN shown in digits is masked again
    /// first. Then the choice page handles the event, and a selection acts:
    /// delete removes the last digit, show reveals the PIN until the next
    /// event, enter confirms, and a digit is appended while there is room,
    /// after which the page moves to `random_digit_index`, a digit chosen
    /// at random by the caller.
    pub fn event(&mut self, ctx: &mut EventCtx, event: Event, random_digit_index: u8) -> (r: Option<PinEntryMsg>)
        requires
            old(self).wf(),
            NUMBER_START_INDEX <= random_digit_index < CHOICE_LENGTH,
        ensures
            final(self).wf(),
            ({
                let (bv, out) = old(self).buttons_view().step(event, old(ctx).now);
                let (index, msg) = navigate(old(self).spec_page_index(), CHOICE_LENGTH as nat, true, out);
                let selected = selection(msg);
                &&& final(self).spec_pin() == pin_after(old(self).spec_pin(), selected)
                &&& final(self).spec_show_real_pin() == (selected == Some(SHOW_INDEX))
                &&& r is Some <==> selected == Some(ENTER_INDEX)
                &&& r is Some ==> r == Some(PinEntryMsg::Confirmed)
                &&& final(self).spec_page_index() == if appends_digit(old(self).spec_pin(), selected) {
                    random_digit_index as nat
                } else {
                    index
                }
                &&& final(self).buttons_view() == if appends_digit(old(self).spec_pin(), selected) {
                    bv.with_layout(pin_choice(random_digit_index as int).btn_layout)
                } else if moves(old(self).spec_page_index(), CHOICE_LENGTH as nat, true, out) {
                    bv.with_layout(pin_choice(index as int).btn_layout)
                } else {
                    bv
                }
            }),
            final(self).spec_prompt() == old(self).spec_prompt(),
            final(self).spec_header() == header_text(final(self).spec_pin(), final(self).spec_prompt()@, final(self).spec_show_real_pin()),
            final(ctx).now == old(ctx).now,
    {
        // Any event hides a PIN that is shown in digits.
        if self.show_real_pin {
            self.show_real_pin = false;
            self.update(ctx);
        }
        proof {
            self.choice_page.lemma_wf();
        }
        let msg = self.choice_page.event(ctx, event);
        if let Some(ChoicePageMsg::Choice(page_counter)) = msg {
            if page_counter == DELETE_INDEX {
                self.delete_last_digit(ctx);
                self.update(ctx);
            } else if page_counter == SHOW_INDEX {
                self.show_real_pin = true;
                self.update(ctx);
            } else if page_counter == ENTER_INDEX {
                return Some(PinEntryMsg::Confirmed);
            } else if !self.is_full() {
                self.append_new_digit(ctx, page_counter);
                self.choice_page.set_page_counter(ctx, random_digit_index);
                self.update(ctx);
            }
        }
        None
    }
}

} // verus!
