//! A fixed-capacity text buffer on `heapless::String`.
use vstd::prelude::*;

use crate::event::EventCtx;

verus! {

/// Capacity of a text buffer, in bytes of UTF-8.
pub const MAX_TEXT_LENGTH: usize = 50;

#[verifier::external_type_specification]
#[verifier::external_body]
pub struct ExHeaplessString<const N: usize>(heapless::String<N>);

/// The characters that a fixed-capacity string holds.
pub uninterp spec fn text_chars(s: heapless::String<MAX_TEXT_LENGTH>) -> Seq<char>;

/// Bytes that `c` takes in UTF-8.
pub open spec fn char_utf8_len(c: char) -> nat {
    if (c as u32) < 0x80 {
        1
    } else if (c as u32) < 0x800 {
        2
    } else if (c as u32) < 0x10000 {
        3
    } else {
        4
    }
}

/// Bytes that `s` takes in UTF-8.
pub open spec fn utf8_len(s: Seq<char>) -> nat
    decreases s.len(),
{
    if s.len() == 0 {
        0
    } else {
        utf8_len(s.drop_last()) + char_utf8_len(s.last())
    }
}

pub open spec fn is_ascii_char(c: char) -> bool {
    (c as u32) < 0x80
}

/// A string of ASCII characters takes one byte per character.
pub proof fn lemma_ascii_utf8_len(s: Seq<char>)
    requires
        forall|i: int| 0 <= i < s.len() ==> is_ascii_char(#[trigger] s[i]),
    ensures
        utf8_len(s) == s.len(),
    decreases s.len(),
{
    if s.len() > 0 {
        lemma_ascii_utf8_len(s.drop_last());
    }
}

/// UTF-8 length adds up over concatenation.
pub proof fn lemma_utf8_len_concat(a: Seq<char>, b: Seq<char>)
    ensures
        utf8_len(a + b) == utf8_len(a) + utf8_len(b),
    decreases b.len(),
{
    if b.len() > 0 {
        assert((a + b).drop_last() =~= a + b.drop_last());
        lemma_utf8_len_concat(a, b.drop_last());
    } else {
        assert(a + b =~= a);
    }
}

/// Relies on `heapless::String::new`: a new string is empty.
#[verifier::external_body]
fn string_new() -> (r: heapless::String<MAX_TEXT_LENGTH>)
    ensures
        text_chars(r) == Seq::<char>::empty(),
{
    heapless::String::new()
}

/// Relies on `heapless::String::push_str`: the text is appended when its
/// bytes fit the capacity, and otherwise the string is left as it was and
/// an error is returned.
#[verifier::external_body]
fn string_push_str(s: &mut heapless::String<MAX_TEXT_LENGTH>, t: &str) -> (r: Result<(), ()>)
    ensures
        r is Ok <==> utf8_len(text_chars(*old(s))) + utf8_len(t@) <= MAX_TEXT_LENGTH,
        r is Ok ==> text_chars(*final(s)) == text_chars(*old(s)) + t@,
        r is Err ==> text_chars(*final(s)) == text_chars(*old(s)),
{
    s.push_str(t)
}

/// Relies on `heapless::String::pop`: removes and returns the last
/// character, or returns `None` for an empty string.
#[verifier::external_body]
fn string_pop(s: &mut heapless::String<MAX_TEXT_LENGTH>) -> (r: Option<char>)
    ensures
        text_chars(*old(s)).len() == 0 ==> r is None && text_chars(*final(s)) == text_chars(*old(s)),
        text_chars(*old(s)).len() > 0 ==> r == Some(text_chars(*old(s)).last()) && text_chars(*final(s))
            == text_chars(*old(s)).drop_last(),
{
    s.pop()
}

/// Relies on `heapless::String::as_str`: the characters held.
#[verifier::external_body]
fn string_as_str(s: &heapless::String<MAX_TEXT_LENGTH>) -> (r: &str)
    ensures
        r@ == text_chars(*s),
{
    s.as_str()
}

/// Relies on `str::len` of `heapless::String`'s text: its length in bytes,
/// which the capacity bounds.
#[verifier::external_body]
fn string_len(s: &heapless::String<MAX_TEXT_LENGTH>) -> (r: usize)
    ensures
        r == utf8_len(text_chars(*s)),
        r <= MAX_TEXT_LENGTH,
{
    s.len()
}

/// A text buffer of fixed capacity, appended to and deleted from at its end.
pub struct TextBox {
    text: heapless::String<MAX_TEXT_LENGTH>,
}

impl TextBox {
    pub closed spec fn view(&self) -> Seq<char> {
        text_chars(self.text)
    }

    pub fn empty() -> (r: TextBox)
        ensures
            r.view() == Seq::<char>::empty(),
    {
        TextBox { text: string_new() }
    }

    /// The text held.
    pub fn content(&self) -> (r: &str)
        ensures
            r@ == self.view(),
    {
        string_as_str(&self.text)
    }

    /// Length of the text in bytes.
    pub fn len(&self) -> (r: usize)
        ensures
            r == utf8_len(self.view()),
            r <= MAX_TEXT_LENGTH,
    {
        string_len(&self.text)
    }

    pub fn is_empty(&self) -> (r: bool)
        ensures
            r == (self.view().len() == 0),
    {
        let n = string_len(&self.text);
        proof {
            if self.view().len() > 0 {
                let s = self.view();
                assert(s =~= s.drop_last() + seq![s.last()]);
                lemma_utf8_len_concat(s.drop_last(), seq![s.last()]);
                assert(seq![s.last()].drop_last() =~= Seq::<char>::empty());
            }
        }
        n == 0
    }

    /// Whether the text fills the whole capacity.
    pub fn is_full(&self) -> (r: bool)
        ensures
            r == (utf8_len(self.view()) == MAX_TEXT_LENGTH),
    {
        string_len(&self.text) == MAX_TEXT_LENGTH
    }

    /// Appends `slice` when it fits the capacity, asking for a repaint;
    /// otherwise nothing changes.
    pub fn append_slice(&mut self, ctx: &mut EventCtx, slice: &str)
        ensures
            utf8_len(old(self).view()) + utf8_len(slice@) <= MAX_TEXT_LENGTH ==> final(self).view()
                == old(self).view() + slice@ && final(ctx).paint_requested,
            utf8_len(old(self).view()) + utf8_len(slice@) > MAX_TEXT_LENGTH ==> final(self).view()
                == old(self).view(),
            final(ctx).now == old(ctx).now,
    {
        if string_push_str(&mut self.text, slice).is_ok() {
            ctx.request_paint();
        }
    }

    /// Deletes the last character, if any, asking for a repaint.
    pub fn delete_last(&mut self, ctx: &mut EventCtx)
        ensures
            old(self).view().len() == 0 ==> final(self).view() == old(self).view(),
            old(self).view().len() > 0 ==> final(self).view() == old(self).view().drop_last(),
            final(ctx).now == old(ctx).now,
    {
        if string_pop(&mut self.text).is_some() {
            ctx.request_paint();
        }
    }
}

/// A fixed-capacity line of text, such as a header.
pub struct TextLine {
    text: heapless::String<MAX_TEXT_LENGTH>,
}

impl TextLine {
    pub closed spec fn view(&self) -> Seq<char> {
        text_chars(self.text)
    }

    /// The line holding `text`, which must fit the capacity.
    pub fn from_str(text: &str) -> (r: TextLine)
        requires
            utf8_len(text@) <= MAX_TEXT_LENGTH,
        ensures
            r.view() == text@,
    {
        let mut s = string_new();
        let _ = string_push_str(&mut s, text);
        proof {
            assert(Seq::<char>::empty() + text@ =~= text@);
            assert(utf8_len(Seq::<char>::empty()) == 0);
        }
        TextLine { text: s }
    }

    /// The line holding `n` copies of the ASCII character `c`.
    pub fn repeated(c: &str, n: usize) -> (r: TextLine)
        requires
            c@.len() == 1,
            is_ascii_char(c@[0]),
            n <= MAX_TEXT_LENGTH,
        ensures
            r.view() == Seq::new(n as nat, |_i: int| c@[0]),
    {
        let mut s = string_new();
        let mut i: usize = 0;
        proof {
            lemma_ascii_utf8_len(c@);
        }
        while i < n
            invariant
                i <= n,
                n <= MAX_TEXT_LENGTH,
                c@.len() == 1,
                utf8_len(c@) == 1,
                text_chars(s) == Seq::new(i as nat, |_i: int| c@[0]),
            decreases n - i,
        {
            proof {
                let cur = Seq::new(i as nat, |_i: int| c@[0]);
                assert forall|k: int| 0 <= k < cur.len() implies is_ascii_char(#[trigger] cur[k]) by {}
                lemma_ascii_utf8_len(cur);
            }
            let _ = string_push_str(&mut s, c);
            proof {
                assert(Seq::new(i as nat, |_i: int| c@[0]) + c@ =~= Seq::new((i + 1) as nat, |_i: int| c@[0]));
            }
            i = i + 1;
        }
        TextLine { text: s }
    }

    pub fn as_str(&self) -> (r: &str)
        ensures
            r@ == self.view(),
    {
        string_as_str(&self.text)
    }
}

} // verus!
