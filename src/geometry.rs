use vstd::prelude::*;

verus! {

/// An axis-aligned screen area, `x0..x1` by `y0..y1`.
#[derive(Copy, Clone, Debug, PartialEq, Eq, Structural)]
pub struct Rect {
    pub x0: i16,
    pub y0: i16,
    pub x1: i16,
    pub y1: i16,
}

/// `w` limited to `0..=max`.
pub open spec fn clamp_width(w: int, max: int) -> int {
    if w < 0 {
        0
    } else if w > max {
        max
    } else {
        w
    }
}

impl Rect {
    pub open spec fn wf(self) -> bool {
        self.x0 <= self.x1 && self.y0 <= self.y1
    }

    pub open spec fn spec_width(self) -> int {
        self.x1 - self.x0
    }

    pub open spec fn with_x(self, x0: int, x1: int) -> Rect {
        Rect { x0: x0 as i16, y0: self.y0, x1: x1 as i16, y1: self.y1 }
    }

    /// The left part `width` wide (at most the whole area), and the rest.
    pub open spec fn spec_split_left(self, width: int) -> (Rect, Rect) {
        let x = self.x0 + clamp_width(width, self.spec_width());
        (self.with_x(self.x0 as int, x), self.with_x(x, self.x1 as int))
    }

    /// The rest, and the right part `width` wide (at most the whole area).
    pub open spec fn spec_split_right(self, width: int) -> (Rect, Rect) {
        let x = self.x1 - clamp_width(width, self.spec_width());
        (self.with_x(self.x0 as int, x), self.with_x(x, self.x1 as int))
    }

    /// A centred part `width` wide (at most the whole area), with what is left
    /// of it and what is right of it.
    pub open spec fn spec_split_center(self, width: int) -> (Rect, Rect, Rect) {
        let w = clamp_width(width, self.spec_width());
        let left = self.x0 + (self.spec_width() - w) / 2;
        (
            self.with_x(self.x0 as int, left),
            self.with_x(left, left + w),
            self.with_x(left + w, self.x1 as int),
        )
    }

    /// The area above the bottom strip `height` high (at most the whole
    /// area), and that strip.
    pub open spec fn spec_split_bottom(self, height: int) -> (Rect, Rect) {
        let y = self.y1 - clamp_width(height, self.y1 - self.y0);
        (
            Rect { x0: self.x0, y0: self.y0, x1: self.x1, y1: y as i16 },
            Rect { x0: self.x0, y0: y as i16, x1: self.x1, y1: self.y1 },
        )
    }

    pub fn split_bottom(self, height: i16) -> (r: (Rect, Rect))
        requires
            self.wf(),
        ensures
            r == self.spec_split_bottom(height as int),
            r.0.wf(),
            r.1.wf(),
    {
        let y = (self.y1 as i32 - Self::clamped(height, self.y1 as i32 - self.y0 as i32)) as i16;
        (Rect { y1: y, ..self }, Rect { y0: y, ..self })
    }

    pub fn zero() -> (r: Rect)
        ensures
            r == (Rect { x0: 0, y0: 0, x1: 0, y1: 0 }),
            r.wf(),
    {
        Rect { x0: 0, y0: 0, x1: 0, y1: 0 }
    }

    pub fn new(x0: i16, y0: i16, x1: i16, y1: i16) -> (r: Rect)
        ensures
            r == (Rect { x0, y0, x1, y1 }),
    {
        Rect { x0, y0, x1, y1 }
    }

    pub fn width(&self) -> (r: i32)
        ensures
            r == self.spec_width(),
    {
        self.x1 as i32 - self.x0 as i32
    }

    fn clamped(width: i16, max: i32) -> (r: i32)
        requires
            0 <= max,
        ensures
            r == clamp_width(width as int, max as int),
    {
        if width < 0 {
            0
        } else if width as i32 > max {
            max
        } else {
            width as i32
        }
    }

    pub fn split_left(self, width: i16) -> (r: (Rect, Rect))
        requires
            self.wf(),
        ensures
            r == self.spec_split_left(width as int),
            r.0.wf(),
            r.1.wf(),
    {
        let x = (self.x0 as i32 + Self::clamped(width, self.width())) as i16;
        (Rect { x1: x, ..self }, Rect { x0: x, ..self })
    }

    pub fn split_right(self, width: i16) -> (r: (Rect, Rect))
        requires
            self.wf(),
        ensures
            r == self.spec_split_right(width as int),
            r.0.wf(),
            r.1.wf(),
    {
        let x = (self.x1 as i32 - Self::clamped(width, self.width())) as i16;
        (Rect { x1: x, ..self }, Rect { x0: x, ..self })
    }

    pub fn split_center(self, width: i16) -> (r: (Rect, Rect, Rect))
        requires
            self.wf(),
        ensures
            r == self.spec_split_center(width as int),
            r.0.wf(),
            r.1.wf(),
            r.2.wf(),
    {
        let w = Self::clamped(width, self.width());
        let left = self.x0 as i32 + (self.width() - w) / 2;
        let right = left + w;
        (
            Rect { x1: left as i16, ..self },
            Rect { x0: left as i16, x1: right as i16, ..self },
            Rect { x0: right as i16, ..self },
        )
    }
}

} // verus!
