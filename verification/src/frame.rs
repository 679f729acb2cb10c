//! The per-redraw accumulation surface widgets submit cells into.
//!
//! A frame is opened by the session for one draw callback, bound to the
//! terminal's dimensions at that moment, and discarded after the commit.
//! Out-of-bounds policy: a cell submitted outside the frame's rectangle is
//! clipped silently — one misbehaving widget must not blank the whole
//! screen — and this is part of the public contract of [`Frame::write`]
//! and [`Frame::write_str`].

use vstd::prelude::*;

use crate::cell::{Area, Pixel};
use crate::color::Color;

verus! {

/// A frame's bounding rectangle: columns `[left, right)` by rows
/// `[top, bottom)`.
#[derive(Clone, Copy, Debug, PartialEq, Eq, Structural)]
pub struct Rect {
    pub top: u16,
    pub left: u16,
    pub bottom: u16,
    pub right: u16,
}

/// Whether a cell at `(x, y)` lies inside the rectangle.
pub open spec fn pixel_kept(r: Rect, x: int, y: int) -> bool {
    r.left <= x < r.right && r.top <= y < r.bottom
}

/// The cells a straight run of text contributes once clipped to the
/// rectangle: one cell per character at consecutive columns from `x` in
/// row `y`, keeping exactly those that lie inside.
pub open spec fn clipped_text(
    s: Seq<char>,
    x: int,
    y: int,
    fg: Color,
    bg: Color,
    r: Rect,
) -> Seq<Pixel>
    decreases s.len(),
{
    if s.len() == 0 {
        Seq::empty()
    } else {
        let i = s.len() - 1;
        let rest = clipped_text(s.drop_last(), x, y, fg, bg, r);
        if pixel_kept(r, x + i, y) {
            rest.push(Pixel { char: s.last(), x: (x + i) as u16, y: y as u16, fg, bg })
        } else {
            rest
        }
    }
}

/// One step of text clipping: extending the text by its character at
/// index `i` appends that character's cell exactly when it lies inside.
proof fn lemma_clipped_text_step(t: Seq<char>, x: int, y: int, fg: Color, bg: Color, r: Rect, i: int)
    requires
        0 <= i,
        i + 1 <= t.len(),
    ensures
        clipped_text(t.take(i + 1), x, y, fg, bg, r) == if pixel_kept(r, x + i, y) {
            clipped_text(t.take(i), x, y, fg, bg, r).push(
                Pixel { char: t[i], x: (x + i) as u16, y: y as u16, fg, bg },
            )
        } else {
            clipped_text(t.take(i), x, y, fg, bg, r)
        },
{
    let a = t.take(i + 1);
    assert(a.drop_last() =~= t.take(i));
    assert(a.last() == t[i]);
    assert(clipped_text(a, x, y, fg, bg, r) == if pixel_kept(r, x + i, y) {
        clipped_text(t.take(i), x, y, fg, bg, r).push(
            Pixel { char: t[i], x: (x + i) as u16, y: y as u16, fg, bg },
        )
    } else {
        clipped_text(t.take(i), x, y, fg, bg, r)
    });
}

/// Text whose row lies outside the rectangle, or whose starting column
/// is already past the right edge, contributes nothing.
pub proof fn lemma_clipped_text_out(s: Seq<char>, x: int, y: int, fg: Color, bg: Color, r: Rect)
    requires
        x >= r.right || y < r.top || y >= r.bottom,
    ensures
        clipped_text(s, x, y, fg, bg, r) == Seq::<Pixel>::empty(),
    decreases s.len(),
{
    if s.len() > 0 {
        lemma_clipped_text_out(s.drop_last(), x, y, fg, bg, r);
    }
}

/// The bounded, per-redraw surface: a rectangle fixed at frame-open time
/// and the cells submitted so far, in submission order.
pub struct Frame {
    buffer: Vec<Pixel>,
    top: u16,
    left: u16,
    bottom: u16,
    right: u16,
}

impl View for Frame {
    type V = Seq<Pixel>;

    /// A frame's view is its submission buffer.
    closed spec fn view(&self) -> Seq<Pixel> {
        self.buffer@
    }
}

impl Frame {
    pub closed spec fn rect(self) -> Rect {
        Rect { top: self.top, left: self.left, bottom: self.bottom, right: self.right }
    }

    /// The frame's bounding rectangle.
    pub fn bounds(&self) -> (r: Rect)
        ensures
            r == self.rect(),
    {
        Rect { top: self.top, left: self.left, bottom: self.bottom, right: self.right }
    }

    /// An empty frame spanning `width` columns by `height` rows.
    pub fn new(width: u16, height: u16) -> (f: Frame)
        ensures
            f@ == Seq::<Pixel>::empty(),
            f.rect() == (Rect { top: 0, left: 0, bottom: height, right: width }),
    {
        Frame { buffer: Vec::new(), top: 0, left: 0, bottom: height, right: width }
    }

    /// The cells submitted so far, in submission order.
    pub fn cells(&self) -> (r: &Vec<Pixel>)
        ensures
            r@ == self@,
    {
        &self.buffer
    }

    /// Appends a cell to the frame's buffer in submission order; a cell
    /// outside the frame's rectangle is clipped silently. No
    /// deduplication and no device output happen here.
    pub fn write(&mut self, p: Pixel)
        ensures
            final(self)@ == if pixel_kept(old(self).rect(), p.x as int, p.y as int) {
                old(self)@.push(p)
            } else {
                old(self)@
            },
            final(self).rect() == old(self).rect(),
    {
        if p.x >= self.left && p.x < self.right && p.y >= self.top && p.y < self.bottom {
            self.buffer.push(p);
        }
    }

    /// Expands a string into one cell per character at consecutive
    /// columns starting at `x`, all in row `y` and one style; performs no
    /// line wrapping, and clips silently what falls outside the frame.
    pub fn write_str(&mut self, s: &str, x: u16, y: u16, fg: Color, bg: Color)
        ensures
            final(self)@ == old(self)@ + clipped_text(
                s@,
                x as int,
                y as int,
                fg,
                bg,
                old(self).rect(),
            ),
            final(self).rect() == old(self).rect(),
    {
        let ghost start = self@;
        let ghost r = self.rect();
        let len = s.unicode_len();
        let mut i: usize = 0;
        while i < len
            invariant
                len == s@.len(),
                i <= len,
                self@ == start + clipped_text(s@.take(i as int), x as int, y as int, fg, bg, r),
                self.rect() == r,
            decreases len - i,
        {
            proof {
                lemma_clipped_text_step(s@, x as int, y as int, fg, bg, r, i as int);
            }
            let c = s.get_char(i);
            let xi = x as u128 + i as u128;
            if xi >= self.left as u128 && xi < self.right as u128 && y >= self.top && y
                < self.bottom {
                self.write(Pixel { char: c, x: xi as u16, y, fg, bg });
            }
            proof {
                assert(self@ =~= start + clipped_text(
                    s@.take(i + 1),
                    x as int,
                    y as int,
                    fg,
                    bg,
                    r,
                ));
            }
            i += 1;
        }
        proof {
            assert(s@.take(len as int) =~= s@);
        }
    }

    /// Hands the whole frame to a widget, with the frame's own rectangle
    /// as the area to lay out in.
    pub fn render_widget<W: Drawable>(&mut self, widget: &W) {
        let area = Area {
            x: self.left,
            y: self.top,
            width: if self.right >= self.left {
                self.right - self.left
            } else {
                0
            },
            height: if self.bottom >= self.top {
                self.bottom - self.top
            } else {
                0
            },
        };
        widget.render(self, area);
    }
}

/// Something that can lay itself out as cells of a frame. Drawing within
/// the given area is the implementer's responsibility: the frame clips to
/// its own rectangle, not to the area.
pub trait Drawable {
    fn render(&self, frame: &mut Frame, area: Area);
}

} // verus!
