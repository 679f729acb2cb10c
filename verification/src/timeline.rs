//! The timeline widgets: laying fetched statuses out as cells of a
//! frame.
//!
//! A status takes three rows: the author's handle (truncated to the
//! area's width), the content (likewise), and a buttons row showing the
//! reply, reblog and favourite counters behind their symbols, separated
//! by even spacing. A timeline shows one status every four rows, with a
//! dashed rule under each. Widgets lay out against the area they are
//! given; clipping happens at the frame's own rectangle.

use vstd::prelude::*;

use crate::cell::{Area, Pixel};
use crate::color::Color;
use crate::digits::{dec_spec, decimal_string};
use crate::frame::{clipped_text, lemma_clipped_text_out, Frame, Rect};
use crate::tweet::Tweet;

verus! {

/// `n` spaces.
pub open spec fn spaces(n: nat) -> Seq<char>
    decreases n,
{
    if n == 0 {
        Seq::empty()
    } else {
        spaces((n - 1) as nat).push(' ')
    }
}

/// `n` dashes.
pub open spec fn dashes(n: nat) -> Seq<char>
    decreases n,
{
    if n == 0 {
        Seq::empty()
    } else {
        dashes((n - 1) as nat).push('-')
    }
}

/// The handle row: the account's handle, cut to `width - 3` characters
/// when it does not fit the area (meaningful for widths of at least 6).
pub open spec fn acct_line(t: Tweet, width: nat) -> Seq<char> {
    if t.account.acct@.len() > width {
        t.account.acct@.take(width - 3)
    } else {
        t.account.acct@
    }
}

/// The content row: the status text, cut to the area's width.
pub open spec fn content_line(t: Tweet, width: nat) -> Seq<char> {
    if t.content@.len() > width {
        t.content@.take(width as int)
    } else {
        t.content@
    }
}

/// The reply counter behind its symbol.
pub open spec fn replies_chars(t: Tweet) -> Seq<char> {
    seq!['\u{21b5}'] + dec_spec(t.replies_count as nat)
}

/// The reblog counter behind its symbol.
pub open spec fn reblogs_chars(t: Tweet) -> Seq<char> {
    seq!['\u{21ba}'] + dec_spec(t.reblogs_count as nat)
}

/// The favourite counter behind a filled or hollow star.
pub open spec fn favs_chars(t: Tweet) -> Seq<char> {
    seq![
        if t.favourited {
            '\u{2605}'
        } else {
            '\u{2606}'
        },
    ] + dec_spec(t.favourites_count as nat)
}

/// The reblog counter is shown green once the status was reblogged.
pub open spec fn reblog_color(t: Tweet) -> Color {
    if t.reblogged {
        Color::Green
    } else {
        Color::Reset
    }
}

/// The favourite counter is shown yellow once the status was
/// favourited.
pub open spec fn fav_color(t: Tweet) -> Color {
    if t.favourited {
        Color::Yellow
    } else {
        Color::Reset
    }
}

/// The even spacing put before each counter on the buttons row.
pub open spec fn spacing(width: nat) -> nat {
    if width >= 6 {
        ((width - 6) as nat) / 5
    } else {
        0
    }
}

/// Every cell one status contributes, laid out at `(x, y)` across
/// `width` columns and clipped to `r`: the handle row, the content row,
/// and the buttons row of three spaced, colored counters.
pub open spec fn tweet_cells(t: Tweet, x: int, y: int, width: nat, r: Rect) -> Seq<Pixel> {
    let sp = spacing(width);
    let p1 = x + sp;
    let p2 = p1 + replies_chars(t).len();
    let p3 = p2 + sp;
    let p4 = p3 + reblogs_chars(t).len();
    let p5 = p4 + sp;
    clipped_text(acct_line(t, width), x, y, Color::Reset, Color::Reset, r) + clipped_text(
        content_line(t, width),
        x,
        y + 1,
        Color::Reset,
        Color::Reset,
        r,
    ) + clipped_text(spaces(sp), x, y + 2, Color::Reset, Color::Reset, r) + clipped_text(
        replies_chars(t),
        p1,
        y + 2,
        Color::Reset,
        Color::Reset,
        r,
    ) + clipped_text(spaces(sp), p2, y + 2, Color::Reset, Color::Reset, r) + clipped_text(
        reblogs_chars(t),
        p3,
        y + 2,
        reblog_color(t),
        Color::Reset,
        r,
    ) + clipped_text(spaces(sp), p4, y + 2, Color::Reset, Color::Reset, r) + clipped_text(
        favs_chars(t),
        p5,
        y + 2,
        fav_color(t),
        Color::Reset,
        r,
    )
}

/// Writes text at a position that may lie beyond the addressable grid:
/// what cannot be addressed is wholly outside the frame and clips away.
fn write_seg(frame: &mut Frame, s: &str, x: u128, y: u128, fg: Color, bg: Color)
    ensures
        final(frame)@ == old(frame)@ + clipped_text(
            s@,
            x as int,
            y as int,
            fg,
            bg,
            old(frame).rect(),
        ),
        final(frame).rect() == old(frame).rect(),
{
    if x <= 0xFFFF && y <= 0xFFFF {
        frame.write_str(s, x as u16, y as u16, fg, bg);
    } else {
        proof {
            lemma_clipped_text_out(s@, x as int, y as int, fg, bg, frame.rect());
            assert(frame@ =~= frame@ + clipped_text(
                s@,
                x as int,
                y as int,
                fg,
                bg,
                frame.rect(),
            ));
        }
    }
}

/// A string of `n` spaces.
fn space_string(n: u16) -> (s: String)
    ensures
        s@ == spaces(n as nat),
{
    let mut s = String::new();
    let mut k: u16 = 0;
    while k < n
        invariant
            k <= n,
            s@ == spaces(k as nat),
        decreases n - k,
    {
        s.append(" ");
        proof {
            reveal_strlit(" ");
            assert(s@ =~= spaces(k as nat + 1));
        }
        k += 1;
    }
    s
}

/// A string of `n` dashes.
fn dash_string(n: u16) -> (s: String)
    ensures
        s@ == dashes(n as nat),
{
    let mut s = String::new();
    let mut k: u16 = 0;
    while k < n
        invariant
            k <= n,
            s@ == dashes(k as nat),
        decreases n - k,
    {
        s.append("-");
        proof {
            reveal_strlit("-");
            assert(s@ =~= dashes(k as nat + 1));
        }
        k += 1;
    }
    s
}

/// One status, laid out over three rows.
pub struct TimelineTweetWidget<'a> {
    pub tweet: &'a Tweet,
}

impl<'a> TimelineTweetWidget<'a> {
    pub fn from(value: &'a Tweet) -> (r: TimelineTweetWidget<'a>)
        ensures
            r.tweet == value,
    {
        TimelineTweetWidget { tweet: value }
    }

    /// Lays the status out at the area's top-left corner: handle,
    /// content, buttons row. The area must be at least 6 columns wide —
    /// narrower than that, the buttons row has no room at all.
    pub fn render(&self, frame: &mut Frame, area: Area)
        requires
            area.width >= 6,
        ensures
            final(frame)@ == old(frame)@ + tweet_cells(
                *self.tweet,
                area.x as int,
                area.y as int,
                area.width as nat,
                old(frame).rect(),
            ),
            final(frame).rect() == old(frame).rect(),
    {
        let t = self.tweet;
        let ghost r = frame.rect();
        let ghost w = area.width as nat;
        let x0: u128 = area.x as u128;
        let row0: u128 = area.y as u128;

        let alen = t.account.acct.as_str().unicode_len();
        if alen > area.width as usize {
            let shown = t.account.acct.as_str().substring_char(0, (area.width - 3) as usize);
            write_seg(frame, shown, x0, row0, Color::Reset, Color::Reset);
            proof {
                assert(shown@ =~= acct_line(*t, w));
            }
        } else {
            write_seg(frame, t.account.acct.as_str(), x0, row0, Color::Reset, Color::Reset);
        }

        let clen = t.content.as_str().unicode_len();
        if clen > area.width as usize {
            let shown = t.content.as_str().substring_char(0, area.width as usize);
            write_seg(frame, shown, x0, row0 + 1, Color::Reset, Color::Reset);
            proof {
                assert(shown@ =~= content_line(*t, w));
            }
        } else {
            write_seg(frame, t.content.as_str(), x0, row0 + 1, Color::Reset, Color::Reset);
        }

        let sp_n: u16 = (area.width - 6) / 5;
        let sp_s = space_string(sp_n);
        let mut rep = String::from_str("\u{21b5}");
        rep.append(decimal_string(t.replies_count).as_str());
        let mut reb = String::from_str("\u{21ba}");
        reb.append(decimal_string(t.reblogs_count).as_str());
        let mut fav = if t.favourited {
            String::from_str("\u{2605}")
        } else {
            String::from_str("\u{2606}")
        };
        fav.append(decimal_string(t.favourites_count).as_str());
        proof {
            reveal_strlit("\u{21b5}");
            reveal_strlit("\u{21ba}");
            reveal_strlit("\u{2605}");
            reveal_strlit("\u{2606}");
            assert(rep@ =~= replies_chars(*t));
            assert(reb@ =~= reblogs_chars(*t));
            assert(fav@ =~= favs_chars(*t));
            assert(sp_n as nat == spacing(w));
        }

        let row2 = row0 + 2;
        write_seg(frame, sp_s.as_str(), x0, row2, Color::Reset, Color::Reset);
        let p1 = x0 + sp_n as u128;
        write_seg(frame, rep.as_str(), p1, row2, Color::Reset, Color::Reset);
        let p2 = p1 + rep.as_str().unicode_len() as u128;
        write_seg(frame, sp_s.as_str(), p2, row2, Color::Reset, Color::Reset);
        let p3 = p2 + sp_n as u128;
        let reb_color = if t.reblogged {
            Color::Green
        } else {
            Color::Reset
        };
        write_seg(frame, reb.as_str(), p3, row2, reb_color, Color::Reset);
        let p4 = p3 + reb.as_str().unicode_len() as u128;
        write_seg(frame, sp_s.as_str(), p4, row2, Color::Reset, Color::Reset);
        let p5 = p4 + sp_n as u128;
        let fav_col = if t.favourited {
            Color::Yellow
        } else {
            Color::Reset
        };
        write_seg(frame, fav.as_str(), p5, row2, fav_col, Color::Reset);
        proof {
            assert(frame@ =~= old(frame)@ + tweet_cells(
                *self.tweet,
                area.x as int,
                area.y as int,
                w,
                r,
            ));
        }
    }
}

/// A status rendered wholly below the frame's bottom edge contributes
/// nothing.
pub proof fn lemma_tweet_cells_out(t: Tweet, x: int, y: int, width: nat, r: Rect)
    requires
        y >= r.bottom,
    ensures
        tweet_cells(t, x, y, width, r) == Seq::<Pixel>::empty(),
{
    let sp = spacing(width);
    let p1 = x + sp;
    let p2 = p1 + replies_chars(t).len();
    let p3 = p2 + sp;
    let p4 = p3 + reblogs_chars(t).len();
    let p5 = p4 + sp;
    lemma_clipped_text_out(acct_line(t, width), x, y, Color::Reset, Color::Reset, r);
    lemma_clipped_text_out(content_line(t, width), x, y + 1, Color::Reset, Color::Reset, r);
    lemma_clipped_text_out(spaces(sp), x, y + 2, Color::Reset, Color::Reset, r);
    lemma_clipped_text_out(replies_chars(t), p1, y + 2, Color::Reset, Color::Reset, r);
    lemma_clipped_text_out(spaces(sp), p2, y + 2, Color::Reset, Color::Reset, r);
    lemma_clipped_text_out(reblogs_chars(t), p3, y + 2, reblog_color(t), Color::Reset, r);
    lemma_clipped_text_out(spaces(sp), p4, y + 2, Color::Reset, Color::Reset, r);
    lemma_clipped_text_out(favs_chars(t), p5, y + 2, fav_color(t), Color::Reset, r);
    assert(tweet_cells(t, x, y, width, r) =~= Seq::<Pixel>::empty());
}

/// How many statuses the timeline view shows: one per four rows of the
/// area, and no more than remain from the cursor on.
pub open spec fn visible_count(len: nat, i: nat, height: nat) -> nat {
    let per = height / 4;
    if i >= len {
        0
    } else if len - i < per {
        (len - i) as nat
    } else {
        per
    }
}

/// The cells the first `k` shown statuses contribute: each at its
/// four-row offset, with a dashed rule on the fourth row.
pub open spec fn timeline_cells(
    ts: Seq<&Tweet>,
    i: int,
    x: int,
    y: int,
    width: nat,
    r: Rect,
    k: nat,
) -> Seq<Pixel>
    decreases k,
{
    if k == 0 {
        Seq::empty()
    } else {
        let j = (k - 1) as nat;
        timeline_cells(ts, i, x, y, width, r, j) + tweet_cells(*ts[i + j], x, y + 4 * j, width, r)
            + clipped_text(dashes(width), x, y + 4 * j + 3, Color::Reset, Color::Reset, r)
    }
}

/// A scrollable list of statuses, one per four rows.
pub struct TimelineWidget<'a> {
    pub tweets: Vec<&'a Tweet>,
    /// The cursor: the index of the first status shown.
    pub i: usize,
}

impl<'a> TimelineWidget<'a> {
    pub fn new(i: usize, tweets: Vec<&'a Tweet>) -> (r: TimelineWidget<'a>)
        ensures
            r.tweets == tweets,
            r.i == i,
    {
        TimelineWidget { tweets, i }
    }

    /// Lays out the statuses from the cursor on, one per four rows of
    /// the area, each followed by a dashed rule across the area's
    /// width.
    #[verifier::loop_isolation(false)]
    pub fn render(&self, frame: &mut Frame, area: Area)
        requires
            area.width >= 6,
        ensures
            final(frame)@ == old(frame)@ + timeline_cells(
                self.tweets@,
                self.i as int,
                area.x as int,
                area.y as int,
                area.width as nat,
                old(frame).rect(),
                visible_count(self.tweets@.len(), self.i as nat, area.height as nat),
            ),
            final(frame).rect() == old(frame).rect(),
    {
        let ghost r = frame.rect();
        let per = area.height / 4;
        let count: usize = if self.i >= self.tweets.len() {
            0
        } else if self.tweets.len() - self.i < per as usize {
            self.tweets.len() - self.i
        } else {
            per as usize
        };
        proof {
            assert(count as nat == visible_count(
                self.tweets@.len(),
                self.i as nat,
                area.height as nat,
            ));
        }
        let dash_s = dash_string(area.width);
        let mut k: usize = 0;
        while k < count
            invariant
                k <= count,
                frame@ == old(frame)@ + timeline_cells(
                    self.tweets@,
                    self.i as int,
                    area.x as int,
                    area.y as int,
                    area.width as nat,
                    r,
                    k as nat,
                ),
                frame.rect() == r,
            decreases count - k,
        {
            let t: &Tweet = self.tweets[self.i + k];
            let base: u128 = area.y as u128 + 4 * (k as u128);
            if base <= 0xFFFF {
                let sub = Area { x: area.x, y: base as u16, width: area.width, height: 3 };
                TimelineTweetWidget::from(t).render(frame, sub);
            } else {
                proof {
                    lemma_tweet_cells_out(
                        *self.tweets@[self.i + k],
                        area.x as int,
                        base as int,
                        area.width as nat,
                        r,
                    );
                }
            }
            write_seg(frame, dash_s.as_str(), area.x as u128, base + 3, Color::Reset, Color::Reset);
            proof {
                assert(frame@ =~= old(frame)@ + timeline_cells(
                    self.tweets@,
                    self.i as int,
                    area.x as int,
                    area.y as int,
                    area.width as nat,
                    r,
                    k as nat + 1,
                ));
            }
            k += 1;
        }
    }
}

} // verus!
