//! The stateful terminal meter and its incremental redraw.
//!
//! A `Meter` owns the geometry of one vertical bar and the height it last
//! drew; `update` computes exactly the row writes that take the picture from
//! the old height to a new one, touching no unchanged row. A `Tty` is the
//! owned output sink the writes are encoded into; handing its bytes to a real
//! terminal is the embedding binary's part.

use vstd::prelude::*;

verus! {

use crate::term::clear_seq;
use crate::term::cmds_seq;
use crate::term::push_clear;
use crate::term::push_cmds;
use crate::term::DrawCmd;
use crate::term::Glyph;

/// A drawable vertical meter.
#[derive(Clone, Copy, Debug, PartialEq, Eq, Structural)]
pub struct Meter {
    /// Leftmost column of the meter, one-based.
    pub x: u16,
    /// Baseline row of the meter, one-based; the bar grows upward from it.
    pub y: u16,
    /// Horizontal extent of the meter in columns.
    pub width: u16,
    /// Height in rows of the bar as currently drawn.
    pub height: u16,
}

/// The topmost terminal row covered by a bar of `h` rows over baseline `y`:
/// the bar covers rows `y - h` through `y - 1`, clamped at the top of the
/// screen so that no write leaves it.
pub open spec fn bar_top(y: int, h: int) -> int {
    if y - h < 1 {
        1
    } else {
        y - h
    }
}

/// The row writes that fill rows `row_start` through `row_end - 1` with
/// `glyph`, top to bottom.
pub open spec fn row_interval(
    x: u16,
    width: u16,
    glyph: Glyph,
    row_start: int,
    row_end: int,
) -> Seq<DrawCmd> {
    Seq::new(
        if row_end - row_start >= 0 {
            (row_end - row_start) as nat
        } else {
            0
        },
        |i: int| DrawCmd { x, row: (row_start + i) as u16, width, glyph },
    )
}

/// The meter as it stands after an update to `new_height`.
pub open spec fn updated(m: Meter, new_height: u16) -> Meter {
    Meter { height: new_height, ..m }
}

/// The row writes of an update from `m` to `new_height`: newly covered rows
/// are filled, newly uncovered rows are blanked, and no other row is
/// touched. An unchanged height writes nothing.
pub open spec fn update_cmds(m: Meter, new_height: u16) -> Seq<DrawCmd> {
    let top_old = bar_top(m.y as int, m.height as int);
    let top_new = bar_top(m.y as int, new_height as int);
    if new_height > m.height {
        row_interval(m.x, m.width, Glyph::Full, top_new, top_old)
    } else {
        row_interval(m.x, m.width, Glyph::Blank, top_old, top_new)
    }
}

/// The row writes of a full redraw of `m`: every covered row, filled.
pub open spec fn draw_cmds(m: Meter) -> Seq<DrawCmd> {
    row_interval(m.x, m.width, Glyph::Full, bar_top(m.y as int, m.height as int), m.y as int)
}

/// The row writes that fill rows `row_start` through `row_end - 1`.
fn interval_cmds(x: u16, width: u16, glyph: Glyph, row_start: u16, row_end: u16) -> (cmds: Vec<
    DrawCmd,
>)
    ensures
        cmds@ == row_interval(x, width, glyph, row_start as int, row_end as int),
{
    let mut cmds: Vec<DrawCmd> = Vec::new();
    let mut row: u16 = row_start;
    while row < row_end
        invariant
            row_start <= row,
            row_start <= row_end ==> row <= row_end,
            row_end < row_start ==> row == row_start,
            cmds@ == row_interval(x, width, glyph, row_start as int, row as int),
        decreases row_end - row,
    {
        cmds.push(DrawCmd { x, row, width, glyph });
        proof {
            assert(cmds@ =~= row_interval(x, width, glyph, row_start as int, row + 1));
        }
        row = row + 1;
    }
    proof {
        assert(cmds@ =~= row_interval(x, width, glyph, row_start as int, row_end as int));
    }
    cmds
}

impl Meter {
    /// A meter whose geometry stays on the screen: positions are one-based.
    pub open spec fn wf(self) -> bool {
        1 <= self.x && 1 <= self.y
    }

    /// Compute the incremental redraw that takes the bar from its current
    /// height to `new_height`, and record the new height. Growing writes
    /// exactly the newly exposed rows; shrinking blanks exactly the rows no
    /// longer covered; an unchanged height writes nothing.
    pub fn update(&mut self, new_height: u16) -> (cmds: Vec<DrawCmd>)
        requires
            old(self).wf(),
        ensures
            *final(self) == updated(*old(self), new_height),
            cmds@ == update_cmds(*old(self), new_height),
    {
        let y: u16 = self.y;
        let top_old: u16 = if self.height >= y {
            1
        } else {
            y - self.height
        };
        let top_new: u16 = if new_height >= y {
            1
        } else {
            y - new_height
        };
        let cmds: Vec<DrawCmd> = if new_height > self.height {
            interval_cmds(self.x, self.width, Glyph::Full, top_new, top_old)
        } else {
            interval_cmds(self.x, self.width, Glyph::Blank, top_old, top_new)
        };
        self.height = new_height;
        cmds
    }

    /// Update the bar to `new_height` and encode the redraw into `tty`.
    pub fn update_and_draw(&mut self, new_height: u16, tty: &mut Tty)
        requires
            old(self).wf(),
        ensures
            *final(self) == updated(*old(self), new_height),
            final(tty).out@ == old(tty).out@ + cmds_seq(update_cmds(*old(self), new_height)),
    {
        let cmds: Vec<DrawCmd> = self.update(new_height);
        tty.write_cmds(&cmds);
    }
}

/// The owned terminal output sink: bytes are appended here and flushed to
/// the real terminal once per frame by the embedding binary.
pub struct Tty {
    /// Bytes encoded and not yet handed to the terminal.
    pub out: Vec<u8>,
}

impl Tty {
    /// A sink with no pending bytes. Raw-mode and alternate-screen setup
    /// happen where the real terminal is owned, outside this library.
    pub fn init() -> (t: Tty)
        ensures
            t.out@ == Seq::<u8>::empty(),
    {
        Tty { out: Vec::new() }
    }

    /// Append the escape sequence that clears the screen, moves the cursor
    /// to the home position, and hides it.
    pub fn clear(&mut self)
        ensures
            final(self).out@ == old(self).out@ + clear_seq(),
    {
        push_clear(&mut self.out);
    }

    /// Append a batch of row writes, in order.
    pub fn write_cmds(&mut self, cmds: &Vec<DrawCmd>)
        ensures
            final(self).out@ == old(self).out@ + cmds_seq(cmds@),
    {
        push_cmds(&mut self.out, cmds);
    }

    /// Append a full redraw of `meter`: every covered row, filled.
    pub fn draw(&mut self, meter: Meter)
        requires
            meter.wf(),
        ensures
            final(self).out@ == old(self).out@ + cmds_seq(draw_cmds(meter)),
    {
        let top: u16 = if meter.height >= meter.y {
            1
        } else {
            meter.y - meter.height
        };
        let cmds: Vec<DrawCmd> = interval_cmds(meter.x, meter.width, Glyph::Full, top, meter.y);
        push_cmds(&mut self.out, &cmds);
    }
}

/// Lay out the two meters of a stereo display side by side around the
/// horizontal center of the terminal, the left channel's meter first. The
/// two column ranges never overlap and both stay on the screen. `None`
/// comes exactly when the terminal is too narrow: it must hold the two
/// meters and their spacing, plus one column of slack for centering —
/// twice the meter width, plus the spacing, plus two columns.
pub fn layout_stereo_meters(
    term_cols: u16,
    term_rows: u16,
    meter_width: u16,
    meter_spacing: u16,
) -> (r: Option<(Meter, Meter)>)
    requires
        1 <= term_rows,
    ensures
        match r {
            Some(meters) => {
                &&& term_cols >= 2 * meter_width + meter_spacing + 2
                &&& meters.0.wf() && meters.1.wf()
                &&& meters.0.x == term_cols / 2 - (meter_width + meter_spacing / 2)
                &&& meters.1.x == term_cols / 2 + meter_spacing / 2
                &&& meters.0.y == term_rows && meters.1.y == term_rows
                &&& meters.0.width == meter_width && meters.1.width == meter_width
                &&& meters.0.height == 0 && meters.1.height == 0
                &&& meters.0.x + meters.0.width <= meters.1.x
                &&& meters.1.x + meters.1.width <= term_cols
            },
            None => term_cols < 2 * meter_width + meter_spacing + 2,
        },
{
    let wide_need: u32 = 2 * (meter_width as u32) + (meter_spacing as u32) + 2;
    if (term_cols as u32) < wide_need {
        return None;
    }
    proof {
        let c = term_cols as int;
        let w = meter_width as int;
        let s = meter_spacing as int;
        vstd::arithmetic::div_mod::lemma_fundamental_div_mod(s, 2);
        vstd::arithmetic::div_mod::lemma_fundamental_div_mod(c, 2);
        assert(2 * w + s + 2 == 2 * (w + 1 + s / 2) + s % 2);
        vstd::arithmetic::div_mod::lemma_div_multiples_vanish_fancy(w + 1 + s / 2, s % 2, 2);
        assert((2 * w + s + 2) / 2 == w + 1 + s / 2);
        vstd::arithmetic::div_mod::lemma_div_is_ordered(2 * w + s + 2, c, 2);
        assert(c / 2 >= w + 1 + s / 2);
        assert(c - c / 2 >= c / 2);
    }
    let cx: u16 = term_cols / 2;
    let half: u16 = meter_spacing / 2;
    let left = Meter { x: cx - (meter_width + half), y: term_rows, width: meter_width, height: 0 };
    let right = Meter { x: cx + half, y: term_rows, width: meter_width, height: 0 };
    Some((left, right))
}

/// Updating twice in a row with one height writes nothing the second time:
/// after an update to `h`, another update to `h` produces no row write and
/// appends no byte.
pub proof fn lemma_update_idempotent(m: Meter, h: u16)
    ensures
        update_cmds(updated(m, h), h).len() == 0,
        cmds_seq(update_cmds(updated(m, h), h)) == Seq::<u8>::empty(),
{
}

/// An update from height `a` to height `b` writes one row per changed row:
/// never more than `|b - a|` rows, and exactly `|b - a|` whenever both bars
/// leave the top screen row free.
pub proof fn lemma_update_write_count(m: Meter, b: u16)
    requires
        m.wf(),
    ensures
        update_cmds(m, b).len() <= if b >= m.height {
            b - m.height
        } else {
            m.height - b
        },
        m.height < m.y && b < m.y ==> update_cmds(m, b).len() == if b >= m.height {
            b - m.height
        } else {
            m.height - b
        },
{
}

} // verus!
