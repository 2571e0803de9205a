//! Byte-level encoding of terminal writes.
//!
//! A row write is a cursor-positioning escape sequence followed by a run of
//! one glyph. The encoder appends bytes to an owned buffer; nothing here
//! touches a real terminal.

use vstd::prelude::*;

verus! {

/// The glyph drawn across one row of a meter.
#[derive(Clone, Copy, Debug, PartialEq, Eq, Structural)]
pub enum Glyph {
    /// A full block, drawn where the bar covers the row.
    Full,
    /// A blank, drawn to uncover a row the bar no longer reaches.
    Blank,
}

/// One row write: position the cursor at column `x` of row `row`, then
/// write `width` copies of `glyph`.
#[derive(Clone, Copy, Debug, PartialEq, Eq, Structural)]
pub struct DrawCmd {
    /// Leftmost column of the write, one-based.
    pub x: u16,
    /// Terminal row of the write, one-based from the top.
    pub row: u16,
    /// Number of glyph copies written.
    pub width: u16,
    /// The glyph written.
    pub glyph: Glyph,
}

/// Decimal digit bytes of `n`, most significant first.
pub open spec fn dec_rep(n: nat) -> Seq<u8>
    decreases n,
{
    if n < 10 {
        seq![(48 + n) as u8]
    } else {
        dec_rep(n / 10).push((48 + n % 10) as u8)
    }
}

/// The escape sequence that moves the cursor to column `x` of row `row`.
pub open spec fn goto_seq(x: u16, row: u16) -> Seq<u8> {
    seq![27u8, 91u8] + dec_rep(row as nat) + seq![59u8] + dec_rep(x as nat) + seq![72u8]
}

/// The encoding of one glyph.
pub open spec fn glyph_seq(g: Glyph) -> Seq<u8> {
    match g {
        Glyph::Full => seq![0xE2u8, 0x96u8, 0x88u8],
        Glyph::Blank => seq![32u8],
    }
}

/// `k` copies of `s`, back to back.
pub open spec fn repeat_seq(s: Seq<u8>, k: int) -> Seq<u8>
    decreases k,
{
    if k <= 0 {
        Seq::empty()
    } else {
        repeat_seq(s, k - 1) + s
    }
}

/// The bytes of one row write.
pub open spec fn cmd_seq(c: DrawCmd) -> Seq<u8> {
    goto_seq(c.x, c.row) + repeat_seq(glyph_seq(c.glyph), c.width as int)
}

/// The bytes of a sequence of row writes, in order.
pub open spec fn cmds_seq(cs: Seq<DrawCmd>) -> Seq<u8>
    decreases cs.len(),
{
    if cs.len() == 0 {
        Seq::empty()
    } else {
        cmds_seq(cs.drop_last()) + cmd_seq(cs.last())
    }
}

/// The bytes that clear the screen, move the cursor to the home position,
/// and hide it.
pub open spec fn clear_seq() -> Seq<u8> {
    seq![27u8, 91u8, 50u8, 74u8] + goto_seq(1, 1) + seq![27u8, 91u8, 63u8, 50u8, 53u8, 108u8]
}

/// Append the decimal digits of `n`.
pub fn push_dec(out: &mut Vec<u8>, n: u16)
    ensures
        final(out)@ == old(out)@ + dec_rep(n as nat),
    decreases n,
{
    if n >= 10 {
        push_dec(out, n / 10);
    }
    let d: u8 = (n % 10) as u8;
    out.push(48 + d);
    proof {
        assert(out@ =~= old(out)@ + dec_rep(n as nat));
    }
}

/// Append the cursor-positioning sequence for column `x` of row `row`.
pub fn push_goto(out: &mut Vec<u8>, x: u16, row: u16)
    ensures
        final(out)@ == old(out)@ + goto_seq(x, row),
{
    out.push(27);
    out.push(91);
    push_dec(out, row);
    out.push(59);
    push_dec(out, x);
    out.push(72);
    proof {
        assert(out@ =~= old(out)@ + goto_seq(x, row));
    }
}

/// Append the bytes of one row write.
pub fn push_cmd(out: &mut Vec<u8>, c: DrawCmd)
    ensures
        final(out)@ == old(out)@ + cmd_seq(c),
{
    let ghost base: Seq<u8> = out@;
    push_goto(out, c.x, c.row);
    let mut i: u16 = 0;
    while i < c.width
        invariant
            i <= c.width,
            out@ == base + goto_seq(c.x, c.row) + repeat_seq(glyph_seq(c.glyph), i as int),
        decreases c.width - i,
    {
        match c.glyph {
            Glyph::Full => {
                out.push(0xE2);
                out.push(0x96);
                out.push(0x88);
            },
            Glyph::Blank => {
                out.push(32);
            },
        }
        proof {
            assert(out@ =~= base + goto_seq(c.x, c.row) + repeat_seq(
                glyph_seq(c.glyph),
                i + 1,
            ));
        }
        i = i + 1;
    }
    proof {
        assert(out@ =~= old(out)@ + cmd_seq(c));
    }
}

/// Append the bytes of a batch of row writes, in order.
pub fn push_cmds(out: &mut Vec<u8>, cs: &Vec<DrawCmd>)
    ensures
        final(out)@ == old(out)@ + cmds_seq(cs@),
{
    let ghost base: Seq<u8> = out@;
    let mut k: usize = 0;
    while k < cs.len()
        invariant
            k <= cs@.len(),
            out@ == base + cmds_seq(cs@.take(k as int)),
        decreases cs@.len() - k,
    {
        let c: DrawCmd = cs[k];
        push_cmd(out, c);
        proof {
            assert(cs@.take(k + 1).drop_last() =~= cs@.take(k as int));
            assert(cs@.take(k + 1).last() == cs@[k as int]);
            assert(out@ =~= base + cmds_seq(cs@.take(k + 1)));
        }
        k = k + 1;
    }
    proof {
        assert(cs@.take(cs@.len() as int) =~= cs@);
    }
}

/// Append the clear-screen sequence.
pub fn push_clear(out: &mut Vec<u8>)
    ensures
        final(out)@ == old(out)@ + clear_seq(),
{
    out.push(27);
    out.push(91);
    out.push(50);
    out.push(74);
    push_goto(out, 1, 1);
    out.push(27);
    out.push(91);
    out.push(63);
    out.push(50);
    out.push(53);
    out.push(108);
    proof {
        assert(out@ =~= old(out)@ + clear_seq());
    }
}

} // verus!
