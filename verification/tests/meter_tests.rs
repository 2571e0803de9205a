use sparkles::layout_stereo_meters;
use sparkles::Glyph;
use sparkles::Meter;
use sparkles::Tty;

fn block_bytes(copies: usize) -> Vec<u8> {
    "\u{2588}".as_bytes().repeat(copies)
}

#[test]
fn test_update_grows_by_exact_rows() {
    let mut meter = Meter { x: 5, y: 10, width: 2, height: 0 };
    let cmds = meter.update(3);
    // Exactly the three newly exposed rows, just above the baseline.
    assert_eq!(cmds.len(), 3);
    assert_eq!(meter.height, 3);
    for (i, cmd) in cmds.iter().enumerate() {
        assert_eq!(cmd.x, 5);
        assert_eq!(cmd.width, 2);
        assert_eq!(cmd.glyph, Glyph::Full);
        assert_eq!(cmd.row, 7 + i as u16);
    }
}

#[test]
fn test_update_shrinks_topmost_rows_only() {
    let mut meter = Meter { x: 5, y: 10, width: 2, height: 3 };
    let cmds = meter.update(1);
    // Exactly the two topmost rows of the old bar are blanked.
    assert_eq!(cmds.len(), 2);
    assert_eq!(meter.height, 1);
    assert_eq!(cmds[0].row, 7);
    assert_eq!(cmds[1].row, 8);
    for cmd in &cmds {
        assert_eq!(cmd.glyph, Glyph::Blank);
    }
}

#[test]
fn test_update_is_idempotent() {
    let mut meter = Meter { x: 1, y: 24, width: 4, height: 0 };
    let first = meter.update(7);
    assert_eq!(first.len(), 7);
    // The same height again: not a single write.
    let second = meter.update(7);
    assert_eq!(second.len(), 0);

    let mut tty = Tty::init();
    meter.update_and_draw(7, &mut tty);
    assert!(tty.out.is_empty());
}

#[test]
fn test_update_diff_size_is_height_delta() {
    let mut meter = Meter { x: 3, y: 40, width: 1, height: 0 };
    let heights: [u16; 6] = [5, 17, 4, 4, 39, 0];
    for &h in heights.iter() {
        let before = meter.height;
        let cmds = meter.update(h);
        let delta = if h >= before { h - before } else { before - h };
        // Never more than the height delta, never the full bar.
        assert_eq!(cmds.len(), delta as usize);
        assert_eq!(meter.height, h);
    }
}

#[test]
fn test_update_clamps_at_top_row() {
    // A bar as tall as the screen cannot write above row one.
    let mut meter = Meter { x: 2, y: 5, width: 1, height: 0 };
    let cmds = meter.update(5);
    assert_eq!(cmds.len(), 4);
    assert_eq!(cmds[0].row, 1);
    assert_eq!(cmds[3].row, 4);
    assert_eq!(meter.height, 5);
}

#[test]
fn test_update_and_draw_encodes_exact_bytes() {
    let mut meter = Meter { x: 5, y: 10, width: 2, height: 0 };
    let mut tty = Tty::init();
    meter.update_and_draw(2, &mut tty);

    let mut expected: Vec<u8> = Vec::new();
    expected.extend_from_slice(b"\x1b[8;5H");
    expected.extend_from_slice(&block_bytes(2));
    expected.extend_from_slice(b"\x1b[9;5H");
    expected.extend_from_slice(&block_bytes(2));
    assert_eq!(tty.out, expected);

    // Shrinking back blanks exactly the topmost row with spaces.
    tty.out.clear();
    meter.update_and_draw(1, &mut tty);
    assert_eq!(tty.out, b"\x1b[8;5H  ".to_vec());
}

#[test]
fn test_clear_encodes_exact_bytes() {
    let mut tty = Tty::init();
    assert!(tty.out.is_empty());
    tty.clear();
    assert_eq!(tty.out, b"\x1b[2J\x1b[1;1H\x1b[?25l".to_vec());
}

#[test]
fn test_draw_full_bar_bytes() {
    let mut tty = Tty::init();
    let meter = Meter { x: 12, y: 4, width: 3, height: 2 };
    tty.draw(meter);

    let mut expected: Vec<u8> = Vec::new();
    expected.extend_from_slice(b"\x1b[2;12H");
    expected.extend_from_slice(&block_bytes(3));
    expected.extend_from_slice(b"\x1b[3;12H");
    expected.extend_from_slice(&block_bytes(3));
    assert_eq!(tty.out, expected);
}

#[test]
fn test_layout_keeps_meters_disjoint() {
    let (left, right) = layout_stereo_meters(80, 24, 10, 5).unwrap();
    assert_eq!(left.x, 28);
    assert_eq!(right.x, 42);
    assert_eq!(left.width, 10);
    assert_eq!(right.width, 10);
    assert_eq!(left.y, 24);
    assert_eq!(right.y, 24);
    assert_eq!(left.height, 0);
    assert_eq!(right.height, 0);
    // The column ranges do not overlap and stay on the screen.
    assert!(left.x + left.width <= right.x);
    assert!(right.x + right.width <= 80);
}

#[test]
fn test_layout_disjoint_for_many_widths() {
    // From the minimum width upward the two column ranges never overlap.
    let width: u16 = 10;
    let spacing: u16 = 5;
    let min_cols: u16 = 2 * width + spacing + 2;
    for cols in min_cols..(min_cols + 200) {
        let (left, right) = layout_stereo_meters(cols, 24, width, spacing).unwrap();
        assert!(left.x + left.width <= right.x);
        assert!(right.x + right.width <= cols);
        assert!(left.x >= 1);
    }
}

#[test]
fn test_layout_rejects_narrow_terminal() {
    // One column short of the minimum: no layout.
    assert!(layout_stereo_meters(26, 24, 10, 5).is_none());
    assert!(layout_stereo_meters(27, 24, 10, 5).is_some());
}
