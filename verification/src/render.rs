//! The renderer: grid coordinates and colors to terminal escape bytes.
//!
//! Everything here is pure formatting: each function returns the exact byte
//! stream to hand to the output path. A game cell renders as two terminal
//! columns, and the play field sits inside a one-cell border, so a cell at
//! grid position `pos` lands at terminal row `pos / 16 + 2` and column
//! `(pos % 16) * 2 + 3`.

use vstd::prelude::*;

use crate::digits::{dec_digits, int_to_string};

verus! {

/// The control sequence introducer `ESC [`.
pub open spec fn csi() -> Seq<u8> {
    seq![27u8, 91u8]
}

/// `ESC [ 0 m`: reset all text style.
pub open spec fn sgr_reset() -> Seq<u8> {
    seq![27u8, 91u8, 48u8, 109u8]
}

/// `ESC [ row ; col H`: place the cursor.
pub open spec fn move_cursor_bytes(row: u32, col: u32) -> Seq<u8> {
    csi() + dec_digits(row as nat) + seq![59u8] + dec_digits(col as nat) + seq![72u8]
}

/// The terminal row of grid position `pos`.
pub open spec fn tile_row(pos: u8) -> u32 {
    (pos / 16 + 2) as u32
}

/// The terminal column of grid position `pos`.
pub open spec fn tile_col(pos: u8) -> u32 {
    ((pos % 16) * 2 + 3) as u32
}

/// Clearing a tile: place the cursor on it, reset the style, two spaces.
pub open spec fn clear_tile_bytes(pos: u8) -> Seq<u8> {
    move_cursor_bytes(tile_row(pos), tile_col(pos)) + sgr_reset() + seq![32u8, 32u8]
}

/// Drawing a tile: place the cursor, select background color `40 + color`,
/// two spaces, reset the style.
pub open spec fn draw_tile_bytes(color: u8, pos: u8) -> Seq<u8> {
    move_cursor_bytes(tile_row(pos), tile_col(pos)) + csi() + dec_digits((40 + color) as nat)
        + seq![109u8] + seq![32u8, 32u8] + sgr_reset()
}

/// `k` copies of `s`, concatenated.
pub open spec fn repeat_bytes(s: Seq<u8>, k: nat) -> Seq<u8>
    decreases k,
{
    if k == 0 {
        Seq::empty()
    } else {
        repeat_bytes(s, (k - 1) as nat) + s
    }
}

/// `ESC [ 4 2 m` and two spaces: a green-background cell left open.
pub open spec fn green_open() -> Seq<u8> {
    seq![27u8, 91u8, 52u8, 50u8, 109u8, 32u8, 32u8]
}

/// One green border cell, style reset afterwards.
pub open spec fn green_cell() -> Seq<u8> {
    green_open() + sgr_reset()
}

/// One empty play-field cell: two spaces.
pub open spec fn blank_cell() -> Seq<u8> {
    seq![32u8, 32u8]
}

/// The border's top line: a green run across the whole width.
pub open spec fn border_top() -> Seq<u8> {
    green_open() + repeat_bytes(blank_cell(), 16) + blank_cell() + sgr_reset() + seq![10u8]
}

/// One middle line: a green cell, the open play row, a green cell.
pub open spec fn border_middle_row() -> Seq<u8> {
    green_cell() + repeat_bytes(blank_cell(), 16) + green_cell() + seq![10u8]
}

/// The border's bottom line: green cells across the whole width.
pub open spec fn border_bottom() -> Seq<u8> {
    green_cell() + repeat_bytes(green_cell(), 16) + green_cell() + seq![10u8]
}

/// The whole border: home the cursor, the top line, the 16 middle lines,
/// the bottom line.
pub open spec fn border_bytes() -> Seq<u8> {
    move_cursor_bytes(1, 1) + border_top() + repeat_bytes(border_middle_row(), 16)
        + border_bottom()
}

/// `ESC [ ? 2 5 l`, `ESC [ ? 1 0 4 9 h`, `ESC [ 2 J`, `ESC [ H`: hide the
/// cursor, enter the alternate screen, clear it, home the cursor.
pub open spec fn setup_screen_bytes() -> Seq<u8> {
    csi() + seq![63u8, 50u8, 53u8, 108u8] + csi() + seq![63u8, 49u8, 48u8, 52u8, 57u8, 104u8]
        + csi() + seq![50u8, 74u8] + csi() + seq![72u8]
}

/// `ESC [ ? 2 5 h`, `ESC [ ? 1 0 4 9 l`, `ESC [ 2 J`, `ESC [ H`: show the
/// cursor, leave the alternate screen, clear, home — the exact undoing of
/// the setup sequence.
pub open spec fn restore_screen_bytes() -> Seq<u8> {
    csi() + seq![63u8, 50u8, 53u8, 104u8] + csi() + seq![63u8, 49u8, 48u8, 52u8, 57u8, 108u8]
        + csi() + seq![50u8, 74u8] + csi() + seq![72u8]
}

/// The farewell line printed on a win.
pub open spec fn win_message() -> Seq<u8> {
    seq![121u8, 111u8, 117u8, 32u8, 119u8, 111u8, 110u8, 33u8, 10u8]
}

/// How the program is to end: bytes that restore the screen, a message for
/// after the terminal is back in its original mode, and the exit status.
pub struct ExitPlan {
    /// Escape bytes to write before the terminal mode is restored.
    pub screen: Vec<u8>,
    /// Plain text to write after the terminal mode is restored.
    pub message: Vec<u8>,
    /// The process exit status.
    pub status: i32,
}

/// Emit `ESC [ row ; col H`.
pub fn move_cursor(row: u32, col: u32) -> (r: Vec<u8>)
    ensures
        r@ == move_cursor_bytes(row, col),
{
    let mut r: Vec<u8> = Vec::new();
    r.push(27);
    r.push(91);
    let mut y = int_to_string(row);
    r.append(&mut y);
    r.push(59);
    let mut x = int_to_string(col);
    r.append(&mut x);
    r.push(72);
    proof {
        assert(r@ =~= move_cursor_bytes(row, col));
    }
    r
}

/// Emit the bytes that clear the tile at grid position `pos`.
pub fn clear_tile(pos: u8) -> (r: Vec<u8>)
    ensures
        r@ == clear_tile_bytes(pos),
{
    let mut r = move_cursor((pos / 16 + 2) as u32, ((pos % 16) as u32) * 2 + 3);
    r.push(27);
    r.push(91);
    r.push(48);
    r.push(109);
    r.push(32);
    r.push(32);
    proof {
        assert(r@ =~= clear_tile_bytes(pos));
    }
    r
}

/// Emit the bytes that paint the tile at grid position `pos` in background
/// color `40 + color`.
pub fn draw_tile(color: u8, pos: u8) -> (r: Vec<u8>)
    ensures
        r@ == draw_tile_bytes(color, pos),
{
    let mut r = move_cursor((pos / 16 + 2) as u32, ((pos % 16) as u32) * 2 + 3);
    r.push(27);
    r.push(91);
    let mut c = int_to_string(40u32 + color as u32);
    r.append(&mut c);
    r.push(109);
    r.push(32);
    r.push(32);
    r.push(27);
    r.push(91);
    r.push(48);
    r.push(109);
    proof {
        assert(r@ =~= draw_tile_bytes(color, pos));
    }
    r
}

/// Emit `ESC [ 40+color m`: select a background color.
pub fn set_background(color: u8) -> (r: Vec<u8>)
    ensures
        r@ == csi() + dec_digits((40 + color) as nat) + seq![109u8],
{
    let mut r: Vec<u8> = Vec::new();
    r.push(27);
    r.push(91);
    let mut c = int_to_string(40u32 + color as u32);
    r.append(&mut c);
    r.push(109);
    proof {
        assert(r@ =~= csi() + dec_digits((40 + color) as nat) + seq![109u8]);
    }
    r
}

/// Emit `ESC [ 0 m`: reset all text style.
pub fn reset_style() -> (r: Vec<u8>)
    ensures
        r@ == sgr_reset(),
{
    let mut r: Vec<u8> = Vec::new();
    r.push(27);
    r.push(91);
    r.push(48);
    r.push(109);
    proof {
        assert(r@ =~= sgr_reset());
    }
    r
}

/// Append one green border cell, style reset afterwards.
fn push_green_cell(out: &mut Vec<u8>)
    ensures
        final(out)@ == old(out)@ + green_cell(),
{
    out.push(27);
    out.push(91);
    out.push(52);
    out.push(50);
    out.push(109);
    out.push(32);
    out.push(32);
    out.push(27);
    out.push(91);
    out.push(48);
    out.push(109);
    proof {
        assert(out@ =~= old(out)@ + green_cell());
    }
}

/// Append one full play-field width of empty cells.
fn push_blank_run(out: &mut Vec<u8>)
    ensures
        final(out)@ == old(out)@ + repeat_bytes(blank_cell(), 16),
{
    proof {
        assert(out@ =~= old(out)@ + repeat_bytes(blank_cell(), 0));
    }
    let mut k: usize = 0;
    while k < 16
        invariant
            k <= 16,
            out@ == old(out)@ + repeat_bytes(blank_cell(), k as nat),
        decreases 16 - k,
    {
        out.push(32);
        out.push(32);
        proof {
            assert(repeat_bytes(blank_cell(), (k + 1) as nat) == repeat_bytes(
                blank_cell(),
                k as nat,
            ) + blank_cell());
            assert(out@ =~= old(out)@ + repeat_bytes(blank_cell(), (k + 1) as nat));
        }
        k += 1;
    }
}

/// Append one full play-field width of green border cells.
fn push_green_run(out: &mut Vec<u8>)
    ensures
        final(out)@ == old(out)@ + repeat_bytes(green_cell(), 16),
{
    proof {
        assert(out@ =~= old(out)@ + repeat_bytes(green_cell(), 0));
    }
    let mut k: usize = 0;
    while k < 16
        invariant
            k <= 16,
            out@ == old(out)@ + repeat_bytes(green_cell(), k as nat),
        decreases 16 - k,
    {
        push_green_cell(out);
        proof {
            assert(repeat_bytes(green_cell(), (k + 1) as nat) == repeat_bytes(
                green_cell(),
                k as nat,
            ) + green_cell());
            assert(out@ =~= old(out)@ + repeat_bytes(green_cell(), (k + 1) as nat));
        }
        k += 1;
    }
}

/// Emit the full perimeter of the play field, drawn exactly once at
/// startup: top line, 16 middle lines, bottom line.
pub fn draw_border() -> (r: Vec<u8>)
    ensures
        r@ == border_bytes(),
{
    let mut r = move_cursor(1, 1);

    // Top line.
    r.push(27);
    r.push(91);
    r.push(52);
    r.push(50);
    r.push(109);
    r.push(32);
    r.push(32);
    push_blank_run(&mut r);
    r.push(32);
    r.push(32);
    r.push(27);
    r.push(91);
    r.push(48);
    r.push(109);
    r.push(10);
    proof {
        assert(r@ =~= move_cursor_bytes(1, 1) + border_top() + repeat_bytes(
            border_middle_row(),
            0,
        ));
    }

    // Middle lines.
    let mut row: usize = 0;
    while row < 16
        invariant
            row <= 16,
            r@ == move_cursor_bytes(1, 1) + border_top() + repeat_bytes(
                border_middle_row(),
                row as nat,
            ),
        decreases 16 - row,
    {
        let ghost pre = r@;
        push_green_cell(&mut r);
        push_blank_run(&mut r);
        push_green_cell(&mut r);
        r.push(10);
        proof {
            assert(r@ =~= pre + border_middle_row());
            assert(repeat_bytes(border_middle_row(), (row + 1) as nat) == repeat_bytes(
                border_middle_row(),
                row as nat,
            ) + border_middle_row());
            assert(r@ =~= move_cursor_bytes(1, 1) + border_top() + repeat_bytes(
                border_middle_row(),
                (row + 1) as nat,
            ));
        }
        row += 1;
    }

    // Bottom line.
    push_green_cell(&mut r);
    push_green_run(&mut r);
    push_green_cell(&mut r);
    r.push(10);
    proof {
        assert(r@ =~= border_bytes());
    }
    r
}

/// Emit the startup sequence: hide the cursor, enter the alternate screen,
/// clear it, home the cursor.
pub fn setup_screen() -> (r: Vec<u8>)
    ensures
        r@ == setup_screen_bytes(),
{
    let mut r: Vec<u8> = Vec::new();
    r.push(27);
    r.push(91);
    r.push(63);
    r.push(50);
    r.push(53);
    r.push(108);
    r.push(27);
    r.push(91);
    r.push(63);
    r.push(49);
    r.push(48);
    r.push(52);
    r.push(57);
    r.push(104);
    r.push(27);
    r.push(91);
    r.push(50);
    r.push(74);
    r.push(27);
    r.push(91);
    r.push(72);
    proof {
        assert(r@ =~= setup_screen_bytes());
    }
    r
}

/// Emit the teardown sequence: show the cursor, leave the alternate screen,
/// clear, home.
fn restore_screen() -> (r: Vec<u8>)
    ensures
        r@ == restore_screen_bytes(),
{
    let mut r: Vec<u8> = Vec::new();
    r.push(27);
    r.push(91);
    r.push(63);
    r.push(50);
    r.push(53);
    r.push(104);
    r.push(27);
    r.push(91);
    r.push(63);
    r.push(49);
    r.push(48);
    r.push(52);
    r.push(57);
    r.push(108);
    r.push(27);
    r.push(91);
    r.push(50);
    r.push(74);
    r.push(27);
    r.push(91);
    r.push(72);
    proof {
        assert(r@ =~= restore_screen_bytes());
    }
    r
}

/// The normal way out (wall hit, self-collision, or interrupt): restore the
/// screen, say nothing more, exit with status 0.
pub fn quit() -> (r: ExitPlan)
    ensures
        r.screen@ == restore_screen_bytes(),
        r.message@ == Seq::<u8>::empty(),
        r.status == 0,
{
    let plan = ExitPlan { screen: restore_screen(), message: Vec::new(), status: 0 };
    proof {
        assert(plan.message@ =~= Seq::<u8>::empty());
    }
    plan
}

/// The winning way out: restore the screen, announce the win, exit with
/// status 0.
pub fn win() -> (r: ExitPlan)
    ensures
        r.screen@ == restore_screen_bytes(),
        r.message@ == win_message(),
        r.status == 0,
{
    let mut m: Vec<u8> = Vec::new();
    m.push(121);
    m.push(111);
    m.push(117);
    m.push(32);
    m.push(119);
    m.push(111);
    m.push(110);
    m.push(33);
    m.push(10);
    proof {
        assert(m@ =~= win_message());
    }
    ExitPlan { screen: restore_screen(), message: m, status: 0 }
}

} // verus!
