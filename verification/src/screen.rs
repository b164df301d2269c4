//! Screen rendering: the control sequences and placeholder rows that make
//! up one full redraw, as bytes ready to be written to the terminal.

use vstd::prelude::*;

verus! {

/// The escape character that opens every control sequence.
pub const ESCAPE: u8 = 0x1b;

/// The character drawn at the start of each placeholder row (`~`).
pub const ROW_PLACEHOLDER: u8 = 0x7e;

/// Carriage return.
pub const CARRIAGE_RETURN: u8 = 0x0d;

/// Line feed.
pub const LINE_FEED: u8 = 0x0a;

/// Number of rows drawn per frame.
pub const SCREEN_ROWS: usize = 24;

/// A control sequence: the escape character, then the command bytes.
pub open spec fn escape_spec(command: Seq<u8>) -> Seq<u8> {
    seq![0x1bu8] + command
}

/// `ESC [ 2 J`: erase the entire screen.
pub open spec fn erase_spec() -> Seq<u8> {
    seq![0x1bu8, 0x5bu8, 0x32u8, 0x4au8]
}

/// `ESC [ H`: move the cursor to row 1, column 1.
pub open spec fn home_spec() -> Seq<u8> {
    seq![0x1bu8, 0x5bu8, 0x48u8]
}

/// What clearing the screen emits: erase, then home.
pub open spec fn clear_spec() -> Seq<u8> {
    erase_spec() + home_spec()
}

/// One placeholder row: `~`, carriage return, line feed.
pub open spec fn row_spec() -> Seq<u8> {
    seq![0x7eu8, 0x0du8, 0x0au8]
}

/// `n` placeholder rows, top to bottom.
pub open spec fn rows_spec(n: nat) -> Seq<u8>
    decreases n,
{
    if n == 0 {
        Seq::<u8>::empty()
    } else {
        rows_spec((n - 1) as nat) + row_spec()
    }
}

/// One full frame of `n` rows: clear, draw the rows, home the cursor.
pub open spec fn frame_spec(n: nat) -> Seq<u8> {
    clear_spec() + rows_spec(n) + home_spec()
}

/// Builds the control sequence for `command`: the escape character
/// followed by the command bytes, unchanged and in order.
pub fn escape_sequence(command: &[u8]) -> (bytes: Vec<u8>)
    ensures
        bytes@ == escape_spec(command@),
{
    let mut bytes: Vec<u8> = Vec::new();
    bytes.push(ESCAPE);
    let mut i: usize = 0;
    while i < command.len()
        invariant
            i <= command.len(),
            bytes@ == seq![0x1bu8] + command@.subrange(0, i as int),
        decreases command.len() - i,
    {
        bytes.push(command[i]);
        i += 1;
        assert(bytes@ =~= seq![0x1bu8] + command@.subrange(0, i as int));
    }
    assert(command@.subrange(0, i as int) =~= command@);
    bytes
}

/// Appends `tail` to `bytes`.
fn append(bytes: &mut Vec<u8>, tail: &Vec<u8>)
    ensures
        final(bytes)@ == old(bytes)@ + tail@,
{
    let mut i: usize = 0;
    while i < tail.len()
        invariant
            i <= tail.len(),
            bytes@ == old(bytes)@ + tail@.subrange(0, i as int),
        decreases tail.len() - i,
    {
        bytes.push(tail[i]);
        i += 1;
        assert(bytes@ =~= old(bytes)@ + tail@.subrange(0, i as int));
    }
    assert(tail@.subrange(0, i as int) =~= tail@);
}

/// The bytes that move the cursor to the home position.
pub fn cursor_home() -> (bytes: Vec<u8>)
    ensures
        bytes@ == home_spec(),
{
    let command: [u8; 2] = [0x5b, 0x48];
    let bytes = escape_sequence(command.as_slice());
    assert(bytes@ =~= home_spec());
    bytes
}

/// The bytes that clear the visible screen and then move the cursor to
/// the home position.
pub fn clear_screen() -> (bytes: Vec<u8>)
    ensures
        bytes@ == clear_spec(),
        bytes@ == erase_spec() + home_spec(),
{
    let command: [u8; 3] = [0x5b, 0x32, 0x4a];
    let mut bytes = escape_sequence(command.as_slice());
    assert(bytes@ =~= erase_spec());
    let home = cursor_home();
    append(&mut bytes, &home);
    bytes
}

/// The bytes of `n` placeholder rows, each a placeholder character
/// followed by carriage return and line feed, and nothing after them.
pub fn draw_rows(n: usize) -> (bytes: Vec<u8>)
    ensures
        bytes@ == rows_spec(n as nat),
{
    let mut bytes: Vec<u8> = Vec::new();
    let mut i: usize = 0;
    assert(bytes@ =~= rows_spec(0));
    while i < n
        invariant
            i <= n,
            bytes@ == rows_spec(i as nat),
        decreases n - i,
    {
        bytes.push(ROW_PLACEHOLDER);
        bytes.push(CARRIAGE_RETURN);
        bytes.push(LINE_FEED);
        i += 1;
        assert(bytes@ =~= rows_spec((i - 1) as nat) + row_spec());
    }
    bytes
}

/// The bytes of one full redraw with `n` rows: the screen is cleared, the
/// rows are drawn, and the cursor is homed last.
pub fn render_frame(n: usize) -> (bytes: Vec<u8>)
    ensures
        bytes@ == frame_spec(n as nat),
        bytes@ == clear_spec() + rows_spec(n as nat) + home_spec(),
{
    let mut bytes = clear_screen();
    let rows = draw_rows(n);
    append(&mut bytes, &rows);
    let home = cursor_home();
    append(&mut bytes, &home);
    bytes
}

/// `n` rows take three bytes each.
pub proof fn lemma_rows_len(n: nat)
    ensures
        rows_spec(n).len() == 3 * n,
    decreases n,
{
    if n > 0 {
        lemma_rows_len((n - 1) as nat);
    }
}

/// Row `k` of `n` drawn rows is exactly one placeholder character followed
/// by carriage return and line feed; together with the length, this says
/// that exactly `n` such rows are drawn and nothing else.
pub proof fn lemma_rows_content(n: nat, k: nat)
    requires
        k < n,
    ensures
        rows_spec(n).len() == 3 * n,
        rows_spec(n)[(3 * k) as int] == 0x7eu8,
        rows_spec(n)[(3 * k + 1) as int] == 0x0du8,
        rows_spec(n)[(3 * k + 2) as int] == 0x0au8,
        rows_spec(n).subrange((3 * k) as int, (3 * k + 3) as int) == row_spec(),
    decreases n,
{
    lemma_rows_len(n);
    lemma_rows_len((n - 1) as nat);
    if k < n - 1 {
        lemma_rows_content((n - 1) as nat, k);
    }
    assert(rows_spec(n).subrange((3 * k) as int, (3 * k + 3) as int) =~= row_spec());
}

/// In a frame of `n` rows the clear sequence comes first, before any row
/// content; the rows follow it directly; and the home sequence stands
/// strictly after the last row's line terminator, ending the frame.
pub proof fn lemma_frame_order(n: nat)
    ensures
        frame_spec(n).len() == 7 + 3 * n + 3,
        frame_spec(n).subrange(0, 7) == clear_spec(),
        frame_spec(n).subrange(0, 4) == erase_spec(),
        frame_spec(n).subrange(7, (7 + 3 * n) as int) == rows_spec(n),
        frame_spec(n).subrange((7 + 3 * n) as int, (7 + 3 * n + 3) as int) == home_spec(),
        n > 0 ==> frame_spec(n)[(7 + 3 * n - 1) as int] == 0x0au8,
{
    lemma_rows_len(n);
    assert(frame_spec(n).subrange(0, 7) =~= clear_spec());
    assert(frame_spec(n).subrange(0, 4) =~= erase_spec());
    assert(frame_spec(n).subrange(7, (7 + 3 * n) as int) =~= rows_spec(n));
    assert(frame_spec(n).subrange((7 + 3 * n) as int, (7 + 3 * n + 3) as int) =~= home_spec());
    if n > 0 {
        lemma_rows_content(n, (n - 1) as nat);
    }
}

} // verus!
