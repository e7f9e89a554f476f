//! What the screen shows of an editor, computed as plain values.

use vstd::prelude::*;
use vstd::string::*;
use crate::text_editor::TextEditor;

verus! {

/// The gutter of one screen row: its line number, written to the gutter's
/// width, and the column where the line's text starts.
#[derive(Debug)]
pub struct GutterLine {
    /// The screen row, which shows the line of the same index.
    pub row: u16,
    /// The line's number, counted from one, right-justified.
    pub label: Vec<char>,
    /// The screen column of the line's first character.
    pub text_col: u16,
}

/// The status bar on the last screen row.
#[derive(Debug)]
pub struct Toolbar {
    /// The screen row of the bar.
    pub row: u16,
    /// The warning shown from column one while the text is unsaved; empty
    /// otherwise.
    pub notice: Vec<char>,
    /// The column where the path starts, so that it stands centred.
    pub path_col: u16,
    /// The cursor's column and row, as shown.
    pub position: Vec<char>,
    /// The column where the position starts, so that it ends one column
    /// before the right edge.
    pub position_col: u16,
}

/// The decimal digit of a number below ten: the character that many places
/// after `'0'`.
pub open spec fn spec_digit(d: nat) -> char {
    ('0' as nat + d) as char
}

/// `n` written in decimal, without leading zeros.
pub open spec fn spec_decimal(n: nat) -> Seq<char>
    decreases n,
{
    if n < 10 {
        seq![spec_digit(n)]
    } else {
        spec_decimal(n / 10).push(spec_digit(n % 10))
    }
}

/// `text` with blanks before it up to `width`; a longer text is left whole.
pub open spec fn spec_right_justify(text: Seq<char>, width: nat) -> Seq<char> {
    if text.len() >= width {
        text
    } else {
        Seq::new((width - text.len()) as nat, |i: int| ' ') + text
    }
}

/// The difference of two lengths, or zero where the second is the larger.
pub open spec fn spec_minus(a: int, b: int) -> int {
    if a >= b {
        a - b
    } else {
        0
    }
}

/// A length as a screen coordinate: itself, or the largest coordinate.
pub open spec fn spec_coordinate(n: int) -> int {
    if n <= u16::MAX {
        n
    } else {
        u16::MAX as int
    }
}

/// How many lines have a screen row: all of them, up to the number of
/// coordinates.
pub open spec fn spec_rows(count: nat) -> nat {
    if count <= 65536 {
        count
    } else {
        65536
    }
}

/// The warning of the status bar.
pub open spec fn spec_notice(saved: bool) -> Seq<char> {
    if saved {
        Seq::empty()
    } else {
        seq!['N', 'o', 't', ' ', 'S', 'a', 'v', 'e', 'd', '!']
    }
}

/// The cursor's position as the status bar shows it: column, then row.
pub open spec fn spec_position(col: nat, row: nat) -> Seq<char> {
    spec_decimal(col) + seq![',', ' '] + spec_decimal(row)
}

/// How many decimal digits `n` is written with.
pub open spec fn spec_digits(n: nat) -> nat
    decreases n,
{
    if n < 10 {
        1
    } else {
        1 + spec_digits(n / 10)
    }
}

/// A number below `10^k` has at most `k` digits (stated for the widths that
/// machine integers reach).
pub proof fn lemma_digits_bound(n: nat)
    requires
        n <= u64::MAX,
    ensures
        1 <= spec_digits(n) <= 20,
{
    reveal_with_fuel(spec_digits, 21);
}

/// How many decimal digits `n` is written with.
pub fn digits(n: usize) -> (count: u16)
    ensures
        count == spec_digits(n as nat),
        1 <= count <= 20,
{
    proof {
        lemma_digits_bound(n as nat);
    }
    let mut count: u16 = 1;
    let mut rest: usize = n;
    while rest >= 10
        invariant
            1 <= count,
            count + spec_digits(rest as nat) == spec_digits(n as nat) + 1,
            spec_digits(n as nat) <= 20,
        decreases rest,
    {
        rest = rest / 10;
        count = count + 1;
    }
    count
}

/// A number is written with as many characters as it has digits.
pub proof fn lemma_decimal_len(n: nat)
    ensures
        spec_decimal(n).len() == spec_digits(n),
    decreases n,
{
    if n >= 10 {
        lemma_decimal_len(n / 10);
    }
}

/// A larger number has no fewer digits.
pub proof fn lemma_digits_monotonic(a: nat, b: nat)
    requires
        a <= b,
    ensures
        spec_digits(a) <= spec_digits(b),
    decreases b,
{
    if a >= 10 {
        lemma_digits_monotonic(a / 10, b / 10);
    }
}

/// Every line number of a text, justified to the digits of the number of
/// lines, is exactly that wide.
pub proof fn lemma_label_width(number: nat, count: nat)
    requires
        number <= count,
    ensures
        spec_right_justify(spec_decimal(number), spec_digits(count)).len() == spec_digits(count),
{
    lemma_decimal_len(number);
    lemma_digits_monotonic(number, count);
}

/// The decimal digit of a number below ten.
pub fn digit(d: u8) -> (c: char)
    requires
        d < 10,
    ensures
        c == spec_digit(d as nat),
{
    (48u8 + d) as char
}

/// Writes `n` in decimal.
pub fn decimal(n: usize) -> (text: Vec<char>)
    ensures
        text@ == spec_decimal(n as nat),
    decreases n,
{
    if n < 10 {
        let mut text: Vec<char> = Vec::new();
        text.push(digit(n as u8));
        assert(text@ =~= spec_decimal(n as nat));
        text
    } else {
        let mut text = decimal(n / 10);
        text.push(digit((n % 10) as u8));
        text
    }
}

/// Puts blanks before `text` until it is `width` long.
pub fn right_justify(text: &Vec<char>, width: usize) -> (out: Vec<char>)
    ensures
        out@ == spec_right_justify(text@, width as nat),
{
    let mut out: Vec<char> = Vec::new();
    let len: usize = text.len();
    let pad: usize = if len >= width {
        0
    } else {
        width - len
    };
    while out.len() < pad
        invariant
            out.len() <= pad,
            forall|i: int| 0 <= i < out.len() ==> out@[i] == ' ',
        decreases pad - out.len(),
    {
        out.push(' ');
    }
    let mut j: usize = 0;
    while j < len
        invariant
            len == text.len(),
            j <= len,
            out.len() == pad + j,
            forall|i: int| 0 <= i < pad ==> out@[i] == ' ',
            forall|i: int| 0 <= i < j ==> out@[pad + i] == text@[i],
        decreases len - j,
    {
        out.push(text[j]);
        j = j + 1;
    }
    assert(out@ =~= spec_right_justify(text@, width as nat));
    out
}

/// A length as a screen coordinate.
pub fn coordinate(n: usize) -> (c: u16)
    ensures
        c == spec_coordinate(n as int),
{
    if n <= 65535 {
        n as u16
    } else {
        u16::MAX
    }
}

impl TextEditor {
    /// The gutter of every line that has a screen row: row `i` shows line
    /// `i`, numbered `i + 1`, and the text starts one column after the gutter.
    pub fn render(&self) -> (gutter: Vec<GutterLine>)
        ensures
            gutter.len() == spec_rows(self@.lines.len()),
            forall|i: int|
                0 <= i < gutter.len() ==> {
                    &&& (#[trigger] gutter[i]).row == i
                    &&& gutter[i].label@ == spec_right_justify(
                        spec_decimal((i + 1) as nat),
                        spec_digits(self@.lines.len()),
                    )
                    &&& gutter[i].text_col == spec_digits(self@.lines.len()) + 1
                },
    {
        let width: u16 = self.get_line_number_width();
        let count: usize = self.lines.len();
        let mut gutter: Vec<GutterLine> = Vec::new();
        let mut i: usize = 0;
        while i < count && i <= 65535
            invariant
                count == self.lines.len(),
                width == spec_digits(self@.lines.len()),
                width <= 20,
                i <= count,
                i <= 65536,
                gutter.len() == i,
                forall|k: int|
                    0 <= k < gutter.len() ==> {
                        &&& (#[trigger] gutter[k]).row == k
                        &&& gutter[k].label@ == spec_right_justify(
                            spec_decimal((k + 1) as nat),
                            spec_digits(self@.lines.len()),
                        )
                        &&& gutter[k].text_col == spec_digits(self@.lines.len()) + 1
                    },
            decreases count - i,
        {
            let number = decimal(i + 1);
            let label = right_justify(&number, width as usize);
            gutter.push(GutterLine { row: i as u16, label, text_col: width + 1 });
            i = i + 1;
        }
        gutter
    }

    /// The status bar for a terminal of the given size. A terminal too small
    /// for a text has it start at column zero.
    pub fn render_toolbar(&self, width: u16, height: u16) -> (bar: Toolbar)
        ensures
            bar.row == spec_minus(height as int, 1),
            bar.notice@ == spec_notice(self@.saved),
            bar.path_col == spec_minus(width as int / 2, self@.path.len() as int / 2),
            bar.position@ == spec_position(self@.col as nat, self@.row as nat),
            bar.position_col == spec_minus(width as int - 1, bar.position@.len() as int),
    {
        let mut notice: Vec<char> = Vec::new();
        if !self.saved {
            notice.push('N');
            notice.push('o');
            notice.push('t');
            notice.push(' ');
            notice.push('S');
            notice.push('a');
            notice.push('v');
            notice.push('e');
            notice.push('d');
            notice.push('!');
        }
        assert(notice@ =~= spec_notice(self@.saved));
        let half: usize = (width / 2) as usize;
        let path_half: usize = self.path.as_str().unicode_len() / 2;
        let path_col: u16 = if half >= path_half {
            (half - path_half) as u16
        } else {
            0
        };
        let mut position = decimal(self.cursor_col);
        position.push(',');
        position.push(' ');
        let mut row_text = decimal(self.cursor_row);
        position.append(&mut row_text);
        assert(position@ =~= spec_position(self@.col as nat, self@.row as nat));
        let room: usize = if width >= 1 {
            (width - 1) as usize
        } else {
            0
        };
        let position_col: u16 = if room >= position.len() {
            (room - position.len()) as u16
        } else {
            0
        };
        let row: u16 = if height >= 1 {
            height - 1
        } else {
            0
        };
        Toolbar { row, notice, path_col, position, position_col }
    }

    /// Where the terminal's caret belongs: the cursor's column moved right by
    /// the gutter, and the cursor's row; each stops at the largest coordinate.
    pub fn caret(&self) -> (at: (u16, u16))
        ensures
            at.0 == spec_coordinate(self@.col + self@.col_offset),
            at.1 == spec_coordinate(self@.row),
    {
        let col: u16 = coordinate(self.cursor_col);
        let x: u16 = if col <= u16::MAX - self.cursor_col_offset {
            col + self.cursor_col_offset
        } else {
            u16::MAX
        };
        (x, coordinate(self.cursor_row))
    }
}

} // verus!
