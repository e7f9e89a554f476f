//! The text of a file as lines, and lines as the text of a file.

use vstd::prelude::*;
use crate::text_editor::{lines_view, EditorState, TextEditor};

verus! {

/// Where the first line of `s` ends: the index of its first line feed, or
/// the length of `s` if it has none.
pub open spec fn spec_line_end(s: Seq<char>) -> int
    decreases s.len(),
{
    if s.len() == 0 || s[0] == '\n' {
        0
    } else {
        1 + spec_line_end(s.skip(1))
    }
}

/// A line without the carriage return that stood before its line feed.
pub open spec fn spec_strip_cr(line: Seq<char>) -> Seq<char> {
    if line.len() > 0 && line.last() == '\r' {
        line.drop_last()
    } else {
        line
    }
}

/// The lines of a text. A line ends at a line feed, or at a carriage return
/// directly followed by one; the terminator is not part of the line. What
/// follows the last terminator is a line only if it is not empty.
pub open spec fn spec_lines(s: Seq<char>) -> Seq<Seq<char>>
    decreases s.len(),
{
    if s.len() == 0 {
        Seq::empty()
    } else {
        let end = spec_line_end(s);
        if 0 <= end < s.len() {
            seq![spec_strip_cr(s.take(end))] + spec_lines(s.skip(end + 1))
        } else {
            seq![s]
        }
    }
}

/// The text of a sequence of lines: every line followed by a line feed.
pub open spec fn spec_join(lines: Seq<Seq<char>>) -> Seq<char>
    decreases lines.len(),
{
    if lines.len() == 0 {
        Seq::empty()
    } else {
        lines[0] + seq!['\n'] + spec_join(lines.skip(1))
    }
}

/// A line that writing and reading back leaves as it is: it holds no line
/// feed and does not end in a carriage return.
pub open spec fn is_plain_line(line: Seq<char>) -> bool {
    &&& forall|j: int| 0 <= j < line.len() ==> line[j] != '\n'
    &&& !(line.len() > 0 && line.last() == '\r')
}

/// The editor that opening a path gives: its text split into lines if there
/// was a file (one empty line if the file held none), and one empty,
/// unsaved line if there was none.
pub open spec fn spec_open(path: Seq<char>, contents: Option<Seq<char>>) -> EditorState {
    let lines = match contents {
        Some(text) => if spec_lines(text).len() == 0 {
            seq![Seq::<char>::empty()]
        } else {
            spec_lines(text)
        },
        None => seq![Seq::<char>::empty()],
    };
    EditorState {
        alive: true,
        path,
        saved: contents.is_some(),
        lines,
        row: 0,
        col: 0,
        col_offset: 2,
    }
}

/// An index with no line feed before it, and one at it unless it is the end,
/// is where the first line ends.
pub proof fn lemma_line_end(s: Seq<char>, k: int)
    requires
        0 <= k <= s.len(),
        forall|j: int| 0 <= j < k ==> s[j] != '\n',
        k < s.len() ==> s[k] == '\n',
    ensures
        spec_line_end(s) == k,
    decreases k,
{
    if k > 0 {
        lemma_line_end(s.skip(1), k - 1);
    }
}

/// Splits a text into its lines.
pub fn split_lines(text: &Vec<char>) -> (lines: Vec<Vec<char>>)
    ensures
        lines_view(lines@) == spec_lines(text@),
{
    let mut lines: Vec<Vec<char>> = Vec::new();
    let n: usize = text.len();
    let mut start: usize = 0;
    assert(lines_view(lines@) + spec_lines(text@.skip(0)) =~= spec_lines(text@)) by {
        assert(text@.skip(0) =~= text@);
    }
    while start < n
        invariant
            n == text.len(),
            start <= n,
            lines_view(lines@) + spec_lines(text@.skip(start as int)) == spec_lines(text@),
        decreases n - start,
    {
        let ghost rest = text@.skip(start as int);
        let ghost done = lines_view(lines@);
        let ghost from = start as int;
        let mut line: Vec<char> = Vec::new();
        let mut i: usize = start;
        while i < n && text[i] != '\n'
            invariant
                n == text.len(),
                start <= i <= n,
                line@ == text@.subrange(start as int, i as int),
                forall|j: int| start <= j < i ==> text@[j] != '\n',
            decreases n - i,
        {
            line.push(text[i]);
            i = i + 1;
            assert(line@ =~= text@.subrange(start as int, i as int));
        }
        proof {
            lemma_line_end(rest, i - from);
            assert(rest.take(i - from) =~= line@);
        }
        if i < n {
            let len: usize = line.len();
            if len > 0 && line[len - 1] == '\r' {
                line.pop();
            }
            assert(line@ =~= spec_strip_cr(rest.take(i - from)));
            lines.push(line);
            start = i + 1;
            proof {
                assert(rest.skip(i - from + 1) =~= text@.skip(start as int));
                assert(lines_view(lines@) =~= done + seq![line@]);
                assert(spec_lines(rest) == seq![line@] + spec_lines(text@.skip(start as int)));
                assert(lines_view(lines@) + spec_lines(text@.skip(start as int)) =~= done
                    + spec_lines(rest));
            }
        } else {
            lines.push(line);
            start = n;
            proof {
                assert(rest =~= line@);
                assert(lines_view(lines@) =~= done + seq![line@]);
                assert(text@.skip(n as int).len() == 0);
                assert(lines_view(lines@) + spec_lines(text@.skip(n as int)) =~= done
                    + spec_lines(rest));
            }
        }
    }
    assert(lines_view(lines@) =~= spec_lines(text@)) by {
        assert(text@.skip(n as int).len() == 0);
    }
    lines
}

impl TextEditor {
    /// The editor for a path, from what was found there: `Some` with the
    /// file's text, or `None` where there is no file yet.
    pub fn open_file(path: String, contents: Option<Vec<char>>) -> (editor: TextEditor)
        ensures
            editor@ == spec_open(
                path@,
                match contents {
                    Some(text) => Some(text@),
                    None => None,
                },
            ),
            editor@.wf(),
    {
        let saved = contents.is_some();
        let mut lines: Vec<Vec<char>> = match contents {
            Some(text) => split_lines(&text),
            None => Vec::new(),
        };
        if lines.len() == 0 {
            lines.push(Vec::new());
        }
        let editor = TextEditor {
            alive: true,
            path,
            saved,
            lines,
            cursor_row: 0,
            cursor_col: 0,
            cursor_col_offset: 2,
        };
        assert(editor@.lines =~= spec_open(
            path@,
            match contents {
                Some(text) => Some(text@),
                None => None,
            },
        ).lines);
        editor
    }

    /// The text to write on save: every line followed by a line feed.
    pub fn contents(&self) -> (text: Vec<char>)
        ensures
            text@ == spec_join(self@.lines),
    {
        let mut text: Vec<char> = Vec::new();
        let mut i: usize = 0;
        assert(self@.lines.skip(0) =~= self@.lines);
        while i < self.lines.len()
            invariant
                i <= self.lines.len(),
                text@ + spec_join(self@.lines.skip(i as int)) == spec_join(self@.lines),
            decreases self.lines.len() - i,
        {
            let ghost before = text@;
            let ghost rest = self@.lines.skip(i as int);
            let line = &self.lines[i];
            let mut j: usize = 0;
            while j < line.len()
                invariant
                    j <= line.len(),
                    text@ == before + line@.subrange(0, j as int),
                decreases line.len() - j,
            {
                text.push(line[j]);
                j = j + 1;
                assert(text@ =~= before + line@.subrange(0, j as int));
            }
            text.push('\n');
            i = i + 1;
            proof {
                assert(rest[0] == line@);
                assert(rest.skip(1) =~= self@.lines.skip(i as int));
                assert(line@.subrange(0, line@.len() as int) =~= line@);
                assert(text@ + spec_join(self@.lines.skip(i as int)) =~= before + spec_join(rest));
            }
        }
        assert(spec_join(self@.lines.skip(i as int)) =~= Seq::<char>::empty());
        assert(text@ =~= text@ + Seq::<char>::empty());
        text
    }
}

} // verus!
