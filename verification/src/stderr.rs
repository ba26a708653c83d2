//! The last lines that the process wrote to its standard error.

use crate::text::{joined, trim, trimmed};
use crate::views::views;
use vstd::prelude::*;
use vstd::string::StringExecFns;

verus! {

/// How many lines are kept.
pub const KEPT_LINES: usize = 128;

/// How many lines are shown when the process ends.
pub const SHOWN_LINES: usize = 6;

/// The last lines of the standard error, without the blank ones.
pub struct StderrTail {
    pub lines: Vec<String>,
}

impl View for StderrTail {
    type V = Seq<Seq<char>>;

    open spec fn view(&self) -> Seq<Seq<char>> {
        views(self.lines)
    }
}

/// The kept lines after one more was read. It is kept without the white space around it,
/// and not at all if nothing is left of it. The oldest line goes where there is no room.
pub open spec fn tail_after(lines: Seq<Seq<char>>, line: Seq<char>) -> Seq<Seq<char>> {
    if trimmed(line).len() == 0 {
        lines
    } else if lines.len() == KEPT_LINES {
        lines.drop_first().push(trimmed(line))
    } else {
        lines.push(trimmed(line))
    }
}

/// The lines one after the other, with line breaks between them.
pub open spec fn joined_lines(lines: Seq<Seq<char>>) -> Seq<char>
    decreases lines.len(),
{
    if lines.len() == 0 {
        Seq::empty()
    } else if lines.len() == 1 {
        lines[0]
    } else {
        joined_lines(lines.drop_last()) + "\n"@ + lines.last()
    }
}

/// The lines that are shown when the process ends: the last ones.
pub open spec fn shown_lines(lines: Seq<Seq<char>>) -> Seq<Seq<char>> {
    if lines.len() > SHOWN_LINES {
        lines.skip(lines.len() - SHOWN_LINES)
    } else {
        lines
    }
}

/// What the driver says when the process ends.
pub open spec fn exit_message(lines: Seq<Seq<char>>) -> Seq<char> {
    let tail = joined_lines(shown_lines(lines));
    if tail.len() == 0 {
        "Droid process exited unexpectedly"@
    } else {
        "Droid process exited unexpectedly:\n"@ + tail
    }
}

impl StderrTail {
    /// No lines yet.
    pub fn new() -> (tail: StderrTail)
        ensures
            tail@ == Seq::<Seq<char>>::empty(),
    {
        let tail = StderrTail { lines: Vec::new() };
        assert(tail@ =~= Seq::<Seq<char>>::empty());
        tail
    }

    /// Takes in a line.
    pub fn push_line(&mut self, line: &str)
        ensures
            final(self)@ == tail_after(old(self)@, line@),
    {
        let kept = trim(line);
        if kept.is_empty() {
            return ;
        }
        let ghost before = self@;
        if self.lines.len() == KEPT_LINES {
            let _ = self.lines.remove(0);
        }
        self.lines.push(kept.to_owned());
        assert(self@ =~= tail_after(before, line@));
    }

    /// The last lines in one text.
    fn text(&self) -> (text: String)
        ensures
            text@ == joined_lines(shown_lines(self@)),
    {
        let count: usize = self.lines.len();
        let start: usize = if count > SHOWN_LINES {
            count - SHOWN_LINES
        } else {
            0
        };
        let ghost shown = shown_lines(self@);
        assert(shown =~= self@.skip(start as int));
        let mut text = String::new();
        let mut i: usize = start;
        assert(shown.take(0) =~= Seq::empty());
        while i < count
            invariant
                count == self.lines.len(),
                start <= i <= count,
                shown == self@.skip(start as int),
                text@ == joined_lines(shown.take(i - start)),
            decreases count - i,
        {
            assert(shown.take(i + 1 - start).drop_last() =~= shown.take(i - start));
            assert(shown.take(i + 1 - start).last() == self.lines@[i as int]@);
            if i > start {
                text.append("\n");
            }
            text.append(&self.lines[i]);
            if i == start {
                assert(text@ =~= self.lines@[i as int]@);
            }
            i = i + 1;
        }
        assert(shown.take(count - start) =~= shown);
        text
    }

    /// What the driver says when the process ends.
    pub fn exit_text(&self) -> (text: String)
        ensures
            text@ == exit_message(self@),
    {
        let tail = self.text();
        if tail.as_str().is_empty() {
            "Droid process exited unexpectedly".to_owned()
        } else {
            joined("Droid process exited unexpectedly:\n", &tail)
        }
    }
}

} // verus!
