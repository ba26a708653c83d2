//! What holds of the kept lines of the standard error.

use crate::stderr::{shown_lines, tail_after, KEPT_LINES, SHOWN_LINES};
use crate::text::trimmed;
use vstd::prelude::*;

verus! {

/// The lines kept after all of `read` was read, from the start.
pub open spec fn tail_of(read: Seq<Seq<char>>) -> Seq<Seq<char>>
    decreases read.len(),
{
    if read.len() == 0 {
        Seq::empty()
    } else {
        tail_after(tail_of(read.drop_last()), read.last())
    }
}

/// The lines without the white space around them and without the blank ones.
pub open spec fn written(read: Seq<Seq<char>>) -> Seq<Seq<char>>
    decreases read.len(),
{
    if read.len() == 0 {
        Seq::empty()
    } else if trimmed(read.last()).len() == 0 {
        written(read.drop_last())
    } else {
        written(read.drop_last()).push(trimmed(read.last()))
    }
}

/// The last `n` of some lines, or all of them.
pub open spec fn last_of(lines: Seq<Seq<char>>, n: nat) -> Seq<Seq<char>> {
    if lines.len() > n {
        lines.skip(lines.len() - n)
    } else {
        lines
    }
}

/// The kept lines are the last ones that are not blank, as many as there is room for.
pub proof fn law_tail_is_the_end(read: Seq<Seq<char>>)
    ensures
        tail_of(read) == last_of(written(read), KEPT_LINES as nat),
        tail_of(read).len() <= KEPT_LINES,
    decreases read.len(),
{
    if read.len() > 0 {
        law_tail_is_the_end(read.drop_last());
        let before = written(read.drop_last());
        if trimmed(read.last()).len() > 0 {
            assert(tail_of(read) =~= last_of(written(read), KEPT_LINES as nat));
        }
    }
}

/// What is shown when the process ends is the end of what it wrote, blank lines aside:
/// keeping only some lines loses none of those.
pub proof fn law_shown_lines_are_the_end(read: Seq<Seq<char>>)
    ensures
        shown_lines(tail_of(read)) == last_of(written(read), SHOWN_LINES as nat),
{
    law_tail_is_the_end(read);
    assert(shown_lines(tail_of(read)) =~= last_of(written(read), SHOWN_LINES as nat));
}

} // verus!
