//! What holds of texts: numbers, prefixes, white space, and what is said when the process
//! ends.

use crate::laws::tail::{
    law_shown_lines_are_the_end, law_tail_is_the_end, tail_of, written,
};
use crate::stderr::{exit_message, joined_lines, shown_lines};
use crate::text::{
    decimal, digit, has_prefix, lemma_digit, trimmed, trimmed_end, trimmed_start, white_space,
};
use crate::wire::{following, request_id};
use vstd::prelude::*;

verus! {

/// The number that a row of decimal digits stands for.
pub open spec fn numeral(digits: Seq<char>) -> int
    decreases digits.len(),
{
    if digits.len() == 0 {
        0
    } else {
        10 * numeral(digits.drop_last()) + (digits.last() as int - '0' as int)
    }
}

/// Decimal notation stands for the number it was written for, in digits alone, and begins
/// with a zero only where it is nothing but that.
pub proof fn law_decimal_stands_for_the_number(n: nat)
    ensures
        numeral(decimal(n)) == n,
        decimal(n).len() > 0,
        forall|i: int| 0 <= i < decimal(n).len() ==> '0' <= (#[trigger] decimal(n)[i]) <= '9',
        decimal(n)[0] == '0' ==> n == 0 && decimal(n).len() == 1,
    decreases n,
{
    reveal_with_fuel(numeral, 2);
    if n < 10 {
        lemma_digit(n);
        assert(decimal(n).drop_last() =~= Seq::empty());
    } else {
        law_decimal_stands_for_the_number(n / 10);
        lemma_digit(n % 10);
        assert(decimal(n).drop_last() =~= decimal(n / 10));
        assert(decimal(n).last() == digit(n % 10)[0]);
    }
}

/// A request is named `waku-` and its number, and the numbers count up, starting over
/// only after the last one.
pub proof fn law_requests_are_numbered(sequence: u64)
    ensures
        request_id(sequence).len() > 5,
        request_id(sequence).take(5) == "waku-"@,
        request_id(sequence).skip(5) == decimal(sequence as nat),
        following(sequence) == (sequence + 1) % 0x1_0000_0000_0000_0000,
{
    reveal_strlit("waku-");
    law_decimal_stands_for_the_number(sequence as nat);
    assert("waku-"@.len() == 5);
    assert(request_id(sequence).take(5) =~= "waku-"@);
    assert(request_id(sequence).skip(5) =~= decimal(sequence as nat));
}

/// A text begins with a prefix exactly where it is that prefix and a rest.
pub proof fn law_prefixes_leave_a_rest(text: Seq<char>, prefix: Seq<char>)
    ensures
        has_prefix(text, prefix) <==> exists|rest: Seq<char>| text == #[trigger] (prefix + rest),
{
    if has_prefix(text, prefix) {
        assert(text =~= prefix + text.skip(prefix.len() as int));
    }
    if exists|rest: Seq<char>| text == #[trigger] (prefix + rest) {
        let rest = choose|rest: Seq<char>| text == #[trigger] (prefix + rest);
        assert(text.take(prefix.len() as int) =~= prefix);
    }
}

/// White space is what Unicode calls so: tab, the line breaks, the spaces and the
/// separators.
pub proof fn law_white_space_is_that_of_unicode(c: char)
    ensures
        white_space(c) <==> {
            let code = c as int;
            ||| 0x9 <= code <= 0xd
            ||| code == 0x20
            ||| code == 0x85
            ||| code == 0xa0
            ||| code == 0x1680
            ||| 0x2000 <= code <= 0x200a
            ||| code == 0x2028
            ||| code == 0x2029
            ||| code == 0x202f
            ||| code == 0x205f
            ||| code == 0x3000
        },
{
}

/// All of a text is white space.
pub open spec fn blank(text: Seq<char>) -> bool {
    forall|i: int| 0 <= i < text.len() ==> white_space(#[trigger] text[i])
}

/// What is trimmed at the start is white space, up to the first other character.
proof fn lemma_trimmed_start(text: Seq<char>) -> (cut: Seq<char>)
    ensures
        text == cut + trimmed_start(text),
        blank(cut),
        trimmed_start(text).len() > 0 ==> !white_space(trimmed_start(text)[0]),
    decreases text.len(),
{
    if text.len() > 0 && white_space(text.first()) {
        let rest = lemma_trimmed_start(text.drop_first());
        let cut = seq![text[0]] + rest;
        assert(text =~= cut + trimmed_start(text)) by {
            assert(text =~= seq![text[0]] + text.drop_first());
        }
        assert forall|i: int| 0 <= i < cut.len() implies white_space(#[trigger] cut[i]) by {
            if i > 0 {
                assert(cut[i] == rest[i - 1]);
            }
        }
        cut
    } else {
        assert(text =~= Seq::<char>::empty() + trimmed_start(text));
        Seq::empty()
    }
}

/// What is trimmed at the end is white space, up to the last other character.
proof fn lemma_trimmed_end(text: Seq<char>) -> (cut: Seq<char>)
    ensures
        text == trimmed_end(text) + cut,
        blank(cut),
        trimmed_end(text).len() > 0 ==> !white_space(trimmed_end(text).last()),
    decreases text.len(),
{
    if text.len() > 0 && white_space(text.last()) {
        let rest = lemma_trimmed_end(text.drop_last());
        let cut = rest.push(text.last());
        assert(text =~= trimmed_end(text) + cut) by {
            assert(text =~= text.drop_last().push(text.last()));
        }
        assert forall|i: int| 0 <= i < cut.len() implies white_space(#[trigger] cut[i]) by {
            if i < rest.len() {
                assert(cut[i] == rest[i]);
            }
        }
        cut
    } else {
        assert(text =~= trimmed_end(text) + Seq::<char>::empty());
        Seq::empty()
    }
}

/// Trimming takes white space from both ends and nothing else, and leaves none there.
pub proof fn law_trimming_takes_white_space(text: Seq<char>)
    ensures
        exists|front: Seq<char>, back: Seq<char>|
            text == #[trigger] (front + trimmed(text) + back) && blank(front) && blank(back),
        trimmed(text).len() > 0 ==> !white_space(trimmed(text)[0]) && !white_space(
            trimmed(text).last(),
        ),
        trimmed(text).len() == 0 <==> blank(text),
{
    let front = lemma_trimmed_start(text);
    let middle = trimmed_start(text);
    let back = lemma_trimmed_end(middle);
    assert(front + trimmed(text) + back =~= text);
    if trimmed(text).len() > 0 {
        assert(trimmed(text)[0] == middle[0]);
        assert(text[front.len() as int] == middle[0]);
    } else {
        assert forall|i: int| 0 <= i < text.len() implies white_space(#[trigger] text[i]) by {
            if i < front.len() {
                assert(text[i] == front[i]);
            } else {
                assert(text[i] == back[i - front.len()]);
            }
        }
    }
}

/// Lines are joined by line breaks: each one more brings a line break and itself.
pub proof fn law_lines_are_joined_by_line_breaks(lines: Seq<Seq<char>>, line: Seq<char>)
    ensures
        joined_lines(Seq::empty()) == Seq::<char>::empty(),
        joined_lines(seq![line]) == line,
        lines.len() > 0 ==> joined_lines(lines.push(line)) == joined_lines(lines) + seq!['\n']
            + line,
{
    reveal_strlit("\n");
    assert("\n"@ =~= seq!['\n']);
    if lines.len() > 0 {
        assert(lines.push(line).drop_last() =~= lines);
    }
}

/// Once the process ended, the user is told of the last six lines that were not blank,
/// without the white space around them; where there were none, of no line.
pub proof fn law_the_end_shows_the_last_lines(read: Seq<Seq<char>>)
    ensures
        ({
            let lines = written(read);
            let last = if lines.len() > 6 {
                lines.subrange(lines.len() - 6, lines.len() as int)
            } else {
                lines
            };
            exit_message(tail_of(read)) == if lines.len() == 0 {
                "Droid process exited unexpectedly"@
            } else {
                "Droid process exited unexpectedly:\n"@ + joined_lines(last)
            }
        }),
{
    law_shown_lines_are_the_end(read);
    let lines = written(read);
    let last = shown_lines(tail_of(read));
    if lines.len() > 6 {
        assert(last =~= lines.subrange(lines.len() - 6, lines.len() as int));
    }
    if lines.len() > 0 {
        lemma_written_not_empty(read);
        assert(last.last() == lines.last());
        assert(lines[lines.len() - 1] == lines.last());
    }
}

/// A line that is kept is not empty.
proof fn lemma_written_not_empty(read: Seq<Seq<char>>)
    ensures
        forall|i: int| 0 <= i < written(read).len() ==> (#[trigger] written(read)[i]).len() > 0,
    decreases read.len(),
{
    if read.len() > 0 {
        lemma_written_not_empty(read.drop_last());
        let before = written(read.drop_last());
        assert forall|i: int| 0 <= i < written(read).len() implies (#[trigger] written(
            read,
        )[i]).len() > 0 by {
            if i < before.len() {
                assert(written(read)[i] == before[i]);
            }
        }
    }
}

/// Of each line that is read the white space around it is dropped, and a blank line is
/// not kept; at most 128 lines are, the last ones.
pub proof fn law_lines_are_kept(read: Seq<Seq<char>>, line: Seq<char>)
    ensures
        written(Seq::empty()) == Seq::<Seq<char>>::empty(),
        written(read.push(line)) == if blank(line) {
            written(read)
        } else {
            written(read).push(trimmed(line))
        },
        tail_of(read) == if written(read).len() > 128 {
            written(read).subrange(written(read).len() - 128, written(read).len() as int)
        } else {
            written(read)
        },
{
    law_trimming_takes_white_space(line);
    assert(read.push(line).drop_last() =~= read);
    law_tail_is_the_end(read);
}

} // verus!
