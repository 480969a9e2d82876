//! The measures of a block of text that decide how a renderer lays it out:
//! its lines, their widths and their indentation.

use crate::signature::{is_space, is_whitespace};
use vstd::prelude::*;
use vstd::std_specs::iter::IteratorSpec;
use vstd::utf8::encode_utf8;

verus! {

/// The number of bytes after the last line break.
pub open spec fn last_run(bytes: Seq<u8>) -> nat
    decreases bytes.len(),
{
    if bytes.len() == 0 || bytes.last() == 10u8 {
        0
    } else {
        last_run(bytes.drop_last()) + 1
    }
}

/// The number of line breaks.
pub open spec fn line_breaks(bytes: Seq<u8>) -> nat
    decreases bytes.len(),
{
    if bytes.len() == 0 {
        0
    } else if bytes.last() == 10u8 {
        line_breaks(bytes.drop_last()) + 1
    } else {
        line_breaks(bytes.drop_last())
    }
}

/// The length of the line that a line break after `bytes` would close: a
/// carriage return just before the break is not part of the line.
pub open spec fn closed_len(bytes: Seq<u8>) -> nat {
    if last_run(bytes) > 0 && bytes.last() == 13u8 {
        (last_run(bytes) - 1) as nat
    } else {
        last_run(bytes)
    }
}

/// The length of the longest line that ends in a line break.
pub open spec fn widest_closed(bytes: Seq<u8>) -> nat
    decreases bytes.len(),
{
    if bytes.len() == 0 {
        0
    } else if bytes.last() == 10u8 && closed_len(bytes.drop_last()) > widest_closed(
        bytes.drop_last(),
    ) {
        closed_len(bytes.drop_last())
    } else {
        widest_closed(bytes.drop_last())
    }
}

/// The length in bytes of the longest line, line endings apart.
pub open spec fn widest_line(bytes: Seq<u8>) -> nat {
    if last_run(bytes) > widest_closed(bytes) {
        last_run(bytes)
    } else {
        widest_closed(bytes)
    }
}

/// The number of lines: one for each line break, and one for what follows
/// the last.
pub open spec fn line_count(bytes: Seq<u8>) -> nat {
    if last_run(bytes) > 0 {
        line_breaks(bytes) + 1
    } else {
        line_breaks(bytes)
    }
}

/// The columns that a white-space character indents by: four for a tab,
/// one for any other.
pub open spec fn weight(c: char) -> nat {
    if c == '\t' {
        4
    } else {
        1
    }
}

/// The line after the last line break holds a character that is not white
/// space.
pub open spec fn line_is_visible(chars: Seq<char>) -> bool
    decreases chars.len(),
{
    if chars.len() == 0 || chars.last() == '\n' {
        false
    } else {
        line_is_visible(chars.drop_last()) || !is_space(chars.last())
    }
}

/// The indentation of the line after the last line break: the weights of
/// its leading white space.
pub open spec fn line_lead(chars: Seq<char>) -> nat
    decreases chars.len(),
{
    if chars.len() == 0 || chars.last() == '\n' {
        0
    } else if !line_is_visible(chars.drop_last()) && is_space(chars.last()) {
        line_lead(chars.drop_last()) + weight(chars.last())
    } else {
        line_lead(chars.drop_last())
    }
}

/// The least indentation among the lines that hold a character that is not
/// white space; `usize::MAX` where no line does.
pub open spec fn least_indent(chars: Seq<char>) -> nat
    decreases chars.len(),
{
    if chars.len() == 0 {
        usize::MAX as nat
    } else if !is_space(chars.last()) && !line_is_visible(chars.drop_last()) && line_lead(
        chars.drop_last(),
    ) < least_indent(chars.drop_last()) {
        line_lead(chars.drop_last())
    } else {
        least_indent(chars.drop_last())
    }
}

/// The number of decimal digits of `n`.
pub open spec fn digits(n: nat) -> nat
    decreases n,
{
    if n < 10 {
        1
    } else {
        digits(n / 10) + 1
    }
}

/// The indentation of `chars` can be summed in a `usize`.
pub open spec fn indent_fits(chars: Seq<char>) -> bool {
    chars.len() <= usize::MAX / 4
}

/// The length of the longest line and the number of lines.
pub fn measure_lines(text: &str) -> (res: (usize, usize))
    ensures
        res.0 == widest_line(encode_utf8(text@)),
        res.1 == line_count(encode_utf8(text@)),
        res.1 <= encode_utf8(text@).len(),
{
    let bytes = text.as_bytes();
    let mut run: usize = 0;
    let mut closed: usize = 0;
    let mut breaks: usize = 0;
    let mut after_return: bool = false;
    let mut i: usize = 0;
    while i < bytes.len()
        invariant
            i <= bytes.len(),
            run == last_run(bytes@.take(i as int)),
            closed == widest_closed(bytes@.take(i as int)),
            breaks == line_breaks(bytes@.take(i as int)),
            after_return == (i > 0 && bytes@[i - 1] == 13u8),
            run <= i,
            closed <= i,
            breaks <= i,
            run > 0 ==> breaks < i,
        decreases bytes.len() - i,
    {
        assert(bytes@.take(i + 1).drop_last() =~= bytes@.take(i as int));
        if bytes[i] == 10 {
            let length: usize = if run > 0 && after_return {
                run - 1
            } else {
                run
            };
            if length > closed {
                closed = length;
            }
            run = 0;
            breaks = breaks + 1;
        } else {
            run = run + 1;
        }
        after_return = bytes[i] == 13;
        i += 1;
    }
    assert(bytes@.take(i as int) =~= bytes@);
    let widest: usize = if run > closed {
        run
    } else {
        closed
    };
    let lines: usize = if run > 0 {
        breaks + 1
    } else {
        breaks
    };
    (widest, lines)
}

/// The least indentation among the lines with a visible character, or
/// `None` where the text is too long for its indentation to be summed.
pub fn least_indentation(text: &str) -> (res: Option<usize>)
    ensures
        res is Some <==> indent_fits(text@),
        res is Some ==> res.unwrap() == least_indent(text@),
{
    let ghost mut done: Seq<char> = Seq::empty();
    let mut count: usize = 0;
    let mut visible: bool = false;
    let mut lead: usize = 0;
    let mut least: usize = usize::MAX;
    let mut chars = text.chars();
    proof {
        vstd::string::axiom_spec_iter(text);
    }
    loop
        invariant
            chars.obeys_prophetic_iter_laws(),
            chars.decrease() is Some,
            done + chars.remaining() == text@,
            count == done.len(),
            count <= usize::MAX / 4,
            visible == line_is_visible(done),
            lead == line_lead(done),
            least == least_indent(done),
            lead <= 4 * count,
        ensures
            done == text@,
        decreases chars.decrease()->0,
    {
        let ghost before = chars;
        let next = chars.next();
        proof {
            vstd::string::next_postcondition(&before, &chars, next);
        }
        match next {
            Some(c) => {
                proof {
                    assert(done.push(c) + chars.remaining() =~= done + before.remaining());
                    assert(done.push(c).drop_last() =~= done);
                }
                if count == usize::MAX / 4 {
                    assert(text@.len() == done.len() + before.remaining().len());
                    return None;
                }
                if c == '\n' {
                    visible = false;
                    lead = 0;
                } else if !visible {
                    if is_whitespace(c) {
                        lead = lead + if c == '\t' {
                            4
                        } else {
                            1
                        };
                    } else {
                        if lead < least {
                            least = lead;
                        }
                        visible = true;
                    }
                }
                count = count + 1;
                proof {
                    done = done.push(c);
                }
            },
            None => {
                assert(done =~= done + before.remaining());
                break ;
            },
        }
    }
    Some(least)
}

/// The number of decimal digits of `n`.
pub fn count_digits(n: usize) -> (res: usize)
    ensures
        res == digits(n as nat),
        res <= n + 1,
{
    let mut rest: usize = n;
    let mut count: usize = 1;
    while rest >= 10
        invariant
            digits(n as nat) == digits(rest as nat) + count - 1,
            count + rest <= n + 1,
            count >= 1,
        decreases rest,
    {
        rest = rest / 10;
        count = count + 1;
    }
    count
}

} // verus!
