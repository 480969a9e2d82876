//! The structured request for an annotated report, and its painting.

use crate::capture::byte_len;
use crate::layout::{
    count_digits, digits, indent_fits, least_indent, least_indentation, line_count, measure_lines,
    widest_line,
};
use annotate_snippets::{Level, Renderer, Snippet};
use vstd::prelude::*;
use vstd::string::StringExecFns;
use vstd::utf8::{encode_utf8, is_char_boundary};

verus! {

/// Whether diagnostics are produced at all. A build fixes one of the two
/// and never changes it.
#[derive(Clone, Copy, Debug, PartialEq, Eq, Structural)]
pub enum DiagnosticsMode {
    Enabled,
    Disabled,
}

/// What a report shows.
#[derive(Clone, Debug)]
pub enum AnnotatedReport {
    /// The function's signature as context, the failing invocation with a
    /// highlighted span as evidence, and a footer with the raw input.
    Blocks {
        title: String,
        origin: String,
        context_text: String,
        context_line: usize,
        evidence_text: String,
        evidence_line: usize,
        highlight_start: usize,
        highlight_end: usize,
        label: String,
        footer: String,
    },
    /// A title alone, shown when no invocation could be merged.
    Placeholder { title: String },
}

/// What `annotate_snippets::Renderer::render` prints for a message of two
/// snippets and a footer, with the styled renderer as built and bright red
/// line numbers.
pub uninterp spec fn painted_blocks(
    title: Seq<char>,
    origin: Seq<char>,
    context: Seq<char>,
    context_line: int,
    evidence: Seq<char>,
    evidence_line: int,
    start: int,
    end: int,
    label: Seq<char>,
    footer: Seq<char>,
) -> Seq<char>;

/// What `annotate_snippets::Renderer::render` prints for a message that is
/// a title alone, with the same renderer.
pub uninterp spec fn painted_title(title: Seq<char>) -> Seq<char>;

/// The columns that the renderer has for a line and its gutter.
pub const RENDER_WIDTH: usize = 140;

/// `at` does not fall inside a character of `text`: it is a character
/// boundary, or lies past the end.
pub open spec fn between_chars(text: Seq<char>, at: int) -> bool {
    at > byte_len(text) || is_char_boundary(encode_utf8(text), at)
}

/// A block of `text` numbered from `first_line` can be laid out: the line
/// numbers stay below `usize::MAX`.
pub open spec fn lines_fit(text: Seq<char>, first_line: int) -> bool {
    first_line + byte_len(text) < usize::MAX
}

/// The columns left for a line once the gutter is taken off: three, and
/// the digits of the number after the block's last line.
pub open spec fn line_room(last_number: nat) -> nat {
    if 3 + digits(last_number) >= RENDER_WIDTH {
        0
    } else {
        (RENDER_WIDTH - 3 - digits(last_number)) as nat
    }
}

/// The renderer's margin can be computed from a block's measures. Where a
/// line is wider than the room left after the white space that every line
/// shares is cut, the renderer subtracts that white space, less six, from
/// the right edge of the label, plus six: the edge must reach it.
pub open spec fn margin_computes(
    widest: nat,
    room: nat,
    indent: nat,
    label_edge: nat,
) -> bool {
    let left = if indent >= 6 {
        indent - 6
    } else {
        0
    };
    let cut = if left > 20 {
        left - 16
    } else {
        0
    };
    let right = if widest >= cut {
        widest as int
    } else {
        cut
    };
    right - cut <= room || left <= label_edge + 6
}

/// The renderer's margin can be computed for a block of `text` numbered
/// from `first_line`, whose label reaches at least to `label_edge`.
pub open spec fn margin_fits(text: Seq<char>, first_line: int, label_edge: int) -> bool {
    &&& indent_fits(text)
    &&& margin_computes(
        widest_line(encode_utf8(text)),
        line_room((first_line + line_count(encode_utf8(text))) as nat),
        least_indent(text),
        label_edge as nat,
    )
}

/// Every byte before `at` is a printable ASCII character, so `at` is also
/// the column of the byte there.
pub open spec fn plain_before(text: Seq<char>, at: int) -> bool {
    &&& at <= byte_len(text)
    &&& forall|i: int| 0 <= i < at ==> 32 <= #[trigger] encode_utf8(text)[i] <= 126
}

/// A column that the right edge of the label is sure to reach: nothing
/// for a highlight that starts at or past the end of the text; else one
/// column of highlight, the label and a space, after the column where the
/// highlight starts if that column is known.
pub open spec fn label_reach(text: Seq<char>, start: int, label: Seq<char>) -> nat {
    if 0 <= start < byte_len(text) {
        if plain_before(text, start) {
            (start + byte_len(label) + 2) as nat
        } else {
            byte_len(label) + 2
        }
    } else {
        0
    }
}

/// The highlight `[start, end)` can be drawn under `text`: it runs forward,
/// ends at most one past the last byte, and cuts no character.
pub open spec fn highlight_fits(text: Seq<char>, start: int, end: int) -> bool {
    &&& start <= end
    &&& end <= byte_len(text) + 1
    &&& between_chars(text, start)
    &&& between_chars(text, end)
}

/// The whole of what a block with a highlight asks of the renderer.
pub open spec fn evidence_fits(
    text: Seq<char>,
    first_line: int,
    start: int,
    end: int,
    label: Seq<char>,
) -> bool {
    &&& lines_fit(text, first_line)
    &&& start + byte_len(label) + 2 <= usize::MAX
    &&& highlight_fits(text, start, end)
    &&& margin_fits(text, first_line, label_reach(text, start, label) as int)
}

/// The whole of what a block without a highlight asks of the renderer.
pub open spec fn context_fits(text: Seq<char>, first_line: int) -> bool {
    lines_fit(text, first_line) && margin_fits(text, first_line, 0)
}

/// The number of bytes in `text`.
fn count_bytes(text: &str) -> (res: usize)
    ensures
        res == byte_len(text@),
{
    text.as_bytes().len()
}

fn is_between_chars(text: &str, at: usize) -> (res: bool)
    ensures
        res == between_chars(text@, at as int),
{
    at > count_bytes(text) || text.is_char_boundary(at)
}

fn do_lines_fit(text: &str, first_line: usize) -> (res: bool)
    ensures
        res == lines_fit(text@, first_line as int),
{
    let len: usize = count_bytes(text);
    len < usize::MAX && first_line < usize::MAX - len
}

fn is_plain_before(text: &str, at: usize) -> (res: bool)
    ensures
        res == plain_before(text@, at as int),
{
    let bytes = text.as_bytes();
    if at > bytes.len() {
        return false;
    }
    let mut i: usize = 0;
    while i < at
        invariant
            i <= at <= bytes.len(),
            bytes@ == encode_utf8(text@),
            forall|j: int| 0 <= j < i ==> 32 <= #[trigger] bytes@[j] <= 126,
        decreases at - i,
    {
        if bytes[i] < 32 || bytes[i] > 126 {
            return false;
        }
        i += 1;
    }
    true
}

fn does_margin_fit(text: &str, first_line: usize, label_edge: usize) -> (res: bool)
    requires
        lines_fit(text@, first_line as int),
    ensures
        res == margin_fits(text@, first_line as int, label_edge as int),
{
    let indent: usize = match least_indentation(text) {
        Some(indent) => indent,
        None => {
            return false;
        },
    };
    let (widest, lines) = measure_lines(text);
    let count: usize = count_digits(first_line + lines);
    let room: usize = if count >= RENDER_WIDTH - 3 {
        0
    } else {
        RENDER_WIDTH - 3 - count
    };
    let left: usize = if indent >= 6 {
        indent - 6
    } else {
        0
    };
    let cut: usize = if left > 20 {
        left - 16
    } else {
        0
    };
    let right: usize = if widest >= cut {
        widest
    } else {
        cut
    };
    right - cut <= room || left <= 6 || left - 6 <= label_edge
}

fn does_highlight_fit(text: &str, start: usize, end: usize) -> (res: bool)
    ensures
        res == highlight_fits(text@, start as int, end as int),
{
    let len: usize = count_bytes(text);
    start <= end && (len == usize::MAX || end <= len + 1) && is_between_chars(text, start)
        && is_between_chars(text, end)
}

fn does_context_fit(text: &str, first_line: usize) -> (res: bool)
    ensures
        res == context_fits(text@, first_line as int),
{
    do_lines_fit(text, first_line) && does_margin_fit(text, first_line, 0)
}

fn does_evidence_fit(text: &str, first_line: usize, start: usize, end: usize, label: &str) -> (res:
    bool)
    ensures
        res == evidence_fits(text@, first_line as int, start as int, end as int, label@),
{
    let label_len: usize = count_bytes(label);
    if label_len > usize::MAX - 2 || start > usize::MAX - 2 - label_len {
        return false;
    }
    if !do_lines_fit(text, first_line) || !does_highlight_fit(text, start, end) {
        return false;
    }
    let reach: usize = if start < count_bytes(text) {
        if is_plain_before(text, start) {
            start + label_len + 2
        } else {
            label_len + 2
        }
    } else {
        0
    };
    does_margin_fit(text, first_line, reach)
}

/// `annotate_snippets::Renderer::render` on a message of two snippets and a
/// footer, painted with the styled renderer whose line numbers are bright
/// red: the result is the text that the renderer prints. The rendering
/// panics on a highlight that ends more than one past the end of its
/// source, slices the source at the highlight's bounds, counts line numbers
/// up from the first, sums each line's indentation, and, once a line is
/// wider than the room left after the gutter, subtracts a block's least
/// indentation from the right edge of its label; the contract keeps such
/// requests out. The edge is taken no further right than the text shows
/// without the widths of its characters.
#[verifier::external_body]
fn paint_blocks(
    title: &str,
    origin: &str,
    context: &str,
    context_line: usize,
    evidence: &str,
    evidence_line: usize,
    start: usize,
    end: usize,
    label: &str,
    footer: &str,
) -> (res: String)
    requires
        context_fits(context@, context_line as int),
        evidence_fits(evidence@, evidence_line as int, start as int, end as int, label@),
    ensures
        res@ == painted_blocks(
            title@,
            origin@,
            context@,
            context_line as int,
            evidence@,
            evidence_line as int,
            start as int,
            end as int,
            label@,
            footer@,
        ),
{
    let red = anstyle::Style::new().fg_color(Some(anstyle::AnsiColor::BrightRed.into()));
    let shown = Snippet::source(context).origin(origin).line_start(context_line);
    let marked = Snippet::source(evidence).line_start(evidence_line).annotation(
        Level::Error.span(start..end).label(label),
    );
    let message = Level::Error.title(title).snippet(shown).snippet(marked).footer(
        Level::Info.title(footer),
    );
    Renderer::styled().line_no(red).render(message).to_string()
}

/// `annotate_snippets::Renderer::render` on a message that is a title alone,
/// painted as [`paint_blocks`] paints: the result is the text that the
/// renderer prints.
#[verifier::external_body]
fn paint_title(title: &str) -> (res: String)
    ensures
        res@ == painted_title(title@),
{
    let red = anstyle::Style::new().fg_color(Some(anstyle::AnsiColor::BrightRed.into()));
    Renderer::styled().line_no(red).render(Level::Error.title(title)).to_string()
}

impl AnnotatedReport {
    /// The report can be painted: its blocks can be laid out and its
    /// highlight drawn.
    pub open spec fn paintable(&self) -> bool {
        match self {
            AnnotatedReport::Blocks {
                context_text,
                context_line,
                evidence_text,
                evidence_line,
                highlight_start,
                highlight_end,
                label,
                ..
            } => {
                &&& context_fits(context_text@, *context_line as int)
                &&& evidence_fits(
                    evidence_text@,
                    *evidence_line as int,
                    *highlight_start as int,
                    *highlight_end as int,
                    label@,
                )
            },
            AnnotatedReport::Placeholder { .. } => true,
        }
    }

    /// The painted report: what the renderer prints for it, and a line
    /// break.
    pub open spec fn painted(&self) -> Seq<char> {
        match self {
            AnnotatedReport::Blocks {
                title,
                origin,
                context_text,
                context_line,
                evidence_text,
                evidence_line,
                highlight_start,
                highlight_end,
                label,
                footer,
            } => painted_blocks(
                title@,
                origin@,
                context_text@,
                *context_line as int,
                evidence_text@,
                *evidence_line as int,
                *highlight_start as int,
                *highlight_end as int,
                label@,
                footer@,
            ) + "\n"@,
            AnnotatedReport::Placeholder { title } => painted_title(title@) + "\n"@,
        }
    }

    /// Whether the report can be painted.
    pub fn can_paint(&self) -> (res: bool)
        ensures
            res == self.paintable(),
    {
        match self {
            AnnotatedReport::Blocks {
                context_text,
                context_line,
                evidence_text,
                evidence_line,
                highlight_start,
                highlight_end,
                label,
                ..
            } => {
                does_context_fit(context_text.as_str(), *context_line) && does_evidence_fit(
                    evidence_text.as_str(),
                    *evidence_line,
                    *highlight_start,
                    *highlight_end,
                    label.as_str(),
                )
            },
            AnnotatedReport::Placeholder { .. } => true,
        }
    }

    /// Paints the report as text, ended with a line break, or gives `None`
    /// for a report that cannot be painted.
    pub fn paint(&self) -> (res: Option<String>)
        ensures
            res is Some <==> self.paintable(),
            res is Some ==> res.unwrap()@ == self.painted(),
    {
        if !self.can_paint() {
            return None;
        }
        let mut text = match self {
            AnnotatedReport::Blocks {
                title,
                origin,
                context_text,
                context_line,
                evidence_text,
                evidence_line,
                highlight_start,
                highlight_end,
                label,
                footer,
            } => paint_blocks(
                title.as_str(),
                origin.as_str(),
                context_text.as_str(),
                *context_line,
                evidence_text.as_str(),
                *evidence_line,
                *highlight_start,
                *highlight_end,
                label.as_str(),
                footer.as_str(),
            ),
            AnnotatedReport::Placeholder { title } => paint_title(title.as_str()),
        };
        text.append("\n");
        Some(text)
    }
}

} // verus!
