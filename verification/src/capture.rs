//! A captured fragment of source text with its line and column extent, and
//! the merge that stitches same-line fragments back into one line.

use vstd::prelude::*;
use vstd::string::StringExecFns;

verus! {

/// Why a capture operation could not produce its result.
#[derive(Clone, Copy, Debug, PartialEq, Eq, Structural)]
pub enum CaptureError {
    /// A span length was requested before both columns were set.
    MissingColumns,
    /// No parser-invocation captures are available to merge.
    NoParserContexts,
}

/// A fragment of source text with its location.
#[derive(Debug)]
pub struct SourceCapture {
    pub source_text: String,
    pub line_number: usize,
    pub start_column: Option<usize>,
    pub end_column: Option<usize>,
    pub span_length: Option<usize>,
}

/// The mathematical content of a [`SourceCapture`].
pub ghost struct CaptureModel {
    pub text: Seq<char>,
    pub line: nat,
    pub start: Option<nat>,
    pub end: Option<nat>,
    pub span: Option<nat>,
}

/// A column, or its absence, as a natural number.
pub open spec fn column_view(c: Option<usize>) -> Option<nat> {
    match c {
        Some(n) => Some(n as nat),
        None => None,
    }
}

/// `n` space characters.
pub open spec fn padding(n: nat) -> Seq<char> {
    Seq::new(n, |i: int| ' ')
}

impl CaptureModel {
    /// The capture that was never built nor merged into.
    pub open spec fn empty() -> CaptureModel {
        CaptureModel { text: Seq::empty(), line: 0, start: None, end: None, span: None }
    }

    /// Both columns are set.
    pub open spec fn has_columns(self) -> bool {
        self.start is Some && self.end is Some
    }

    /// Both columns are set and the span does not run backwards.
    pub open spec fn has_span(self) -> bool {
        self.has_columns() && self.start.unwrap() <= self.end.unwrap()
    }

    /// The width of the span, where both columns are set.
    pub open spec fn width(self) -> int
        recommends
            self.has_columns(),
    {
        self.end.unwrap() - self.start.unwrap()
    }

    /// The capture after a first write of `text` at the given extent; a
    /// capture that already holds text stays as it is.
    pub open spec fn built(self, text: Seq<char>, line: nat, start: nat, end: nat) -> CaptureModel {
        if self.text.len() == 0 {
            CaptureModel { text, line, start: Some(start), end: Some(end), span: self.span }
        } else {
            self
        }
    }

    /// Whether `other` can be merged into `self` for `target_line` within
    /// machine limits: a fragment on the target line must carry a forward
    /// span wherever its span is read, the padding must be allocatable and
    /// the running span length must fit in a `usize`.
    pub open spec fn accepts(self, other: CaptureModel, target_line: nat) -> bool {
        other.line == target_line ==> {
            &&& self.start is None ==> other.has_span() && other.start.unwrap() <= isize::MAX
            &&& self.start is Some && self.span is Some ==> other.has_span() && self.span.unwrap()
                + other.width() <= usize::MAX
        }
    }

    /// A capture with a start column also has a span length, which reaches
    /// at least to that column.
    pub open spec fn anchored(self) -> bool {
        self.start is Some ==> self.span is Some && self.start.unwrap() <= self.span.unwrap()
    }

    /// The capture after merging `other` for `target_line`.
    pub open spec fn merged(self, other: CaptureModel, target_line: nat) -> CaptureModel {
        if other.line != target_line {
            self
        } else if self.start is None {
            CaptureModel {
                text: self.text + padding(other.start.unwrap()) + other.text,
                line: target_line,
                start: other.start,
                end: other.end,
                span: Some((other.start.unwrap() + other.width()) as nat),
            }
        } else {
            CaptureModel {
                text: self.text + other.text,
                line: self.line,
                start: self.start,
                end: other.end,
                span: match self.span {
                    Some(k) => Some((k + other.width()) as nat),
                    None => None,
                },
            }
        }
    }
}

/// A merge within machine limits keeps a capture anchored, and a merge of a
/// fragment on the target line leaves a start column behind.
pub proof fn lemma_merge_keeps_anchor(state: CaptureModel, other: CaptureModel, target_line: nat)
    requires
        state.anchored(),
        state.accepts(other, target_line),
    ensures
        state.merged(other, target_line).anchored(),
        state.start is Some || other.line == target_line ==> state.merged(
            other,
            target_line,
        ).start is Some,
{
}

/// A fragment on another line than the target is skipped: the merge leaves
/// the capture as it was.
pub proof fn law_cross_line_merge_skips(state: CaptureModel, other: CaptureModel, target_line: nat)
    requires
        other.line != target_line,
    ensures
        state.merged(other, target_line) == state,
{
}

/// Building is idempotent: once a build has written a text that is not
/// empty, a second build, whatever its arguments, changes nothing.
pub proof fn law_build_first_write_wins(
    state: CaptureModel,
    first_text: Seq<char>,
    first_line: nat,
    first_start: nat,
    first_end: nat,
    second_text: Seq<char>,
    second_line: nat,
    second_start: nat,
    second_end: nat,
)
    requires
        first_text.len() > 0,
    ensures
        state.built(first_text, first_line, first_start, first_end).built(
            second_text,
            second_line,
            second_start,
            second_end,
        ) == state.built(first_text, first_line, first_start, first_end),
{
}

impl View for SourceCapture {
    type V = CaptureModel;

    open spec fn view(&self) -> CaptureModel {
        CaptureModel {
            text: self.source_text@,
            line: self.line_number as nat,
            start: column_view(self.start_column),
            end: column_view(self.end_column),
            span: column_view(self.span_length),
        }
    }
}

impl Clone for SourceCapture {
    fn clone(&self) -> (res: Self)
        ensures
            res == *self,
    {
        SourceCapture {
            source_text: self.source_text.clone(),
            line_number: self.line_number,
            start_column: self.start_column,
            end_column: self.end_column,
            span_length: self.span_length,
        }
    }
}

impl Default for SourceCapture {
    fn default() -> (res: Self)
        ensures
            res@ == CaptureModel::empty(),
    {
        SourceCapture {
            source_text: String::new(),
            line_number: 0,
            start_column: None,
            end_column: None,
            span_length: None,
        }
    }
}

/// The number of bytes that `text` takes in UTF-8.
pub open spec fn byte_len(text: Seq<char>) -> nat {
    vstd::utf8::encode_utf8(text).len()
}

/// A space and a line break take one byte each.
pub proof fn lemma_one_byte_units()
    ensures
        " "@.len() == 1,
        "\n"@.len() == 1,
        " "@[0] == ' ',
        "\n"@[0] == '\n',
        byte_len(" "@) == 1,
        byte_len("\n"@) == 1,
{
    reveal_strlit(" ");
    reveal_strlit("\n");
    assert(vstd::string::is_ascii(" "));
    assert(vstd::string::is_ascii("\n"));
    vstd::string::is_ascii_spec_bytes(" ");
    vstd::string::is_ascii_spec_bytes("\n");
}

/// `str::repeat` on a text of one character: that character, `n` times. The
/// call panics when the capacity overflows, so the bytes asked for stay
/// within `isize::MAX`.
#[verifier::external_body]
pub(crate) fn repeat_unit(unit: &str, n: usize) -> (res: String)
    requires
        unit@.len() == 1,
        n * byte_len(unit@) <= isize::MAX,
    ensures
        res@ == Seq::new(n as nat, |i: int| unit@[0]),
{
    unit.repeat(n)
}

impl SourceCapture {
    /// Replaces the text; the handle that comes back is the capture itself.
    pub fn set_source_text(&mut self, source_text: String) -> (res: &mut Self)
        ensures
            *final(self) == *final(res),
            *res == (SourceCapture { source_text, ..*old(self) }),
    {
        self.source_text = source_text;
        self
    }

    /// Replaces the line number.
    pub fn set_line_number(&mut self, line_number: usize) -> (res: &mut Self)
        ensures
            *final(self) == *final(res),
            *res == (SourceCapture { line_number, ..*old(self) }),
    {
        self.line_number = line_number;
        self
    }

    /// Sets the start column.
    pub fn set_start_column(&mut self, start_column: usize) -> (res: &mut Self)
        ensures
            *final(self) == *final(res),
            *res == (SourceCapture { start_column: Some(start_column), ..*old(self) }),
    {
        self.start_column = Some(start_column);
        self
    }

    /// Sets the end column.
    pub fn set_end_column(&mut self, end_column: usize) -> (res: &mut Self)
        ensures
            *final(self) == *final(res),
            *res == (SourceCapture { end_column: Some(end_column), ..*old(self) }),
    {
        self.end_column = Some(end_column);
        self
    }

    /// Sets the span length.
    pub fn set_span_length(&mut self, span_length: usize) -> (res: &mut Self)
        ensures
            *final(self) == *final(res),
            *res == (SourceCapture { span_length: Some(span_length), ..*old(self) }),
    {
        self.span_length = Some(span_length);
        self
    }

    /// The width of the span, `end_column - start_column`, when both columns
    /// are set; `MissingColumns` when either is not.
    pub fn get_span_length(&self) -> (res: Result<usize, CaptureError>)
        requires
            self@.has_columns() ==> self@.has_span(),
        ensures
            self@.has_columns() ==> res is Ok && res.unwrap() == self@.width(),
            !self@.has_columns() ==> res == Err::<usize, CaptureError>(
                CaptureError::MissingColumns,
            ),
    {
        match (self.start_column, self.end_column) {
            (Some(start), Some(end)) => Ok(end - start),
            _ => Err(CaptureError::MissingColumns),
        }
    }

    /// First write wins: fills an empty capture with `source_text` at the
    /// given line and columns, and leaves a capture that holds text as it is.
    pub fn build(
        self,
        source_text: String,
        line_number: usize,
        start_column: usize,
        end_column: usize,
    ) -> (res: Self)
        ensures
            res@ == self@.built(
                source_text@,
                line_number as nat,
                start_column as nat,
                end_column as nat,
            ),
    {
        let mut capture = self;
        if capture.source_text.as_str().is_empty() {
            capture.source_text = source_text;
            capture.line_number = line_number;
            capture.start_column = Some(start_column);
            capture.end_column = Some(end_column);
        }
        capture
    }

    /// Whether `other` can be merged for `target_line` within machine
    /// limits.
    pub fn accepts(&self, other: &SourceCapture, target_line: usize) -> (res: bool)
        ensures
            res == self@.accepts(other@, target_line as nat),
    {
        if other.line_number != target_line {
            return true;
        }
        match (other.start_column, other.end_column) {
            (Some(start), Some(end)) => {
                if start > end {
                    self.start_column.is_some() && self.span_length.is_none()
                } else if self.start_column.is_none() {
                    start <= isize::MAX as usize
                } else {
                    match self.span_length {
                        Some(k) => end - start <= usize::MAX - k,
                        None => true,
                    }
                }
            },
            _ => self.start_column.is_some() && self.span_length.is_none(),
        }
    }

    /// Absorbs `other` when it lies on `target_line`, and skips it when it
    /// does not. The first fragment absorbed is padded on the left with as
    /// many spaces as its start column, and the span length starts from that
    /// column; later fragments are appended as they are. The end column is
    /// always that of the last fragment absorbed.
    pub fn merge_source(&mut self, other: &SourceCapture, target_line: usize) -> (res: &mut Self)
        requires
            old(self)@.accepts(other@, target_line as nat),
        ensures
            *final(self) == *final(res),
            res@ == old(self)@.merged(other@, target_line as nat),
            other.line_number != target_line ==> *res == *old(self),
    {
        if other.line_number == target_line {
            if self.start_column.is_none() {
                let start = other.start_column.unwrap();
                let width = other.end_column.unwrap() - start;
                self.line_number = target_line;
                self.span_length = Some(start + width);
                proof {
                    lemma_one_byte_units();
                }
                let pad = repeat_unit(" ", start);
                assert(pad@ =~= padding(start as nat));
                self.source_text.append(pad.as_str());
                self.source_text.append(other.source_text.as_str());
                self.start_column = other.start_column;
            } else {
                self.source_text.append(other.source_text.as_str());
                if let Some(k) = self.span_length {
                    let width = other.end_column.unwrap() - other.start_column.unwrap();
                    self.span_length = Some(k + width);
                }
            }
            self.end_column = other.end_column;
        }
        self
    }
}

} // verus!
