//! The error that travels outward from a failed parser, and the report
//! made from it.

use crate::capture::{CaptureError, SourceCapture};
use crate::function_context::FunctionContext;
use crate::invocation::ParserSourceCapture;
use crate::report::{AnnotatedReport, DiagnosticsMode};
use nom::error::ErrorKind;
use vstd::prelude::*;

verus! {

/// `nom::error::ErrorKind`, the host library's classification of a failure,
/// carried through unread.
#[verifier::external_type_specification]
#[verifier::external_body]
pub struct ExErrorKind(ErrorKind);

/// The value propagated on a parse failure.
#[derive(Clone)]
pub struct ContextError<'a> {
    pub message: Option<&'a str>,
    pub context: FunctionContext,
    pub file: Option<&'static str>,
    pub input: Option<&'a str>,
}

/// The title of every report.
pub open spec fn report_title() -> Seq<char> {
    "ContextError"@
}

/// The label under the highlighted span.
pub open spec fn highlight_label() -> Seq<char> {
    "error occurred here"@
}

/// The origin shown when the originating file is not known.
pub open spec fn unknown_origin() -> Seq<char> {
    "unknown"@
}

/// The title shown when no invocation could be merged.
pub open spec fn placeholder_title() -> Seq<char> {
    "HANDLE ALTERNATIVE CASE ERROR FOR PARSERS ON DIFFERENT LINES"@
}

impl<'a> Default for ContextError<'a> {
    fn default() -> (res: Self)
        ensures
            res.is_fresh(),
    {
        ContextError::new()
    }
}

impl<'a> AsRef<ContextError<'a>> for ContextError<'a> {
    fn as_ref(&self) -> (res: &ContextError<'a>)
        ensures
            *res == *self,
    {
        self
    }
}

impl<'a> ContextError<'a> {
    /// Nothing has been recorded: no message, no input, no file, and an
    /// empty context.
    pub open spec fn is_fresh(&self) -> bool {
        &&& self.message is None
        &&& self.input is None
        &&& self.file is None
        &&& self.context.signature@ == crate::capture::CaptureModel::empty()
        &&& self.context.parser_contexts is None
        &&& self.context.parser_context_failure_index is None
        &&& self.context.nested_parser_contexts is None
        &&& self.context.closing_tokens is None
    }

    /// The origin label of the context block: the originating file, or the
    /// placeholder for an unknown one.
    pub open spec fn origin_label(&self) -> Seq<char> {
        match self.file {
            Some(file) => file@,
            None => unknown_origin(),
        }
    }

    /// The footer: the raw input being parsed, or nothing.
    pub open spec fn footer_text(&self) -> Seq<char> {
        match self.input {
            Some(input) => input@,
            None => Seq::empty(),
        }
    }

    /// A report can be made within machine limits: the selected invocation,
    /// if there is one, can be merged, and the end of its highlight fits in
    /// a `usize`.
    pub open spec fn reportable(&self) -> bool {
        match self.context.selected() {
            Some(invocation) => invocation.combinable() && (invocation.combined().span is Some
                ==> invocation.combined().span.unwrap() < usize::MAX),
            None => true,
        }
    }

    /// `report` is what this error shows: two blocks and a footer where an
    /// invocation was captured, the placeholder where none was.
    pub open spec fn shows(&self, report: AnnotatedReport) -> bool {
        match (self.context.selected(), report) {
            (
                Some(invocation),
                AnnotatedReport::Blocks {
                    title,
                    origin,
                    context_text,
                    context_line,
                    evidence_text,
                    evidence_line,
                    highlight_start,
                    highlight_end,
                    label,
                    footer,
                },
            ) => {
                let evidence = invocation.combined();
                &&& evidence.start is Some
                &&& evidence.span is Some
                &&& title@ == report_title()
                &&& origin@ == self.origin_label()
                &&& context_text@ == self.context.signature@.text
                &&& context_line == self.context.signature@.line
                &&& evidence_text@ == evidence.text
                &&& evidence_line == evidence.line
                &&& highlight_start == evidence.start.unwrap()
                &&& highlight_end == evidence.span.unwrap() + 1
                &&& label@ == highlight_label()
                &&& footer@ == self.footer_text()
            },
            (None, AnnotatedReport::Placeholder { title }) => title@ == placeholder_title(),
            _ => false,
        }
    }

    pub fn new() -> (res: Self)
        ensures
            res.is_fresh(),
    {
        ContextError { message: None, context: FunctionContext::default(), file: None, input: None }
    }

    pub fn message(&self) -> (res: &Option<&'a str>)
        ensures
            *res == self.message,
    {
        &self.message
    }

    pub fn context(&self) -> (res: &FunctionContext)
        ensures
            *res == self.context,
    {
        &self.context
    }

    pub fn input(&self) -> (res: &Option<&'a str>)
        ensures
            *res == self.input,
    {
        &self.input
    }

    pub fn set_message(&mut self, message: &'a str)
        ensures
            *final(self) == (ContextError { message: Some(message), ..*old(self) }),
    {
        self.message = Some(message);
    }

    pub fn set_context(&mut self, context: FunctionContext)
        ensures
            *final(self) == (ContextError { context, ..*old(self) }),
    {
        self.context = context;
    }

    pub fn set_input(&mut self, input: &'a str)
        ensures
            *final(self) == (ContextError { input: Some(input), ..*old(self) }),
    {
        self.input = Some(input);
    }

    /// A failure classified by the host library: the classification is
    /// dropped and a fresh error comes back.
    pub fn from_error_kind(input: &'a str, kind: ErrorKind) -> (res: Self)
        ensures
            res.is_fresh(),
    {
        ContextError::new()
    }

    /// A failure on an expected character: a fresh error comes back.
    pub fn from_char(input: &'a str, expected: char) -> (res: Self)
        ensures
            res.is_fresh(),
    {
        ContextError::new()
    }

    /// The earlier error wins: `other` comes back unchanged.
    pub fn append(input: &'a str, kind: ErrorKind, other: Self) -> (res: Self)
        ensures
            res == other,
    {
        other
    }

    /// The invocation that a report is made from, if any was captured.
    pub fn selected_invocation(&self) -> (res: Option<&ParserSourceCapture>)
        ensures
            res is Some <==> self.context.selected() is Some,
            res is Some ==> *res.unwrap() == self.context.selected().unwrap(),
    {
        match &self.context.parser_contexts {
            Some(contexts) => if contexts.len() > 0 {
                Some(&contexts[0])
            } else {
                None
            },
            None => None,
        }
    }

    /// Merges the fragments of the selected invocation into one capture of
    /// its source line; `NoParserContexts` when no invocation was captured.
    pub fn combine_parser_sources(&self) -> (res: Result<SourceCapture, CaptureError>)
        requires
            self.context.selected() is Some ==> self.context.selected().unwrap().combinable(),
        ensures
            match self.context.selected() {
                Some(invocation) => res is Ok && res.unwrap()@ == invocation.combined(),
                None => res is Err && res.unwrap_err() == CaptureError::NoParserContexts,
            },
    {
        match self.selected_invocation() {
            Some(invocation) => Ok(invocation.combine()),
            None => Err(CaptureError::NoParserContexts),
        }
    }

    /// Whether a report can be made within machine limits.
    pub fn can_report(&self) -> (res: bool)
        ensures
            res == self.reportable(),
    {
        match self.selected_invocation() {
            Some(invocation) => {
                if !invocation.can_combine() {
                    return false;
                }
                let merged = invocation.combine();
                match merged.span_length {
                    Some(span) => span < usize::MAX,
                    None => true,
                }
            },
            None => true,
        }
    }

    /// The report for this error: the signature as context, the merged
    /// invocation as evidence, highlighted from its start column to one past
    /// its span length, and the raw input as footer; or the placeholder when
    /// no invocation was captured.
    pub fn annotation(&self) -> (res: AnnotatedReport)
        requires
            self.reportable(),
        ensures
            self.shows(res),
    {
        match self.selected_invocation() {
            Some(invocation) => {
                proof {
                    invocation.lemma_combined_anchored();
                    reveal_strlit("");
                    assert(""@ =~= Seq::<char>::empty());
                }
                let merged = invocation.combine();
                AnnotatedReport::Blocks {
                    title: "ContextError".to_owned(),
                    origin: match self.file {
                        Some(file) => file.to_owned(),
                        None => "unknown".to_owned(),
                    },
                    context_text: self.context.signature.source_text.clone(),
                    context_line: self.context.signature.line_number,
                    evidence_text: merged.source_text,
                    evidence_line: merged.line_number,
                    highlight_start: merged.start_column.unwrap(),
                    highlight_end: merged.span_length.unwrap() + 1,
                    label: "error occurred here".to_owned(),
                    footer: match self.input {
                        Some(input) => input.to_owned(),
                        None => "".to_owned(),
                    },
                }
            },
            None => AnnotatedReport::Placeholder {
                title: "HANDLE ALTERNATIVE CASE ERROR FOR PARSERS ON DIFFERENT LINES".to_owned(),
            },
        }
    }

    /// The report as painted text, or `None` where the report cannot be
    /// painted.
    pub fn fmt_annotation(&self) -> (res: Option<String>)
        requires
            self.reportable(),
        ensures
            res is Some <==> exists|report: AnnotatedReport| #[trigger]
                self.shows(report) && report.paintable(),
            res is Some ==> exists|report: AnnotatedReport| #[trigger]
                self.shows(report) && report.paintable() && res.unwrap()@ == report.painted(),
    {
        let report = self.annotation();
        report.paint()
    }

    /// What the error prints: nothing at all with diagnostics disabled, the
    /// painted report with diagnostics enabled.
    pub fn render(&self, mode: DiagnosticsMode) -> (res: Option<String>)
        requires
            mode == DiagnosticsMode::Enabled ==> self.reportable(),
        ensures
            mode == DiagnosticsMode::Disabled ==> res is Some && res.unwrap()@ == Seq::<
                char,
            >::empty(),
            mode == DiagnosticsMode::Enabled ==> (res is Some <==> exists|report: AnnotatedReport|
                #[trigger] self.shows(report) && report.paintable()),
            mode == DiagnosticsMode::Enabled && res is Some ==> exists|report: AnnotatedReport|
                #[trigger] self.shows(report) && report.paintable() && res.unwrap()@
                    == report.painted(),
    {
        match mode {
            DiagnosticsMode::Disabled => Some(String::new()),
            DiagnosticsMode::Enabled => self.fmt_annotation(),
        }
    }
}

} // verus!
