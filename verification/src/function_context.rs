//! Everything captured for one function: its signature, its parser
//! invocations in source order, and its closing token.

use crate::capture::{CaptureModel, SourceCapture};
use crate::invocation::{append_to, appended, ParserSourceCapture};
use vstd::prelude::*;

verus! {

/// The captures of one function.
#[derive(Clone, Debug)]
pub struct FunctionContext {
    pub signature: SourceCapture,
    pub parser_contexts: Option<Vec<ParserSourceCapture>>,
    pub parser_context_failure_index: Option<usize>,
    pub nested_parser_contexts: Option<Vec<ParserSourceCapture>>,
    pub closing_tokens: Option<SourceCapture>,
}

impl Default for FunctionContext {
    fn default() -> (res: Self)
        ensures
            res.signature@ == CaptureModel::empty(),
            res.parser_contexts is None,
            res.parser_context_failure_index is None,
            res.nested_parser_contexts is None,
            res.closing_tokens is None,
    {
        FunctionContext {
            signature: SourceCapture::default(),
            parser_contexts: None,
            parser_context_failure_index: None,
            nested_parser_contexts: None,
            closing_tokens: None,
        }
    }
}

impl AsRef<FunctionContext> for FunctionContext {
    fn as_ref(&self) -> (res: &FunctionContext)
        ensures
            *res == *self,
    {
        self
    }
}

impl FunctionContext {
    /// The invocation whose fragments are merged for a report: the first
    /// one captured, if any.
    pub open spec fn selected(&self) -> Option<ParserSourceCapture> {
        match self.parser_contexts {
            Some(contexts) => if contexts@.len() > 0 {
                Some(contexts@[0])
            } else {
                None
            },
            None => None,
        }
    }

    pub fn signature(&self) -> (res: &SourceCapture)
        ensures
            *res == self.signature,
    {
        &self.signature
    }

    pub fn parser_contexts(&self) -> (res: &Option<Vec<ParserSourceCapture>>)
        ensures
            *res == self.parser_contexts,
    {
        &self.parser_contexts
    }

    pub fn parser_context_failure_index(&self) -> (res: &Option<usize>)
        ensures
            *res == self.parser_context_failure_index,
    {
        &self.parser_context_failure_index
    }

    pub fn nested_parser_contexts(&self) -> (res: &Option<Vec<ParserSourceCapture>>)
        ensures
            *res == self.nested_parser_contexts,
    {
        &self.nested_parser_contexts
    }

    pub fn closing_tokens(&self) -> (res: &Option<SourceCapture>)
        ensures
            *res == self.closing_tokens,
    {
        &self.closing_tokens
    }

    pub fn has_parser_contexts(&self) -> (res: bool)
        ensures
            res == self.parser_contexts is Some,
    {
        self.parser_contexts.is_some()
    }

    pub fn has_nested_parser_contexts(&self) -> (res: bool)
        ensures
            res == self.nested_parser_contexts is Some,
    {
        self.nested_parser_contexts.is_some()
    }

    /// Takes the signature out of `signature_source_capture`, with its text
    /// and line number replaced by the given ones, and leaves that capture
    /// empty.
    pub fn set_signature(
        self,
        signature_text: String,
        line_number: usize,
        signature_source_capture: &mut SourceCapture,
    ) -> (res: Self)
        ensures
            res == (FunctionContext {
                signature: SourceCapture {
                    source_text: signature_text,
                    line_number,
                    ..*old(signature_source_capture)
                },
                ..self
            }),
            final(signature_source_capture)@ == CaptureModel::empty(),
    {
        let mut context = self;
        let mut taken = SourceCapture::default();
        std::mem::swap(&mut taken, signature_source_capture);
        taken.source_text = signature_text;
        taken.line_number = line_number;
        context.signature = taken;
        context
    }

    /// Appends an invocation, after those captured before it.
    pub fn set_parser_context(&mut self, parser_context_source_capture: ParserSourceCapture)
        ensures
            final(self).parser_contexts is Some,
            final(self).parser_contexts.unwrap()@ == appended(
                old(self).parser_contexts,
                parser_context_source_capture,
            ),
            final(self).signature == old(self).signature,
            final(self).parser_context_failure_index == old(self).parser_context_failure_index,
            final(self).nested_parser_contexts == old(self).nested_parser_contexts,
            final(self).closing_tokens == old(self).closing_tokens,
    {
        append_to(&mut self.parser_contexts, parser_context_source_capture);
    }

    /// Records which invocation failed.
    pub fn set_parser_context_failure_index(self, index: usize) -> (res: Self)
        ensures
            res == (FunctionContext { parser_context_failure_index: Some(index), ..self }),
    {
        let mut context = self;
        context.parser_context_failure_index = Some(index);
        context
    }

    /// Appends a nested invocation, after those captured before it.
    pub fn set_nested_parser_context(&mut self, nested_context: ParserSourceCapture)
        ensures
            final(self).nested_parser_contexts is Some,
            final(self).nested_parser_contexts.unwrap()@ == appended(
                old(self).nested_parser_contexts,
                nested_context,
            ),
            final(self).signature == old(self).signature,
            final(self).parser_contexts == old(self).parser_contexts,
            final(self).parser_context_failure_index == old(self).parser_context_failure_index,
            final(self).closing_tokens == old(self).closing_tokens,
    {
        append_to(&mut self.nested_parser_contexts, nested_context);
    }

    pub fn set_closing_tokens(self, closing_tokens_source_capture: SourceCapture) -> (res: Self)
        ensures
            res == (FunctionContext {
                closing_tokens: Some(closing_tokens_source_capture),
                ..self
            }),
    {
        let mut context = self;
        context.closing_tokens = Some(closing_tokens_source_capture);
        context
    }
}

} // verus!
