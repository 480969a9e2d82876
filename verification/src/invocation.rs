//! The fragments captured at one combinator call site.

use crate::capture::{lemma_merge_keeps_anchor, CaptureModel, SourceCapture};
use vstd::prelude::*;

verus! {

/// One combinator call site, in source order: an optional destructuring
/// pattern, the identifier, the call expression and the input expression.
#[derive(Clone, Debug)]
pub struct ParserSourceCapture {
    pub binding_pattern: Option<SourceCapture>,
    pub ident: SourceCapture,
    pub pattern: SourceCapture,
    pub nested_parsers: Option<Vec<SourceCapture>>,
    pub input: SourceCapture,
}

/// The list that holds `item` after what `list` held, if anything.
pub open spec fn appended<T>(list: Option<Vec<T>>, item: T) -> Seq<T> {
    match list {
        Some(v) => v@.push(item),
        None => seq![item],
    }
}

/// Appends `item` to the list, creating the list when there is none yet.
pub fn append_to<T>(list: &mut Option<Vec<T>>, item: T)
    ensures
        *final(list) is Some,
        final(list).unwrap()@ == appended(*old(list), item),
{
    let mut items: Vec<T> = Vec::new();
    if let Some(held) = list.take() {
        items = held;
    }
    items.push(item);
    *list = Some(items);
}

impl Default for ParserSourceCapture {
    fn default() -> (res: Self)
        ensures
            res.binding_pattern is None,
            res.nested_parsers is None,
            res.ident@ == CaptureModel::empty(),
            res.pattern@ == CaptureModel::empty(),
            res.input@ == CaptureModel::empty(),
    {
        ParserSourceCapture {
            binding_pattern: None,
            ident: SourceCapture::default(),
            pattern: SourceCapture::default(),
            nested_parsers: None,
            input: SourceCapture::default(),
        }
    }
}

impl AsRef<ParserSourceCapture> for ParserSourceCapture {
    fn as_ref(&self) -> (res: &ParserSourceCapture)
        ensures
            *res == *self,
    {
        self
    }
}

impl ParserSourceCapture {
    /// The line every fragment is merged for: the identifier's line.
    pub open spec fn target_line(&self) -> nat {
        self.ident.line_number as nat
    }

    /// The aggregate before the identifier is merged: the binding pattern
    /// merged into an empty capture, or the empty capture.
    pub open spec fn bound(&self) -> CaptureModel {
        match self.binding_pattern {
            Some(binding) => CaptureModel::empty().merged(binding@, self.target_line()),
            None => CaptureModel::empty(),
        }
    }

    /// The whole invocation as one capture: binding pattern (if present),
    /// identifier, call expression and input, merged in that order for the
    /// identifier's line.
    pub open spec fn combined(&self) -> CaptureModel {
        let line = self.target_line();
        self.bound().merged(self.ident@, line).merged(self.pattern@, line).merged(self.input@, line)
    }

    /// Every merge of [`Self::combined`] stays within machine limits.
    pub open spec fn combinable(&self) -> bool {
        let line = self.target_line();
        let with_ident = self.bound().merged(self.ident@, line);
        let with_pattern = with_ident.merged(self.pattern@, line);
        &&& match self.binding_pattern {
            Some(binding) => CaptureModel::empty().accepts(binding@, line),
            None => true,
        }
        &&& self.bound().accepts(self.ident@, line)
        &&& with_ident.accepts(self.pattern@, line)
        &&& with_pattern.accepts(self.input@, line)
    }

    /// The aggregate of an invocation always has a start column and a span
    /// length that reaches at least to it: the identifier lies on its own
    /// line, so at least one fragment is merged.
    pub proof fn lemma_combined_anchored(&self)
        requires
            self.combinable(),
        ensures
            self.combined().start is Some,
            self.combined().span is Some,
            self.combined().start.unwrap() <= self.combined().span.unwrap(),
    {
        let line = self.target_line();
        let with_ident = self.bound().merged(self.ident@, line);
        let with_pattern = with_ident.merged(self.pattern@, line);
        if let Some(binding) = self.binding_pattern {
            lemma_merge_keeps_anchor(CaptureModel::empty(), binding@, line);
        }
        lemma_merge_keeps_anchor(self.bound(), self.ident@, line);
        lemma_merge_keeps_anchor(with_ident, self.pattern@, line);
        lemma_merge_keeps_anchor(with_pattern, self.input@, line);
    }

    /// Whether the fragments can be merged within machine limits.
    pub fn can_combine(&self) -> (res: bool)
        ensures
            res == self.combinable(),
    {
        let line = self.ident.line_number;
        let mut state = SourceCapture::default();
        if let Some(binding) = &self.binding_pattern {
            if !state.accepts(binding, line) {
                return false;
            }
            state.merge_source(binding, line);
        }
        if !state.accepts(&self.ident, line) {
            return false;
        }
        state.merge_source(&self.ident, line);
        if !state.accepts(&self.pattern, line) {
            return false;
        }
        state.merge_source(&self.pattern, line);
        state.accepts(&self.input, line)
    }

    /// Merges the fragments, in source order, into one capture of the whole
    /// invocation on the identifier's line.
    pub fn combine(&self) -> (res: SourceCapture)
        requires
            self.combinable(),
        ensures
            res@ == self.combined(),
    {
        let line = self.ident.line_number;
        let mut state = SourceCapture::default();
        if let Some(binding) = &self.binding_pattern {
            state.merge_source(binding, line);
        }
        state.merge_source(&self.ident, line);
        state.merge_source(&self.pattern, line);
        state.merge_source(&self.input, line);
        state
    }

    pub fn binding_pattern(&self) -> (res: &Option<SourceCapture>)
        ensures
            *res == self.binding_pattern,
    {
        &self.binding_pattern
    }

    pub fn ident(&self) -> (res: &SourceCapture)
        ensures
            *res == self.ident,
    {
        &self.ident
    }

    pub fn pattern(&self) -> (res: &SourceCapture)
        ensures
            *res == self.pattern,
    {
        &self.pattern
    }

    pub fn nested_parsers(&self) -> (res: &Option<Vec<SourceCapture>>)
        ensures
            *res == self.nested_parsers,
    {
        &self.nested_parsers
    }

    pub fn input(&self) -> (res: &SourceCapture)
        ensures
            *res == self.input,
    {
        &self.input
    }

    pub fn set_binding_pattern(&mut self, binding_pattern: SourceCapture)
        ensures
            *final(self) == (ParserSourceCapture {
                binding_pattern: Some(binding_pattern),
                ..*old(self)
            }),
    {
        self.binding_pattern = Some(binding_pattern);
    }

    pub fn set_ident(&mut self, ident_source_capture: &SourceCapture)
        ensures
            *final(self) == (ParserSourceCapture { ident: *ident_source_capture, ..*old(self) }),
    {
        self.ident = ident_source_capture.clone();
    }

    pub fn set_pattern(&mut self, pattern_source_capture: &SourceCapture)
        ensures
            *final(self) == (ParserSourceCapture {
                pattern: *pattern_source_capture,
                ..*old(self)
            }),
    {
        self.pattern = pattern_source_capture.clone();
    }

    pub fn set_input(&mut self, input_source_capture: &SourceCapture)
        ensures
            *final(self) == (ParserSourceCapture { input: *input_source_capture, ..*old(self) }),
    {
        self.input = input_source_capture.clone();
    }

    /// Appends a copy of `parser_source_capture` to the nested captures.
    pub fn push_nested_parser_source(&mut self, parser_source_capture: &SourceCapture)
        ensures
            final(self).nested_parsers is Some,
            final(self).nested_parsers.unwrap()@ == appended(
                old(self).nested_parsers,
                *parser_source_capture,
            ),
            final(self).binding_pattern == old(self).binding_pattern,
            final(self).ident == old(self).ident,
            final(self).pattern == old(self).pattern,
            final(self).input == old(self).input,
    {
        append_to(&mut self.nested_parsers, parser_source_capture.clone());
    }
}

} // verus!
