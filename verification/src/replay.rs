//! The replay form of the captures: a literal description of a value from
//! which an equal value can be rebuilt somewhere else.

use crate::capture::SourceCapture;
use crate::error::ContextError;
use crate::function_context::FunctionContext;
use crate::invocation::ParserSourceCapture;
use vstd::prelude::*;

verus! {

/// The kinds of record that a replay form can hold.
#[derive(Clone, Copy, Debug, PartialEq, Eq, Structural)]
pub enum RecordKind {
    SourceCapture,
    ParserSourceCapture,
    FunctionContext,
    ContextError,
}

/// A literal description of a value: owned texts, borrowed texts and
/// numbers, the file of the place where the description is read, optional
/// values, lists, and records with their fields in declaration order.
#[derive(Debug)]
pub enum ReplayValue {
    Text(String),
    Slice(String),
    Number(usize),
    CallSite,
    Absent,
    Present(Box<ReplayValue>),
    List(Vec<ReplayValue>),
    Record(RecordKind, Vec<ReplayValue>),
}

/// `replay` describes the optional number `value`.
pub open spec fn spells_number(value: Option<usize>, replay: ReplayValue) -> bool {
    match value {
        Some(n) => replay matches ReplayValue::Present(inner) && *inner == ReplayValue::Number(n),
        None => replay is Absent,
    }
}

/// `replay` describes the capture `value`: a record of its five fields.
pub open spec fn spells_capture(value: SourceCapture, replay: ReplayValue) -> bool {
    replay matches ReplayValue::Record(kind, fields) && {
        &&& kind == RecordKind::SourceCapture
        &&& fields@.len() == 5
        &&& fields@[0] == ReplayValue::Text(value.source_text)
        &&& fields@[1] == ReplayValue::Number(value.line_number)
        &&& spells_number(value.start_column, fields@[2])
        &&& spells_number(value.end_column, fields@[3])
        &&& spells_number(value.span_length, fields@[4])
    }
}

/// `replay` describes the optional capture `value`.
pub open spec fn spells_optional_capture(value: Option<SourceCapture>, replay: ReplayValue) -> bool {
    match value {
        Some(capture) => replay matches ReplayValue::Present(inner) && spells_capture(
            capture,
            *inner,
        ),
        None => replay is Absent,
    }
}

/// `replay` describes the list of captures `values`, item by item.
pub open spec fn spells_captures(values: Seq<SourceCapture>, replay: ReplayValue) -> bool {
    replay matches ReplayValue::List(items) && {
        &&& items@.len() == values.len()
        &&& forall|i: int|
            0 <= i < values.len() ==> spells_capture(#[trigger] values[i], items@[i])
    }
}

/// `replay` describes the optional list of captures `value`.
pub open spec fn spells_optional_captures(
    value: Option<Vec<SourceCapture>>,
    replay: ReplayValue,
) -> bool {
    match value {
        Some(list) => replay matches ReplayValue::Present(inner) && spells_captures(
            list@,
            *inner,
        ),
        None => replay is Absent,
    }
}

/// `replay` describes the invocation `value`: a record of its five fields.
pub open spec fn spells_invocation(value: ParserSourceCapture, replay: ReplayValue) -> bool {
    replay matches ReplayValue::Record(kind, fields) && {
        &&& kind == RecordKind::ParserSourceCapture
        &&& fields@.len() == 5
        &&& spells_optional_capture(value.binding_pattern, fields@[0])
        &&& spells_capture(value.ident, fields@[1])
        &&& spells_capture(value.pattern, fields@[2])
        &&& spells_optional_captures(value.nested_parsers, fields@[3])
        &&& spells_capture(value.input, fields@[4])
    }
}

/// `replay` describes the list of invocations `values`, item by item.
pub open spec fn spells_invocations(values: Seq<ParserSourceCapture>, replay: ReplayValue) -> bool {
    replay matches ReplayValue::List(items) && {
        &&& items@.len() == values.len()
        &&& forall|i: int|
            0 <= i < values.len() ==> spells_invocation(#[trigger] values[i], items@[i])
    }
}

/// `replay` describes the optional list of invocations `value`.
pub open spec fn spells_optional_invocations(
    value: Option<Vec<ParserSourceCapture>>,
    replay: ReplayValue,
) -> bool {
    match value {
        Some(list) => replay matches ReplayValue::Present(inner) && spells_invocations(
            list@,
            *inner,
        ),
        None => replay is Absent,
    }
}

/// `replay` describes the function context `value`: a record of its five
/// fields.
pub open spec fn spells_context(value: FunctionContext, replay: ReplayValue) -> bool {
    replay matches ReplayValue::Record(kind, fields) && {
        &&& kind == RecordKind::FunctionContext
        &&& fields@.len() == 5
        &&& spells_capture(value.signature, fields@[0])
        &&& spells_optional_invocations(value.parser_contexts, fields@[1])
        &&& spells_number(value.parser_context_failure_index, fields@[2])
        &&& spells_optional_invocations(value.nested_parser_contexts, fields@[3])
        &&& spells_optional_capture(value.closing_tokens, fields@[4])
    }
}

/// `replay` describes the optional borrowed text `value`.
pub open spec fn spells_slice(value: Option<&str>, replay: ReplayValue) -> bool {
    match value {
        Some(text) => replay matches ReplayValue::Present(inner) && (
        *inner matches ReplayValue::Slice(held) && held@ == text@),
        None => replay is Absent,
    }
}

/// `replay` describes the error `value`: a record of its message, its
/// context, the file of the place where it is read, and its input. The
/// error's own file is left out.
pub open spec fn spells_error(value: ContextError, replay: ReplayValue) -> bool {
    replay matches ReplayValue::Record(kind, fields) && {
        &&& kind == RecordKind::ContextError
        &&& fields@.len() == 4
        &&& spells_slice(value.message, fields@[0])
        &&& spells_context(value.context, fields@[1])
        &&& fields@[2] matches ReplayValue::Present(inner) && *inner is CallSite
        &&& spells_slice(value.input, fields@[3])
    }
}

/// The replay form of an optional number.
pub fn encode_number(value: Option<usize>) -> (res: ReplayValue)
    ensures
        spells_number(value, res),
{
    match value {
        Some(n) => ReplayValue::Present(Box::new(ReplayValue::Number(n))),
        None => ReplayValue::Absent,
    }
}

/// The replay form of a capture.
pub fn encode_capture(value: &SourceCapture) -> (res: ReplayValue)
    ensures
        spells_capture(*value, res),
{
    let mut fields: Vec<ReplayValue> = Vec::new();
    fields.push(ReplayValue::Text(value.source_text.clone()));
    fields.push(ReplayValue::Number(value.line_number));
    fields.push(encode_number(value.start_column));
    fields.push(encode_number(value.end_column));
    fields.push(encode_number(value.span_length));
    ReplayValue::Record(RecordKind::SourceCapture, fields)
}

/// The replay form of an optional capture.
pub fn encode_optional_capture(value: &Option<SourceCapture>) -> (res: ReplayValue)
    ensures
        spells_optional_capture(*value, res),
{
    match value {
        Some(capture) => ReplayValue::Present(Box::new(encode_capture(capture))),
        None => ReplayValue::Absent,
    }
}

/// The replay form of an optional list of captures.
pub fn encode_optional_captures(value: &Option<Vec<SourceCapture>>) -> (res: ReplayValue)
    ensures
        spells_optional_captures(*value, res),
{
    match value {
        Some(list) => {
            let mut items: Vec<ReplayValue> = Vec::new();
            let mut i: usize = 0;
            while i < list.len()
                invariant
                    i <= list.len(),
                    items@.len() == i,
                    forall|j: int| 0 <= j < i ==> spells_capture(#[trigger] list@[j], items@[j]),
                decreases list.len() - i,
            {
                items.push(encode_capture(&list[i]));
                i += 1;
            }
            ReplayValue::Present(Box::new(ReplayValue::List(items)))
        },
        None => ReplayValue::Absent,
    }
}

/// The replay form of an invocation.
pub fn encode_invocation(value: &ParserSourceCapture) -> (res: ReplayValue)
    ensures
        spells_invocation(*value, res),
{
    let mut fields: Vec<ReplayValue> = Vec::new();
    fields.push(encode_optional_capture(&value.binding_pattern));
    fields.push(encode_capture(&value.ident));
    fields.push(encode_capture(&value.pattern));
    fields.push(encode_optional_captures(&value.nested_parsers));
    fields.push(encode_capture(&value.input));
    ReplayValue::Record(RecordKind::ParserSourceCapture, fields)
}

/// The replay form of an optional list of invocations.
pub fn encode_optional_invocations(value: &Option<Vec<ParserSourceCapture>>) -> (res: ReplayValue)
    ensures
        spells_optional_invocations(*value, res),
{
    match value {
        Some(list) => {
            let mut items: Vec<ReplayValue> = Vec::new();
            let mut i: usize = 0;
            while i < list.len()
                invariant
                    i <= list.len(),
                    items@.len() == i,
                    forall|j: int|
                        0 <= j < i ==> spells_invocation(#[trigger] list@[j], items@[j]),
                decreases list.len() - i,
            {
                items.push(encode_invocation(&list[i]));
                i += 1;
            }
            ReplayValue::Present(Box::new(ReplayValue::List(items)))
        },
        None => ReplayValue::Absent,
    }
}

/// The replay form of a function context.
pub fn encode_context(value: &FunctionContext) -> (res: ReplayValue)
    ensures
        spells_context(*value, res),
{
    let mut fields: Vec<ReplayValue> = Vec::new();
    fields.push(encode_capture(&value.signature));
    fields.push(encode_optional_invocations(&value.parser_contexts));
    fields.push(encode_number(value.parser_context_failure_index));
    fields.push(encode_optional_invocations(&value.nested_parser_contexts));
    fields.push(encode_optional_capture(&value.closing_tokens));
    ReplayValue::Record(RecordKind::FunctionContext, fields)
}

/// The replay form of an optional borrowed text.
pub fn encode_slice(value: Option<&str>) -> (res: ReplayValue)
    ensures
        spells_slice(value, res),
{
    match value {
        Some(text) => ReplayValue::Present(Box::new(ReplayValue::Slice(text.to_owned()))),
        None => ReplayValue::Absent,
    }
}

/// The replay form of an error.
pub fn encode_error(value: &ContextError) -> (res: ReplayValue)
    ensures
        spells_error(*value, res),
{
    let mut fields: Vec<ReplayValue> = Vec::new();
    fields.push(encode_slice(value.message));
    fields.push(encode_context(&value.context));
    fields.push(ReplayValue::Present(Box::new(ReplayValue::CallSite)));
    fields.push(encode_slice(value.input));
    ReplayValue::Record(RecordKind::ContextError, fields)
}

/// Two optional texts hold the same characters.
pub open spec fn same_text(a: Option<&str>, b: Option<&str>) -> bool {
    match (a, b) {
        (Some(x), Some(y)) => x@ == y@,
        (None, None) => true,
        _ => false,
    }
}

/// Two errors are equal field by field, their files apart.
pub open spec fn same_error(a: ContextError, b: ContextError) -> bool {
    &&& same_text(a.message, b.message)
    &&& same_context(a.context, b.context)
    &&& same_text(a.input, b.input)
}

/// Two optional lists of captures hold the same captures in the same order.
pub open spec fn same_captures(a: Option<Vec<SourceCapture>>, b: Option<Vec<SourceCapture>>) -> bool {
    match (a, b) {
        (Some(x), Some(y)) => x@ == y@,
        (None, None) => true,
        _ => false,
    }
}

/// Two invocations are equal field by field.
pub open spec fn same_invocation(a: ParserSourceCapture, b: ParserSourceCapture) -> bool {
    &&& a.binding_pattern == b.binding_pattern
    &&& a.ident == b.ident
    &&& a.pattern == b.pattern
    &&& same_captures(a.nested_parsers, b.nested_parsers)
    &&& a.input == b.input
}

/// Two optional lists of invocations hold equal invocations in the same
/// order.
pub open spec fn same_invocations(
    a: Option<Vec<ParserSourceCapture>>,
    b: Option<Vec<ParserSourceCapture>>,
) -> bool {
    match (a, b) {
        (Some(x), Some(y)) => {
            &&& x@.len() == y@.len()
            &&& forall|i: int| 0 <= i < x@.len() ==> same_invocation(#[trigger] x@[i], y@[i])
        },
        (None, None) => true,
        _ => false,
    }
}

/// Two function contexts are equal field by field.
pub open spec fn same_context(a: FunctionContext, b: FunctionContext) -> bool {
    &&& a.signature == b.signature
    &&& same_invocations(a.parser_contexts, b.parser_contexts)
    &&& a.parser_context_failure_index == b.parser_context_failure_index
    &&& same_invocations(a.nested_parser_contexts, b.nested_parser_contexts)
    &&& a.closing_tokens == b.closing_tokens
}

/// A replay form describes at most one capture.
pub proof fn lemma_capture_unique(a: SourceCapture, b: SourceCapture, replay: ReplayValue)
    requires
        spells_capture(a, replay),
        spells_capture(b, replay),
    ensures
        a == b,
{
}

/// A replay form describes at most one list of captures.
pub proof fn lemma_captures_unique(
    a: Option<Vec<SourceCapture>>,
    b: Option<Vec<SourceCapture>>,
    replay: ReplayValue,
)
    requires
        spells_optional_captures(a, replay),
        spells_optional_captures(b, replay),
    ensures
        same_captures(a, b),
{
    if let (Some(x), Some(y)) = (a, b) {
        let items = replay->Present_0->List_0;
        assert forall|i: int| 0 <= i < x@.len() implies x@[i] == y@[i] by {
            lemma_capture_unique(x@[i], y@[i], items@[i]);
        }
        assert(x@ =~= y@);
    }
}

/// A replay form describes at most one invocation.
pub proof fn lemma_invocation_unique(
    a: ParserSourceCapture,
    b: ParserSourceCapture,
    replay: ReplayValue,
)
    requires
        spells_invocation(a, replay),
        spells_invocation(b, replay),
    ensures
        same_invocation(a, b),
{
    let fields = replay->Record_1;
    if let (Some(x), Some(y)) = (a.binding_pattern, b.binding_pattern) {
        lemma_capture_unique(x, y, *fields@[0]->Present_0);
    }
    lemma_capture_unique(a.ident, b.ident, fields@[1]);
    lemma_capture_unique(a.pattern, b.pattern, fields@[2]);
    lemma_captures_unique(a.nested_parsers, b.nested_parsers, fields@[3]);
    lemma_capture_unique(a.input, b.input, fields@[4]);
}

/// A replay form describes at most one list of invocations.
pub proof fn lemma_invocations_unique(
    a: Option<Vec<ParserSourceCapture>>,
    b: Option<Vec<ParserSourceCapture>>,
    replay: ReplayValue,
)
    requires
        spells_optional_invocations(a, replay),
        spells_optional_invocations(b, replay),
    ensures
        same_invocations(a, b),
{
    if let (Some(x), Some(y)) = (a, b) {
        let items = replay->Present_0->List_0;
        assert forall|i: int| 0 <= i < x@.len() implies same_invocation(
            #[trigger] x@[i],
            y@[i],
        ) by {
            lemma_invocation_unique(x@[i], y@[i], items@[i]);
        }
    }
}

/// Round trip: whatever function context is read back from the replay form
/// of `value` is equal to `value`, field by field.
pub proof fn law_replay_round_trip(
    value: FunctionContext,
    replay: ReplayValue,
    read_back: FunctionContext,
)
    requires
        spells_context(value, replay),
        spells_context(read_back, replay),
    ensures
        same_context(read_back, value),
{
    let fields = replay->Record_1;
    lemma_capture_unique(read_back.signature, value.signature, fields@[0]);
    lemma_invocations_unique(read_back.parser_contexts, value.parser_contexts, fields@[1]);
    lemma_invocations_unique(
        read_back.nested_parser_contexts,
        value.nested_parser_contexts,
        fields@[3],
    );
    if let (Some(x), Some(y)) = (read_back.closing_tokens, value.closing_tokens) {
        lemma_capture_unique(x, y, *fields@[4]->Present_0);
    }
}

/// Round trip for errors: whatever error is read back from the replay form
/// of `value` is equal to `value`, field by field, its file apart.
pub proof fn law_error_round_trip(value: ContextError, replay: ReplayValue, read_back: ContextError)
    requires
        spells_error(value, replay),
        spells_error(read_back, replay),
    ensures
        same_error(read_back, value),
{
    let fields = replay->Record_1;
    law_replay_round_trip(value.context, fields@[1], read_back.context);
}

/// Reads an optional borrowed text back; `None` where the replay form
/// describes none.
pub fn decode_slice<'a>(replay: &'a ReplayValue) -> (res: Option<Option<&'a str>>)
    ensures
        res is Some ==> spells_slice(res.unwrap(), *replay),
        res is None ==> forall|value: Option<&str>| !spells_slice(value, *replay),
{
    match replay {
        ReplayValue::Absent => Some(None),
        ReplayValue::Present(inner) => match &**inner {
            ReplayValue::Slice(held) => Some(Some(held.as_str())),
            _ => None,
        },
        _ => None,
    }
}

/// Reads an optional number back; `None` where the replay form describes
/// none.
pub fn decode_number(replay: &ReplayValue) -> (res: Option<Option<usize>>)
    ensures
        res is Some ==> spells_number(res.unwrap(), *replay),
        res is None ==> forall|value: Option<usize>| !spells_number(value, *replay),
{
    match replay {
        ReplayValue::Absent => Some(None),
        ReplayValue::Present(inner) => match &**inner {
            ReplayValue::Number(n) => Some(Some(*n)),
            _ => None,
        },
        _ => None,
    }
}

/// Reads a capture back; `None` where the replay form describes none.
pub fn decode_capture(replay: &ReplayValue) -> (res: Option<SourceCapture>)
    ensures
        res is Some ==> spells_capture(res.unwrap(), *replay),
        res is None ==> forall|value: SourceCapture| !spells_capture(value, *replay),
{
    match replay {
        ReplayValue::Record(RecordKind::SourceCapture, fields) => {
            if fields.len() != 5 {
                return None;
            }
            let source_text = match &fields[0] {
                ReplayValue::Text(text) => text.clone(),
                _ => {
                    return None;
                },
            };
            let line_number = match &fields[1] {
                ReplayValue::Number(n) => *n,
                _ => {
                    return None;
                },
            };
            let start_column = match decode_number(&fields[2]) {
                Some(column) => column,
                None => {
                    return None;
                },
            };
            let end_column = match decode_number(&fields[3]) {
                Some(column) => column,
                None => {
                    return None;
                },
            };
            let span_length = match decode_number(&fields[4]) {
                Some(length) => length,
                None => {
                    return None;
                },
            };
            Some(SourceCapture { source_text, line_number, start_column, end_column, span_length })
        },
        _ => None,
    }
}

/// Reads an optional capture back; `None` where the replay form describes
/// none.
pub fn decode_optional_capture(replay: &ReplayValue) -> (res: Option<Option<SourceCapture>>)
    ensures
        res is Some ==> spells_optional_capture(res.unwrap(), *replay),
        res is None ==> forall|value: Option<SourceCapture>|
            !spells_optional_capture(value, *replay),
{
    match replay {
        ReplayValue::Absent => Some(None),
        ReplayValue::Present(inner) => match decode_capture(&**inner) {
            Some(capture) => Some(Some(capture)),
            None => None,
        },
        _ => None,
    }
}

/// Reads an optional list of captures back; `None` where the replay form
/// describes none.
pub fn decode_optional_captures(replay: &ReplayValue) -> (res: Option<Option<Vec<SourceCapture>>>)
    ensures
        res is Some ==> spells_optional_captures(res.unwrap(), *replay),
        res is None ==> forall|value: Option<Vec<SourceCapture>>|
            !spells_optional_captures(value, *replay),
{
    match replay {
        ReplayValue::Absent => Some(None),
        ReplayValue::Present(inner) => match &**inner {
            ReplayValue::List(items) => {
                let mut list: Vec<SourceCapture> = Vec::new();
                let mut i: usize = 0;
                while i < items.len()
                    invariant
                        *replay is Present,
                        *replay->Present_0 is List,
                        replay->Present_0->List_0 == *items,
                        i <= items.len(),
                        list@.len() == i,
                        forall|j: int|
                            0 <= j < i ==> spells_capture(#[trigger] list@[j], items@[j]),
                    decreases items.len() - i,
                {
                    match decode_capture(&items[i]) {
                        Some(capture) => {
                            list.push(capture);
                        },
                        None => {
                            assert forall|value: Option<Vec<SourceCapture>>|
                                !spells_optional_captures(value, *replay) by {
                                if spells_optional_captures(value, *replay) {
                                    assert(spells_capture(value.unwrap()@[i as int], items@[i as int]));
                                }
                            }
                            return None;
                        },
                    }
                    i += 1;
                }
                Some(Some(list))
            },
            _ => None,
        },
        _ => None,
    }
}

/// Reads an invocation back; `None` where the replay form describes none.
pub fn decode_invocation(replay: &ReplayValue) -> (res: Option<ParserSourceCapture>)
    ensures
        res is Some ==> spells_invocation(res.unwrap(), *replay),
        res is None ==> forall|value: ParserSourceCapture| !spells_invocation(value, *replay),
{
    match replay {
        ReplayValue::Record(RecordKind::ParserSourceCapture, fields) => {
            if fields.len() != 5 {
                return None;
            }
            let binding_pattern = match decode_optional_capture(&fields[0]) {
                Some(capture) => capture,
                None => {
                    return None;
                },
            };
            let ident = match decode_capture(&fields[1]) {
                Some(capture) => capture,
                None => {
                    return None;
                },
            };
            let pattern = match decode_capture(&fields[2]) {
                Some(capture) => capture,
                None => {
                    return None;
                },
            };
            let nested_parsers = match decode_optional_captures(&fields[3]) {
                Some(list) => list,
                None => {
                    return None;
                },
            };
            let input = match decode_capture(&fields[4]) {
                Some(capture) => capture,
                None => {
                    return None;
                },
            };
            Some(ParserSourceCapture { binding_pattern, ident, pattern, nested_parsers, input })
        },
        _ => None,
    }
}

/// Reads an optional list of invocations back; `None` where the replay
/// form describes none.
pub fn decode_optional_invocations(replay: &ReplayValue) -> (res: Option<
    Option<Vec<ParserSourceCapture>>,
>)
    ensures
        res is Some ==> spells_optional_invocations(res.unwrap(), *replay),
        res is None ==> forall|value: Option<Vec<ParserSourceCapture>>|
            !spells_optional_invocations(value, *replay),
{
    match replay {
        ReplayValue::Absent => Some(None),
        ReplayValue::Present(inner) => match &**inner {
            ReplayValue::List(items) => {
                let mut list: Vec<ParserSourceCapture> = Vec::new();
                let mut i: usize = 0;
                while i < items.len()
                    invariant
                        *replay is Present,
                        *replay->Present_0 is List,
                        replay->Present_0->List_0 == *items,
                        i <= items.len(),
                        list@.len() == i,
                        forall|j: int|
                            0 <= j < i ==> spells_invocation(#[trigger] list@[j], items@[j]),
                    decreases items.len() - i,
                {
                    match decode_invocation(&items[i]) {
                        Some(invocation) => {
                            list.push(invocation);
                        },
                        None => {
                            assert forall|value: Option<Vec<ParserSourceCapture>>|
                                !spells_optional_invocations(value, *replay) by {
                                if spells_optional_invocations(value, *replay) {
                                    assert(spells_invocation(
                                        value.unwrap()@[i as int],
                                        items@[i as int],
                                    ));
                                }
                            }
                            return None;
                        },
                    }
                    i += 1;
                }
                Some(Some(list))
            },
            _ => None,
        },
        _ => None,
    }
}

/// Reads a function context back; `None` where the replay form describes
/// none.
pub fn decode_context(replay: &ReplayValue) -> (res: Option<FunctionContext>)
    ensures
        res is Some ==> spells_context(res.unwrap(), *replay),
        res is None ==> forall|value: FunctionContext| !spells_context(value, *replay),
{
    match replay {
        ReplayValue::Record(RecordKind::FunctionContext, fields) => {
            if fields.len() != 5 {
                return None;
            }
            let signature = match decode_capture(&fields[0]) {
                Some(capture) => capture,
                None => {
                    return None;
                },
            };
            let parser_contexts = match decode_optional_invocations(&fields[1]) {
                Some(list) => list,
                None => {
                    return None;
                },
            };
            let parser_context_failure_index = match decode_number(&fields[2]) {
                Some(index) => index,
                None => {
                    return None;
                },
            };
            let nested_parser_contexts = match decode_optional_invocations(&fields[3]) {
                Some(list) => list,
                None => {
                    return None;
                },
            };
            let closing_tokens = match decode_optional_capture(&fields[4]) {
                Some(capture) => capture,
                None => {
                    return None;
                },
            };
            Some(
                FunctionContext {
                    signature,
                    parser_contexts,
                    parser_context_failure_index,
                    nested_parser_contexts,
                    closing_tokens,
                },
            )
        },
        _ => None,
    }
}

/// Reads an error back at a place in the file `call_site`; `None` where the
/// replay form describes none.
pub fn decode_error<'a>(replay: &'a ReplayValue, call_site: &'static str) -> (res: Option<
    ContextError<'a>,
>)
    ensures
        res is Some ==> spells_error(res.unwrap(), *replay) && res.unwrap().file == Some(
            call_site,
        ),
        res is None ==> forall|value: ContextError| !spells_error(value, *replay),
{
    match replay {
        ReplayValue::Record(RecordKind::ContextError, fields) => {
            if fields.len() != 4 {
                return None;
            }
            let message = match decode_slice(&fields[0]) {
                Some(text) => text,
                None => {
                    return None;
                },
            };
            let context = match decode_context(&fields[1]) {
                Some(context) => context,
                None => {
                    return None;
                },
            };
            match &fields[2] {
                ReplayValue::Present(inner) => match &**inner {
                    ReplayValue::CallSite => {},
                    _ => {
                        return None;
                    },
                },
                _ => {
                    return None;
                },
            }
            let input = match decode_slice(&fields[3]) {
                Some(text) => text,
                None => {
                    return None;
                },
            };
            Some(ContextError { message, context, file: Some(call_site), input })
        },
        _ => None,
    }
}

/// Writes the function context down in replay form and reads it back: the
/// result is equal to `value`, field by field.
pub fn replay_context(value: &FunctionContext) -> (res: FunctionContext)
    ensures
        same_context(res, *value),
{
    let replay = encode_context(value);
    match decode_context(&replay) {
        Some(read_back) => {
            proof {
                law_replay_round_trip(*value, replay, read_back);
            }
            read_back
        },
        None => {
            assert(spells_context(*value, replay));
            vstd::pervasive::unreached()
        },
    }
}

} // verus!
