//! Equality of captures: field by field, the text by its characters.

use crate::capture::SourceCapture;
use vstd::prelude::*;
use vstd::std_specs::cmp::PartialEqSpecImpl;

verus! {

impl PartialEq for SourceCapture {
    fn eq(&self, other: &Self) -> (res: bool) {
        self.source_text == other.source_text && self.line_number == other.line_number
            && self.start_column == other.start_column && self.end_column == other.end_column
            && self.span_length == other.span_length
    }
}

impl PartialEqSpecImpl for SourceCapture {
    open spec fn obeys_eq_spec() -> bool {
        true
    }

    open spec fn eq_spec(&self, other: &Self) -> bool {
        self@ == other@
    }
}

} // verus!
