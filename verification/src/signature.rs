//! One display line for a function's signature, put together from the
//! texts of its parts.

use crate::capture::repeat_unit;
use vstd::prelude::*;
use vstd::std_specs::iter::IteratorSpec;
use vstd::string::StringExecFns;

verus! {

/// The texts of a function declaration's parts, and the lines on which its
/// return type ends and its body opens.
#[derive(Clone, Debug)]
pub struct SignatureParts {
    pub visibility: String,
    pub constness: Option<String>,
    pub asyncness: Option<String>,
    pub unsafety: Option<String>,
    pub abi: Option<String>,
    pub fn_token: String,
    pub ident: String,
    pub generics: String,
    pub inputs: String,
    pub output: String,
    pub output_end_line: usize,
    pub brace_start_line: usize,
}

/// What `str::replace` returns: `text` with every match of `from` replaced
/// by `to`.
pub uninterp spec fn replaced(text: Seq<char>, from: Seq<char>, to: Seq<char>) -> Seq<char>;

/// Whether `c` is white space: one of the code points with the Unicode
/// property `White_Space`.
pub open spec fn is_space(c: char) -> bool {
    let code = c as u32;
    ||| 0x09 <= code <= 0x0D
    ||| code == 0x20
    ||| code == 0x85
    ||| code == 0xA0
    ||| code == 0x1680
    ||| 0x2000 <= code <= 0x200A
    ||| code == 0x2028
    ||| code == 0x2029
    ||| code == 0x202F
    ||| code == 0x205F
    ||| code == 0x3000
}

/// `str::replace`: the text with every match of `from` replaced by `to`.
#[verifier::external_body]
fn replace_all(text: &str, from: &str, to: &str) -> (res: String)
    ensures
        res@ == replaced(text@, from@, to@),
{
    text.replace(from, to)
}

/// Whether the character is white space.
pub fn is_whitespace(c: char) -> (res: bool)
    ensures
        res == is_space(c),
{
    let code: u32 = c as u32;
    (0x09 <= code && code <= 0x0D) || code == 0x20 || code == 0x85 || code == 0xA0 || code
        == 0x1680 || (0x2000 <= code && code <= 0x200A) || code == 0x2028 || code == 0x2029
        || code == 0x202F || code == 0x205F || code == 0x3000
}

/// `String::push`: afterwards the string holds what it held, followed by
/// `c`.
#[verifier::external_body]
fn push_char(text: &mut String, c: char)
    ensures
        final(text)@ == old(text)@.push(c),
{
    text.push(c);
}

/// The characters that are not white space.
pub open spec fn not_space() -> spec_fn(char) -> bool {
    |c: char| !is_space(c)
}

/// `text` without its white space.
pub open spec fn without_whitespace(text: Seq<char>) -> Seq<char> {
    text.filter(not_space())
}

/// An optional keyword followed by a space, or nothing.
pub open spec fn keyword(part: Option<String>) -> Seq<char> {
    match part {
        Some(text) => text@ + " "@,
        None => Seq::empty(),
    }
}

/// The parameter list with the spaces taken out that a token stream puts
/// after `&` and before `:`.
pub open spec fn tidy_inputs(text: Seq<char>) -> Seq<char> {
    replaced(replaced(text, "& '"@, "&'"@), " :"@, ":"@)
}

/// The return type with the spaces taken out that a token stream puts
/// around `<`, `>` and `&`.
pub open spec fn tidy_output(text: Seq<char>) -> Seq<char> {
    replaced(
        replaced(replaced(replaced(text, " < & "@, "<&"@), "& '"@, "&'"@), " >"@, ">"@),
        "< '"@,
        "<'"@,
    )
}

impl SignatureParts {
    /// The body opens on the line where the return type ends, or after it,
    /// and the line breaks between them can be allocated.
    pub open spec fn well_placed(&self) -> bool {
        self.output_end_line <= self.brace_start_line && self.brace_start_line
            - self.output_end_line <= isize::MAX
    }

    /// The display line put together from the parts and the three texts
    /// that were tidied beforehand: visibility, keywords, name, generics,
    /// parameters and return type, one line break for each line between the
    /// return type and the opening brace, and the brace.
    pub open spec fn assembled(
        &self,
        generics: Seq<char>,
        inputs: Seq<char>,
        output: Seq<char>,
    ) -> Seq<char> {
        self.visibility@ + " "@ + keyword(self.constness) + keyword(self.asyncness) + keyword(
            self.unsafety,
        ) + keyword(self.abi) + self.fn_token@ + " "@ + self.ident@ + generics + "("@ + inputs
            + ") "@ + output + Seq::new(
            (self.brace_start_line - self.output_end_line) as nat,
            |i: int| '\n',
        ) + " {"@
    }

    /// The display line: the parts assembled with the generics without
    /// white space and the tidied parameters and return type.
    pub open spec fn line(&self) -> Seq<char> {
        self.assembled(
            without_whitespace(self.generics@),
            tidy_inputs(self.inputs@),
            tidy_output(self.output@),
        )
    }

    /// Whether the parts can be formatted.
    pub fn is_well_placed(&self) -> (res: bool)
        ensures
            res == self.well_placed(),
    {
        self.output_end_line <= self.brace_start_line && self.brace_start_line
            - self.output_end_line <= isize::MAX as usize
    }

    /// Puts the display line together from the parts and the tidied texts
    /// of the generics, the parameters and the return type.
    pub fn assemble(&self, generics: &str, inputs: &str, output: &str) -> (res: String)
        requires
            self.well_placed(),
        ensures
            res@ == self.assembled(generics@, inputs@, output@),
    {
        let mut line = self.visibility.clone();
        line.append(" ");
        append_keyword(&mut line, &self.constness);
        append_keyword(&mut line, &self.asyncness);
        append_keyword(&mut line, &self.unsafety);
        append_keyword(&mut line, &self.abi);
        line.append(self.fn_token.as_str());
        line.append(" ");
        line.append(self.ident.as_str());
        line.append(generics);
        line.append("(");
        line.append(inputs);
        line.append(") ");
        line.append(output);
        proof {
            crate::capture::lemma_one_byte_units();
        }
        line.append(repeat_unit("\n", self.brace_start_line - self.output_end_line).as_str());
        line.append(" {");
        line
    }

    /// Formats the parts as one display line.
    pub fn format(&self) -> (res: String)
        requires
            self.well_placed(),
        ensures
            res@ == self.line(),
    {
        let generics = remove_whitespace(self.generics.as_str());
        let inputs = replace_all(self.inputs.as_str(), "& '", "&'");
        let inputs = replace_all(inputs.as_str(), " :", ":");
        let output = replace_all(self.output.as_str(), " < & ", "<&");
        let output = replace_all(output.as_str(), "& '", "&'");
        let output = replace_all(output.as_str(), " >", ">");
        let output = replace_all(output.as_str(), "< '", "<'");
        self.assemble(generics.as_str(), inputs.as_str(), output.as_str())
    }
}

/// Appends an optional keyword and a space after it.
fn append_keyword(line: &mut String, part: &Option<String>)
    ensures
        final(line)@ == old(line)@ + keyword(*part),
{
    if let Some(text) = part {
        line.append(text.as_str());
        line.append(" ");
    }
}

/// The text without its white space.
pub fn remove_whitespace(text: &str) -> (res: String)
    ensures
        res@ == without_whitespace(text@),
{
    let ghost keep = not_space();
    let mut out = String::new();
    let mut chars = text.chars();
    proof {
        vstd::string::axiom_spec_iter(text);
    }
    loop
        invariant
            chars.obeys_prophetic_iter_laws(),
            keep == not_space(),
            out@ + chars.remaining().filter(keep) == text@.filter(keep),
            chars.decrease() is Some,
        ensures
            out@ == text@.filter(keep),
        decreases chars.decrease()->0,
    {
        let ghost before = chars;
        let next = chars.next();
        proof {
            vstd::string::next_postcondition(&before, &chars, next);
            reveal_with_fuel(Seq::filter, 3);
            assert(Seq::<char>::empty().filter(keep) =~= Seq::<char>::empty());
        }
        match next {
            Some(c) => {
                proof {
                    let head = seq![c];
                    assert(before.remaining() =~= head + chars.remaining());
                    assert(head.drop_last() =~= Seq::<char>::empty());
                    assert(head.filter(keep) =~= if keep(c) {
                        head
                    } else {
                        Seq::<char>::empty()
                    });
                    assert((head + chars.remaining()).filter(keep) == head.filter(keep)
                        + chars.remaining().filter(keep)) by {
                        Seq::filter_distributes_over_add(head, chars.remaining(), keep);
                    }
                }
                if !is_whitespace(c) {
                    push_char(&mut out, c);
                }
            },
            None => {
                assert(before.remaining().filter(keep) =~= Seq::<char>::empty());
                break ;
            },
        }
    }
    out
}

} // verus!
