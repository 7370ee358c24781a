//! The JSON layer under the wire protocol.
//!
//! Frames that go out are written here. Frames that come in are parsed by
//! `serde_json`: the two functions of this module that call it are trusted,
//! which is to say that Verus takes their contracts as given. The contracts
//! are stated over two uninterpreted functions, so that everything built on
//! top is verified for whatever the parser makes of a text.

use crate::text::{hex_text, push_digits};
use vstd::prelude::*;

verus! {

#[verifier::external_type_specification]
#[verifier::external_body]
pub struct ExJsonValue(serde_json::Value);

#[verifier::external_type_specification]
#[verifier::external_body]
pub struct ExJsonError(serde_json::Error);

/// What sits at one place of a parsed document, as far as the wire protocol
/// cares: a string, a boolean, or anything else.
#[derive(Debug, PartialEq, Eq)]
pub enum JsonScalar {
    Text(String),
    Flag(bool),
    Other,
}

/// Mathematical model of a [`JsonScalar`].
pub enum ScalarView {
    Text(Seq<char>),
    Flag(bool),
    Other,
}

impl View for JsonScalar {
    type V = ScalarView;

    open spec fn view(&self) -> ScalarView {
        match self {
            JsonScalar::Text(text) => ScalarView::Text(text@),
            JsonScalar::Flag(flag) => ScalarView::Flag(*flag),
            JsonScalar::Other => ScalarView::Other,
        }
    }
}

impl DeepView for JsonScalar {
    type V = ScalarView;

    open spec fn deep_view(&self) -> ScalarView {
        self@
    }
}

/// The contents of a parsed document: for every JSON pointer (RFC 6901) that
/// addresses a value in it, the scalar found there.
pub uninterp spec fn json_scalars(value: serde_json::Value) -> Map<Seq<char>, ScalarView>;

/// The contents of the document that `text` parses to, or `None` where `text`
/// is not a JSON document.
pub uninterp spec fn json_document(text: Seq<char>) -> Option<Map<Seq<char>, ScalarView>>;

/// How one character is written inside a JSON string: the quotation mark and
/// the backslash get a backslash in front, the control characters below the
/// space get their short escape where they have one and `\u00` with two
/// hexadecimal digits where they have none, and every other character stands
/// for itself.
pub open spec fn escaped(c: char) -> Seq<char> {
    if c == '"' {
        seq!['\\', '"']
    } else if c == '\\' {
        seq!['\\', '\\']
    } else if c == '\u{8}' {
        seq!['\\', 'b']
    } else if c == '\t' {
        seq!['\\', 't']
    } else if c == '\n' {
        seq!['\\', 'n']
    } else if c == '\u{c}' {
        seq!['\\', 'f']
    } else if c == '\r' {
        seq!['\\', 'r']
    } else if (c as u32) < 0x20 {
        seq!['\\', 'u', '0', '0'] + hex_text(c as nat, 2)
    } else {
        seq![c]
    }
}

/// The characters of `text` as they are written inside a JSON string.
pub open spec fn escaped_text(text: Seq<char>) -> Seq<char>
    decreases text.len(),
{
    if text.len() == 0 {
        Seq::empty()
    } else {
        escaped_text(text.drop_last()) + escaped(text.last())
    }
}

/// The JSON string for `text`: its characters, escaped, between quotation
/// marks.
pub open spec fn json_string(text: Seq<char>) -> Seq<char> {
    seq!['"'] + escaped_text(text) + seq!['"']
}

/// Calls `serde_json::from_str` to parse `text` as a `serde_json::Value`.
///
/// Trusted: the parser is a function of the text alone, so what it returns is
/// named by [`json_document`]: on success the contents of the value are those
/// of the document, on failure the text has no document.
#[verifier::external_body]
pub(crate) fn parse_json(text: &str) -> (parsed: Result<serde_json::Value, serde_json::Error>)
    ensures
        match parsed {
            Ok(value) => json_document(text@) == Some(json_scalars(value)),
            Err(_) => json_document(text@) is None,
        },
{
    serde_json::from_str::<serde_json::Value>(text)
}

/// Calls `serde_json::Value::pointer` and reports what kind of value the
/// pointer addresses.
///
/// Trusted: the result is the entry of [`json_scalars`] for this pointer, and
/// `None` exactly where the pointer addresses nothing.
#[verifier::external_body]
pub(crate) fn scalar_at(value: &serde_json::Value, pointer: &str) -> (found: Option<JsonScalar>)
    ensures
        match found {
            Some(scalar) => json_scalars(*value).contains_key(pointer@) && json_scalars(
                *value,
            )[pointer@] == scalar@,
            None => !json_scalars(*value).contains_key(pointer@),
        },
{
    match value.pointer(pointer) {
        Some(serde_json::Value::String(text)) => Some(JsonScalar::Text(text.clone())),
        Some(serde_json::Value::Bool(flag)) => Some(JsonScalar::Flag(*flag)),
        Some(_) => Some(JsonScalar::Other),
        None => None,
    }
}

/// Appends `c` to `out` as it is written inside a JSON string.
fn push_escaped(out: &mut String, c: char)
    ensures
        final(out)@ == old(out)@ + escaped(c),
{
    if c == '"' {
        out.push('\\');
        out.push('"');
    } else if c == '\\' {
        out.push('\\');
        out.push('\\');
    } else if c == '\u{8}' {
        out.push('\\');
        out.push('b');
    } else if c == '\t' {
        out.push('\\');
        out.push('t');
    } else if c == '\n' {
        out.push('\\');
        out.push('n');
    } else if c == '\u{c}' {
        out.push('\\');
        out.push('f');
    } else if c == '\r' {
        out.push('\\');
        out.push('r');
    } else if (c as u32) < 0x20 {
        out.push('\\');
        out.push('u');
        out.push('0');
        out.push('0');
        assert(out@ =~= old(out)@ + seq!['\\', 'u', '0', '0']);
        push_digits(out, c as u128, 2, 16);
    } else {
        out.push(c);
    }
    assert(out@ =~= old(out)@ + escaped(c));
}

/// Writes `text` as a JSON string.
pub fn quote_json(text: &str) -> (quoted: String)
    ensures
        quoted@ == json_string(text@),
{
    let mut quoted = String::new();
    quoted.push('"');
    for c in it: text.chars()
        invariant
            it.seq() == text@,
            quoted@ == seq!['"'] + escaped_text(text@.take(it.index())),
    {
        push_escaped(&mut quoted, c);
        proof {
            let seen = text@.take(it.index() + 1);
            assert(seen.drop_last() =~= text@.take(it.index()));
            assert(seen.last() == c);
        }
    }
    assert(text@.take(text@.len() as int) =~= text@);
    quoted.push('"');
    quoted
}

} // verus!
