//! Text conversions the wire format rests on: JSON string literals and the
//! printable header text that credentials arrive in.

use vstd::prelude::*;

verus! {

/// A character that a JSON string literal must escape.
pub open spec fn needs_escape(c: char) -> bool {
    c == '"' || c == '\\' || (c as u32) < 32
}

/// Text that stands in a JSON string literal as it is.
pub open spec fn is_plain(s: Seq<char>) -> bool {
    forall|i: int| 0 <= i < s.len() ==> !needs_escape(#[trigger] s[i])
}

/// The text between two double quotes.
pub open spec fn quoted(s: Seq<char>) -> Seq<char> {
    seq!['"'] + s + seq!['"']
}

/// The text of an optional string.
pub open spec fn opt_view(p: Option<String>) -> Option<Seq<char>> {
    match p {
        Some(v) => Some(v@),
        None => None,
    }
}

/// What serde_json writes for a string.
pub uninterp spec fn json_string_literal(s: Seq<char>) -> Seq<char>;

/// The string that serde_json reads from a text holding one JSON string.
pub uninterp spec fn json_string_value(t: Seq<char>) -> Option<Seq<char>>;

/// Relies on `serde_json::to_string` on a `str`: a JSON string literal in
/// which only `"`, `\` and control characters are escaped.
#[verifier::external_body]
pub(crate) fn json_quote(s: &str) -> (r: String)
    ensures
        r@ == json_string_literal(s@),
        is_plain(s@) ==> r@ == quoted(s@),
{
    match serde_json::to_string(s) {
        Ok(t) => t,
        Err(_) => String::new(),
    }
}

/// Relies on `serde_json::from_str::<String>`: succeeds exactly on a text
/// holding one JSON string, with whitespace alone around it.
#[verifier::external_body]
pub(crate) fn json_unquote(t: &str) -> (r: Option<String>)
    ensures
        opt_view(r) == json_string_value(t@),
        forall|s: Seq<char>| #[trigger] quoted(s) == t@ && is_plain(s) ==> opt_view(r) == Some(s),
{
    serde_json::from_str::<String>(t).ok()
}

/// A byte that a header value may hold and still read as text: visible
/// ASCII or a tab.
pub open spec fn is_visible_ascii(b: u8) -> bool {
    (32 <= b && b < 127) || b == 9
}

pub open spec fn all_visible_ascii(b: Seq<u8>) -> bool {
    forall|i: int| 0 <= i < b.len() ==> is_visible_ascii(#[trigger] b[i])
}

pub open spec fn all_ascii(b: Seq<u8>) -> bool {
    forall|i: int| 0 <= i < b.len() ==> #[trigger] b[i] < 128
}

/// `s` holds the characters whose codes are the bytes `b`.
pub open spec fn same_text(s: Seq<char>, b: Seq<u8>) -> bool {
    &&& s.len() == b.len()
    &&& forall|i: int| 0 <= i < b.len() ==> #[trigger] s[i] as u32 == b[i] as u32
}

/// The text that UTF-8 bytes encode, if they are valid UTF-8.
pub uninterp spec fn utf8_text(b: Seq<u8>) -> Option<Seq<char>>;

/// Relies on `String::from_utf8`: bytes of ASCII are valid UTF-8, each byte
/// one character of the same code.
#[verifier::external_body]
fn utf8_decode(b: &[u8]) -> (r: Option<String>)
    ensures
        opt_view(r) == utf8_text(b@),
        all_ascii(b@) ==> (r is Some && same_text(r->0@, b@)),
{
    String::from_utf8(b.to_vec()).ok()
}

/// The text of a header value, when it holds only visible ASCII and tabs.
pub fn header_text(b: &[u8]) -> (r: Option<String>)
    ensures
        r is Some <==> all_visible_ascii(b@),
        r matches Some(s) ==> same_text(s@, b@),
{
    let mut i: usize = 0;
    while i < b.len()
        invariant
            i <= b@.len(),
            forall|j: int| 0 <= j < i ==> is_visible_ascii(#[trigger] b@[j]),
        decreases b@.len() - i,
    {
        let c = b[i];
        if !((32 <= c && c < 127) || c == 9) {
            return None;
        }
        i = i + 1;
    }
    utf8_decode(b)
}

} // verus!
