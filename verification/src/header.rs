//! Response header values as text.

use reqwest::header::HeaderValue;
use vstd::prelude::*;

verus! {

#[verifier::external_type_specification]
#[verifier::external_body]
pub struct ExHeaderValue(HeaderValue);

/// The bytes that a header value holds.
pub uninterp spec fn header_value_bytes(value: HeaderValue) -> Seq<u8>;

/// Whether `b` is a visible ASCII character, a space or a tab.
pub open spec fn is_visible_ascii(b: u8) -> bool {
    (32 <= b && b < 127) || b == 9
}

/// Whether every byte of `bytes` is visible ASCII, a space or a tab.
pub open spec fn is_visible_text(bytes: Seq<u8>) -> bool {
    forall|i: int| 0 <= i < bytes.len() ==> is_visible_ascii(#[trigger] bytes[i])
}

/// The text that a header value stands for: its bytes read as ASCII
/// characters where all of them are visible ASCII, spaces or tabs, and the
/// empty text otherwise.
pub open spec fn header_text(bytes: Seq<u8>) -> Seq<char> {
    if is_visible_text(bytes) {
        Seq::new(bytes.len(), |i: int| bytes[i] as char)
    } else {
        Seq::empty()
    }
}

/// `HeaderValue::to_str`, with its error as `None`. It succeeds exactly
/// where every byte of the value is visible ASCII, a space or a tab, and
/// then gives those bytes as characters.
#[verifier::external_body]
fn to_str(value: &HeaderValue) -> (r: Option<String>)
    ensures
        r is Some <==> is_visible_text(header_value_bytes(*value)),
        r is Some ==> r->0@ == header_text(header_value_bytes(*value)),
{
    match value.to_str() {
        Ok(text) => Some(String::from(text)),
        Err(_) => None,
    }
}

/// The text of a header value, which is empty where the value is not
/// readable as text.
pub trait HeaderValueExt {
    /// The text that `self` stands for.
    spec fn text(&self) -> Seq<char>;

    /// Gives the text of the value.
    fn to_string(&self) -> (r: String)
        ensures
            r@ == self.text(),
    ;
}

impl HeaderValueExt for HeaderValue {
    open spec fn text(&self) -> Seq<char> {
        header_text(header_value_bytes(*self))
    }

    fn to_string(&self) -> (r: String) {
        match to_str(self) {
            Some(text) => text,
            None => String::new(),
        }
    }
}

} // verus!
