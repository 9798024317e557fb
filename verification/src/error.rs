//! The library's error type and the text each error shows.

use vstd::prelude::*;

verus! {

/// What `format!("{:?}", s)` gives for a string `s`: `s` quoted, with
/// the characters that `str::escape_debug` escapes written as escapes.
pub uninterp spec fn debug_form(s: Seq<char>) -> Seq<char>;

/// Whether `c` is printable ASCII other than `"` and `\`: `Debug` writes
/// such a character as itself.
pub open spec fn debug_plain_char(c: char) -> bool {
    ' ' <= c <= '~' && c != '"' && c != '\\'
}

/// `s` between double quotes.
pub open spec fn quoted(s: Seq<char>) -> Seq<char> {
    seq!['"'] + s + seq!['"']
}

/// Formats `s` with `{:?}` (`<str as Debug>::fmt`). The contract names the
/// result `debug_form`; of its content it states only what the `Debug`
/// documentation makes plain: a string of printable ASCII without quotes or
/// backslashes comes out between double quotes, unchanged.
#[verifier::external_body]
pub(crate) fn debug_string(s: &str) -> (r: String)
    ensures
        r@ == debug_form(s@),
        (forall|i: int| 0 <= i < s@.len() ==> debug_plain_char(#[trigger] s@[i])) ==> r@
            == quoted(s@),
{
    format!("{:?}", s)
}

/// The errors of the websocket clients.
#[derive(Clone, Debug, PartialEq, Eq)]
pub enum Error {
    /// JSON text could not be parsed or written.
    JsonParse(String),
    /// The socket reader reported an error.
    GenericReader(String),
    /// A received frame could not be read as text.
    ReaderTextConversion(String),
    /// The websocket connection failed.
    Websocket(String),
    /// A message could not be handed to a channel.
    WsSend(String),
}

/// The text that an error shows.
pub open spec fn error_text(e: Error) -> Seq<char> {
    match e {
        Error::JsonParse(s) => "Json parse error: "@ + debug_form(s@),
        Error::GenericReader(s) => "Reader error: "@ + debug_form(s@),
        Error::ReaderTextConversion(s) => "Reader text conversion error: "@ + debug_form(s@),
        Error::Websocket(s) => "Websocket error: "@ + debug_form(s@),
        Error::WsSend(s) => "WS send error: "@ + debug_form(s@),
    }
}

impl Error {
    /// The text of this error: its kind, then its detail in `Debug` form.
    pub fn message(&self) -> (r: String)
        ensures
            r@ == error_text(*self),
    {
        let (prefix, detail) = match self {
            Error::JsonParse(s) => ("Json parse error: ", s),
            Error::GenericReader(s) => ("Reader error: ", s),
            Error::ReaderTextConversion(s) => ("Reader text conversion error: ", s),
            Error::Websocket(s) => ("Websocket error: ", s),
            Error::WsSend(s) => ("WS send error: ", s),
        };
        let mut r = String::from_str(prefix);
        r.append(debug_string(detail.as_str()).as_str());
        r
    }
}

} // verus!
