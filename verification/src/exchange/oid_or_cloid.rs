//! The wire form of an order identifier: a numeric order id travels as an
//! unsigned integer, a client order id as a `0x`-prefixed hex string.

use vstd::prelude::*;
use crate::exchange::modify::{Cloid, OidOrCloid};
use crate::helpers::{cloid_hex, uuid_to_hex_string};
use crate::text::{all_hex_digits, hex_value, hex_fixed, lemma_hex_fixed, lemma_pow16_32};

verus! {

/// A value as the serializer sees it: an unsigned integer or a string.
pub enum WireValue {
    Number(u64),
    Text(String),
}

/// The mathematical form of a [`WireValue`].
pub enum WireView {
    Number(u64),
    Text(Seq<char>),
}

impl View for WireValue {
    type V = WireView;

    open spec fn view(&self) -> WireView {
        match self {
            WireValue::Number(n) => WireView::Number(*n),
            WireValue::Text(s) => WireView::Text(s@),
        }
    }
}

/// What `uuid::Uuid::parse_str` gives for `text`: the UUID's 128 bits, most
/// significant first, or the text of its error.
pub uninterp spec fn uuid_parse(text: Seq<char>) -> Result<u128, Seq<char>>;

/// Whether `s` is a UUID in its simple form: exactly 32 hexadecimal digits.
pub open spec fn is_simple_uuid(s: Seq<char>) -> bool {
    s.len() == 32 && all_hex_digits(s)
}

/// The bits of a UUID written in its simple form.
pub open spec fn simple_uuid_bits(s: Seq<char>) -> Result<u128, Seq<char>> {
    Ok(hex_value(s) as u128)
}

/// The mathematical form of a UUID parse result.
pub open spec fn parsed_view(r: Result<u128, String>) -> Result<u128, Seq<char>> {
    match r {
        Ok(v) => Ok(v),
        Err(e) => Err(e@),
    }
}

/// Parses `text` with `uuid::Uuid::parse_str` and returns the UUID's bits
/// (`as_u128`, big-endian) or the error's text. The contract names the whole
/// result `uuid_parse`, and states the one case the crate's source makes
/// plain: 32 hexadecimal digits (either case) parse to their value.
#[verifier::external_body]
fn parse_uuid(text: &str) -> (r: Result<u128, String>)
    ensures
        parsed_view(r) == uuid_parse(text@),
        is_simple_uuid(text@) ==> parsed_view(r) == simple_uuid_bits(text@),
{
    match uuid::Uuid::parse_str(text) {
        Ok(u) => Ok(u.as_u128()),
        Err(e) => Err(e.to_string()),
    }
}

/// `s` without a leading `0x`, if it has one.
pub open spec fn strip_hex_prefix(s: Seq<char>) -> Seq<char> {
    if s.len() >= 2 && s[0] == '0' && s[1] == 'x' {
        s.subrange(2, s.len() as int)
    } else {
        s
    }
}

/// The wire form of an order identifier.
pub open spec fn wire_form(value: OidOrCloid) -> WireView {
    match value {
        OidOrCloid::Oid(oid) => WireView::Number(oid),
        OidOrCloid::Cloid(c) => WireView::Text(cloid_hex(c)),
    }
}

/// What reading a wire value as an order identifier gives: a number is an
/// order id; a string, with an optional `0x` in front, is parsed as a UUID.
pub open spec fn read_wire(input: WireView) -> Result<OidOrCloid, Seq<char>> {
    match input {
        WireView::Number(n) => Ok(OidOrCloid::Oid(n)),
        WireView::Text(s) => {
            let hex = strip_hex_prefix(s);
            if is_simple_uuid(hex) {
                Ok(OidOrCloid::Cloid(Cloid { value: hex_value(hex) as u128 }))
            } else {
                match uuid_parse(hex) {
                    Ok(v) => Ok(OidOrCloid::Cloid(Cloid { value: v })),
                    Err(e) => Err(e),
                }
            }
        },
    }
}

fn strip_prefix_0x(text: &str) -> (r: &str)
    ensures
        r@ == strip_hex_prefix(text@),
{
    let n = text.unicode_len();
    if n >= 2 && text.get_char(0) == '0' && text.get_char(1) == 'x' {
        text.substring_char(2, n)
    } else {
        text
    }
}

/// Serializes an order identifier: the order id as an integer, the client
/// order id as its `0x`-prefixed hex string.
pub fn serialize(value: &OidOrCloid) -> (r: WireValue)
    ensures
        r@ == wire_form(*value),
{
    match value {
        OidOrCloid::Oid(oid) => WireValue::Number(*oid),
        OidOrCloid::Cloid(c) => WireValue::Text(uuid_to_hex_string(*c)),
    }
}

/// Reads an order identifier from a wire value: an integer is an order id;
/// a string, with its `0x` prefix removed if present, must parse as a UUID,
/// else the UUID parser's error text is returned.
pub fn deserialize(input: WireValue) -> (r: Result<OidOrCloid, String>)
    ensures
        match r {
            Ok(v) => read_wire(input@) == Ok::<OidOrCloid, Seq<char>>(v),
            Err(e) => read_wire(input@) == Err::<OidOrCloid, Seq<char>>(e@),
        },
{
    match input {
        WireValue::Number(n) => Ok(OidOrCloid::Oid(n)),
        WireValue::Text(s) => {
            let hex = strip_prefix_0x(s.as_str());
            match parse_uuid(hex) {
                Ok(v) => Ok(OidOrCloid::Cloid(Cloid { value: v })),
                Err(e) => Err(e),
            }
        },
    }
}

/// Reading back the wire form of any order identifier gives that identifier.
pub proof fn lemma_wire_round_trip(value: OidOrCloid)
    ensures
        read_wire(wire_form(value)) == Ok::<OidOrCloid, Seq<char>>(value),
{
    match value {
        OidOrCloid::Oid(_) => {},
        OidOrCloid::Cloid(c) => {
            let s = cloid_hex(c);
            let h = hex_fixed(c.value as nat, 32);
            lemma_hex_fixed(c.value as nat, 32);
            lemma_pow16_32();
            assert(strip_hex_prefix(s) =~= h);
            assert(is_simple_uuid(h));
            assert(hex_value(h) == c.value);
        },
    }
}

} // verus!
