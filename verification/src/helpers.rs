//! Small renderings shared by the request builders.

use vstd::prelude::*;
use crate::exchange::modify::Cloid;
use crate::text::{hex_fixed, hex_fixed_string};

verus! {

/// The wire form of a client order id: `0x` and its 32 lowercase hex digits.
pub open spec fn cloid_hex(c: Cloid) -> Seq<char> {
    seq!['0', 'x'] + hex_fixed(c.value as nat, 32)
}

/// Renders a client order id as `0x` followed by its 16 bytes, most
/// significant first, each as two lowercase hexadecimal digits.
pub fn uuid_to_hex_string(cloid: Cloid) -> (s: String)
    ensures
        s@ == cloid_hex(cloid),
{
    let mut s = String::from_str("0x");
    proof {
        reveal_strlit("0x");
    }
    s.append(hex_fixed_string(cloid.value, 32).as_str());
    s
}

} // verus!
