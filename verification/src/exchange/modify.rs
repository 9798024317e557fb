//! Modify requests and the order identifier they name.

use vstd::prelude::*;

verus! {

/// A client order id: the 128 bits of a UUID, most significant byte first.
#[derive(Clone, Copy, Debug, PartialEq, Eq, Structural)]
pub struct Cloid {
    pub value: u128,
}

/// An order named either by the exchange's numeric order id or by the
/// client order id the client gave it.
#[derive(Clone, Copy, Debug, PartialEq, Eq, Structural)]
pub enum OidOrCloid {
    Oid(u64),
    Cloid(Cloid),
}

/// A modify request as a client writes it: the order to change, and the
/// new order, in the client's order form `O`.
pub struct ClientModifyRequest<O> {
    pub oid: OidOrCloid,
    pub order: O,
}

/// A modify request as it goes on the wire: the order to change, and the new
/// order, in the wire order form `O`.
pub struct ModifyRequest<O> {
    pub oid: OidOrCloid,
    pub order: O,
}

} // verus!
