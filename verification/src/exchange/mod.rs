//! Exchange requests: the identifiers that modify requests carry.

pub mod modify;
pub mod oid_or_cloid;
