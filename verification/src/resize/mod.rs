//! Resizing a partition: validation of the request, and the two-phase
//! workflows that carry it out.

pub mod expand;
pub mod shrink;
pub mod validation;
