//! Typed field masks: parse lists of field-path segments into a per-type mask
//! value, then apply the mask to merge a source value into a destination
//! value, with presence collapse for optional substructures.

pub mod maskable;
pub mod records;
