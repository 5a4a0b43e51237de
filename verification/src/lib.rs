//! A generational arena: a growable slot store that hands out copyable,
//! generation-checked handles to its entries, reuses freed slots through a
//! LIFO free list, and detects stale handles on every access.

pub mod genvec;
pub mod laws;
