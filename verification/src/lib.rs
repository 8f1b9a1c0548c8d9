//! Initial-memory-table gadget: packs each memory cell's coordinates and
//! initial value into one canonical integer, exposes that packing as a
//! fixed lookup table, and builds the matching in-circuit lookup keys.

pub mod bigint;
pub mod entry;
pub mod expr;
pub mod schema;
pub mod table;
