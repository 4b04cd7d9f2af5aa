//! Decoder for the classfile container format: a fixed header, a
//! tag-addressed constant pool, access flags, class indices and an
//! interface list, all read big-endian from an immutable byte buffer.

pub mod cursor;
pub mod parser;
pub mod structure;
