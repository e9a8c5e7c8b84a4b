//! An interactive byte-exchange helper: operator-typed lines are parsed as
//! control commands or payload text, payload text is decoded per a chosen
//! input encoding (utf-8, hexadecimal or base 64), and received byte chunks
//! are rendered in a configurable set of output encodings.

pub mod codec;
pub mod command;
pub mod filter;
pub mod session;
