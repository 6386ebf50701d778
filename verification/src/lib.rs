//! Decoder for the flat word-stream bytecode of a stack-based toy virtual
//! machine.
//!
//! The wire format is a sequence of signed 64-bit words.  A tagged value is a
//! tag word followed by a type-specific payload; an opcode is a tag word
//! followed by zero, one or two tagged values; a program is opcodes back to
//! back until the stream ends exactly.  Decoding either yields the complete
//! instruction sequence or fails with a single error; no partial program is
//! ever returned.

pub mod decode;
pub mod error;
pub mod laws;
pub mod opcode;
pub mod value;
