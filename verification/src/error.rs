//! Decode failures.

use vstd::prelude::*;

use crate::value::ValueKind;

verus! {

/// Why a decode failed.  Every variant names the word index (`offset`) at
/// which the failure was discovered, and what was found there.
///
/// A whole-program decode aborts on the first error: the caller gets this
/// value and no opcodes.
#[derive(Clone, Copy, Debug, PartialEq, Eq, Structural)]
pub enum DecodeError {
    /// A value or opcode tag outside the decodable range, including the
    /// three occupied-but-undecodable opcode tags (pop, div and the
    /// reserved marker).
    UnknownTag { offset: usize, tag: i64 },
    /// An operand's decoded kind does not match what its opcode requires.
    /// `offset` is the word index where the operand started.
    TypeMismatch { offset: usize, expected: ValueKind, actual: ValueKind },
    /// The stream ends before a fixed read, or a declared length can never
    /// be met by the words that remain (a negative declared length counts
    /// as such).  For a fixed read, `offset` is the index of the missing
    /// word; for a declared length, the index of the length word.
    TruncatedInput { offset: usize },
    /// A string's word is not a Unicode scalar value.
    InvalidScalar { offset: usize, word: i64 },
    /// A boolean word is neither of the two recognized encodings (0 for
    /// true, 1 for false).
    InvalidBool { offset: usize, word: i64 },
    /// Array nesting went beyond [`crate::decode::MAX_VALUE_DEPTH`] levels.
    /// `offset` is the index of the offending array tag.
    TooDeep { offset: usize },
    /// A `Function` or `Null` tag stood where a serialized value was
    /// expected; those tags carry no payload encoding.
    UnsupportedValueTag { offset: usize, tag: i64 },
}

} // verus!
