//! General properties of the decoder, proved once for every input.

use vstd::prelude::*;

use crate::decode::spec_decode_opcode;
use crate::decode::spec_decode_program_from;
use crate::decode::spec_decode_value;
use crate::error::DecodeError;
use crate::opcode::SpecOpcode;
use crate::opcode::is_one_operand_tag;
use crate::opcode::is_two_operand_tag;
use crate::value::SpecValue;

verus! {

/// Decoding the two-word sequence `[0, x]` as a value yields `Long(x)` and
/// consumes both words, for every signed 64-bit integer `x` and every depth
/// allowance.
pub proof fn lemma_decode_long(x: i64, depth: nat)
    ensures
        spec_decode_value(seq![0i64, x], 0, depth) == Ok::<(SpecValue, int), DecodeError>(
            (SpecValue::Long(x), 2),
        ),
{
}

/// A string whose declared length exceeds the words that remain fails with
/// `TruncatedInput` at the length word, before any of its words is
/// examined.
pub proof fn lemma_string_length_truncates(words: Seq<i64>, pos: int, depth: nat)
    requires
        0 <= pos,
        pos + 1 < words.len(),
        words[pos] == 1,
        words[pos + 1] > words.len() - pos - 2,
    ensures
        spec_decode_value(words, pos, depth) == Err::<(SpecValue, int), DecodeError>(
            DecodeError::TruncatedInput { offset: (pos + 1) as usize },
        ),
{
}

/// An array whose declared element count exceeds the words that remain
/// fails with `TruncatedInput` at the length word, before any element is
/// examined.  At least one nesting level must still be allowed; with none
/// left the depth guard fails first.
pub proof fn lemma_array_length_truncates(words: Seq<i64>, pos: int, depth: nat)
    requires
        0 <= pos,
        pos + 1 < words.len(),
        words[pos] == 3,
        depth >= 1,
        words[pos + 1] > words.len() - pos - 2,
    ensures
        spec_decode_value(words, pos, depth) == Err::<(SpecValue, int), DecodeError>(
            DecodeError::TruncatedInput { offset: (pos + 1) as usize },
        ),
{
}

/// A failed opcode decode is the whole program decode's failure: the
/// program decode surfaces that error itself and exposes no instruction
/// decoded before it.
pub proof fn lemma_program_fails_with_opcode(words: Seq<i64>, pos: int)
    requires
        0 <= pos < words.len(),
    ensures
        spec_decode_opcode(words, pos) matches Err(e) ==> spec_decode_program_from(words, pos)
            == Err::<Seq<SpecOpcode>, DecodeError>(e),
{
}

/// A final opcode whose tag demands an operand the stream no longer holds
/// fails with `TruncatedInput` at the stream's end, and so does the whole
/// program decode from that opcode on: atomic failure, no instructions
/// reported.
pub proof fn lemma_final_opcode_missing_operand(words: Seq<i64>, pos: int)
    requires
        0 <= pos,
        pos == words.len() - 1,
        is_one_operand_tag(words[pos]) || is_two_operand_tag(words[pos]),
    ensures
        spec_decode_opcode(words, pos) == Err::<(SpecOpcode, int), DecodeError>(
            DecodeError::TruncatedInput { offset: words.len() as usize },
        ),
        spec_decode_program_from(words, pos) == Err::<Seq<SpecOpcode>, DecodeError>(
            DecodeError::TruncatedInput { offset: words.len() as usize },
        ),
{
}

} // verus!
