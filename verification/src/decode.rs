//! The decoder: tagged values, opcodes, whole programs.
//!
//! The spec functions in this module are the mathematical statement of the
//! wire format; each executable decoder's contract says that it returns
//! exactly what the corresponding spec function denotes, success and error
//! alike.

use vstd::prelude::*;

use crate::error::DecodeError;
use crate::opcode::Opcode;
use crate::opcode::SpecOpcode;
use crate::opcode::is_one_operand_tag;
use crate::opcode::is_two_operand_tag;
use crate::opcode::is_zero_operand_tag;
use crate::value::SpecValue;
use crate::value::Value;
use crate::value::ValueKind;
use crate::value::int_to_bool;
use crate::value::spec_kind_of;
use crate::value::values_view;

verus! {

/// How many levels of array nesting a single value decode accepts before
/// failing with `TooDeep`; a guard against adversarial input that declares
/// pathological nesting.
pub const MAX_VALUE_DEPTH: u64 = 100;

/// Whether a word holds a Unicode scalar value: a code point outside the
/// surrogate range.
pub open spec fn word_is_scalar_value(w: i64) -> bool {
    0 <= w && w <= 0x10FFFF && !(0xD800 <= w && w <= 0xDFFF)
}

/// The character a scalar-value word denotes.
pub open spec fn scalar_char(w: i64) -> char {
    (w as u32) as char
}

/// Relies on `char::from_u32`: it returns `Some` exactly for the Unicode
/// scalar values (at most 0x10FFFF and not a surrogate code point), and the
/// resulting `char` converts back to the same `u32`.
pub assume_specification[ char::from_u32 ](i: u32) -> (r: Option<char>)
    ensures
        (r is Some) <==> (i <= 0x10FFFF && !(0xD800 <= i && i <= 0xDFFF)),
        r matches Some(c) ==> c as u32 == i,
;

/// What decoding `count` string words starting at `pos` denotes: the
/// characters in word order, or the first failure.
pub open spec fn spec_decode_chars(words: Seq<i64>, pos: int, count: int) -> Result<
    Seq<char>,
    DecodeError,
>
    decreases count,
{
    if count <= 0 {
        Ok(Seq::empty())
    } else if !word_is_scalar_value(words[pos]) {
        Err(DecodeError::InvalidScalar { offset: pos as usize, word: words[pos] })
    } else {
        match spec_decode_chars(words, pos + 1, count - 1) {
            Ok(rest) => Ok(seq![scalar_char(words[pos])] + rest),
            Err(e) => Err(e),
        }
    }
}

/// What decoding one tagged value at `pos` denotes, with `depth` array
/// levels still allowed: the value's model and its exact word footprint, or
/// the failure.
///
/// Tag order on the wire: 0 = Long, 1 = String, 2 = Bool, 3 = Array,
/// 4 = Function, 5 = Null.  A declared length is met from the remaining
/// words up front, so a length that cannot be satisfied (negative included)
/// fails with `TruncatedInput` before any element is examined.
pub open spec fn spec_decode_value(words: Seq<i64>, pos: int, depth: nat) -> Result<
    (SpecValue, int),
    DecodeError,
>
    decreases depth, 0int, 0int,
{
    if !(0 <= pos && pos < words.len()) {
        Err(DecodeError::TruncatedInput { offset: pos as usize })
    } else {
        let tag = words[pos];
        if tag == 0 {
            if pos + 1 >= words.len() {
                Err(DecodeError::TruncatedInput { offset: (pos + 1) as usize })
            } else {
                Ok((SpecValue::Long(words[pos + 1]), 2))
            }
        } else if tag == 1 {
            if pos + 1 >= words.len() {
                Err(DecodeError::TruncatedInput { offset: (pos + 1) as usize })
            } else {
                let l = words[pos + 1] as int;
                if l < 0 || pos + 2 + l > words.len() {
                    Err(DecodeError::TruncatedInput { offset: (pos + 1) as usize })
                } else {
                    match spec_decode_chars(words, pos + 2, l) {
                        Ok(cs) => Ok((SpecValue::Str(cs), 2 + l)),
                        Err(e) => Err(e),
                    }
                }
            }
        } else if tag == 2 {
            if pos + 1 >= words.len() {
                Err(DecodeError::TruncatedInput { offset: (pos + 1) as usize })
            } else if words[pos + 1] == 0 {
                Ok((SpecValue::Bool(true), 2))
            } else if words[pos + 1] == 1 {
                Ok((SpecValue::Bool(false), 2))
            } else {
                Err(DecodeError::InvalidBool { offset: (pos + 1) as usize, word: words[pos + 1] })
            }
        } else if tag == 3 {
            if depth == 0 {
                Err(DecodeError::TooDeep { offset: pos as usize })
            } else if pos + 1 >= words.len() {
                Err(DecodeError::TruncatedInput { offset: (pos + 1) as usize })
            } else {
                let n = words[pos + 1] as int;
                if n < 0 || pos + 2 + n > words.len() {
                    Err(DecodeError::TruncatedInput { offset: (pos + 1) as usize })
                } else {
                    match spec_decode_values(words, pos + 2, n, (depth - 1) as nat) {
                        Ok((elems, used)) => Ok((SpecValue::Array(elems), 2 + used)),
                        Err(e) => Err(e),
                    }
                }
            }
        } else if tag == 4 || tag == 5 {
            Err(DecodeError::UnsupportedValueTag { offset: pos as usize, tag })
        } else {
            Err(DecodeError::UnknownTag { offset: pos as usize, tag })
        }
    }
}

/// What decoding `count` tagged values one after another denotes: their
/// models in order and the total word footprint, or the first failure.
pub open spec fn spec_decode_values(words: Seq<i64>, pos: int, count: int, depth: nat) -> Result<
    (Seq<SpecValue>, int),
    DecodeError,
>
    decreases depth, 1int, count,
{
    if count <= 0 {
        Ok((Seq::empty(), 0))
    } else {
        match spec_decode_value(words, pos, depth) {
            Ok((v, n)) => match spec_decode_values(words, pos + n, count - 1, depth) {
                Ok((rest, m)) => Ok((seq![v] + rest, n + m)),
                Err(e) => Err(e),
            },
            Err(e) => Err(e),
        }
    }
}

/// A successful value decode consumes at least its tag and one payload or
/// length word, and never reads past the end of the stream.
pub proof fn lemma_spec_decode_value_bounds(words: Seq<i64>, pos: int, depth: nat)
    ensures
        spec_decode_value(words, pos, depth) matches Ok((v, n)) ==> 0 <= pos && 2 <= n && pos + n
            <= words.len(),
    decreases depth, 0int, 0int,
{
    if 0 <= pos && pos < words.len() && words[pos] == 3 && depth > 0 && pos + 1 < words.len() {
        let n = words[pos + 1] as int;
        if 0 <= n && pos + 2 + n <= words.len() {
            lemma_spec_decode_values_bounds(words, pos + 2, n, (depth - 1) as nat);
        }
    }
}

/// A successful decode of a value sequence consumes no words for an empty
/// count and never reads past the end of the stream.
pub proof fn lemma_spec_decode_values_bounds(words: Seq<i64>, pos: int, count: int, depth: nat)
    ensures
        spec_decode_values(words, pos, count, depth) matches Ok((s, m)) ==> {
            &&& 0 <= m
            &&& s.len() == (if count >= 0 { count } else { 0 })
            &&& count <= 0 ==> m == 0
            &&& count > 0 ==> 2 * count <= m && pos + m <= words.len()
        },
    decreases depth, 1int, count,
{
    if count > 0 {
        lemma_spec_decode_value_bounds(words, pos, depth);
        if let Ok((v, n)) = spec_decode_value(words, pos, depth) {
            lemma_spec_decode_values_bounds(words, pos + n, count - 1, depth);
        }
    }
}

/// A batch of decoded values together with the number of words they
/// occupied on the wire.
#[derive(Debug, PartialEq)]
pub struct TValueDeserializeResult {
    pub array: Vec<Value>,
    pub idx: usize,
}

impl TValueDeserializeResult {
    pub fn new(array: Vec<Value>, idx: usize) -> (r: TValueDeserializeResult)
        ensures
            r.array == array,
            r.idx == idx,
    {
        TValueDeserializeResult { array, idx }
    }
}

/// Decodes `count` string words starting at `pos` into characters.
fn decode_chars(words: &Vec<i64>, pos: usize, count: usize) -> (r: Result<Vec<char>, DecodeError>)
    requires
        pos + count <= words@.len(),
    ensures
        (match r {
            Ok(cs) => spec_decode_chars(words@, pos as int, count as int) == Ok::<
                Seq<char>,
                DecodeError,
            >(cs@),
            Err(e) => spec_decode_chars(words@, pos as int, count as int) == Err::<
                Seq<char>,
                DecodeError,
            >(e),
        }),
{
    proof {
        vstd::std_specs::vec::axiom_spec_len(words);
    }
    let mut cs: Vec<char> = Vec::new();
    let mut j: usize = 0;
    while j < count
        invariant
            j <= count,
            pos + count <= words@.len(),
            words@.len() <= usize::MAX,
            cs@.len() == j,
            spec_decode_chars(words@, pos as int, count as int) == (match spec_decode_chars(
                words@,
                pos + j,
                count - j,
            ) {
                Ok(rest) => Ok::<Seq<char>, DecodeError>(cs@ + rest),
                Err(e) => Err::<Seq<char>, DecodeError>(e),
            }),
        decreases count - j,
    {
        let w = words[pos + j];
        if !(0 <= w && w <= 0x10FFFF) || (0xD800 <= w && w <= 0xDFFF) {
            return Err(DecodeError::InvalidScalar { offset: pos + j, word: w });
        }
        match char::from_u32(w as u32) {
            Some(c) => {
                proof {
                    vstd::utf8::char_u32_cast(c, w as u32);
                    assert(c == scalar_char(w));
                    if let Ok(rest) = spec_decode_chars(words@, pos + j + 1, count - j - 1) {
                        assert(cs@ + (seq![c] + rest) =~= cs@.push(c) + rest);
                    }
                }
                cs.push(c);
                j += 1;
            },
            None => {
                // unreachable: the range check above makes from_u32 return Some
                return Err(DecodeError::InvalidScalar { offset: pos + j, word: w });
            },
        }
    }
    proof {
        assert(cs@ + Seq::<char>::empty() =~= cs@);
    }
    Ok(cs)
}

/// Decodes one tagged value at `pos` with `depth` array levels still
/// allowed, returning the value and its exact word footprint.
pub fn decode_value_at(words: &Vec<i64>, pos: usize, depth: u64) -> (r: Result<
    (Value, usize),
    DecodeError,
>)
    ensures
        (match r {
            Ok((v, n)) => spec_decode_value(words@, pos as int, depth as nat) == Ok::<
                (SpecValue, int),
                DecodeError,
            >((v@, n as int)),
            Err(e) => spec_decode_value(words@, pos as int, depth as nat) == Err::<
                (SpecValue, int),
                DecodeError,
            >(e),
        }),
    decreases depth, 0int,
{
    if pos >= words.len() {
        return Err(DecodeError::TruncatedInput { offset: pos });
    }
    let tag = words[pos];
    if tag == 0 {
        if pos + 1 >= words.len() {
            return Err(DecodeError::TruncatedInput { offset: pos + 1 });
        }
        Ok((Value::Long(words[pos + 1]), 2))
    } else if tag == 1 {
        if pos + 1 >= words.len() {
            return Err(DecodeError::TruncatedInput { offset: pos + 1 });
        }
        let l = words[pos + 1];
        let avail = words.len() - (pos + 2);
        if l < 0 || l as u64 > avail as u64 {
            return Err(DecodeError::TruncatedInput { offset: pos + 1 });
        }
        match decode_chars(words, pos + 2, l as usize) {
            Ok(cs) => Ok((Value::Str(cs), 2 + l as usize)),
            Err(e) => Err(e),
        }
    } else if tag == 2 {
        if pos + 1 >= words.len() {
            return Err(DecodeError::TruncatedInput { offset: pos + 1 });
        }
        let w = words[pos + 1];
        if w == 0 || w == 1 {
            Ok((Value::Bool(int_to_bool(w)), 2))
        } else {
            Err(DecodeError::InvalidBool { offset: pos + 1, word: w })
        }
    } else if tag == 3 {
        if depth == 0 {
            return Err(DecodeError::TooDeep { offset: pos });
        }
        if pos + 1 >= words.len() {
            return Err(DecodeError::TruncatedInput { offset: pos + 1 });
        }
        let n = words[pos + 1];
        let avail = words.len() - (pos + 2);
        if n < 0 || n as u64 > avail as u64 {
            return Err(DecodeError::TruncatedInput { offset: pos + 1 });
        }
        match decode_values(words, pos + 2, n as usize, depth - 1) {
            Ok(res) => {
                proof {
                    lemma_spec_decode_values_bounds(
                        words@,
                        pos + 2,
                        n as int,
                        (depth - 1) as nat,
                    );
                }
                Ok((Value::Array(res.array), 2 + res.idx))
            },
            Err(e) => Err(e),
        }
    } else if tag == 4 || tag == 5 {
        Err(DecodeError::UnsupportedValueTag { offset: pos, tag })
    } else {
        Err(DecodeError::UnknownTag { offset: pos, tag })
    }
}

/// Decodes `count` tagged values back to back starting at `pos`, with
/// `depth` array levels still allowed for each.
pub fn decode_values(words: &Vec<i64>, pos: usize, count: usize, depth: u64) -> (r: Result<
    TValueDeserializeResult,
    DecodeError,
>)
    ensures
        (match r {
            Ok(res) => spec_decode_values(words@, pos as int, count as int, depth as nat) == Ok::<
                (Seq<SpecValue>, int),
                DecodeError,
            >((values_view(res.array@), res.idx as int)) && res.array@.len() == count,
            Err(e) => spec_decode_values(words@, pos as int, count as int, depth as nat) == Err::<
                (Seq<SpecValue>, int),
                DecodeError,
            >(e),
        }),
    decreases depth, 1int,
{
    proof {
        vstd::std_specs::vec::axiom_spec_len(words);
    }
    let mut array: Vec<Value> = Vec::new();
    let mut cur: usize = pos;
    let mut i: usize = 0;
    while i < count
        invariant
            i <= count,
            array@.len() == i,
            pos <= cur,
            words@.len() <= usize::MAX,
            i > 0 ==> cur <= words@.len(),
            spec_decode_values(words@, pos as int, count as int, depth as nat) == (match
                spec_decode_values(words@, cur as int, count - i, depth as nat) {
                Ok((rest, m)) => Ok::<(Seq<SpecValue>, int), DecodeError>(
                    (values_view(array@) + rest, (cur - pos) + m),
                ),
                Err(e) => Err::<(Seq<SpecValue>, int), DecodeError>(e),
            }),
        decreases count - i,
    {
        match decode_value_at(words, cur, depth) {
            Err(e) => {
                return Err(e);
            },
            Ok((v, n)) => {
                proof {
                    lemma_spec_decode_value_bounds(words@, cur as int, depth as nat);
                    crate::value::lemma_values_view_push(array@, v);
                    if let Ok((rest, m)) = spec_decode_values(
                        words@,
                        cur + n,
                        count - i - 1,
                        depth as nat,
                    ) {
                        assert(values_view(array@) + (seq![v@] + rest) =~= values_view(
                            array@.push(v),
                        ) + rest);
                    }
                }
                array.push(v);
                cur = cur + n;
                i = i + 1;
            },
        }
    }
    proof {
        assert(values_view(array@) + Seq::<SpecValue>::empty() =~= values_view(array@));
    }
    Ok(TValueDeserializeResult::new(array, cur - pos))
}

/// The opcode a zero-operand tag denotes.  Meaningful only for tags that
/// satisfy [`is_zero_operand_tag`].
pub open spec fn spec_zero_operand_opcode(tag: i64) -> SpecOpcode {
    if tag == 4 {
        SpecOpcode::OpAdd
    } else if tag == 5 {
        SpecOpcode::OpSub
    } else if tag == 6 {
        SpecOpcode::OpMul
    } else if tag == 8 {
        SpecOpcode::OpMod
    } else if tag == 9 {
        SpecOpcode::OpReturn
    } else if tag == 16 {
        SpecOpcode::OpNop
    } else if tag == 18 {
        SpecOpcode::OpEqualExpression
    } else if tag == 19 {
        SpecOpcode::OpNotEqualExpression
    } else if tag == 20 {
        SpecOpcode::OpLtExpression
    } else if tag == 21 {
        SpecOpcode::OpLteExpression
    } else if tag == 22 {
        SpecOpcode::OpGtExpression
    } else if tag == 23 {
        SpecOpcode::OpGteExpression
    } else if tag == 24 {
        SpecOpcode::OpAndExpression
    } else if tag == 25 {
        SpecOpcode::OpOrExpression
    } else if tag == 26 {
        SpecOpcode::OpXorExpression
    } else if tag == 29 {
        SpecOpcode::OpPrint
    } else if tag == 30 {
        SpecOpcode::OpPrintln
    } else {
        SpecOpcode::OpAssert
    }
}

/// The opcode a one-operand tag and its decoded operand denote, after the
/// operand's kind is enforced: push takes any value, make-array and the
/// jump and if tags take a Long, every other tag in the class takes a
/// String.  `at` is the word index where the operand started, for the
/// error.  Meaningful only for tags that satisfy [`is_one_operand_tag`].
pub open spec fn spec_opcode_with_one_operand(tag: i64, v: SpecValue, at: int) -> Result<
    SpecOpcode,
    DecodeError,
> {
    if tag == 3 {
        Ok(SpecOpcode::OpPush(v))
    } else if tag == 14 || tag == 27 || tag == 28 || tag == 31 {
        match v {
            SpecValue::Long(x) => Ok(
                if tag == 14 {
                    SpecOpcode::OpMakeArray(x)
                } else if tag == 27 {
                    SpecOpcode::OpJumpRel(x)
                } else if tag == 28 {
                    SpecOpcode::OpJumpAbs(x)
                } else {
                    SpecOpcode::OpIFStatement(x)
                },
            ),
            _ => Err(
                DecodeError::TypeMismatch {
                    offset: at as usize,
                    expected: ValueKind::Long,
                    actual: spec_kind_of(v),
                },
            ),
        }
    } else {
        match v {
            SpecValue::Str(s) => Ok(
                if tag == 0 {
                    SpecOpcode::OpVariableDeclareOnlySymbol(s)
                } else if tag == 1 {
                    SpecOpcode::OpVariableDeclareWithAssign(s)
                } else if tag == 10 {
                    SpecOpcode::OpGetVariable(s)
                } else if tag == 11 {
                    SpecOpcode::OpSetVariablePop(s)
                } else if tag == 12 {
                    SpecOpcode::OpSetArrayElement(s)
                } else if tag == 13 {
                    SpecOpcode::OpGetArrayElement(s)
                } else if tag == 15 {
                    SpecOpcode::OpCall(s)
                } else {
                    SpecOpcode::OpAssignExpression(s)
                },
            ),
            _ => Err(
                DecodeError::TypeMismatch {
                    offset: at as usize,
                    expected: ValueKind::Str,
                    actual: spec_kind_of(v),
                },
            ),
        }
    }
}

/// The function-declare opcode its two decoded operands denote: the first
/// must be a String (the function name), the second a Long (the declared
/// count).  `at1` and `at2` are the word indices where the operands
/// started; the first mismatch wins.
pub open spec fn spec_function_declare(v1: SpecValue, v2: SpecValue, at1: int, at2: int) -> Result<
    SpecOpcode,
    DecodeError,
> {
    match v1 {
        SpecValue::Str(s) => match v2 {
            SpecValue::Long(l) => Ok(SpecOpcode::OpFunctionDeclare(s, l)),
            _ => Err(
                DecodeError::TypeMismatch {
                    offset: at2 as usize,
                    expected: ValueKind::Long,
                    actual: spec_kind_of(v2),
                },
            ),
        },
        _ => Err(
            DecodeError::TypeMismatch {
                offset: at1 as usize,
                expected: ValueKind::Str,
                actual: spec_kind_of(v1),
            },
        ),
    }
}

/// What decoding one opcode at `pos` denotes: the instruction's model and
/// its exact word footprint, or the failure.
///
/// An opcode is a tag word in the range 0 to 34 followed by as many tagged
/// values as its arity class requires.  The tags 2 (pop), 7 (div) and 34
/// (the reserved marker) occupy the numbering without a decode rule and
/// fail with `UnknownTag`, exactly like a tag outside the range.
pub open spec fn spec_decode_opcode(words: Seq<i64>, pos: int) -> Result<
    (SpecOpcode, int),
    DecodeError,
> {
    if !(0 <= pos && pos < words.len()) {
        Err(DecodeError::TruncatedInput { offset: pos as usize })
    } else {
        let tag = words[pos];
        if is_zero_operand_tag(tag) {
            Ok((spec_zero_operand_opcode(tag), 1))
        } else if is_one_operand_tag(tag) {
            match spec_decode_value(words, pos + 1, MAX_VALUE_DEPTH as nat) {
                Ok((v, n)) => match spec_opcode_with_one_operand(tag, v, pos + 1) {
                    Ok(op) => Ok((op, 1 + n)),
                    Err(e) => Err(e),
                },
                Err(e) => Err(e),
            }
        } else if is_two_operand_tag(tag) {
            match spec_decode_value(words, pos + 1, MAX_VALUE_DEPTH as nat) {
                Ok((v1, n1)) => match spec_decode_value(words, pos + 1 + n1, MAX_VALUE_DEPTH as nat) {
                    Ok((v2, n2)) => match spec_function_declare(v1, v2, pos + 1, pos + 1 + n1) {
                        Ok(op) => Ok((op, 1 + n1 + n2)),
                        Err(e) => Err(e),
                    },
                    Err(e) => Err(e),
                },
                Err(e) => Err(e),
            }
        } else {
            Err(DecodeError::UnknownTag { offset: pos as usize, tag })
        }
    }
}

/// A successful opcode decode consumes at least its tag word and never
/// reads past the end of the stream.
pub proof fn lemma_spec_decode_opcode_bounds(words: Seq<i64>, pos: int)
    ensures
        spec_decode_opcode(words, pos) matches Ok((op, n)) ==> 0 <= pos && 1 <= n && pos + n
            <= words.len(),
{
    if 0 <= pos && pos < words.len() {
        lemma_spec_decode_value_bounds(words, pos + 1, MAX_VALUE_DEPTH as nat);
        if let Ok((v1, n1)) = spec_decode_value(words, pos + 1, MAX_VALUE_DEPTH as nat) {
            lemma_spec_decode_value_bounds(words, pos + 1 + n1, MAX_VALUE_DEPTH as nat);
        }
    }
}

/// Type-checks a one-operand opcode's decoded operand and assembles the
/// instruction.  `at` is the word index where the operand started.
fn opcode_with_one_operand(tag: i64, v: Value, at: usize) -> (r: Result<Opcode, DecodeError>)
    requires
        is_one_operand_tag(tag),
    ensures
        (match r {
            Ok(op) => spec_opcode_with_one_operand(tag, v@, at as int) == Ok::<
                SpecOpcode,
                DecodeError,
            >(op@),
            Err(e) => spec_opcode_with_one_operand(tag, v@, at as int) == Err::<
                SpecOpcode,
                DecodeError,
            >(e),
        }),
{
    if tag == 3 {
        return Ok(Opcode::OpPush(v));
    }
    if tag == 14 || tag == 27 || tag == 28 || tag == 31 {
        match v {
            Value::Long(x) => Ok(
                if tag == 14 {
                    Opcode::OpMakeArray(x)
                } else if tag == 27 {
                    Opcode::OpJumpRel(x)
                } else if tag == 28 {
                    Opcode::OpJumpAbs(x)
                } else {
                    Opcode::OpIFStatement(x)
                },
            ),
            _ => Err(
                DecodeError::TypeMismatch {
                    offset: at,
                    expected: ValueKind::Long,
                    actual: v.kind(),
                },
            ),
        }
    } else {
        match v {
            Value::Str(s) => Ok(
                if tag == 0 {
                    Opcode::OpVariableDeclareOnlySymbol(s)
                } else if tag == 1 {
                    Opcode::OpVariableDeclareWithAssign(s)
                } else if tag == 10 {
                    Opcode::OpGetVariable(s)
                } else if tag == 11 {
                    Opcode::OpSetVariablePop(s)
                } else if tag == 12 {
                    Opcode::OpSetArrayElement(s)
                } else if tag == 13 {
                    Opcode::OpGetArrayElement(s)
                } else if tag == 15 {
                    Opcode::OpCall(s)
                } else {
                    Opcode::OpAssignExpression(s)
                },
            ),
            _ => Err(
                DecodeError::TypeMismatch {
                    offset: at,
                    expected: ValueKind::Str,
                    actual: v.kind(),
                },
            ),
        }
    }
}

/// Decodes one opcode at `pos`: the tag word, then as many tagged values
/// as the tag's arity class requires, each type-checked.
pub fn decode_opcode(words: &Vec<i64>, pos: usize) -> (r: Result<(Opcode, usize), DecodeError>)
    ensures
        (match r {
            Ok((op, n)) => spec_decode_opcode(words@, pos as int) == Ok::<
                (SpecOpcode, int),
                DecodeError,
            >((op@, n as int)),
            Err(e) => spec_decode_opcode(words@, pos as int) == Err::<
                (SpecOpcode, int),
                DecodeError,
            >(e),
        }),
{
    if pos >= words.len() {
        return Err(DecodeError::TruncatedInput { offset: pos });
    }
    let tag = words[pos];
    if tag == 4 || tag == 5 || tag == 6 || tag == 8 || tag == 9 || tag == 16 || (18 <= tag && tag
        <= 26) || tag == 29 || tag == 30 || tag == 33 {
        let op = if tag == 4 {
            Opcode::OpAdd
        } else if tag == 5 {
            Opcode::OpSub
        } else if tag == 6 {
            Opcode::OpMul
        } else if tag == 8 {
            Opcode::OpMod
        } else if tag == 9 {
            Opcode::OpReturn
        } else if tag == 16 {
            Opcode::OpNop
        } else if tag == 18 {
            Opcode::OpEqualExpression
        } else if tag == 19 {
            Opcode::OpNotEqualExpression
        } else if tag == 20 {
            Opcode::OpLtExpression
        } else if tag == 21 {
            Opcode::OpLteExpression
        } else if tag == 22 {
            Opcode::OpGtExpression
        } else if tag == 23 {
            Opcode::OpGteExpression
        } else if tag == 24 {
            Opcode::OpAndExpression
        } else if tag == 25 {
            Opcode::OpOrExpression
        } else if tag == 26 {
            Opcode::OpXorExpression
        } else if tag == 29 {
            Opcode::OpPrint
        } else if tag == 30 {
            Opcode::OpPrintln
        } else {
            Opcode::OpAssert
        };
        Ok((op, 1))
    } else if tag == 0 || tag == 1 || tag == 3 || (10 <= tag && tag <= 15) || tag == 27 || tag
        == 28 || tag == 31 || tag == 32 {
        match decode_value_at(words, pos + 1, MAX_VALUE_DEPTH) {
            Ok((v, n)) => {
                proof {
                    lemma_spec_decode_value_bounds(words@, pos + 1, MAX_VALUE_DEPTH as nat);
                }
                match opcode_with_one_operand(tag, v, pos + 1) {
                    Ok(op) => Ok((op, 1 + n)),
                    Err(e) => Err(e),
                }
            },
            Err(e) => Err(e),
        }
    } else if tag == 17 {
        match decode_value_at(words, pos + 1, MAX_VALUE_DEPTH) {
            Ok((v1, n1)) => {
                proof {
                    lemma_spec_decode_value_bounds(words@, pos + 1, MAX_VALUE_DEPTH as nat);
                }
                match decode_value_at(words, pos + 1 + n1, MAX_VALUE_DEPTH) {
                    Ok((v2, n2)) => {
                        proof {
                            lemma_spec_decode_value_bounds(
                                words@,
                                pos + 1 + n1,
                                MAX_VALUE_DEPTH as nat,
                            );
                        }
                        match v1 {
                            Value::Str(s) => match v2 {
                                Value::Long(l) => Ok(
                                    (Opcode::OpFunctionDeclare(s, l), 1 + n1 + n2),
                                ),
                                _ => Err(
                                    DecodeError::TypeMismatch {
                                        offset: pos + 1 + n1,
                                        expected: ValueKind::Long,
                                        actual: v2.kind(),
                                    },
                                ),
                            },
                            _ => Err(
                                DecodeError::TypeMismatch {
                                    offset: pos + 1,
                                    expected: ValueKind::Str,
                                    actual: v1.kind(),
                                },
                            ),
                        }
                    },
                    Err(e) => Err(e),
                }
            },
            Err(e) => Err(e),
        }
    } else {
        Err(DecodeError::UnknownTag { offset: pos, tag })
    }
}

/// Decodes one tagged value at `pos`, allowing up to [`MAX_VALUE_DEPTH`]
/// levels of array nesting, returning the value and its exact word
/// footprint.
pub fn decode_value(words: &Vec<i64>, pos: usize) -> (r: Result<(Value, usize), DecodeError>)
    ensures
        (match r {
            Ok((v, n)) => spec_decode_value(words@, pos as int, MAX_VALUE_DEPTH as nat) == Ok::<
                (SpecValue, int),
                DecodeError,
            >((v@, n as int)),
            Err(e) => spec_decode_value(words@, pos as int, MAX_VALUE_DEPTH as nat) == Err::<
                (SpecValue, int),
                DecodeError,
            >(e),
        }),
{
    decode_value_at(words, pos, MAX_VALUE_DEPTH)
}

/// What decoding a whole program from `pos` to the end of the stream
/// denotes: the instruction models in order, or the first failure.
/// Decoding succeeds exactly when opcode after opcode lands the cursor on
/// the stream's end.
pub open spec fn spec_decode_program_from(words: Seq<i64>, pos: int) -> Result<
    Seq<SpecOpcode>,
    DecodeError,
>
    decreases words.len() - pos
    via spec_decode_program_from_decreases
{
    if pos < 0 || pos >= words.len() {
        Ok(Seq::empty())
    } else {
        match spec_decode_opcode(words, pos) {
            Ok((op, n)) => match spec_decode_program_from(words, pos + n) {
                Ok(rest) => Ok(seq![op] + rest),
                Err(e) => Err(e),
            },
            Err(e) => Err(e),
        }
    }
}

#[via_fn]
proof fn spec_decode_program_from_decreases(words: Seq<i64>, pos: int) {
    lemma_spec_decode_opcode_bounds(words, pos);
}

/// What decoding a whole program denotes.
pub open spec fn spec_decode_program(words: Seq<i64>) -> Result<Seq<SpecOpcode>, DecodeError> {
    spec_decode_program_from(words, 0)
}

/// Decodes the whole stream into its instruction sequence.  The decode is
/// atomic: on any failure the error alone comes back and no opcode list is
/// exposed.
pub fn decode_program(words: &Vec<i64>) -> (r: Result<Vec<Opcode>, DecodeError>)
    ensures
        (match r {
            Ok(ops) => spec_decode_program(words@) == Ok::<Seq<SpecOpcode>, DecodeError>(
                ops.deep_view(),
            ),
            Err(e) => spec_decode_program(words@) == Err::<Seq<SpecOpcode>, DecodeError>(e),
        }),
{
    proof {
        vstd::std_specs::vec::axiom_spec_len(words);
    }
    let mut ret: Vec<Opcode> = Vec::new();
    let mut idx: usize = 0;
    while idx < words.len()
        invariant
            idx <= words@.len(),
            words@.len() <= usize::MAX,
            spec_decode_program_from(words@, 0) == (match spec_decode_program_from(
                words@,
                idx as int,
            ) {
                Ok(rest) => Ok::<Seq<SpecOpcode>, DecodeError>(ret.deep_view() + rest),
                Err(e) => Err::<Seq<SpecOpcode>, DecodeError>(e),
            }),
        decreases words@.len() - idx,
    {
        match decode_opcode(words, idx) {
            Err(e) => {
                return Err(e);
            },
            Ok((op, n)) => {
                proof {
                    lemma_spec_decode_opcode_bounds(words@, idx as int);
                }
                let ghost prev = ret.deep_view();
                ret.push(op);
                idx = idx + n;
                proof {
                    assert(ret.deep_view() =~= prev.push(op@));
                    if let Ok(rest) = spec_decode_program_from(words@, idx as int) {
                        assert(prev + (seq![op@] + rest) =~= ret.deep_view() + rest);
                    }
                }
            },
        }
    }
    proof {
        assert(ret.deep_view() + Seq::<SpecOpcode>::empty() =~= ret.deep_view());
    }
    Ok(ret)
}

} // verus!
