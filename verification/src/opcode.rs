//! Instructions of the toy virtual machine and their mathematical model.

use vstd::prelude::*;

use crate::value::SpecValue;
use crate::value::Value;
use crate::value::value_view;

verus! {

/// One decoded instruction.
///
/// The wire tags run from 0 (`OpVariableDeclareOnlySymbol`) to 34 (`IValue`)
/// in declaration order.  Three tags occupy the numbering without a defined
/// decode rule: `OpPop` (2) and `OpDiv` (7) are instructions the serialized
/// form never carries, and `IValue` (34) is a reserved internal marker.  The
/// decoder treats all three as a fatal `UnknownTag`, by design; the variants
/// still exist here because the instruction set has them.
#[derive(Debug, PartialEq)]
pub enum Opcode {
    OpVariableDeclareOnlySymbol(Vec<char>),
    OpVariableDeclareWithAssign(Vec<char>),
    OpPop,
    OpPush(Value),
    OpAdd,
    OpSub,
    OpMul,
    OpDiv,
    OpMod,
    OpReturn,
    OpGetVariable(Vec<char>),
    OpSetVariablePop(Vec<char>),
    OpSetArrayElement(Vec<char>),
    OpGetArrayElement(Vec<char>),
    OpMakeArray(i64),
    OpCall(Vec<char>),
    OpNop,
    OpFunctionDeclare(Vec<char>, i64),
    OpEqualExpression,
    OpNotEqualExpression,
    OpLtExpression,
    OpLteExpression,
    OpGtExpression,
    OpGteExpression,
    OpAndExpression,
    OpOrExpression,
    OpXorExpression,
    OpJumpRel(i64),
    OpJumpAbs(i64),
    OpPrint,
    OpPrintln,
    OpIFStatement(i64),
    OpAssignExpression(Vec<char>),
    OpAssert,
    IValue,
}

/// The mathematical model of an [`Opcode`]: the same shape over `Seq` and
/// [`SpecValue`].
pub enum SpecOpcode {
    OpVariableDeclareOnlySymbol(Seq<char>),
    OpVariableDeclareWithAssign(Seq<char>),
    OpPop,
    OpPush(SpecValue),
    OpAdd,
    OpSub,
    OpMul,
    OpDiv,
    OpMod,
    OpReturn,
    OpGetVariable(Seq<char>),
    OpSetVariablePop(Seq<char>),
    OpSetArrayElement(Seq<char>),
    OpGetArrayElement(Seq<char>),
    OpMakeArray(i64),
    OpCall(Seq<char>),
    OpNop,
    OpFunctionDeclare(Seq<char>, i64),
    OpEqualExpression,
    OpNotEqualExpression,
    OpLtExpression,
    OpLteExpression,
    OpGtExpression,
    OpGteExpression,
    OpAndExpression,
    OpOrExpression,
    OpXorExpression,
    OpJumpRel(i64),
    OpJumpAbs(i64),
    OpPrint,
    OpPrintln,
    OpIFStatement(i64),
    OpAssignExpression(Seq<char>),
    OpAssert,
    IValue,
}

pub open spec fn opcode_view(op: Opcode) -> SpecOpcode {
    match op {
        Opcode::OpVariableDeclareOnlySymbol(s) => SpecOpcode::OpVariableDeclareOnlySymbol(s@),
        Opcode::OpVariableDeclareWithAssign(s) => SpecOpcode::OpVariableDeclareWithAssign(s@),
        Opcode::OpPop => SpecOpcode::OpPop,
        Opcode::OpPush(v) => SpecOpcode::OpPush(value_view(v)),
        Opcode::OpAdd => SpecOpcode::OpAdd,
        Opcode::OpSub => SpecOpcode::OpSub,
        Opcode::OpMul => SpecOpcode::OpMul,
        Opcode::OpDiv => SpecOpcode::OpDiv,
        Opcode::OpMod => SpecOpcode::OpMod,
        Opcode::OpReturn => SpecOpcode::OpReturn,
        Opcode::OpGetVariable(s) => SpecOpcode::OpGetVariable(s@),
        Opcode::OpSetVariablePop(s) => SpecOpcode::OpSetVariablePop(s@),
        Opcode::OpSetArrayElement(s) => SpecOpcode::OpSetArrayElement(s@),
        Opcode::OpGetArrayElement(s) => SpecOpcode::OpGetArrayElement(s@),
        Opcode::OpMakeArray(n) => SpecOpcode::OpMakeArray(n),
        Opcode::OpCall(s) => SpecOpcode::OpCall(s@),
        Opcode::OpNop => SpecOpcode::OpNop,
        Opcode::OpFunctionDeclare(s, n) => SpecOpcode::OpFunctionDeclare(s@, n),
        Opcode::OpEqualExpression => SpecOpcode::OpEqualExpression,
        Opcode::OpNotEqualExpression => SpecOpcode::OpNotEqualExpression,
        Opcode::OpLtExpression => SpecOpcode::OpLtExpression,
        Opcode::OpLteExpression => SpecOpcode::OpLteExpression,
        Opcode::OpGtExpression => SpecOpcode::OpGtExpression,
        Opcode::OpGteExpression => SpecOpcode::OpGteExpression,
        Opcode::OpAndExpression => SpecOpcode::OpAndExpression,
        Opcode::OpOrExpression => SpecOpcode::OpOrExpression,
        Opcode::OpXorExpression => SpecOpcode::OpXorExpression,
        Opcode::OpJumpRel(n) => SpecOpcode::OpJumpRel(n),
        Opcode::OpJumpAbs(n) => SpecOpcode::OpJumpAbs(n),
        Opcode::OpPrint => SpecOpcode::OpPrint,
        Opcode::OpPrintln => SpecOpcode::OpPrintln,
        Opcode::OpIFStatement(n) => SpecOpcode::OpIFStatement(n),
        Opcode::OpAssignExpression(s) => SpecOpcode::OpAssignExpression(s@),
        Opcode::OpAssert => SpecOpcode::OpAssert,
        Opcode::IValue => SpecOpcode::IValue,
    }
}

impl View for Opcode {
    type V = SpecOpcode;

    open spec fn view(&self) -> SpecOpcode {
        opcode_view(*self)
    }
}

impl DeepView for Opcode {
    type V = SpecOpcode;

    open spec fn deep_view(&self) -> SpecOpcode {
        opcode_view(*self)
    }
}

/// The number of operand slots an opcode carries: its arity class.
pub open spec fn spec_operand_count(op: SpecOpcode) -> int {
    match op {
        SpecOpcode::OpVariableDeclareOnlySymbol(_) => 1,
        SpecOpcode::OpVariableDeclareWithAssign(_) => 1,
        SpecOpcode::OpPop => 0,
        SpecOpcode::OpPush(_) => 1,
        SpecOpcode::OpAdd => 0,
        SpecOpcode::OpSub => 0,
        SpecOpcode::OpMul => 0,
        SpecOpcode::OpDiv => 0,
        SpecOpcode::OpMod => 0,
        SpecOpcode::OpReturn => 0,
        SpecOpcode::OpGetVariable(_) => 1,
        SpecOpcode::OpSetVariablePop(_) => 1,
        SpecOpcode::OpSetArrayElement(_) => 1,
        SpecOpcode::OpGetArrayElement(_) => 1,
        SpecOpcode::OpMakeArray(_) => 1,
        SpecOpcode::OpCall(_) => 1,
        SpecOpcode::OpNop => 0,
        SpecOpcode::OpFunctionDeclare(_, _) => 2,
        SpecOpcode::OpEqualExpression => 0,
        SpecOpcode::OpNotEqualExpression => 0,
        SpecOpcode::OpLtExpression => 0,
        SpecOpcode::OpLteExpression => 0,
        SpecOpcode::OpGtExpression => 0,
        SpecOpcode::OpGteExpression => 0,
        SpecOpcode::OpAndExpression => 0,
        SpecOpcode::OpOrExpression => 0,
        SpecOpcode::OpXorExpression => 0,
        SpecOpcode::OpJumpRel(_) => 1,
        SpecOpcode::OpJumpAbs(_) => 1,
        SpecOpcode::OpPrint => 0,
        SpecOpcode::OpPrintln => 0,
        SpecOpcode::OpIFStatement(_) => 1,
        SpecOpcode::OpAssignExpression(_) => 1,
        SpecOpcode::OpAssert => 0,
        SpecOpcode::IValue => 0,
    }
}

impl Opcode {
    /// The opcode's word footprint counting one word per operand slot: the
    /// tag word plus the arity class.  The reserved `IValue` marker has no
    /// size and is ruled out.
    pub fn opsize(op: Opcode) -> (r: i64)
        requires
            !(op is IValue),
        ensures
            r == 1 + spec_operand_count(op@),
    {
        match op {
            Opcode::OpVariableDeclareOnlySymbol(_) | Opcode::OpVariableDeclareWithAssign(_) => 2,
            Opcode::OpPop => 1,
            Opcode::OpPush(_) => 2,
            Opcode::OpAdd
            | Opcode::OpSub
            | Opcode::OpMul
            | Opcode::OpDiv
            | Opcode::OpMod
            | Opcode::OpReturn => 1,
            Opcode::OpGetVariable(_)
            | Opcode::OpSetVariablePop(_)
            | Opcode::OpSetArrayElement(_)
            | Opcode::OpGetArrayElement(_)
            | Opcode::OpMakeArray(_)
            | Opcode::OpCall(_) => 2,
            Opcode::OpNop => 1,
            Opcode::OpFunctionDeclare(_, _) => 3,
            Opcode::OpEqualExpression
            | Opcode::OpNotEqualExpression
            | Opcode::OpLtExpression
            | Opcode::OpLteExpression
            | Opcode::OpGtExpression
            | Opcode::OpGteExpression
            | Opcode::OpAndExpression
            | Opcode::OpOrExpression
            | Opcode::OpXorExpression => 1,
            Opcode::OpJumpRel(_) | Opcode::OpJumpAbs(_) => 2,
            Opcode::OpPrint => 1,
            Opcode::OpPrintln => 1,
            Opcode::OpIFStatement(_) | Opcode::OpAssignExpression(_) => 2,
            Opcode::OpAssert => 1,
            Opcode::IValue => 1,
        }
    }
}

/// Tags whose opcode carries no operand and is decodable: the arithmetic
/// group, return, nop, the nine comparison and logical operators, print,
/// println and assert.  Tags 2 (pop) and 7 (div) are deliberately absent.
pub open spec fn is_zero_operand_tag(tag: i64) -> bool {
    ||| tag == 4
    ||| tag == 5
    ||| tag == 6
    ||| tag == 8
    ||| tag == 9
    ||| tag == 16
    ||| (18 <= tag && tag <= 26)
    ||| tag == 29
    ||| tag == 30
    ||| tag == 33
}

/// Tags whose opcode carries exactly one tagged-value operand.
pub open spec fn is_one_operand_tag(tag: i64) -> bool {
    ||| tag == 0
    ||| tag == 1
    ||| tag == 3
    ||| (10 <= tag && tag <= 15)
    ||| tag == 27
    ||| tag == 28
    ||| tag == 31
    ||| tag == 32
}

/// Tags whose opcode carries two tagged-value operands: function-declare
/// only.
pub open spec fn is_two_operand_tag(tag: i64) -> bool {
    tag == 17
}

} // verus!
