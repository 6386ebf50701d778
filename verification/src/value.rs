//! Tagged values of the wire format and their mathematical model.

use vstd::prelude::*;

verus! {

broadcast use {
    vstd::seq::axiom_seq_index_decreases,
    vstd::seq::axiom_seq_subrange_decreases,
    vstd::std_specs::vec::axiom_vec_decreases_to_view,
};

/// The six kinds of tagged value the wire format knows, in tag order:
/// 0 = Long, 1 = Str, 2 = Bool, 3 = Array, 4 = Function, 5 = Null.
#[derive(Clone, Copy, Debug, PartialEq, Eq, Structural)]
pub enum ValueKind {
    Long,
    Str,
    Bool,
    Array,
    Function,
    Null,
}

impl ValueKind {
    /// Maps a tag word to the kind of value it announces; `None` for a word
    /// outside the six known tags.
    pub fn from_word(w: i64) -> (r: Option<ValueKind>)
        ensures
            r == ValueKind::spec_from_word(w),
    {
        match w {
            0 => Some(ValueKind::Long),
            1 => Some(ValueKind::Str),
            2 => Some(ValueKind::Bool),
            3 => Some(ValueKind::Array),
            4 => Some(ValueKind::Function),
            5 => Some(ValueKind::Null),
            _ => None,
        }
    }

    pub open spec fn spec_from_word(w: i64) -> Option<ValueKind> {
        if w == 0 {
            Some(ValueKind::Long)
        } else if w == 1 {
            Some(ValueKind::Str)
        } else if w == 2 {
            Some(ValueKind::Bool)
        } else if w == 3 {
            Some(ValueKind::Array)
        } else if w == 4 {
            Some(ValueKind::Function)
        } else if w == 5 {
            Some(ValueKind::Null)
        } else {
            None
        }
    }
}

/// A decoded tagged value.
///
/// `Function` and `Null` exist in the type space (an operand slot can name
/// them) but have no serialized payload; the value decoder never produces
/// them from the wire.
#[derive(Debug, PartialEq)]
pub enum Value {
    Long(i64),
    Str(Vec<char>),
    Bool(bool),
    Array(Vec<Value>),
    Function,
    Null,
}

/// The mathematical model of a [`Value`]: the same tree over `Seq` instead
/// of `Vec`.
pub enum SpecValue {
    Long(i64),
    Str(Seq<char>),
    Bool(bool),
    Array(Seq<SpecValue>),
    Function,
    Null,
}

pub open spec fn value_view(v: Value) -> SpecValue
    decreases v,
    via value_view_decreases
{
    match v {
        Value::Long(x) => SpecValue::Long(x),
        Value::Str(cs) => SpecValue::Str(cs@),
        Value::Bool(b) => SpecValue::Bool(b),
        Value::Array(items) => SpecValue::Array(values_view(items@)),
        Value::Function => SpecValue::Function,
        Value::Null => SpecValue::Null,
    }
}

#[via_fn]
proof fn value_view_decreases(v: Value) {
    if let Value::Array(items) = v {
        assert(decreases_to!(v => items));
        assert(decreases_to!(items => items@));
    }
}

/// The models of a sequence of values, element by element.
pub open spec fn values_view(s: Seq<Value>) -> Seq<SpecValue>
    decreases s,
{
    if s.len() == 0 {
        Seq::empty()
    } else {
        seq![value_view(s[0])] + values_view(s.subrange(1, s.len() as int))
    }
}

/// `values_view` maps `value_view` over its argument pointwise.
pub proof fn lemma_values_view_pointwise(s: Seq<Value>)
    ensures
        values_view(s).len() == s.len(),
        forall|i: int| 0 <= i < s.len() ==> values_view(s)[i] == value_view(s[i]),
    decreases s.len(),
{
    if s.len() > 0 {
        lemma_values_view_pointwise(s.subrange(1, s.len() as int));
    }
}

impl View for Value {
    type V = SpecValue;

    open spec fn view(&self) -> SpecValue {
        value_view(*self)
    }
}

impl DeepView for Value {
    type V = SpecValue;

    open spec fn deep_view(&self) -> SpecValue {
        value_view(*self)
    }
}

pub open spec fn spec_kind_of(v: SpecValue) -> ValueKind {
    match v {
        SpecValue::Long(_) => ValueKind::Long,
        SpecValue::Str(_) => ValueKind::Str,
        SpecValue::Bool(_) => ValueKind::Bool,
        SpecValue::Array(_) => ValueKind::Array,
        SpecValue::Function => ValueKind::Function,
        SpecValue::Null => ValueKind::Null,
    }
}

impl Value {
    /// The kind of this value.
    pub fn kind(&self) -> (r: ValueKind)
        ensures
            r == spec_kind_of(self@),
    {
        match self {
            Value::Long(_) => ValueKind::Long,
            Value::Str(_) => ValueKind::Str,
            Value::Bool(_) => ValueKind::Bool,
            Value::Array(_) => ValueKind::Array,
            Value::Function => ValueKind::Function,
            Value::Null => ValueKind::Null,
        }
    }
}

/// Appending a value on the right extends the mapped sequence on the right.
pub proof fn lemma_values_view_push(s: Seq<Value>, v: Value)
    ensures
        values_view(s.push(v)) == values_view(s).push(value_view(v)),
{
    lemma_values_view_pointwise(s);
    lemma_values_view_pointwise(s.push(v));
    assert(values_view(s.push(v)) =~= values_view(s).push(value_view(v)));
}

/// Boolean words use inverted polarity on the wire: 0 encodes true and
/// 1 encodes false.  Every other word is invalid, so callers must rule it
/// out first.
pub fn int_to_bool(t: i64) -> (r: bool)
    requires
        t == 0 || t == 1,
    ensures
        r == (t == 0),
{
    t == 0
}

} // verus!
