//! Decoded CAN signal values.
//!
//! A decoded value is an unsigned or signed integer, a text label from a
//! value-description table, or a number that still needs floating-point
//! scaling.  The crate holds no floating-point arithmetic: a float-typed
//! signal is carried as the raw bit window together with the rule by which
//! the surrounding program must turn it into a number.

use vstd::prelude::*;

verus! {

/// How the surrounding program must turn a raw bit window into a float:
/// reinterpret 32 or 64 bits, or convert an unsigned or signed integer,
/// then apply the signal's scale factor and offset.
#[derive(Clone, Copy, PartialEq, Eq, Structural, Debug)]
pub enum FloatEnc {
    Bits32,
    Bits64,
    Unsigned,
    Signed,
}

/// A decoded signal value.
pub enum CanValue {
    U64(u64),
    I64(i64),
    F64Raw(FloatEnc, u64),
    Str(String),
}

/// The mathematical shape of a decoded value.
pub enum ValueModel {
    U64(u64),
    I64(i64),
    F64Raw(FloatEnc, u64),
    Str(Seq<char>),
}

impl View for CanValue {
    type V = ValueModel;

    open spec fn view(&self) -> ValueModel {
        match self {
            CanValue::U64(v) => ValueModel::U64(*v),
            CanValue::I64(v) => ValueModel::I64(*v),
            CanValue::F64Raw(e, r) => ValueModel::F64Raw(*e, *r),
            CanValue::Str(s) => ValueModel::Str(s@),
        }
    }
}

impl CanValue {
    /// A copy of the value.
    pub fn clone_value(&self) -> (c: CanValue)
        ensures
            c@ == self@,
    {
        match self {
            CanValue::U64(v) => CanValue::U64(*v),
            CanValue::I64(v) => CanValue::I64(*v),
            CanValue::F64Raw(e, r) => CanValue::F64Raw(*e, *r),
            CanValue::Str(s) => CanValue::Str(s.clone()),
        }
    }

    /// Value equality, used for duplicate suppression.
    pub fn value_eq(&self, other: &CanValue) -> (r: bool)
        ensures
            r == (self@ == other@),
    {
        match (self, other) {
            (CanValue::U64(a), CanValue::U64(b)) => *a == *b,
            (CanValue::I64(a), CanValue::I64(b)) => *a == *b,
            (CanValue::F64Raw(e1, r1), CanValue::F64Raw(e2, r2)) => *e1 == *e2 && *r1 == *r2,
            (CanValue::Str(a), CanValue::Str(b)) => *a == *b,
            _ => false,
        }
    }
}

} // verus!
