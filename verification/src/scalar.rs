//! Scalars: the primitive values, their kinds, and the bit-pattern wrappers
//! that stand for the two floating-point widths.
use vstd::prelude::*;

verus! {

/// A 32-bit IEEE 754 number, held as its bit pattern.
#[derive(Clone, Copy, Debug, PartialEq, Eq, Hash)]
pub struct F32 {
    bits: u32,
}

/// A 64-bit IEEE 754 number, held as its bit pattern.
#[derive(Clone, Copy, Debug, PartialEq, Eq, Hash)]
pub struct F64 {
    bits: u64,
}

impl F32 {
    /// The bit pattern of the number.
    pub closed spec fn bits(self) -> u32 {
        self.bits
    }

    /// The number with the given bit pattern.
    pub fn from_bits(bits: u32) -> (v: F32)
        ensures
            v.bits() == bits,
    {
        F32 { bits }
    }

    /// The bit pattern of the number.
    pub fn to_bits(self) -> (bits: u32)
        ensures
            bits == self.bits(),
    {
        self.bits
    }

    /// Two wrappers with the same bit pattern are the same value.
    pub proof fn bits_injective(a: F32, b: F32)
        requires
            a.bits() == b.bits(),
        ensures
            a == b,
    {
    }
}

impl F64 {
    /// The bit pattern of the number.
    pub closed spec fn bits(self) -> u64 {
        self.bits
    }

    /// The number with the given bit pattern.
    pub fn from_bits(bits: u64) -> (v: F64)
        ensures
            v.bits() == bits,
    {
        F64 { bits }
    }

    /// The bit pattern of the number.
    pub fn to_bits(self) -> (bits: u64)
        ensures
            bits == self.bits(),
    {
        self.bits
    }

    /// Two wrappers with the same bit pattern are the same value.
    pub proof fn bits_injective(a: F64, b: F64)
        requires
            a.bits() == b.bits(),
        ensures
            a == b,
    {
    }
}

/// The kinds of scalar.
#[derive(Clone, Copy, Debug, PartialEq, Eq, Structural)]
pub enum ScalarKind {
    Bool,
    I8,
    U8,
    I16,
    U16,
    I32,
    U32,
    I64,
    U64,
    I128,
    U128,
    F32,
    F64,
    String,
}

/// The kinds of element an array can hold.
#[derive(Clone, Copy, Debug, PartialEq, Eq, Structural)]
pub enum Kind {
    Sum,
    Product,
    Scalar(ScalarKind),
    Array,
    Mapping,
}

/// A scalar value, as a mathematical object.
pub enum Scalar {
    Bool(bool),
    I8(i8),
    U8(u8),
    I16(i16),
    U16(u16),
    I32(i32),
    U32(u32),
    I64(i64),
    U64(u64),
    I128(i128),
    U128(u128),
    F32(F32),
    F64(F64),
    String(Seq<char>),
}

impl Scalar {
    /// The kind of the scalar.
    pub open spec fn kind(self) -> ScalarKind {
        match self {
            Scalar::Bool(_) => ScalarKind::Bool,
            Scalar::I8(_) => ScalarKind::I8,
            Scalar::U8(_) => ScalarKind::U8,
            Scalar::I16(_) => ScalarKind::I16,
            Scalar::U16(_) => ScalarKind::U16,
            Scalar::I32(_) => ScalarKind::I32,
            Scalar::U32(_) => ScalarKind::U32,
            Scalar::I64(_) => ScalarKind::I64,
            Scalar::U64(_) => ScalarKind::U64,
            Scalar::I128(_) => ScalarKind::I128,
            Scalar::U128(_) => ScalarKind::U128,
            Scalar::F32(_) => ScalarKind::F32,
            Scalar::F64(_) => ScalarKind::F64,
            Scalar::String(_) => ScalarKind::String,
        }
    }
}

} // verus!
