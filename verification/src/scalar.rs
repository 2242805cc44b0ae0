//! The closed set of scalar types a HAL value slot can hold.
//!
//! The HAL exchanges exactly four kinds of scalar with a component: a
//! double-precision float, a signed and an unsigned 32-bit integer, and a
//! bit.  Floats are carried as their IEEE-754 bit pattern so that the whole
//! set can live in one tagged value.

use vstd::prelude::*;

verus! {

/// The kind tag of a HAL scalar slot.
#[derive(Copy, Clone, Debug, PartialEq, Eq, Structural)]
pub enum ScalarKind {
    /// A double-precision float slot.
    Float,
    /// A signed 32-bit integer slot.
    S32,
    /// An unsigned 32-bit integer slot.
    U32,
    /// A single-bit slot.
    Bit,
}

/// One scalar value as it sits in a HAL memory slot.
///
/// The `Float` variant carries the IEEE-754 bit pattern of the value.
#[derive(Copy, Clone, Debug, PartialEq, Eq, Structural)]
pub enum ScalarValue {
    /// A double-precision float, as its bit pattern.
    Float(u64),
    /// A signed 32-bit integer.
    S32(i32),
    /// An unsigned 32-bit integer.
    U32(u32),
    /// A single bit.
    Bit(bool),
}

impl ScalarValue {
    /// The kind tag of this value.
    pub open spec fn kind_of(self) -> ScalarKind {
        match self {
            ScalarValue::Float(_) => ScalarKind::Float,
            ScalarValue::S32(_) => ScalarKind::S32,
            ScalarValue::U32(_) => ScalarKind::U32,
            ScalarValue::Bit(_) => ScalarKind::Bit,
        }
    }

    /// Return the kind tag of this value.
    pub fn kind(self) -> (k: ScalarKind)
        ensures
            k == self.kind_of(),
    {
        match self {
            ScalarValue::Float(_) => ScalarKind::Float,
            ScalarValue::S32(_) => ScalarKind::S32,
            ScalarValue::U32(_) => ScalarKind::U32,
            ScalarValue::Bit(_) => ScalarKind::Bit,
        }
    }

    /// The all-zero value of a kind: what freshly allocated arena memory reads as.
    pub open spec fn zero_of(k: ScalarKind) -> ScalarValue {
        match k {
            ScalarKind::Float => ScalarValue::Float(0),
            ScalarKind::S32 => ScalarValue::S32(0),
            ScalarKind::U32 => ScalarValue::U32(0),
            ScalarKind::Bit => ScalarValue::Bit(false),
        }
    }

    /// Return the all-zero value of a kind.
    pub fn zero(k: ScalarKind) -> (v: ScalarValue)
        ensures
            v == ScalarValue::zero_of(k),
    {
        match k {
            ScalarKind::Float => ScalarValue::Float(0),
            ScalarKind::S32 => ScalarValue::S32(0),
            ScalarKind::U32 => ScalarValue::U32(0),
            ScalarKind::Bit => ScalarValue::Bit(false),
        }
    }
}

/// A double-precision HAL float, held as its IEEE-754 bit pattern.
///
/// Contracts in this crate never interpret the bits; they move through the
/// arena unchanged.  Callers convert with `f64::to_bits` / `f64::from_bits`.
#[derive(Copy, Clone, Debug, PartialEq, Eq, Structural)]
pub struct Float64 {
    /// The IEEE-754 bit pattern of the value.
    pub bits: u64,
}

impl Float64 {
    /// Wrap a bit pattern.
    pub fn from_bits(bits: u64) -> (r: Float64)
        ensures
            r.bits == bits,
    {
        Float64 { bits }
    }
}

/// A Rust type that can stand in a HAL scalar slot.
///
/// This is the closed set fixed by the external ABI: `Float64`, `i32`, `u32`
/// and `bool`.  Each implementation names its slot kind and converts its
/// values to and from the tagged [`ScalarValue`] losslessly.
pub trait HalScalar: Sized + Copy {
    /// The kind of slot this type occupies.
    spec fn spec_kind() -> ScalarKind;

    /// The slot value that represents `self`.
    spec fn spec_encode(self) -> ScalarValue;

    /// The typed value a slot holds, if the slot is of this type's kind.
    spec fn spec_decode(v: ScalarValue) -> Option<Self>;

    /// Encoding always produces a value of this type's kind, and decoding it
    /// gives the original value back.
    proof fn lemma_roundtrip(self)
        ensures
            self.spec_encode().kind_of() == Self::spec_kind(),
            Self::spec_decode(self.spec_encode()) == Some(self),
    ;

    /// A value decodes exactly when its kind matches, and encoding the
    /// decoded value gives the slot value back.
    proof fn lemma_decode(v: ScalarValue)
        ensures
            Self::spec_decode(v) is Some <==> v.kind_of() == Self::spec_kind(),
            Self::spec_decode(v) matches Some(s) ==> s.spec_encode() == v,
    ;

    /// Return the kind of slot this type occupies.
    fn kind() -> (k: ScalarKind)
        ensures
            k == Self::spec_kind(),
    ;

    /// Convert `self` into the tagged slot value.
    fn encode(self) -> (v: ScalarValue)
        ensures
            v == self.spec_encode(),
    ;

    /// Read a typed value back out of a tagged slot value.
    fn decode(v: ScalarValue) -> (r: Option<Self>)
        ensures
            r == Self::spec_decode(v),
    ;
}

impl HalScalar for Float64 {
    open spec fn spec_kind() -> ScalarKind {
        ScalarKind::Float
    }

    open spec fn spec_encode(self) -> ScalarValue {
        ScalarValue::Float(self.bits)
    }

    open spec fn spec_decode(v: ScalarValue) -> Option<Float64> {
        match v {
            ScalarValue::Float(bits) => Some(Float64 { bits }),
            _ => None,
        }
    }

    proof fn lemma_roundtrip(self) {
    }

    proof fn lemma_decode(v: ScalarValue) {
    }

    fn kind() -> ScalarKind {
        ScalarKind::Float
    }

    fn encode(self) -> ScalarValue {
        ScalarValue::Float(self.bits)
    }

    fn decode(v: ScalarValue) -> Option<Float64> {
        match v {
            ScalarValue::Float(bits) => Some(Float64 { bits }),
            _ => None,
        }
    }
}

impl HalScalar for i32 {
    open spec fn spec_kind() -> ScalarKind {
        ScalarKind::S32
    }

    open spec fn spec_encode(self) -> ScalarValue {
        ScalarValue::S32(self)
    }

    open spec fn spec_decode(v: ScalarValue) -> Option<i32> {
        match v {
            ScalarValue::S32(x) => Some(x),
            _ => None,
        }
    }

    proof fn lemma_roundtrip(self) {
    }

    proof fn lemma_decode(v: ScalarValue) {
    }

    fn kind() -> ScalarKind {
        ScalarKind::S32
    }

    fn encode(self) -> ScalarValue {
        ScalarValue::S32(self)
    }

    fn decode(v: ScalarValue) -> Option<i32> {
        match v {
            ScalarValue::S32(x) => Some(x),
            _ => None,
        }
    }
}

impl HalScalar for u32 {
    open spec fn spec_kind() -> ScalarKind {
        ScalarKind::U32
    }

    open spec fn spec_encode(self) -> ScalarValue {
        ScalarValue::U32(self)
    }

    open spec fn spec_decode(v: ScalarValue) -> Option<u32> {
        match v {
            ScalarValue::U32(x) => Some(x),
            _ => None,
        }
    }

    proof fn lemma_roundtrip(self) {
    }

    proof fn lemma_decode(v: ScalarValue) {
    }

    fn kind() -> ScalarKind {
        ScalarKind::U32
    }

    fn encode(self) -> ScalarValue {
        ScalarValue::U32(self)
    }

    fn decode(v: ScalarValue) -> Option<u32> {
        match v {
            ScalarValue::U32(x) => Some(x),
            _ => None,
        }
    }
}

impl HalScalar for bool {
    open spec fn spec_kind() -> ScalarKind {
        ScalarKind::Bit
    }

    open spec fn spec_encode(self) -> ScalarValue {
        ScalarValue::Bit(self)
    }

    open spec fn spec_decode(v: ScalarValue) -> Option<bool> {
        match v {
            ScalarValue::Bit(x) => Some(x),
            _ => None,
        }
    }

    proof fn lemma_roundtrip(self) {
    }

    proof fn lemma_decode(v: ScalarValue) {
    }

    fn kind() -> ScalarKind {
        ScalarKind::Bit
    }

    fn encode(self) -> ScalarValue {
        ScalarValue::Bit(self)
    }

    fn decode(v: ScalarValue) -> Option<bool> {
        match v {
            ScalarValue::Bit(x) => Some(x),
            _ => None,
        }
    }
}

} // verus!
