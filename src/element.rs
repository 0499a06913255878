//! Element types of tensors and the engine's integer codes for them.
use vstd::prelude::*;

verus! {

/// The scalar kind stored in a tensor.
#[derive(Debug, Clone, Copy, PartialEq, Eq, Structural)]
pub enum TensorElementDataType {
    /// 32-bit floating point
    Float,
    /// Unsigned 8-bit integer
    Uint8,
    /// Signed 8-bit integer
    Int8,
    /// Unsigned 16-bit integer
    Uint16,
    /// Signed 16-bit integer
    Int16,
    /// Signed 32-bit integer
    Int32,
    /// Signed 64-bit integer
    Int64,
    /// Variable-length text
    String,
    /// 64-bit floating point
    Double,
    /// Unsigned 32-bit integer
    Uint32,
    /// Unsigned 64-bit integer
    Uint64,
}

/// The engine's code for an element type.
pub open spec fn code_of(t: TensorElementDataType) -> int {
    match t {
        TensorElementDataType::Float => 1,
        TensorElementDataType::Uint8 => 2,
        TensorElementDataType::Int8 => 3,
        TensorElementDataType::Uint16 => 4,
        TensorElementDataType::Int16 => 5,
        TensorElementDataType::Int32 => 6,
        TensorElementDataType::Int64 => 7,
        TensorElementDataType::String => 8,
        TensorElementDataType::Double => 11,
        TensorElementDataType::Uint32 => 12,
        TensorElementDataType::Uint64 => 13,
    }
}

/// The element type that the engine's code stands for, if any.
pub open spec fn type_of_code(code: int) -> Option<TensorElementDataType> {
    if code == 1 {
        Some(TensorElementDataType::Float)
    } else if code == 2 {
        Some(TensorElementDataType::Uint8)
    } else if code == 3 {
        Some(TensorElementDataType::Int8)
    } else if code == 4 {
        Some(TensorElementDataType::Uint16)
    } else if code == 5 {
        Some(TensorElementDataType::Int16)
    } else if code == 6 {
        Some(TensorElementDataType::Int32)
    } else if code == 7 {
        Some(TensorElementDataType::Int64)
    } else if code == 8 {
        Some(TensorElementDataType::String)
    } else if code == 11 {
        Some(TensorElementDataType::Double)
    } else if code == 12 {
        Some(TensorElementDataType::Uint32)
    } else if code == 13 {
        Some(TensorElementDataType::Uint64)
    } else {
        None
    }
}

/// Whether elements of this type have a fixed in-memory stride, so that a
/// native buffer of them can be viewed in place.
pub open spec fn has_fixed_stride(t: TensorElementDataType) -> bool {
    t != TensorElementDataType::String
}

impl TensorElementDataType {
    /// The engine's code for this element type.
    pub fn code(&self) -> (r: u32)
        ensures
            r == code_of(*self),
    {
        match self {
            TensorElementDataType::Float => 1,
            TensorElementDataType::Uint8 => 2,
            TensorElementDataType::Int8 => 3,
            TensorElementDataType::Uint16 => 4,
            TensorElementDataType::Int16 => 5,
            TensorElementDataType::Int32 => 6,
            TensorElementDataType::Int64 => 7,
            TensorElementDataType::String => 8,
            TensorElementDataType::Double => 11,
            TensorElementDataType::Uint32 => 12,
            TensorElementDataType::Uint64 => 13,
        }
    }

    /// The element type with the given engine code; `None` for a code that is
    /// not in the table, which is never reinterpreted.
    pub fn from_code(code: u32) -> (r: Option<TensorElementDataType>)
        ensures
            r == type_of_code(code as int),
    {
        let r = match code {
            1 => Some(TensorElementDataType::Float),
            2 => Some(TensorElementDataType::Uint8),
            3 => Some(TensorElementDataType::Int8),
            4 => Some(TensorElementDataType::Uint16),
            5 => Some(TensorElementDataType::Int16),
            6 => Some(TensorElementDataType::Int32),
            7 => Some(TensorElementDataType::Int64),
            8 => Some(TensorElementDataType::String),
            11 => Some(TensorElementDataType::Double),
            12 => Some(TensorElementDataType::Uint32),
            13 => Some(TensorElementDataType::Uint64),
            _ => None,
        };
        r
    }

    /// Whether a buffer of this type can be viewed in place (numeric types) or
    /// must be rebuilt element by element on the host (text).
    pub fn is_fixed_stride(&self) -> (r: bool)
        ensures
            r == has_fixed_stride(*self),
    {
        !matches!(self, TensorElementDataType::String)
    }
}

/// Decoding the code of an element type gives that type back, and a code
/// decodes only to the type whose code it is.
pub proof fn lemma_code_round_trip(t: TensorElementDataType, code: int)
    ensures
        0 < code_of(t) <= u32::MAX,
        type_of_code(code_of(t)) == Some(t),
        type_of_code(code) == Some(t) <==> code == code_of(t),
{
}

} // verus!
