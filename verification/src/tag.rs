//! The closed set of kinds that a type can have, and the numbers by which
//! LLVM's C interface reports them.

use vstd::prelude::*;

verus! {

/// What LLVM reports for a type of kind `Void`.
pub const VOID_CODE: u32 = 0;

/// What LLVM reports for a type of kind `Half`.
pub const HALF_CODE: u32 = 1;

/// What LLVM reports for a type of kind `Float`.
pub const FLOAT_CODE: u32 = 2;

/// What LLVM reports for a type of kind `Double`.
pub const DOUBLE_CODE: u32 = 3;

/// What LLVM reports for a type of kind `X86_FP80`.
pub const X86_FP80_CODE: u32 = 4;

/// What LLVM reports for a type of kind `FP128`.
pub const FP128_CODE: u32 = 5;

/// What LLVM reports for a type of kind `PPC_FP128`.
pub const PPC_FP128_CODE: u32 = 6;

/// What LLVM reports for a type of kind `Label`.
pub const LABEL_CODE: u32 = 7;

/// What LLVM reports for a type of kind `Integer`.
pub const INTEGER_CODE: u32 = 8;

/// What LLVM reports for a type of kind `Function`.
pub const FUNCTION_CODE: u32 = 9;

/// What LLVM reports for a type of kind `Struct`.
pub const STRUCT_CODE: u32 = 10;

/// What LLVM reports for a type of kind `Array`.
pub const ARRAY_CODE: u32 = 11;

/// What LLVM reports for a type of kind `Pointer`.
pub const POINTER_CODE: u32 = 12;

/// What LLVM reports for a type of kind `Vector`.
pub const VECTOR_CODE: u32 = 13;

/// What LLVM reports for a type of kind `Metadata`.
pub const METADATA_CODE: u32 = 14;

/// What LLVM reports for a type of kind `X86_MMX`.
pub const X86_MMX_CODE: u32 = 15;

/// What LLVM reports for a type of kind `Token`.
pub const TOKEN_CODE: u32 = 16;

/// The kind of a type: which branch of LLVM's type hierarchy it belongs to.
///
/// The set is closed. A number that LLVM reports and that stands for none of
/// these is an error of the caller's LLVM, never a kind.
#[allow(non_camel_case_types)]
#[derive(Clone, Copy, Debug, PartialEq, Eq, Hash, Structural)]
pub enum KindTag {
    /// No size.
    Void,
    /// 16-bit floating point.
    Half,
    /// 32-bit floating point.
    Float,
    /// 64-bit floating point.
    Double,
    /// 80-bit floating point (x87).
    X86_FP80,
    /// 128-bit floating point (112-bit mantissa).
    FP128,
    /// 128-bit floating point (two 64-bit halves).
    PPC_FP128,
    /// Labels.
    Label,
    /// Integers of any bit width.
    Integer,
    /// Functions.
    Function,
    /// Structures.
    Struct,
    /// Arrays.
    Array,
    /// Pointers.
    Pointer,
    /// SIMD vectors.
    Vector,
    /// Metadata.
    Metadata,
    /// X86 MMX.
    X86_MMX,
    /// Tokens.
    Token,
}

impl KindTag {
    /// The number by which LLVM reports this kind.
    pub open spec fn spec_raw(self) -> u32 {
        match self {
            KindTag::Void => VOID_CODE,
            KindTag::Half => HALF_CODE,
            KindTag::Float => FLOAT_CODE,
            KindTag::Double => DOUBLE_CODE,
            KindTag::X86_FP80 => X86_FP80_CODE,
            KindTag::FP128 => FP128_CODE,
            KindTag::PPC_FP128 => PPC_FP128_CODE,
            KindTag::Label => LABEL_CODE,
            KindTag::Integer => INTEGER_CODE,
            KindTag::Function => FUNCTION_CODE,
            KindTag::Struct => STRUCT_CODE,
            KindTag::Array => ARRAY_CODE,
            KindTag::Pointer => POINTER_CODE,
            KindTag::Vector => VECTOR_CODE,
            KindTag::Metadata => METADATA_CODE,
            KindTag::X86_MMX => X86_MMX_CODE,
            KindTag::Token => TOKEN_CODE,
        }
    }

    /// The number by which LLVM reports this kind.
    #[verifier::when_used_as_spec(spec_raw)]
    pub fn raw(self) -> (raw: u32)
        ensures
            raw == self.spec_raw(),
            raw <= TOKEN_CODE,
    {
        match self {
            KindTag::Void => VOID_CODE,
            KindTag::Half => HALF_CODE,
            KindTag::Float => FLOAT_CODE,
            KindTag::Double => DOUBLE_CODE,
            KindTag::X86_FP80 => X86_FP80_CODE,
            KindTag::FP128 => FP128_CODE,
            KindTag::PPC_FP128 => PPC_FP128_CODE,
            KindTag::Label => LABEL_CODE,
            KindTag::Integer => INTEGER_CODE,
            KindTag::Function => FUNCTION_CODE,
            KindTag::Struct => STRUCT_CODE,
            KindTag::Array => ARRAY_CODE,
            KindTag::Pointer => POINTER_CODE,
            KindTag::Vector => VECTOR_CODE,
            KindTag::Metadata => METADATA_CODE,
            KindTag::X86_MMX => X86_MMX_CODE,
            KindTag::Token => TOKEN_CODE,
        }
    }

    /// The name of this kind, as it is written in Rust.
    pub open spec fn spec_name(self) -> Seq<char> {
        match self {
            KindTag::Void => "Void"@,
            KindTag::Half => "Half"@,
            KindTag::Float => "Float"@,
            KindTag::Double => "Double"@,
            KindTag::X86_FP80 => "X86_FP80"@,
            KindTag::FP128 => "FP128"@,
            KindTag::PPC_FP128 => "PPC_FP128"@,
            KindTag::Label => "Label"@,
            KindTag::Integer => "Integer"@,
            KindTag::Function => "Function"@,
            KindTag::Struct => "Struct"@,
            KindTag::Array => "Array"@,
            KindTag::Pointer => "Pointer"@,
            KindTag::Vector => "Vector"@,
            KindTag::Metadata => "Metadata"@,
            KindTag::X86_MMX => "X86_MMX"@,
            KindTag::Token => "Token"@,
        }
    }

    /// The name of this kind, as it is written in Rust: what a printed
    /// subtype is labelled with.
    pub fn name(self) -> (name: &'static str)
        ensures
            name@ == self.spec_name(),
    {
        match self {
            KindTag::Void => "Void",
            KindTag::Half => "Half",
            KindTag::Float => "Float",
            KindTag::Double => "Double",
            KindTag::X86_FP80 => "X86_FP80",
            KindTag::FP128 => "FP128",
            KindTag::PPC_FP128 => "PPC_FP128",
            KindTag::Label => "Label",
            KindTag::Integer => "Integer",
            KindTag::Function => "Function",
            KindTag::Struct => "Struct",
            KindTag::Array => "Array",
            KindTag::Pointer => "Pointer",
            KindTag::Vector => "Vector",
            KindTag::Metadata => "Metadata",
            KindTag::X86_MMX => "X86_MMX",
            KindTag::Token => "Token",
        }
    }

    /// The kind whose number is `raw`, if there is one.
    pub open spec fn spec_from_raw(raw: u32) -> Option<KindTag> {
        if raw == VOID_CODE {
            Some(KindTag::Void)
        } else if raw == HALF_CODE {
            Some(KindTag::Half)
        } else if raw == FLOAT_CODE {
            Some(KindTag::Float)
        } else if raw == DOUBLE_CODE {
            Some(KindTag::Double)
        } else if raw == X86_FP80_CODE {
            Some(KindTag::X86_FP80)
        } else if raw == FP128_CODE {
            Some(KindTag::FP128)
        } else if raw == PPC_FP128_CODE {
            Some(KindTag::PPC_FP128)
        } else if raw == LABEL_CODE {
            Some(KindTag::Label)
        } else if raw == INTEGER_CODE {
            Some(KindTag::Integer)
        } else if raw == FUNCTION_CODE {
            Some(KindTag::Function)
        } else if raw == STRUCT_CODE {
            Some(KindTag::Struct)
        } else if raw == ARRAY_CODE {
            Some(KindTag::Array)
        } else if raw == POINTER_CODE {
            Some(KindTag::Pointer)
        } else if raw == VECTOR_CODE {
            Some(KindTag::Vector)
        } else if raw == METADATA_CODE {
            Some(KindTag::Metadata)
        } else if raw == X86_MMX_CODE {
            Some(KindTag::X86_MMX)
        } else if raw == TOKEN_CODE {
            Some(KindTag::Token)
        } else {
            None
        }
    }

    /// The kind that LLVM reports as `raw`, or `None` where `raw` stands for
    /// no kind of the closed set. No number is ever read as a kind other than
    /// its own.
    #[verifier::when_used_as_spec(spec_from_raw)]
    pub fn from_raw(raw: u32) -> (tag: Option<KindTag>)
        ensures
            tag == Self::spec_from_raw(raw),
            tag is Some <==> raw <= TOKEN_CODE,
            tag matches Some(t) ==> t.spec_raw() == raw,
    {
        if raw == VOID_CODE {
            Some(KindTag::Void)
        } else if raw == HALF_CODE {
            Some(KindTag::Half)
        } else if raw == FLOAT_CODE {
            Some(KindTag::Float)
        } else if raw == DOUBLE_CODE {
            Some(KindTag::Double)
        } else if raw == X86_FP80_CODE {
            Some(KindTag::X86_FP80)
        } else if raw == FP128_CODE {
            Some(KindTag::FP128)
        } else if raw == PPC_FP128_CODE {
            Some(KindTag::PPC_FP128)
        } else if raw == LABEL_CODE {
            Some(KindTag::Label)
        } else if raw == INTEGER_CODE {
            Some(KindTag::Integer)
        } else if raw == FUNCTION_CODE {
            Some(KindTag::Function)
        } else if raw == STRUCT_CODE {
            Some(KindTag::Struct)
        } else if raw == ARRAY_CODE {
            Some(KindTag::Array)
        } else if raw == POINTER_CODE {
            Some(KindTag::Pointer)
        } else if raw == VECTOR_CODE {
            Some(KindTag::Vector)
        } else if raw == METADATA_CODE {
            Some(KindTag::Metadata)
        } else if raw == X86_MMX_CODE {
            Some(KindTag::X86_MMX)
        } else if raw == TOKEN_CODE {
            Some(KindTag::Token)
        } else {
            None
        }
    }
}

/// No two kinds share a number.
pub proof fn lemma_raw_is_injective(a: KindTag, b: KindTag)
    requires
        a.spec_raw() == b.spec_raw(),
    ensures
        a == b,
{
}

/// Reading back the number of a kind gives that kind.
pub proof fn lemma_from_raw_of_raw(tag: KindTag)
    ensures
        KindTag::spec_from_raw(tag.spec_raw()) == Some(tag),
{
}

/// A number is read as a kind exactly when it is the number of that kind, and
/// the numbers that are read are those up to the number of `Token`.
pub proof fn lemma_from_raw_is_the_inverse(raw: u32, tag: KindTag)
    ensures
        KindTag::spec_from_raw(raw) == Some(tag) <==> tag.spec_raw() == raw,
        KindTag::spec_from_raw(raw) is Some <==> raw <= TOKEN_CODE,
{
}

} // verus!
