//! Typed handles for LLVM's type hierarchy.
//!
//! LLVM's C interface hands out every type as one kind of opaque pointer and
//! tells the kinds apart only at run time. This crate gives such a pointer a
//! static label: [`Type`] stands for "some type", and one subtype per kind
//! ([`Integer`], [`Function`], [`Pointer`], ...) stands for a type whose kind
//! is known. Going from a subtype to [`Type`] is free and implicit; going back
//! takes the kind that LLVM reports for the handle, and gives the subtype of
//! that kind and no other.
//!
//! Nothing here calls LLVM. The caller performs each query and passes the
//! answer in, so every function is a total function on plain values, and is
//! verified as such.

pub mod context;
pub mod handle;
pub mod tag;
pub mod types;

pub use context::{Context, ContextType, Selector};
pub use handle::Handle;
pub use tag::KindTag;
pub use types::{
    Array, Double, Float, Function, Half, Integer, Kind, Label, Metadata, Pointer, Struct, Subtype,
    Token, Type, Vector, Void, FP128, PPC_FP128, X86_FP80, X86_MMX,
};
