//! The owner of the types, and the builtin types that it is asked for.

use vstd::prelude::*;
use std::marker::PhantomData;
use std::rc::Rc;
use crate::handle::Handle;
use crate::tag::KindTag;
use crate::types::{Integer, Kind, Type, Void};

verus! {

/// An LLVM context, known by its handle.
///
/// The context owns every type that it hands out. A wrapper for one of its
/// types borrows this value, so no wrapper outlives it; whoever holds this
/// value keeps the context of LLVM alive for as long.
///
/// LLVM does not guard a context against use from several threads. Neither
/// this value nor a wrapper that borrows it can be sent to or shared with
/// another thread.
#[derive(Debug)]
pub struct Context {
    handle: Handle,
    one_thread: PhantomData<Rc<()>>,
}

impl View for Context {
    type V = Handle;

    /// The handle of the context.
    closed spec fn view(&self) -> Handle {
        self.handle
    }
}

impl Context {
    /// The context that LLVM knows under `handle`.
    pub fn new(handle: Handle) -> (context: Context)
        ensures
            context@ == handle,
    {
        Context { handle, one_thread: PhantomData }
    }

    /// The handle under which LLVM knows this context.
    pub fn handle(&self) -> (handle: Handle)
        ensures
            handle == self@,
    {
        self.handle
    }
}

/// A builtin type that a context can be asked for. The context keeps one
/// type for each, and answers with its handle.
#[derive(Clone, Copy, Debug, PartialEq, Eq, Hash, Structural)]
pub enum Selector {
    /// The type with no size.
    Void,
    /// The integer type of the given width in bits.
    Integer(u32),
    /// The 32-bit floating point type.
    Float,
    /// The 64-bit floating point type.
    Double,
}

impl Selector {
    /// The kind of the type that is asked for.
    pub open spec fn spec_kind(self) -> KindTag {
        match self {
            Selector::Void => KindTag::Void,
            Selector::Integer(_) => KindTag::Integer,
            Selector::Float => KindTag::Float,
            Selector::Double => KindTag::Double,
        }
    }

    /// The kind of the type that is asked for.
    #[verifier::when_used_as_spec(spec_kind)]
    pub fn kind(self) -> (tag: KindTag)
        ensures
            tag == self.spec_kind(),
    {
        match self {
            Selector::Void => KindTag::Void,
            Selector::Integer(_) => KindTag::Integer,
            Selector::Float => KindTag::Float,
            Selector::Double => KindTag::Double,
        }
    }
}

impl Context {
    /// The builtin type `selector` of this context, which LLVM gave as
    /// `answer`: the subtype of the kind that `selector` asks for.
    pub fn builtin(&self, selector: Selector, answer: Handle) -> (kind: Kind<'_>)
        ensures
            kind.spec_tag() == selector.spec_kind(),
            kind@ == answer,
    {
        Type::wrap(self, answer).downcast(selector.kind())
    }

    /// The type with no size of this context, which LLVM gave as `answer`.
    pub fn void_type(&self, answer: Handle) -> (ty: Void<'_>)
        ensures
            ty@ == answer,
    {
        Type::wrap(self, answer).try_as_void(Selector::Void.kind()).unwrap()
    }

    /// An integer type of this context, which LLVM gave as `answer`.
    pub fn integer_type(&self, answer: Handle) -> (ty: Integer<'_>)
        ensures
            ty@ == answer,
    {
        Type::wrap(self, answer).try_as_integer(KindTag::Integer).unwrap()
    }
}

/// A type of Rust that has an LLVM type standing for it.
pub trait ContextType<'ctx> {
    /// The subtype that the LLVM type is of.
    type LlvmType: View<V = Handle>;

    /// The builtin type to ask the context for.
    spec fn spec_selector() -> Selector;

    /// The builtin type to ask the context for.
    fn selector() -> (selector: Selector)
        ensures
            selector == Self::spec_selector(),
    ;

    /// The LLVM type for `Self` in `context`, which LLVM gave as `answer`
    /// when it was asked for `selector()`.
    fn get_type_in_context(context: &'ctx Context, answer: Handle) -> (ty: Self::LlvmType)
        ensures
            ty@ == answer,
    ;
}

/// A truth value is an integer of one bit.
impl<'ctx> ContextType<'ctx> for bool {
    type LlvmType = Integer<'ctx>;

    open spec fn spec_selector() -> Selector {
        Selector::Integer(1)
    }

    fn selector() -> (selector: Selector) {
        Selector::Integer(1)
    }

    fn get_type_in_context(context: &'ctx Context, answer: Handle) -> (ty: Integer<'ctx>) {
        context.integer_type(answer)
    }
}

/// A character is taken for one byte.
impl<'ctx> ContextType<'ctx> for char {
    type LlvmType = Integer<'ctx>;

    open spec fn spec_selector() -> Selector {
        Selector::Integer(8)
    }

    fn selector() -> (selector: Selector) {
        Selector::Integer(8)
    }

    fn get_type_in_context(context: &'ctx Context, answer: Handle) -> (ty: Integer<'ctx>) {
        context.integer_type(answer)
    }
}

/// `u8` is an integer of 8 bits; LLVM's integers carry no sign.
impl<'ctx> ContextType<'ctx> for u8 {
    type LlvmType = Integer<'ctx>;

    open spec fn spec_selector() -> Selector {
        Selector::Integer(8)
    }

    fn selector() -> (selector: Selector) {
        Selector::Integer(8)
    }

    fn get_type_in_context(context: &'ctx Context, answer: Handle) -> (ty: Integer<'ctx>) {
        context.integer_type(answer)
    }
}

/// `u16` is an integer of 16 bits; LLVM's integers carry no sign.
impl<'ctx> ContextType<'ctx> for u16 {
    type LlvmType = Integer<'ctx>;

    open spec fn spec_selector() -> Selector {
        Selector::Integer(16)
    }

    fn selector() -> (selector: Selector) {
        Selector::Integer(16)
    }

    fn get_type_in_context(context: &'ctx Context, answer: Handle) -> (ty: Integer<'ctx>) {
        context.integer_type(answer)
    }
}

/// `u32` is an integer of 32 bits; LLVM's integers carry no sign.
impl<'ctx> ContextType<'ctx> for u32 {
    type LlvmType = Integer<'ctx>;

    open spec fn spec_selector() -> Selector {
        Selector::Integer(32)
    }

    fn selector() -> (selector: Selector) {
        Selector::Integer(32)
    }

    fn get_type_in_context(context: &'ctx Context, answer: Handle) -> (ty: Integer<'ctx>) {
        context.integer_type(answer)
    }
}

/// `u64` is an integer of 64 bits; LLVM's integers carry no sign.
impl<'ctx> ContextType<'ctx> for u64 {
    type LlvmType = Integer<'ctx>;

    open spec fn spec_selector() -> Selector {
        Selector::Integer(64)
    }

    fn selector() -> (selector: Selector) {
        Selector::Integer(64)
    }

    fn get_type_in_context(context: &'ctx Context, answer: Handle) -> (ty: Integer<'ctx>) {
        context.integer_type(answer)
    }
}

/// `i8` is an integer of 8 bits; LLVM's integers carry no sign.
impl<'ctx> ContextType<'ctx> for i8 {
    type LlvmType = Integer<'ctx>;

    open spec fn spec_selector() -> Selector {
        Selector::Integer(8)
    }

    fn selector() -> (selector: Selector) {
        Selector::Integer(8)
    }

    fn get_type_in_context(context: &'ctx Context, answer: Handle) -> (ty: Integer<'ctx>) {
        context.integer_type(answer)
    }
}

/// `i16` is an integer of 16 bits; LLVM's integers carry no sign.
impl<'ctx> ContextType<'ctx> for i16 {
    type LlvmType = Integer<'ctx>;

    open spec fn spec_selector() -> Selector {
        Selector::Integer(16)
    }

    fn selector() -> (selector: Selector) {
        Selector::Integer(16)
    }

    fn get_type_in_context(context: &'ctx Context, answer: Handle) -> (ty: Integer<'ctx>) {
        context.integer_type(answer)
    }
}

/// `i32` is an integer of 32 bits; LLVM's integers carry no sign.
impl<'ctx> ContextType<'ctx> for i32 {
    type LlvmType = Integer<'ctx>;

    open spec fn spec_selector() -> Selector {
        Selector::Integer(32)
    }

    fn selector() -> (selector: Selector) {
        Selector::Integer(32)
    }

    fn get_type_in_context(context: &'ctx Context, answer: Handle) -> (ty: Integer<'ctx>) {
        context.integer_type(answer)
    }
}

/// `i64` is an integer of 64 bits; LLVM's integers carry no sign.
impl<'ctx> ContextType<'ctx> for i64 {
    type LlvmType = Integer<'ctx>;

    open spec fn spec_selector() -> Selector {
        Selector::Integer(64)
    }

    fn selector() -> (selector: Selector) {
        Selector::Integer(64)
    }

    fn get_type_in_context(context: &'ctx Context, answer: Handle) -> (ty: Integer<'ctx>) {
        context.integer_type(answer)
    }
}

} // verus!
