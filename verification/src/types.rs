//! `Type`, its subtypes, and the casts between them.
//!
//! [`Type`] is the "superclass": a handle of which only the owner is known.
//! A [`Subtype`] is a handle whose kind is known as well, and the kind is
//! part of its Rust type, so what only makes sense for one kind can be
//! offered for that kind alone. A subtype is used as a `Type` wherever one is
//! expected (it dereferences to it). The way back is [`Type::downcast`]: it
//! takes the kind that LLVM reports for the handle and returns the subtype of
//! that kind, inside the [`Kind`] enum.
//!
//! The functions are followed by what holds of them together: that a
//! downcast undoes an upcast, that no cast touches the handle, and that
//! equality is the identity of handles.

use vstd::prelude::*;
use vstd::std_specs::cmp::PartialEqSpec;
use std::marker::PhantomData;
use crate::context::Context;
use crate::handle::Handle;
use crate::tag::KindTag;
use crate::tag::{
    VOID_CODE, HALF_CODE, FLOAT_CODE, DOUBLE_CODE, X86_FP80_CODE, FP128_CODE, PPC_FP128_CODE,
    LABEL_CODE, INTEGER_CODE, FUNCTION_CODE, STRUCT_CODE, ARRAY_CODE, POINTER_CODE, VECTOR_CODE,
    METADATA_CODE, X86_MMX_CODE, TOKEN_CODE,
};

verus! {

/// Some type of LLVM, of a kind that is not known statically.
///
/// A `Type` is its handle, labelled with the lifetime of the borrow of the
/// context that owns the type. It owns nothing and never changes what it
/// refers to. Two of them are equal when they refer to the same type.
#[derive(Clone, Copy, Debug, Hash)]
pub struct Type<'ctx> {
    handle: Handle,
    owner: PhantomData<&'ctx Context>,
}

impl<'ctx> View for Type<'ctx> {
    type V = Handle;

    /// The handle of the type that this refers to.
    closed spec fn view(&self) -> Handle {
        self.handle
    }
}

/// A type of LLVM whose kind is known: the kind with the number `KIND`.
///
/// A `Subtype` is a [`Type`] under a narrower label. Only a cast or a query
/// for a builtin type makes one, and only for a `KIND` that is the number of
/// a kind. Each kind has a name of its own for its subtype: [`Integer`],
/// [`Function`], [`Pointer`] and so on.
#[derive(Clone, Copy, Debug, Hash)]
pub struct Subtype<'ctx, const KIND: u32> {
    ty: Type<'ctx>,
}

impl<'ctx, const KIND: u32> View for Subtype<'ctx, KIND> {
    type V = Handle;

    /// The handle of the type that this refers to.
    open spec fn view(&self) -> Handle {
        self.as_type()@
    }
}

/// No size.
pub type Void<'ctx> = Subtype<'ctx, VOID_CODE>;

/// 16-bit floating point.
pub type Half<'ctx> = Subtype<'ctx, HALF_CODE>;

/// 32-bit floating point.
pub type Float<'ctx> = Subtype<'ctx, FLOAT_CODE>;

/// 64-bit floating point.
pub type Double<'ctx> = Subtype<'ctx, DOUBLE_CODE>;

/// 80-bit floating point (x87).
#[allow(non_camel_case_types)]
pub type X86_FP80<'ctx> = Subtype<'ctx, X86_FP80_CODE>;

/// 128-bit floating point (112-bit mantissa).
pub type FP128<'ctx> = Subtype<'ctx, FP128_CODE>;

/// 128-bit floating point (two 64-bit halves).
#[allow(non_camel_case_types)]
pub type PPC_FP128<'ctx> = Subtype<'ctx, PPC_FP128_CODE>;

/// Labels.
pub type Label<'ctx> = Subtype<'ctx, LABEL_CODE>;

/// Integers of any bit width.
pub type Integer<'ctx> = Subtype<'ctx, INTEGER_CODE>;

/// Functions.
pub type Function<'ctx> = Subtype<'ctx, FUNCTION_CODE>;

/// Structures.
pub type Struct<'ctx> = Subtype<'ctx, STRUCT_CODE>;

/// Arrays.
pub type Array<'ctx> = Subtype<'ctx, ARRAY_CODE>;

/// Pointers.
pub type Pointer<'ctx> = Subtype<'ctx, POINTER_CODE>;

/// SIMD vectors.
pub type Vector<'ctx> = Subtype<'ctx, VECTOR_CODE>;

/// Metadata.
pub type Metadata<'ctx> = Subtype<'ctx, METADATA_CODE>;

/// X86 MMX.
#[allow(non_camel_case_types)]
pub type X86_MMX<'ctx> = Subtype<'ctx, X86_MMX_CODE>;

/// Tokens.
pub type Token<'ctx> = Subtype<'ctx, TOKEN_CODE>;

/// The result of a downcast: the subtype that a [`Type`] turned out to be,
/// in the variant of its kind.
#[allow(non_camel_case_types)]
#[derive(Clone, Copy, Debug, Hash)]
pub enum Kind<'ctx> {
    Void(Void<'ctx>),
    Half(Half<'ctx>),
    Float(Float<'ctx>),
    Double(Double<'ctx>),
    X86_FP80(X86_FP80<'ctx>),
    FP128(FP128<'ctx>),
    PPC_FP128(PPC_FP128<'ctx>),
    Label(Label<'ctx>),
    Integer(Integer<'ctx>),
    Function(Function<'ctx>),
    Struct(Struct<'ctx>),
    Array(Array<'ctx>),
    Pointer(Pointer<'ctx>),
    Vector(Vector<'ctx>),
    Metadata(Metadata<'ctx>),
    X86_MMX(X86_MMX<'ctx>),
    Token(Token<'ctx>),
}

impl<'ctx> View for Kind<'ctx> {
    type V = Handle;

    /// The handle of the type that the subtype inside refers to.
    open spec fn view(&self) -> Handle {
        self.as_type()@
    }
}

impl<'ctx, const KIND: u32> Subtype<'ctx, KIND> {
    #[verifier::type_invariant]
    spec fn kind_is_known(self) -> bool {
        KindTag::spec_from_raw(KIND) is Some
    }

    /// The same type under the label `Type`: what an upcast gives.
    pub closed spec fn as_type(&self) -> Type<'ctx> {
        self.ty
    }

    /// The kind that the label `KIND` stands for.
    pub open spec fn spec_kind() -> KindTag {
        KindTag::spec_from_raw(KIND).unwrap()
    }

    /// The kind of this type, read off its label.
    pub fn kind(&self) -> (tag: KindTag)
        ensures
            tag == Self::spec_kind(),
            tag.spec_raw() == KIND,
    {
        proof {
            use_type_invariant(self);
        }
        KindTag::from_raw(KIND).unwrap()
    }

    /// Upcasts: the same type under the label `Type`. Nothing is looked up
    /// and the handle stays as it is.
    #[verifier::when_used_as_spec(as_type)]
    pub fn upcast(&self) -> (ty: Type<'ctx>)
        ensures
            ty == self.as_type(),
            ty@ == self@,
    {
        self.ty
    }
}

impl<'ctx, const KIND: u32> std::ops::Deref for Subtype<'ctx, KIND> {
    type Target = Type<'ctx>;

    /// The upcast, as a borrow: this is what lets a subtype stand wherever a
    /// `&Type` is expected, without a call.
    fn deref(&self) -> (ty: &Type<'ctx>)
        ensures
            *ty == self.as_type(),
            ty@ == self@,
    {
        &self.ty
    }
}

impl<'ctx> Kind<'ctx> {
    /// The kind of the subtype inside.
    pub open spec fn spec_tag(&self) -> KindTag {
        match self {
            Kind::Void(_) => KindTag::Void,
            Kind::Half(_) => KindTag::Half,
            Kind::Float(_) => KindTag::Float,
            Kind::Double(_) => KindTag::Double,
            Kind::X86_FP80(_) => KindTag::X86_FP80,
            Kind::FP128(_) => KindTag::FP128,
            Kind::PPC_FP128(_) => KindTag::PPC_FP128,
            Kind::Label(_) => KindTag::Label,
            Kind::Integer(_) => KindTag::Integer,
            Kind::Function(_) => KindTag::Function,
            Kind::Struct(_) => KindTag::Struct,
            Kind::Array(_) => KindTag::Array,
            Kind::Pointer(_) => KindTag::Pointer,
            Kind::Vector(_) => KindTag::Vector,
            Kind::Metadata(_) => KindTag::Metadata,
            Kind::X86_MMX(_) => KindTag::X86_MMX,
            Kind::Token(_) => KindTag::Token,
        }
    }

    /// The subtype inside, under the label `Type`.
    pub open spec fn as_type(&self) -> Type<'ctx> {
        match self {
            Kind::Void(t) => t.as_type(),
            Kind::Half(t) => t.as_type(),
            Kind::Float(t) => t.as_type(),
            Kind::Double(t) => t.as_type(),
            Kind::X86_FP80(t) => t.as_type(),
            Kind::FP128(t) => t.as_type(),
            Kind::PPC_FP128(t) => t.as_type(),
            Kind::Label(t) => t.as_type(),
            Kind::Integer(t) => t.as_type(),
            Kind::Function(t) => t.as_type(),
            Kind::Struct(t) => t.as_type(),
            Kind::Array(t) => t.as_type(),
            Kind::Pointer(t) => t.as_type(),
            Kind::Vector(t) => t.as_type(),
            Kind::Metadata(t) => t.as_type(),
            Kind::X86_MMX(t) => t.as_type(),
            Kind::Token(t) => t.as_type(),
        }
    }

    /// The kind of the subtype inside.
    #[verifier::when_used_as_spec(spec_tag)]
    pub fn tag(&self) -> (tag: KindTag)
        ensures
            tag == self.spec_tag(),
    {
        match self {
            Kind::Void(_) => KindTag::Void,
            Kind::Half(_) => KindTag::Half,
            Kind::Float(_) => KindTag::Float,
            Kind::Double(_) => KindTag::Double,
            Kind::X86_FP80(_) => KindTag::X86_FP80,
            Kind::FP128(_) => KindTag::FP128,
            Kind::PPC_FP128(_) => KindTag::PPC_FP128,
            Kind::Label(_) => KindTag::Label,
            Kind::Integer(_) => KindTag::Integer,
            Kind::Function(_) => KindTag::Function,
            Kind::Struct(_) => KindTag::Struct,
            Kind::Array(_) => KindTag::Array,
            Kind::Pointer(_) => KindTag::Pointer,
            Kind::Vector(_) => KindTag::Vector,
            Kind::Metadata(_) => KindTag::Metadata,
            Kind::X86_MMX(_) => KindTag::X86_MMX,
            Kind::Token(_) => KindTag::Token,
        }
    }

    /// Upcasts the subtype inside.
    #[verifier::when_used_as_spec(as_type)]
    pub fn upcast(&self) -> (ty: Type<'ctx>)
        ensures
            ty == self.as_type(),
            ty@ == self@,
    {
        match self {
            Kind::Void(t) => t.upcast(),
            Kind::Half(t) => t.upcast(),
            Kind::Float(t) => t.upcast(),
            Kind::Double(t) => t.upcast(),
            Kind::X86_FP80(t) => t.upcast(),
            Kind::FP128(t) => t.upcast(),
            Kind::PPC_FP128(t) => t.upcast(),
            Kind::Label(t) => t.upcast(),
            Kind::Integer(t) => t.upcast(),
            Kind::Function(t) => t.upcast(),
            Kind::Struct(t) => t.upcast(),
            Kind::Array(t) => t.upcast(),
            Kind::Pointer(t) => t.upcast(),
            Kind::Vector(t) => t.upcast(),
            Kind::Metadata(t) => t.upcast(),
            Kind::X86_MMX(t) => t.upcast(),
            Kind::Token(t) => t.upcast(),
        }
    }
}

impl<'ctx> PartialEq for Type<'ctx> {
    /// Whether both refer to the same type of LLVM. Nothing of the types
    /// themselves is compared: LLVM keeps one object for each type.
    fn eq(&self, other: &Self) -> (same: bool) {
        self.handle == other.handle
    }
}

impl<'ctx> vstd::std_specs::cmp::PartialEqSpecImpl for Type<'ctx> {
    open spec fn obeys_eq_spec() -> bool {
        true
    }

    open spec fn eq_spec(&self, other: &Self) -> bool {
        self@ == other@
    }
}

impl<'ctx> Eq for Type<'ctx> {}

impl<'ctx, const KIND: u32> PartialEq for Subtype<'ctx, KIND> {
    /// Whether both refer to the same type of LLVM.
    fn eq(&self, other: &Self) -> (same: bool) {
        self.ty == other.ty
    }
}

impl<'ctx, const KIND: u32> vstd::std_specs::cmp::PartialEqSpecImpl for Subtype<'ctx, KIND> {
    open spec fn obeys_eq_spec() -> bool {
        true
    }

    open spec fn eq_spec(&self, other: &Self) -> bool {
        self@ == other@
    }
}

impl<'ctx, const KIND: u32> Eq for Subtype<'ctx, KIND> {}

impl<'ctx> PartialEq for Kind<'ctx> {
    /// Whether both hold the same subtype of the same type of LLVM.
    fn eq(&self, other: &Self) -> (same: bool) {
        self.tag() == other.tag() && self.upcast() == other.upcast()
    }
}

impl<'ctx> vstd::std_specs::cmp::PartialEqSpecImpl for Kind<'ctx> {
    open spec fn obeys_eq_spec() -> bool {
        true
    }

    open spec fn eq_spec(&self, other: &Self) -> bool {
        self.spec_tag() == other.spec_tag() && self@ == other@
    }
}

impl<'ctx> Eq for Kind<'ctx> {}

impl<'ctx> Type<'ctx> {
    /// The label `Type` on the type that `context` owns under `handle`.
    ///
    /// The kind is not looked at: every type is of some kind. Of the context
    /// only the borrow is kept, as the lifetime of the result.
    pub fn wrap(context: &'ctx Context, handle: Handle) -> (ty: Type<'ctx>)
        ensures
            ty@ == handle,
    {
        Type { handle, owner: PhantomData }
    }

    /// The label `Type` on the type under `handle`, if `context` is its
    /// owner: `owner` is the context that LLVM reports for the type. A type
    /// of another context gets no label from this one.
    pub fn wrap_checked(context: &'ctx Context, handle: Handle, owner: Handle) -> (ty: Option<
        Type<'ctx>,
    >)
        ensures
            ty is Some <==> owner == context@,
            ty matches Some(t) ==> t@ == handle,
    {
        if owner == context.handle() {
            Some(Type::wrap(context, handle))
        } else {
            None
        }
    }

    /// The label `Type` on another type of the same context: the one under
    /// `handle`, which LLVM named in answer to a question about this one.
    pub fn in_same_context(&self, handle: Handle) -> (ty: Type<'ctx>)
        ensures
            ty@ == handle,
    {
        Type { handle, owner: PhantomData }
    }

    /// The handle of the type, to pass back to LLVM.
    pub fn handle(&self) -> (handle: Handle)
        ensures
            handle == self@,
    {
        self.handle
    }

    /// What `downcast` returns: the subtype of kind `tag` on the same handle.
    pub closed spec fn spec_downcast(&self, tag: KindTag) -> Kind<'ctx> {
        match tag {
            KindTag::Void => Kind::Void(Subtype { ty: *self }),
            KindTag::Half => Kind::Half(Subtype { ty: *self }),
            KindTag::Float => Kind::Float(Subtype { ty: *self }),
            KindTag::Double => Kind::Double(Subtype { ty: *self }),
            KindTag::X86_FP80 => Kind::X86_FP80(Subtype { ty: *self }),
            KindTag::FP128 => Kind::FP128(Subtype { ty: *self }),
            KindTag::PPC_FP128 => Kind::PPC_FP128(Subtype { ty: *self }),
            KindTag::Label => Kind::Label(Subtype { ty: *self }),
            KindTag::Integer => Kind::Integer(Subtype { ty: *self }),
            KindTag::Function => Kind::Function(Subtype { ty: *self }),
            KindTag::Struct => Kind::Struct(Subtype { ty: *self }),
            KindTag::Array => Kind::Array(Subtype { ty: *self }),
            KindTag::Pointer => Kind::Pointer(Subtype { ty: *self }),
            KindTag::Vector => Kind::Vector(Subtype { ty: *self }),
            KindTag::Metadata => Kind::Metadata(Subtype { ty: *self }),
            KindTag::X86_MMX => Kind::X86_MMX(Subtype { ty: *self }),
            KindTag::Token => Kind::Token(Subtype { ty: *self }),
        }
    }

    /// Downcasts to the subtype of kind `tag`, where `tag` is the kind that
    /// LLVM reports for this type.
    ///
    /// The result is always the variant of `tag`, and the subtype in it
    /// refers to the same type as `self`.
    #[verifier::when_used_as_spec(spec_downcast)]
    pub fn downcast(&self, tag: KindTag) -> (kind: Kind<'ctx>)
        ensures
            kind == self.spec_downcast(tag),
            kind.spec_tag() == tag,
            kind.as_type() == *self,
            kind@ == self@,
    {
        match tag {
            KindTag::Void => Kind::Void(Subtype { ty: *self }),
            KindTag::Half => Kind::Half(Subtype { ty: *self }),
            KindTag::Float => Kind::Float(Subtype { ty: *self }),
            KindTag::Double => Kind::Double(Subtype { ty: *self }),
            KindTag::X86_FP80 => Kind::X86_FP80(Subtype { ty: *self }),
            KindTag::FP128 => Kind::FP128(Subtype { ty: *self }),
            KindTag::PPC_FP128 => Kind::PPC_FP128(Subtype { ty: *self }),
            KindTag::Label => Kind::Label(Subtype { ty: *self }),
            KindTag::Integer => Kind::Integer(Subtype { ty: *self }),
            KindTag::Function => Kind::Function(Subtype { ty: *self }),
            KindTag::Struct => Kind::Struct(Subtype { ty: *self }),
            KindTag::Array => Kind::Array(Subtype { ty: *self }),
            KindTag::Pointer => Kind::Pointer(Subtype { ty: *self }),
            KindTag::Vector => Kind::Vector(Subtype { ty: *self }),
            KindTag::Metadata => Kind::Metadata(Subtype { ty: *self }),
            KindTag::X86_MMX => Kind::X86_MMX(Subtype { ty: *self }),
            KindTag::Token => Kind::Token(Subtype { ty: *self }),
        }
    }

    /// Downcasts by the number `raw` that LLVM reports as the kind of this
    /// type. Returns `None` where `raw` is the number of no kind: such a type
    /// is never passed off as one of some kind.
    pub fn downcast_raw(&self, raw: u32) -> (kind: Option<Kind<'ctx>>)
        ensures
            kind is None <==> raw > TOKEN_CODE,
            kind matches Some(k) ==> k.spec_tag().spec_raw() == raw && k.as_type() == *self,
            kind == match KindTag::spec_from_raw(raw) {
                Some(tag) => Some(self.spec_downcast(tag)),
                None => None,
            },
    {
        match KindTag::from_raw(raw) {
            Some(tag) => Some(self.downcast(tag)),
            None => None,
        }
    }

    /// This type as `Void`, if `tag`, the kind that LLVM reports for it, is
    /// `Void`; `None` for every other kind.
    pub fn try_as_void(&self, tag: KindTag) -> (subtype: Option<Void<'ctx>>)
        ensures
            subtype is Some <==> tag == KindTag::Void,
            subtype matches Some(t) ==> t.as_type() == *self,
    {
        if let Kind::Void(t) = self.downcast(tag) {
            Some(t)
        } else {
            None
        }
    }

    /// This type as `Half`, if `tag`, the kind that LLVM reports for it, is
    /// `Half`; `None` for every other kind.
    pub fn try_as_half(&self, tag: KindTag) -> (subtype: Option<Half<'ctx>>)
        ensures
            subtype is Some <==> tag == KindTag::Half,
            subtype matches Some(t) ==> t.as_type() == *self,
    {
        if let Kind::Half(t) = self.downcast(tag) {
            Some(t)
        } else {
            None
        }
    }

    /// This type as `Float`, if `tag`, the kind that LLVM reports for it, is
    /// `Float`; `None` for every other kind.
    pub fn try_as_float(&self, tag: KindTag) -> (subtype: Option<Float<'ctx>>)
        ensures
            subtype is Some <==> tag == KindTag::Float,
            subtype matches Some(t) ==> t.as_type() == *self,
    {
        if let Kind::Float(t) = self.downcast(tag) {
            Some(t)
        } else {
            None
        }
    }

    /// This type as `Double`, if `tag`, the kind that LLVM reports for it, is
    /// `Double`; `None` for every other kind.
    pub fn try_as_double(&self, tag: KindTag) -> (subtype: Option<Double<'ctx>>)
        ensures
            subtype is Some <==> tag == KindTag::Double,
            subtype matches Some(t) ==> t.as_type() == *self,
    {
        if let Kind::Double(t) = self.downcast(tag) {
            Some(t)
        } else {
            None
        }
    }

    /// This type as `X86_FP80`, if `tag`, the kind that LLVM reports for it, is
    /// `X86_FP80`; `None` for every other kind.
    pub fn try_as_x86_fp80(&self, tag: KindTag) -> (subtype: Option<X86_FP80<'ctx>>)
        ensures
            subtype is Some <==> tag == KindTag::X86_FP80,
            subtype matches Some(t) ==> t.as_type() == *self,
    {
        if let Kind::X86_FP80(t) = self.downcast(tag) {
            Some(t)
        } else {
            None
        }
    }

    /// This type as `FP128`, if `tag`, the kind that LLVM reports for it, is
    /// `FP128`; `None` for every other kind.
    pub fn try_as_fp128(&self, tag: KindTag) -> (subtype: Option<FP128<'ctx>>)
        ensures
            subtype is Some <==> tag == KindTag::FP128,
            subtype matches Some(t) ==> t.as_type() == *self,
    {
        if let Kind::FP128(t) = self.downcast(tag) {
            Some(t)
        } else {
            None
        }
    }

    /// This type as `PPC_FP128`, if `tag`, the kind that LLVM reports for it, is
    /// `PPC_FP128`; `None` for every other kind.
    pub fn try_as_ppc_fp128(&self, tag: KindTag) -> (subtype: Option<PPC_FP128<'ctx>>)
        ensures
            subtype is Some <==> tag == KindTag::PPC_FP128,
            subtype matches Some(t) ==> t.as_type() == *self,
    {
        if let Kind::PPC_FP128(t) = self.downcast(tag) {
            Some(t)
        } else {
            None
        }
    }

    /// This type as `Label`, if `tag`, the kind that LLVM reports for it, is
    /// `Label`; `None` for every other kind.
    pub fn try_as_label(&self, tag: KindTag) -> (subtype: Option<Label<'ctx>>)
        ensures
            subtype is Some <==> tag == KindTag::Label,
            subtype matches Some(t) ==> t.as_type() == *self,
    {
        if let Kind::Label(t) = self.downcast(tag) {
            Some(t)
        } else {
            None
        }
    }

    /// This type as `Integer`, if `tag`, the kind that LLVM reports for it, is
    /// `Integer`; `None` for every other kind.
    pub fn try_as_integer(&self, tag: KindTag) -> (subtype: Option<Integer<'ctx>>)
        ensures
            subtype is Some <==> tag == KindTag::Integer,
            subtype matches Some(t) ==> t.as_type() == *self,
    {
        if let Kind::Integer(t) = self.downcast(tag) {
            Some(t)
        } else {
            None
        }
    }

    /// This type as `Function`, if `tag`, the kind that LLVM reports for it, is
    /// `Function`; `None` for every other kind.
    pub fn try_as_function(&self, tag: KindTag) -> (subtype: Option<Function<'ctx>>)
        ensures
            subtype is Some <==> tag == KindTag::Function,
            subtype matches Some(t) ==> t.as_type() == *self,
    {
        if let Kind::Function(t) = self.downcast(tag) {
            Some(t)
        } else {
            None
        }
    }

    /// This type as `Struct`, if `tag`, the kind that LLVM reports for it, is
    /// `Struct`; `None` for every other kind.
    pub fn try_as_struct(&self, tag: KindTag) -> (subtype: Option<Struct<'ctx>>)
        ensures
            subtype is Some <==> tag == KindTag::Struct,
            subtype matches Some(t) ==> t.as_type() == *self,
    {
        if let Kind::Struct(t) = self.downcast(tag) {
            Some(t)
        } else {
            None
        }
    }

    /// This type as `Array`, if `tag`, the kind that LLVM reports for it, is
    /// `Array`; `None` for every other kind.
    pub fn try_as_array(&self, tag: KindTag) -> (subtype: Option<Array<'ctx>>)
        ensures
            subtype is Some <==> tag == KindTag::Array,
            subtype matches Some(t) ==> t.as_type() == *self,
    {
        if let Kind::Array(t) = self.downcast(tag) {
            Some(t)
        } else {
            None
        }
    }

    /// This type as `Pointer`, if `tag`, the kind that LLVM reports for it, is
    /// `Pointer`; `None` for every other kind.
    pub fn try_as_pointer(&self, tag: KindTag) -> (subtype: Option<Pointer<'ctx>>)
        ensures
            subtype is Some <==> tag == KindTag::Pointer,
            subtype matches Some(t) ==> t.as_type() == *self,
    {
        if let Kind::Pointer(t) = self.downcast(tag) {
            Some(t)
        } else {
            None
        }
    }

    /// This type as `Vector`, if `tag`, the kind that LLVM reports for it, is
    /// `Vector`; `None` for every other kind.
    pub fn try_as_vector(&self, tag: KindTag) -> (subtype: Option<Vector<'ctx>>)
        ensures
            subtype is Some <==> tag == KindTag::Vector,
            subtype matches Some(t) ==> t.as_type() == *self,
    {
        if let Kind::Vector(t) = self.downcast(tag) {
            Some(t)
        } else {
            None
        }
    }

    /// This type as `Metadata`, if `tag`, the kind that LLVM reports for it, is
    /// `Metadata`; `None` for every other kind.
    pub fn try_as_metadata(&self, tag: KindTag) -> (subtype: Option<Metadata<'ctx>>)
        ensures
            subtype is Some <==> tag == KindTag::Metadata,
            subtype matches Some(t) ==> t.as_type() == *self,
    {
        if let Kind::Metadata(t) = self.downcast(tag) {
            Some(t)
        } else {
            None
        }
    }

    /// This type as `X86_MMX`, if `tag`, the kind that LLVM reports for it, is
    /// `X86_MMX`; `None` for every other kind.
    pub fn try_as_x86_mmx(&self, tag: KindTag) -> (subtype: Option<X86_MMX<'ctx>>)
        ensures
            subtype is Some <==> tag == KindTag::X86_MMX,
            subtype matches Some(t) ==> t.as_type() == *self,
    {
        if let Kind::X86_MMX(t) = self.downcast(tag) {
            Some(t)
        } else {
            None
        }
    }

    /// This type as `Token`, if `tag`, the kind that LLVM reports for it, is
    /// `Token`; `None` for every other kind.
    pub fn try_as_token(&self, tag: KindTag) -> (subtype: Option<Token<'ctx>>)
        ensures
            subtype is Some <==> tag == KindTag::Token,
            subtype matches Some(t) ==> t.as_type() == *self,
    {
        if let Kind::Token(t) = self.downcast(tag) {
            Some(t)
        } else {
            None
        }
    }
}

/// Each subtype is of the kind that it is named after.
pub proof fn lemma_each_subtype_is_of_its_kind()
    ensures
        Void::spec_kind() == KindTag::Void,
        Half::spec_kind() == KindTag::Half,
        Float::spec_kind() == KindTag::Float,
        Double::spec_kind() == KindTag::Double,
        X86_FP80::spec_kind() == KindTag::X86_FP80,
        FP128::spec_kind() == KindTag::FP128,
        PPC_FP128::spec_kind() == KindTag::PPC_FP128,
        Label::spec_kind() == KindTag::Label,
        Integer::spec_kind() == KindTag::Integer,
        Function::spec_kind() == KindTag::Function,
        Struct::spec_kind() == KindTag::Struct,
        Array::spec_kind() == KindTag::Array,
        Pointer::spec_kind() == KindTag::Pointer,
        Vector::spec_kind() == KindTag::Vector,
        Metadata::spec_kind() == KindTag::Metadata,
        X86_MMX::spec_kind() == KindTag::X86_MMX,
        Token::spec_kind() == KindTag::Token,
{
}

/// A downcast always lands in the variant of the kind it was given: never in
/// another one, and there is no kind for which it has no variant.
pub proof fn lemma_downcast_selects_the_kind(ty: Type, tag: KindTag)
    ensures
        ty.downcast(tag).tag() == tag,
{
}

/// Casting relabels and does nothing else. The subtype that a downcast
/// gives, and the `Type` that an upcast gives, have the handle that went in.
pub proof fn lemma_casts_keep_the_handle<const KIND: u32>(
    ty: Type,
    tag: KindTag,
    subtype: Subtype<KIND>,
)
    ensures
        ty.downcast(tag)@ == ty@,
        ty.downcast(tag).upcast() == ty,
        subtype.upcast()@ == subtype@,
{
}

/// Upcasting a subtype and downcasting by its kind gives the variant of that
/// kind, with a subtype on the handle of the first.
pub proof fn lemma_upcast_then_downcast<const KIND: u32>(subtype: Subtype<KIND>)
    ensures
        subtype.upcast().downcast(Subtype::<KIND>::spec_kind()).tag() == Subtype::<KIND>::spec_kind(),
        subtype.upcast().downcast(Subtype::<KIND>::spec_kind())@ == subtype@,
{
}

/// Upcasting what a variant holds and downcasting by the kind of the variant
/// gives the variant back, with the subtype that it held.
pub proof fn lemma_downcast_inverts_upcast(kind: Kind)
    ensures
        kind.upcast().downcast(kind.tag()) == kind,
{
}

/// Wrappers are told apart by their handles alone. Two `Type`s on one handle
/// are one value and compare equal, however each was come by; so do two
/// subtypes of one kind, and two variants of one kind.
pub proof fn lemma_equality_is_identity<const KIND: u32>(
    a: Type,
    b: Type,
    s: Subtype<KIND>,
    t: Subtype<KIND>,
    j: Kind,
    k: Kind,
)
    ensures
        a@ == b@ <==> a == b,
        a.eq_spec(&b) <==> a == b,
        s@ == t@ <==> s == t,
        s.eq_spec(&t) <==> s == t,
        (j.tag() == k.tag() && j@ == k@) <==> j == k,
        j.eq_spec(&k) <==> j == k,
{
}

/// A `Type` that went down to a subtype and back up compares equal to the
/// one that went in.
pub proof fn lemma_round_trip_compares_equal(ty: Type, tag: KindTag)
    ensures
        ty.downcast(tag).upcast().eq_spec(&ty),
{
}

} // verus!
