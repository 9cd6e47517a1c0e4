use llvm_types::{Context, Handle, Integer, Kind, KindTag, Pointer, Subtype, Type};

fn handle(addr: usize) -> Handle {
    Handle::from_addr(addr).unwrap()
}

fn context() -> Context {
    Context::new(handle(0x10))
}

fn all_tags() -> [KindTag; 17] {
    [
        KindTag::Void,
        KindTag::Half,
        KindTag::Float,
        KindTag::Double,
        KindTag::X86_FP80,
        KindTag::FP128,
        KindTag::PPC_FP128,
        KindTag::Label,
        KindTag::Integer,
        KindTag::Function,
        KindTag::Struct,
        KindTag::Array,
        KindTag::Pointer,
        KindTag::Vector,
        KindTag::Metadata,
        KindTag::X86_MMX,
        KindTag::Token,
    ]
}

/// Which of the `try_as_*` functions give a subtype for `ty` under `tag`, in
/// the order of `all_tags`, each with the address of the subtype it gave.
fn try_all(ty: &Type, tag: KindTag) -> [Option<usize>; 17] {
    [
        ty.try_as_void(tag).map(|t| t.handle().addr()),
        ty.try_as_half(tag).map(|t| t.handle().addr()),
        ty.try_as_float(tag).map(|t| t.handle().addr()),
        ty.try_as_double(tag).map(|t| t.handle().addr()),
        ty.try_as_x86_fp80(tag).map(|t| t.handle().addr()),
        ty.try_as_fp128(tag).map(|t| t.handle().addr()),
        ty.try_as_ppc_fp128(tag).map(|t| t.handle().addr()),
        ty.try_as_label(tag).map(|t| t.handle().addr()),
        ty.try_as_integer(tag).map(|t| t.handle().addr()),
        ty.try_as_function(tag).map(|t| t.handle().addr()),
        ty.try_as_struct(tag).map(|t| t.handle().addr()),
        ty.try_as_array(tag).map(|t| t.handle().addr()),
        ty.try_as_pointer(tag).map(|t| t.handle().addr()),
        ty.try_as_vector(tag).map(|t| t.handle().addr()),
        ty.try_as_metadata(tag).map(|t| t.handle().addr()),
        ty.try_as_x86_mmx(tag).map(|t| t.handle().addr()),
        ty.try_as_token(tag).map(|t| t.handle().addr()),
    ]
}

/// The kind of the variant, read from the variant itself and not through
/// `Kind::tag`.
fn variant_of(kind: &Kind) -> KindTag {
    match kind {
        Kind::Void(_) => KindTag::Void,
        Kind::Half(_) => KindTag::Half,
        Kind::Float(_) => KindTag::Float,
        Kind::Double(_) => KindTag::Double,
        Kind::X86_FP80(_) => KindTag::X86_FP80,
        Kind::FP128(_) => KindTag::FP128,
        Kind::PPC_FP128(_) => KindTag::PPC_FP128,
        Kind::Label(_) => KindTag::Label,
        Kind::Integer(_) => KindTag::Integer,
        Kind::Function(_) => KindTag::Function,
        Kind::Struct(_) => KindTag::Struct,
        Kind::Array(_) => KindTag::Array,
        Kind::Pointer(_) => KindTag::Pointer,
        Kind::Vector(_) => KindTag::Vector,
        Kind::Metadata(_) => KindTag::Metadata,
        Kind::X86_MMX(_) => KindTag::X86_MMX,
        Kind::Token(_) => KindTag::Token,
    }
}

/// The kind that the subtype inside the variant says it is of.
fn kind_of_the_subtype_in(kind: &Kind) -> KindTag {
    match kind {
        Kind::Void(t) => t.kind(),
        Kind::Half(t) => t.kind(),
        Kind::Float(t) => t.kind(),
        Kind::Double(t) => t.kind(),
        Kind::X86_FP80(t) => t.kind(),
        Kind::FP128(t) => t.kind(),
        Kind::PPC_FP128(t) => t.kind(),
        Kind::Label(t) => t.kind(),
        Kind::Integer(t) => t.kind(),
        Kind::Function(t) => t.kind(),
        Kind::Struct(t) => t.kind(),
        Kind::Array(t) => t.kind(),
        Kind::Pointer(t) => t.kind(),
        Kind::Vector(t) => t.kind(),
        Kind::Metadata(t) => t.kind(),
        Kind::X86_MMX(t) => t.kind(),
        Kind::Token(t) => t.kind(),
    }
}

fn address_of(ty: &Type) -> usize {
    ty.handle().addr()
}

#[test]
fn wrap_keeps_the_handle() {
    let context = context();
    let ty = Type::wrap(&context, handle(0x2000));
    assert_eq!(ty.handle(), handle(0x2000));
    assert_eq!(ty.handle().addr(), 0x2000);
}

#[test]
fn wrap_checked_takes_a_type_of_the_context() {
    let context = context();
    let ty = Type::wrap_checked(&context, handle(0x2000), handle(0x10));
    assert_eq!(ty, Some(Type::wrap(&context, handle(0x2000))));
    assert_eq!(ty.unwrap().handle().addr(), 0x2000);
}

#[test]
fn wrap_checked_refuses_a_type_of_another_context() {
    let context = context();
    assert_eq!(Type::wrap_checked(&context, handle(0x2000), handle(0x18)), None);
    assert_eq!(Type::wrap_checked(&context, handle(0x10), handle(0x2000)), None);
}

#[test]
fn a_type_of_the_same_context_is_on_the_handle_given() {
    let context = context();
    let ty = Type::wrap(&context, handle(0x2000));
    let other = ty.in_same_context(handle(0x2008));
    assert_eq!(other.handle(), handle(0x2008));
    assert_eq!(other, Type::wrap(&context, handle(0x2008)));
    assert_eq!(ty.in_same_context(handle(0x2000)), ty);
}

#[test]
fn downcast_gives_the_variant_of_the_tag() {
    let context = context();
    let ty = Type::wrap(&context, handle(0x2000));
    for tag in all_tags() {
        let kind = ty.downcast(tag);
        assert_eq!(variant_of(&kind), tag);
        assert_eq!(kind.tag(), tag);
    }
}

#[test]
fn downcast_keeps_the_handle() {
    let context = context();
    for addr in [1usize, 0x2000, usize::MAX] {
        let ty = Type::wrap(&context, handle(addr));
        for tag in all_tags() {
            let kind = ty.downcast(tag);
            assert_eq!(kind.upcast().handle().addr(), addr);
            assert_eq!(kind.upcast(), ty);
        }
    }
}

#[test]
fn downcast_of_an_integer_holds_that_integer() {
    let context = context();
    let ty = Type::wrap(&context, handle(0x2000));
    match ty.downcast(KindTag::Integer) {
        Kind::Integer(integer) => {
            assert_eq!(integer.handle().addr(), 0x2000);
            assert_eq!(integer.kind(), KindTag::Integer);
        }
        other => panic!("an integer came out as {:?}", other),
    }
}

#[test]
fn upcast_then_downcast_gives_the_subtype_back() {
    let context = context();
    let ty = Type::wrap(&context, handle(0x2000));
    for tag in all_tags() {
        let kind = ty.downcast(tag);
        let again = kind.upcast().downcast(kind.tag());
        assert_eq!(variant_of(&again), tag);
        assert_eq!(again.upcast().handle(), kind.upcast().handle());
        assert_eq!(again, kind);
    }
}

#[test]
fn an_integer_goes_up_and_comes_back_down() {
    let context = context();
    let integer = context.integer_type(handle(0x3000));
    let up: Type = integer.upcast();
    match up.downcast(integer.kind()) {
        Kind::Integer(back) => {
            assert_eq!(back.handle(), integer.handle());
            assert_eq!(back, integer);
        }
        other => panic!("an integer came back as {:?}", other),
    }
}

#[test]
fn try_as_gives_the_kind_asked_for_and_no_other() {
    let context = context();
    let ty = Type::wrap(&context, handle(0x2000));
    let tags = all_tags();
    for tag in tags {
        let tried = try_all(&ty, tag);
        for (index, asked) in tags.iter().enumerate() {
            if *asked == tag {
                assert_eq!(tried[index], Some(0x2000));
            } else {
                assert_eq!(tried[index], None);
            }
        }
    }
}

#[test]
fn try_as_double_gives_a_double() {
    let context = context();
    let ty = Type::wrap(&context, handle(0x2000));
    let double = ty.try_as_double(KindTag::Double).unwrap();
    assert_eq!(double.kind(), KindTag::Double);
    assert!(ty.try_as_double(KindTag::Integer).is_none());
    assert!(ty.try_as_integer(KindTag::Double).is_none());
}

#[test]
fn a_subtype_knows_its_kind() {
    let context = context();
    let ty = Type::wrap(&context, handle(0x2000));
    assert_eq!(ty.try_as_void(KindTag::Void).unwrap().kind(), KindTag::Void);
    assert_eq!(ty.try_as_x86_fp80(KindTag::X86_FP80).unwrap().kind(), KindTag::X86_FP80);
    assert_eq!(ty.try_as_pointer(KindTag::Pointer).unwrap().kind(), KindTag::Pointer);
    assert_eq!(ty.try_as_token(KindTag::Token).unwrap().kind(), KindTag::Token);
}

#[test]
fn each_variant_holds_a_subtype_of_its_kind() {
    let context = context();
    let ty = Type::wrap(&context, handle(0x2000));
    for tag in all_tags() {
        assert_eq!(kind_of_the_subtype_in(&ty.downcast(tag)), tag);
    }
}

#[test]
fn downcast_raw_reads_the_number_as_its_kind() {
    let context = context();
    let ty = Type::wrap(&context, handle(0x2000));
    for tag in all_tags() {
        let kind = ty.downcast_raw(tag.raw()).unwrap();
        assert_eq!(variant_of(&kind), tag);
        assert_eq!(kind.upcast(), ty);
    }
    assert!(matches!(ty.downcast_raw(8), Some(Kind::Integer(_))));
    assert!(matches!(ty.downcast_raw(12), Some(Kind::Pointer(_))));
}

#[test]
fn downcast_raw_refuses_a_number_of_no_kind() {
    let context = context();
    let ty = Type::wrap(&context, handle(0x2000));
    for raw in [17u32, 18, 19, 20, 1000, u32::MAX] {
        assert_eq!(ty.downcast_raw(raw), None);
    }
}

#[test]
fn types_on_one_handle_are_equal() {
    let context = context();
    let a = Type::wrap(&context, handle(0x2000));
    let b = Type::wrap(&context, handle(0x2000));
    let c = Type::wrap(&context, handle(0x2008));
    assert_eq!(a, b);
    assert_ne!(a, c);
}

#[test]
fn equality_survives_the_casts() {
    let context = context();
    let a = Type::wrap(&context, handle(0x2000));
    let b = Type::wrap(&context, handle(0x2000));
    let down = a.try_as_pointer(KindTag::Pointer).unwrap();
    assert_eq!(down.upcast(), b);
    assert_eq!(a.downcast(KindTag::Pointer).upcast(), b);
    assert_eq!(down, b.try_as_pointer(KindTag::Pointer).unwrap());
    assert_eq!(a.downcast(KindTag::Pointer), b.downcast(KindTag::Pointer));
}

#[test]
fn variants_of_different_kinds_differ() {
    let context = context();
    let ty = Type::wrap(&context, handle(0x2000));
    assert_ne!(ty.downcast(KindTag::Pointer), ty.downcast(KindTag::Integer));
    let other = Type::wrap(&context, handle(0x2008));
    assert_ne!(ty.downcast(KindTag::Pointer), other.downcast(KindTag::Pointer));
}

#[test]
fn no_cast_changes_the_address() {
    let context = context();
    for addr in [1usize, 0x2000, 0xdead_beef, usize::MAX] {
        let ty = Type::wrap(&context, handle(addr));
        let integer: Integer = ty.try_as_integer(KindTag::Integer).unwrap();
        assert_eq!(integer.handle().addr(), addr);
        assert_eq!(integer.upcast().handle().addr(), addr);
        let again = integer.upcast().try_as_integer(KindTag::Integer).unwrap();
        assert_eq!(again.handle().addr(), addr);
    }
}

#[test]
fn a_subtype_stands_where_a_type_is_expected() {
    let context = context();
    let ty = Type::wrap(&context, handle(0x2000));
    let integer: Integer = ty.try_as_integer(KindTag::Integer).unwrap();
    let pointer: Pointer = ty.try_as_pointer(KindTag::Pointer).unwrap();
    assert_eq!(address_of(&integer), 0x2000);
    assert_eq!(address_of(&pointer), 0x2000);
    let borrowed: &Type = &integer;
    assert_eq!(*borrowed, ty);
}

#[test]
fn a_subtype_is_no_larger_than_an_address() {
    assert_eq!(std::mem::size_of::<Type>(), std::mem::size_of::<usize>());
    assert_eq!(std::mem::size_of::<Integer>(), std::mem::size_of::<usize>());
    assert_eq!(std::mem::size_of::<Subtype<12>>(), std::mem::size_of::<usize>());
}

#[test]
fn a_wrapper_lives_within_the_borrow_of_its_context() {
    let context = context();
    let inner = {
        let handle = handle(0x2000);
        Type::wrap(&context, handle)
    };
    assert_eq!(inner.handle().addr(), 0x2000);
}
