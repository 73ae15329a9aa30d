use crops::resolve::{resolve, InRule, OutRule, ParamTy, Shape};
use crops::schema::{Directives, Ty};

fn name(s: &str) -> Vec<u8> {
    s.as_bytes().to_vec()
}

#[test]
fn primitive_resolves_to_by_value_scalar() {
    let d = resolve(&Ty::Name(name("u8")), &Directives::none());
    assert!(matches!(d.shape, Shape::Scalar));
    assert!(matches!(d.inbound, ParamTy::Value(Ty::Name(ref n)) if n == b"u8"));
    assert!(matches!(d.outbound, ParamTy::MutRef(Ty::Name(ref n)) if n == b"u8"));
    assert!(matches!(d.in_rule, InRule::CopyAssign));
    assert!(matches!(d.out_rule, OutRule::CopyStore));
}

#[test]
fn every_fixed_width_name_is_scalar_by_value() {
    for n in [
        "i8", "i16", "i32", "i64", "i128", "u8", "u16", "u32", "u64", "u128", "f32", "f64", "bool",
    ] {
        let d = resolve(&Ty::Name(name(n)), &Directives::none());
        assert!(matches!(d.shape, Shape::Scalar));
        assert!(matches!(d.inbound, ParamTy::Value(_)));
    }
}

#[test]
fn text_resolves_to_decoded_scalar() {
    let d = resolve(&Ty::Name(name("String")), &Directives::none());
    assert!(matches!(d.shape, Shape::Scalar));
    assert!(matches!(d.inbound, ParamTy::TextIn));
    assert!(matches!(d.outbound, ParamTy::TextOut));
    assert!(matches!(d.in_rule, InRule::DecodeText));
    assert!(matches!(d.out_rule, OutRule::EncodeText));
}

#[test]
fn sequence_resolves_recursively() {
    let d = resolve(
        &Ty::App(name("Vec"), Box::new(Ty::Name(name("u64")))),
        &Directives::none(),
    );
    assert!(matches!(d.shape, Shape::Sequence));
    assert!(matches!(d.inbound, ParamTy::Value(Ty::Name(ref n)) if n == b"u64"));
    assert!(matches!(d.in_rule, InRule::CopyAssign));
}

#[test]
fn optional_resolves_recursively() {
    let d = resolve(
        &Ty::App(name("Option"), Box::new(Ty::Name(name("String")))),
        &Directives::none(),
    );
    assert!(matches!(d.shape, Shape::Optional));
    assert!(matches!(d.inbound, ParamTy::TextIn));
    assert!(matches!(d.out_rule, OutRule::EncodeText));
}

#[test]
fn nested_containers_terminate_with_outer_shape() {
    let d = resolve(
        &Ty::App(
            name("Vec"),
            Box::new(Ty::App(name("Option"), Box::new(Ty::Name(name("u8"))))),
        ),
        &Directives::none(),
    );
    assert!(matches!(d.shape, Shape::Sequence));
    assert!(matches!(d.inbound, ParamTy::Value(_)));
}

#[test]
fn enum_mark_forces_clone_through_pointer() {
    let dirs = Directives {
        as_override: None,
        mark_enum: true,
        inbound_literal: None,
        custom_parser: None,
    };
    let d = resolve(&Ty::Name(name("Color")), &dirs);
    assert!(matches!(d.shape, Shape::Scalar));
    assert!(matches!(d.inbound, ParamTy::ConstRef(_)));
    assert!(matches!(d.in_rule, InRule::CloneAssign));
    assert!(matches!(d.out_rule, OutRule::CloneStore));
}

#[test]
fn enum_marked_primitive_stays_by_value_but_clones_out() {
    let dirs = Directives {
        as_override: None,
        mark_enum: true,
        inbound_literal: None,
        custom_parser: None,
    };
    let d = resolve(&Ty::Name(name("u32")), &dirs);
    assert!(matches!(d.inbound, ParamTy::Value(_)));
    assert!(matches!(d.in_rule, InRule::CopyAssign));
    assert!(matches!(d.out_rule, OutRule::CloneStore));
}

#[test]
fn override_directive_wins() {
    let dirs = Directives {
        as_override: Some(Ty::Name(name("u8"))),
        mark_enum: false,
        inbound_literal: None,
        custom_parser: None,
    };
    let d = resolve(&Ty::Name(name("Wrapped")), &dirs);
    assert!(matches!(d.shape, Shape::Scalar));
    assert!(matches!(d.inbound, ParamTy::Value(Ty::Name(ref n)) if n == b"u8"));
    assert!(matches!(d.native, Ty::Name(ref n) if n == b"u8"));
}

#[test]
fn composite_fallback_clones_both_ways() {
    let d = resolve(&Ty::Name(name("Brush")), &Directives::none());
    assert!(matches!(d.shape, Shape::Scalar));
    assert!(matches!(d.inbound, ParamTy::ConstRef(_)));
    assert!(matches!(d.in_rule, InRule::CloneAssign));
    assert!(matches!(d.out_rule, OutRule::CloneStore));
}

#[test]
fn unknown_wrapper_is_transparent_scalar() {
    let d = resolve(
        &Ty::App(name("Arc"), Box::new(Ty::Name(name("u16")))),
        &Directives::none(),
    );
    assert!(matches!(d.shape, Shape::Scalar));
    assert!(matches!(d.inbound, ParamTy::Value(Ty::Name(ref n)) if n == b"u16"));
}
