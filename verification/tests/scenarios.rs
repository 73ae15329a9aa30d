use crops::boundary::{
    error_text, render_record, render_union, status_code, union_as, union_default, FieldValue,
    Instance, Scalar, BoundaryError, STATUS_OK,
};
use crops::emit::entity_operations;
use crops::schema::{Config, Directives, Entity, Field, Ty, Variant};
use crops::utils::{as_string, check_null, check_null_const, copy_string, duration_from_ms};
use crops::traits::{AsConstPtr, AsMutPtr};

fn name(s: &str) -> Vec<u8> {
    s.as_bytes().to_vec()
}

#[test]
fn color_scenario_default_retag_and_render() {
    // Entity Color with variants Red, Blue, Green; Red is the default.
    let entity = Entity::Union {
        name: name("Color"),
        variants: vec![
            Variant { name: name("Red"), payload: None },
            Variant { name: name("Blue"), payload: None },
            Variant { name: name("Green"), payload: None },
        ],
    };
    let ops = entity_operations(&entity, &Config::default()).unwrap();
    assert_eq!(ops[0].name, name("color_default"));
    assert_eq!(ops[5].name, name("color_as_blue"));

    let variant_names = vec![name("Red"), name("Blue"), name("Green")];
    let fresh = union_default(0);
    assert_eq!(render_union(&fresh, &variant_names), b"Red".to_vec());

    let mut handle = Some(*fresh);
    let r = union_as(&mut handle, 1, None);
    assert_eq!(status_code(&r), STATUS_OK);
    let rendered = render_union(&handle.unwrap(), &variant_names);
    assert_eq!(rendered, b"Blue".to_vec());
}

#[test]
fn brush_scenario_default_write_and_read() {
    // Entity Brush with weight: u8 and color: Color (enum-marked).
    let entity = Entity::Record {
        name: name("Brush"),
        fields: vec![
            Field { name: name("weight"), ty: Ty::Name(name("u8")), directives: Directives::none() },
            Field {
                name: name("color"),
                ty: Ty::Name(name("Color")),
                directives: Directives {
                    as_override: None,
                    mark_enum: true,
                    inbound_literal: None,
                    custom_parser: None,
                },
            },
        ],
    };
    let ops = entity_operations(&entity, &Config::default()).unwrap();
    assert_eq!(ops[3].name, name("brush_with_weight"));
    assert_eq!(ops[4].name, name("brush_get_weight"));

    let mut handle = Some(Instance {
        fields: vec![
            FieldValue::One(Scalar::Unsigned(0)),
            FieldValue::One(Scalar::Unsigned(0)),
        ],
    });
    let r = crops::boundary::record_with(&mut handle, 0, Scalar::Unsigned(0x34));
    assert_eq!(status_code(&r), STATUS_OK);
    let mut out = Some(Scalar::Unsigned(0));
    let r = crops::boundary::record_get(&handle, 0, &mut out);
    assert_eq!(status_code(&r), STATUS_OK);
    assert!(matches!(out, Some(Scalar::Unsigned(0x34))));
}

#[test]
fn copy_string_truncates_hello_world_to_hello() {
    let mut buffer = vec![0u8; 5];
    let r = copy_string(&mut buffer, &b"hello world".to_vec());
    assert_eq!(status_code(&r), STATUS_OK);
    assert_eq!(buffer, b"hello".to_vec());
}

#[test]
fn copy_string_leaves_spare_capacity_bytes() {
    let mut buffer = vec![9u8; 4];
    let r = copy_string(&mut buffer, &b"hi".to_vec());
    assert!(r.is_ok());
    assert_eq!(buffer, vec![b'h', b'i', 9, 9]);
}

#[test]
fn as_string_validates_utf8() {
    let ok = as_string(&b"gr\xc3\xbcn".to_vec());
    assert_eq!(ok.unwrap(), b"gr\xc3\xbcn".to_vec());
    let bad = as_string(&vec![0xff, 0xfe]);
    assert_eq!(bad.unwrap_err(), BoundaryError::TextDecode);
}

#[test]
fn diagnostics_name_the_owning_entity() {
    let text = error_text(&BoundaryError::NullHandle, &name("Brush"));
    assert_eq!(text, b"null handle (Brush)".to_vec());
    let text = error_text(&BoundaryError::IndexOutOfRange, &name("Bag"));
    assert_eq!(text, b"index out of range (Bag)".to_vec());
    let text = error_text(&BoundaryError::EmptyOptional, &name("Form"));
    assert_eq!(text, b"option empty (Form)".to_vec());
    let text = error_text(&BoundaryError::TextDecode, &name("Form"));
    assert_eq!(text, b"invalid utf-8 (Form)".to_vec());
}

#[test]
fn record_rendering_shows_every_field() {
    let inst = Instance {
        fields: vec![
            FieldValue::One(Scalar::Unsigned(52)),
            FieldValue::One(Scalar::Signed(-3)),
            FieldValue::One(Scalar::Flag(true)),
            FieldValue::One(Scalar::Text(b"ok".to_vec())),
            FieldValue::Many(vec![Scalar::Unsigned(1), Scalar::Unsigned(2)]),
            FieldValue::Maybe(None),
        ],
    };
    let rendered = render_record(&inst);
    assert_eq!(rendered, b"{52,-3,true,\"ok\",[1,2],()}".to_vec());
}

#[test]
fn null_checks_report_without_dereferencing() {
    let mut present = Some(41u64);
    assert_eq!(*check_null(&mut present).unwrap(), 41);
    let mut absent: Option<u64> = None;
    assert_eq!(check_null(&mut absent).unwrap_err(), BoundaryError::NullHandle);
    let present = Some(7u32);
    assert_eq!(*check_null_const(&present).unwrap(), 7);
    let absent: Option<u32> = None;
    assert_eq!(
        check_null_const(&absent).unwrap_err(),
        BoundaryError::NullHandle
    );
}

#[test]
fn duration_keeps_its_milliseconds() {
    let d = duration_from_ms(1500);
    assert_eq!(d.as_millis(), 1500);
}

#[test]
fn pointer_traits_borrow_the_value_itself() {
    let mut v = 5u64;
    *v.as_mut_ptr() = 6;
    assert_eq!(v, 6);
    assert_eq!(*v.as_const_ptr(), 6);
}

#[test]
fn copy_string_into_zero_capacity_buffer_is_success() {
    let mut buffer: Vec<u8> = vec![];
    let r = copy_string(&mut buffer, &b"anything".to_vec());
    assert_eq!(status_code(&r), STATUS_OK);
    assert!(buffer.is_empty());
}

#[test]
fn entity_without_fields_still_gets_whole_entity_operations() {
    let entity = Entity::Record { name: name("Unit"), fields: vec![] };
    let ops = entity_operations(&entity, &Config::default()).unwrap();
    let names: Vec<Vec<u8>> = ops.into_iter().map(|op| op.name).collect();
    assert_eq!(names, vec![name("unit_default"), name("unit_clone"), name("unit_debug")]);
}

#[test]
fn constructor_over_no_fields_builds_the_default() {
    let config = Config {
        gen_default: false,
        gen_clone: false,
        gen_debug: false,
        constructors: vec![vec![]],
    };
    let entity = Entity::Record { name: name("Unit"), fields: vec![] };
    let ops = entity_operations(&entity, &config).unwrap();
    assert_eq!(ops.len(), 1);
    assert_eq!(ops[0].name, name("unit_from_"));
    assert!(ops[0].params.is_empty());
}

#[test]
fn empty_text_stays_empty_through_decode() {
    let empty: Vec<u8> = vec![];
    assert_eq!(as_string(&empty).unwrap(), Vec::<u8>::new());
}
