use crops::emit::{entity_operations, EmitError, OpKind, Param, Returns};
use crops::schema::{Config, Directives, Entity, Field, Ty, Variant};

fn name(s: &str) -> Vec<u8> {
    s.as_bytes().to_vec()
}

fn field(n: &str, ty: Ty) -> Field {
    Field { name: name(n), ty, directives: Directives::none() }
}

fn brush() -> Entity {
    Entity::Record {
        name: name("Brush"),
        fields: vec![
            field("weight", Ty::Name(name("u8"))),
            Field {
                name: name("color"),
                ty: Ty::Name(name("Color")),
                directives: Directives {
                    as_override: None,
                    mark_enum: true,
                    inbound_literal: None,
                    custom_parser: None,
                },
            },
        ],
    }
}

fn op_names(entity: &Entity, config: &Config) -> Vec<String> {
    entity_operations(entity, config)
        .unwrap()
        .into_iter()
        .map(|op| String::from_utf8(op.name).unwrap())
        .collect()
}

#[test]
fn record_emits_common_then_accessors() {
    let names = op_names(&brush(), &Config::default());
    assert_eq!(
        names,
        vec![
            "brush_default",
            "brush_clone",
            "brush_debug",
            "brush_with_weight",
            "brush_get_weight",
            "brush_with_color",
            "brush_get_color",
        ]
    );
}

#[test]
fn scalar_accessors_have_handle_and_value() {
    let ops = entity_operations(&brush(), &Config::default()).unwrap();
    let with_weight = &ops[3];
    assert!(matches!(with_weight.kind, OpKind::ScalarWith));
    assert!(matches!(with_weight.returns, Returns::Status));
    assert_eq!(with_weight.params.len(), 2);
    assert!(matches!(with_weight.params[0], Param::MutHandle));
    assert!(matches!(with_weight.params[1], Param::In(_)));
    let get_weight = &ops[4];
    assert!(matches!(get_weight.kind, OpKind::ScalarGet));
    assert!(matches!(get_weight.params[0], Param::ConstHandle));
    assert!(matches!(get_weight.params[1], Param::Out(_)));
}

#[test]
fn names_are_snake_cased_from_source_casing() {
    let entity = Entity::Record {
        name: name("BrushSet"),
        fields: vec![field("MyField", Ty::Name(name("u8")))],
    };
    let names = op_names(&entity, &Config::default());
    assert!(names.contains(&"brush_set_with_my_field".to_string()));
    assert!(names.contains(&"brush_set_get_my_field".to_string()));
}

#[test]
fn sequence_field_emits_push_get_remove() {
    let entity = Entity::Record {
        name: name("Bag"),
        fields: vec![field("items", Ty::App(name("Vec"), Box::new(Ty::Name(name("u64")))))],
    };
    let ops = entity_operations(&entity, &Config::default()).unwrap();
    let names: Vec<String> =
        ops.iter().map(|op| String::from_utf8(op.name.clone()).unwrap()).collect();
    assert_eq!(
        names,
        vec!["bag_default", "bag_clone", "bag_debug", "bag_push_items", "bag_get_items", "bag_remove_items"]
    );
    assert!(matches!(ops[3].kind, OpKind::SeqPush));
    assert!(matches!(ops[4].kind, OpKind::SeqGet));
    assert!(matches!(ops[4].params[1], Param::Index));
    assert!(matches!(ops[5].kind, OpKind::SeqRemove));
    assert_eq!(ops[5].params.len(), 3);
}

#[test]
fn optional_field_emits_replace_take_get() {
    let entity = Entity::Record {
        name: name("Form"),
        fields: vec![field("note", Ty::App(name("Option"), Box::new(Ty::Name(name("String")))))],
    };
    let ops = entity_operations(&entity, &Config::default()).unwrap();
    let names: Vec<String> =
        ops.iter().map(|op| String::from_utf8(op.name.clone()).unwrap()).collect();
    assert_eq!(
        names,
        vec![
            "form_default",
            "form_clone",
            "form_debug",
            "form_replace_note",
            "form_take_note",
            "form_get_note",
        ]
    );
    assert!(matches!(ops[3].kind, OpKind::OptReplace));
    assert!(matches!(ops[4].kind, OpKind::OptTake));
    assert!(matches!(ops[5].kind, OpKind::OptGet));
}

#[test]
fn suppressed_operations_are_not_emitted() {
    let config = Config { gen_default: true, gen_clone: false, gen_debug: false, constructors: vec![] };
    let names = op_names(&brush(), &config);
    assert_eq!(
        names,
        vec!["brush_default", "brush_with_weight", "brush_get_weight", "brush_with_color", "brush_get_color"]
    );
}

#[test]
fn named_constructor_takes_fields_in_order() {
    let config = Config {
        gen_default: false,
        gen_clone: false,
        gen_debug: false,
        constructors: vec![vec![name("color"), name("weight")]],
    };
    let ops = entity_operations(&brush(), &config).unwrap();
    assert_eq!(ops[0].name, name("brush_from_color_weight"));
    assert!(matches!(ops[0].kind, OpKind::Construct));
    assert!(matches!(ops[0].returns, Returns::Owning));
    assert_eq!(ops[0].params.len(), 2);
    assert!(matches!(ops[0].params[0], Param::In(_)));
}

#[test]
fn constructor_with_unknown_field_is_fatal() {
    let config = Config {
        gen_default: true,
        gen_clone: true,
        gen_debug: true,
        constructors: vec![vec![name("weight"), name("missing")]],
    };
    let r = entity_operations(&brush(), &config);
    assert_eq!(r.unwrap_err(), EmitError::UnknownConstructorField);
}

#[test]
fn colliding_generated_names_are_fatal() {
    let entity = Entity::Record {
        name: name("Clash"),
        fields: vec![
            field("my_field", Ty::Name(name("u8"))),
            field("MyField", Ty::Name(name("u8"))),
        ],
    };
    let r = entity_operations(&entity, &Config::default());
    assert_eq!(r.unwrap_err(), EmitError::NameCollision);
}

#[test]
fn union_emits_retag_and_fresh_per_variant() {
    let entity = Entity::Union {
        name: name("Color"),
        variants: vec![
            Variant { name: name("Red"), payload: None },
            Variant { name: name("Blue"), payload: None },
            Variant {
                name: name("Green"),
                payload: Some(field("level", Ty::Name(name("u8")))),
            },
        ],
    };
    let ops = entity_operations(&entity, &Config::default()).unwrap();
    let names: Vec<String> =
        ops.iter().map(|op| String::from_utf8(op.name.clone()).unwrap()).collect();
    assert_eq!(
        names,
        vec![
            "color_default",
            "color_clone",
            "color_debug",
            "color_as_red",
            "color_from_red",
            "color_as_blue",
            "color_from_blue",
            "color_as_green",
            "color_from_green",
        ]
    );
    assert!(matches!(ops[3].kind, OpKind::IntoVariant));
    assert_eq!(ops[3].params.len(), 1);
    assert!(matches!(ops[4].kind, OpKind::FromVariant));
    assert_eq!(ops[4].params.len(), 0);
    assert!(matches!(ops[4].returns, Returns::Owning));
    assert_eq!(ops[7].params.len(), 2);
    assert!(matches!(ops[7].params[1], Param::In(_)));
    assert_eq!(ops[8].params.len(), 1);
}

#[test]
fn override_directive_changes_the_emitted_shape() {
    let entity = Entity::Record {
        name: name("Pack"),
        fields: vec![Field {
            name: name("blob"),
            ty: Ty::Name(name("Payload")),
            directives: Directives {
                as_override: Some(Ty::App(name("Vec"), Box::new(Ty::Name(name("u8"))))),
                mark_enum: false,
                inbound_literal: None,
                custom_parser: None,
            },
        }],
    };
    let names = op_names(&entity, &Config::default());
    assert_eq!(
        names,
        vec!["pack_default", "pack_clone", "pack_debug", "pack_push_blob", "pack_get_blob", "pack_remove_blob"]
    );
}

#[test]
fn union_with_suppressed_clone_keeps_default_and_debug() {
    let entity = Entity::Union {
        name: name("Color"),
        variants: vec![Variant { name: name("Red"), payload: None }],
    };
    let config = Config { gen_default: true, gen_clone: false, gen_debug: true, constructors: vec![] };
    let names = op_names(&entity, &config);
    assert_eq!(names, vec!["color_default", "color_debug", "color_as_red", "color_from_red"]);
}
