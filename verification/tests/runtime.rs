use crops::boundary::{
    record_clone, record_construct, record_default, record_get, record_opt_get, record_push,
    record_replace, record_seq_get, record_seq_remove, record_take, record_with, status_code,
    union_as, union_clone, union_default, union_from, BoundaryError, FieldTemplate, FieldValue,
    Instance, Scalar, ScalarKind, STATUS_FAILURE, STATUS_OK,
};
use crops::resolve::Shape;

fn one_scalar_record(v: Scalar) -> Instance {
    Instance { fields: vec![FieldValue::One(v)] }
}

#[test]
fn scalar_round_trip_primitive() {
    let mut handle = Some(one_scalar_record(Scalar::Unsigned(0)));
    let r = record_with(&mut handle, 0, Scalar::Unsigned(52));
    assert_eq!(status_code(&r), STATUS_OK);
    let mut out = Some(Scalar::Unsigned(0));
    let r = record_get(&handle, 0, &mut out);
    assert_eq!(status_code(&r), STATUS_OK);
    assert!(matches!(out, Some(Scalar::Unsigned(52))));
}

#[test]
fn scalar_round_trip_cloned_text() {
    let mut handle = Some(one_scalar_record(Scalar::Text(vec![])));
    let r = record_with(&mut handle, 0, Scalar::Text(b"ok".to_vec()));
    assert!(r.is_ok());
    let mut out = Some(Scalar::Text(vec![0u8; 8]));
    let r = record_get(&handle, 0, &mut out);
    assert!(r.is_ok());
    match out {
        Some(Scalar::Text(buf)) => {
            assert_eq!(&buf[..2], b"ok");
            assert_eq!(buf.len(), 8);
        }
        _ => panic!("text slot expected"),
    }
}

#[test]
fn string_truncates_silently_at_capacity() {
    let mut handle = Some(one_scalar_record(Scalar::Text(vec![])));
    record_with(&mut handle, 0, Scalar::Text(b"hello world".to_vec())).unwrap();
    let mut out = Some(Scalar::Text(vec![0u8; 5]));
    let r = record_get(&handle, 0, &mut out);
    assert_eq!(status_code(&r), STATUS_OK);
    assert!(matches!(out, Some(Scalar::Text(ref buf)) if buf == b"hello"));
}

#[test]
fn sequence_length_tracks_pushes_and_successful_removes() {
    let mut handle = Some(Instance { fields: vec![FieldValue::Many(vec![])] });
    for v in [1u64, 2, 3] {
        record_push(&mut handle, 0, Scalar::Unsigned(v)).unwrap();
    }
    let mut out = Some(Scalar::Unsigned(0));
    record_seq_remove(&mut handle, 0, 1, &mut out).unwrap();
    assert!(matches!(out, Some(Scalar::Unsigned(2))));
    match &handle {
        Some(inst) => match &inst.fields[0] {
            FieldValue::Many(items) => {
                assert_eq!(items.len(), 2);
                assert!(matches!(items[0], Scalar::Unsigned(1)));
                assert!(matches!(items[1], Scalar::Unsigned(3)));
            }
            _ => panic!("sequence expected"),
        },
        None => panic!("handle expected"),
    }
}

#[test]
fn remove_past_length_fails_and_never_mutates() {
    let mut handle = Some(Instance {
        fields: vec![FieldValue::Many(vec![Scalar::Unsigned(9)])],
    });
    let mut out = Some(Scalar::Unsigned(0));
    let r = record_seq_remove(&mut handle, 0, 1, &mut out);
    assert_eq!(r.unwrap_err(), BoundaryError::IndexOutOfRange);
    assert!(matches!(out, Some(Scalar::Unsigned(0))));
    match &handle {
        Some(inst) => match &inst.fields[0] {
            FieldValue::Many(items) => assert_eq!(items.len(), 1),
            _ => panic!("sequence expected"),
        },
        None => panic!("handle expected"),
    }
}

#[test]
fn sequence_get_reports_out_of_range() {
    let handle = Some(Instance {
        fields: vec![FieldValue::Many(vec![Scalar::Unsigned(9)])],
    });
    let mut out = Some(Scalar::Unsigned(0));
    assert!(record_seq_get(&handle, 0, 0, &mut out).is_ok());
    assert!(matches!(out, Some(Scalar::Unsigned(9))));
    let r = record_seq_get(&handle, 0, 7, &mut out);
    assert_eq!(r.unwrap_err(), BoundaryError::IndexOutOfRange);
}

#[test]
fn take_after_replace_yields_value_and_empties() {
    let mut handle = Some(Instance { fields: vec![FieldValue::Maybe(None)] });
    record_replace(&mut handle, 0, Scalar::Signed(-7)).unwrap();
    let mut out = Some(Scalar::Signed(0));
    record_take(&mut handle, 0, &mut out).unwrap();
    assert!(matches!(out, Some(Scalar::Signed(-7))));
    let r = record_take(&mut handle, 0, &mut out);
    assert_eq!(r.unwrap_err(), BoundaryError::EmptyOptional);
}

#[test]
fn get_on_empty_optional_succeeds_without_writing() {
    let handle = Some(Instance { fields: vec![FieldValue::Maybe(None)] });
    let mut out = Some(Scalar::Unsigned(77));
    let r = record_opt_get(&handle, 0, &mut out);
    assert_eq!(status_code(&r), STATUS_OK);
    assert!(matches!(out, Some(Scalar::Unsigned(77))));
    let mut null_out: Option<Scalar> = None;
    assert!(record_opt_get(&handle, 0, &mut null_out).is_ok());
    assert!(null_out.is_none());
}

#[test]
fn get_on_present_optional_requires_out_pointer() {
    let handle = Some(Instance {
        fields: vec![FieldValue::Maybe(Some(Scalar::Flag(true)))],
    });
    let mut null_out: Option<Scalar> = None;
    let r = record_opt_get(&handle, 0, &mut null_out);
    assert_eq!(r.unwrap_err(), BoundaryError::NullHandle);
    let mut out = Some(Scalar::Flag(false));
    assert!(record_opt_get(&handle, 0, &mut out).is_ok());
    assert!(matches!(out, Some(Scalar::Flag(true))));
}

#[test]
fn union_from_then_reading_payload_yields_payload() {
    let b = union_from(1, Some(Scalar::Unsigned(7)));
    assert_eq!(b.tag, 1);
    assert!(matches!(b.payload, Some(Scalar::Unsigned(7))));
}

#[test]
fn retag_discards_payload_and_matches_pure_instance() {
    let b = union_from(1, Some(Scalar::Unsigned(7)));
    let mut handle = Some(*b);
    let r = union_as(&mut handle, 0, None);
    assert_eq!(status_code(&r), STATUS_OK);
    let fresh = union_default(0);
    match &handle {
        Some(u) => {
            assert_eq!(u.tag, fresh.tag);
            assert!(u.payload.is_none());
            assert!(fresh.payload.is_none());
        }
        None => panic!("handle expected"),
    }
}

#[test]
fn every_operation_rejects_a_null_handle() {
    let mut none_record: Option<Instance> = None;
    let mut out = Some(Scalar::Unsigned(0));
    assert_eq!(
        record_with(&mut none_record, 0, Scalar::Unsigned(1)).unwrap_err(),
        BoundaryError::NullHandle
    );
    assert_eq!(
        record_get(&none_record, 0, &mut out).unwrap_err(),
        BoundaryError::NullHandle
    );
    assert_eq!(
        record_push(&mut none_record, 0, Scalar::Unsigned(1)).unwrap_err(),
        BoundaryError::NullHandle
    );
    assert_eq!(
        record_seq_get(&none_record, 0, 0, &mut out).unwrap_err(),
        BoundaryError::NullHandle
    );
    assert_eq!(
        record_seq_remove(&mut none_record, 0, 0, &mut out).unwrap_err(),
        BoundaryError::NullHandle
    );
    assert_eq!(
        record_replace(&mut none_record, 0, Scalar::Unsigned(1)).unwrap_err(),
        BoundaryError::NullHandle
    );
    assert_eq!(
        record_take(&mut none_record, 0, &mut out).unwrap_err(),
        BoundaryError::NullHandle
    );
    assert_eq!(
        record_opt_get(&none_record, 0, &mut out).unwrap_err(),
        BoundaryError::NullHandle
    );
    let mut none_union: Option<crops::boundary::UnionValue> = None;
    assert_eq!(
        union_as(&mut none_union, 0, None).unwrap_err(),
        BoundaryError::NullHandle
    );
    assert!(none_record.is_none());
    assert!(none_union.is_none());
    assert!(matches!(out, Some(Scalar::Unsigned(0))));
    let failed: crops::boundary::CResult = Err(BoundaryError::NullHandle);
    assert_eq!(status_code(&failed), STATUS_FAILURE);
}

#[test]
fn null_out_pointer_is_rejected_before_any_mutation() {
    let mut handle = Some(Instance {
        fields: vec![FieldValue::Many(vec![Scalar::Unsigned(5)])],
    });
    let mut null_out: Option<Scalar> = None;
    let r = record_seq_remove(&mut handle, 0, 0, &mut null_out);
    assert_eq!(r.unwrap_err(), BoundaryError::NullHandle);
    match &handle {
        Some(inst) => match &inst.fields[0] {
            FieldValue::Many(items) => assert_eq!(items.len(), 1),
            _ => panic!("sequence expected"),
        },
        None => panic!("handle expected"),
    }
}

#[test]
fn defaults_follow_the_resolved_shapes() {
    let templates = vec![
        FieldTemplate { shape: Shape::Scalar, kind: ScalarKind::Unsigned },
        FieldTemplate { shape: Shape::Scalar, kind: ScalarKind::Text },
        FieldTemplate { shape: Shape::Sequence, kind: ScalarKind::Unsigned },
        FieldTemplate { shape: Shape::Optional, kind: ScalarKind::Flag },
    ];
    let inst = record_default(&templates);
    assert!(matches!(inst.fields[0], FieldValue::One(Scalar::Unsigned(0))));
    assert!(matches!(inst.fields[1], FieldValue::One(Scalar::Text(ref t)) if t.is_empty()));
    assert!(matches!(inst.fields[2], FieldValue::Many(ref v) if v.is_empty()));
    assert!(matches!(inst.fields[3], FieldValue::Maybe(None)));
}

#[test]
fn clone_is_a_deep_equal_copy() {
    let inst = Instance {
        fields: vec![
            FieldValue::One(Scalar::Text(b"abc".to_vec())),
            FieldValue::Many(vec![Scalar::Unsigned(1), Scalar::Unsigned(2)]),
            FieldValue::Maybe(Some(Scalar::Signed(-3))),
        ],
    };
    let copy = record_clone(&inst);
    assert!(matches!(copy.fields[0], FieldValue::One(Scalar::Text(ref t)) if t == b"abc"));
    assert!(matches!(copy.fields[1], FieldValue::Many(ref v) if v.len() == 2));
    assert!(matches!(copy.fields[2], FieldValue::Maybe(Some(Scalar::Signed(-3)))));

    let u = crops::boundary::UnionValue { tag: 2, payload: Some(Scalar::Flag(true)) };
    let uc = union_clone(&u);
    assert_eq!(uc.tag, 2);
    assert!(matches!(uc.payload, Some(Scalar::Flag(true))));
}

#[test]
fn named_constructor_overwrites_exactly_the_listed_fields() {
    let templates = vec![
        FieldTemplate { shape: Shape::Scalar, kind: ScalarKind::Unsigned },
        FieldTemplate { shape: Shape::Sequence, kind: ScalarKind::Unsigned },
        FieldTemplate { shape: Shape::Optional, kind: ScalarKind::Unsigned },
        FieldTemplate { shape: Shape::Scalar, kind: ScalarKind::Text },
    ];
    let inst = record_construct(
        &templates,
        &vec![0, 1, 2],
        &vec![Scalar::Unsigned(9), Scalar::Unsigned(8), Scalar::Unsigned(7)],
    );
    assert!(matches!(inst.fields[0], FieldValue::One(Scalar::Unsigned(9))));
    assert!(
        matches!(inst.fields[1], FieldValue::Many(ref v) if v.len() == 1 && matches!(v[0], Scalar::Unsigned(8)))
    );
    assert!(matches!(inst.fields[2], FieldValue::Maybe(Some(Scalar::Unsigned(7)))));
    assert!(matches!(inst.fields[3], FieldValue::One(Scalar::Text(ref t)) if t.is_empty()));
}

#[test]
fn constructor_writes_apply_in_listed_order() {
    let templates = vec![FieldTemplate { shape: Shape::Scalar, kind: ScalarKind::Unsigned }];
    let inst = record_construct(
        &templates,
        &vec![0, 0],
        &vec![Scalar::Unsigned(1), Scalar::Unsigned(2)],
    );
    assert!(matches!(inst.fields[0], FieldValue::One(Scalar::Unsigned(2))));
}

#[test]
fn text_write_decodes_and_reports_bad_utf8() {
    let mut handle = Some(one_scalar_record(Scalar::Text(vec![])));
    let r = crops::boundary::record_with_text(&mut handle, 0, &b"hi".to_vec());
    assert_eq!(status_code(&r), STATUS_OK);
    match &handle {
        Some(inst) => {
            assert!(matches!(inst.fields[0], FieldValue::One(Scalar::Text(ref t)) if t == b"hi"))
        }
        None => panic!("handle expected"),
    }
    let r = crops::boundary::record_with_text(&mut handle, 0, &vec![0xff, 0xfe]);
    assert_eq!(r.unwrap_err(), BoundaryError::TextDecode);
    match &handle {
        Some(inst) => {
            assert!(matches!(inst.fields[0], FieldValue::One(Scalar::Text(ref t)) if t == b"hi"))
        }
        None => panic!("handle expected"),
    }
    let mut null_handle: Option<Instance> = None;
    let r = crops::boundary::record_with_text(&mut null_handle, 0, &b"hi".to_vec());
    assert_eq!(r.unwrap_err(), BoundaryError::NullHandle);
}
