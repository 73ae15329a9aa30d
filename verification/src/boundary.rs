use vstd::prelude::*;
use crate::resolve::Shape;
use crate::names::copy_bytes;

verus! {

/// The recoverable failures of the generated interface. Every one is
/// captured at its detection point and converted to the status convention
/// at the outermost wrapper; nothing is thrown across the boundary.
#[derive(PartialEq, Eq, Structural, Debug)]
pub enum BoundaryError {
    /// A required pointer was null: reported, never dereferenced.
    NullHandle,
    /// A sequence index at or past the current length.
    IndexOutOfRange,
    /// `take` on an optional field that holds nothing.
    EmptyOptional,
    /// Inbound text that is not valid UTF-8.
    TextDecode,
}

/// The inner result of every fallible generated operation.
pub type CResult = Result<(), BoundaryError>;

/// Status reported across the foreign boundary for a successful operation.
pub const STATUS_OK: i32 = 0;

/// Status reported across the foreign boundary for a failed operation.
pub const STATUS_FAILURE: i32 = 1;

/// Convert an operation outcome into the uniform status convention:
/// zero on success, nonzero on failure.
pub fn status_code(outcome: &CResult) -> (status: i32)
    ensures
        status == STATUS_OK <==> outcome is Ok,
        status == STATUS_OK || status == STATUS_FAILURE,
{
    match outcome {
        Ok(_) => STATUS_OK,
        Err(_) => STATUS_FAILURE,
    }
}

/// The diagnostic text of each failure.
pub open spec fn message_of(e: BoundaryError) -> Seq<u8> {
    match e {
        BoundaryError::NullHandle => seq![
            'n' as u8, 'u' as u8, 'l' as u8, 'l' as u8, ' ' as u8, 'h' as u8, 'a' as u8,
            'n' as u8, 'd' as u8, 'l' as u8, 'e' as u8,
        ],
        BoundaryError::IndexOutOfRange => seq![
            'i' as u8, 'n' as u8, 'd' as u8, 'e' as u8, 'x' as u8, ' ' as u8, 'o' as u8,
            'u' as u8, 't' as u8, ' ' as u8, 'o' as u8, 'f' as u8, ' ' as u8, 'r' as u8,
            'a' as u8, 'n' as u8, 'g' as u8, 'e' as u8,
        ],
        BoundaryError::EmptyOptional => seq![
            'o' as u8, 'p' as u8, 't' as u8, 'i' as u8, 'o' as u8, 'n' as u8, ' ' as u8,
            'e' as u8, 'm' as u8, 'p' as u8, 't' as u8, 'y' as u8,
        ],
        BoundaryError::TextDecode => seq![
            'i' as u8, 'n' as u8, 'v' as u8, 'a' as u8, 'l' as u8, 'i' as u8, 'd' as u8,
            ' ' as u8, 'u' as u8, 't' as u8, 'f' as u8, '-' as u8, '8' as u8,
        ],
    }
}

/// One failure as diagnostic text, annotated with the owning entity's name:
/// the message, a space, and the entity name in parentheses.
pub open spec fn error_text_model(e: BoundaryError, entity: Seq<u8>) -> Seq<u8> {
    message_of(e) + seq![' ' as u8, '(' as u8] + entity + seq![')' as u8]
}

/// Render one failure as diagnostic text with its entity context.
pub fn error_text(e: &BoundaryError, entity: &Vec<u8>) -> (r: Vec<u8>)
    ensures
        r@ == error_text_model(*e, entity@),
{
    let mut r: Vec<u8> = match e {
        BoundaryError::NullHandle => vec![
            'n' as u8, 'u' as u8, 'l' as u8, 'l' as u8, ' ' as u8, 'h' as u8, 'a' as u8,
            'n' as u8, 'd' as u8, 'l' as u8, 'e' as u8,
        ],
        BoundaryError::IndexOutOfRange => vec![
            'i' as u8, 'n' as u8, 'd' as u8, 'e' as u8, 'x' as u8, ' ' as u8, 'o' as u8,
            'u' as u8, 't' as u8, ' ' as u8, 'o' as u8, 'f' as u8, ' ' as u8, 'r' as u8,
            'a' as u8, 'n' as u8, 'g' as u8, 'e' as u8,
        ],
        BoundaryError::EmptyOptional => vec![
            'o' as u8, 'p' as u8, 't' as u8, 'i' as u8, 'o' as u8, 'n' as u8, ' ' as u8,
            'e' as u8, 'm' as u8, 'p' as u8, 't' as u8, 'y' as u8,
        ],
        BoundaryError::TextDecode => vec![
            'i' as u8, 'n' as u8, 'v' as u8, 'a' as u8, 'l' as u8, 'i' as u8, 'd' as u8,
            ' ' as u8, 'u' as u8, 't' as u8, 'f' as u8, '-' as u8, '8' as u8,
        ],
    };
    proof {
        assert(r@ =~= message_of(*e));
    }
    r.push(' ' as u8);
    r.push('(' as u8);
    crate::names::extend_bytes(&mut r, entity);
    r.push(')' as u8);
    proof {
        assert(r@ =~= error_text_model(*e, entity@));
    }
    r
}

/// A native scalar value held by a field: a fixed-width number, a flag, or
/// owned text (held as its encoded bytes).
#[derive(Debug)]
pub enum Scalar {
    Unsigned(u64),
    Signed(i64),
    Flag(bool),
    Text(Vec<u8>),
}

/// Mathematical model of a scalar value.
#[verifier::ext_equal]
pub enum ScalarModel {
    Unsigned(u64),
    Signed(i64),
    Flag(bool),
    Text(Seq<u8>),
}

impl View for Scalar {
    type V = ScalarModel;

    open spec fn view(&self) -> ScalarModel {
        match self {
            Scalar::Unsigned(u) => ScalarModel::Unsigned(*u),
            Scalar::Signed(i) => ScalarModel::Signed(*i),
            Scalar::Flag(b) => ScalarModel::Flag(*b),
            Scalar::Text(t) => ScalarModel::Text(t@),
        }
    }
}

/// The models of a list of scalars.
pub open spec fn scalars_model(s: Seq<Scalar>) -> Seq<ScalarModel> {
    s.map_values(|x: Scalar| x@)
}

/// The model of an optional scalar.
pub open spec fn payload_model(p: Option<Scalar>) -> Option<ScalarModel> {
    match p {
        Some(s) => Some(s@),
        None => None,
    }
}

/// The runtime state of one field, by its resolved shape.
#[derive(Debug)]
pub enum FieldValue {
    /// A scalar field holds one value.
    One(Scalar),
    /// A sequence field holds a growable list.
    Many(Vec<Scalar>),
    /// An optional field holds a value or nothing.
    Maybe(Option<Scalar>),
}

/// Mathematical model of a field's state.
#[verifier::ext_equal]
pub enum FieldValueModel {
    One(ScalarModel),
    Many(Seq<ScalarModel>),
    Maybe(Option<ScalarModel>),
}

impl View for FieldValue {
    type V = FieldValueModel;

    open spec fn view(&self) -> FieldValueModel {
        match self {
            FieldValue::One(s) => FieldValueModel::One(s@),
            FieldValue::Many(v) => FieldValueModel::Many(scalars_model(v@)),
            FieldValue::Maybe(o) => FieldValueModel::Maybe(payload_model(*o)),
        }
    }
}

/// The models of a record's field states.
pub open spec fn field_values_model(fs: Seq<FieldValue>) -> Seq<FieldValueModel> {
    fs.map_values(|f: FieldValue| f@)
}

/// A live record instance: one state per field, in declaration order.
#[derive(Debug)]
pub struct Instance {
    pub fields: Vec<FieldValue>,
}

/// Mathematical model of a record instance.
#[verifier::ext_equal]
pub struct InstanceModel {
    pub fields: Seq<FieldValueModel>,
}

impl View for Instance {
    type V = InstanceModel;

    open spec fn view(&self) -> InstanceModel {
        InstanceModel { fields: field_values_model(self.fields@) }
    }
}

/// A live tagged-union instance: always in exactly one declared variant,
/// with that variant's payload when it has one.
#[derive(Debug)]
pub struct UnionValue {
    pub tag: usize,
    pub payload: Option<Scalar>,
}

/// Mathematical model of a tagged-union instance.
#[verifier::ext_equal]
pub struct UnionValueModel {
    pub tag: int,
    pub payload: Option<ScalarModel>,
}

impl View for UnionValue {
    type V = UnionValueModel;

    open spec fn view(&self) -> UnionValueModel {
        UnionValueModel { tag: self.tag as int, payload: payload_model(self.payload) }
    }
}

/// The kind of scalar a resolved field carries at runtime.
#[derive(PartialEq, Eq, Structural, Debug)]
pub enum ScalarKind {
    Unsigned,
    Signed,
    Flag,
    Text,
}

/// What the runtime needs of one resolved field: its shape and the kind of
/// scalar it carries.
#[derive(PartialEq, Eq, Structural, Debug)]
pub struct FieldTemplate {
    pub shape: Shape,
    pub kind: ScalarKind,
}

/// The default value of a scalar kind: zero, false, or empty text.
pub open spec fn default_scalar_model(k: ScalarKind) -> ScalarModel {
    match k {
        ScalarKind::Unsigned => ScalarModel::Unsigned(0),
        ScalarKind::Signed => ScalarModel::Signed(0),
        ScalarKind::Flag => ScalarModel::Flag(false),
        ScalarKind::Text => ScalarModel::Text(Seq::empty()),
    }
}

/// The default state of a field: the default scalar, an empty sequence, or
/// an absent optional.
pub open spec fn default_field_model(t: FieldTemplate) -> FieldValueModel {
    match t.shape {
        Shape::Scalar => FieldValueModel::One(default_scalar_model(t.kind)),
        Shape::Sequence => FieldValueModel::Many(Seq::empty()),
        Shape::Optional => FieldValueModel::Maybe(None),
    }
}

/// The default states of a record's fields.
pub open spec fn default_fields_model(ts: Seq<FieldTemplate>) -> Seq<FieldValueModel> {
    ts.map_values(|t: FieldTemplate| default_field_model(t))
}

/// The default value of one field.
pub fn default_field(t: &FieldTemplate) -> (r: FieldValue)
    ensures
        r@ == default_field_model(*t),
{
    let r = match t.shape {
        Shape::Scalar => FieldValue::One(
            match t.kind {
                ScalarKind::Unsigned => Scalar::Unsigned(0),
                ScalarKind::Signed => Scalar::Signed(0),
                ScalarKind::Flag => Scalar::Flag(false),
                ScalarKind::Text => Scalar::Text(Vec::new()),
            },
        ),
        Shape::Sequence => FieldValue::Many(Vec::new()),
        Shape::Optional => FieldValue::Maybe(None),
    };
    proof {
        assert(r@ =~~= default_field_model(*t));
    }
    r
}

/// Allocate and return an owning handle to a record's default value.
pub fn record_default(templates: &Vec<FieldTemplate>) -> (r: Box<Instance>)
    ensures
        r@.fields == default_fields_model(templates@),
{
    let mut fields: Vec<FieldValue> = Vec::new();
    let mut i: usize = 0;
    while i < templates.len()
        invariant
            i <= templates.len(),
            field_values_model(fields@) == default_fields_model(templates@.subrange(0, i as int)),
        decreases templates.len() - i,
    {
        let d = default_field(&templates[i]);
        let ghost dm = d@;
        let ghost pre = fields@;
        fields.push(d);
        proof {
            assert(field_values_model(fields@) =~~= field_values_model(pre).push(dm));
            assert(dm == default_field_model(templates@[i as int]));
            assert(default_fields_model(templates@.subrange(0, i + 1 as int))
                =~~= field_values_model(pre).push(dm));
        }
        i += 1;
    }
    proof {
        assert(templates@.subrange(0, templates@.len() as int) =~= templates@);
    }
    Box::new(Instance { fields })
}

/// Allocate and return an owning handle to a fresh value of one variant of
/// a tagged union, consuming the inbound-converted payload when present.
pub fn union_from(tag: usize, payload: Option<Scalar>) -> (r: Box<UnionValue>)
    ensures
        r@.tag == tag as int,
        r@.payload == payload_model(payload),
{
    Box::new(UnionValue { tag, payload })
}

/// Allocate and return an owning handle to a tagged union's default value:
/// its marked default variant, which carries no payload.
pub fn union_default(default_tag: usize) -> (r: Box<UnionValue>)
    ensures
        r@.tag == default_tag as int,
        r@.payload is None,
{
    Box::new(UnionValue { tag: default_tag, payload: None })
}

/// A deep copy of one scalar: equal to the source as a value.
pub fn clone_scalar(s: &Scalar) -> (r: Scalar)
    ensures
        r@ == s@,
{
    match s {
        Scalar::Unsigned(u) => Scalar::Unsigned(*u),
        Scalar::Signed(i) => Scalar::Signed(*i),
        Scalar::Flag(b) => Scalar::Flag(*b),
        Scalar::Text(t) => Scalar::Text(copy_bytes(t)),
    }
}

/// A deep copy of one field state.
pub fn clone_field(f: &FieldValue) -> (r: FieldValue)
    ensures
        r@ == f@,
{
    match f {
        FieldValue::One(s) => FieldValue::One(clone_scalar(s)),
        FieldValue::Many(v) => {
            let mut out: Vec<Scalar> = Vec::new();
            let mut i: usize = 0;
            while i < v.len()
                invariant
                    i <= v.len(),
                    scalars_model(out@) == scalars_model(v@).subrange(0, i as int),
                decreases v.len() - i,
            {
                let c = clone_scalar(&v[i]);
                let ghost cm = c@;
                let ghost pre = out@;
                out.push(c);
                proof {
                    assert(scalars_model(out@) =~~= scalars_model(pre).push(cm));
                    assert(cm == v@[i as int]@);
                    assert(scalars_model(v@).subrange(0, i + 1 as int) =~~= scalars_model(
                        pre,
                    ).push(cm));
                }
                i += 1;
            }
            proof {
                assert(scalars_model(v@).subrange(0, scalars_model(v@).len() as int)
                    =~= scalars_model(v@));
            }
            FieldValue::Many(out)
        },
        FieldValue::Maybe(o) => FieldValue::Maybe(
            match o {
                Some(s) => Some(clone_scalar(s)),
                None => None,
            },
        ),
    }
}

/// Allocate and return an owning handle to a deep copy of a borrowed record
/// instance: the copy equals the source as a value.
pub fn record_clone(source: &Instance) -> (r: Box<Instance>)
    ensures
        r@ == source@,
{
    let mut fields: Vec<FieldValue> = Vec::new();
    let mut i: usize = 0;
    while i < source.fields.len()
        invariant
            i <= source.fields.len(),
            field_values_model(fields@) == field_values_model(source.fields@).subrange(0, i as int),
        decreases source.fields.len() - i,
    {
        let c = clone_field(&source.fields[i]);
        let ghost cm = c@;
        let ghost pre = fields@;
        fields.push(c);
        proof {
            assert(field_values_model(fields@) =~~= field_values_model(pre).push(cm));
            assert(cm == source.fields@[i as int]@);
            assert(field_values_model(source.fields@).subrange(0, i + 1 as int)
                =~~= field_values_model(pre).push(cm));
        }
        i += 1;
    }
    proof {
        assert(field_values_model(source.fields@).subrange(
            0,
            field_values_model(source.fields@).len() as int,
        ) =~= field_values_model(source.fields@));
    }
    let r = Box::new(Instance { fields });
    proof {
        assert(r@ =~~= source@);
    }
    r
}

/// Allocate and return an owning handle to a deep copy of a borrowed
/// tagged-union instance.
pub fn union_clone(source: &UnionValue) -> (r: Box<UnionValue>)
    ensures
        r@ == source@,
{
    let payload = match &source.payload {
        Some(s) => Some(clone_scalar(s)),
        None => None,
    };
    let r = Box::new(UnionValue { tag: source.tag, payload });
    proof {
        assert(r@ =~~= source@);
    }
    r
}

/// The caller's buffer after encoded text is copied in: the text's bytes up
/// to the buffer's capacity, truncating silently; bytes past the text keep
/// their old content, and the capacity never changes.
pub open spec fn text_written(buf: Seq<u8>, text: Seq<u8>) -> Seq<u8> {
    Seq::new(buf.len(), |i: int| if i < text.len() { text[i] } else { buf[i] })
}

/// Copy encoded text into a caller-supplied buffer of fixed capacity,
/// truncating silently at that capacity. Truncation is success, not failure.
pub fn copy_text(buffer: &mut Vec<u8>, text: &Vec<u8>)
    ensures
        final(buffer)@ == text_written(old(buffer)@, text@),
{
    let cap = buffer.len();
    let n = if text.len() < cap {
        text.len()
    } else {
        cap
    };
    let mut i: usize = 0;
    while i < n
        invariant
            n <= text.len(),
            n <= buffer.len(),
            i <= n,
            buffer@.len() == old(buffer)@.len(),
            forall|k: int| 0 <= k < i ==> buffer@[k] == text@[k],
            forall|k: int| i <= k < buffer@.len() ==> buffer@[k] == old(buffer)@[k],
        decreases n - i,
    {
        buffer[i] = text[i];
        i += 1;
    }
    proof {
        assert(buffer@ =~= text_written(old(buffer)@, text@));
    }
}

/// What an outbound read stores into the destination slot: text is copied
/// into the caller's buffer at its capacity; every other value is stored
/// through the pointer whole.
pub open spec fn stored_out(current: ScalarModel, dest: ScalarModel) -> ScalarModel {
    match current {
        ScalarModel::Text(s) => match dest {
            ScalarModel::Text(buf) => ScalarModel::Text(text_written(buf, s)),
            _ => current,
        },
        _ => current,
    }
}

/// A destination slot can receive a value: text lands in a text buffer;
/// every other value replaces the slot whole.
pub open spec fn out_slot_fits(current: ScalarModel, dest: ScalarModel) -> bool {
    current is Text ==> dest is Text
}

/// Store a field's current value through the out pointer, under the
/// outbound rule of the field's resolved descriptor.
pub fn store_out(current: &Scalar, dest: &mut Scalar)
    requires
        out_slot_fits(current@, old(dest)@),
    ensures
        final(dest)@ == stored_out(current@, old(dest)@),
{
    match current {
        Scalar::Text(s) => {
            match dest {
                Scalar::Text(buf) => {
                    copy_text(buf, s);
                },
                _ => {
                    proof {
                        assert(false);
                    }
                },
            }
        },
        _ => {
            *dest = clone_scalar(current);
        },
    }
}


/// The pointee of a non-null pointer slot.
pub open spec fn pointee<T>(h: Option<T>) -> T
    recommends
        h is Some,
{
    h->Some_0
}

/// The instance with one field's state replaced.
pub open spec fn field_updated(inst: InstanceModel, field: int, fv: FieldValueModel) -> InstanceModel {
    InstanceModel { fields: inst.fields.update(field, fv) }
}

/// The field at the position exists and is scalar-shaped.
pub open spec fn is_one(inst: InstanceModel, field: int) -> bool {
    0 <= field < inst.fields.len() && inst.fields[field] is One
}

/// The field at the position exists and is sequence-shaped.
pub open spec fn is_many(inst: InstanceModel, field: int) -> bool {
    0 <= field < inst.fields.len() && inst.fields[field] is Many
}

/// The field at the position exists and is optional-shaped.
pub open spec fn is_maybe(inst: InstanceModel, field: int) -> bool {
    0 <= field < inst.fields.len() && inst.fields[field] is Maybe
}

/// The value of a scalar field.
pub open spec fn one_value(inst: InstanceModel, field: int) -> ScalarModel {
    match inst.fields[field] {
        FieldValueModel::One(s) => s,
        _ => ScalarModel::Unsigned(0),
    }
}

/// The items of a sequence field.
pub open spec fn many_items(inst: InstanceModel, field: int) -> Seq<ScalarModel> {
    match inst.fields[field] {
        FieldValueModel::Many(s) => s,
        _ => Seq::empty(),
    }
}

/// The stored value of an optional field.
pub open spec fn maybe_value(inst: InstanceModel, field: int) -> Option<ScalarModel> {
    match inst.fields[field] {
        FieldValueModel::Maybe(o) => o,
        _ => None,
    }
}

/// Generated scalar write: validate the handle, then assign the
/// inbound-converted value to the field. A null handle is reported and
/// nothing is touched.
pub fn record_with(handle: &mut Option<Instance>, field: usize, value: Scalar) -> (r: CResult)
    requires
        (*old(handle)) is Some ==> is_one(pointee(*old(handle))@, field as int),
    ensures
        r is Ok <==> (*old(handle)) is Some,
        r is Err ==> r == Err::<(), BoundaryError>(BoundaryError::NullHandle) && (*final(handle)) is None,
        (*old(handle)) is Some ==> ((*final(handle)) is Some && pointee(*final(handle))@ == field_updated(
            pointee(*old(handle))@,
            field as int,
            FieldValueModel::One(value@),
        )),
{
    match handle {
        None => Err(BoundaryError::NullHandle),
        Some(inst) => {
            let ghost pre = inst@;
            proof {
                assert(field < inst.fields@.len());
            }
            inst.fields[field] = FieldValue::One(value);
            proof {
                assert(inst@ =~~= field_updated(pre, field as int, FieldValueModel::One(value@)));
            }
            Ok(())
        },
    }
}

/// Generated scalar read: validate both pointers, then store the field's
/// value through the out pointer under the outbound rule: text is copied
/// into the caller's buffer, truncating silently at its capacity; every
/// other value is stored whole.
pub fn record_get(handle: &Option<Instance>, field: usize, out: &mut Option<Scalar>) -> (r: CResult)
    requires
        handle is Some ==> is_one(pointee(*handle)@, field as int),
        (handle is Some && (*old(out)) is Some) ==> out_slot_fits(
            one_value(pointee(*handle)@, field as int),
            pointee(*old(out))@,
        ),
    ensures
        r is Ok <==> (handle is Some && (*old(out)) is Some),
        r is Err ==> r == Err::<(), BoundaryError>(BoundaryError::NullHandle),
        handle is None ==> *final(out) == *old(out),
        (*old(out)) is None ==> (*final(out)) is None,
        (handle is Some && (*old(out)) is Some) ==> ((*final(out)) is Some && pointee(*final(out))@
            == stored_out(one_value(pointee(*handle)@, field as int), pointee(*old(out))@)),
{
    let inst = match handle {
        None => {
            return Err(BoundaryError::NullHandle);
        },
        Some(i) => i,
    };
    let dest = match out {
        None => {
            return Err(BoundaryError::NullHandle);
        },
        Some(d) => d,
    };
    proof {
        assert(field < inst.fields@.len());
    }
    match &inst.fields[field] {
        FieldValue::One(s) => {
            store_out(s, dest);
            Ok(())
        },
        _ => {
            proof {
                assert(false);
            }
            Err(BoundaryError::NullHandle)
        },
    }
}

/// Generated sequence append: validate the handle, then push the
/// inbound-converted value onto the end of the sequence field.
pub fn record_push(handle: &mut Option<Instance>, field: usize, value: Scalar) -> (r: CResult)
    requires
        (*old(handle)) is Some ==> is_many(pointee(*old(handle))@, field as int),
    ensures
        r is Ok <==> (*old(handle)) is Some,
        r is Err ==> r == Err::<(), BoundaryError>(BoundaryError::NullHandle) && (*final(handle)) is None,
        (*old(handle)) is Some ==> ((*final(handle)) is Some && pointee(*final(handle))@ == field_updated(
            pointee(*old(handle))@,
            field as int,
            FieldValueModel::Many(many_items(pointee(*old(handle))@, field as int).push(value@)),
        )),
{
    match handle {
        None => Err(BoundaryError::NullHandle),
        Some(inst) => {
            let ghost pre = inst@;
            proof {
                assert(field < inst.fields@.len());
            }
            match &mut inst.fields[field] {
                FieldValue::Many(items) => {
                    items.push(value);
                },
                _ => {
                    proof {
                        assert(false);
                    }
                },
            }
            proof {
                assert(inst@ =~~= field_updated(
                    pre,
                    field as int,
                    FieldValueModel::Many(many_items(pre, field as int).push(value@)),
                ));
            }
            Ok(())
        },
    }
}

/// Generated sequence read at an index: validate both pointers, fail on an
/// index at or past the current length, else store the element out.
pub fn record_seq_get(
    handle: &Option<Instance>,
    field: usize,
    idx: usize,
    out: &mut Option<Scalar>,
) -> (r: CResult)
    requires
        handle is Some ==> is_many(pointee(*handle)@, field as int),
        (handle is Some && (*old(out)) is Some && (idx as int) < many_items(
            pointee(*handle)@,
            field as int,
        ).len()) ==> out_slot_fits(
            many_items(pointee(*handle)@, field as int)[idx as int],
            pointee(*old(out))@,
        ),
    ensures
        r is Ok <==> (handle is Some && (*old(out)) is Some && (idx as int) < many_items(
            pointee(*handle)@,
            field as int,
        ).len()),
        handle is None ==> (r == Err::<(), BoundaryError>(BoundaryError::NullHandle) && *final(out)
            == *old(out)),
        (handle is Some && (*old(out)) is None) ==> r == Err::<(), BoundaryError>(
            BoundaryError::NullHandle,
        ),
        (*old(out)) is None ==> (*final(out)) is None,
        (handle is Some && (*old(out)) is Some && (idx as int) < many_items(
            pointee(*handle)@,
            field as int,
        ).len()) ==> ((*final(out)) is Some && pointee(*final(out))@ == stored_out(
            many_items(pointee(*handle)@, field as int)[idx as int],
            pointee(*old(out))@,
        )),
        (handle is Some && (*old(out)) is Some && (idx as int) >= many_items(
            pointee(*handle)@,
            field as int,
        ).len()) ==> (r == Err::<(), BoundaryError>(BoundaryError::IndexOutOfRange) && (*final(out)) is Some && pointee(*final(out))@ == pointee(*old(out))@),
{
    let inst = match handle {
        None => {
            return Err(BoundaryError::NullHandle);
        },
        Some(i) => i,
    };
    let dest = match out {
        None => {
            return Err(BoundaryError::NullHandle);
        },
        Some(d) => d,
    };
    proof {
        assert(field < inst.fields@.len());
    }
    match &inst.fields[field] {
        FieldValue::Many(items) => {
            if idx < items.len() {
                store_out(&items[idx], dest);
                Ok(())
            } else {
                Err(BoundaryError::IndexOutOfRange)
            }
        },
        _ => {
            proof {
                assert(false);
            }
            Err(BoundaryError::NullHandle)
        },
    }
}

/// Generated sequence removal at an index: validate both pointers, fail on
/// an index at or past the current length without mutating anything, else
/// remove the element and write the removed value out.
pub fn record_seq_remove(
    handle: &mut Option<Instance>,
    field: usize,
    idx: usize,
    out: &mut Option<Scalar>,
) -> (r: CResult)
    requires
        (*old(handle)) is Some ==> is_many(pointee(*old(handle))@, field as int),
        ((*old(handle)) is Some && (*old(out)) is Some && (idx as int) < many_items(
            pointee(*old(handle))@,
            field as int,
        ).len()) ==> out_slot_fits(
            many_items(pointee(*old(handle))@, field as int)[idx as int],
            pointee(*old(out))@,
        ),
    ensures
        r is Ok <==> ((*old(handle)) is Some && (*old(out)) is Some && (idx as int) < many_items(
            pointee(*old(handle))@,
            field as int,
        ).len()),
        (*old(handle)) is None ==> (r == Err::<(), BoundaryError>(BoundaryError::NullHandle) && (*final(handle)) is None && *final(out) == *old(out)),
        ((*old(handle)) is Some && (*old(out)) is None) ==> (r == Err::<(), BoundaryError>(
            BoundaryError::NullHandle,
        ) && (*final(out)) is None),
        (*old(handle)) is Some ==> ((*final(handle)) is Some && (if (r is Ok) {
            pointee(*final(handle))@ == field_updated(
                pointee(*old(handle))@,
                field as int,
                FieldValueModel::Many(
                    many_items(pointee(*old(handle))@, field as int).remove(idx as int),
                ),
            )
        } else {
            pointee(*final(handle))@ == pointee(*old(handle))@
        })),
        ((*old(handle)) is Some && (*old(out)) is Some && (idx as int) < many_items(
            pointee(*old(handle))@,
            field as int,
        ).len()) ==> ((*final(out)) is Some && pointee(*final(out))@ == stored_out(
            many_items(pointee(*old(handle))@, field as int)[idx as int],
            pointee(*old(out))@,
        )),
        ((*old(handle)) is Some && (*old(out)) is Some && (idx as int) >= many_items(
            pointee(*old(handle))@,
            field as int,
        ).len()) ==> (r == Err::<(), BoundaryError>(BoundaryError::IndexOutOfRange) && (*final(out)) is Some && pointee(*final(out))@ == pointee(*old(out))@),
{
    let inst = match handle {
        None => {
            return Err(BoundaryError::NullHandle);
        },
        Some(i) => i,
    };
    let dest = match out {
        None => {
            return Err(BoundaryError::NullHandle);
        },
        Some(d) => d,
    };
    let ghost pre = inst@;
    proof {
        assert(field < inst.fields@.len());
    }
    let len = match &inst.fields[field] {
        FieldValue::Many(items) => items.len(),
        _ => {
            proof {
                assert(false);
            }
            0
        },
    };
    if idx >= len {
        return Err(BoundaryError::IndexOutOfRange);
    }
    match &mut inst.fields[field] {
        FieldValue::Many(items) => {
            let removed = items.remove(idx);
            store_out(&removed, dest);
            proof {
                assert(removed@ == many_items(pre, field as int)[idx as int]);
            }
        },
        _ => {
            proof {
                assert(false);
            }
        },
    }
    proof {
        assert(inst@ =~~= field_updated(
            pre,
            field as int,
            FieldValueModel::Many(many_items(pre, field as int).remove(idx as int)),
        ));
    }
    Ok(())
}

/// Generated optional overwrite: validate the handle, then replace whatever
/// the optional field holds, unconditionally.
pub fn record_replace(handle: &mut Option<Instance>, field: usize, value: Scalar) -> (r: CResult)
    requires
        (*old(handle)) is Some ==> is_maybe(pointee(*old(handle))@, field as int),
    ensures
        r is Ok <==> (*old(handle)) is Some,
        r is Err ==> r == Err::<(), BoundaryError>(BoundaryError::NullHandle) && (*final(handle)) is None,
        (*old(handle)) is Some ==> ((*final(handle)) is Some && pointee(*final(handle))@ == field_updated(
            pointee(*old(handle))@,
            field as int,
            FieldValueModel::Maybe(Some(value@)),
        )),
{
    match handle {
        None => Err(BoundaryError::NullHandle),
        Some(inst) => {
            let ghost pre = inst@;
            proof {
                assert(field < inst.fields@.len());
            }
            inst.fields[field] = FieldValue::Maybe(Some(value));
            proof {
                assert(inst@ =~~= field_updated(
                    pre,
                    field as int,
                    FieldValueModel::Maybe(Some(value@)),
                ));
            }
            Ok(())
        },
    }
}

/// Generated optional removal: validate both pointers, fail when the field
/// holds nothing, else write the stored value out and leave the field
/// empty.
pub fn record_take(handle: &mut Option<Instance>, field: usize, out: &mut Option<Scalar>) -> (r:
    CResult)
    requires
        (*old(handle)) is Some ==> is_maybe(pointee(*old(handle))@, field as int),
        ((*old(handle)) is Some && (*old(out)) is Some && maybe_value(
            pointee(*old(handle))@,
            field as int,
        ) is Some) ==> out_slot_fits(
            pointee(maybe_value(pointee(*old(handle))@, field as int)),
            pointee(*old(out))@,
        ),
    ensures
        r is Ok <==> ((*old(handle)) is Some && (*old(out)) is Some && maybe_value(
            pointee(*old(handle))@,
            field as int,
        ) is Some),
        (*old(handle)) is None ==> (r == Err::<(), BoundaryError>(BoundaryError::NullHandle) && (*final(handle)) is None && *final(out) == *old(out)),
        ((*old(handle)) is Some && (*old(out)) is None) ==> (r == Err::<(), BoundaryError>(
            BoundaryError::NullHandle,
        ) && (*final(out)) is None),
        (*old(handle)) is Some ==> ((*final(handle)) is Some && (if (r is Ok) {
            pointee(*final(handle))@ == field_updated(
                pointee(*old(handle))@,
                field as int,
                FieldValueModel::Maybe(None),
            )
        } else {
            pointee(*final(handle))@ == pointee(*old(handle))@
        })),
        ((*old(handle)) is Some && (*old(out)) is Some && maybe_value(
            pointee(*old(handle))@,
            field as int,
        ) is Some) ==> ((*final(out)) is Some && pointee(*final(out))@ == stored_out(
            pointee(maybe_value(pointee(*old(handle))@, field as int)),
            pointee(*old(out))@,
        )),
        ((*old(handle)) is Some && (*old(out)) is Some && maybe_value(
            pointee(*old(handle))@,
            field as int,
        ) is None) ==> (r == Err::<(), BoundaryError>(BoundaryError::EmptyOptional) && (*final(out)) is Some && pointee(*final(out))@ == pointee(*old(out))@),
{
    let inst = match handle {
        None => {
            return Err(BoundaryError::NullHandle);
        },
        Some(i) => i,
    };
    let dest = match out {
        None => {
            return Err(BoundaryError::NullHandle);
        },
        Some(d) => d,
    };
    let ghost pre = inst@;
    proof {
        assert(field < inst.fields@.len());
    }
    let taken = match &inst.fields[field] {
        FieldValue::Maybe(Some(s)) => clone_scalar(s),
        FieldValue::Maybe(None) => {
            return Err(BoundaryError::EmptyOptional);
        },
        _ => {
            proof {
                assert(false);
            }
            return Err(BoundaryError::NullHandle);
        },
    };
    inst.fields[field] = FieldValue::Maybe(None);
    store_out(&taken, dest);
    proof {
        assert(inst@ =~~= field_updated(pre, field as int, FieldValueModel::Maybe(None)));
    }
    Ok(())
}

/// Generated optional read: validate the handle; absence is success with no
/// write, even through a null out pointer; a present value requires the out
/// pointer and is stored under the outbound rule.
pub fn record_opt_get(handle: &Option<Instance>, field: usize, out: &mut Option<Scalar>) -> (r:
    CResult)
    requires
        handle is Some ==> is_maybe(pointee(*handle)@, field as int),
        (handle is Some && (*old(out)) is Some && maybe_value(pointee(*handle)@, field as int)
            is Some) ==> out_slot_fits(
            pointee(maybe_value(pointee(*handle)@, field as int)),
            pointee(*old(out))@,
        ),
    ensures
        r is Ok <==> (handle is Some && (maybe_value(pointee(*handle)@, field as int) is None || (*old(out)) is Some)),
        handle is None ==> (r == Err::<(), BoundaryError>(BoundaryError::NullHandle) && *final(out)
            == *old(out)),
        (handle is Some && maybe_value(pointee(*handle)@, field as int) is None) ==> (r is Ok
            && *final(out) == *old(out)),
        (handle is Some && maybe_value(pointee(*handle)@, field as int) is Some && (*old(out)) is None) ==> (r == Err::<(), BoundaryError>(BoundaryError::NullHandle) && (*final(out)) is None),
        (handle is Some && maybe_value(pointee(*handle)@, field as int) is Some && (*old(out)) is Some) ==> ((*final(out)) is Some && pointee(*final(out))@ == stored_out(
            pointee(maybe_value(pointee(*handle)@, field as int)),
            pointee(*old(out))@,
        )),
{
    let inst = match handle {
        None => {
            return Err(BoundaryError::NullHandle);
        },
        Some(i) => i,
    };
    proof {
        assert(field < inst.fields@.len());
    }
    match &inst.fields[field] {
        FieldValue::Maybe(None) => Ok(()),
        FieldValue::Maybe(Some(s)) => {
            let dest = match out {
                None => {
                    return Err(BoundaryError::NullHandle);
                },
                Some(d) => d,
            };
            store_out(s, dest);
            Ok(())
        },
        _ => {
            proof {
                assert(false);
            }
            Err(BoundaryError::NullHandle)
        },
    }
}

/// Generated variant retag: validate the handle, then overwrite the pointee
/// in place with a fresh value of the variant, consuming the
/// inbound-converted payload when present and discarding the previous
/// variant's payload. The transition is total once the handle is validated.
pub fn union_as(handle: &mut Option<UnionValue>, tag: usize, payload: Option<Scalar>) -> (r:
    CResult)
    ensures
        r is Ok <==> (*old(handle)) is Some,
        r is Err ==> r == Err::<(), BoundaryError>(BoundaryError::NullHandle) && (*final(handle)) is None,
        (*old(handle)) is Some ==> ((*final(handle)) is Some && pointee(*final(handle))@.tag == tag as int
            && pointee(*final(handle))@.payload == payload_model(payload)),
{
    match handle {
        None => Err(BoundaryError::NullHandle),
        Some(u) => {
            *u = UnionValue { tag, payload };
            Ok(())
        },
    }
}

/// The decimal digits of a number.
pub open spec fn dec_digits(n: nat) -> Seq<u8>
    decreases n,
{
    if n < 10 {
        seq![(48 + n) as u8]
    } else {
        dec_digits(n / 10) + seq![(48 + (n % 10)) as u8]
    }
}

/// Render a number as decimal digits.
pub fn render_unsigned(n: u64) -> (r: Vec<u8>)
    ensures
        r@ == dec_digits(n as nat),
    decreases n,
{
    if n < 10 {
        let r: Vec<u8> = vec![(48 + n) as u8];
        proof {
            assert(r@ =~= dec_digits(n as nat));
        }
        r
    } else {
        let mut r = render_unsigned(n / 10);
        r.push((48 + (n % 10)) as u8);
        proof {
            assert(r@ =~= dec_digits(n as nat));
        }
        r
    }
}

/// The human-readable rendering of one scalar: decimal digits, a sign for a
/// negative number, `true` or `false`, or the text in double quotes.
pub open spec fn render_scalar_model(s: ScalarModel) -> Seq<u8> {
    match s {
        ScalarModel::Unsigned(u) => dec_digits(u as nat),
        ScalarModel::Signed(i) => if i >= 0 {
            dec_digits(i as nat)
        } else {
            seq!['-' as u8] + dec_digits((-(i as int)) as nat)
        },
        ScalarModel::Flag(b) => if b {
            seq!['t' as u8, 'r' as u8, 'u' as u8, 'e' as u8]
        } else {
            seq!['f' as u8, 'a' as u8, 'l' as u8, 's' as u8, 'e' as u8]
        },
        ScalarModel::Text(t) => seq!['"' as u8] + t + seq!['"' as u8],
    }
}

/// Render one scalar as human-readable text.
pub fn render_scalar(s: &Scalar) -> (r: Vec<u8>)
    ensures
        r@ == render_scalar_model(s@),
{
    match s {
        Scalar::Unsigned(u) => render_unsigned(*u),
        Scalar::Signed(i) => {
            if *i >= 0 {
                let r = render_unsigned(*i as u64);
                proof {
                    assert(r@ =~= render_scalar_model(s@));
                }
                r
            } else {
                let wide: i128 = *i as i128;
                let mag: u64 = (-wide) as u64;
                let mut r: Vec<u8> = vec!['-' as u8];
                let digits = render_unsigned(mag);
                crate::names::extend_bytes(&mut r, &digits);
                proof {
                    assert(mag as nat == (-(*i as int)) as nat);
                    assert(r@ =~= render_scalar_model(s@));
                }
                r
            }
        },
        Scalar::Flag(b) => {
            let r: Vec<u8> = if *b {
                vec!['t' as u8, 'r' as u8, 'u' as u8, 'e' as u8]
            } else {
                vec!['f' as u8, 'a' as u8, 'l' as u8, 's' as u8, 'e' as u8]
            };
            proof {
                assert(r@ =~= render_scalar_model(s@));
            }
            r
        },
        Scalar::Text(t) => {
            let mut r: Vec<u8> = vec!['"' as u8];
            crate::names::extend_bytes(&mut r, t);
            r.push('"' as u8);
            proof {
                assert(r@ =~= render_scalar_model(s@));
            }
            r
        },
    }
}

/// The human-readable rendering of one field state: the scalar itself, the
/// items in brackets, or the optional value in parentheses (empty when
/// absent).
pub open spec fn render_field_model(f: FieldValueModel) -> Seq<u8> {
    match f {
        FieldValueModel::One(s) => render_scalar_model(s),
        FieldValueModel::Many(items) => seq!['[' as u8] + render_items_model(items) + seq![
            ']' as u8,
        ],
        FieldValueModel::Maybe(o) => match o {
            Some(s) => seq!['(' as u8] + render_scalar_model(s) + seq![')' as u8],
            None => seq!['(' as u8, ')' as u8],
        },
    }
}

/// The items of a sequence field, rendered and joined by commas.
pub open spec fn render_items_model(items: Seq<ScalarModel>) -> Seq<u8>
    decreases items.len(),
{
    if items.len() == 0 {
        Seq::empty()
    } else if items.len() == 1 {
        render_scalar_model(items[0])
    } else {
        render_items_model(items.drop_last()) + seq![',' as u8] + render_scalar_model(items.last())
    }
}

/// Render one field state as human-readable text.
pub fn render_field(f: &FieldValue) -> (r: Vec<u8>)
    ensures
        r@ == render_field_model(f@),
{
    match f {
        FieldValue::One(s) => render_scalar(s),
        FieldValue::Many(items) => {
            let ghost m = scalars_model(items@);
            let mut r: Vec<u8> = vec!['[' as u8];
            let mut i: usize = 0;
            while i < items.len()
                invariant
                    i <= items.len(),
                    m == scalars_model(items@),
                    m.len() == items@.len(),
                    r@ == seq!['[' as u8] + render_items_model(m.subrange(0, i as int)),
                decreases items.len() - i,
            {
                if i > 0 {
                    r.push(',' as u8);
                }
                let part = render_scalar(&items[i]);
                crate::names::extend_bytes(&mut r, &part);
                proof {
                    let pre = m.subrange(0, i as int);
                    let now = m.subrange(0, i + 1 as int);
                    assert(now.drop_last() =~= pre);
                    assert(now.last() == m[i as int]);
                    assert(r@ =~= seq!['[' as u8] + render_items_model(now));
                }
                i += 1;
            }
            proof {
                assert(m.subrange(0, m.len() as int) =~= m);
            }
            r.push(']' as u8);
            proof {
                assert(r@ =~= render_field_model(f@));
            }
            r
        },
        FieldValue::Maybe(o) => {
            let mut r: Vec<u8> = vec!['(' as u8];
            match o {
                Some(s) => {
                    let part = render_scalar(s);
                    crate::names::extend_bytes(&mut r, &part);
                },
                None => {},
            }
            r.push(')' as u8);
            proof {
                assert(r@ =~= render_field_model(f@));
            }
            r
        },
    }
}

/// The human-readable rendering of a whole record: every field's rendering,
/// joined by commas, in braces.
pub open spec fn render_record_model(inst: InstanceModel) -> Seq<u8> {
    seq!['{' as u8] + render_fields_model(inst.fields) + seq!['}' as u8]
}

/// The fields of a record, rendered and joined by commas.
pub open spec fn render_fields_model(fs: Seq<FieldValueModel>) -> Seq<u8>
    decreases fs.len(),
{
    if fs.len() == 0 {
        Seq::empty()
    } else if fs.len() == 1 {
        render_field_model(fs[0])
    } else {
        render_fields_model(fs.drop_last()) + seq![',' as u8] + render_field_model(fs.last())
    }
}

/// Render a whole record instance: what the generated debug operation
/// writes to the diagnostic channel. Rendering cannot fail.
pub fn render_record(inst: &Instance) -> (r: Vec<u8>)
    ensures
        r@ == render_record_model(inst@),
{
    let ghost m = field_values_model(inst.fields@);
    let mut r: Vec<u8> = vec!['{' as u8];
    let mut i: usize = 0;
    while i < inst.fields.len()
        invariant
            i <= inst.fields.len(),
            m == field_values_model(inst.fields@),
            m.len() == inst.fields@.len(),
            r@ == seq!['{' as u8] + render_fields_model(m.subrange(0, i as int)),
        decreases inst.fields.len() - i,
    {
        if i > 0 {
            r.push(',' as u8);
        }
        let part = render_field(&inst.fields[i]);
        crate::names::extend_bytes(&mut r, &part);
        proof {
            let pre = m.subrange(0, i as int);
            let now = m.subrange(0, i + 1 as int);
            assert(now.drop_last() =~= pre);
            assert(now.last() == m[i as int]);
            assert(r@ =~= seq!['{' as u8] + render_fields_model(now));
        }
        i += 1;
    }
    proof {
        assert(m.subrange(0, m.len() as int) =~= m);
    }
    r.push('}' as u8);
    proof {
        assert(r@ =~= render_record_model(inst@));
    }
    r
}

/// The human-readable rendering of a tagged-union instance: the variant's
/// name, then its payload in parentheses when it has one.
pub open spec fn render_union_model(u: UnionValueModel, variant_names: Seq<Seq<u8>>) -> Seq<u8>
    recommends
        0 <= u.tag < variant_names.len(),
{
    variant_names[u.tag] + match u.payload {
        Some(p) => seq!['(' as u8] + render_scalar_model(p) + seq![')' as u8],
        None => Seq::empty(),
    }
}

/// Render a tagged-union instance: what the generated debug operation
/// writes to the diagnostic channel. Rendering cannot fail.
pub fn render_union(u: &UnionValue, variant_names: &Vec<Vec<u8>>) -> (r: Vec<u8>)
    requires
        u.tag < variant_names@.len(),
    ensures
        r@ == render_union_model(u@, crate::schema::names_model(variant_names@)),
{
    let mut r = copy_bytes(&variant_names[u.tag]);
    match &u.payload {
        Some(p) => {
            r.push('(' as u8);
            let part = render_scalar(p);
            crate::names::extend_bytes(&mut r, &part);
            r.push(')' as u8);
        },
        None => {},
    }
    proof {
        assert(r@ =~= render_union_model(u@, crate::schema::names_model(variant_names@)));
    }
    r
}

/// One constructor argument applied to a field under the same inbound rule
/// as the field's write operation: a scalar is assigned, a sequence gets
/// the value appended, an optional is replaced.
pub open spec fn construct_write(fv: FieldValueModel, v: ScalarModel) -> FieldValueModel {
    match fv {
        FieldValueModel::One(_) => FieldValueModel::One(v),
        FieldValueModel::Many(items) => FieldValueModel::Many(items.push(v)),
        FieldValueModel::Maybe(_) => FieldValueModel::Maybe(Some(v)),
    }
}

/// The fields of a constructed instance: the defaults, with the listed
/// fields overwritten in order.
pub open spec fn constructed_fields(
    fields: Seq<FieldValueModel>,
    idxs: Seq<usize>,
    vals: Seq<ScalarModel>,
) -> Seq<FieldValueModel>
    decreases idxs.len(),
{
    if idxs.len() == 0 {
        fields
    } else {
        let prev = constructed_fields(fields, idxs.drop_last(), vals.drop_last());
        prev.update(
            idxs.last() as int,
            construct_write(prev[idxs.last() as int], vals.last()),
        )
    }
}

/// Overwriting fields never changes how many there are.
pub proof fn lemma_constructed_len(
    fields: Seq<FieldValueModel>,
    idxs: Seq<usize>,
    vals: Seq<ScalarModel>,
)
    requires
        forall|k: int| 0 <= k < idxs.len() ==> (idxs[k] as int) < fields.len(),
    ensures
        constructed_fields(fields, idxs, vals).len() == fields.len(),
    decreases idxs.len(),
{
    if idxs.len() == 0 {
    } else {
        lemma_constructed_len(fields, idxs.drop_last(), vals.drop_last());
    }
}

/// Generated named constructor: allocate and return an owning handle to a
/// default-constructed instance with exactly the listed fields overwritten,
/// in order, via the same inbound rules as the write operations. Its inputs
/// are validated at generation time, so the construction itself cannot
/// fail: this is the one operation that returns no status.
pub fn record_construct(
    templates: &Vec<FieldTemplate>,
    indices: &Vec<usize>,
    values: &Vec<Scalar>,
) -> (r: Box<Instance>)
    requires
        indices@.len() == values@.len(),
        forall|k: int| 0 <= k < indices@.len() ==> indices@[k] < templates@.len(),
    ensures
        r@.fields == constructed_fields(
            default_fields_model(templates@),
            indices@,
            scalars_model(values@),
        ),
{
    let mut inst = record_default(templates);
    let ghost base = default_fields_model(templates@);
    let mut i: usize = 0;
    while i < indices.len()
        invariant
            i <= indices.len(),
            indices@.len() == values@.len(),
            forall|k: int| 0 <= k < indices@.len() ==> indices@[k] < templates@.len(),
            base == default_fields_model(templates@),
            base.len() == templates@.len(),
            inst@.fields == constructed_fields(
                base,
                indices@.subrange(0, i as int),
                scalars_model(values@).subrange(0, i as int),
            ),
            inst.fields@.len() == templates@.len(),
        decreases indices.len() - i,
    {
        let ghost pre = inst@.fields;
        proof {
            lemma_constructed_len(
                base,
                indices@.subrange(0, i as int),
                scalars_model(values@).subrange(0, i as int),
            );
        }
        let idx = indices[i];
        let v = clone_scalar(&values[i]);
        let ghost vm = v@;
        match &mut inst.fields[idx] {
            FieldValue::One(slot) => {
                *slot = v;
            },
            FieldValue::Many(items) => {
                items.push(v);
            },
            FieldValue::Maybe(o) => {
                *o = Some(v);
            },
        }
        proof {
            let idxs_now = indices@.subrange(0, i + 1 as int);
            let vals_now = scalars_model(values@).subrange(0, i + 1 as int);
            assert(idxs_now.drop_last() =~= indices@.subrange(0, i as int));
            assert(vals_now.drop_last() =~= scalars_model(values@).subrange(0, i as int));
            assert(vals_now.last() == vm);
            assert(inst@.fields =~~= pre.update(idx as int, construct_write(pre[idx as int], vm)));
            assert(inst@.fields =~~= constructed_fields(base, idxs_now, vals_now));
        }
        i += 1;
    }
    proof {
        assert(indices@.subrange(0, indices@.len() as int) =~= indices@);
        assert(scalars_model(values@).subrange(0, scalars_model(values@).len() as int)
            =~= scalars_model(values@));
    }
    inst
}

/// Generated text write: validate the handle, decode the inbound
/// narrow-character bytes as UTF-8, then assign the owned string. A decode
/// failure is a recoverable error, reported like every other, and nothing
/// is touched.
pub fn record_with_text(handle: &mut Option<Instance>, field: usize, bytes: &Vec<u8>) -> (r:
    CResult)
    requires
        (*old(handle)) is Some ==> is_one(pointee(*old(handle))@, field as int),
    ensures
        r is Ok <==> ((*old(handle)) is Some && vstd::utf8::valid_utf8(bytes@)),
        (*old(handle)) is None ==> r == Err::<(), BoundaryError>(BoundaryError::NullHandle)
            && (*final(handle)) is None,
        ((*old(handle)) is Some && !vstd::utf8::valid_utf8(bytes@)) ==> (r == Err::<(
        ), BoundaryError>(BoundaryError::TextDecode) && (*final(handle)) is Some && pointee(
            *final(handle),
        )@ == pointee(*old(handle))@),
        ((*old(handle)) is Some && vstd::utf8::valid_utf8(bytes@)) ==> ((*final(handle)) is Some
            && pointee(*final(handle))@ == field_updated(
            pointee(*old(handle))@,
            field as int,
            FieldValueModel::One(ScalarModel::Text(bytes@)),
        )),
{
    match handle {
        None => Err(BoundaryError::NullHandle),
        Some(inst) => {
            let ghost pre = inst@;
            let decoded = match crate::utils::as_string(bytes) {
                Ok(d) => d,
                Err(e) => {
                    return Err(e);
                },
            };
            proof {
                assert(field < inst.fields@.len());
            }
            inst.fields[field] = FieldValue::One(Scalar::Text(decoded));
            proof {
                assert(inst@ =~~= field_updated(
                    pre,
                    field as int,
                    FieldValueModel::One(ScalarModel::Text(bytes@)),
                ));
            }
            Ok(())
        },
    }
}

} // verus!
