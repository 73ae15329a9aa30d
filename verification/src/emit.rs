use vstd::prelude::*;
use crate::schema::Entity;
use crate::schema::EntityModel;
use crate::schema::Field;
use crate::schema::FieldModel;
use crate::schema::Variant;
use crate::schema::VariantModel;
use crate::schema::Config;
use crate::schema::ConfigModel;
use crate::schema::fields_model;
use crate::schema::names_model;
use crate::names::copy_bytes;
use crate::names::sep;
use crate::names::member_fn_name;
use crate::names::entity_fn_name;
use crate::names::joined_snake;
use crate::names::has_collision;
use crate::names::build_member_fn_name;
use crate::names::build_entity_fn_name;
use crate::names::build_joined_snake;
use crate::names::extend_bytes;
use crate::names::find_collision;
use crate::resolve::ParamTy;
use crate::resolve::ParamTyModel;
use crate::resolve::Shape;
use crate::resolve::resolve;
use crate::resolve::resolve_model;

verus! {

/// What one generated operation does.
#[derive(PartialEq, Eq, Structural, Debug)]
pub enum OpKind {
    /// Scalar write: validate the handle, apply the inbound rule.
    ScalarWith,
    /// Scalar read: validate the pointers, apply the outbound rule.
    ScalarGet,
    /// Sequence append.
    SeqPush,
    /// Sequence read at an index.
    SeqGet,
    /// Sequence removal at an index, the removed value written out.
    SeqRemove,
    /// Optional overwrite, unconditional.
    OptReplace,
    /// Optional removal; fails when empty.
    OptTake,
    /// Optional read; absence is success with no write.
    OptGet,
    /// Allocate and return the default value.
    MakeDefault,
    /// Allocate and return a deep copy of the pointee.
    MakeClone,
    /// Write a human-readable rendering to the diagnostic channel.
    RenderDebug,
    /// Named constructor: default value with the listed fields overwritten.
    Construct,
    /// Overwrite the pointee in place with a fresh value of one variant.
    IntoVariant,
    /// Allocate and return a fresh value of one variant.
    FromVariant,
}

/// How a generated operation reports.
#[derive(PartialEq, Eq, Structural, Debug)]
pub enum Returns {
    /// A signed status: zero on success, nonzero on failure.
    Status,
    /// An owning pointer; the receiver owes exactly one release.
    Owning,
    /// Nothing; the operation cannot fail.
    Nothing,
}

/// One parameter of a generated operation.
#[derive(Debug)]
pub enum Param {
    /// Writable pointer to the entity, required non-null.
    MutHandle,
    /// Borrowed pointer to the entity, required non-null.
    ConstHandle,
    /// A position in a sequence field.
    Index,
    /// An inbound value.
    In(ParamTy),
    /// An out-parameter for an outbound read.
    Out(ParamTy),
}

/// Mathematical model of a parameter.
#[verifier::ext_equal]
pub enum ParamModel {
    MutHandle,
    ConstHandle,
    Index,
    In(ParamTyModel),
    Out(ParamTyModel),
}

impl View for Param {
    type V = ParamModel;

    open spec fn view(&self) -> ParamModel {
        match self {
            Param::MutHandle => ParamModel::MutHandle,
            Param::ConstHandle => ParamModel::ConstHandle,
            Param::Index => ParamModel::Index,
            Param::In(t) => ParamModel::In(t@),
            Param::Out(t) => ParamModel::Out(t@),
        }
    }
}

/// One generated foreign-callable operation.
#[derive(Debug)]
pub struct Operation {
    pub name: Vec<u8>,
    pub kind: OpKind,
    pub params: Vec<Param>,
    pub returns: Returns,
}

/// Mathematical model of a generated operation.
#[verifier::ext_equal]
pub struct OperationModel {
    pub name: Seq<u8>,
    pub kind: OpKind,
    pub params: Seq<ParamModel>,
    pub returns: Returns,
}

/// The models of a parameter list.
pub open spec fn params_model(ps: Seq<Param>) -> Seq<ParamModel> {
    ps.map_values(|p: Param| p@)
}

impl View for Operation {
    type V = OperationModel;

    open spec fn view(&self) -> OperationModel {
        OperationModel {
            name: self.name@,
            kind: self.kind,
            params: params_model(self.params@),
            returns: self.returns,
        }
    }
}

/// The models of a list of operations.
pub open spec fn ops_model(ops: Seq<Operation>) -> Seq<OperationModel> {
    ops.map_values(|o: Operation| o@)
}

/// The generated names of a list of operations.
pub open spec fn op_names(ops: Seq<OperationModel>) -> Seq<Seq<u8>> {
    ops.map_values(|o: OperationModel| o.name)
}

pub open spec fn word_with() -> Seq<u8> {
    seq!['w' as u8, 'i' as u8, 't' as u8, 'h' as u8]
}

pub open spec fn word_get() -> Seq<u8> {
    seq!['g' as u8, 'e' as u8, 't' as u8]
}

pub open spec fn word_push() -> Seq<u8> {
    seq!['p' as u8, 'u' as u8, 's' as u8, 'h' as u8]
}

pub open spec fn word_remove() -> Seq<u8> {
    seq!['r' as u8, 'e' as u8, 'm' as u8, 'o' as u8, 'v' as u8, 'e' as u8]
}

pub open spec fn word_replace() -> Seq<u8> {
    seq!['r' as u8, 'e' as u8, 'p' as u8, 'l' as u8, 'a' as u8, 'c' as u8, 'e' as u8]
}

pub open spec fn word_take() -> Seq<u8> {
    seq!['t' as u8, 'a' as u8, 'k' as u8, 'e' as u8]
}

pub open spec fn word_default() -> Seq<u8> {
    seq!['d' as u8, 'e' as u8, 'f' as u8, 'a' as u8, 'u' as u8, 'l' as u8, 't' as u8]
}

pub open spec fn word_clone() -> Seq<u8> {
    seq!['c' as u8, 'l' as u8, 'o' as u8, 'n' as u8, 'e' as u8]
}

pub open spec fn word_debug() -> Seq<u8> {
    seq!['d' as u8, 'e' as u8, 'b' as u8, 'u' as u8, 'g' as u8]
}

pub open spec fn word_as() -> Seq<u8> {
    seq!['a' as u8, 's' as u8]
}

pub open spec fn word_from() -> Seq<u8> {
    seq!['f' as u8, 'r' as u8, 'o' as u8, 'm' as u8]
}

fn op_with() -> (r: Vec<u8>)
    ensures
        r@ == word_with(),
{
    let r: Vec<u8> = vec!['w' as u8, 'i' as u8, 't' as u8, 'h' as u8];
    proof {
        assert(r@ =~= word_with());
    }
    r
}

fn op_get() -> (r: Vec<u8>)
    ensures
        r@ == word_get(),
{
    let r: Vec<u8> = vec!['g' as u8, 'e' as u8, 't' as u8];
    proof {
        assert(r@ =~= word_get());
    }
    r
}

fn op_push() -> (r: Vec<u8>)
    ensures
        r@ == word_push(),
{
    let r: Vec<u8> = vec!['p' as u8, 'u' as u8, 's' as u8, 'h' as u8];
    proof {
        assert(r@ =~= word_push());
    }
    r
}

fn op_remove() -> (r: Vec<u8>)
    ensures
        r@ == word_remove(),
{
    let r: Vec<u8> = vec!['r' as u8, 'e' as u8, 'm' as u8, 'o' as u8, 'v' as u8, 'e' as u8];
    proof {
        assert(r@ =~= word_remove());
    }
    r
}

fn op_replace() -> (r: Vec<u8>)
    ensures
        r@ == word_replace(),
{
    let r: Vec<u8> = vec![
        'r' as u8,
        'e' as u8,
        'p' as u8,
        'l' as u8,
        'a' as u8,
        'c' as u8,
        'e' as u8,
    ];
    proof {
        assert(r@ =~= word_replace());
    }
    r
}

fn op_take() -> (r: Vec<u8>)
    ensures
        r@ == word_take(),
{
    let r: Vec<u8> = vec!['t' as u8, 'a' as u8, 'k' as u8, 'e' as u8];
    proof {
        assert(r@ =~= word_take());
    }
    r
}

fn op_default() -> (r: Vec<u8>)
    ensures
        r@ == word_default(),
{
    let r: Vec<u8> = vec![
        'd' as u8,
        'e' as u8,
        'f' as u8,
        'a' as u8,
        'u' as u8,
        'l' as u8,
        't' as u8,
    ];
    proof {
        assert(r@ =~= word_default());
    }
    r
}

fn op_clone() -> (r: Vec<u8>)
    ensures
        r@ == word_clone(),
{
    let r: Vec<u8> = vec!['c' as u8, 'l' as u8, 'o' as u8, 'n' as u8, 'e' as u8];
    proof {
        assert(r@ =~= word_clone());
    }
    r
}

fn op_debug() -> (r: Vec<u8>)
    ensures
        r@ == word_debug(),
{
    let r: Vec<u8> = vec!['d' as u8, 'e' as u8, 'b' as u8, 'u' as u8, 'g' as u8];
    proof {
        assert(r@ =~= word_debug());
    }
    r
}

fn op_as() -> (r: Vec<u8>)
    ensures
        r@ == word_as(),
{
    let r: Vec<u8> = vec!['a' as u8, 's' as u8];
    proof {
        assert(r@ =~= word_as());
    }
    r
}

fn op_from() -> (r: Vec<u8>)
    ensures
        r@ == word_from(),
{
    let r: Vec<u8> = vec!['f' as u8, 'r' as u8, 'o' as u8, 'm' as u8];
    proof {
        assert(r@ =~= word_from());
    }
    r
}

impl ParamTy {
    /// An owned copy of a parameter type.
    pub fn duplicate(&self) -> (r: ParamTy)
        ensures
            r@ == self@,
    {
        match self {
            ParamTy::Value(t) => ParamTy::Value(t.duplicate()),
            ParamTy::ConstRef(t) => ParamTy::ConstRef(t.duplicate()),
            ParamTy::MutRef(t) => ParamTy::MutRef(t.duplicate()),
            ParamTy::TextIn => ParamTy::TextIn,
            ParamTy::TextOut => ParamTy::TextOut,
        }
    }
}

/// The operation set emitted for one field, fixed by the resolved shape:
/// scalar fields get `with` and `get`; sequence fields get `push`, `get` at
/// an index and `remove` at an index; optional fields get `replace`, `take`
/// and `get`.
pub open spec fn field_accessors_model(entity: Seq<u8>, f: FieldModel) -> Seq<OperationModel> {
    let d = resolve_model(f.ty, f.directives);
    match d.shape {
        Shape::Scalar => seq![
            OperationModel {
                name: member_fn_name(entity, word_with(), f.name),
                kind: OpKind::ScalarWith,
                params: seq![ParamModel::MutHandle, ParamModel::In(d.inbound)],
                returns: Returns::Status,
            },
            OperationModel {
                name: member_fn_name(entity, word_get(), f.name),
                kind: OpKind::ScalarGet,
                params: seq![ParamModel::ConstHandle, ParamModel::Out(d.outbound)],
                returns: Returns::Status,
            },
        ],
        Shape::Sequence => seq![
            OperationModel {
                name: member_fn_name(entity, word_push(), f.name),
                kind: OpKind::SeqPush,
                params: seq![ParamModel::MutHandle, ParamModel::In(d.inbound)],
                returns: Returns::Status,
            },
            OperationModel {
                name: member_fn_name(entity, word_get(), f.name),
                kind: OpKind::SeqGet,
                params: seq![
                    ParamModel::ConstHandle,
                    ParamModel::Index,
                    ParamModel::Out(d.outbound),
                ],
                returns: Returns::Status,
            },
            OperationModel {
                name: member_fn_name(entity, word_remove(), f.name),
                kind: OpKind::SeqRemove,
                params: seq![
                    ParamModel::MutHandle,
                    ParamModel::Index,
                    ParamModel::Out(d.outbound),
                ],
                returns: Returns::Status,
            },
        ],
        Shape::Optional => seq![
            OperationModel {
                name: member_fn_name(entity, word_replace(), f.name),
                kind: OpKind::OptReplace,
                params: seq![ParamModel::MutHandle, ParamModel::In(d.inbound)],
                returns: Returns::Status,
            },
            OperationModel {
                name: member_fn_name(entity, word_take(), f.name),
                kind: OpKind::OptTake,
                params: seq![ParamModel::MutHandle, ParamModel::Out(d.outbound)],
                returns: Returns::Status,
            },
            OperationModel {
                name: member_fn_name(entity, word_get(), f.name),
                kind: OpKind::OptGet,
                params: seq![ParamModel::ConstHandle, ParamModel::Out(d.outbound)],
                returns: Returns::Status,
            },
        ],
    }
}

/// Emit the operation set for one field onto the end of `ops`.
pub fn field_accessors(entity: &Vec<u8>, f: &Field, ops: &mut Vec<Operation>)
    ensures
        ops_model(final(ops)@) == ops_model(old(ops)@) + field_accessors_model(entity@, f@),
{
    let d = resolve(&f.ty, &f.directives);
    match d.shape {
        Shape::Scalar => {
            ops.push(
                Operation {
                    name: build_member_fn_name(entity, &op_with(), &f.name),
                    kind: OpKind::ScalarWith,
                    params: vec![Param::MutHandle, Param::In(d.inbound)],
                    returns: Returns::Status,
                },
            );
            ops.push(
                Operation {
                    name: build_member_fn_name(entity, &op_get(), &f.name),
                    kind: OpKind::ScalarGet,
                    params: vec![Param::ConstHandle, Param::Out(d.outbound)],
                    returns: Returns::Status,
                },
            );
        },
        Shape::Sequence => {
            ops.push(
                Operation {
                    name: build_member_fn_name(entity, &op_push(), &f.name),
                    kind: OpKind::SeqPush,
                    params: vec![Param::MutHandle, Param::In(d.inbound)],
                    returns: Returns::Status,
                },
            );
            ops.push(
                Operation {
                    name: build_member_fn_name(entity, &op_get(), &f.name),
                    kind: OpKind::SeqGet,
                    params: vec![Param::ConstHandle, Param::Index, Param::Out(d.outbound.duplicate())],
                    returns: Returns::Status,
                },
            );
            ops.push(
                Operation {
                    name: build_member_fn_name(entity, &op_remove(), &f.name),
                    kind: OpKind::SeqRemove,
                    params: vec![Param::MutHandle, Param::Index, Param::Out(d.outbound)],
                    returns: Returns::Status,
                },
            );
        },
        Shape::Optional => {
            ops.push(
                Operation {
                    name: build_member_fn_name(entity, &op_replace(), &f.name),
                    kind: OpKind::OptReplace,
                    params: vec![Param::MutHandle, Param::In(d.inbound)],
                    returns: Returns::Status,
                },
            );
            ops.push(
                Operation {
                    name: build_member_fn_name(entity, &op_take(), &f.name),
                    kind: OpKind::OptTake,
                    params: vec![Param::MutHandle, Param::Out(d.outbound.duplicate())],
                    returns: Returns::Status,
                },
            );
            ops.push(
                Operation {
                    name: build_member_fn_name(entity, &op_get(), &f.name),
                    kind: OpKind::OptGet,
                    params: vec![Param::ConstHandle, Param::Out(d.outbound)],
                    returns: Returns::Status,
                },
            );
        },
    }
    proof {
        assert(ops_model(ops@) =~~= ops_model(old(ops)@) + field_accessors_model(entity@, f@));
    }
}

/// The whole-entity operations that the configuration has not suppressed:
/// `default` and `clone` return owning pointers, `debug` renders and
/// cannot fail.
pub open spec fn common_ops_model(entity: Seq<u8>, c: ConfigModel) -> Seq<OperationModel> {
    (if c.gen_default {
        seq![
            OperationModel {
                name: entity_fn_name(entity, word_default()),
                kind: OpKind::MakeDefault,
                params: seq![],
                returns: Returns::Owning,
            },
        ]
    } else {
        seq![]
    }) + (if c.gen_clone {
        seq![
            OperationModel {
                name: entity_fn_name(entity, word_clone()),
                kind: OpKind::MakeClone,
                params: seq![ParamModel::ConstHandle],
                returns: Returns::Owning,
            },
        ]
    } else {
        seq![]
    }) + (if c.gen_debug {
        seq![
            OperationModel {
                name: entity_fn_name(entity, word_debug()),
                kind: OpKind::RenderDebug,
                params: seq![ParamModel::ConstHandle],
                returns: Returns::Nothing,
            },
        ]
    } else {
        seq![]
    })
}

/// Emit the unsuppressed whole-entity operations onto the end of `ops`.
pub fn common_ops(entity: &Vec<u8>, config: &Config, ops: &mut Vec<Operation>)
    ensures
        ops_model(final(ops)@) == ops_model(old(ops)@) + common_ops_model(entity@, config@),
{
    if config.gen_default {
        ops.push(
            Operation {
                name: build_entity_fn_name(entity, &op_default()),
                kind: OpKind::MakeDefault,
                params: Vec::new(),
                returns: Returns::Owning,
            },
        );
    }
    if config.gen_clone {
        ops.push(
            Operation {
                name: build_entity_fn_name(entity, &op_clone()),
                kind: OpKind::MakeClone,
                params: vec![Param::ConstHandle],
                returns: Returns::Owning,
            },
        );
    }
    if config.gen_debug {
        ops.push(
            Operation {
                name: build_entity_fn_name(entity, &op_debug()),
                kind: OpKind::RenderDebug,
                params: vec![Param::ConstHandle],
                returns: Returns::Nothing,
            },
        );
    }
    proof {
        assert(ops_model(ops@) =~~= ops_model(old(ops)@) + common_ops_model(entity@, config@));
    }
}

/// A record has a field of the given name.
pub open spec fn has_field(fields: Seq<FieldModel>, n: Seq<u8>) -> bool {
    exists|k: int| 0 <= k < fields.len() && fields[k].name == n
}

/// The position of the first field with the given name, or -1 when the
/// record has none.
pub open spec fn field_index(fields: Seq<FieldModel>, n: Seq<u8>) -> int
    decreases fields.len(),
{
    if fields.len() == 0 {
        -1
    } else if fields[0].name == n {
        0
    } else {
        let r = field_index(fields.drop_first(), n);
        if r < 0 {
            -1
        } else {
            r + 1
        }
    }
}

proof fn lemma_field_index_first(fields: Seq<FieldModel>, n: Seq<u8>, i: int)
    requires
        0 <= i < fields.len(),
        fields[i].name == n,
        forall|k: int| 0 <= k < i ==> fields[k].name != n,
    ensures
        field_index(fields, n) == i,
    decreases i,
{
    if i == 0 {
    } else {
        assert(fields[0].name != n);
        lemma_field_index_first(fields.drop_first(), n, i - 1);
    }
}

/// Find the first field with the given name.
fn find_field(fields: &Vec<Field>, n: &Vec<u8>) -> (r: Option<usize>)
    ensures
        match r {
            Some(i) => i < fields.len() && field_index(fields_model(fields@), n@) == i as int
                && fields_model(fields@)[i as int].name == n@ && has_field(
                fields_model(fields@),
                n@,
            ),
            None => !has_field(fields_model(fields@), n@),
        },
{
    let ghost fm = fields_model(fields@);
    let mut i: usize = 0;
    while i < fields.len()
        invariant
            i <= fields.len(),
            fm == fields_model(fields@),
            fm.len() == fields@.len(),
            forall|k: int| 0 <= k < i ==> fm[k].name != n@,
        decreases fields.len() - i,
    {
        if crate::resolve::bytes_eq(&fields[i].name, n) {
            proof {
                assert(fm[i as int] == fields@[i as int]@);
                assert(fm[i as int].name == n@);
                lemma_field_index_first(fm, n@, i as int);
            }
            return Some(i);
        }
        i += 1;
    }
    None
}

/// Whether every field name of one named constructor exists on the record.
pub open spec fn ctor_names_exist(fields: Seq<FieldModel>, ctor: Seq<Seq<u8>>) -> bool {
    forall|j: int| 0 <= j < ctor.len() ==> has_field(fields, ctor[j])
}

/// Whether every configured constructor names only fields of the record.
pub open spec fn ctor_fields_exist(fields: Seq<FieldModel>, ctors: Seq<Seq<Seq<u8>>>) -> bool {
    forall|i: int| 0 <= i < ctors.len() ==> ctor_names_exist(fields, ctors[i])
}

/// The inbound parameter type of the field a constructor names.
pub open spec fn ctor_param(fields: Seq<FieldModel>, n: Seq<u8>) -> ParamTyModel {
    let f = fields[field_index(fields, n)];
    resolve_model(f.ty, f.directives).inbound
}

/// The inbound parameter types of one named constructor, in listed order.
pub open spec fn ctor_params_model(fields: Seq<FieldModel>, ctor: Seq<Seq<u8>>) -> Seq<ParamModel> {
    ctor.map_values(|n: Seq<u8>| ParamModel::In(ctor_param(fields, n)))
}

/// A named constructor: one inbound-converted argument per listed field, in
/// order, returning an owning pointer to a default-constructed entity with
/// exactly those fields overwritten.
pub open spec fn ctor_op_model(entity: Seq<u8>, fields: Seq<FieldModel>, ctor: Seq<Seq<u8>>) -> OperationModel {
    OperationModel {
        name: entity_fn_name(entity, word_from() + sep() + joined_snake(ctor)),
        kind: OpKind::Construct,
        params: ctor_params_model(fields, ctor),
        returns: Returns::Owning,
    }
}

/// Generation-time failures. Both are hard failures: nothing is emitted.
#[derive(PartialEq, Eq, Structural, Debug)]
pub enum EmitError {
    /// A named constructor lists a field the record does not have.
    UnknownConstructorField,
    /// Two generated operations derive the same name.
    NameCollision,
}

/// Emit one named constructor, validating its field list.
fn constructor_op(entity: &Vec<u8>, fields: &Vec<Field>, ctor: &Vec<Vec<u8>>) -> (r: Result<
    Operation,
    EmitError,
>)
    ensures
        ({
            let fm = fields_model(fields@);
            let cm = names_model(ctor@);
            match r {
                Ok(op) => ctor_names_exist(fm, cm) && op@ == ctor_op_model(entity@, fm, cm),
                Err(e) => e == EmitError::UnknownConstructorField && !ctor_names_exist(fm, cm),
            }
        }),
{
    let ghost fm = fields_model(fields@);
    let ghost cm = names_model(ctor@);
    let mut word = op_from();
    word.push('_' as u8);
    let joined = build_joined_snake(ctor);
    extend_bytes(&mut word, &joined);
    proof {
        assert(word@ =~= word_from() + sep() + joined_snake(cm));
    }
    let name = build_entity_fn_name(entity, &word);

    let mut params: Vec<Param> = Vec::new();
    let mut j: usize = 0;
    while j < ctor.len()
        invariant
            j <= ctor.len(),
            fm == fields_model(fields@),
            fm.len() == fields@.len(),
            cm == names_model(ctor@),
            cm.len() == ctor@.len(),
            forall|k: int| 0 <= k < j ==> has_field(fm, cm[k]),
            params_model(params@) == ctor_params_model(fm, cm.subrange(0, j as int)),
        decreases ctor.len() - j,
    {
        proof {
            assert(cm[j as int] == ctor@[j as int]@);
        }
        match find_field(fields, &ctor[j]) {
            None => {
                proof {
                    assert(!has_field(fm, cm[j as int]));
                }
                return Err(EmitError::UnknownConstructorField);
            },
            Some(i) => {
                let d = resolve(&fields[i].ty, &fields[i].directives);
                let ghost dm = d@;
                let p = Param::In(d.inbound);
                let ghost pm = p@;
                let ghost pre = params@;
                proof {
                    assert(pm == ParamModel::In(dm.inbound));
                    assert(fm[i as int] == fields@[i as int]@);
                    assert(field_index(fm, cm[j as int]) == i as int);
                    assert(ctor_param(fm, cm[j as int]) == dm.inbound);
                }
                params.push(p);
                proof {
                    assert(params@ == pre.push(p));
                    assert(params_model(params@) =~~= params_model(pre).push(pm));
                    assert(cm.subrange(0, j + 1 as int).drop_last() =~= cm.subrange(0, j as int));
                    assert(cm.subrange(0, j + 1 as int).last() == cm[j as int]);
                    assert(ctor_params_model(fm, cm.subrange(0, j + 1 as int)) =~~= params_model(
                        pre,
                    ).push(pm));
                    assert(params_model(params@) =~~= ctor_params_model(
                        fm,
                        cm.subrange(0, j + 1 as int),
                    ));
                }
            },
        }
        j += 1;
    }
    proof {
        assert(cm.subrange(0, cm.len() as int) =~= cm);
    }
    let op = Operation { name, kind: OpKind::Construct, params, returns: Returns::Owning };
    proof {
        assert(op@ =~~= ctor_op_model(entity@, fm, cm));
    }
    Ok(op)
}

/// The two operations emitted for one variant of a tagged union: `as_V`
/// retags the pointee in place, a total transition once the handle is
/// validated; `from_V` allocates and returns a fresh value of the variant.
/// Each consumes one inbound-converted payload when the variant has one.
pub open spec fn variant_pair_model(entity: Seq<u8>, v: VariantModel) -> Seq<OperationModel> {
    let into_params = match v.payload {
        Some(f) => seq![
            ParamModel::MutHandle,
            ParamModel::In(resolve_model(f.ty, f.directives).inbound),
        ],
        None => seq![ParamModel::MutHandle],
    };
    let from_params = match v.payload {
        Some(f) => seq![ParamModel::In(resolve_model(f.ty, f.directives).inbound)],
        None => seq![],
    };
    seq![
        OperationModel {
            name: member_fn_name(entity, word_as(), v.name),
            kind: OpKind::IntoVariant,
            params: into_params,
            returns: Returns::Status,
        },
        OperationModel {
            name: member_fn_name(entity, word_from(), v.name),
            kind: OpKind::FromVariant,
            params: from_params,
            returns: Returns::Owning,
        },
    ]
}

/// Emit the retag and fresh-allocation operations for one variant.
pub fn variant_ops(entity: &Vec<u8>, v: &Variant, ops: &mut Vec<Operation>)
    ensures
        ops_model(final(ops)@) == ops_model(old(ops)@) + variant_pair_model(entity@, v@),
{
    let into_params: Vec<Param>;
    let from_params: Vec<Param>;
    match &v.payload {
        Some(f) => {
            let d = resolve(&f.ty, &f.directives);
            into_params = vec![Param::MutHandle, Param::In(d.inbound.duplicate())];
            from_params = vec![Param::In(d.inbound)];
        },
        None => {
            into_params = vec![Param::MutHandle];
            from_params = Vec::new();
        },
    }
    ops.push(
        Operation {
            name: build_member_fn_name(entity, &op_as(), &v.name),
            kind: OpKind::IntoVariant,
            params: into_params,
            returns: Returns::Status,
        },
    );
    ops.push(
        Operation {
            name: build_member_fn_name(entity, &op_from(), &v.name),
            kind: OpKind::FromVariant,
            params: from_params,
            returns: Returns::Owning,
        },
    );
    proof {
        assert(ops_model(ops@) =~~= ops_model(old(ops)@) + variant_pair_model(entity@, v@));
    }
}

/// The constructor operations of a record, in configuration order.
pub open spec fn ctor_ops_model(
    entity: Seq<u8>,
    fields: Seq<FieldModel>,
    ctors: Seq<Seq<Seq<u8>>>,
) -> Seq<OperationModel>
    decreases ctors.len(),
{
    if ctors.len() == 0 {
        seq![]
    } else {
        ctor_ops_model(entity, fields, ctors.drop_last()) + seq![
            ctor_op_model(entity, fields, ctors.last()),
        ]
    }
}

/// The per-field accessor operations of a record, in declaration order.
pub open spec fn field_ops_model(entity: Seq<u8>, fields: Seq<FieldModel>) -> Seq<OperationModel>
    decreases fields.len(),
{
    if fields.len() == 0 {
        seq![]
    } else {
        field_ops_model(entity, fields.drop_last()) + field_accessors_model(entity, fields.last())
    }
}

/// The per-variant operations of a tagged union, in declaration order.
pub open spec fn variant_ops_model(entity: Seq<u8>, variants: Seq<VariantModel>) -> Seq<
    OperationModel,
>
    decreases variants.len(),
{
    if variants.len() == 0 {
        seq![]
    } else {
        variant_ops_model(entity, variants.drop_last()) + variant_pair_model(
            entity,
            variants.last(),
        )
    }
}

/// Every operation generated for an entity under a configuration: the
/// unsuppressed whole-entity operations, then the named constructors, then
/// the field accessors; for a tagged union, the whole-entity operations and
/// the per-variant operations.
pub open spec fn entity_ops_model(e: EntityModel, c: ConfigModel) -> Seq<OperationModel> {
    match e {
        EntityModel::Record { name, fields } => common_ops_model(name, c) + ctor_ops_model(
            name,
            fields,
            c.constructors,
        ) + field_ops_model(name, fields),
        EntityModel::Union { name, variants } => common_ops_model(name, c) + variant_ops_model(
            name,
            variants,
        ),
    }
}

/// Every configured constructor names only fields the entity has. Tagged
/// unions take no named constructors.
pub open spec fn constructors_valid(e: EntityModel, c: ConfigModel) -> bool {
    e matches EntityModel::Record { fields, .. } ==> ctor_fields_exist(fields, c.constructors)
}

/// Emit the full operation set for one entity.
///
/// A constructor naming an unknown field and a collision between two
/// generated names are hard generation-time failures: nothing is emitted.
pub fn entity_operations(entity: &Entity, config: &Config) -> (r: Result<Vec<Operation>, EmitError>)
    ensures
        r matches Ok(ops) ==> constructors_valid(entity@, config@) && !has_collision(
            op_names(entity_ops_model(entity@, config@)),
        ) && ops_model(ops@) == entity_ops_model(entity@, config@),
        r == Err::<Vec<Operation>, EmitError>(EmitError::UnknownConstructorField)
            <==> !constructors_valid(entity@, config@),
        r == Err::<Vec<Operation>, EmitError>(EmitError::NameCollision)
            <==> constructors_valid(entity@, config@) && has_collision(
            op_names(entity_ops_model(entity@, config@)),
        ),
{
    let ghost full_model = entity_ops_model(entity@, config@);
    let mut ops: Vec<Operation> = Vec::new();
    match entity {
        Entity::Record { name, fields } => {
            let ghost fm = fields_model(fields@);
            let ghost cm = config@.constructors;
            proof {
                match entity@ {
                    EntityModel::Record { name: nm, fields: ef } => {
                        assert(ef =~= fm);
                        assert(nm == name@);
                    },
                    EntityModel::Union { .. } => {
                        assert(false);
                    },
                }
                assert(entity@ == (EntityModel::Record { name: name@, fields: fm }));
            }
            common_ops(name, config, &mut ops);
            let mut ci: usize = 0;
            while ci < config.constructors.len()
                invariant
                    ci <= config.constructors.len(),
                    entity@ == (EntityModel::Record { name: name@, fields: fm }),
                    fm == fields_model(fields@),
                    cm == config@.constructors,
                    cm.len() == config.constructors@.len(),
                    forall|k: int| 0 <= k < ci ==> ctor_names_exist(fm, cm[k]),
                    ops_model(ops@) == common_ops_model(name@, config@) + ctor_ops_model(
                        name@,
                        fm,
                        cm.subrange(0, ci as int),
                    ),
                decreases config.constructors.len() - ci,
            {
                proof {
                    assert(cm[ci as int] == names_model(config.constructors@[ci as int]@));
                }
                match constructor_op(name, fields, &config.constructors[ci]) {
                    Err(e) => {
                        proof {
                            assert(!ctor_names_exist(fm, cm[ci as int]));
                            assert(!constructors_valid(entity@, config@));
                        }
                        return Err(EmitError::UnknownConstructorField);
                    },
                    Ok(op) => {
                        let ghost opm = op@;
                        let ghost pre_ops = ops@;
                        ops.push(op);
                        proof {
                            let pre = cm.subrange(0, ci as int);
                            let now = cm.subrange(0, ci + 1 as int);
                            assert(now.drop_last() =~= pre);
                            assert(now.last() == cm[ci as int]);
                            assert(opm == ctor_op_model(name@, fm, cm[ci as int]));
                            assert(ctor_ops_model(name@, fm, now) == ctor_ops_model(name@, fm, pre)
                                + seq![opm]);
                            assert(ops_model(ops@) =~= ops_model(pre_ops).push(opm));
                            assert(ops_model(ops@) =~= common_ops_model(name@, config@)
                                + ctor_ops_model(name@, fm, now));
                        }
                    },
                }
                ci += 1;
            }
            proof {
                assert(cm.subrange(0, cm.len() as int) =~= cm);
            }
            let mut fi: usize = 0;
            while fi < fields.len()
                invariant
                    fi <= fields.len(),
                    entity@ == (EntityModel::Record { name: name@, fields: fm }),
                    fm == fields_model(fields@),
                    fm.len() == fields@.len(),
                    cm == config@.constructors,
                    ops_model(ops@) == common_ops_model(name@, config@) + ctor_ops_model(
                        name@,
                        fm,
                        cm,
                    ) + field_ops_model(name@, fm.subrange(0, fi as int)),
                decreases fields.len() - fi,
            {
                field_accessors(name, &fields[fi], &mut ops);
                proof {
                    let pre = fm.subrange(0, fi as int);
                    let now = fm.subrange(0, fi + 1 as int);
                    assert(now.drop_last() =~= pre);
                    assert(now.last() == fields@[fi as int]@);
                    assert(ops_model(ops@) =~= common_ops_model(name@, config@) + ctor_ops_model(
                        name@,
                        fm,
                        cm,
                    ) + field_ops_model(name@, now));
                }
                fi += 1;
            }
            proof {
                assert(fm.subrange(0, fm.len() as int) =~= fm);
                assert(ops_model(ops@) == full_model);
                assert(constructors_valid(entity@, config@));
            }
        },
        Entity::Union { name, variants } => {
            let ghost vm = crate::schema::variants_model(variants@);
            proof {
                match entity@ {
                    EntityModel::Union { name: nm, variants: ev } => {
                        assert(ev =~= vm);
                        assert(nm == name@);
                    },
                    EntityModel::Record { .. } => {
                        assert(false);
                    },
                }
                assert(entity@ == (EntityModel::Union { name: name@, variants: vm }));
            }
            common_ops(name, config, &mut ops);
            let mut vi: usize = 0;
            while vi < variants.len()
                invariant
                    vi <= variants.len(),
                    entity@ == (EntityModel::Union { name: name@, variants: vm }),
                    vm == crate::schema::variants_model(variants@),
                    vm.len() == variants@.len(),
                    ops_model(ops@) == common_ops_model(name@, config@) + variant_ops_model(
                        name@,
                        vm.subrange(0, vi as int),
                    ),
                decreases variants.len() - vi,
            {
                variant_ops(name, &variants[vi], &mut ops);
                proof {
                    let pre = vm.subrange(0, vi as int);
                    let now = vm.subrange(0, vi + 1 as int);
                    assert(now.drop_last() =~= pre);
                    assert(now.last() == variants@[vi as int]@);
                    assert(ops_model(ops@) =~= common_ops_model(name@, config@)
                        + variant_ops_model(name@, now));
                }
                vi += 1;
            }
            proof {
                assert(vm.subrange(0, vm.len() as int) =~= vm);
                assert(ops_model(ops@) == full_model);
            }
        },
    }

    let mut names: Vec<Vec<u8>> = Vec::new();
    let mut i: usize = 0;
    while i < ops.len()
        invariant
            i <= ops.len(),
            ops_model(ops@) == full_model,
            full_model.len() == ops@.len(),
            names@.len() == i,
            names_model(names@) == op_names(full_model).subrange(0, i as int),
        decreases ops.len() - i,
    {
        names.push(copy_bytes(&ops[i].name));
        proof {
            assert(names_model(names@) =~= op_names(full_model).subrange(0, i + 1 as int));
        }
        i += 1;
    }
    proof {
        assert(op_names(full_model).subrange(0, op_names(full_model).len() as int) =~= op_names(
            full_model,
        ));
    }
    if find_collision(&names) {
        return Err(EmitError::NameCollision);
    }
    Ok(ops)
}

} // verus!
