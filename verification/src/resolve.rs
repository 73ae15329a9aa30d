use vstd::prelude::*;
use crate::schema::Ty;
use crate::schema::TyModel;
use crate::schema::Directives;
use crate::schema::DirectivesModel;
use crate::names::copy_bytes;

verus! {

/// Structural classification of a resolved field type. Every declared type
/// resolves to exactly one shape.
#[derive(PartialEq, Eq, Structural, Debug)]
pub enum Shape {
    Scalar,
    Sequence,
    Optional,
}

/// How an inbound foreign value becomes the native representation.
#[derive(PartialEq, Eq, Structural, Debug)]
pub enum InRule {
    /// Assign the by-value argument directly.
    CopyAssign,
    /// Assign a deep copy of the pointee.
    CloneAssign,
    /// Decode the narrow-character text as UTF-8 into an owned string;
    /// a decode failure is a recoverable error.
    DecodeText,
}

/// How a native value is handed back for an outbound read.
#[derive(PartialEq, Eq, Structural, Debug)]
pub enum OutRule {
    /// Store the value through the out pointer by bitwise copy.
    CopyStore,
    /// Store a deep copy through the out pointer.
    CloneStore,
    /// Copy the encoded bytes into the caller's buffer, truncating silently
    /// at its capacity; truncation is success.
    EncodeText,
}

/// A foreign-side parameter type.
#[derive(Debug)]
pub enum ParamTy {
    /// The native type itself, passed by value.
    Value(Ty),
    /// A borrowed pointer to a native value, required non-null.
    ConstRef(Ty),
    /// A writable pointer to a native value, required non-null.
    MutRef(Ty),
    /// A narrow-character pointer carrying encoded text, read side.
    TextIn,
    /// A caller-supplied writable byte buffer with explicit capacity.
    TextOut,
}

/// Mathematical model of a foreign-side parameter type.
#[verifier::ext_equal]
pub enum ParamTyModel {
    Value(TyModel),
    ConstRef(TyModel),
    MutRef(TyModel),
    TextIn,
    TextOut,
}

impl View for ParamTy {
    type V = ParamTyModel;

    open spec fn view(&self) -> ParamTyModel {
        match self {
            ParamTy::Value(t) => ParamTyModel::Value(t@),
            ParamTy::ConstRef(t) => ParamTyModel::ConstRef(t@),
            ParamTy::MutRef(t) => ParamTyModel::MutRef(t@),
            ParamTy::TextIn => ParamTyModel::TextIn,
            ParamTy::TextOut => ParamTyModel::TextOut,
        }
    }
}

/// The resolved cross-boundary conversion contract for one field.
#[derive(Debug)]
pub struct Descriptor {
    pub native: Ty,
    pub shape: Shape,
    pub inbound: ParamTy,
    pub outbound: ParamTy,
    pub in_rule: InRule,
    pub out_rule: OutRule,
}

/// Mathematical model of a binding descriptor.
#[verifier::ext_equal]
pub struct DescriptorModel {
    pub native: TyModel,
    pub shape: Shape,
    pub inbound: ParamTyModel,
    pub outbound: ParamTyModel,
    pub in_rule: InRule,
    pub out_rule: OutRule,
}

impl View for Descriptor {
    type V = DescriptorModel;

    open spec fn view(&self) -> DescriptorModel {
        DescriptorModel {
            native: self.native@,
            shape: self.shape,
            inbound: self.inbound@,
            outbound: self.outbound@,
            in_rule: self.in_rule,
            out_rule: self.out_rule,
        }
    }
}

/// The names of the fixed-width copyable primitives: they cross the
/// boundary by value.
pub open spec fn is_primitive_name(n: Seq<u8>) -> bool {
    ||| n == seq!['i' as u8, '8' as u8]
    ||| n == seq!['i' as u8, '1' as u8, '6' as u8]
    ||| n == seq!['i' as u8, '3' as u8, '2' as u8]
    ||| n == seq!['i' as u8, '6' as u8, '4' as u8]
    ||| n == seq!['i' as u8, '1' as u8, '2' as u8, '8' as u8]
    ||| n == seq!['u' as u8, '8' as u8]
    ||| n == seq!['u' as u8, '1' as u8, '6' as u8]
    ||| n == seq!['u' as u8, '3' as u8, '2' as u8]
    ||| n == seq!['u' as u8, '6' as u8, '4' as u8]
    ||| n == seq!['u' as u8, '1' as u8, '2' as u8, '8' as u8]
    ||| n == seq!['f' as u8, '3' as u8, '2' as u8]
    ||| n == seq!['f' as u8, '6' as u8, '4' as u8]
    ||| n == seq!['b' as u8, 'o' as u8, 'o' as u8, 'l' as u8]
}

/// The name of the owned text-string type.
pub open spec fn string_name() -> Seq<u8> {
    seq!['S' as u8, 't' as u8, 'r' as u8, 'i' as u8, 'n' as u8, 'g' as u8]
}

/// The name of the growable sequence container.
pub open spec fn vec_name() -> Seq<u8> {
    seq!['V' as u8, 'e' as u8, 'c' as u8]
}

/// The name of the optional container.
pub open spec fn option_name() -> Seq<u8> {
    seq!['O' as u8, 'p' as u8, 't' as u8, 'i' as u8, 'o' as u8, 'n' as u8]
}

/// A declared type is a copyable primitive when it is a bare name from the
/// fixed-width list.
pub open spec fn is_primitive(t: TyModel) -> bool {
    t matches TyModel::Name(n) && is_primitive_name(n)
}

/// Compare two byte strings.
pub fn bytes_eq(a: &Vec<u8>, b: &Vec<u8>) -> (r: bool)
    ensures
        r == (a@ == b@),
{
    let r = a == b;
    proof {
        if a@ =~= b@ {
            assert(a@ == b@);
        }
    }
    r
}

/// Decide whether a head name is one of the copyable primitives.
pub fn is_primitive_head(h: &Vec<u8>) -> (r: bool)
    ensures
        r == is_primitive_name(h@),
{
    let candidates: Vec<Vec<u8>> = vec![
        vec!['i' as u8, '8' as u8],
        vec!['i' as u8, '1' as u8, '6' as u8],
        vec!['i' as u8, '3' as u8, '2' as u8],
        vec!['i' as u8, '6' as u8, '4' as u8],
        vec!['i' as u8, '1' as u8, '2' as u8, '8' as u8],
        vec!['u' as u8, '8' as u8],
        vec!['u' as u8, '1' as u8, '6' as u8],
        vec!['u' as u8, '3' as u8, '2' as u8],
        vec!['u' as u8, '6' as u8, '4' as u8],
        vec!['u' as u8, '1' as u8, '2' as u8, '8' as u8],
        vec!['f' as u8, '3' as u8, '2' as u8],
        vec!['f' as u8, '6' as u8, '4' as u8],
        vec!['b' as u8, 'o' as u8, 'o' as u8, 'l' as u8],
    ];
    let mut i: usize = 0;
    let mut found = false;
    while i < candidates.len()
        invariant
            i <= candidates.len(),
            candidates@.len() == 13,
            candidates@[0]@ == seq!['i' as u8, '8' as u8],
            candidates@[1]@ == seq!['i' as u8, '1' as u8, '6' as u8],
            candidates@[2]@ == seq!['i' as u8, '3' as u8, '2' as u8],
            candidates@[3]@ == seq!['i' as u8, '6' as u8, '4' as u8],
            candidates@[4]@ == seq!['i' as u8, '1' as u8, '2' as u8, '8' as u8],
            candidates@[5]@ == seq!['u' as u8, '8' as u8],
            candidates@[6]@ == seq!['u' as u8, '1' as u8, '6' as u8],
            candidates@[7]@ == seq!['u' as u8, '3' as u8, '2' as u8],
            candidates@[8]@ == seq!['u' as u8, '6' as u8, '4' as u8],
            candidates@[9]@ == seq!['u' as u8, '1' as u8, '2' as u8, '8' as u8],
            candidates@[10]@ == seq!['f' as u8, '3' as u8, '2' as u8],
            candidates@[11]@ == seq!['f' as u8, '6' as u8, '4' as u8],
            candidates@[12]@ == seq!['b' as u8, 'o' as u8, 'o' as u8, 'l' as u8],
            found == exists|k: int| 0 <= k < i && h@ == candidates@[k]@,
        decreases candidates.len() - i,
    {
        if bytes_eq(h, &candidates[i]) {
            found = true;
        }
        i += 1;
    }
    proof {
        if found {
            assert(is_primitive_name(h@));
        }
        if is_primitive_name(h@) {
            assert(exists|k: int| 0 <= k < 13 && h@ == candidates@[k]@);
        }
    }
    found
}

impl Ty {
    /// An owned copy of a declared type.
    pub fn duplicate(&self) -> (r: Ty)
        ensures
            r@ == self@,
        decreases self,
    {
        match self {
            Ty::Name(n) => Ty::Name(copy_bytes(n)),
            Ty::App(n, inner) => Ty::App(copy_bytes(n), Box::new(inner.duplicate())),
        }
    }
}

/// The descriptor of a complex scalar: it crosses the boundary by deep copy
/// through a pointer, in both directions, so neither side retains live
/// mutable aliasing of the value.
pub open spec fn complex_scalar_model(t: TyModel) -> DescriptorModel {
    DescriptorModel {
        native: t,
        shape: Shape::Scalar,
        inbound: ParamTyModel::ConstRef(t),
        outbound: ParamTyModel::MutRef(t),
        in_rule: InRule::CloneAssign,
        out_rule: OutRule::CloneStore,
    }
}

/// Resolution of a declared type once the override directive has been
/// applied. First match wins:
/// copyable primitive, then the enum mark, then text, then the two known
/// single-parameter containers (resolved recursively, shape from the outer
/// head, conversions from the inner type), then the composite fallback.
pub open spec fn resolve_ty_model(t: TyModel, mark_enum: bool) -> DescriptorModel
    decreases t,
{
    if is_primitive(t) {
        DescriptorModel {
            native: t,
            shape: Shape::Scalar,
            inbound: ParamTyModel::Value(t),
            outbound: ParamTyModel::MutRef(t),
            in_rule: InRule::CopyAssign,
            out_rule: if mark_enum {
                OutRule::CloneStore
            } else {
                OutRule::CopyStore
            },
        }
    } else if mark_enum {
        complex_scalar_model(t)
    } else if t.head() == string_name() {
        DescriptorModel {
            native: t,
            shape: Shape::Scalar,
            inbound: ParamTyModel::TextIn,
            outbound: ParamTyModel::TextOut,
            in_rule: InRule::DecodeText,
            out_rule: OutRule::EncodeText,
        }
    } else {
        match t {
            TyModel::Name(_) => complex_scalar_model(t),
            TyModel::App(h, inner) => {
                let d = resolve_ty_model(*inner, mark_enum);
                DescriptorModel {
                    native: t,
                    shape: if h == vec_name() {
                        Shape::Sequence
                    } else if h == option_name() {
                        Shape::Optional
                    } else {
                        Shape::Scalar
                    },
                    inbound: d.inbound,
                    outbound: d.outbound,
                    in_rule: d.in_rule,
                    out_rule: d.out_rule,
                }
            },
        }
    }
}

/// Resolution of a declared field type under its directives: the override
/// type replaces the declared one, then the shape rules apply.
pub open spec fn resolve_model(t: TyModel, dirs: DirectivesModel) -> DescriptorModel {
    match dirs.as_override {
        Some(o) => resolve_ty_model(o, dirs.mark_enum),
        None => resolve_ty_model(t, dirs.mark_enum),
    }
}

fn complex_scalar(t: &Ty) -> (d: Descriptor)
    ensures
        d@ == complex_scalar_model(t@),
{
    Descriptor {
        native: t.duplicate(),
        shape: Shape::Scalar,
        inbound: ParamTy::ConstRef(t.duplicate()),
        outbound: ParamTy::MutRef(t.duplicate()),
        in_rule: InRule::CloneAssign,
        out_rule: OutRule::CloneStore,
    }
}

/// Resolve a declared type, the override directive already applied.
pub fn resolve_ty(t: &Ty, mark_enum: bool) -> (d: Descriptor)
    ensures
        d@ == resolve_ty_model(t@, mark_enum),
    decreases t,
{
    let prim = match t {
        Ty::Name(h) => is_primitive_head(h),
        _ => false,
    };
    if prim {
        Descriptor {
            native: t.duplicate(),
            shape: Shape::Scalar,
            inbound: ParamTy::Value(t.duplicate()),
            outbound: ParamTy::MutRef(t.duplicate()),
            in_rule: InRule::CopyAssign,
            out_rule: if mark_enum {
                OutRule::CloneStore
            } else {
                OutRule::CopyStore
            },
        }
    } else if mark_enum {
        complex_scalar(t)
    } else if bytes_eq(t.head(), &vec!['S' as u8, 't' as u8, 'r' as u8, 'i' as u8, 'n' as u8, 'g' as u8]) {
        Descriptor {
            native: t.duplicate(),
            shape: Shape::Scalar,
            inbound: ParamTy::TextIn,
            outbound: ParamTy::TextOut,
            in_rule: InRule::DecodeText,
            out_rule: OutRule::EncodeText,
        }
    } else {
        match t {
            Ty::Name(_) => complex_scalar(t),
            Ty::App(h, inner) => {
                let d = resolve_ty(inner, mark_enum);
                let shape = if bytes_eq(h, &vec!['V' as u8, 'e' as u8, 'c' as u8]) {
                    Shape::Sequence
                } else if bytes_eq(
                    h,
                    &vec!['O' as u8, 'p' as u8, 't' as u8, 'i' as u8, 'o' as u8, 'n' as u8],
                ) {
                    Shape::Optional
                } else {
                    Shape::Scalar
                };
                Descriptor {
                    native: t.duplicate(),
                    shape,
                    inbound: d.inbound,
                    outbound: d.outbound,
                    in_rule: d.in_rule,
                    out_rule: d.out_rule,
                }
            },
        }
    }
}

/// Resolve a field's declared type under its directives to the one binding
/// descriptor that governs every operation emitted for the field.
pub fn resolve(t: &Ty, dirs: &Directives) -> (d: Descriptor)
    ensures
        d@ == resolve_model(t@, dirs@),
{
    match &dirs.as_override {
        Some(o) => resolve_ty(o, dirs.mark_enum),
        None => resolve_ty(t, dirs.mark_enum),
    }
}

} // verus!
