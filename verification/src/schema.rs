use vstd::prelude::*;

verus! {

/// A declared field type, reduced to what resolution inspects: the name of
/// the last path segment, and the first generic type argument when one is
/// present. `u8` is `Name`, `Vec<u64>` and `Option<String>` are `App`.
///
/// The tree is finite by construction, so resolution through container
/// layers always terminates: a self-referential chain of containers cannot
/// be expressed.
#[derive(Debug)]
pub enum Ty {
    /// A bare named type.
    Name(Vec<u8>),
    /// A named type applied to one inner type argument.
    App(Vec<u8>, Box<Ty>),
}

/// Mathematical model of a declared type.
pub enum TyModel {
    Name(Seq<u8>),
    App(Seq<u8>, Box<TyModel>),
}

pub open spec fn ty_model(t: Ty) -> TyModel
    decreases t,
{
    match t {
        Ty::Name(n) => TyModel::Name(n@),
        Ty::App(n, inner) => TyModel::App(n@, Box::new(ty_model(*inner))),
    }
}

impl View for Ty {
    type V = TyModel;

    open spec fn view(&self) -> TyModel {
        ty_model(*self)
    }
}

impl TyModel {
    /// The name that shape dispatch looks at: the outermost head.
    pub open spec fn head(self) -> Seq<u8> {
        match self {
            TyModel::Name(n) => n,
            TyModel::App(n, _) => n,
        }
    }
}

impl Ty {
    /// The name that shape dispatch looks at: the outermost head.
    pub fn head(&self) -> (r: &Vec<u8>)
        ensures
            r@ == self@.head(),
    {
        match self {
            Ty::Name(n) => n,
            Ty::App(n, _) => n,
        }
    }
}

/// Per-field generation directives, handed to the core already parsed.
///
/// `inbound_literal` and `custom_parser` are carried for the record but do
/// not take part in type resolution, which is driven by `as_override` and
/// `mark_enum` alone.
#[derive(Debug)]
pub struct Directives {
    /// Resolve using this override type instead of the declared one.
    pub as_override: Option<Ty>,
    /// Treat the field as a complex value that crosses the boundary by
    /// clone rather than by bitwise copy.
    pub mark_enum: bool,
    /// A literal inbound expression, verbatim source text.
    pub inbound_literal: Option<Vec<u8>>,
    /// A custom conversion override, verbatim source text.
    pub custom_parser: Option<Vec<u8>>,
}

/// Mathematical model of a field's directives.
pub struct DirectivesModel {
    pub as_override: Option<TyModel>,
    pub mark_enum: bool,
    pub inbound_literal: Option<Seq<u8>>,
    pub custom_parser: Option<Seq<u8>>,
}

impl View for Directives {
    type V = DirectivesModel;

    open spec fn view(&self) -> DirectivesModel {
        DirectivesModel {
            as_override: match self.as_override {
                Some(t) => Some(ty_model(t)),
                None => None,
            },
            mark_enum: self.mark_enum,
            inbound_literal: match self.inbound_literal {
                Some(l) => Some(l@),
                None => None,
            },
            custom_parser: match self.custom_parser {
                Some(p) => Some(p@),
                None => None,
            },
        }
    }
}

impl Directives {
    /// Directives of a field that carries no source attributes.
    pub fn none() -> (r: Directives)
        ensures
            r@ == (DirectivesModel {
                as_override: None,
                mark_enum: false,
                inbound_literal: None,
                custom_parser: None,
            }),
    {
        Directives { as_override: None, mark_enum: false, inbound_literal: None, custom_parser: None }
    }
}

/// A named field of a record, or the payload field of a variant.
#[derive(Debug)]
pub struct Field {
    pub name: Vec<u8>,
    pub ty: Ty,
    pub directives: Directives,
}

/// Mathematical model of a field.
pub struct FieldModel {
    pub name: Seq<u8>,
    pub ty: TyModel,
    pub directives: DirectivesModel,
}

impl View for Field {
    type V = FieldModel;

    open spec fn view(&self) -> FieldModel {
        FieldModel { name: self.name@, ty: self.ty@, directives: self.directives@ }
    }
}

/// A variant of a tagged union: a name and at most one payload field.
/// More than one payload field cannot be expressed, so the rule that such
/// variants are rejected at generation time holds by construction.
#[derive(Debug)]
pub struct Variant {
    pub name: Vec<u8>,
    pub payload: Option<Field>,
}

/// Mathematical model of a variant.
pub struct VariantModel {
    pub name: Seq<u8>,
    pub payload: Option<FieldModel>,
}

impl View for Variant {
    type V = VariantModel;

    open spec fn view(&self) -> VariantModel {
        VariantModel {
            name: self.name@,
            payload: match self.payload {
                Some(f) => Some(f@),
                None => None,
            },
        }
    }
}

/// The models of a list of byte-string names.
pub open spec fn names_model(ns: Seq<Vec<u8>>) -> Seq<Seq<u8>> {
    ns.map_values(|n: Vec<u8>| n@)
}

/// The models of a record's fields.
pub open spec fn fields_model(fields: Seq<Field>) -> Seq<FieldModel> {
    fields.map_values(|f: Field| f@)
}

/// The models of a union's variants.
pub open spec fn variants_model(vs: Seq<Variant>) -> Seq<VariantModel> {
    vs.map_values(|v: Variant| v@)
}

/// The models of the configured constructors.
pub open spec fn ctors_model(cs: Seq<Vec<Vec<u8>>>) -> Seq<Seq<Seq<u8>>> {
    cs.map_values(|c: Vec<Vec<u8>>| names_model(c@))
}

/// An entity of the schema: a record with named fields, or a tagged union
/// with named variants.
#[derive(Debug)]
pub enum Entity {
    Record { name: Vec<u8>, fields: Vec<Field> },
    Union { name: Vec<u8>, variants: Vec<Variant> },
}

/// Mathematical model of an entity.
pub enum EntityModel {
    Record { name: Seq<u8>, fields: Seq<FieldModel> },
    Union { name: Seq<u8>, variants: Seq<VariantModel> },
}

impl View for Entity {
    type V = EntityModel;

    open spec fn view(&self) -> EntityModel {
        match self {
            Entity::Record { name, fields } => EntityModel::Record {
                name: name@,
                fields: fields_model(fields@),
            },
            Entity::Union { name, variants } => EntityModel::Union {
                name: name@,
                variants: variants_model(variants@),
            },
        }
    }
}

impl EntityModel {
    /// The entity's unique name.
    pub open spec fn name(self) -> Seq<u8> {
        match self {
            EntityModel::Record { name, .. } => name,
            EntityModel::Union { name, .. } => name,
        }
    }
}

impl Entity {
    /// The entity's unique name.
    pub fn name(&self) -> (r: &Vec<u8>)
        ensures
            r@ == self@.name(),
    {
        match self {
            Entity::Record { name, .. } => name,
            Entity::Union { name, .. } => name,
        }
    }
}

/// Per-entity generation configuration, handed to the core already parsed:
/// which whole-entity operations to emit, and the named constructors, each
/// an ordered list of field names.
#[derive(Debug)]
pub struct Config {
    pub gen_default: bool,
    pub gen_clone: bool,
    pub gen_debug: bool,
    pub constructors: Vec<Vec<Vec<u8>>>,
}

/// Mathematical model of a configuration.
pub struct ConfigModel {
    pub gen_default: bool,
    pub gen_clone: bool,
    pub gen_debug: bool,
    pub constructors: Seq<Seq<Seq<u8>>>,
}

impl View for Config {
    type V = ConfigModel;

    open spec fn view(&self) -> ConfigModel {
        ConfigModel {
            gen_default: self.gen_default,
            gen_clone: self.gen_clone,
            gen_debug: self.gen_debug,
            constructors: ctors_model(self.constructors@),
        }
    }
}

impl Default for Config {
    /// Every whole-entity operation is on unless suppressed, and no named
    /// constructors are requested.
    fn default() -> (r: Config)
        ensures
            r@.gen_default && r@.gen_clone && r@.gen_debug,
            r@.constructors.len() == 0,
    {
        Config { gen_default: true, gen_clone: true, gen_debug: true, constructors: Vec::new() }
    }
}

} // verus!
