use vstd::prelude::*;
use vstd::string::*;
use crate::classify::{TypeExpr, category_of, classify};
use crate::ordering::{GenError, OrdKey, implement_traits, has_shared_serial, any_selected, orders_fields};
use crate::strategy::{
    GetMode, GetShape, get_shape, select_get, ClearScope, ClearStrategy, clear_strategy,
    select_clear, SetMode, SetShape, set_input, select_set,
};

verus! {

/// Where a generated method is visible.
pub enum Visibility {
    /// The method is not generated.
    Disabled,
    /// No visibility keyword: private to the module.
    Inherited,
    /// Visible in the crate.
    Crate,
    /// Public.
    Public,
    /// Visible in the given path.
    Custom(String),
}

/// How the name of a generated method is formed.
pub enum MethodName {
    /// The field's name between a prefix and a suffix.
    Derived { prefix: String, suffix: String },
    /// A name given outright.
    Explicit(String),
}

pub struct GetConf {
    pub vis: Visibility,
    pub name: MethodName,
    pub mode: GetMode,
}

pub struct SetConf {
    pub vis: Visibility,
    pub name: MethodName,
    pub mode: SetMode,
    /// Whether the caller hands an optional field its whole wrapper value.
    pub full_option: bool,
}

pub struct MutConf {
    pub vis: Visibility,
    pub name: MethodName,
}

pub struct ClrConf {
    pub vis: Visibility,
    pub name: MethodName,
    pub scope: ClearScope,
}

/// The direction in which one field takes part in ordering.
#[derive(Clone, Copy, Debug, PartialEq, Eq, Structural)]
pub enum Direction {
    Ascending,
    Descending,
}

/// A field's place in the synthesized ordering, if it has one.
pub struct OrdConf {
    pub serial: Option<u64>,
    pub direction: Direction,
}

/// The resolved configuration of one field.
pub struct FieldConf {
    pub get: GetConf,
    pub set: SetConf,
    pub mut_: MutConf,
    pub clr: ClrConf,
    pub skip: bool,
    pub ord: OrdConf,
}

/// One field of a record declaration.
pub struct FieldDecl {
    pub ident: String,
    pub ty: TypeExpr,
    pub conf: FieldConf,
}

/// A record declaration with its fields in declared order.
pub struct ContainerDef {
    pub name: String,
    pub fields: Vec<FieldDecl>,
}

/// The shape of one generated method.
pub enum MethodShape<'a> {
    Getter(GetShape<'a>),
    Setter(SetShape<'a>),
    /// A mutable reference to the field, untransformed.
    MutView,
    Clearer(ClearStrategy),
}

/// One generated method: the field it serves, how it is seen and named, and its shape.
pub struct MethodDesc<'a> {
    pub field: &'a String,
    pub vis: &'a Visibility,
    pub name: &'a MethodName,
    pub shape: MethodShape<'a>,
}

/// The full name of a method generated for the field named `field`.
pub open spec fn completed_name(n: MethodName, field: Seq<char>) -> Seq<char> {
    match n {
        MethodName::Derived { prefix, suffix } => prefix@ + field + suffix@,
        MethodName::Explicit(s) => s@,
    }
}

/// Spells out the name of a method generated for the field named `field`.
pub fn complete_name(n: &MethodName, field: &String) -> (r: String)
    ensures
        r@ == completed_name(*n, field@),
{
    match n {
        MethodName::Derived { prefix, suffix } => {
            let mut s = prefix.clone();
            s.append(field.as_str());
            s.append(suffix.as_str());
            s
        },
        MethodName::Explicit(s) => s.clone(),
    }
}

pub open spec fn one_if<'a>(b: bool, d: MethodDesc<'a>) -> Seq<MethodDesc<'a>> {
    if b {
        seq![d]
    } else {
        Seq::empty()
    }
}

/// The methods generated for one field, in the order get, set, mutable view, clear.
pub open spec fn field_methods<'a>(f: &'a FieldDecl) -> Seq<MethodDesc<'a>> {
    if f.conf.skip {
        Seq::empty()
    } else {
        let c = category_of(&f.ty);
        let conf = &f.conf;
        let clr = clear_strategy(c, conf.clr.scope);
        one_if(
            !(conf.get.vis is Disabled),
            MethodDesc {
                field: &f.ident,
                vis: &conf.get.vis,
                name: &conf.get.name,
                shape: MethodShape::Getter(get_shape(c, conf.get.mode)),
            },
        ) + one_if(
            !(conf.set.vis is Disabled),
            MethodDesc {
                field: &f.ident,
                vis: &conf.set.vis,
                name: &conf.set.name,
                shape: MethodShape::Setter(
                    SetShape { ret: conf.set.mode, input: set_input(c, conf.set.full_option) },
                ),
            },
        ) + one_if(
            !(conf.mut_.vis is Disabled),
            MethodDesc {
                field: &f.ident,
                vis: &conf.mut_.vis,
                name: &conf.mut_.name,
                shape: MethodShape::MutView,
            },
        ) + one_if(
            !(conf.clr.vis is Disabled) && clr != ClearStrategy::Unsupported,
            MethodDesc {
                field: &f.ident,
                vis: &conf.clr.vis,
                name: &conf.clr.name,
                shape: MethodShape::Clearer(clr),
            },
        )
    }
}

/// The methods generated for the first `n` fields, field after field.
pub open spec fn methods_upto<'a>(fs: &'a Vec<FieldDecl>, n: int) -> Seq<MethodDesc<'a>>
    decreases n,
{
    if n <= 0 {
        Seq::empty()
    } else {
        methods_upto(fs, n - 1) + field_methods(&fs[n - 1])
    }
}

fn is_disabled(v: &Visibility) -> (r: bool)
    ensures
        r == (*v is Disabled),
{
    matches!(v, Visibility::Disabled)
}

/// Assembles the methods of one field: none when it is skipped, else one for
/// each accessor that is not disabled, but no clear method where the field's
/// type has no clear strategy.
pub fn derive_property_for_field<'a>(field: &'a FieldDecl) -> (r: Vec<MethodDesc<'a>>)
    ensures
        r@ == field_methods(field),
{
    let mut out: Vec<MethodDesc<'a>> = Vec::new();
    if field.conf.skip {
        return out;
    }
    let c = classify(&field.ty);
    let conf = &field.conf;
    if !is_disabled(&conf.get.vis) {
        out.push(
            MethodDesc {
                field: &field.ident,
                vis: &conf.get.vis,
                name: &conf.get.name,
                shape: MethodShape::Getter(select_get(&c, conf.get.mode)),
            },
        );
    }
    if !is_disabled(&conf.set.vis) {
        out.push(
            MethodDesc {
                field: &field.ident,
                vis: &conf.set.vis,
                name: &conf.set.name,
                shape: MethodShape::Setter(select_set(&c, conf.set.mode, conf.set.full_option)),
            },
        );
    }
    if !is_disabled(&conf.mut_.vis) {
        out.push(
            MethodDesc {
                field: &field.ident,
                vis: &conf.mut_.vis,
                name: &conf.mut_.name,
                shape: MethodShape::MutView,
            },
        );
    }
    let clr = select_clear(&c, conf.clr.scope);
    if !is_disabled(&conf.clr.vis) && clr != ClearStrategy::Unsupported {
        out.push(
            MethodDesc {
                field: &field.ident,
                vis: &conf.clr.vis,
                name: &conf.clr.name,
                shape: MethodShape::Clearer(clr),
            },
        );
    }
    assert(out@ == field_methods(field));
    out
}

/// Everything generated for one record: its accessor methods, and the fields
/// that its equality and ordering compare, when any field carries a serial number.
pub struct Generated<'a> {
    pub methods: Vec<MethodDesc<'a>>,
    pub ordering: Option<Vec<OrdKey>>,
}

/// Generates the accessor methods of every field, in declared order, and the
/// equality and ordering of the record; fails when two ordered fields share a
/// serial number, and then nothing is generated.
pub fn derive_property<'a>(property: &'a ContainerDef) -> (r: Result<Generated<'a>, GenError>)
    ensures
        r is Err <==> has_shared_serial(property.fields@),
        r is Err ==> r->Err_0 == GenError::FatalAmbiguity,
        r matches Ok(g) ==> {
            &&& g.methods@ == methods_upto(&property.fields, property.fields@.len() as int)
            &&& (g.ordering is None <==> !any_selected(property.fields@))
            &&& (g.ordering matches Some(keys) ==> orders_fields(property.fields@, keys@))
        },
{
    let fs = &property.fields;
    let mut methods: Vec<MethodDesc<'a>> = Vec::new();
    let mut i: usize = 0;
    while i < fs.len()
        invariant
            i <= fs.len(),
            methods@ == methods_upto(fs, i as int),
        decreases fs.len() - i,
    {
        let mut more = derive_property_for_field(&fs[i]);
        methods.append(&mut more);
        i += 1;
    }
    match implement_traits(property) {
        Err(e) => Err(e),
        Ok(ordering) => Ok(Generated { methods, ordering }),
    }
}

/// The defaults that the global-default entry point establishes for every
/// accessor of every field.
pub struct AccessorDefaults {
    pub get: GetConf,
    pub set: SetConf,
    pub mut_: MutConf,
    pub clr: ClrConf,
}

/// The shape of the declaration that the global-default entry point is applied to.
pub struct ItemDecl {
    pub is_struct: bool,
    pub n_attrs: usize,
    pub has_semi: bool,
    pub unit_fields: bool,
    pub has_lt: bool,
    pub has_gt: bool,
    pub n_generic_params: usize,
    pub has_where: bool,
}

/// A bare unit struct: no attributes, no fields, no generics, no where clause.
pub open spec fn is_placeholder(item: ItemDecl) -> bool {
    &&& item.is_struct
    &&& item.n_attrs == 0
    &&& item.has_semi
    &&& item.unit_fields
    &&& !item.has_lt
    &&& !item.has_gt
    &&& item.n_generic_params == 0
    &&& !item.has_where
}

/// Accepts the given defaults when they are attached to a bare placeholder
/// declaration, and rejects the declaration otherwise.
pub fn property_default(input: AccessorDefaults, item: &ItemDecl) -> (r: Result<
    AccessorDefaults,
    GenError,
>)
    ensures
        is_placeholder(*item) ==> r == Ok::<AccessorDefaults, GenError>(input),
        !is_placeholder(*item) ==> r == Err::<AccessorDefaults, GenError>(GenError::Configuration),
{
    let raise_error = !item.is_struct || item.n_attrs != 0 || !item.has_semi || !item.unit_fields
        || item.has_lt || item.has_gt || item.n_generic_params != 0 || item.has_where;
    if raise_error {
        Err(GenError::Configuration)
    } else {
        Ok(input)
    }
}

} // verus!
