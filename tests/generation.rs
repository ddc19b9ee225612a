use property::classify::{classify, GenericArg, PathArgs, PathSegment, TypeCategory, TypeExpr};
use property::ordering::{
    compare_records, implement_traits, records_equal, Comparison, GenError, OrdKey,
};
use property::record::{
    complete_name, derive_property, derive_property_for_field, property_default,
    AccessorDefaults, ClrConf, ContainerDef, Direction, FieldConf, FieldDecl, GetConf, ItemDecl,
    MethodName, MethodShape, MutConf, OrdConf, SetConf, Visibility,
};
use property::strategy::{
    select_clear, select_get, select_set, ClearScope, ClearStrategy, GetMode, GetShape, SetInput,
    SetMode,
};

fn seg(name: &str, args: PathArgs) -> PathSegment {
    PathSegment { ident: name.to_string(), args }
}

fn named(name: &str) -> TypeExpr {
    TypeExpr::Path(vec![seg(name, PathArgs::Plain)])
}

fn generic(name: &str, args: Vec<TypeExpr>) -> TypeExpr {
    let args = args.into_iter().map(GenericArg::Type).collect();
    TypeExpr::Path(vec![seg(name, PathArgs::Angle(args))])
}

fn derived(prefix: &str) -> MethodName {
    MethodName::Derived { prefix: prefix.to_string(), suffix: String::new() }
}

fn conf(vis: fn() -> Visibility) -> FieldConf {
    FieldConf {
        get: GetConf { vis: vis(), name: derived(""), mode: GetMode::Auto },
        set: SetConf { vis: vis(), name: derived("set_"), mode: SetMode::MutableChain, full_option: false },
        mut_: MutConf { vis: vis(), name: derived("mut_") },
        clr: ClrConf { vis: vis(), name: derived("clear_"), scope: ClearScope::Auto },
        skip: false,
        ord: OrdConf { serial: None, direction: Direction::Ascending },
    }
}

fn field(name: &str, ty: TypeExpr) -> FieldDecl {
    FieldDecl { ident: name.to_string(), ty, conf: conf(|| Visibility::Public) }
}

fn ordered(name: &str, serial: u64, direction: Direction) -> FieldDecl {
    let mut f = field(name, named("u32"));
    f.conf.ord = OrdConf { serial: Some(serial), direction };
    f
}

fn placeholder() -> ItemDecl {
    ItemDecl {
        is_struct: true,
        n_attrs: 0,
        has_semi: true,
        unit_fields: true,
        has_lt: false,
        has_gt: false,
        n_generic_params: 0,
        has_where: false,
    }
}

fn defaults() -> AccessorDefaults {
    let c = conf(|| Visibility::Crate);
    AccessorDefaults { get: c.get, set: c.set, mut_: c.mut_, clr: c.clr }
}

#[test]
fn primitive_names_classify() {
    for n in ["f32", "f64", "i8", "i128", "isize", "u8", "u64", "usize"] {
        assert!(matches!(classify(&named(n)), TypeCategory::Number), "{}", n);
    }
    assert!(matches!(classify(&named("bool")), TypeCategory::Boolean));
    assert!(matches!(classify(&named("char")), TypeCategory::Character));
    assert!(matches!(classify(&named("String")), TypeCategory::Text));
    assert!(matches!(classify(&named("u9")), TypeCategory::UnhandledNamed(Some(n)) if n == "u9"));
}

#[test]
fn generic_and_array_types_classify() {
    let list = generic("Vec", vec![named("u8")]);
    match classify(&list) {
        TypeCategory::GrowableList(TypeExpr::Path(segs)) => assert_eq!(segs[0].ident, "u8"),
        _ => panic!("not a list"),
    }
    let opt = generic("Option", vec![named("String")]);
    assert!(matches!(classify(&opt), TypeCategory::Optional(args) if args.len() == 1));
    let arr = TypeExpr::Array(Box::new(named("i16")));
    assert!(matches!(classify(&arr), TypeCategory::FixedArray(TypeExpr::Path(_))));
    let bare_vec = named("Vec");
    assert!(matches!(classify(&bare_vec), TypeCategory::UnhandledNamed(Some(n)) if n == "Vec"));
    assert!(matches!(classify(&TypeExpr::Other), TypeCategory::UnhandledNamed(None)));
    assert!(matches!(classify(&TypeExpr::Path(vec![])), TypeCategory::UnhandledNamed(None)));
}

#[test]
fn qualified_path_is_named_by_last_segment() {
    let t = TypeExpr::Path(vec![
        seg("std", PathArgs::Plain),
        seg("collections", PathArgs::Plain),
        seg("HashMap", PathArgs::Angle(vec![GenericArg::Type(named("u8")), GenericArg::Type(named("u8"))])),
    ]);
    let c = classify(&t);
    assert!(matches!(c, TypeCategory::UnhandledNamed(Some(n)) if n == "HashMap"));
    assert_eq!(select_clear(&c, ClearScope::Auto), ClearStrategy::InvokeClear);
    assert!(matches!(select_get(&c, GetMode::Auto), GetShape::ByReference));
}

#[test]
fn number_field_gets_by_copy_and_clears_to_zero() {
    let t = named("i64");
    let c = classify(&t);
    assert!(matches!(select_get(&c, GetMode::Auto), GetShape::ByCopy));
    assert_eq!(select_clear(&c, ClearScope::Auto), ClearStrategy::ZeroOut);
}

#[test]
fn text_field_views_and_clears() {
    let t = named("String");
    let c = classify(&t);
    assert!(matches!(select_get(&c, GetMode::Auto), GetShape::AsTextView));
    assert_eq!(select_clear(&c, ClearScope::Auto), ClearStrategy::InvokeClear);
}

#[test]
fn list_setter_takes_sequence_of_elements() {
    let t = generic("Vec", vec![named("String")]);
    let c = classify(&t);
    for mode in [SetMode::MutableChain, SetMode::OwnedChain, SetMode::Void, SetMode::Replace] {
        for full in [false, true] {
            let s = select_set(&c, mode, full);
            assert_eq!(s.ret, mode);
            match s.input {
                SetInput::Sequence(TypeExpr::Path(segs)) => assert_eq!(segs[0].ident, "String"),
                _ => panic!("not a sequence setter"),
            }
        }
    }
    assert!(matches!(select_get(&c, GetMode::Auto), GetShape::AsSliceView(_)));
}

#[test]
fn optional_number_collapses_to_copy() {
    let t = generic("Option", vec![named("u8")]);
    let c = classify(&t);
    assert!(matches!(select_get(&c, GetMode::Auto), GetShape::ByCopy));
    let nested = generic("Option", vec![generic("Option", vec![named("char")])]);
    assert!(matches!(select_get(&classify(&nested), GetMode::Auto), GetShape::ByCopy));
    let text = generic("Option", vec![named("String")]);
    assert!(matches!(select_get(&classify(&text), GetMode::Auto), GetShape::AsOptionalReference(_)));
    let two = generic("Option", vec![named("u8"), named("u8")]);
    assert!(matches!(select_get(&classify(&two), GetMode::Auto), GetShape::AsOptionalReference(_)));
}

#[test]
fn explicit_get_mode_ignores_category() {
    let t = named("u8");
    let c = classify(&t);
    assert!(matches!(select_get(&c, GetMode::Ref), GetShape::ByReference));
    assert!(matches!(select_get(&c, GetMode::Clone), GetShape::ByClone));
    let s = named("String");
    assert!(matches!(select_get(&classify(&s), GetMode::Copy), GetShape::ByCopy));
}

#[test]
fn optional_setter_wraps_unless_full_option() {
    let t = generic("Option", vec![named("u8")]);
    let c = classify(&t);
    assert!(matches!(select_set(&c, SetMode::Void, false).input, SetInput::Wrapped(GenericArg::Type(_))));
    assert!(matches!(select_set(&c, SetMode::Void, true).input, SetInput::Direct));
    assert!(matches!(select_set(&classify(&named("u8")), SetMode::Replace, false).input, SetInput::Direct));
}

#[test]
fn array_clear_refills_elements() {
    let t = TypeExpr::Array(Box::new(named("u8")));
    let c = classify(&t);
    assert_eq!(select_clear(&c, ClearScope::Auto), ClearStrategy::RefillElementsWithDefault);
    assert_eq!(select_clear(&c, ClearScope::All), ClearStrategy::RefillElementsWithDefault);
    assert_eq!(select_clear(&c, ClearScope::OptionalOnly), ClearStrategy::Unsupported);
}

#[test]
fn clear_scopes_narrow_and_widen() {
    let opt = generic("Option", vec![named("u8")]);
    assert_eq!(select_clear(&classify(&opt), ClearScope::OptionalOnly), ClearStrategy::ToAbsent);
    assert_eq!(select_clear(&classify(&named("u8")), ClearScope::OptionalOnly), ClearStrategy::Unsupported);
    let custom = named("Widget");
    assert_eq!(select_clear(&classify(&custom), ClearScope::Auto), ClearStrategy::Unsupported);
    assert_eq!(select_clear(&classify(&custom), ClearScope::All), ClearStrategy::ToTypeDefault);
    assert_eq!(select_clear(&classify(&TypeExpr::Other), ClearScope::All), ClearStrategy::ToTypeDefault);
    assert_eq!(select_clear(&classify(&named("bool")), ClearScope::Auto), ClearStrategy::ToTypeDefault);
    assert_eq!(select_clear(&classify(&named("PathBuf")), ClearScope::Auto), ClearStrategy::InvokeClear);
}

#[test]
fn enabled_field_yields_four_methods() {
    let f = field("count", named("u32"));
    let ms = derive_property_for_field(&f);
    assert_eq!(ms.len(), 4);
    assert!(matches!(ms[0].shape, MethodShape::Getter(GetShape::ByCopy)));
    assert!(matches!(ms[1].shape, MethodShape::Setter(_)));
    assert!(matches!(ms[2].shape, MethodShape::MutView));
    assert!(matches!(ms[3].shape, MethodShape::Clearer(ClearStrategy::ZeroOut)));
    assert_eq!(complete_name(ms[1].name, ms[1].field), "set_count");
}

#[test]
fn skipped_field_yields_nothing() {
    let mut f = field("count", named("u32"));
    f.conf.skip = true;
    assert_eq!(derive_property_for_field(&f).len(), 0);
}

#[test]
fn disabled_and_unsupported_accessors_are_omitted() {
    let mut f = field("w", named("Widget"));
    let ms = derive_property_for_field(&f);
    assert_eq!(ms.len(), 3);
    assert!(matches!(ms[0].shape, MethodShape::Getter(GetShape::ByReference)));
    f.conf.get.vis = Visibility::Disabled;
    f.conf.mut_.vis = Visibility::Disabled;
    let ms = derive_property_for_field(&f);
    assert_eq!(ms.len(), 1);
    assert!(matches!(ms[0].shape, MethodShape::Setter(_)));
}

#[test]
fn explicit_method_name_is_kept() {
    let n = MethodName::Explicit("total".to_string());
    assert_eq!(complete_name(&n, &"count".to_string()), "total");
    let d = MethodName::Derived { prefix: "get_".to_string(), suffix: "_now".to_string() };
    assert_eq!(complete_name(&d, &"x".to_string()), "get_x_now");
}

#[test]
fn ordering_follows_serial_numbers() {
    let rec = ContainerDef {
        name: "R".to_string(),
        fields: vec![
            ordered("a", 2, Direction::Descending),
            ordered("b", 1, Direction::Ascending),
            ordered("c", 3, Direction::Ascending),
        ],
    };
    let keys = implement_traits(&rec).unwrap().unwrap();
    assert_eq!(
        keys,
        vec![
            OrdKey { index: 1, serial: 1, direction: Direction::Ascending },
            OrdKey { index: 0, serial: 2, direction: Direction::Descending },
            OrdKey { index: 2, serial: 3, direction: Direction::Ascending },
        ]
    );
    let eq = Some(Comparison::Equal);
    let less = Some(Comparison::Less);
    let greater = Some(Comparison::Greater);
    // b decides first.
    assert_eq!(compare_records(&keys, &vec![less, greater, less]), greater);
    // a is reversed when b is equal.
    assert_eq!(compare_records(&keys, &vec![less, eq, greater]), greater);
    // c decides last.
    assert_eq!(compare_records(&keys, &vec![eq, eq, less]), less);
    assert_eq!(compare_records(&keys, &vec![eq, eq, eq]), eq);
    assert!(records_equal(&keys, &vec![true, true, true]));
    assert!(!records_equal(&keys, &vec![true, true, false]));
    assert!(!records_equal(&keys, &vec![false, true, true]));
}

#[test]
fn no_serial_numbers_means_no_ordering() {
    let rec = ContainerDef { name: "R".to_string(), fields: vec![field("a", named("u8"))] };
    assert_eq!(implement_traits(&rec), Ok(None));
    let g = derive_property(&rec).ok().unwrap();
    assert_eq!(g.methods.len(), 4);
    assert!(g.ordering.is_none());
}

#[test]
fn shared_serial_number_aborts() {
    let rec = ContainerDef {
        name: "R".to_string(),
        fields: vec![
            ordered("a", 2, Direction::Ascending),
            field("b", named("u8")),
            ordered("c", 2, Direction::Descending),
        ],
    };
    assert_eq!(implement_traits(&rec), Err(GenError::FatalAmbiguity));
    assert!(matches!(derive_property(&rec), Err(GenError::FatalAmbiguity)));
}

#[test]
fn container_methods_follow_declared_order() {
    let mut skipped = field("s", named("u8"));
    skipped.conf.skip = true;
    let rec = ContainerDef {
        name: "R".to_string(),
        fields: vec![
            field("a", named("String")),
            skipped,
            ordered("c", 7, Direction::Ascending),
        ],
    };
    let g = derive_property(&rec).ok().unwrap();
    assert_eq!(g.methods.len(), 8);
    assert_eq!(g.methods[0].field, "a");
    assert_eq!(g.methods[4].field, "c");
    assert_eq!(g.ordering, Some(vec![OrdKey { index: 2, serial: 7, direction: Direction::Ascending }]));
}

#[test]
fn default_entry_point_accepts_placeholder() {
    let r = property_default(defaults(), &placeholder());
    assert!(matches!(r, Ok(d) if matches!(d.get.vis, Visibility::Crate)));
}

#[test]
fn default_entry_point_rejects_attributes_or_generics() {
    let mut item = placeholder();
    item.n_attrs = 1;
    assert!(matches!(property_default(defaults(), &item), Err(GenError::Configuration)));
    let mut item = placeholder();
    item.has_lt = true;
    item.has_gt = true;
    item.n_generic_params = 1;
    assert!(matches!(property_default(defaults(), &item), Err(GenError::Configuration)));
    let mut item = placeholder();
    item.unit_fields = false;
    item.has_semi = false;
    assert!(matches!(property_default(defaults(), &item), Err(GenError::Configuration)));
    let mut item = placeholder();
    item.is_struct = false;
    assert!(matches!(property_default(defaults(), &item), Err(GenError::Configuration)));
}
