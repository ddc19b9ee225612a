use vstd::prelude::*;
use crate::classify::{TypeExpr, GenericArg, TypeCategory, category_of, classify, name_is};

verus! {

/// How a getter is asked to return its field.
#[derive(Clone, Copy, Debug, PartialEq, Eq, Structural)]
pub enum GetMode {
    Auto,
    Ref,
    Copy,
    Clone,
}

/// The shape of a generated getter.
pub enum GetShape<'a> {
    ByReference,
    ByCopy,
    ByClone,
    AsTextView,
    /// A borrowed slice of the given element type.
    AsSliceView(&'a TypeExpr),
    /// An optional reference over the given argument list.
    AsOptionalReference(&'a Vec<GenericArg>),
}

/// The single argument of an optional wrapper, when there is exactly one and it is a type.
pub open spec fn single_type_arg<'a>(args: &'a Vec<GenericArg>) -> Option<&'a TypeExpr> {
    if args.len() == 1 {
        match &args[0] {
            GenericArg::Type(t) => Some(t),
            GenericArg::Other => None,
        }
    } else {
        None
    }
}

/// Whether a type's automatic getter returns by copy.
pub open spec fn auto_copies(t: TypeExpr) -> bool
    decreases t,
{
    match category_of(&t) {
        TypeCategory::Number | TypeCategory::Boolean | TypeCategory::Character => true,
        TypeCategory::Optional(args) => match single_type_arg(args) {
            Some(inner) => auto_copies(*inner),
            None => false,
        },
        _ => false,
    }
}

/// The getter shape of a category in automatic mode.
pub open spec fn auto_get_shape<'a>(c: TypeCategory<'a>) -> GetShape<'a> {
    match c {
        TypeCategory::Number | TypeCategory::Boolean | TypeCategory::Character => GetShape::ByCopy,
        TypeCategory::Text => GetShape::AsTextView,
        TypeCategory::FixedArray(e) => GetShape::AsSliceView(e),
        TypeCategory::GrowableList(e) => GetShape::AsSliceView(e),
        TypeCategory::Optional(args) => match single_type_arg(args) {
            Some(inner) => if auto_copies(*inner) {
                GetShape::ByCopy
            } else {
                GetShape::AsOptionalReference(args)
            },
            None => GetShape::AsOptionalReference(args),
        },
        TypeCategory::UnhandledNamed(_) => GetShape::ByReference,
    }
}

/// The getter shape for a category and a get mode: an explicit mode wins.
pub open spec fn get_shape<'a>(c: TypeCategory<'a>, mode: GetMode) -> GetShape<'a> {
    match mode {
        GetMode::Auto => auto_get_shape(c),
        GetMode::Ref => GetShape::ByReference,
        GetMode::Copy => GetShape::ByCopy,
        GetMode::Clone => GetShape::ByClone,
    }
}

fn single_type_arg_of<'a>(args: &'a Vec<GenericArg>) -> (r: Option<&'a TypeExpr>)
    ensures
        r == single_type_arg(args),
{
    if args.len() == 1 {
        match &args[0] {
            GenericArg::Type(t) => Some(t),
            GenericArg::Other => None,
        }
    } else {
        None
    }
}

/// Whether the automatic getter of `t` returns by copy.
pub fn copies_automatically(t: &TypeExpr) -> (r: bool)
    ensures
        r == auto_copies(*t),
    decreases t,
{
    match classify(t) {
        TypeCategory::Number | TypeCategory::Boolean | TypeCategory::Character => true,
        TypeCategory::Optional(args) => match single_type_arg_of(args) {
            Some(inner) => copies_automatically(inner),
            None => false,
        },
        _ => false,
    }
}

/// Selects the getter shape for a category and a get mode.
pub fn select_get<'a>(c: &TypeCategory<'a>, mode: GetMode) -> (r: GetShape<'a>)
    ensures
        r == get_shape(*c, mode),
{
    match mode {
        GetMode::Ref => GetShape::ByReference,
        GetMode::Copy => GetShape::ByCopy,
        GetMode::Clone => GetShape::ByClone,
        GetMode::Auto => match c {
            TypeCategory::Number | TypeCategory::Boolean | TypeCategory::Character => GetShape::ByCopy,
            TypeCategory::Text => GetShape::AsTextView,
            TypeCategory::FixedArray(e) => GetShape::AsSliceView(*e),
            TypeCategory::GrowableList(e) => GetShape::AsSliceView(*e),
            TypeCategory::Optional(args) => match single_type_arg_of(*args) {
                Some(inner) => if copies_automatically(inner) {
                    GetShape::ByCopy
                } else {
                    GetShape::AsOptionalReference(*args)
                },
                None => GetShape::AsOptionalReference(*args),
            },
            TypeCategory::UnhandledNamed(_) => GetShape::ByReference,
        },
    }
}

/// Which fields a clear method is generated for.
#[derive(Clone, Copy, Debug, PartialEq, Eq, Structural)]
pub enum ClearScope {
    /// The natural strategy of each category.
    Auto,
    /// Only optional fields, which are cleared to absent.
    OptionalOnly,
    /// Every field: one without a natural strategy is reset to its default.
    All,
}

/// What a generated clear method does to its field.
#[derive(Clone, Copy, Debug, PartialEq, Eq, Structural)]
pub enum ClearStrategy {
    ZeroOut,
    ToAbsent,
    ToTypeDefault,
    InvokeClear,
    RefillElementsWithDefault,
    Unsupported,
}

/// Identifiers of standard collection-like types that have a `clear` method.
pub open spec fn is_clearable_name(n: Seq<char>) -> bool {
    ||| n == "String"@
    ||| n == "PathBuf"@
    ||| n == "Vec"@
    ||| n == "VecDeque"@
    ||| n == "LinkedList"@
    ||| n == "HashMap"@
    ||| n == "BTreeMap"@
    ||| n == "HashSet"@
    ||| n == "BTreeSet"@
    ||| n == "BinaryHeap"@
}

/// The clear strategy that a category has of itself.
pub open spec fn natural_clear(c: TypeCategory) -> ClearStrategy {
    match c {
        TypeCategory::Number => ClearStrategy::ZeroOut,
        TypeCategory::Optional(_) => ClearStrategy::ToAbsent,
        TypeCategory::Boolean | TypeCategory::Character => ClearStrategy::ToTypeDefault,
        TypeCategory::Text | TypeCategory::GrowableList(_) => ClearStrategy::InvokeClear,
        TypeCategory::FixedArray(_) => ClearStrategy::RefillElementsWithDefault,
        TypeCategory::UnhandledNamed(Some(n)) => if is_clearable_name(n@) {
            ClearStrategy::InvokeClear
        } else {
            ClearStrategy::Unsupported
        },
        TypeCategory::UnhandledNamed(None) => ClearStrategy::Unsupported,
    }
}

/// The clear strategy for a category under a clear scope.
pub open spec fn clear_strategy(c: TypeCategory, scope: ClearScope) -> ClearStrategy {
    let natural = natural_clear(c);
    match scope {
        ClearScope::Auto => natural,
        ClearScope::OptionalOnly => if natural == ClearStrategy::ToAbsent {
            natural
        } else {
            ClearStrategy::Unsupported
        },
        ClearScope::All => if natural == ClearStrategy::Unsupported {
            ClearStrategy::ToTypeDefault
        } else {
            natural
        },
    }
}

fn is_clearable_ident(s: &String) -> (r: bool)
    ensures
        r == is_clearable_name(s@),
{
    name_is(s, "String") || name_is(s, "PathBuf") || name_is(s, "Vec") || name_is(s, "VecDeque")
        || name_is(s, "LinkedList") || name_is(s, "HashMap") || name_is(s, "BTreeMap")
        || name_is(s, "HashSet") || name_is(s, "BTreeSet") || name_is(s, "BinaryHeap")
}

/// The clear strategy that a category has of itself.
pub fn natural_clear_of(c: &TypeCategory) -> (r: ClearStrategy)
    ensures
        r == natural_clear(*c),
{
    match c {
        TypeCategory::Number => ClearStrategy::ZeroOut,
        TypeCategory::Optional(_) => ClearStrategy::ToAbsent,
        TypeCategory::Boolean | TypeCategory::Character => ClearStrategy::ToTypeDefault,
        TypeCategory::Text | TypeCategory::GrowableList(_) => ClearStrategy::InvokeClear,
        TypeCategory::FixedArray(_) => ClearStrategy::RefillElementsWithDefault,
        TypeCategory::UnhandledNamed(Some(n)) => if is_clearable_ident(n) {
            ClearStrategy::InvokeClear
        } else {
            ClearStrategy::Unsupported
        },
        TypeCategory::UnhandledNamed(None) => ClearStrategy::Unsupported,
    }
}

/// Selects the clear strategy for a category under a clear scope.
pub fn select_clear(c: &TypeCategory, scope: ClearScope) -> (r: ClearStrategy)
    ensures
        r == clear_strategy(*c, scope),
{
    let natural = natural_clear_of(c);
    match scope {
        ClearScope::Auto => natural,
        ClearScope::OptionalOnly => if natural == ClearStrategy::ToAbsent {
            natural
        } else {
            ClearStrategy::Unsupported
        },
        ClearScope::All => if natural == ClearStrategy::Unsupported {
            ClearStrategy::ToTypeDefault
        } else {
            natural
        },
    }
}

/// What a generated setter returns.
#[derive(Clone, Copy, Debug, PartialEq, Eq, Structural)]
pub enum SetMode {
    /// A mutable view of the record, for chaining.
    MutableChain,
    /// The record itself, consumed and handed back.
    OwnedChain,
    /// Nothing.
    Void,
    /// The value that the field held before.
    Replace,
}

/// What a generated setter accepts, and how it stores it.
pub enum SetInput<'a> {
    /// Any ordered sequence of values convertible to the element type; the
    /// field's contents are replaced by the converted values, in order.
    Sequence(&'a TypeExpr),
    /// A bare value convertible to the wrapper's argument, stored wrapped as present.
    Wrapped(&'a GenericArg),
    /// A value convertible to the declared type, stored as it is.
    Direct,
}

/// The shape of a generated setter.
pub struct SetShape<'a> {
    pub ret: SetMode,
    pub input: SetInput<'a>,
}

/// What a setter accepts for a category, given the full-option flag.
pub open spec fn set_input<'a>(c: TypeCategory<'a>, full_option: bool) -> SetInput<'a> {
    match c {
        TypeCategory::GrowableList(e) => SetInput::Sequence(e),
        TypeCategory::Optional(args) => if !full_option && args.len() == 1 {
            SetInput::Wrapped(&args[0])
        } else {
            SetInput::Direct
        },
        _ => SetInput::Direct,
    }
}

/// Selects the setter shape for a category, a set mode and the full-option flag.
pub fn select_set<'a>(c: &TypeCategory<'a>, mode: SetMode, full_option: bool) -> (r: SetShape<'a>)
    ensures
        r.ret == mode,
        r.input == set_input(*c, full_option),
{
    let input = match c {
        TypeCategory::GrowableList(e) => SetInput::Sequence(*e),
        TypeCategory::Optional(args) => if !full_option && args.len() == 1 {
            SetInput::Wrapped(&args[0])
        } else {
            SetInput::Direct
        },
        _ => SetInput::Direct,
    };
    SetShape { ret: mode, input }
}

} // verus!
