use vstd::prelude::*;

verus! {

/// A declared field type, reduced to what classification reads.
pub enum TypeExpr {
    /// A path type such as `u8`, `Vec<T>` or `std::collections::HashMap<K, V>`.
    Path(Vec<PathSegment>),
    /// A fixed-size array `[T; N]`, holding its element type.
    Array(Box<TypeExpr>),
    /// Any other type form (references, tuples, slices, ...).
    Other,
}

/// One segment of a path type.
pub struct PathSegment {
    pub ident: String,
    pub args: PathArgs,
}

/// The arguments written after a path segment.
pub enum PathArgs {
    Plain,
    Angle(Vec<GenericArg>),
    Paren,
}

/// One argument between angle brackets.
pub enum GenericArg {
    Type(TypeExpr),
    Other,
}

/// The closed semantic category of a declared field type.
pub enum TypeCategory<'a> {
    Number,
    Boolean,
    Character,
    Text,
    /// A fixed-size array, with its element type.
    FixedArray(&'a TypeExpr),
    /// A growable list, with its element type.
    GrowableList(&'a TypeExpr),
    /// An optional wrapper, with its full argument list.
    Optional(&'a Vec<GenericArg>),
    /// Any other type, with the identifier of its last path segment if there is one.
    UnhandledNamed(Option<&'a String>),
}

pub open spec fn is_number_name(n: Seq<char>) -> bool {
    ||| n == "f32"@
    ||| n == "f64"@
    ||| n == "i8"@
    ||| n == "i16"@
    ||| n == "i32"@
    ||| n == "i64"@
    ||| n == "i128"@
    ||| n == "isize"@
    ||| n == "u8"@
    ||| n == "u16"@
    ||| n == "u32"@
    ||| n == "u64"@
    ||| n == "u128"@
    ||| n == "usize"@
}

/// The first argument between angle brackets, when it is a type.
pub open spec fn first_type_arg<'a>(a: &'a PathArgs) -> Option<&'a TypeExpr> {
    match a {
        PathArgs::Angle(args) => if args.len() > 0 {
            match &args[0] {
                GenericArg::Type(t) => Some(t),
                GenericArg::Other => None,
            }
        } else {
            None
        },
        _ => None,
    }
}

/// The category of a declared type. The first path segment decides; a type
/// that is not recognised is named by its last path segment.
pub open spec fn category_of<'a>(t: &'a TypeExpr) -> TypeCategory<'a> {
    match t {
        TypeExpr::Path(segs) => if segs.len() == 0 {
            TypeCategory::UnhandledNamed(None)
        } else {
            let first = &segs[0];
            let n = first.ident@;
            if is_number_name(n) {
                TypeCategory::Number
            } else if n == "bool"@ {
                TypeCategory::Boolean
            } else if n == "char"@ {
                TypeCategory::Character
            } else if n == "String"@ {
                TypeCategory::Text
            } else if n == "Vec"@ && first_type_arg(&first.args) is Some {
                TypeCategory::GrowableList(first_type_arg(&first.args).unwrap())
            } else if n == "Option"@ && first.args is Angle {
                TypeCategory::Optional(&first.args->Angle_0)
            } else {
                TypeCategory::UnhandledNamed(Some(&segs[segs.len() - 1].ident))
            }
        },
        TypeExpr::Array(e) => TypeCategory::FixedArray(&**e),
        TypeExpr::Other => TypeCategory::UnhandledNamed(None),
    }
}

/// Whether `s` holds exactly the characters of `lit`.
pub fn name_is(s: &String, lit: &str) -> (r: bool)
    ensures
        r == (s@ == lit@),
{
    let l = lit.to_owned();
    *s == l
}

fn is_number_ident(s: &String) -> (r: bool)
    ensures
        r == is_number_name(s@),
{
    name_is(s, "f32") || name_is(s, "f64") || name_is(s, "i8") || name_is(s, "i16")
        || name_is(s, "i32") || name_is(s, "i64") || name_is(s, "i128") || name_is(s, "isize")
        || name_is(s, "u8") || name_is(s, "u16") || name_is(s, "u32") || name_is(s, "u64")
        || name_is(s, "u128") || name_is(s, "usize")
}

fn first_type_arg_of<'a>(a: &'a PathArgs) -> (r: Option<&'a TypeExpr>)
    ensures
        r == first_type_arg(a),
{
    match a {
        PathArgs::Angle(args) => if args.len() > 0 {
            match &args[0] {
                GenericArg::Type(t) => Some(t),
                GenericArg::Other => None,
            }
        } else {
            None
        },
        _ => None,
    }
}

/// Classifies a declared field type. Total: every type has a category.
pub fn classify<'a>(t: &'a TypeExpr) -> (r: TypeCategory<'a>)
    ensures
        r == category_of(t),
{
    match t {
        TypeExpr::Path(segs) => if segs.len() == 0 {
            TypeCategory::UnhandledNamed(None)
        } else {
            let first = &segs[0];
            let n = &first.ident;
            if is_number_ident(n) {
                TypeCategory::Number
            } else if name_is(n, "bool") {
                TypeCategory::Boolean
            } else if name_is(n, "char") {
                TypeCategory::Character
            } else if name_is(n, "String") {
                TypeCategory::Text
            } else {
                let elem = first_type_arg_of(&first.args);
                if name_is(n, "Vec") && elem.is_some() {
                    TypeCategory::GrowableList(elem.unwrap())
                } else if name_is(n, "Option") && matches!(&first.args, PathArgs::Angle(_)) {
                    match &first.args {
                        PathArgs::Angle(args) => TypeCategory::Optional(args),
                        _ => TypeCategory::UnhandledNamed(None),
                    }
                } else {
                    TypeCategory::UnhandledNamed(Some(&segs[segs.len() - 1].ident))
                }
            }
        },
        TypeExpr::Array(e) => TypeCategory::FixedArray(&**e),
        TypeExpr::Other => TypeCategory::UnhandledNamed(None),
    }
}

} // verus!
