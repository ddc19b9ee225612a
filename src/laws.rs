use vstd::prelude::*;
use crate::classify::{TypeExpr, TypeCategory, category_of};
use crate::strategy::{
    GetMode, GetShape, get_shape, single_type_arg, ClearScope, ClearStrategy, clear_strategy,
    SetInput, set_input,
};
use crate::record::{FieldDecl, field_methods};
use crate::ordering::{
    OrdKey, Comparison, orders_fields, selected, serial_of, equal_on, compare_from, oriented,
};

verus! {

/// A numeric field's automatic getter returns by value, and its automatic
/// clear sets it to zero.
pub proof fn number_field_copies_and_zeroes(t: TypeExpr)
    requires
        category_of(&t) is Number,
    ensures
        get_shape(category_of(&t), GetMode::Auto) == GetShape::ByCopy,
        clear_strategy(category_of(&t), ClearScope::Auto) == ClearStrategy::ZeroOut,
{
}

/// A text field's automatic getter returns a borrowed view of the text, and
/// its automatic clear empties the text.
pub proof fn text_field_views_and_empties(t: TypeExpr)
    requires
        category_of(&t) is Text,
    ensures
        get_shape(category_of(&t), GetMode::Auto) == GetShape::AsTextView,
        clear_strategy(category_of(&t), ClearScope::Auto) == ClearStrategy::InvokeClear,
{
}

/// A growable list's setter, whatever its return shape and option flag,
/// takes a sequence of values convertible to the list's element type and
/// replaces the contents with them.
pub proof fn list_setter_takes_sequence(t: TypeExpr, full_option: bool)
    requires
        category_of(&t) is GrowableList,
    ensures
        set_input(category_of(&t), full_option) == SetInput::Sequence(
            category_of(&t)->GrowableList_0,
        ),
{
}

/// An optional field around a single numeric type has an automatic getter
/// that returns by copy, not an optional reference.
pub proof fn optional_number_getter_copies(t: TypeExpr)
    requires
        category_of(&t) matches TypeCategory::Optional(args) && single_type_arg(args) matches Some(
            inner,
        ) && category_of(inner) is Number,
    ensures
        get_shape(category_of(&t), GetMode::Auto) == GetShape::ByCopy,
{
}

/// A fixed-size array's clear refills every element with its default value,
/// under the automatic and the widest scope alike.
pub proof fn array_clear_refills(t: TypeExpr)
    requires
        category_of(&t) is FixedArray,
    ensures
        clear_strategy(category_of(&t), ClearScope::Auto) == ClearStrategy::RefillElementsWithDefault,
        clear_strategy(category_of(&t), ClearScope::All) == ClearStrategy::RefillElementsWithDefault,
{
}

/// A skipped field yields no method, whatever its accessors' visibilities.
pub proof fn skipped_field_has_no_methods(f: FieldDecl)
    requires
        f.conf.skip,
    ensures
        field_methods(&f).len() == 0,
{
}

/// The synthesized equality holds exactly when every field that takes part
/// in ordering is equal, whatever the order in which the fields were declared.
pub proof fn equality_needs_every_ordered_field(
    fs: Seq<FieldDecl>,
    keys: Seq<OrdKey>,
    eqs: Seq<bool>,
)
    requires
        orders_fields(fs, keys),
        eqs.len() == fs.len(),
    ensures
        equal_on(keys, eqs) <==> forall|i: int| 0 <= i < fs.len() && selected(fs[i]) ==> eqs[i],
{
    if equal_on(keys, eqs) {
        assert forall|i: int| 0 <= i < fs.len() && selected(fs[i]) implies eqs[i] by {
            let k = choose|k: int| 0 <= k < keys.len() && keys[k].index == i;
            assert(eqs[keys[k].index as int]);
        };
    }
    if forall|i: int| 0 <= i < fs.len() && selected(fs[i]) ==> eqs[i] {
        assert forall|k: int| 0 <= k < keys.len() implies eqs[#[trigger] keys[k].index as int] by {
            assert(crate::ordering::key_of_field(fs, keys[k]));
        };
    }
}

/// The synthesized ordering looks first at the field of smallest serial
/// number, in its own direction, and that field decides unless it compares equal.
pub proof fn smallest_serial_decides_first(
    fs: Seq<FieldDecl>,
    keys: Seq<OrdKey>,
    cmps: Seq<Option<Comparison>>,
)
    requires
        orders_fields(fs, keys),
        keys.len() > 0,
    ensures
        forall|i: int| 0 <= i < fs.len() && selected(fs[i]) ==> keys[0].serial <= serial_of(fs[i]),
        oriented(cmps[keys[0].index as int], keys[0].direction) != Some(Comparison::Equal)
            ==> compare_from(keys, cmps, 0) == oriented(
            cmps[keys[0].index as int],
            keys[0].direction,
        ),
        oriented(cmps[keys[0].index as int], keys[0].direction) == Some(Comparison::Equal)
            ==> compare_from(keys, cmps, 0) == compare_from(keys, cmps, 1),
{
    assert forall|i: int| 0 <= i < fs.len() && selected(fs[i]) implies keys[0].serial <= serial_of(
        fs[i],
    ) by {
        let k = choose|k: int| 0 <= k < keys.len() && keys[k].index == i;
        assert(crate::ordering::key_of_field(fs, keys[k]));
        if k > 0 {
            assert(keys[0].serial < keys[k].serial);
        }
    };
}

} // verus!
