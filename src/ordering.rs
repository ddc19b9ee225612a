use vstd::prelude::*;
use crate::record::{ContainerDef, Direction, FieldDecl};

verus! {

/// Why generation of a record was abandoned.
#[derive(Clone, Copy, Debug, PartialEq, Eq, Structural)]
pub enum GenError {
    /// The global-default entry point was applied to something other than a
    /// bare placeholder declaration.
    Configuration,
    /// Two fields that take part in ordering share a serial number.
    FatalAmbiguity,
}

/// One field's place in the synthesized equality and ordering.
#[derive(Clone, Copy, Debug, PartialEq, Eq, Structural)]
pub struct OrdKey {
    /// The field's position in declared order.
    pub index: usize,
    pub serial: u64,
    pub direction: Direction,
}

pub open spec fn selected(f: FieldDecl) -> bool {
    f.conf.ord.serial is Some
}

pub open spec fn serial_of(f: FieldDecl) -> u64 {
    f.conf.ord.serial.unwrap()
}

/// Whether two fields that take part in ordering share a serial number.
pub open spec fn has_shared_serial(fs: Seq<FieldDecl>) -> bool {
    exists|i: int, j: int|
        0 <= i < j < fs.len() && selected(fs[i]) && selected(fs[j]) && serial_of(fs[i])
            == serial_of(fs[j])
}

pub open spec fn any_selected(fs: Seq<FieldDecl>) -> bool {
    exists|i: int| 0 <= i < fs.len() && selected(fs[i])
}

/// `key` names a field that takes part in ordering, with its serial number and direction.
pub open spec fn key_of_field(fs: Seq<FieldDecl>, key: OrdKey) -> bool {
    let i = key.index as int;
    &&& i < fs.len()
    &&& selected(fs[i])
    &&& key.serial == serial_of(fs[i])
    &&& key.direction == fs[i].conf.ord.direction
}

/// `keys` lists exactly the fields that take part in ordering, each with its
/// serial number and direction, by strictly ascending serial number.
pub open spec fn orders_fields(fs: Seq<FieldDecl>, keys: Seq<OrdKey>) -> bool {
    &&& forall|k: int| 0 <= k < keys.len() ==> key_of_field(fs, #[trigger] keys[k])
    &&& forall|a: int, b: int| 0 <= a < b < keys.len() ==> keys[a].serial < keys[b].serial
    &&& forall|i: int|
        0 <= i < fs.len() && selected(fs[i]) ==> exists|k: int|
            0 <= k < keys.len() && keys[k].index == i
}

/// Finds two fields that take part in ordering and share a serial number.
fn shares_serial(fs: &Vec<FieldDecl>) -> (r: bool)
    ensures
        r == has_shared_serial(fs@),
{
    let n = fs.len();
    let mut i: usize = 0;
    while i < n
        invariant
            n == fs.len(),
            i <= n,
            forall|a: int, b: int|
                0 <= a < b < n && a < i && selected(fs@[a]) && selected(fs@[b]) ==> serial_of(
                    fs@[a],
                ) != serial_of(fs@[b]),
        decreases n - i,
    {
        match fs[i].conf.ord.serial {
            Some(s) => {
                let mut j: usize = i + 1;
                while j < n
                    invariant
                        n == fs.len(),
                        i < j <= n,
                        fs@[i as int].conf.ord.serial == Some(s),
                        forall|b: int|
                            i < b < j && selected(fs@[b]) ==> serial_of(fs@[b]) != s,
                    decreases n - j,
                {
                    if fs[j].conf.ord.serial == Some(s) {
                        assert(selected(fs@[i as int]) && selected(fs@[j as int]));
                        return true;
                    }
                    j += 1;
                }
            },
            None => {},
        }
        i += 1;
    }
    false
}

/// Whether `s` lies above the bound, where no bound means no limit.
pub open spec fn above(bound: Option<u64>, s: u64) -> bool {
    match bound {
        Some(b) => s > b,
        None => true,
    }
}

/// The field of smallest serial number above the bound, among those that take part in ordering.
fn next_above(fs: &Vec<FieldDecl>, bound: Option<u64>) -> (r: Option<usize>)
    ensures
        match r {
            Some(x) => {
                &&& x < fs.len()
                &&& selected(fs@[x as int])
                &&& above(bound, serial_of(fs@[x as int]))
                &&& forall|j: int|
                    0 <= j < fs.len() && selected(fs@[j]) && above(bound, serial_of(fs@[j]))
                        ==> serial_of(fs@[x as int]) <= serial_of(fs@[j])
            },
            None => forall|j: int|
                0 <= j < fs.len() && selected(fs@[j]) ==> !above(bound, serial_of(fs@[j])),
        },
{
    let n = fs.len();
    let mut best: Option<usize> = None;
    let mut best_serial: u64 = 0;
    let mut i: usize = 0;
    while i < n
        invariant
            n == fs.len(),
            i <= n,
            match best {
                Some(x) => {
                    &&& x < i
                    &&& selected(fs@[x as int])
                    &&& serial_of(fs@[x as int]) == best_serial
                    &&& above(bound, best_serial)
                    &&& forall|j: int|
                        0 <= j < i && selected(fs@[j]) && above(bound, serial_of(fs@[j]))
                            ==> best_serial <= serial_of(fs@[j])
                },
                None => forall|j: int|
                    0 <= j < i && selected(fs@[j]) ==> !above(bound, serial_of(fs@[j])),
            },
        decreases n - i,
    {
        match fs[i].conf.ord.serial {
            Some(s) => {
                let is_above = match bound {
                    Some(b) => s > b,
                    None => true,
                };
                if is_above && (best.is_none() || s < best_serial) {
                    best = Some(i);
                    best_serial = s;
                }
            },
            None => {},
        }
        i += 1;
    }
    best
}

/// Collects the fields that take part in ordering, by ascending serial number.
fn ordered_keys(fs: &Vec<FieldDecl>) -> (r: Vec<OrdKey>)
    requires
        !has_shared_serial(fs@),
    ensures
        orders_fields(fs@, r@),
{
    let mut out: Vec<OrdKey> = Vec::new();
    let mut bound: Option<u64> = None;
    loop
        invariant
            !has_shared_serial(fs@),
            bound is None <==> out@.len() == 0,
            bound matches Some(b) ==> out@[out@.len() - 1].serial == b,
            forall|k: int| 0 <= k < out@.len() ==> key_of_field(fs@, #[trigger] out@[k]),
            forall|a: int, b: int| 0 <= a < b < out@.len() ==> out@[a].serial < out@[b].serial,
            forall|i: int|
                0 <= i < fs@.len() && selected(fs@[i]) && !above(bound, serial_of(fs@[i]))
                    ==> exists|k: int| 0 <= k < out@.len() && out@[k].index == i,
        decreases
            match bound {
                Some(b) => u64::MAX - b,
                None => u64::MAX + 1,
            },
    {
        match next_above(fs, bound) {
            None => {
                return out;
            },
            Some(x) => {
                let s = fs[x].conf.ord.serial.unwrap();
                let ghost prev = out@;
                out.push(OrdKey { index: x, serial: s, direction: fs[x].conf.ord.direction });
                assert forall|i: int|
                    0 <= i < fs@.len() && selected(fs@[i]) && !above(Some(s), serial_of(fs@[i]))
                        implies exists|k: int| 0 <= k < out@.len() && out@[k].index == i by {
                    if above(bound, serial_of(fs@[i])) {
                        if i != x as int {
                            if i < x as int {
                                assert(!(selected(fs@[i]) && selected(fs@[x as int])
                                    && serial_of(fs@[i]) == serial_of(fs@[x as int])));
                            } else {
                                assert(!(selected(fs@[x as int]) && selected(fs@[i])
                                    && serial_of(fs@[x as int]) == serial_of(fs@[i])));
                            }
                        }
                        assert(out@[prev.len() as int].index == i);
                    } else {
                        let k = choose|k: int| 0 <= k < prev.len() && prev[k].index == i;
                        assert(out@[k].index == i);
                    }
                };
                bound = Some(s);
            },
        }
    }
}

/// Synthesizes the equality and ordering of a record from the fields that
/// carry a serial number: nothing when none does, the fields by ascending
/// serial number otherwise, and an error when two share a serial number.
pub fn implement_traits(property: &ContainerDef) -> (r: Result<Option<Vec<OrdKey>>, GenError>)
    ensures
        r is Err <==> has_shared_serial(property.fields@),
        r is Err ==> r == Err::<Option<Vec<OrdKey>>, GenError>(GenError::FatalAmbiguity),
        r is Ok ==> (r->Ok_0 is None <==> !any_selected(property.fields@)),
        r matches Ok(Some(keys)) ==> orders_fields(property.fields@, keys@) && keys@.len() > 0,
{
    let fs = &property.fields;
    if shares_serial(fs) {
        return Err(GenError::FatalAmbiguity);
    }
    let keys = ordered_keys(fs);
    if keys.len() == 0 {
        assert(!any_selected(fs@)) by {
            if any_selected(fs@) {
                let i = choose|i: int| 0 <= i < fs@.len() && selected(fs@[i]);
                assert(exists|k: int| 0 <= k < keys@.len() && keys@[k].index == i);
            }
        };
        Ok(None)
    } else {
        assert(any_selected(fs@)) by {
            assert(0 <= keys@[0].index < fs@.len() && selected(fs@[keys@[0].index as int]));
        };
        Ok(Some(keys))
    }
}

/// The outcome of comparing one value with another.
#[derive(Clone, Copy, Debug, PartialEq, Eq, Structural)]
pub enum Comparison {
    Less,
    Equal,
    Greater,
}

/// A field's comparison as it counts for the record: reversed for a descending field.
pub open spec fn oriented(c: Option<Comparison>, d: Direction) -> Option<Comparison> {
    match d {
        Direction::Ascending => c,
        Direction::Descending => match c {
            Some(Comparison::Less) => Some(Comparison::Greater),
            Some(Comparison::Greater) => Some(Comparison::Less),
            other => other,
        },
    }
}

/// The synthesized ordering, from key `i` on: the first field, in key order,
/// whose oriented comparison is not `Equal` decides; `Equal` when none does.
/// `cmps[f]` is how field `f` of one record compares with that of the other
/// (`None` where the two are incomparable).
pub open spec fn compare_from(keys: Seq<OrdKey>, cmps: Seq<Option<Comparison>>, i: int) -> Option<
    Comparison,
>
    decreases keys.len() - i,
{
    if i < 0 || i >= keys.len() {
        Some(Comparison::Equal)
    } else {
        let c = oriented(cmps[keys[i].index as int], keys[i].direction);
        if c != Some(Comparison::Equal) {
            c
        } else {
            compare_from(keys, cmps, i + 1)
        }
    }
}

/// The synthesized equality: every field in `keys` is equal in the two records.
/// `eqs[f]` is whether field `f` is equal in the two records.
pub open spec fn equal_on(keys: Seq<OrdKey>, eqs: Seq<bool>) -> bool {
    forall|k: int| 0 <= k < keys.len() ==> eqs[#[trigger] keys[k].index as int]
}

fn orient(c: Option<Comparison>, d: Direction) -> (r: Option<Comparison>)
    ensures
        r == oriented(c, d),
{
    match d {
        Direction::Ascending => c,
        Direction::Descending => match c {
            Some(Comparison::Less) => Some(Comparison::Greater),
            Some(Comparison::Greater) => Some(Comparison::Less),
            other => other,
        },
    }
}

/// Evaluates the synthesized ordering of two records, given how each field compares.
pub fn compare_records(keys: &Vec<OrdKey>, cmps: &Vec<Option<Comparison>>) -> (r: Option<Comparison>)
    requires
        forall|k: int| 0 <= k < keys@.len() ==> (#[trigger] keys@[k]).index < cmps@.len(),
    ensures
        r == compare_from(keys@, cmps@, 0),
{
    let mut i: usize = 0;
    while i < keys.len()
        invariant
            i <= keys@.len(),
            forall|k: int| 0 <= k < keys@.len() ==> (#[trigger] keys@[k]).index < cmps@.len(),
            compare_from(keys@, cmps@, 0) == compare_from(keys@, cmps@, i as int),
        decreases keys.len() - i,
    {
        let key = keys[i];
        let c = orient(cmps[key.index], key.direction);
        if c != Some(Comparison::Equal) {
            return c;
        }
        i += 1;
    }
    Some(Comparison::Equal)
}

/// Evaluates the synthesized equality of two records, given which fields are equal.
pub fn records_equal(keys: &Vec<OrdKey>, eqs: &Vec<bool>) -> (r: bool)
    requires
        forall|k: int| 0 <= k < keys@.len() ==> (#[trigger] keys@[k]).index < eqs@.len(),
    ensures
        r == equal_on(keys@, eqs@),
{
    let mut i: usize = 0;
    while i < keys.len()
        invariant
            i <= keys@.len(),
            forall|k: int| 0 <= k < keys@.len() ==> (#[trigger] keys@[k]).index < eqs@.len(),
            forall|k: int| 0 <= k < i ==> eqs@[#[trigger] keys@[k].index as int],
        decreases keys.len() - i,
    {
        if !eqs[keys[i].index] {
            assert(!eqs@[keys@[i as int].index as int]);
            return false;
        }
        i += 1;
    }
    true
}

} // verus!
