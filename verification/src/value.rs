//! The property-list value tree: the target of serialization.
//!
//! A rendered job is a tree of booleans, integers, strings, arrays and
//! dictionaries. [`PlistValue`] is the executable tree; [`SpecValue`] is its
//! mathematical shadow, over which every rendering contract in this crate is
//! stated. A dictionary is kept as a sequence of key/value pairs so that the
//! rendered key order is deterministic and fully specified.

use vstd::prelude::*;

verus! {

broadcast use vstd::std_specs::vec::group_vec_axioms;

/// The mathematical model of a property-list value.
///
/// Dictionaries are modelled as sequences of pairs, not maps: the rendering
/// contracts fix the exact order in which keys are emitted.
pub enum SpecValue {
    Bool(bool),
    Int(int),
    Str(Seq<char>),
    Arr(Seq<SpecValue>),
    Dict(Seq<(Seq<char>, SpecValue)>),
}

/// An executable property-list value tree.
///
/// Only the value kinds that the `launchd` schema uses are represented:
/// booleans, integers, strings, arrays and dictionaries.
pub enum PlistValue {
    Boolean(bool),
    Integer(i64),
    String(String),
    Array(Vec<PlistValue>),
    Dictionary(Vec<(String, PlistValue)>),
}

/// The model of an executable value tree.
pub open spec fn spec_value_of(v: PlistValue) -> SpecValue
    decreases v, 1int,
{
    match v {
        PlistValue::Boolean(b) => SpecValue::Bool(b),
        PlistValue::Integer(i) => SpecValue::Int(i as int),
        PlistValue::String(s) => SpecValue::Str(s@),
        PlistValue::Array(items) => {
            proof {
                assert(decreases_to!(items => items@));
            }
            SpecValue::Arr(values_rep(items@))
        },
        PlistValue::Dictionary(pairs) => {
            proof {
                assert(decreases_to!(pairs => pairs@));
            }
            SpecValue::Dict(pairs_rep(pairs@))
        },
    }
}

/// The models of the elements of an array: `spec_value_of`, element by element.
pub open spec fn values_rep(items: Seq<PlistValue>) -> Seq<SpecValue>
    decreases items, 0int,
{
    if items.len() == 0 {
        Seq::empty()
    } else {
        seq![spec_value_of(items[0])] + values_rep(items.drop_first())
    }
}

/// The models of the entries of a dictionary: key view and value model, entry by entry.
pub open spec fn pairs_rep(pairs: Seq<(String, PlistValue)>) -> Seq<(Seq<char>, SpecValue)>
    decreases pairs, 0int,
{
    if pairs.len() == 0 {
        Seq::empty()
    } else {
        seq![(pairs[0].0@, spec_value_of(pairs[0].1))] + pairs_rep(pairs.drop_first())
    }
}

impl View for PlistValue {
    type V = SpecValue;

    open spec fn view(&self) -> SpecValue {
        spec_value_of(*self)
    }
}

/// A dictionary model: key/value pairs in their rendered order.
pub type SpecDict = Seq<(Seq<char>, SpecValue)>;

/// The value under key `k`, or `None` where no entry has key `k`. Where
/// several entries share a key — which no rendering of this crate produces —
/// the last one counts.
pub open spec fn dict_get(d: SpecDict, k: Seq<char>) -> Option<SpecValue>
    decreases d.len(),
{
    if d.len() == 0 {
        None
    } else if d.last().0 == k {
        Some(d.last().1)
    } else {
        dict_get(d.drop_last(), k)
    }
}

/// Whether some entry of `d` has key `k`.
pub open spec fn dict_has_key(d: SpecDict, k: Seq<char>) -> bool {
    dict_get(d, k) is Some
}

/// One optional dictionary entry: a singleton where the field is set, nothing where it is unset.
pub open spec fn opt_entry(key: Seq<char>, v: Option<SpecValue>) -> SpecDict {
    match v {
        Some(x) => seq![(key, x)],
        None => Seq::empty(),
    }
}

/// An optional boolean field, as an optional rendered value.
pub open spec fn opt_bool(v: Option<bool>) -> Option<SpecValue> {
    match v {
        Some(b) => Some(SpecValue::Bool(b)),
        None => None,
    }
}

/// An optional 32-bit unsigned field, as an optional rendered value.
pub open spec fn opt_u32(v: Option<u32>) -> Option<SpecValue> {
    match v {
        Some(x) => Some(SpecValue::Int(x as int)),
        None => None,
    }
}

/// An optional 8-bit unsigned field, as an optional rendered value.
pub open spec fn opt_u8(v: Option<u8>) -> Option<SpecValue> {
    match v {
        Some(x) => Some(SpecValue::Int(x as int)),
        None => None,
    }
}

/// An optional signed `nice`-style field, as an optional rendered value.
pub open spec fn opt_i8(v: Option<i8>) -> Option<SpecValue> {
    match v {
        Some(x) => Some(SpecValue::Int(x as int)),
        None => None,
    }
}

/// An optional string field, as an optional rendered value.
pub open spec fn opt_string(v: Option<String>) -> Option<SpecValue> {
    match v {
        Some(s) => Some(SpecValue::Str(s@)),
        None => None,
    }
}

/// A list of strings, rendered as a plist array of strings.
pub open spec fn str_arr(v: Seq<String>) -> SpecValue {
    SpecValue::Arr(v.map_values(|s: String| SpecValue::Str(s@)))
}

/// An optional list of strings, as an optional rendered value.
pub open spec fn opt_str_arr(v: Option<Vec<String>>) -> Option<SpecValue> {
    match v {
        Some(a) => Some(str_arr(a@)),
        None => None,
    }
}

/// Whether a key/value pair list holds each key at most once, keys compared
/// by view. The map-valued fields of this crate are pair lists, and a
/// rendered dictionary matches the written document structurally only when
/// its keys are unique: the wire format is keyed, so duplicate entries would
/// merge there.
pub open spec fn keys_unique<V>(m: Seq<(String, V)>) -> bool {
    forall|i: int, j: int| #![trigger m[i], m[j]] 0 <= i < j < m.len() ==> m[i].0@ != m[j].0@
}

/// String-to-string entries, rendered as dictionary entries in the given order.
pub open spec fn str_map_entries(m: Seq<(String, String)>) -> SpecDict {
    m.map_values(|p: (String, String)| (p.0@, SpecValue::Str(p.1@)))
}

/// String-to-boolean entries, rendered as dictionary entries in the given order.
pub open spec fn bool_map_entries(m: Seq<(String, bool)>) -> SpecDict {
    m.map_values(|p: (String, bool)| (p.0@, SpecValue::Bool(p.1)))
}

/// String-to-string-list entries, rendered as dictionary entries in the given order.
pub open spec fn str_arr_map_entries(m: Seq<(String, Vec<String>)>) -> SpecDict {
    m.map_values(|p: (String, Vec<String>)| (p.0@, str_arr(p.1@)))
}

/// The rendering of string-to-boolean entries determines them: equal rendered
/// dictionaries come only from entry lists of equal length holding, position
/// by position, equal keys and equal booleans.
pub proof fn lemma_bool_map_entries_injective(x: Seq<(String, bool)>, y: Seq<(String, bool)>)
    requires
        bool_map_entries(x) == bool_map_entries(y),
    ensures
        x.len() == y.len(),
        forall|i: int| 0 <= i < x.len() ==> (#[trigger] x[i]).0@ == y[i].0@ && x[i].1 == y[i].1,
{
    assert(bool_map_entries(x).len() == x.len());
    assert(bool_map_entries(y).len() == y.len());
    assert forall|i: int| 0 <= i < x.len() implies (#[trigger] x[i]).0@ == y[i].0@ && x[i].1
        == y[i].1 by {
        assert(bool_map_entries(x)[i] == bool_map_entries(y)[i]);
    }
}

/// `values_rep` has one model per element, in order.
pub proof fn lemma_values_rep_props(items: Seq<PlistValue>)
    ensures
        values_rep(items).len() == items.len(),
        forall|i: int| 0 <= i < items.len() ==> values_rep(items)[i] == spec_value_of(items[i]),
    decreases items.len(),
{
    if items.len() > 0 {
        lemma_values_rep_props(items.drop_first());
    }
}

/// `pairs_rep` has one entry per pair: the key view and the value model.
pub proof fn lemma_pairs_rep_props(pairs: Seq<(String, PlistValue)>)
    ensures
        pairs_rep(pairs).len() == pairs.len(),
        forall|i: int| 0 <= i < pairs.len() ==> pairs_rep(pairs)[i] == (
            pairs[i].0@,
            spec_value_of(pairs[i].1),
        ),
    decreases pairs.len(),
{
    if pairs.len() > 0 {
        lemma_pairs_rep_props(pairs.drop_first());
    }
}

/// Appending a pair appends its entry to the dictionary model.
pub proof fn lemma_pairs_rep_push(pairs: Seq<(String, PlistValue)>, e: (String, PlistValue))
    ensures
        pairs_rep(pairs.push(e)) == pairs_rep(pairs) + seq![(e.0@, spec_value_of(e.1))],
{
    lemma_pairs_rep_props(pairs.push(e));
    lemma_pairs_rep_props(pairs);
    assert(pairs_rep(pairs.push(e)) =~= pairs_rep(pairs) + seq![(e.0@, spec_value_of(e.1))]);
}

/// An empty dictionary prefix adds nothing.
pub broadcast proof fn lemma_empty_concat(s: SpecDict)
    ensures
        #[trigger] (Seq::<(Seq<char>, SpecValue)>::empty() + s) == s,
{
    assert(Seq::<(Seq<char>, SpecValue)>::empty() + s =~= s);
}

/// A lookup in a concatenation finds the entry in the right part first.
pub broadcast proof fn lemma_dict_get_concat(s: SpecDict, t: SpecDict, k: Seq<char>)
    ensures
        #[trigger] dict_get(s + t, k) == if dict_has_key(t, k) {
            dict_get(t, k)
        } else {
            dict_get(s, k)
        },
    decreases t.len(),
{
    if t.len() == 0 {
        assert(s + t =~= s);
    } else {
        assert((s + t).drop_last() =~= s + t.drop_last());
        assert((s + t).last() == t.last());
        lemma_dict_get_concat(s, t.drop_last(), k);
    }
}

/// A lookup in one optional entry hits exactly on its key.
pub broadcast proof fn lemma_opt_entry_get(key: Seq<char>, v: Option<SpecValue>, k: Seq<char>)
    ensures
        #[trigger] dict_get(opt_entry(key, v), k) == if k == key {
            v
        } else {
            None::<SpecValue>
        },
{
    match v {
        Some(x) => {
            let d = opt_entry(key, v);
            assert(d.len() == 1);
            assert(d.last() == (key, x));
            assert(dict_get(d.drop_last(), k) is None);
        },
        None => {
            assert(opt_entry(key, v).len() == 0);
        },
    }
}

/// Appends one entry with the given key and value.
pub(crate) fn push_entry(entries: &mut Vec<(String, PlistValue)>, key: &str, v: PlistValue)
    ensures
        pairs_rep(final(entries)@) == pairs_rep(old(entries)@) + seq![
            (key@, spec_value_of(v)),
        ],
{
    let k: String = key.to_owned();
    let ghost ve = (k, v);
    entries.push((k, v));
    proof {
        lemma_pairs_rep_push(old(entries)@, ve);
    }
}

/// Appends the entry for an optional boolean field, or nothing where it is unset.
pub(crate) fn push_opt_bool(entries: &mut Vec<(String, PlistValue)>, key: &str, v: Option<bool>)
    ensures
        pairs_rep(final(entries)@) == pairs_rep(old(entries)@) + opt_entry(key@, opt_bool(v)),
{
    match v {
        Some(b) => push_entry(entries, key, PlistValue::Boolean(b)),
        None => {
            proof {
                assert(pairs_rep(entries@) + opt_entry(key@, opt_bool(v)) =~= pairs_rep(
                    entries@,
                ));
            }
        },
    }
}

/// Appends the entry for an optional 32-bit unsigned field, or nothing where it is unset.
pub(crate) fn push_opt_u32(entries: &mut Vec<(String, PlistValue)>, key: &str, v: Option<u32>)
    ensures
        pairs_rep(final(entries)@) == pairs_rep(old(entries)@) + opt_entry(key@, opt_u32(v)),
{
    match v {
        Some(x) => push_entry(entries, key, PlistValue::Integer(x as i64)),
        None => {
            proof {
                assert(pairs_rep(entries@) + opt_entry(key@, opt_u32(v)) =~= pairs_rep(
                    entries@,
                ));
            }
        },
    }
}

/// Appends the entry for an optional 8-bit unsigned field, or nothing where it is unset.
pub(crate) fn push_opt_u8(entries: &mut Vec<(String, PlistValue)>, key: &str, v: Option<u8>)
    ensures
        pairs_rep(final(entries)@) == pairs_rep(old(entries)@) + opt_entry(key@, opt_u8(v)),
{
    match v {
        Some(x) => push_entry(entries, key, PlistValue::Integer(x as i64)),
        None => {
            proof {
                assert(pairs_rep(entries@) + opt_entry(key@, opt_u8(v)) =~= pairs_rep(
                    entries@,
                ));
            }
        },
    }
}

/// Appends the entry for an optional signed 8-bit field, or nothing where it is unset.
pub(crate) fn push_opt_i8(entries: &mut Vec<(String, PlistValue)>, key: &str, v: Option<i8>)
    ensures
        pairs_rep(final(entries)@) == pairs_rep(old(entries)@) + opt_entry(key@, opt_i8(v)),
{
    match v {
        Some(x) => push_entry(entries, key, PlistValue::Integer(x as i64)),
        None => {
            proof {
                assert(pairs_rep(entries@) + opt_entry(key@, opt_i8(v)) =~= pairs_rep(
                    entries@,
                ));
            }
        },
    }
}

/// Appends the entry for an optional pre-rendered field, or nothing where it
/// is unset. The ghost argument names the rendering that the value is known
/// to carry, so that the caller's chain stays in terms of its own spec.
pub(crate) fn push_opt_value(
    entries: &mut Vec<(String, PlistValue)>,
    key: &str,
    v: Option<PlistValue>,
    Ghost(exp): Ghost<Option<SpecValue>>,
)
    requires
        match v {
            Some(x) => exp matches Some(e) && spec_value_of(x) == e,
            None => exp is None,
        },
    ensures
        pairs_rep(final(entries)@) == pairs_rep(old(entries)@) + opt_entry(key@, exp),
{
    match v {
        Some(x) => push_entry(entries, key, x),
        None => {
            proof {
                assert(pairs_rep(entries@) + opt_entry(key@, exp) =~= pairs_rep(entries@));
            }
        },
    }
}

/// Appends the entry for an optional string field, or nothing where it is unset.
pub(crate) fn push_opt_string(
    entries: &mut Vec<(String, PlistValue)>,
    key: &str,
    v: &Option<String>,
)
    ensures
        pairs_rep(final(entries)@) == pairs_rep(old(entries)@) + opt_entry(key@, opt_string(*v)),
{
    match v {
        Some(s) => push_entry(entries, key, PlistValue::String(s.clone())),
        None => {
            proof {
                assert(pairs_rep(entries@) + opt_entry(key@, opt_string(*v)) =~= pairs_rep(
                    entries@,
                ));
            }
        },
    }
}

/// Renders a list of strings as a plist array of strings.
pub(crate) fn str_vec_value(v: &Vec<String>) -> (r: PlistValue)
    ensures
        r@ == str_arr(v@),
{
    let mut items: Vec<PlistValue> = Vec::new();
    let mut i: usize = 0;
    while i < v.len()
        invariant
            i <= v.len(),
            items@.len() == i,
            forall|j: int| 0 <= j < i ==> spec_value_of(items@[j]) == SpecValue::Str(v@[j]@),
        decreases v.len() - i,
    {
        items.push(PlistValue::String(v[i].clone()));
        i = i + 1;
    }
    proof {
        lemma_values_rep_props(items@);
        assert(values_rep(items@) =~= v@.map_values(|s: String| SpecValue::Str(s@)));
    }
    PlistValue::Array(items)
}

/// Appends the entry for an optional string-list field, or nothing where it is unset.
pub(crate) fn push_opt_str_vec(
    entries: &mut Vec<(String, PlistValue)>,
    key: &str,
    v: &Option<Vec<String>>,
)
    ensures
        pairs_rep(final(entries)@) == pairs_rep(old(entries)@) + opt_entry(key@, opt_str_arr(*v)),
{
    match v {
        Some(a) => {
            let av = str_vec_value(a);
            push_entry(entries, key, av);
        },
        None => {
            proof {
                assert(pairs_rep(entries@) + opt_entry(key@, opt_str_arr(*v)) =~= pairs_rep(
                    entries@,
                ));
            }
        },
    }
}

/// Renders string-to-string entries as a plist dictionary.
pub(crate) fn str_map_value(m: &Vec<(String, String)>) -> (r: PlistValue)
    ensures
        r@ == SpecValue::Dict(str_map_entries(m@)),
{
    let mut entries: Vec<(String, PlistValue)> = Vec::new();
    let mut i: usize = 0;
    while i < m.len()
        invariant
            i <= m.len(),
            entries@.len() == i,
            forall|j: int| 0 <= j < i ==> entries@[j].0@ == m@[j].0@ && spec_value_of(
                #[trigger] entries@[j].1,
            ) == SpecValue::Str(m@[j].1@),
        decreases m.len() - i,
    {
        let pair = (m[i].0.clone(), PlistValue::String(m[i].1.clone()));
        entries.push(pair);
        i = i + 1;
    }
    proof {
        lemma_pairs_rep_props(entries@);
        assert(pairs_rep(entries@) =~= str_map_entries(m@));
    }
    PlistValue::Dictionary(entries)
}

/// Renders string-to-boolean entries as a plist dictionary.
pub(crate) fn bool_map_value(m: &Vec<(String, bool)>) -> (r: PlistValue)
    ensures
        r@ == SpecValue::Dict(bool_map_entries(m@)),
{
    let mut entries: Vec<(String, PlistValue)> = Vec::new();
    let mut i: usize = 0;
    while i < m.len()
        invariant
            i <= m.len(),
            entries@.len() == i,
            forall|j: int| 0 <= j < i ==> entries@[j].0@ == m@[j].0@ && spec_value_of(
                #[trigger] entries@[j].1,
            ) == SpecValue::Bool(m@[j].1),
        decreases m.len() - i,
    {
        let pair = (m[i].0.clone(), PlistValue::Boolean(m[i].1));
        entries.push(pair);
        i = i + 1;
    }
    proof {
        lemma_pairs_rep_props(entries@);
        assert(pairs_rep(entries@) =~= bool_map_entries(m@));
    }
    PlistValue::Dictionary(entries)
}

/// Renders string-to-string-list entries as a plist dictionary of arrays.
pub(crate) fn str_arr_map_value(m: &Vec<(String, Vec<String>)>) -> (r: PlistValue)
    ensures
        r@ == SpecValue::Dict(str_arr_map_entries(m@)),
{
    let mut entries: Vec<(String, PlistValue)> = Vec::new();
    let mut i: usize = 0;
    while i < m.len()
        invariant
            i <= m.len(),
            entries@.len() == i,
            forall|j: int| 0 <= j < i ==> entries@[j].0@ == m@[j].0@ && spec_value_of(
                #[trigger] entries@[j].1,
            ) == str_arr(m@[j].1@),
        decreases m.len() - i,
    {
        let av = str_vec_value(&m[i].1);
        let pair = (m[i].0.clone(), av);
        entries.push(pair);
        i = i + 1;
    }
    proof {
        lemma_pairs_rep_props(entries@);
        assert(pairs_rep(entries@) =~= str_arr_map_entries(m@));
    }
    PlistValue::Dictionary(entries)
}

} // verus!
