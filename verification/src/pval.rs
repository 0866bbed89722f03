use vstd::prelude::*;

verus! {

/// Property-list values, as far as the shim reads and writes them: strings,
/// signed integers, booleans, byte blobs, arrays, and dictionaries whose
/// entries keep their insertion order.
#[derive(Debug)]
pub enum PValue {
    Str(String),
    Int(i64),
    Bool(bool),
    Data(Vec<u8>),
    Arr(Vec<PValue>),
    Dict(Vec<(String, PValue)>),
}

/// The entry sequence of a dictionary value; empty for every other value.
pub open spec fn dict_entries(v: PValue) -> Seq<(String, PValue)> {
    match v {
        PValue::Dict(entries) => entries@,
        _ => Seq::empty(),
    }
}

/// The value stored under `key`: the first entry whose key matches, as the
/// plist dictionary reports it.
pub open spec fn dict_get_spec(entries: Seq<(String, PValue)>, key: Seq<char>) -> Option<PValue>
    decreases entries.len(),
{
    if entries.len() == 0 {
        None
    } else if entries[0].0@ == key {
        Some(entries[0].1)
    } else {
        dict_get_spec(entries.drop_first(), key)
    }
}

/// Looking a key up in a dictionary value.
pub open spec fn pv_get(v: PValue, key: Seq<char>) -> Option<PValue> {
    dict_get_spec(dict_entries(v), key)
}

/// Relies on str's `==`: two string slices are equal exactly when their
/// character sequences are (UTF-8 encoding is one-to-one).
#[verifier::external_body]
pub fn str_eq(a: &str, b: &str) -> (r: bool)
    ensures
        r == (a@ == b@),
{
    a == b
}

proof fn lemma_dict_get_spec_skip(entries: Seq<(String, PValue)>, key: Seq<char>, i: int)
    requires
        0 <= i < entries.len(),
        entries[i].0@ != key,
    ensures
        dict_get_spec(entries.skip(i), key) == dict_get_spec(entries.skip(i + 1), key),
{
    assert(entries.skip(i).len() > 0);
    assert(entries.skip(i)[0] == entries[i]);
    assert(entries.skip(i).drop_first() =~= entries.skip(i + 1));
}

/// Finds the first entry whose key equals `key`, as the real dictionary would.
pub fn dict_get<'a>(entries: &'a Vec<(String, PValue)>, key: &str) -> (r: Option<&'a PValue>)
    ensures
        match r {
            Some(v) => dict_get_spec(entries@, key@) == Some(*v),
            None => dict_get_spec(entries@, key@) is None,
        },
{
    proof {
        assert(entries@.skip(0) =~= entries@);
    }
    let n = entries.len();
    for i in 0..n
        invariant
            n == entries@.len(),
            dict_get_spec(entries@, key@) == dict_get_spec(entries@.skip(i as int), key@),
            forall|j: int| 0 <= j < i ==> (#[trigger] entries@[j].0@) != key@,
    {
        if str_eq(entries[i].0.as_str(), key) {
            proof {
                assert(entries@.skip(i as int)[0] == entries@[i as int]);
            }
            return Some(&entries[i].1);
        }
        proof {
            lemma_dict_get_spec_skip(entries@, key@, i as int);
        }
    }
    proof {
        assert(entries@.skip(n as int) =~= Seq::<(String, PValue)>::empty());
    }
    None
}

/// First match wins: the entry at `i` is the one `dict_get_spec` returns when
/// no earlier entry has the same key.
pub proof fn lemma_dict_get_at(entries: Seq<(String, PValue)>, key: Seq<char>, i: int)
    requires
        0 <= i < entries.len(),
        entries[i].0@ == key,
        forall|j: int| 0 <= j < i ==> (#[trigger] entries[j].0@) != key,
    ensures
        dict_get_spec(entries, key) == Some(entries[i].1),
    decreases i,
{
    if i == 0 {
    } else {
        lemma_dict_get_at(entries.drop_first(), key, i - 1);
    }
}

/// The string stored under `key`, when the dictionary holds one there.
pub open spec fn pv_get_str(v: PValue, key: Seq<char>) -> Option<Seq<char>> {
    match pv_get(v, key) {
        Some(PValue::Str(s)) => Some(s@),
        _ => None,
    }
}

/// Reads the string under `key` of a dictionary value, if there is one.
pub fn get_str<'a>(v: &'a PValue, key: &str) -> (r: Option<&'a String>)
    ensures
        match r {
            Some(s) => pv_get_str(*v, key@) == Some(s@),
            None => pv_get_str(*v, key@) is None,
        },
{
    match v {
        PValue::Dict(entries) => {
            match dict_get(entries, key) {
                Some(PValue::Str(s)) => Some(s),
                _ => None,
            }
        },
        _ => None,
    }
}

broadcast use vstd::std_specs::vec::group_vec_axioms;

/// Deep picture of a property-list value: strings as character sequences,
/// integers as mathematical integers, blobs as byte sequences, containers as
/// sequences.
pub enum PSpec {
    Str(Seq<char>),
    Int(int),
    Bool(bool),
    Data(Seq<u8>),
    Arr(Seq<PSpec>),
    Dict(Seq<(Seq<char>, PSpec)>),
}

/// The deep picture of a value.
pub open spec fn pv_model(v: PValue) -> PSpec
    decreases v,
{
    match v {
        PValue::Str(s) => PSpec::Str(s@),
        PValue::Int(i) => PSpec::Int(i as int),
        PValue::Bool(b) => PSpec::Bool(b),
        PValue::Data(d) => PSpec::Data(d@),
        PValue::Arr(items) => PSpec::Arr(arr_model(items@)),
        PValue::Dict(entries) => PSpec::Dict(dict_model(entries@)),
    }
}

/// The deep pictures of an array's items, in order.
pub open spec fn arr_model(items: Seq<PValue>) -> Seq<PSpec>
    decreases items,
{
    if items.len() == 0 {
        Seq::empty()
    } else {
        seq![pv_model(items[0])] + arr_model(items.drop_first())
    }
}

/// The deep pictures of a dictionary's entries, in order.
pub open spec fn dict_model(entries: Seq<(String, PValue)>) -> Seq<(Seq<char>, PSpec)>
    decreases entries,
{
    if entries.len() == 0 {
        Seq::empty()
    } else {
        seq![(entries[0].0@, pv_model(entries[0].1))] + dict_model(entries.drop_first())
    }
}

/// The value stored under `key` of deep dictionary entries, first match.
pub open spec fn ps_get(entries: Seq<(Seq<char>, PSpec)>, key: Seq<char>) -> Option<PSpec>
    decreases entries.len(),
{
    if entries.len() == 0 {
        None
    } else if entries[0].0 == key {
        Some(entries[0].1)
    } else {
        ps_get(entries.drop_first(), key)
    }
}

/// The string stored under `key` of a deep dictionary, when there is one.
pub open spec fn ps_get_str(m: PSpec, key: Seq<char>) -> Option<Seq<char>> {
    match m {
        PSpec::Dict(entries) => match ps_get(entries, key) {
            Some(PSpec::Str(s)) => Some(s),
            _ => None,
        },
        _ => None,
    }
}

/// No key repeats among deep dictionary entries.
pub open spec fn distinct_keys(entries: Seq<(Seq<char>, PSpec)>) -> bool {
    forall|i: int, j: int|
        0 <= i < j < entries.len() ==> (#[trigger] entries[i].0) != (#[trigger] entries[j].0)
}

/// A well-formed deep value: every dictionary anywhere inside it has distinct
/// keys, as every dictionary a property list can hold does.
pub open spec fn ps_wf(m: PSpec) -> bool
    decreases m,
{
    match m {
        PSpec::Arr(items) => ps_all_wf(items),
        PSpec::Dict(entries) => distinct_keys(entries) && ps_entries_wf(entries),
        _ => true,
    }
}

/// Every item is well formed.
pub open spec fn ps_all_wf(items: Seq<PSpec>) -> bool
    decreases items,
{
    if items.len() == 0 {
        true
    } else {
        ps_wf(items[0]) && ps_all_wf(items.drop_first())
    }
}

/// Every entry's value is well formed.
pub open spec fn ps_entries_wf(entries: Seq<(Seq<char>, PSpec)>) -> bool
    decreases entries,
{
    if entries.len() == 0 {
        true
    } else {
        ps_wf(entries[0].1) && ps_entries_wf(entries.drop_first())
    }
}

/// A deep value that is a string, an integer or a data blob.
pub open spec fn ps_prim(m: PSpec) -> bool {
    m is Str || m is Int || m is Data
}

/// A flat dictionary: distinct keys, every value a string, an integer or a
/// data blob.
pub open spec fn ps_flat_dict(m: PSpec) -> bool {
    &&& m is Dict
    &&& (m matches PSpec::Dict(entries) ==> distinct_keys(entries) && forall|i: int|
        0 <= i < entries.len() ==> ps_prim(#[trigger] entries[i].1))
}

/// A flat dictionary is well formed.
pub proof fn lemma_flat_dict_wf(m: PSpec)
    requires
        ps_flat_dict(m),
    ensures
        ps_wf(m),
{
    match m {
        PSpec::Dict(entries) => {
            lemma_prim_entries_wf(entries);
        },
        _ => {},
    }
}

proof fn lemma_prim_entries_wf(entries: Seq<(Seq<char>, PSpec)>)
    requires
        forall|i: int| 0 <= i < entries.len() ==> ps_prim(#[trigger] entries[i].1),
    ensures
        ps_entries_wf(entries),
    decreases entries.len(),
{
    if entries.len() > 0 {
        assert(forall|i: int|
            0 <= i < entries.drop_first().len() ==> ps_prim(
                #[trigger] entries.drop_first()[i].1,
            ));
        lemma_prim_entries_wf(entries.drop_first());
        let v = entries[0].1;
        assert(ps_prim(v));
        assert(ps_wf(v)) by {
            if v is Str {
            } else if v is Int {
            } else {
                assert(v is Data);
            }
        };
    }
}

/// The deep entries mirror the entries one for one.
pub proof fn lemma_dict_model_index(entries: Seq<(String, PValue)>)
    ensures
        dict_model(entries).len() == entries.len(),
        forall|i: int|
            0 <= i < entries.len() ==> #[trigger] dict_model(entries)[i] == (
                entries[i].0@,
                pv_model(entries[i].1),
            ),
    decreases entries.len(),
{
    if entries.len() > 0 {
        lemma_dict_model_index(entries.drop_first());
        assert(forall|i: int|
            1 <= i < entries.len() ==> #[trigger] dict_model(entries)[i] == dict_model(
                entries.drop_first(),
            )[i - 1]);
    }
}

/// The deep items mirror the items one for one.
pub proof fn lemma_arr_model_index(items: Seq<PValue>)
    ensures
        arr_model(items).len() == items.len(),
        forall|i: int|
            0 <= i < items.len() ==> #[trigger] arr_model(items)[i] == pv_model(items[i]),
    decreases items.len(),
{
    if items.len() > 0 {
        lemma_arr_model_index(items.drop_first());
        assert(forall|i: int|
            1 <= i < items.len() ==> #[trigger] arr_model(items)[i] == arr_model(
                items.drop_first(),
            )[i - 1]);
    }
}

proof fn lemma_dict_model_get(entries: Seq<(String, PValue)>, key: Seq<char>)
    ensures
        ps_get(dict_model(entries), key) == match dict_get_spec(entries, key) {
            Some(v) => Some(pv_model(v)),
            None => None::<PSpec>,
        },
    decreases entries.len(),
{
    if entries.len() > 0 {
        lemma_dict_model_get(entries.drop_first(), key);
        let dm = dict_model(entries);
        assert(dm[0] == (entries[0].0@, pv_model(entries[0].1)));
        assert(dm.drop_first() =~= dict_model(entries.drop_first()));
    }
}

/// The deep lookup mirrors the lookup on the value: the string under a key of
/// a value's deep picture is the string under that key of the value.
pub proof fn lemma_ps_get_str_model(v: PValue, key: Seq<char>)
    ensures
        ps_get_str(pv_model(v), key) == pv_get_str(v, key),
{
    match v {
        PValue::Dict(entries) => {
            lemma_dict_model_get(entries@, key);
        },
        _ => {},
    }
}

} // verus!
