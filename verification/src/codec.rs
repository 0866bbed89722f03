use vstd::prelude::*;

use crate::pval::{ps_flat_dict, ps_wf, pv_model, lemma_flat_dict_wf, PSpec, PValue};

verus! {

#[verifier::external_type_specification]
#[verifier::external_body]
pub struct ExPlistValue(plist::Value);

/// The bytes the plist crate writes for a value as a binary property list.
/// The bytes depend on the value's deep content alone.
pub uninterp spec fn bin_of(m: PSpec) -> Seq<u8>;

/// The deep value the plist crate parses out of these bytes, or nothing when
/// they parse to no value this library can hold. Parsing is a function of the
/// bytes alone.
pub uninterp spec fn plist_of(bytes: Seq<u8>) -> Option<PSpec>;

#[verifier::external_type_specification]
#[verifier::external_body]
pub struct ExPlistDictionary(plist::Dictionary);

/// Converts an array's items to the plist crate's values.
#[verifier::external_body]
fn to_plist_items(items: &Vec<PValue>) -> Vec<plist::Value> {
    items.iter().map(to_plist_value).collect()
}

/// Converts a dictionary's entries to the plist crate's dictionary.
#[verifier::external_body]
fn to_plist_entries(entries: &Vec<(String, PValue)>) -> plist::Dictionary {
    entries.iter().map(|(k, v)| (k.clone(), to_plist_value(v))).collect()
}

/// Builds the plist crate's value tree for ours. Nothing is assumed of the
/// result here; the serialisation wrappers below state everything relied on.
#[verifier::external_body]
fn to_plist_value(v: &PValue) -> plist::Value {
    match v {
        PValue::Str(s) => plist::Value::String(s.clone()),
        PValue::Int(i) => plist::Value::Integer((*i).into()),
        PValue::Bool(b) => plist::Value::Boolean(*b),
        PValue::Data(d) => plist::Value::Data(d.clone()),
        PValue::Arr(items) => plist::Value::Array(to_plist_items(items)),
        PValue::Dict(entries) => plist::Value::Dictionary(to_plist_entries(entries)),
    }
}

/// Reads an array's items back into ours.
#[verifier::external_body]
fn from_plist_items(items: &[plist::Value]) -> Option<Vec<PValue>> {
    items.iter().map(from_plist_value).collect()
}

/// Reads a dictionary's entries back into ours, in order.
#[verifier::external_body]
fn from_plist_entries(entries: &plist::Dictionary) -> Option<Vec<(String, PValue)>> {
    entries.iter().map(|(k, v)| Some((k.clone(), from_plist_value(v)?))).collect()
}

/// Reads the plist crate's value tree back into ours; dates, floats and uids
/// have no counterpart here, and integers above `i64::MAX` none either.
#[verifier::external_body]
fn from_plist_value(v: &plist::Value) -> Option<PValue> {
    match v {
        plist::Value::String(s) => Some(PValue::Str(s.clone())),
        plist::Value::Integer(i) => i.as_signed().map(PValue::Int),
        plist::Value::Boolean(b) => Some(PValue::Bool(*b)),
        plist::Value::Data(d) => Some(PValue::Data(d.clone())),
        plist::Value::Array(items) => from_plist_items(items).map(PValue::Arr),
        plist::Value::Dictionary(entries) => from_plist_entries(entries).map(PValue::Dict),
        _ => None,
    }
}

/// Relies on plist::Value::to_writer_binary: writing into a Vec cannot fail
/// for values made of strings, integers, booleans, data, arrays and
/// dictionaries, and the written bytes depend on the value alone.
#[verifier::external_body]
pub fn encode_binary(v: &PValue) -> (r: Vec<u8>)
    ensures
        r@ == bin_of(pv_model(*v)),
{
    let mut out: Vec<u8> = Vec::new();
    to_plist_value(v).to_writer_binary(&mut out).unwrap();
    out
}

/// Relies on plist::Value::from_reader: parses XML and binary property lists
/// interchangeably, as a function of the bytes alone; every dictionary it can
/// yield has distinct keys; and reading back a binary plist that the crate
/// itself wrote — whose encodings of strings, integers, booleans, data,
/// arrays and dictionaries are all lossless — yields the same deep value.
#[verifier::external_body]
pub fn decode_plist(bytes: &[u8]) -> (r: Option<PValue>)
    ensures
        (r matches Some(w) ==> plist_of(bytes@) == Some(pv_model(w)) && ps_wf(pv_model(w))),
        (r is None ==> plist_of(bytes@) is None),
        (r matches Some(w) ==> forall|m: PSpec|
            ps_wf(m) && bytes@ == #[trigger] bin_of(m) ==> pv_model(w) == m),
        (r is None ==> forall|m: PSpec| !(ps_wf(m) && bytes@ == #[trigger] bin_of(m))),
{
    plist::Value::from_reader(std::io::Cursor::new(bytes)).ok().and_then(
        |v| from_plist_value(&v),
    )
}

/// Law: encoding any value whose dictionaries all carry distinct keys as a
/// binary plist and decoding the bytes again yields the same deep value.
pub fn round_trip_value(v: &PValue) -> (r: Option<PValue>)
    ensures
        ps_wf(pv_model(*v)) ==> (r matches Some(w) && pv_model(w) == pv_model(*v)),
{
    let bytes = encode_binary(v);
    decode_plist(bytes.as_slice())
}

/// Law: encoding a dictionary of string, integer and data values as a binary
/// plist and decoding the bytes again yields a dictionary with the same keys
/// and the same primitive values, in the same order.
pub fn round_trip_flat_dict(v: &PValue) -> (r: Option<PValue>)
    ensures
        ps_flat_dict(pv_model(*v)) ==> (r matches Some(w) && pv_model(w) == pv_model(*v)),
{
    proof {
        if ps_flat_dict(pv_model(*v)) {
            lemma_flat_dict_wf(pv_model(*v));
        }
    }
    round_trip_value(v)
}

} // verus!
