use vstd::prelude::*;

verus! {

#[verifier::external_type_specification]
#[verifier::external_body]
pub struct ExConfigValue(config::Value);

/// Whether `serde_json::from_slice` reads these bytes as one configuration value.
pub uninterp spec fn decodes_to_value(b: Seq<u8>) -> bool;

/// The keys of the JSON object that `serde_json::from_slice` reads from these
/// bytes as a configuration table, or `None` where it reads no such table.
pub uninterp spec fn object_keys(b: Seq<u8>) -> Option<Set<Seq<char>>>;

/// The keys of a list of configuration entries, in order.
pub open spec fn entry_keys(s: Seq<(String, config::Value)>) -> Seq<Seq<char>> {
    s.map_values(|e: (String, config::Value)| e.0@)
}

/// No key occurs twice in a list of configuration entries.
pub open spec fn distinct_keys(s: Seq<(String, config::Value)>) -> bool {
    forall|i: int, j: int| 0 <= i < s.len() && 0 <= j < s.len() && i != j ==> s[i].0@ != s[j].0@
}

/// Relies on `serde_json::from_slice` decoding one JSON document into a
/// `config::Value`; whether it succeeds depends on the bytes alone.
#[verifier::external_body]
pub(crate) fn decode_value(b: &[u8]) -> (r: Result<config::Value, serde_json::Error>)
    ensures
        r is Ok <==> decodes_to_value(b@),
{
    serde_json::from_slice(b)
}

/// Relies on `serde_json::from_slice` decoding a JSON object into a
/// `config::Map` (a `HashMap`, so each key comes out once).
#[verifier::external_body]
pub(crate) fn decode_table(b: &[u8]) -> (r: Result<Vec<(String, config::Value)>, serde_json::Error>)
    ensures
        r is Ok <==> object_keys(b@) is Some,
        r matches Ok(v) ==> object_keys(b@) == Some(entry_keys(v@).to_set()) && distinct_keys(v@),
{
    match serde_json::from_slice::<config::Map<String, config::Value>>(b) {
        Ok(m) => Ok(m.into_iter().collect()),
        Err(e) => Err(e),
    }
}

} // verus!
