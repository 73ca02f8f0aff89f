use vstd::prelude::*;

use crate::errors::{SourceError, SourceResult};
use crate::json::{decode_table, decode_value, decodes_to_value, distinct_keys, entry_keys, object_keys};

verus! {

#[verifier::external_type_specification]
#[verifier::external_body]
pub struct ExRedisClient(redis::Client);

/// Whether `redis::Client::open` accepts this text as connection parameters.
pub uninterp spec fn connection_info_parses(info: Seq<char>) -> bool;

/// Relies on `redis::Client::open` with a `&str`: it parses the URL into
/// connection parameters and opens no connection, so the outcome depends on
/// the text alone.
#[verifier::external_body]
fn open_client(info: &str) -> (r: Result<redis::Client, redis::RedisError>)
    ensures
        r is Ok <==> connection_info_parses(info@),
{
    redis::Client::open(info)
}

/// A configuration source backed by Redis.
///
/// It reads configuration in JSON format from a String (GET) or from a Hash
/// (HGETALL) stored under one key.
#[derive(Debug)]
pub struct RedisSource {
    /// Redis client
    client: redis::Client,
    /// The key that holds the configuration
    source_key: String,
    /// True when the configuration is a Hash, false when it is a String
    is_hash: bool,
    /// A required source fails when its key does not exist
    required: bool,
}

/// What a source is, apart from its client.
pub struct RedisSourceView {
    pub client: redis::Client,
    pub source_key: Seq<char>,
    pub is_hash: bool,
    pub required: bool,
}

impl View for RedisSource {
    type V = RedisSourceView;

    closed spec fn view(&self) -> RedisSourceView {
        RedisSourceView {
            client: self.client,
            source_key: self.source_key@, is_hash: self.is_hash, required: self.required }
    }
}

/// The one store command that a source issues per collection.
pub enum Command {
    /// GET of the key
    Get(String),
    /// HGETALL of the key
    HGetAll(String),
}

/// What the store answered to a source's command.
pub enum Fetched {
    /// The answer to GET: the bytes under the key, if it exists
    Value(Option<Vec<u8>>),
    /// The answer to HGETALL: each field's name and bytes, if the key exists
    Fields(Option<Vec<(String, Vec<u8>)>>),
}

/// The names of the fields of a Hash, as a set.
pub open spec fn field_names(f: Seq<(String, Vec<u8>)>) -> Set<Seq<char>> {
    f.map_values(|e: (String, Vec<u8>)| e.0@).to_set()
}

/// Every field of a Hash decodes as a configuration value.
pub open spec fn all_fields_decode(f: Seq<(String, Vec<u8>)>) -> bool {
    forall|i: int| 0 <= i < f.len() ==> decodes_to_value(#[trigger] f[i].1@)
}

/// The result owed when the key is absent.
pub open spec fn absent_outcome(required: bool, r: SourceResult<Vec<(String, config::Value)>>) -> bool {
    if required {
        r matches Err(SourceError::RedisKeyDoesNotExist)
    } else {
        r matches Ok(v) && v@.len() == 0
    }
}

/// The result owed for the answer to GET.
pub open spec fn value_outcome(
    required: bool,
    data: Option<Vec<u8>>,
    r: SourceResult<Vec<(String, config::Value)>>,
) -> bool {
    match data {
        None => absent_outcome(required, r),
        Some(b) => match r {
            Ok(v) => object_keys(b@) == Some(entry_keys(v@).to_set()) && distinct_keys(v@),
            Err(e) => object_keys(b@) is None && e is SerdeError,
        },
    }
}

/// The error names the first field of the list whose bytes do not decode.
pub open spec fn names_first_bad_field(f: Seq<(String, Vec<u8>)>, e: SourceError) -> bool {
    e matches SourceError::SerdeFieldError(name, _) && exists|i: int|
        0 <= i < f.len() && f[i].0@ == name@ && !decodes_to_value(#[trigger] f[i].1@) && forall|
            j: int,
        |
            0 <= j < i ==> decodes_to_value(#[trigger] f[j].1@)
}

/// The result owed for the answer to HGETALL. Redis answers HGETALL on a
/// missing key with no fields, so an empty answer means the key is absent.
pub open spec fn fields_outcome(
    required: bool,
    data: Option<Vec<(String, Vec<u8>)>>,
    r: SourceResult<Vec<(String, config::Value)>>,
) -> bool {
    match data {
        None => absent_outcome(required, r),
        Some(f) => if f@.len() == 0 {
            absent_outcome(required, r)
        } else {
            match r {
                Ok(v) => all_fields_decode(f@) && entry_keys(v@).to_set() == field_names(f@)
                    && distinct_keys(v@),
                Err(e) => !all_fields_decode(f@) && names_first_bad_field(f@, e),
            }
        },
    }
}

impl RedisSource {
    /// Creates a source for `source_key` on the Redis server that
    /// `connection_info` names. It reads a String and is required.
    ///
    /// Fails with `SourceError::RedisError` when the connection parameters do
    /// not parse; no connection is opened here.
    pub fn try_new(source_key: String, connection_info: &str) -> (r: SourceResult<Self>)
        ensures
            r is Ok <==> connection_info_parses(connection_info@),
            r matches Err(e) ==> e is RedisError,
            r matches Ok(s) ==> s@.source_key == source_key@ && !s@.is_hash && s@.required,
    {
        match open_client(connection_info) {
            Ok(client) => Ok(RedisSource { client, source_key, is_hash: false, required: true }),
            Err(e) => Err(SourceError::RedisError(e)),
        }
    }

    /// Chooses the Redis type that holds the configuration: a Hash, read with
    /// HGETALL, when `value` is true, else a String, read with GET.
    pub fn set_hash(self, value: bool) -> (r: Self)
        ensures
            r@ == (RedisSourceView { is_hash: value, ..self@ }),
    {
        RedisSource { is_hash: value, ..self }
    }

    /// Chooses whether a missing key is an error (true) or an empty
    /// configuration (false).
    pub fn required(self, required: bool) -> (r: Self)
        ensures
            r@ == (RedisSourceView { required, ..self@ }),
    {
        RedisSource { required, ..self }
    }

    /// The client through which the store is reached.
    pub fn client(&self) -> &redis::Client {
        &self.client
    }

    /// The command that collecting this source issues to the store.
    pub fn command(&self) -> (r: Command)
        ensures
            match r {
                Command::Get(k) => !self@.is_hash && k@ == self@.source_key,
                Command::HGetAll(k) => self@.is_hash && k@ == self@.source_key,
            },
    {
        if self.is_hash {
            Command::HGetAll(self.source_key.clone())
        } else {
            Command::Get(self.source_key.clone())
        }
    }
    /// Turns the answer to GET into the configuration: an empty one when the
    /// key is absent and the source is optional, else the entries of the JSON
    /// object stored under the key.
    pub fn collect_from_key(&self, data: Option<Vec<u8>>) -> (r: SourceResult<Vec<(String, config::Value)>>)
        ensures
            value_outcome(self@.required, data, r),
    {
        match data {
            None => {
                if self.required {
                    Err(SourceError::RedisKeyDoesNotExist)
                } else {
                    Ok(Vec::new())
                }
            },
            Some(b) => match decode_table(b.as_slice()) {
                Ok(v) => Ok(v),
                Err(e) => Err(SourceError::SerdeError(e)),
            },
        }
    }

    /// Turns the answer to HGETALL into the configuration: an empty one when
    /// the key is absent (no answer, or no fields) and the source is optional,
    /// else one entry per field, whose value is the field's bytes decoded as
    /// JSON. A field that does not decode fails the whole collection, with an
    /// error that names the first such field.
    #[verifier::loop_isolation(false)]
    pub fn collect_from_hash(&self, data: Option<Vec<(String, Vec<u8>)>>) -> (r: SourceResult<
        Vec<(String, config::Value)>,
    >)
        ensures
            fields_outcome(self@.required, data, r),
    {
        match data {
            None => {
                if self.required {
                    Err(SourceError::RedisKeyDoesNotExist)
                } else {
                    Ok(Vec::new())
                }
            },
            Some(f) => {
                if f.len() == 0 {
                    return if self.required {
                        Err(SourceError::RedisKeyDoesNotExist)
                    } else {
                        Ok(Vec::new())
                    };
                }
                let mut out: Vec<(String, config::Value)> = Vec::new();
                let mut i: usize = 0;
                while i < f.len()
                    invariant
                        0 <= i <= f.len(),
                        distinct_keys(out@),
                        entry_keys(out@).to_set() == field_names(f@.take(i as int)),
                        forall|j: int| 0 <= j < i ==> decodes_to_value(#[trigger] f@[j].1@),
                    decreases f.len() - i,
                {
                    let value = match decode_value(f[i].1.as_slice()) {
                        Ok(value) => value,
                        Err(e) => {
                            assert(!decodes_to_value(f@[i as int].1@));
                            assert(!all_fields_decode(f@));
                            let name = f[i].0.clone();
                            assert(names_first_bad_field(f@, SourceError::SerdeFieldError(name, e)));
                            return Err(SourceError::SerdeFieldError(name, e));
                        },
                    };
                    let name = f[i].0.clone();
                    insert_entry(&mut out, name, value);
                    proof {
                        lemma_field_names_step(f@, i as int);
                    }
                    i = i + 1;
                }
                proof {
                    assert(f@.take(f@.len() as int) =~= f@);
                }
                Ok(out)
            },
        }
    }

    /// Turns the store's answer to `self.command()` into the configuration. A
    /// failure of the store comes back as `SourceError::RedisError`.
    pub fn collect(&self, fetched: Result<Fetched, redis::RedisError>) -> (r: SourceResult<
        Vec<(String, config::Value)>,
    >)
        requires
            fetched matches Ok(f) ==> (f is Fields <==> self@.is_hash),
        ensures
            fetched matches Err(e) ==> (r matches Err(SourceError::RedisError(x)) && x == e),
            fetched matches Ok(Fetched::Value(d)) ==> value_outcome(self@.required, d, r),
            fetched matches Ok(Fetched::Fields(d)) ==> fields_outcome(self@.required, d, r),
    {
        match fetched {
            Err(e) => Err(SourceError::RedisError(e)),
            Ok(Fetched::Value(d)) => self.collect_from_key(d),
            Ok(Fetched::Fields(d)) => self.collect_from_hash(d),
        }
    }
}

/// The names of the first `i + 1` fields are those of the first `i` and the next one.
proof fn lemma_field_names_step(f: Seq<(String, Vec<u8>)>, i: int)
    requires
        0 <= i < f.len(),
    ensures
        field_names(f.take(i + 1)) == field_names(f.take(i)).insert(f[i].0@),
{
    let g = |e: (String, Vec<u8>)| e.0@;
    assert(f.take(i + 1).map_values(g) =~= f.take(i).map_values(g).push(f[i].0@));
    f.take(i).map_values(g).lemma_push_to_set_commute(f[i].0@);
}

/// Sets `name` to `value` in a list of entries with distinct keys: replaces the
/// entry with that key, or appends one.
fn insert_entry(out: &mut Vec<(String, config::Value)>, name: String, value: config::Value)
    requires
        distinct_keys(old(out)@),
    ensures
        distinct_keys(final(out)@),
        entry_keys(final(out)@).to_set() == entry_keys(old(out)@).to_set().insert(name@),
{
    let ghost start = out@;
    let ghost before = entry_keys(out@);
    let mut j: usize = 0;
    while j < out.len()
        invariant
            0 <= j <= out.len(),
            out@ == old(out)@,
            before == entry_keys(old(out)@),
            start == old(out)@,
            distinct_keys(start),
            forall|k: int| 0 <= k < j ==> out@[k].0@ != name@,
        decreases out.len() - j,
    {
        if out[j].0 == name {
            let ghost n = name@;
            assert(before[j as int] == n);
            out.set(j, (name, value));
            proof {
                assert(out@[j as int].0@ == n);
                assert(forall|k: int|
                    0 <= k < out@.len() ==> out@[k].0@ == #[trigger] start[k].0@);
                assert forall|a: int, b: int|
                    0 <= a < out@.len() && 0 <= b < out@.len() && a != b implies out@[a].0@
                    != out@[b].0@ by {
                    assert(start[a].0@ != start[b].0@);
                }
                assert(entry_keys(out@) =~= before);
                assert(before.to_set() =~= before.to_set().insert(name@)) by {
                    assert(before[j as int] == name@);
                }
            }
            return;
        }
        j = j + 1;
    }
    out.push((name, value));
    proof {
        assert(entry_keys(out@) =~= before.push(name@));
        before.lemma_push_to_set_commute(name@);
    }
}

/// A JSON object stored under the key of a String source is read back with
/// exactly its keys, each once, whether or not the source is required.
pub proof fn law_value_round_trip(required: bool, b: Vec<u8>, r: SourceResult<Vec<(String, config::Value)>>)
    requires
        value_outcome(required, Some(b), r),
        object_keys(b@) is Some,
    ensures
        r matches Ok(v) && entry_keys(v@).to_set() == object_keys(b@).unwrap() && distinct_keys(v@),
{
}

/// Fields of a Hash (at least one) that all hold JSON are read back with exactly the field
/// names as keys, each once, in whatever order the store lists them.
pub proof fn law_fields_round_trip(
    required: bool,
    f: Vec<(String, Vec<u8>)>,
    r: SourceResult<Vec<(String, config::Value)>>,
)
    requires
        fields_outcome(required, Some(f), r),
        f@.len() > 0,
        all_fields_decode(f@),
    ensures
        r matches Ok(v) && entry_keys(v@).to_set() == field_names(f@) && distinct_keys(v@),
{
}

/// An absent key gives an optional source an empty configuration and a
/// required one `RedisKeyDoesNotExist`, for a String and for a Hash alike (a
/// Hash answer with no fields included).
pub proof fn law_absent_key(
    required: bool,
    answer: Option<Vec<(String, Vec<u8>)>>,
    r: SourceResult<Vec<(String, config::Value)>>,
)
    requires
        value_outcome(required, None, r) || (fields_outcome(required, answer, r) && (
        answer matches Some(f) ==> f@.len() == 0)),
    ensures
        !required ==> (r matches Ok(v) && v@.len() == 0),
        required ==> (r matches Err(SourceError::RedisKeyDoesNotExist)),
{
}

/// Collecting an optional source whose key is absent gives the same empty
/// configuration every time, in either mode.
pub proof fn law_absent_optional_repeats(
    a1: Option<Vec<(String, Vec<u8>)>>,
    a2: Option<Vec<(String, Vec<u8>)>>,
    r1: SourceResult<Vec<(String, config::Value)>>,
    r2: SourceResult<Vec<(String, config::Value)>>,
)
    requires
        value_outcome(false, None, r1) || (fields_outcome(false, a1, r1) && (a1 matches Some(
            f,
        ) ==> f@.len() == 0)),
        value_outcome(false, None, r2) || (fields_outcome(false, a2, r2) && (a2 matches Some(
            f,
        ) ==> f@.len() == 0)),
    ensures
        r1 matches Ok(v1) && r2 matches Ok(v2) && v1@ == v2@ && v1@.len() == 0,
{
    if let Ok(v1) = r1 {
        if let Ok(v2) = r2 {
            assert(v1@ =~= v2@);
        }
    }
}

/// The (name, bytes) pairs of a Hash answer, as a set.
pub open spec fn field_pairs(f: Seq<(String, Vec<u8>)>) -> Set<(Seq<char>, Seq<u8>)> {
    f.map_values(|e: (String, Vec<u8>)| (e.0@, e.1@)).to_set()
}

/// Two Hash answers that list the same (name, bytes) pairs, in any order and
/// all valid JSON, both succeed and give the same keys.
pub proof fn law_fields_order_independent(
    required: bool,
    f1: Vec<(String, Vec<u8>)>,
    f2: Vec<(String, Vec<u8>)>,
    r1: SourceResult<Vec<(String, config::Value)>>,
    r2: SourceResult<Vec<(String, config::Value)>>,
)
    requires
        fields_outcome(required, Some(f1), r1),
        fields_outcome(required, Some(f2), r2),
        field_pairs(f1@) == field_pairs(f2@),
        f1@.len() > 0,
        all_fields_decode(f1@),
    ensures
        r1 matches Ok(v1) && r2 matches Ok(v2) && entry_keys(v1@).to_set() == entry_keys(
            v2@,
        ).to_set(),
{
    let g = |e: (String, Vec<u8>)| (e.0@, e.1@);
    let h = |e: (String, Vec<u8>)| e.0@;
    assert(f2@.len() > 0) by {
        assert(f1@.map_values(g)[0] == g(f1@[0]));
        assert(f1@.map_values(g).contains(g(f1@[0])));
        assert(field_pairs(f1@).contains(g(f1@[0])));
    }
    assert forall|i: int| 0 <= i < f2@.len() implies decodes_to_value(#[trigger] f2@[i].1@) by {
        assert(f2@.map_values(g)[i] == g(f2@[i]));
        assert(field_pairs(f2@).contains(g(f2@[i])));
        let k = choose|k: int| 0 <= k < f1@.len() && f1@.map_values(g)[k] == g(f2@[i]);
        assert(f1@[k].1@ == f2@[i].1@);
    }
    assert(field_names(f1@) =~= field_names(f2@)) by {
        assert forall|n: Seq<char>| field_names(f1@).contains(n) implies field_names(
            f2@,
        ).contains(n) by {
            let k = choose|k: int| 0 <= k < f1@.len() && f1@.map_values(h)[k] == n;
            assert(f1@.map_values(g)[k] == g(f1@[k]));
            assert(field_pairs(f2@).contains(g(f1@[k])));
            let m = choose|m: int| 0 <= m < f2@.len() && f2@.map_values(g)[m] == g(f1@[k]);
            assert(f2@.map_values(h)[m] == n);
        }
        assert forall|n: Seq<char>| field_names(f2@).contains(n) implies field_names(
            f1@,
        ).contains(n) by {
            let k = choose|k: int| 0 <= k < f2@.len() && f2@.map_values(h)[k] == n;
            assert(f2@.map_values(g)[k] == g(f2@[k]));
            assert(field_pairs(f1@).contains(g(f2@[k])));
            let m = choose|m: int| 0 <= m < f1@.len() && f1@.map_values(g)[m] == g(f2@[k]);
            assert(f1@.map_values(h)[m] == n);
        }
    }
}

/// One field of a Hash that does not decode fails the whole collection with a
/// `SerdeFieldError` naming a field that does not decode: none of the other
/// fields comes back.
pub proof fn law_field_failure_is_total(
    required: bool,
    f: Vec<(String, Vec<u8>)>,
    i: int,
    r: SourceResult<Vec<(String, config::Value)>>,
)
    requires
        fields_outcome(required, Some(f), r),
        0 <= i < f@.len(),
        !decodes_to_value(f@[i].1@),
    ensures
        r matches Err(SourceError::SerdeFieldError(name, _)) && exists|k: int|
            0 <= k < f@.len() && f@[k].0@ == name@ && !decodes_to_value(#[trigger] f@[k].1@),
{
}

} // verus!
