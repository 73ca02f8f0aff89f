//! A configuration source that reads JSON settings from a Redis store.
//!
//! The store is read either with GET (one JSON object under the key) or with
//! HGETALL (one JSON value per field). The verified part decides which command
//! a source issues and turns what the store returned into a mapping from keys
//! to configuration values, or into a typed error.
mod errors;
mod json;
mod source;

pub use errors::{SourceError, SourceResult};
pub use json::{decodes_to_value, distinct_keys, entry_keys, object_keys};
pub use source::{
    absent_outcome, all_fields_decode, connection_info_parses, field_names, fields_outcome,
    field_pairs, law_absent_key, law_absent_optional_repeats, law_field_failure_is_total,
    law_fields_order_independent, names_first_bad_field, law_fields_round_trip, law_value_round_trip,
    value_outcome, Command, Fetched, RedisSource, RedisSourceView,
};
