use vstd::prelude::*;

verus! {

#[verifier::external_type_specification]
#[verifier::external_body]
pub struct ExRedisError(redis::RedisError);

#[verifier::external_type_specification]
#[verifier::external_body]
pub struct ExSerdeError(serde_json::Error);

/// Represents all possible errors that can occur while working with the source.
#[derive(Debug)]
pub enum SourceError {
    /// Configuration can't be read from Redis: the connection parameters did
    /// not parse, or the store failed while serving the request.
    RedisError(redis::RedisError),
    /// A payload fetched from Redis is not valid JSON for a configuration value.
    SerdeError(serde_json::Error),
    /// The field of a Hash with this name does not hold valid JSON for a
    /// configuration value.
    SerdeFieldError(String, serde_json::Error),
    /// The source is required and its key does not exist.
    RedisKeyDoesNotExist,
    /// An environment variable needed to set up the client is not set.
    EnvVariableNotSet(String),
}

pub type SourceResult<T> = Result<T, SourceError>;

} // verus!
