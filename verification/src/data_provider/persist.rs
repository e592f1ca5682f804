//! Errors of the typed store and the keys under which documents are kept.

use redis::RedisError;
use vstd::prelude::*;
use vstd::std_specs::convert::FromSpecImpl;

verus! {

/// `redis::RedisError`, carried as a value that is not looked into.
#[verifier::external_type_specification]
#[verifier::external_body]
pub struct ExRedisError(redis::RedisError);

/// `serde_json::Error`, carried as a value that is not looked into.
#[verifier::external_type_specification]
#[verifier::external_body]
pub struct ExJsonError(serde_json::Error);

/// Why a document could not be written to the store.
#[derive(Debug)]
pub enum DataPersistError {
    /// The store could not be reached or refused the command.
    RedisError(RedisError),
    /// The document could not be encoded.
    JsonError(serde_json::Error),
}

impl DataPersistError {
    /// The text shown for the error.
    pub fn message(&self) -> (text: String)
        ensures
            text@ == "DataPersistError"@,
    {
        String::from_str("DataPersistError")
    }
}

impl From<RedisError> for DataPersistError {
    fn from(e: RedisError) -> (error: DataPersistError) {
        DataPersistError::RedisError(e)
    }
}

impl FromSpecImpl<RedisError> for DataPersistError {
    open spec fn obeys_from_spec() -> bool {
        true
    }

    open spec fn from_spec(e: RedisError) -> DataPersistError {
        DataPersistError::RedisError(e)
    }
}

impl From<serde_json::Error> for DataPersistError {
    fn from(e: serde_json::Error) -> (error: DataPersistError) {
        DataPersistError::JsonError(e)
    }
}

impl FromSpecImpl<serde_json::Error> for DataPersistError {
    open spec fn obeys_from_spec() -> bool {
        true
    }

    open spec fn from_spec(e: serde_json::Error) -> DataPersistError {
        DataPersistError::JsonError(e)
    }
}

} // verus!
