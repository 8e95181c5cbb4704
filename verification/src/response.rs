//! What an answer amounts to, once somebody has read it.
//!
//! An answer whose body can be read as what the operation asks for is the
//! operation's result, whatever the status of the answer: the service reports
//! a submission it cannot accept in a body like any other, and the caller
//! looks into it. Only where the body cannot be read does the status count.

use crate::error::Error;
use reqwest::Error as TransportFailure;
use serde_json::Error as JsonFailure;
use serde_json::Value;
use vstd::prelude::*;

verus! {

#[verifier::external_type_specification]
#[verifier::external_body]
pub struct ExValue(Value);

/// The JSON value that `serde_json::from_str` reads from the text, if it
/// reads one.
pub uninterp spec fn json_value(text: Seq<char>) -> Option<Value>;

/// The values of the JSON array that `serde_json::from_str` reads from the
/// text, if it reads one.
pub uninterp spec fn json_array(text: Seq<char>) -> Option<Seq<Value>>;

/// `serde_json::from_str` at `Value`: what it gives depends on the text
/// alone.
#[verifier::external_body]
fn parse_value(text: &str) -> (parsed: Result<Value, JsonFailure>)
    ensures
        parsed matches Ok(value) ==> json_value(text@) == Some(value),
        parsed is Err ==> json_value(text@) is None,
{
    serde_json::from_str::<Value>(text)
}

/// `serde_json::from_str` at `Vec<Value>`: what it gives depends on the text
/// alone.
#[verifier::external_body]
fn parse_values(text: &str) -> (parsed: Result<Vec<Value>, JsonFailure>)
    ensures
        parsed matches Ok(values) ==> json_array(text@) == Some(values@),
        parsed is Err ==> json_array(text@) is None,
{
    serde_json::from_str::<Vec<Value>>(text)
}

/// What an answer amounts to. A body that was read is the result, whatever
/// the status of the answer. A body that could not be read is a failed
/// request where the service answered with an error status, and a
/// serialization failure where it did not.
pub open spec fn outcome<T>(
    refused: Option<TransportFailure>,
    read: Result<T, JsonFailure>,
) -> Result<T, Error> {
    match read {
        Ok(value) => Ok(value),
        Err(cause) => match refused {
            Some(status) => Err(Error::Request(status)),
            None => Err(Error::Serde(cause)),
        },
    }
}

/// Decides what an answer amounts to, from the error status of the answer,
/// if it had one, and from what reading its body gave.
pub fn settle<T>(refused: Option<TransportFailure>, read: Result<T, JsonFailure>) -> (settled:
    Result<T, Error>)
    ensures
        settled == outcome(refused, read),
{
    match read {
        Ok(value) => Ok(value),
        Err(cause) => match refused {
            Some(status) => Err(Error::Request(status)),
            None => Err(Error::Serde(cause)),
        },
    }
}

/// Decides what an answer without a result amounts to: a failed request
/// where the service answered with an error status, else success.
pub fn acknowledge(refused: Option<TransportFailure>) -> (settled: Result<(), Error>)
    ensures
        match refused {
            Some(status) => settled == Err::<(), Error>(Error::Request(status)),
            None => settled is Ok,
        },
{
    match refused {
        Some(status) => Err(Error::Request(status)),
        None => Ok(()),
    }
}

/// Reads the answer to `Client::create_submission`: any JSON value, which
/// is not looked into. The status of the answer counts only where the body
/// is no JSON value.
pub fn decode_value(refused: Option<TransportFailure>, body: &str) -> (decoded: Result<
    Value,
    Error,
>)
    ensures
        match json_value(body@) {
            Some(value) => decoded == Ok::<Value, Error>(value),
            None => decoded matches Err(error) && match refused {
                Some(status) => error == Error::Request(status),
                None => error is Serde,
            },
        },
{
    settle(refused, parse_value(body))
}

/// Reads the answer to `Client::batch_submit`: a JSON array, whose values
/// are not looked into and stay in their order. The status of the answer
/// counts only where the body is no JSON array.
pub fn decode_values(refused: Option<TransportFailure>, body: &str) -> (decoded: Result<
    Vec<Value>,
    Error,
>)
    ensures
        match json_array(body@) {
            Some(values) => decoded matches Ok(list) && list@ == values,
            None => decoded matches Err(error) && match refused {
                Some(status) => error == Error::Request(status),
                None => error is Serde,
            },
        },
{
    settle(refused, parse_values(body))
}

} // verus!
