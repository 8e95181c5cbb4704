//! The ways in which an operation can end without a result.

use reqwest::Error as TransportFailure;
use serde_json::Error as JsonFailure;
use vstd::prelude::*;

verus! {

#[verifier::external_type_specification]
#[verifier::external_body]
pub struct ExTransportError(TransportFailure);

#[verifier::external_type_specification]
#[verifier::external_body]
pub struct ExJsonError(JsonFailure);

/// Why an operation ended without a result. Each kind is final: nothing is
/// tried again.
#[derive(Debug)]
pub enum Error {
    /// The exchange with the service failed.
    Request(TransportFailure),
    /// A body could not be encoded, or an answer did not have the expected shape.
    Serde(JsonFailure),
    /// The configured header name cannot stand in a request.
    HeaderName(String),
    /// The configured token cannot stand in a request as a header value.
    HeaderValue(String),
}

/// What an [`Error`] holds, as mathematical values.
pub enum ErrorView {
    Request(TransportFailure),
    Serde(JsonFailure),
    HeaderName(Seq<char>),
    HeaderValue(Seq<char>),
}

impl View for Error {
    type V = ErrorView;

    open spec fn view(&self) -> ErrorView {
        match *self {
            Error::Request(cause) => ErrorView::Request(cause),
            Error::Serde(cause) => ErrorView::Serde(cause),
            Error::HeaderName(name) => ErrorView::HeaderName(name@),
            Error::HeaderValue(value) => ErrorView::HeaderValue(value@),
        }
    }
}

impl ErrorView {
    /// The text that describes the error to a reader.
    pub open spec fn message(self) -> Seq<char> {
        match self {
            ErrorView::Request(_) => "Failed to make request"@,
            ErrorView::Serde(_) => "Failed to serialize/deserialize json"@,
            ErrorView::HeaderName(name) => "Invalid header name: "@ + name,
            ErrorView::HeaderValue(value) => "Invalid header value: "@ + value,
        }
    }
}

impl Error {
    /// The text that describes the error to a reader.
    pub fn message(&self) -> (text: String)
        ensures
            text@ == self@.message(),
    {
        match self {
            Error::Request(_) => "Failed to make request".to_owned(),
            Error::Serde(_) => "Failed to serialize/deserialize json".to_owned(),
            Error::HeaderName(name) => {
                let mut text = "Invalid header name: ".to_owned();
                text.append(name.as_str());
                text
            },
            Error::HeaderValue(value) => {
                let mut text = "Invalid header value: ".to_owned();
                text.append(value.as_str());
                text
            },
        }
    }
}

impl From<TransportFailure> for Error {
    fn from(cause: TransportFailure) -> (error: Error) {
        Error::Request(cause)
    }
}

impl vstd::std_specs::convert::FromSpecImpl<TransportFailure> for Error {
    open spec fn obeys_from_spec() -> bool {
        true
    }

    open spec fn from_spec(cause: TransportFailure) -> Error {
        Error::Request(cause)
    }
}

impl From<JsonFailure> for Error {
    fn from(cause: JsonFailure) -> (error: Error) {
        Error::Serde(cause)
    }
}

impl vstd::std_specs::convert::FromSpecImpl<JsonFailure> for Error {
    open spec fn obeys_from_spec() -> bool {
        true
    }

    open spec fn from_spec(cause: JsonFailure) -> Error {
        Error::Serde(cause)
    }
}

} // verus!
