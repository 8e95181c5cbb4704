//! What one call to the service consists of.

use crate::wire::{array_view, object_view, Field, FieldView};
use http::header::{HeaderMap, HeaderValue};
use vstd::prelude::*;

verus! {

/// The method of a request.
#[derive(Clone, Copy, Debug, PartialEq, Eq, Structural)]
pub enum Method {
    Get,
    Post,
    Delete,
}

impl Method {
    /// The method's name as it stands in the request line.
    pub open spec fn name_text(self) -> Seq<char> {
        match self {
            Method::Get => "GET"@,
            Method::Post => "POST"@,
            Method::Delete => "DELETE"@,
        }
    }

    /// The method's name as it stands in the request line.
    pub fn name(&self) -> (text: &'static str)
        ensures
            text@ == self.name_text(),
    {
        match self {
            Method::Get => "GET",
            Method::Post => "POST",
            Method::Delete => "DELETE",
        }
    }
}

/// What a request carries as its body. Whoever sends the request writes it
/// out as JSON text.
#[derive(Debug, PartialEq)]
pub enum Body {
    /// The request has no body.
    Empty,
    /// One JSON object, with the given fields in their order.
    Object(Vec<Field>),
    /// A JSON array of objects, in their order.
    Array(Vec<Vec<Field>>),
}

/// What a [`Body`] holds, as mathematical values.
pub enum BodyView {
    Empty,
    Object(Seq<FieldView>),
    Array(Seq<Seq<FieldView>>),
}

impl View for Body {
    type V = BodyView;

    open spec fn view(&self) -> BodyView {
        match *self {
            Body::Empty => BodyView::Empty,
            Body::Object(fields) => BodyView::Object(object_view(fields@)),
            Body::Array(objects) => BodyView::Array(array_view(objects@)),
        }
    }
}

/// One call to the service, ready to be sent: nothing is left to decide.
#[derive(Debug)]
pub struct Request {
    pub method: Method,
    /// The full address: the base, the path and the query string.
    pub url: String,
    pub headers: HeaderMap<HeaderValue>,
    pub body: Body,
}

} // verus!
