//! The client: one function per operation of the service, each giving the
//! request that performs it.

use crate::config::{Config, ConfigView};
use crate::error::Error;
use crate::header::{build_headers, header_fault, header_map_entries, header_set};
use crate::model::Submission;
use crate::request::{Body, BodyView, Method, Request};
use crate::text::{
    decimal, decimal_text, endpoint, flag, flag_text, join, joined, query_text, texts, Param,
};
use crate::wire::{all_fields, all_input_fields, input_fields};
use http::header::{HeaderMap, HeaderValue};
use vstd::prelude::*;

verus! {

/// The field selection of a call that reads submissions: what the caller
/// asked for, or every field.
pub open spec fn fields_text(fields: Option<&str>) -> Seq<char> {
    match fields {
        Some(list) => list@,
        None => "*"@,
    }
}

/// Path of one language.
pub open spec fn language_path(id: nat) -> Seq<char> {
    "/languages/"@ + decimal_text(id)
}

/// Path of one submission.
pub open spec fn submission_path(token: Seq<char>) -> Seq<char> {
    "/submissions/"@ + token
}

/// Query of the call that creates a submission.
pub open spec fn create_query(config: ConfigView) -> Seq<(Seq<char>, Seq<char>)> {
    seq![
        ("base64_encoded"@, flag_text(config.base64_encoded)),
        ("wait"@, flag_text(config.wait)),
    ]
}

/// Query of the call that reads one submission.
pub open spec fn read_query(config: ConfigView, fields: Option<&str>) -> Seq<
    (Seq<char>, Seq<char>),
> {
    seq![
        ("base64_encoded"@, flag_text(config.base64_encoded)),
        ("wait"@, flag_text(config.wait)),
        ("fields"@, fields_text(fields)),
    ]
}

/// Query of the call that deletes one submission.
pub open spec fn delete_query(fields: Option<&str>) -> Seq<(Seq<char>, Seq<char>)> {
    seq![("fields"@, fields_text(fields))]
}

/// Query of the call that creates several submissions.
pub open spec fn batch_query(config: ConfigView) -> Seq<(Seq<char>, Seq<char>)> {
    seq![("base64_encoded"@, flag_text(config.base64_encoded))]
}

/// Query of the call that reads several submissions.
pub open spec fn batch_read_query(
    config: ConfigView,
    tokens: Seq<&str>,
    fields: Option<&str>,
) -> Seq<(Seq<char>, Seq<char>)> {
    seq![
        ("tokens"@, joined(texts(tokens), ","@)),
        ("base64_encoded"@, flag_text(config.base64_encoded)),
        ("fields"@, fields_text(fields)),
    ]
}

/// A client of one service: the address the service is found at and the
/// settings that every request is built from.
#[derive(Debug)]
pub struct Client {
    base_url: String,
    config: Config,
}

impl Client {
    /// The address the service is found at.
    pub closed spec fn base(self) -> Seq<char> {
        self.base_url@
    }

    /// The settings that every request is built from.
    pub closed spec fn settings(self) -> ConfigView {
        self.config@
    }

    /// Whether `made` is what a call gives that asks for `method` at
    /// `address` (path and query string) with `body`: the request with
    /// exactly these, the base before the address and the header set of the
    /// settings; or, where the settings give no header set, the fault and no
    /// request.
    pub open spec fn plans(
        self,
        made: Result<Request, Error>,
        method: Method,
        address: Seq<char>,
        body: BodyView,
    ) -> bool {
        match made {
            Ok(request) => {
                &&& header_fault(self.settings()) is None
                &&& request.method == method
                &&& request.url@ == self.base() + address
                &&& header_map_entries(request.headers) == header_set(self.settings())
                &&& request.body@ == body
            },
            Err(error) => header_fault(self.settings()) == Some(error@),
        }
    }

    /// A client of the service at `base_url`, with the settings of
    /// `Config::default`. Paths are appended to the base as they are, so the
    /// base ends without a slash.
    pub fn new(base_url: &str) -> (client: Client)
        ensures
            client.base() == base_url@,
            client.settings() == ConfigView::initial(),
    {
        Client { base_url: base_url.to_owned(), config: Config::default() }
    }

    /// The same client with other settings, which replace the old ones
    /// whole.
    pub fn configure(self, config: Config) -> (client: Client)
        ensures
            client.base() == self.base(),
            client.settings() == config@,
    {
        Client { base_url: self.base_url, config }
    }

    /// The header set of every request of this client.
    pub fn headers(&self) -> (built: Result<HeaderMap<HeaderValue>, Error>)
        ensures
            match built {
                Ok(headers) => header_fault(self.settings()) is None && header_map_entries(headers)
                    == header_set(self.settings()),
                Err(error) => header_fault(self.settings()) == Some(error@),
            },
    {
        build_headers(&self.config)
    }

    /// The request without a body for `endpoint`, a path with its query
    /// string.
    pub fn request(&self, endpoint: &str, method: Method) -> (made: Result<Request, Error>)
        ensures
            self.plans(made, method, endpoint@, BodyView::Empty),
    {
        self.request_with_body(endpoint, method, Body::Empty)
    }

    /// The request for `endpoint`, a path with its query string, that
    /// carries `body`.
    pub fn request_with_body(&self, endpoint: &str, method: Method, body: Body) -> (made: Result<
        Request,
        Error,
    >)
        ensures
            self.plans(made, method, endpoint@, body@),
    {
        let headers = match self.headers() {
            Ok(headers) => headers,
            Err(error) => {
                return Err(error);
            },
        };
        let mut url = self.base_url.clone();
        url.append(endpoint);
        Ok(Request { method, url, headers, body })
    }

    /// Asks whether the authentication token is valid.
    pub fn authenticate(&self) -> (made: Result<Request, Error>)
        ensures
            self.plans(made, Method::Post, "/authenticate"@, BodyView::Empty),
    {
        self.request("/authenticate", Method::Post)
    }

    /// Asks whether the authorization token is valid.
    pub fn authorize(&self) -> (made: Result<Request, Error>)
        ensures
            self.plans(made, Method::Post, "/authorize"@, BodyView::Empty),
    {
        self.request("/authorize", Method::Post)
    }

    /// Asks for the active languages.
    pub fn get_languages(&self) -> (made: Result<Request, Error>)
        ensures
            self.plans(made, Method::Get, "/languages"@, BodyView::Empty),
    {
        self.request("/languages", Method::Get)
    }

    /// Asks for all languages, the archived ones too.
    pub fn get_all_languages(&self) -> (made: Result<Request, Error>)
        ensures
            self.plans(made, Method::Get, "/languages/all"@, BodyView::Empty),
    {
        self.request("/languages/all", Method::Get)
    }

    /// Asks for one language.
    pub fn get_language(&self, id: usize) -> (made: Result<Request, Error>)
        ensures
            self.plans(made, Method::Get, language_path(id as nat), BodyView::Empty),
    {
        let mut path = "/languages/".to_owned();
        let number = decimal(id);
        path.append(number.as_str());
        self.request(path.as_str(), Method::Get)
    }

    /// Asks for the statuses a submission can have.
    pub fn get_statuses(&self) -> (made: Result<Request, Error>)
        ensures
            self.plans(made, Method::Get, "/statuses"@, BodyView::Empty),
    {
        self.request("/statuses", Method::Get)
    }

    /// Asks what the service says of itself.
    pub fn get_about(&self) -> (made: Result<Request, Error>)
        ensures
            self.plans(made, Method::Get, "/about"@, BodyView::Empty),
    {
        self.request("/about", Method::Get)
    }

    /// Asks for the load of the execution queues.
    pub fn get_workers(&self) -> (made: Result<Request, Error>)
        ensures
            self.plans(made, Method::Get, "/workers"@, BodyView::Empty),
    {
        self.request("/workers", Method::Get)
    }

    /// Hands a submission to the service, as the object of the fields that a
    /// client sets and that are set. The encoding flag and the wait flag of
    /// the settings go with it.
    pub fn create_submission(&self, submission: Submission) -> (made: Result<Request, Error>)
        ensures
            self.plans(
                made,
                Method::Post,
                "/submissions"@ + query_text(create_query(self.settings())),
                BodyView::Object(input_fields(submission)),
            ),
    {
        let mut query: Vec<Param<'_>> = Vec::new();
        query.push(Param { name: "base64_encoded", value: flag(self.config.base64_encoded) });
        query.push(Param { name: "wait", value: flag(self.config.wait) });
        proof {
            assert(crate::text::params(query@) =~= create_query(self.settings()));
        }
        let address = endpoint("/submissions", &query);
        self.request_with_body(
            address.as_str(),
            Method::Post,
            Body::Object(submission.input_fields()),
        )
    }

    /// Asks for one submission, with the fields named in `fields` or, where
    /// none are named, with all of them.
    pub fn get_submission(&self, token: &str, fields: Option<&str>) -> (made: Result<
        Request,
        Error,
    >)
        ensures
            self.plans(
                made,
                Method::Get,
                submission_path(token@) + query_text(read_query(self.settings(), fields)),
                BodyView::Empty,
            ),
    {
        let selection = match fields {
            Some(list) => list,
            None => "*",
        };
        let mut query: Vec<Param<'_>> = Vec::new();
        query.push(Param { name: "base64_encoded", value: flag(self.config.base64_encoded) });
        query.push(Param { name: "wait", value: flag(self.config.wait) });
        query.push(Param { name: "fields", value: selection });
        proof {
            assert(crate::text::params(query@) =~= read_query(self.settings(), fields));
        }
        let mut path = "/submissions/".to_owned();
        path.append(token);
        let address = endpoint(path.as_str(), &query);
        self.request(address.as_str(), Method::Get)
    }

    /// Asks the service to delete one submission and to answer with what it
    /// held, with the fields named in `fields` or with all of them.
    pub fn delete_submission(&self, token: &str, fields: Option<&str>) -> (made: Result<
        Request,
        Error,
    >)
        ensures
            self.plans(
                made,
                Method::Delete,
                submission_path(token@) + query_text(delete_query(fields)),
                BodyView::Empty,
            ),
    {
        let selection = match fields {
            Some(list) => list,
            None => "*",
        };
        let mut query: Vec<Param<'_>> = Vec::new();
        query.push(Param { name: "fields", value: selection });
        proof {
            assert(crate::text::params(query@) =~= delete_query(fields));
        }
        let mut path = "/submissions/".to_owned();
        path.append(token);
        let address = endpoint(path.as_str(), &query);
        self.request(address.as_str(), Method::Delete)
    }

    /// Hands several submissions to the service at once, as an array of
    /// their objects in the order given.
    pub fn batch_submit(&self, submissions: Vec<Submission>) -> (made: Result<Request, Error>)
        ensures
            self.plans(
                made,
                Method::Post,
                "/submissions/batch"@ + query_text(batch_query(self.settings())),
                BodyView::Array(all_input_fields(submissions@)),
            ),
    {
        let mut query: Vec<Param<'_>> = Vec::new();
        query.push(Param { name: "base64_encoded", value: flag(self.config.base64_encoded) });
        proof {
            assert(crate::text::params(query@) =~= batch_query(self.settings()));
        }
        let address = endpoint("/submissions/batch", &query);
        self.request_with_body(
            address.as_str(),
            Method::Post,
            Body::Array(all_fields(&submissions)),
        )
    }

    /// Asks for several submissions by their tokens, which go into the query
    /// in their order with a comma between each two.
    pub fn get_batch_submission(&self, tokens: Vec<&str>, fields: Option<&str>) -> (made: Result<
        Request,
        Error,
    >)
        ensures
            self.plans(
                made,
                Method::Get,
                "/submissions/batch"@ + query_text(
                    batch_read_query(self.settings(), tokens@, fields),
                ),
                BodyView::Empty,
            ),
    {
        let selection = match fields {
            Some(list) => list,
            None => "*",
        };
        let list = join(&tokens, ",");
        let mut query: Vec<Param<'_>> = Vec::new();
        query.push(Param { name: "tokens", value: list.as_str() });
        query.push(Param { name: "base64_encoded", value: flag(self.config.base64_encoded) });
        query.push(Param { name: "fields", value: selection });
        proof {
            assert(crate::text::params(query@) =~= batch_read_query(
                self.settings(),
                tokens@,
                fields,
            ));
        }
        let address = endpoint("/submissions/batch", &query);
        self.request(address.as_str(), Method::Get)
    }
}

} // verus!
