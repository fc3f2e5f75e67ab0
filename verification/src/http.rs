//! Requests and replies as plain values.
//!
//! The client never opens a connection. It says which request is to be sent,
//! as an [`HttpRequest`], and is told what came of it, as an [`HttpReply`].

use vstd::prelude::*;

verus! {

/// The verb of a request.
#[derive(Debug, Clone, Copy, PartialEq, Eq, Structural)]
pub enum HttpMethod {
    Get,
    Post,
}

/// A name with its value: a header of a request, or a member of the JSON
/// object in its body.
#[derive(Debug)]
pub struct Field {
    pub name: String,
    pub value: String,
}

pub struct FieldView {
    pub name: Seq<char>,
    pub value: Seq<char>,
}

impl View for Field {
    type V = FieldView;

    open spec fn view(&self) -> FieldView {
        FieldView { name: self.name@, value: self.value@ }
    }
}

impl Field {
    /// The field `name` with the value `value`.
    pub fn new(name: &str, value: &str) -> (field: Field)
        ensures
            field@ == field_view(name@, value@),
    {
        Field { name: name.to_owned(), value: value.to_owned() }
    }
}

/// The field `name` with the value `value`.
pub open spec fn field_view(name: Seq<char>, value: Seq<char>) -> FieldView {
    FieldView { name, value }
}

/// The views of a list of fields, in order.
pub open spec fn fields_view(fields: Seq<Field>) -> Seq<FieldView> {
    fields.map_values(|f: Field| f@)
}

/// A request for the embedding to send.
#[derive(Debug)]
pub struct HttpRequest {
    pub method: HttpMethod,
    /// The address in full.
    pub url: String,
    /// The headers, in the order in which they are to be set.
    pub headers: Vec<Field>,
    /// The members of the JSON object that makes the body, each value a JSON
    /// string; `None` where the request has no body.
    pub body: Option<Vec<Field>>,
}

pub struct HttpRequestView {
    pub method: HttpMethod,
    pub url: Seq<char>,
    pub headers: Seq<FieldView>,
    pub body: Option<Seq<FieldView>>,
}

impl View for HttpRequest {
    type V = HttpRequestView;

    open spec fn view(&self) -> HttpRequestView {
        HttpRequestView {
            method: self.method,
            url: self.url@,
            headers: fields_view(self.headers@),
            body: match self.body {
                Some(fields) => Some(fields_view(fields@)),
                None => None,
            },
        }
    }
}

/// Whether a status code reports success: the codes from 200 to 299.
pub open spec fn is_success(status: u16) -> bool {
    200 <= status < 300
}

/// Whether `status` reports success.
pub fn status_is_success(status: u16) -> (success: bool)
    ensures
        success == is_success(status),
{
    200 <= status && status < 300
}

/// What came of sending one request.
///
/// The embedding reads the body of an answer both ways, as the shape `T`
/// that the operation expects and as the service's error object, and hands
/// over what each reading gave. Which of the two counts is for the client to
/// say.
#[derive(Debug)]
pub enum HttpReply<T> {
    /// No answer arrived. `message` is what the transport said of it.
    Failed { message: String },
    /// The service answered.
    Answered {
        /// The status code of the answer.
        status: u16,
        /// The body read as `T`, or why it could not be.
        payload: std::result::Result<T, String>,
        /// The member `error` of the body, where the body is a JSON object
        /// that has one and it is a string.
        error: Option<String>,
    },
}

impl<T> HttpReply<T> {
    /// Whether the service answered with a status that reports success.
    pub open spec fn succeeded(self) -> bool {
        match self {
            HttpReply::Answered { status, .. } => is_success(status),
            HttpReply::Failed { .. } => false,
        }
    }

    /// Whether the service answered with a status that reports success.
    pub fn is_success(&self) -> (success: bool)
        ensures
            success == self.succeeded(),
    {
        match self {
            HttpReply::Answered { status, .. } => status_is_success(*status),
            HttpReply::Failed { .. } => false,
        }
    }
}

} // verus!
