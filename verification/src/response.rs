//! What a handler answers: a status and a body. The body is kept as a value;
//! writing it out as JSON is left to the server around the library.

use crate::models::{Content, ContentView, User, UserView};
use vstd::prelude::*;
use vstd::string::StringExecFns;

verus! {

/// The statuses that the server answers with. `BadRequest` is for a payload
/// that could not be read; no handler gives it.
#[derive(Clone, Copy, Debug, PartialEq, Eq, Structural)]
pub enum Status {
    Success,
    Created,
    NoContent,
    BadRequest,
    Unauthorized,
    NotFound,
    InternalServerError,
}

impl Status {
    /// The status code on the wire.
    pub open spec fn code_of(self) -> u16 {
        match self {
            Status::Success => 200,
            Status::Created => 201,
            Status::NoContent => 204,
            Status::BadRequest => 400,
            Status::Unauthorized => 401,
            Status::NotFound => 404,
            Status::InternalServerError => 500,
        }
    }

    /// The status code on the wire.
    pub fn code(&self) -> (c: u16)
        ensures
            c == self.code_of(),
    {
        match self {
            Status::Success => 200,
            Status::Created => 201,
            Status::NoContent => 204,
            Status::BadRequest => 400,
            Status::Unauthorized => 401,
            Status::NotFound => 404,
            Status::InternalServerError => 500,
        }
    }
}

/// The body of a response.
#[derive(Debug, PartialEq, Eq)]
pub enum Body {
    /// No body at all.
    Empty,
    /// A user row, as a JSON object.
    User(User),
    /// A content row, as a JSON object.
    Content(Content),
    /// A text, as a JSON string.
    Text(String),
}

/// A [`Body`] in contracts.
pub enum BodyView {
    Empty,
    User(UserView),
    Content(ContentView),
    Text(Seq<char>),
}

impl View for Body {
    type V = BodyView;

    open spec fn view(&self) -> BodyView {
        match self {
            Body::Empty => BodyView::Empty,
            Body::User(user) => BodyView::User(user@),
            Body::Content(content) => BodyView::Content(content@),
            Body::Text(text) => BodyView::Text(text@),
        }
    }
}

/// A response.
#[derive(Debug, PartialEq, Eq)]
pub struct Response {
    pub status: Status,
    pub body: Body,
}

/// A [`Response`] in contracts.
pub struct ResponseView {
    pub status: Status,
    pub body: BodyView,
}

impl View for Response {
    type V = ResponseView;

    open spec fn view(&self) -> ResponseView {
        ResponseView { status: self.status, body: self.body@ }
    }
}

impl ResponseView {
    /// A response without a body.
    pub open spec fn bare(status: Status) -> ResponseView {
        ResponseView { status, body: BodyView::Empty }
    }

    /// A response that carries a user row.
    pub open spec fn with_user(status: Status, user: UserView) -> ResponseView {
        ResponseView { status, body: BodyView::User(user) }
    }

    /// A response that carries a content row.
    pub open spec fn with_content(status: Status, content: ContentView) -> ResponseView {
        ResponseView { status, body: BodyView::Content(content) }
    }

    /// The answer to a request that no route takes: 404, with the text
    /// `404 Not Found` as its body.
    pub open spec fn unknown_route() -> ResponseView {
        ResponseView { status: Status::NotFound, body: BodyView::Text("404 Not Found"@) }
    }
}

impl Response {
    /// A response without a body.
    pub fn bare(status: Status) -> (r: Response)
        ensures
            r@ == ResponseView::bare(status),
    {
        Response { status, body: Body::Empty }
    }

    /// A response that carries a user row.
    pub fn with_user(status: Status, user: User) -> (r: Response)
        ensures
            r@ == ResponseView::with_user(status, user@),
    {
        Response { status, body: Body::User(user) }
    }

    /// A response that carries a content row.
    pub fn with_content(status: Status, content: Content) -> (r: Response)
        ensures
            r@ == ResponseView::with_content(status, content@),
    {
        Response { status, body: Body::Content(content) }
    }

    /// The answer to a request that no route takes.
    pub fn unknown_route() -> (r: Response)
        ensures
            r@ == ResponseView::unknown_route(),
    {
        Response { status: Status::NotFound, body: Body::Text(String::from_str("404 Not Found")) }
    }
}

} // verus!
