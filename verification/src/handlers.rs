//! The six handlers. A handler does not talk to the database itself: it says
//! which statement is to be run, and what it is waiting for; once the
//! database has answered, [`resume`] gives the response.

use crate::clock;
use crate::clock::Timestamp;
use crate::credentials;
use crate::credentials::{bcrypt_verify, is_hash_of, verdict, CredentialError};
use crate::gateway::{Query, QueryView, Reply, ReplyView};
use crate::models::{
    LoginCredentials, LoginCredentialsView, NewContent, NewContentView, NewUser, NewUserView,
    UpdateContent, UpdateContentView, User, UserView,
};
use crate::response::{Response, ResponseView, Status};
use crate::routes::{Endpoint, Route};
use vstd::prelude::*;

verus! {

/// What a handler that has sent its statement is waiting for.
#[derive(Debug, PartialEq, Eq)]
pub enum Pending {
    Register,
    /// A login keeps the cleartext password until the user row is there.
    Login { password: String },
    CreateContent,
    GetContent,
    UpdateContent,
    DeleteContent,
}

/// A [`Pending`] in contracts.
pub enum PendingView {
    Register,
    Login { password: Seq<char> },
    CreateContent,
    GetContent,
    UpdateContent,
    DeleteContent,
}

impl View for Pending {
    type V = PendingView;

    open spec fn view(&self) -> PendingView {
        match self {
            Pending::Register => PendingView::Register,
            Pending::Login { password } => PendingView::Login { password: password@ },
            Pending::CreateContent => PendingView::CreateContent,
            Pending::GetContent => PendingView::GetContent,
            Pending::UpdateContent => PendingView::UpdateContent,
            Pending::DeleteContent => PendingView::DeleteContent,
        }
    }
}

/// What a handler asks for next.
#[derive(Debug, PartialEq, Eq)]
pub enum Step {
    /// Run `query`, and hand its answer to [`resume`] together with
    /// `pending`.
    Ask { query: Query, pending: Pending },
    /// Answer with this response; the database is not needed.
    Done(Response),
}

/// A [`Step`] in contracts.
pub enum StepView {
    Ask { query: QueryView, pending: PendingView },
    Done(ResponseView),
}

impl View for Step {
    type V = StepView;

    open spec fn view(&self) -> StepView {
        match self {
            Step::Ask { query, pending } => StepView::Ask { query: query@, pending: pending@ },
            Step::Done(response) => StepView::Done(response@),
        }
    }
}

/// The characters of a hashing result.
pub open spec fn hashed_view(hashed: Result<String, CredentialError>) -> Result<
    Seq<char>,
    CredentialError,
> {
    match hashed {
        Ok(hash) => Ok(hash@),
        Err(error) => Err(error),
    }
}

/// Registration, once the password went through hashing at the instant
/// `now`: where hashing failed, an internal error; else the insert of the
/// user with the hash in place of the password.
pub open spec fn register_step(
    user: NewUserView,
    hashed: Result<Seq<char>, CredentialError>,
    now: Timestamp,
) -> StepView {
    match hashed {
        Ok(password_hash) => StepView::Ask {
            query: QueryView::InsertUser {
                username: user.username,
                password_hash,
                created_at: now,
            },
            pending: PendingView::Register,
        },
        Err(_) => StepView::Done(ResponseView::bare(Status::InternalServerError)),
    }
}

/// Login: the search for the user by name, with the password kept for later.
pub open spec fn login_step(creds: LoginCredentialsView) -> StepView {
    StepView::Ask {
        query: QueryView::FindUserByName { username: creds.username },
        pending: PendingView::Login { password: creds.password },
    }
}

/// Content creation at the instant `now`: the insert, with the author taken
/// from the path.
pub open spec fn create_content_step(
    content: NewContentView,
    user_id: i32,
    now: Timestamp,
) -> StepView {
    StepView::Ask {
        query: QueryView::InsertContent {
            title: content.title,
            body: content.body,
            author_id: user_id,
            now,
        },
        pending: PendingView::CreateContent,
    }
}

/// Content retrieval: the search by id.
pub open spec fn get_content_step(content_id: i32) -> StepView {
    StepView::Ask {
        query: QueryView::FindContent { id: content_id },
        pending: PendingView::GetContent,
    }
}

/// Partial update at the instant `now`: one statement that carries both
/// fields as supplied.
pub open spec fn update_content_step(
    content_id: i32,
    update: UpdateContentView,
    now: Timestamp,
) -> StepView {
    StepView::Ask {
        query: QueryView::UpdateContent {
            id: content_id,
            title: update.title,
            body: update.body,
            now,
        },
        pending: PendingView::UpdateContent,
    }
}

/// Content deletion: the delete by id.
pub open spec fn delete_content_step(content_id: i32) -> StepView {
    StepView::Ask {
        query: QueryView::DeleteContent { id: content_id },
        pending: PendingView::DeleteContent,
    }
}

/// The response to a login once the user row is there and the password was
/// checked against its hash: the row on a match, 401 on a mismatch, and an
/// internal error where the stored hash is malformed.
pub open spec fn login_response(
    user: UserView,
    checked: Result<bool, CredentialError>,
) -> ResponseView {
    match checked {
        Ok(true) => ResponseView::with_user(Status::Success, user),
        Ok(false) => ResponseView::bare(Status::Unauthorized),
        Err(_) => ResponseView::bare(Status::InternalServerError),
    }
}

/// The response of a handler that waited with `pending` and got `reply`.
/// A failed statement, and an answer that does not belong to the statement
/// sent, are internal errors.
pub open spec fn respond(pending: PendingView, reply: ReplyView) -> ResponseView {
    match (pending, reply) {
        (PendingView::Register, ReplyView::User(user)) => ResponseView::with_user(
            Status::Created,
            user,
        ),
        (PendingView::Login { password }, ReplyView::UserLookup(Some(user))) => login_response(
            user,
            verdict(bcrypt_verify(password, user.password_hash)),
        ),
        (PendingView::Login { password }, ReplyView::UserLookup(None)) => ResponseView::bare(
            Status::Unauthorized,
        ),
        (PendingView::CreateContent, ReplyView::Content(content)) => ResponseView::with_content(
            Status::Created,
            content,
        ),
        (PendingView::GetContent, ReplyView::ContentLookup(Some(content)))
        | (PendingView::UpdateContent, ReplyView::ContentLookup(Some(content))) => {
            ResponseView::with_content(Status::Success, content)
        },
        (PendingView::GetContent, ReplyView::ContentLookup(None))
        | (PendingView::UpdateContent, ReplyView::ContentLookup(None)) => ResponseView::bare(
            Status::NotFound,
        ),
        (PendingView::DeleteContent, ReplyView::Removed(count)) => if count > 0 {
            ResponseView::bare(Status::NoContent)
        } else {
            ResponseView::bare(Status::NotFound)
        },
        _ => ResponseView::bare(Status::InternalServerError),
    }
}

/// Whether `step` is one that a registration of `user` may take: an internal
/// error where hashing failed, else the insert of the user with a hash of
/// the password in its place.
pub open spec fn registers(user: NewUserView, step: StepView) -> bool {
    match step {
        StepView::Ask { query, pending } => {
            &&& pending == PendingView::Register
            &&& query matches QueryView::InsertUser { username, password_hash, created_at }
            &&& username == user.username
            &&& is_hash_of(user.password, password_hash)
        },
        StepView::Done(response) => response == ResponseView::bare(Status::InternalServerError),
    }
}

/// What a request carries in its body, once read.
#[derive(Debug, PartialEq, Eq)]
pub enum Payload {
    /// No body, or one that cannot be read as what the handler takes.
    Missing,
    NewUser(NewUser),
    Credentials(LoginCredentials),
    NewContent(NewContent),
    Update(UpdateContent),
}

/// A [`Payload`] in contracts.
pub enum PayloadView {
    Missing,
    NewUser(NewUserView),
    Credentials(LoginCredentialsView),
    NewContent(NewContentView),
    Update(UpdateContentView),
}

impl View for Payload {
    type V = PayloadView;

    open spec fn view(&self) -> PayloadView {
        match self {
            Payload::Missing => PayloadView::Missing,
            Payload::NewUser(user) => PayloadView::NewUser(user@),
            Payload::Credentials(creds) => PayloadView::Credentials(creds@),
            Payload::NewContent(content) => PayloadView::NewContent(content@),
            Payload::Update(update) => PayloadView::Update(update@),
        }
    }
}

/// Whether `step` is one that the handler behind `route` may take on
/// `payload`. A payload that is not what the handler takes is a bad request;
/// the two handlers that take none do not look at it. A route that the
/// routing table cannot give is an unknown route.
pub open spec fn dispatched(route: Route, payload: PayloadView, step: StepView) -> bool {
    let bad_request = StepView::Done(ResponseView::bare(Status::BadRequest));
    match (route.endpoint, route.id) {
        (Endpoint::Register, None) => match payload {
            PayloadView::NewUser(user) => registers(user, step),
            _ => step == bad_request,
        },
        (Endpoint::Login, None) => match payload {
            PayloadView::Credentials(creds) => step == login_step(creds),
            _ => step == bad_request,
        },
        (Endpoint::CreateContent, Some(user_id)) => match payload {
            PayloadView::NewContent(content) => exists|now: Timestamp|
                step == create_content_step(content, user_id, now),
            _ => step == bad_request,
        },
        (Endpoint::GetContent, Some(id)) => step == get_content_step(id),
        (Endpoint::UpdateContent, Some(id)) => match payload {
            PayloadView::Update(update) => exists|now: Timestamp|
                step == update_content_step(id, update, now),
            _ => step == bad_request,
        },
        (Endpoint::DeleteContent, Some(id)) => step == delete_content_step(id),
        _ => step == StepView::Done(ResponseView::unknown_route()),
    }
}

/// `POST /api/auth/register`: hashes the password and asks for the insert of
/// the user, stamped with the current instant.
///
/// The salt and the instant are drawn here, so the contract says what holds
/// of every draw; [`register_hashed`] says what is made of each.
pub fn register(user: NewUser) -> (step: Step)
    ensures
        registers(user@, step@),
{
    let hashed = credentials::hash(user.password.as_str());
    register_hashed(user, hashed, clock::now())
}

/// Registration with the hashing result and the instant given.
pub fn register_hashed(
    user: NewUser,
    hashed: Result<String, CredentialError>,
    now: Timestamp,
) -> (step: Step)
    ensures
        step@ == register_step(user@, hashed_view(hashed), now),
{
    match hashed {
        Ok(password_hash) => Step::Ask {
            query: Query::InsertUser { username: user.username, password_hash, created_at: now },
            pending: Pending::Register,
        },
        Err(_) => Step::Done(Response::bare(Status::InternalServerError)),
    }
}

/// `POST /api/auth/login`: asks for the user of that name.
pub fn login(creds: LoginCredentials) -> (step: Step)
    ensures
        step@ == login_step(creds@),
{
    Step::Ask {
        query: Query::FindUserByName { username: creds.username },
        pending: Pending::Login { password: creds.password },
    }
}

/// `POST /api/content/{user_id}`: asks for the insert of the content,
/// stamped with the current instant.
pub fn create_content(content: NewContent, user_id: i32) -> (step: Step)
    ensures
        exists|now: Timestamp| step@ == create_content_step(content@, user_id, now),
{
    create_content_at(content, user_id, clock::now())
}

/// Content creation at a given instant.
pub fn create_content_at(content: NewContent, user_id: i32, now: Timestamp) -> (step: Step)
    ensures
        step@ == create_content_step(content@, user_id, now),
{
    Step::Ask {
        query: Query::InsertContent {
            title: content.title,
            body: content.body,
            author_id: user_id,
            now,
        },
        pending: Pending::CreateContent,
    }
}

/// `GET /api/content/{id}`: asks for the row.
pub fn get_content(content_id: i32) -> (step: Step)
    ensures
        step@ == get_content_step(content_id),
{
    Step::Ask { query: Query::FindContent { id: content_id }, pending: Pending::GetContent }
}

/// `PUT /api/content/{id}`: asks for the partial update, stamped with the
/// current instant.
pub fn update_content(content_id: i32, update: UpdateContent) -> (step: Step)
    ensures
        exists|now: Timestamp| step@ == update_content_step(content_id, update@, now),
{
    update_content_at(content_id, update, clock::now())
}

/// Partial update at a given instant.
pub fn update_content_at(content_id: i32, update: UpdateContent, now: Timestamp) -> (step: Step)
    ensures
        step@ == update_content_step(content_id, update@, now),
{
    Step::Ask {
        query: Query::UpdateContent {
            id: content_id,
            title: update.title,
            body: update.body,
            now,
        },
        pending: Pending::UpdateContent,
    }
}

/// `DELETE /api/content/{id}`: asks for the delete.
pub fn delete_content(content_id: i32) -> (step: Step)
    ensures
        step@ == delete_content_step(content_id),
{
    Step::Ask { query: Query::DeleteContent { id: content_id }, pending: Pending::DeleteContent }
}

/// Hands a request to the handler behind its route.
pub fn dispatch(route: Route, payload: Payload) -> (step: Step)
    ensures
        dispatched(route, payload@, step@),
{
    match (route.endpoint, route.id) {
        (Endpoint::Register, None) => match payload {
            Payload::NewUser(user) => register(user),
            _ => Step::Done(Response::bare(Status::BadRequest)),
        },
        (Endpoint::Login, None) => match payload {
            Payload::Credentials(creds) => login(creds),
            _ => Step::Done(Response::bare(Status::BadRequest)),
        },
        (Endpoint::CreateContent, Some(user_id)) => match payload {
            Payload::NewContent(content) => create_content(content, user_id),
            _ => Step::Done(Response::bare(Status::BadRequest)),
        },
        (Endpoint::GetContent, Some(id)) => get_content(id),
        (Endpoint::UpdateContent, Some(id)) => match payload {
            Payload::Update(update) => update_content(id, update),
            _ => Step::Done(Response::bare(Status::BadRequest)),
        },
        (Endpoint::DeleteContent, Some(id)) => delete_content(id),
        _ => Step::Done(Response::unknown_route()),
    }
}

/// The response to a login, given the user row and the outcome of the
/// password check.
pub fn login_verdict(user: User, checked: Result<bool, CredentialError>) -> (response: Response)
    ensures
        response@ == login_response(user@, checked),
{
    match checked {
        Ok(true) => Response::with_user(Status::Success, user),
        Ok(false) => Response::bare(Status::Unauthorized),
        Err(_) => Response::bare(Status::InternalServerError),
    }
}

/// Takes a handler up again where it waited: gives the response to the
/// database's answer. A login checks the password here.
pub fn resume(pending: Pending, reply: Reply) -> (response: Response)
    ensures
        response@ == respond(pending@, reply@),
{
    match pending {
        Pending::Register => match reply {
            Reply::User(user) => Response::with_user(Status::Created, user),
            _ => Response::bare(Status::InternalServerError),
        },
        Pending::Login { password } => match reply {
            Reply::UserLookup(Some(user)) => {
                let checked = credentials::verify(password.as_str(), user.password_hash.as_str());
                login_verdict(user, checked)
            },
            Reply::UserLookup(None) => Response::bare(Status::Unauthorized),
            _ => Response::bare(Status::InternalServerError),
        },
        Pending::CreateContent => match reply {
            Reply::Content(content) => Response::with_content(Status::Created, content),
            _ => Response::bare(Status::InternalServerError),
        },
        Pending::GetContent | Pending::UpdateContent => match reply {
            Reply::ContentLookup(Some(content)) => Response::with_content(Status::Success, content),
            Reply::ContentLookup(None) => Response::bare(Status::NotFound),
            _ => Response::bare(Status::InternalServerError),
        },
        Pending::DeleteContent => match reply {
            Reply::Removed(count) => if count > 0 {
                Response::bare(Status::NoContent)
            } else {
                Response::bare(Status::NotFound)
            },
            _ => Response::bare(Status::InternalServerError),
        },
    }
}

} // verus!
