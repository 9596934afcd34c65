use content_backend::clock::Timestamp;
use content_backend::credentials::CredentialError;
use content_backend::gateway::{GatewayError, Query, Reply};
use content_backend::handlers::{
    create_content, create_content_at, delete_content, dispatch, get_content, login,
    login_verdict, register, register_hashed, resume, update_content, update_content_at, Payload,
    Pending, Step,
};
use content_backend::models::{
    Content, LoginCredentials, NewContent, NewUser, UpdateContent, User,
};
use content_backend::response::{Body, Response, Status};
use content_backend::routes::{Endpoint, Route};

const KNOWN_HASH: &str = "$2b$04$EGdrhbKUv8Oc9vGiXX0HQOxSg445d458Muh7DAHskb6QbtCvdxcie";

fn noon() -> Timestamp {
    Timestamp { secs: 1_700_000_000, nanos: 5 }
}

fn alice_row(hash: &str) -> User {
    User {
        id: 1,
        username: "alice".to_string(),
        password_hash: hash.to_string(),
        created_at: noon(),
    }
}

fn first_content() -> Content {
    Content {
        id: 1,
        title: "T1".to_string(),
        body: "B1".to_string(),
        author_id: 7,
        created_at: noon(),
        updated_at: noon(),
    }
}

fn internal_error() -> Response {
    Response { status: Status::InternalServerError, body: Body::Empty }
}

#[test]
fn register_asks_for_the_insert_with_a_hash() {
    let user = NewUser { username: "alice".to_string(), password: "s3cret".to_string() };
    match register(user) {
        Step::Ask { query: Query::InsertUser { username, password_hash, .. }, pending } => {
            assert_eq!(username, "alice");
            assert_eq!(pending, Pending::Register);
            assert_ne!(password_hash, "s3cret");
            assert_eq!(password_hash.len(), 60);
            assert_eq!(content_backend::credentials::verify("s3cret", &password_hash), Ok(true));
        },
        other => panic!("unexpected step {:?}", other),
    }
}

#[test]
fn register_hashed_puts_the_hash_in_the_insert() {
    let user = NewUser { username: "alice".to_string(), password: "s3cret".to_string() };
    assert_eq!(
        register_hashed(user, Ok("hash-of-s3cret".to_string()), noon()),
        Step::Ask {
            query: Query::InsertUser {
                username: "alice".to_string(),
                password_hash: "hash-of-s3cret".to_string(),
                created_at: noon(),
            },
            pending: Pending::Register,
        }
    );
}

#[test]
fn register_hashed_answers_500_where_hashing_failed() {
    let user = NewUser { username: "alice".to_string(), password: "s3cret".to_string() };
    assert_eq!(
        register_hashed(user, Err(CredentialError::Hashing), noon()),
        Step::Done(internal_error())
    );
}

#[test]
fn login_asks_for_the_user_and_keeps_the_password() {
    let creds = LoginCredentials { username: "alice".to_string(), password: "s3cret".to_string() };
    assert_eq!(
        login(creds),
        Step::Ask {
            query: Query::FindUserByName { username: "alice".to_string() },
            pending: Pending::Login { password: "s3cret".to_string() },
        }
    );
}

#[test]
fn create_content_at_takes_the_author_from_the_path() {
    let content = NewContent { title: "T1".to_string(), body: "B1".to_string() };
    assert_eq!(
        create_content_at(content, 7, noon()),
        Step::Ask {
            query: Query::InsertContent {
                title: "T1".to_string(),
                body: "B1".to_string(),
                author_id: 7,
                now: noon(),
            },
            pending: Pending::CreateContent,
        }
    );
}

#[test]
fn create_content_stamps_the_insert() {
    let content = NewContent { title: "T1".to_string(), body: "B1".to_string() };
    match create_content(content, -3) {
        Step::Ask { query: Query::InsertContent { title, body, author_id, now }, pending } => {
            assert_eq!(title, "T1");
            assert_eq!(body, "B1");
            assert_eq!(author_id, -3);
            assert!(now.secs > 1_600_000_000);
            assert_eq!(pending, Pending::CreateContent);
        },
        other => panic!("unexpected step {:?}", other),
    }
}

#[test]
fn get_content_asks_for_the_row() {
    assert_eq!(
        get_content(41),
        Step::Ask { query: Query::FindContent { id: 41 }, pending: Pending::GetContent }
    );
}

#[test]
fn update_content_at_carries_both_fields_as_supplied() {
    let update = UpdateContent { title: None, body: Some(String::new()) };
    assert_eq!(
        update_content_at(41, update, noon()),
        Step::Ask {
            query: Query::UpdateContent {
                id: 41,
                title: None,
                body: Some(String::new()),
                now: noon(),
            },
            pending: Pending::UpdateContent,
        }
    );
}

#[test]
fn update_content_stamps_the_update() {
    let update = UpdateContent { title: Some("T2".to_string()), body: None };
    match update_content(41, update) {
        Step::Ask { query: Query::UpdateContent { id, title, body, now }, pending } => {
            assert_eq!(id, 41);
            assert_eq!(title, Some("T2".to_string()));
            assert_eq!(body, None);
            assert!(now.secs > 1_600_000_000);
            assert_eq!(pending, Pending::UpdateContent);
        },
        other => panic!("unexpected step {:?}", other),
    }
}

#[test]
fn delete_content_asks_for_the_delete() {
    assert_eq!(
        delete_content(41),
        Step::Ask { query: Query::DeleteContent { id: 41 }, pending: Pending::DeleteContent }
    );
}

#[test]
fn resume_register_answers_201_with_the_row() {
    assert_eq!(
        resume(Pending::Register, Reply::User(alice_row("h"))),
        Response { status: Status::Created, body: Body::User(alice_row("h")) }
    );
}

#[test]
fn resume_register_answers_500_on_a_taken_username() {
    assert_eq!(
        resume(Pending::Register, Reply::Failed(GatewayError::UniqueViolation)),
        internal_error()
    );
}

#[test]
fn resume_answers_500_on_any_failure() {
    assert_eq!(resume(Pending::Register, Reply::Failed(GatewayError::OutOfIds)), internal_error());
    assert_eq!(
        resume(
            Pending::Login { password: "x".to_string() },
            Reply::Failed(GatewayError::Unavailable)
        ),
        internal_error()
    );
    assert_eq!(
        resume(Pending::CreateContent, Reply::Failed(GatewayError::OutOfIds)),
        internal_error()
    );
    assert_eq!(
        resume(Pending::GetContent, Reply::Failed(GatewayError::Unavailable)),
        internal_error()
    );
    assert_eq!(
        resume(Pending::UpdateContent, Reply::Failed(GatewayError::Unavailable)),
        internal_error()
    );
    assert_eq!(
        resume(Pending::DeleteContent, Reply::Failed(GatewayError::Unavailable)),
        internal_error()
    );
}

#[test]
fn resume_answers_500_on_an_answer_to_another_statement() {
    assert_eq!(resume(Pending::Register, Reply::Removed(1)), internal_error());
    assert_eq!(resume(Pending::DeleteContent, Reply::ContentLookup(None)), internal_error());
    assert_eq!(resume(Pending::GetContent, Reply::Content(first_content())), internal_error());
    assert_eq!(resume(Pending::CreateContent, Reply::UserLookup(None)), internal_error());
}

#[test]
fn resume_login_checks_the_password() {
    let found = Reply::UserLookup(Some(alice_row(KNOWN_HASH)));
    assert_eq!(
        resume(Pending::Login { password: "correctbatteryhorsestapler".to_string() }, found),
        Response { status: Status::Success, body: Body::User(alice_row(KNOWN_HASH)) }
    );
    let found = Reply::UserLookup(Some(alice_row(KNOWN_HASH)));
    assert_eq!(
        resume(Pending::Login { password: "nope".to_string() }, found),
        Response { status: Status::Unauthorized, body: Body::Empty }
    );
}

#[test]
fn resume_login_answers_401_for_an_unknown_user() {
    assert_eq!(
        resume(Pending::Login { password: "x".to_string() }, Reply::UserLookup(None)),
        Response { status: Status::Unauthorized, body: Body::Empty }
    );
}

#[test]
fn resume_login_answers_500_on_a_malformed_stored_hash() {
    let found = Reply::UserLookup(Some(alice_row("s3cret")));
    assert_eq!(resume(Pending::Login { password: "s3cret".to_string() }, found), internal_error());
}

#[test]
fn login_verdict_has_three_answers() {
    assert_eq!(
        login_verdict(alice_row("h"), Ok(true)),
        Response { status: Status::Success, body: Body::User(alice_row("h")) }
    );
    assert_eq!(
        login_verdict(alice_row("h"), Ok(false)),
        Response { status: Status::Unauthorized, body: Body::Empty }
    );
    assert_eq!(
        login_verdict(alice_row("h"), Err(CredentialError::MalformedHash)),
        internal_error()
    );
}

#[test]
fn resume_content_answers() {
    assert_eq!(
        resume(Pending::CreateContent, Reply::Content(first_content())),
        Response { status: Status::Created, body: Body::Content(first_content()) }
    );
    assert_eq!(
        resume(Pending::GetContent, Reply::ContentLookup(Some(first_content()))),
        Response { status: Status::Success, body: Body::Content(first_content()) }
    );
    assert_eq!(
        resume(Pending::GetContent, Reply::ContentLookup(None)),
        Response { status: Status::NotFound, body: Body::Empty }
    );
    assert_eq!(
        resume(Pending::UpdateContent, Reply::ContentLookup(Some(first_content()))),
        Response { status: Status::Success, body: Body::Content(first_content()) }
    );
    assert_eq!(
        resume(Pending::UpdateContent, Reply::ContentLookup(None)),
        Response { status: Status::NotFound, body: Body::Empty }
    );
}

#[test]
fn resume_delete_answers_by_the_count() {
    assert_eq!(
        resume(Pending::DeleteContent, Reply::Removed(1)),
        Response { status: Status::NoContent, body: Body::Empty }
    );
    assert_eq!(
        resume(Pending::DeleteContent, Reply::Removed(3)),
        Response { status: Status::NoContent, body: Body::Empty }
    );
    assert_eq!(
        resume(Pending::DeleteContent, Reply::Removed(0)),
        Response { status: Status::NotFound, body: Body::Empty }
    );
}

#[test]
fn dispatch_answers_404_for_a_route_that_the_table_cannot_give() {
    let unknown = Step::Done(Response::unknown_route());
    assert_eq!(
        dispatch(Route { endpoint: Endpoint::Register, id: Some(1) }, Payload::Missing),
        unknown
    );
    assert_eq!(
        dispatch(Route { endpoint: Endpoint::Login, id: Some(1) }, Payload::Missing),
        unknown
    );
    assert_eq!(
        dispatch(Route { endpoint: Endpoint::GetContent, id: None }, Payload::Missing),
        unknown
    );
    assert_eq!(
        dispatch(Route { endpoint: Endpoint::DeleteContent, id: None }, Payload::Missing),
        unknown
    );
    assert_eq!(
        dispatch(Route { endpoint: Endpoint::CreateContent, id: None }, Payload::Missing),
        unknown
    );
    assert_eq!(
        dispatch(Route { endpoint: Endpoint::UpdateContent, id: None }, Payload::Missing),
        unknown
    );
}
