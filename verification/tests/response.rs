use content_backend::clock::Timestamp;
use content_backend::models::{Content, User};
use content_backend::response::{Body, Response, Status};

#[test]
fn status_codes() {
    assert_eq!(Status::Success.code(), 200);
    assert_eq!(Status::Created.code(), 201);
    assert_eq!(Status::NoContent.code(), 204);
    assert_eq!(Status::BadRequest.code(), 400);
    assert_eq!(Status::Unauthorized.code(), 401);
    assert_eq!(Status::NotFound.code(), 404);
    assert_eq!(Status::InternalServerError.code(), 500);
}

#[test]
fn response_constructors() {
    let at = Timestamp { secs: 3, nanos: 4 };
    let user =
        User { id: 1, username: "u".to_string(), password_hash: "h".to_string(), created_at: at };
    let content = Content {
        id: 2,
        title: "t".to_string(),
        body: "b".to_string(),
        author_id: 1,
        created_at: at,
        updated_at: at,
    };
    assert_eq!(
        Response::bare(Status::NoContent),
        Response { status: Status::NoContent, body: Body::Empty }
    );
    assert_eq!(
        Response::with_user(Status::Created, user.clone()),
        Response { status: Status::Created, body: Body::User(user) }
    );
    assert_eq!(
        Response::with_content(Status::Success, content.clone()),
        Response { status: Status::Success, body: Body::Content(content) }
    );
    assert_eq!(
        Response::unknown_route(),
        Response { status: Status::NotFound, body: Body::Text("404 Not Found".to_string()) }
    );
}
