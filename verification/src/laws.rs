//! What holds of the handlers over the tables, whatever the requests.
//!
//! Each law is stated over the functions that the contracts of the handlers,
//! of the gateway and of the routes are stated over.

use crate::clock::Timestamp;
use crate::credentials::{bcrypt_verify, hash_len, is_hash_of, verdict, CredentialError};
use crate::gateway::{coalesce, QueryView, Tables};
use crate::handlers::{
    create_content_step, delete_content_step, get_content_step, login_response, login_step,
    register_step, update_content_step, StepView,
};
use crate::models::{
    ContentView, LoginCredentialsView, NewContentView, NewUserView, UpdateContentView, UserView,
};
use crate::response::{BodyView, ResponseView, Status};
use crate::routes::{
    first_match, resolution, route_of, routing_table, rule_match, Endpoint, Method, Route,
    RuleView,
};
use crate::service::{outcome, run};
use vstd::prelude::*;

verus! {

/// Whether `later` can come after `earlier`: no id was given out twice,
/// every user row of `earlier` is there as it was, no content row stands
/// under an id that `earlier` had given out and held no longer, and a
/// content row that is still there has its author and its instant of
/// creation.
pub open spec fn follows(earlier: Tables, later: Tables) -> bool {
    &&& earlier.last_user_id <= later.last_user_id
    &&& earlier.last_content_id <= later.last_content_id
    &&& forall|id: i32| #[trigger]
        earlier.users.contains_key(id) ==> later.users.contains_key(id) && later.users[id]
            == earlier.users[id]
    &&& forall|id: i32|
        1 <= id <= earlier.last_content_id && !earlier.contents.contains_key(id)
            ==> !#[trigger] later.contents.contains_key(id)
    &&& forall|id: i32|
        earlier.contents.contains_key(id) && #[trigger] later.contents.contains_key(id) ==> {
            &&& later.contents[id].author_id == earlier.contents[id].author_id
            &&& later.contents[id].created_at == earlier.contents[id].created_at
        }
}

/// No statement breaks what the schema keeps true, and the tables after it
/// follow the tables before it.
pub proof fn law_statements_keep_the_schema(tables: Tables, query: QueryView)
    requires
        tables.wf(),
    ensures
        tables.execute(query).0.wf(),
        follows(tables, tables.execute(query).0),
{
    let after = tables.execute(query).0;
    match query {
        QueryView::InsertUser { username, password_hash, created_at } => {
            if !tables.has_username(username) && tables.last_user_id < i32::MAX {
                let fresh = (tables.last_user_id + 1) as i32;
                assert forall|a: i32, b: i32|
                    #![trigger after.users.contains_key(a), after.users.contains_key(b)]
                    after.users.contains_key(a) && after.users.contains_key(b)
                        && after.users[a].username == after.users[b].username implies a == b by {
                    if a == fresh && b != fresh {
                        assert(tables.names(b, username));
                    }
                    if b == fresh && a != fresh {
                        assert(tables.names(a, username));
                    }
                }
            }
        },
        _ => {},
    }
}

/// The same of a step of a handler.
pub proof fn law_steps_keep_the_schema(tables: Tables, step: StepView)
    requires
        tables.wf(),
    ensures
        outcome(tables, step).0.wf(),
        follows(tables, outcome(tables, step).0),
{
    match step {
        StepView::Ask { query, pending } => {
            law_statements_keep_the_schema(tables, query);
        },
        StepView::Done(_) => {},
    }
}

/// The same of any number of steps.
pub proof fn law_runs_keep_the_schema(tables: Tables, steps: Seq<StepView>)
    requires
        tables.wf(),
    ensures
        run(tables, steps).wf(),
        follows(tables, run(tables, steps)),
    decreases steps.len(),
{
    if steps.len() > 0 {
        law_runs_keep_the_schema(tables, steps.drop_last());
        law_steps_keep_the_schema(run(tables, steps.drop_last()), steps.last());
    }
}

/// Two registrations that both succeed return different ids, the later one
/// the greater, whatever the usernames and whatever was done between them.
pub proof fn law_registrations_get_distinct_ids(
    tables: Tables,
    first: NewUserView,
    first_hash: Seq<char>,
    first_at: Timestamp,
    between: Seq<StepView>,
    second: NewUserView,
    second_hash: Seq<char>,
    second_at: Timestamp,
)
    requires
        tables.wf(),
    ensures
        ({
            let (after_first, first_response) = outcome(
                tables,
                register_step(first, Ok(first_hash), first_at),
            );
            let (_, second_response) = outcome(
                run(after_first, between),
                register_step(second, Ok(second_hash), second_at),
            );
            first_response.body matches BodyView::User(a) ==> (second_response.body matches
                BodyView::User(b) ==> a.id < b.id)
        }),
{
    let after_first = outcome(tables, register_step(first, Ok(first_hash), first_at)).0;
    law_steps_keep_the_schema(tables, register_step(first, Ok(first_hash), first_at));
    law_runs_keep_the_schema(after_first, between);
}

/// Whether exactly one user row bears `username`.
pub open spec fn one_row_bears(tables: Tables, username: Seq<char>) -> bool {
    exists|id: i32|
        {
            &&& #[trigger] tables.names(id, username)
            &&& forall|other: i32| #[trigger] tables.names(other, username) ==> other == id
        }
}

/// Once a username went through a registration, whatever is done next, a
/// second registration of it is refused with an internal error and changes
/// nothing, and exactly one row bears the name.
///
/// Left out: a table without the name that has given out its last id, where
/// both registrations fail and no row bears the name.
pub proof fn law_one_row_per_username(
    tables: Tables,
    first: NewUserView,
    first_hash: Seq<char>,
    first_at: Timestamp,
    between: Seq<StepView>,
    second: NewUserView,
    second_hash: Seq<char>,
    second_at: Timestamp,
)
    requires
        tables.wf(),
        first.username == second.username,
        tables.has_username(first.username) || tables.last_user_id < i32::MAX,
    ensures
        ({
            let after_first = outcome(tables, register_step(first, Ok(first_hash), first_at)).0;
            let before_second = run(after_first, between);
            let (after_second, response) = outcome(
                before_second,
                register_step(second, Ok(second_hash), second_at),
            );
            &&& response == ResponseView::bare(Status::InternalServerError)
            &&& after_second == before_second
            &&& one_row_bears(after_second, first.username)
        }),
{
    let name = first.username;
    let after_first = outcome(tables, register_step(first, Ok(first_hash), first_at)).0;
    let before_second = run(after_first, between);
    law_steps_keep_the_schema(tables, register_step(first, Ok(first_hash), first_at));
    law_runs_keep_the_schema(after_first, between);
    if !tables.has_username(name) {
        assert(after_first.names((tables.last_user_id + 1) as i32, name));
    }
    let id = choose|id: i32| after_first.names(id, name);
    assert(before_second.names(id, name));
    assert forall|other: i32| #[trigger] before_second.names(other, name) implies other == id by {}
}

/// A password verifies against every hash that was made of it.
pub proof fn law_hash_then_verify(password: Seq<char>, hash: Seq<char>)
    ensures
        is_hash_of(password, hash) ==> verdict(bcrypt_verify(password, hash)) == Ok::<
            bool,
            CredentialError,
        >(true),
{
}

/// A hash that was made of a password differs from the password, unless the
/// password has itself the length of a hash and verifies against itself.
pub proof fn law_hash_is_not_the_password(password: Seq<char>, hash: Seq<char>)
    ensures
        is_hash_of(password, hash) && password.len() != hash_len() ==> hash != password,
        is_hash_of(password, hash) && bcrypt_verify(password, password) != Some(true) ==> hash
            != password,
{
}

/// A registration that went through its hashing is refused with an internal
/// error, and changes nothing, where the username is taken or the table has
/// given out its last id. Else it is answered with the new row, in which the
/// hash stands for the password; and a login with the same username and
/// password, whatever was done in between, is answered with that row.
pub proof fn law_register_then_login(
    tables: Tables,
    user: NewUserView,
    hash: Seq<char>,
    now: Timestamp,
    between: Seq<StepView>,
)
    requires
        tables.wf(),
    ensures
        ({
            let (registered, created) = outcome(tables, register_step(user, Ok(hash), now));
            let row = UserView {
                id: (tables.last_user_id + 1) as i32,
                username: user.username,
                password_hash: hash,
                created_at: now,
            };
            let creds = LoginCredentialsView { username: user.username, password: user.password };
            let before_login = run(registered, between);
            if tables.has_username(user.username) || tables.last_user_id >= i32::MAX {
                &&& created == ResponseView::bare(Status::InternalServerError)
                &&& registered == tables
            } else {
                &&& created == ResponseView::with_user(Status::Created, row)
                &&& is_hash_of(user.password, hash) ==> outcome(before_login, login_step(creds))
                    == (before_login, ResponseView::with_user(Status::Success, row))
            }
        }),
{
    let registered = outcome(tables, register_step(user, Ok(hash), now)).0;
    let before_login = run(registered, between);
    law_steps_keep_the_schema(tables, register_step(user, Ok(hash), now));
    law_runs_keep_the_schema(registered, between);
    if !tables.has_username(user.username) && tables.last_user_id < i32::MAX {
        let id = (tables.last_user_id + 1) as i32;
        assert(registered.names(id, user.username));
        assert(before_login.names(id, user.username));
    }
}

/// A login changes nothing. Where no row bears the username it is answered
/// with 401 and no body. Where a row does, the password is checked against
/// the hash of that row: a match is answered with the row, a mismatch with
/// 401 and no body, and a malformed hash with an internal error.
pub proof fn law_login_checks_the_password(tables: Tables, creds: LoginCredentialsView)
    requires
        tables.wf(),
    ensures
        ({
            let (after, response) = outcome(tables, login_step(creds));
            &&& after == tables
            &&& !tables.has_username(creds.username) ==> response == ResponseView::bare(
                Status::Unauthorized,
            )
            &&& forall|id: i32|
                #![trigger tables.names(id, creds.username)]
                tables.names(id, creds.username) ==> response == login_response(
                    tables.users[id],
                    verdict(bcrypt_verify(creds.password, tables.users[id].password_hash)),
                )
        }),
{
    let response = outcome(tables, login_step(creds)).1;
    assert forall|id: i32|
        #![trigger tables.names(id, creds.username)]
        tables.names(id, creds.username) implies response == login_response(
        tables.users[id],
        verdict(bcrypt_verify(creds.password, tables.users[id].password_hash)),
    ) by {}
}

/// A content that was created is answered with its row, in which both
/// instants are the instant of creation; a retrieval by its id is then
/// answered with the same row, and changes nothing.
///
/// Left out: a table that has given out its last id, where the creation
/// fails.
pub proof fn law_create_then_get(
    tables: Tables,
    content: NewContentView,
    author: i32,
    now: Timestamp,
)
    requires
        tables.wf(),
        tables.last_content_id < i32::MAX,
    ensures
        ({
            let (created, response) = outcome(tables, create_content_step(content, author, now));
            let row = ContentView {
                id: (tables.last_content_id + 1) as i32,
                title: content.title,
                body: content.body,
                author_id: author,
                created_at: now,
                updated_at: now,
            };
            &&& response == ResponseView::with_content(Status::Created, row)
            &&& outcome(created, get_content_step(row.id)) == (
                created,
                ResponseView::with_content(Status::Success, row),
            )
        }),
{
}

/// An update answers with the row in which each supplied field is replaced
/// and each other field kept, `updated_at` is the instant of the update, and
/// the rest is as it was; a retrieval then gives that row. An update of an
/// id that has no row is answered with 404 and changes nothing.
pub proof fn law_update_is_per_field(
    tables: Tables,
    id: i32,
    update: UpdateContentView,
    now: Timestamp,
)
    requires
        tables.wf(),
    ensures
        ({
            let (after, response) = outcome(tables, update_content_step(id, update, now));
            if tables.contents.contains_key(id) {
                let stored = tables.contents[id];
                let row = ContentView {
                    title: if update.title is Some {
                        update.title.unwrap()
                    } else {
                        stored.title
                    },
                    body: if update.body is Some {
                        update.body.unwrap()
                    } else {
                        stored.body
                    },
                    updated_at: now,
                    ..stored
                };
                &&& response == ResponseView::with_content(Status::Success, row)
                &&& outcome(after, get_content_step(id)) == (
                    after,
                    ResponseView::with_content(Status::Success, row),
                )
            } else {
                &&& response == ResponseView::bare(Status::NotFound)
                &&& after == tables
            }
        }),
{
}

/// An update that supplies nothing keeps title and body, and moves
/// `updated_at` forward.
///
/// Left out: an update at an instant that is not later than the stored
/// `updated_at`, which sets `updated_at` to that instant all the same.
pub proof fn law_empty_update_keeps_fields(tables: Tables, id: i32, now: Timestamp)
    requires
        tables.wf(),
        tables.contents.contains_key(id) ==> tables.contents[id].updated_at.before(now),
    ensures
        tables.contents.contains_key(id) ==> ({
            let stored = tables.contents[id];
            let nothing = UpdateContentView { title: None, body: None };
            let (after, response) = outcome(tables, update_content_step(id, nothing, now));
            &&& response.status == Status::Success
            &&& response.body matches BodyView::Content(row)
            &&& after.contents[id] == row
            &&& row.title == stored.title
            &&& row.body == stored.body
            &&& stored.updated_at.before(row.updated_at)
        }),
{
}

/// An update that supplies a title alone leaves the body as it was.
pub proof fn law_title_update_keeps_body(
    tables: Tables,
    id: i32,
    title: Seq<char>,
    now: Timestamp,
)
    requires
        tables.wf(),
    ensures
        tables.contents.contains_key(id) ==> ({
            let stored = tables.contents[id];
            let update = UpdateContentView { title: Some(title), body: None };
            let (after, response) = outcome(tables, update_content_step(id, update, now));
            &&& response.status == Status::Success
            &&& response.body matches BodyView::Content(row)
            &&& after.contents[id] == row
            &&& row.title == title
            &&& row.body == stored.body
        }),
{
}

/// Of two updates of a row, one after the other, the later one decides each
/// field that it supplies, and the earlier one each field that only it
/// supplies; `updated_at` is the instant of the later one.
pub proof fn law_last_update_wins(
    tables: Tables,
    id: i32,
    first: UpdateContentView,
    first_at: Timestamp,
    second: UpdateContentView,
    second_at: Timestamp,
)
    requires
        tables.wf(),
    ensures
        tables.contents.contains_key(id) ==> ({
            let stored = tables.contents[id];
            let after_first = outcome(tables, update_content_step(id, first, first_at)).0;
            let (after_second, response) = outcome(
                after_first,
                update_content_step(id, second, second_at),
            );
            let row = ContentView {
                title: coalesce(second.title, coalesce(first.title, stored.title)),
                body: coalesce(second.body, coalesce(first.body, stored.body)),
                updated_at: second_at,
                ..stored
            };
            &&& response == ResponseView::with_content(Status::Success, row)
            &&& after_second.contents[id] == row
        }),
{
}

/// A delete is answered with 204 where the row was there and with 404 where
/// it was not. Right after it a retrieval of the id is answered with 404,
/// and so is a second delete.
pub proof fn law_delete_then_get(tables: Tables, id: i32)
    requires
        tables.wf(),
    ensures
        ({
            let (deleted, response) = outcome(tables, delete_content_step(id));
            &&& response == ResponseView::bare(
                if tables.contents.contains_key(id) {
                    Status::NoContent
                } else {
                    Status::NotFound
                },
            )
            &&& outcome(deleted, get_content_step(id)) == (
                deleted,
                ResponseView::bare(Status::NotFound),
            )
            &&& outcome(deleted, delete_content_step(id)) == (
                deleted,
                ResponseView::bare(Status::NotFound),
            )
        }),
{
}

/// After the delete of an id that was given out before, a retrieval of it is
/// answered with 404, and so is another delete, whatever was done in
/// between: the id does not come back.
pub proof fn law_deleted_stays_deleted(tables: Tables, id: i32, between: Seq<StepView>)
    requires
        tables.wf(),
        id <= tables.last_content_id,
    ensures
        ({
            let later = run(outcome(tables, delete_content_step(id)).0, between);
            &&& outcome(later, get_content_step(id)) == (
                later,
                ResponseView::bare(Status::NotFound),
            )
            &&& outcome(later, delete_content_step(id)) == (
                later,
                ResponseView::bare(Status::NotFound),
            )
        }),
{
    let deleted = outcome(tables, delete_content_step(id)).0;
    law_steps_keep_the_schema(tables, delete_content_step(id));
    law_runs_keep_the_schema(deleted, between);
}

/// A table sends a request nowhere if and only if none of its rules takes
/// it.
pub proof fn law_no_match_means_no_rule(table: Seq<RuleView>, method: Method, path: Seq<u8>)
    ensures
        first_match(table, method, path) is None <==> forall|i: int|
            0 <= i < table.len() ==> rule_match(#[trigger] table[i], method, path) is None,
    decreases table.len(),
{
    if table.len() > 0 {
        let rest = table.skip(1);
        law_no_match_means_no_rule(rest, method, path);
        if first_match(table, method, path) is None {
            assert forall|i: int| 0 <= i < table.len() implies rule_match(
                #[trigger] table[i],
                method,
                path,
            ) is None by {
                if i > 0 {
                    assert(table[i] == rest[i - 1]);
                }
            }
        }
    }
}

/// A request that no rule of the routing table takes is answered with 404
/// and the text `404 Not Found`; every other request has a route.
pub proof fn law_unknown_route(method: Method, path: Seq<u8>)
    ensures
        resolution(method, path) == Err::<Route, ResponseView>(ResponseView::unknown_route())
            <==> forall|i: int|
            0 <= i < routing_table().len() ==> rule_match(
                #[trigger] routing_table()[i],
                method,
                path,
            ) is None,
{
    law_no_match_means_no_rule(routing_table(), method, path);
}

/// The routes that the routing table gives are those that the dispatch of
/// the handlers knows: registration and login without an id, each content
/// route with one.
pub proof fn law_routes_are_known(method: Method, path: Seq<u8>)
    ensures
        route_of(method, path) matches Some(route) ==> (route.id is None <==> (route.endpoint
            == Endpoint::Register || route.endpoint == Endpoint::Login)),
{
    reveal_with_fuel(first_match, 7);
}

} // verus!
