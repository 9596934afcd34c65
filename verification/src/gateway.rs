//! The persistence gateway: the six statements that the handlers send to the
//! database, what the database answers, and what each statement means on the
//! two tables.

use crate::clock::Timestamp;
use crate::models::{content_view, text_view, user_view, Content, ContentView, User, UserView};
use vstd::prelude::*;

verus! {

/// Why a statement failed.
#[derive(Clone, Copy, Debug, PartialEq, Eq, Structural)]
pub enum GatewayError {
    /// The username is taken.
    UniqueViolation,
    /// The table has given out its last id.
    OutOfIds,
    /// The database could not be reached, or failed otherwise.
    Unavailable,
}

/// A statement for the database. Every instant in it is the caller's.
#[derive(Debug, PartialEq, Eq)]
#[allow(inconsistent_fields)]
pub enum Query {
    /// `insert_user`: a new row in `users`.
    InsertUser { username: String, password_hash: String, created_at: Timestamp },
    /// `find_user_by_name`: the row of `users` with that name.
    FindUserByName { username: String },
    /// `insert_content`: a new row in `contents`, created and updated at
    /// `now`.
    InsertContent { title: String, body: String, author_id: i32, now: Timestamp },
    /// `find_content`: the row of `contents` with that id.
    FindContent { id: i32 },
    /// `update_content`: a partial update of the row with that id, at `now`.
    /// `None` leaves a field as it is.
    UpdateContent { id: i32, title: Option<String>, body: Option<String>, now: Timestamp },
    /// `delete_content`: the removal of the row with that id.
    DeleteContent { id: i32 },
}

/// A [`Query`] in contracts.
#[allow(inconsistent_fields)]
pub enum QueryView {
    InsertUser { username: Seq<char>, password_hash: Seq<char>, created_at: Timestamp },
    FindUserByName { username: Seq<char> },
    InsertContent { title: Seq<char>, body: Seq<char>, author_id: i32, now: Timestamp },
    FindContent { id: i32 },
    UpdateContent { id: i32, title: Option<Seq<char>>, body: Option<Seq<char>>, now: Timestamp },
    DeleteContent { id: i32 },
}

impl View for Query {
    type V = QueryView;

    open spec fn view(&self) -> QueryView {
        match self {
            Query::InsertUser { username, password_hash, created_at } => QueryView::InsertUser {
                username: username@,
                password_hash: password_hash@,
                created_at: *created_at,
            },
            Query::FindUserByName { username } => QueryView::FindUserByName {
                username: username@,
            },
            Query::InsertContent { title, body, author_id, now } => QueryView::InsertContent {
                title: title@,
                body: body@,
                author_id: *author_id,
                now: *now,
            },
            Query::FindContent { id } => QueryView::FindContent { id: *id },
            Query::UpdateContent { id, title, body, now } => QueryView::UpdateContent {
                id: *id,
                title: text_view(*title),
                body: text_view(*body),
                now: *now,
            },
            Query::DeleteContent { id } => QueryView::DeleteContent { id: *id },
        }
    }
}

/// The text of a statement. It depends on which statement it is, not on what
/// the statement carries: that travels as the parameters `$1`, `$2`, ... in
/// the order of the fields, never inside the text.
pub open spec fn statement_of(query: QueryView) -> Seq<char> {
    match query {
        QueryView::InsertUser { .. } =>
            "INSERT INTO users (username, password_hash, created_at) VALUES ($1, $2, $3) RETURNING id, username, password_hash, created_at"@,
        QueryView::FindUserByName { .. } => "SELECT * FROM users WHERE username = $1"@,
        QueryView::InsertContent { .. } =>
            "INSERT INTO contents (title, body, author_id, created_at, updated_at) VALUES ($1, $2, $3, $4, $4) RETURNING id, title, body, author_id, created_at, updated_at"@,
        QueryView::FindContent { .. } => "SELECT * FROM contents WHERE id = $1"@,
        QueryView::UpdateContent { .. } =>
            "UPDATE contents SET title = COALESCE($2, title), body = COALESCE($3, body), updated_at = $4 WHERE id = $1 RETURNING id, title, body, author_id, created_at, updated_at"@,
        QueryView::DeleteContent { .. } => "DELETE FROM contents WHERE id = $1"@,
    }
}

impl Query {
    /// The text of the statement, for a database that speaks SQL.
    pub fn statement(&self) -> (text: &'static str)
        ensures
            text@ == statement_of(self@),
    {
        match self {
            Query::InsertUser { .. } =>
                "INSERT INTO users (username, password_hash, created_at) VALUES ($1, $2, $3) RETURNING id, username, password_hash, created_at",
            Query::FindUserByName { .. } => "SELECT * FROM users WHERE username = $1",
            Query::InsertContent { .. } =>
                "INSERT INTO contents (title, body, author_id, created_at, updated_at) VALUES ($1, $2, $3, $4, $4) RETURNING id, title, body, author_id, created_at, updated_at",
            Query::FindContent { .. } => "SELECT * FROM contents WHERE id = $1",
            Query::UpdateContent { .. } =>
                "UPDATE contents SET title = COALESCE($2, title), body = COALESCE($3, body), updated_at = $4 WHERE id = $1 RETURNING id, title, body, author_id, created_at, updated_at",
            Query::DeleteContent { .. } => "DELETE FROM contents WHERE id = $1",
        }
    }
}

/// What the database answers to a [`Query`].
#[derive(Debug, PartialEq, Eq)]
pub enum Reply {
    /// The row that an insert into `users` made.
    User(User),
    /// The row that a search in `users` found, if any.
    UserLookup(Option<User>),
    /// The row that an insert into `contents` made.
    Content(Content),
    /// The row that a search or an update in `contents` hit, if any.
    ContentLookup(Option<Content>),
    /// The number of rows that a delete removed.
    Removed(u64),
    /// The statement failed.
    Failed(GatewayError),
}

/// A [`Reply`] in contracts.
pub enum ReplyView {
    User(UserView),
    UserLookup(Option<UserView>),
    Content(ContentView),
    ContentLookup(Option<ContentView>),
    Removed(u64),
    Failed(GatewayError),
}

impl View for Reply {
    type V = ReplyView;

    open spec fn view(&self) -> ReplyView {
        match self {
            Reply::User(user) => ReplyView::User(user@),
            Reply::UserLookup(found) => ReplyView::UserLookup(user_view(*found)),
            Reply::Content(content) => ReplyView::Content(content@),
            Reply::ContentLookup(found) => ReplyView::ContentLookup(content_view(*found)),
            Reply::Removed(count) => ReplyView::Removed(*count),
            Reply::Failed(error) => ReplyView::Failed(*error),
        }
    }
}

/// The new value of a field under a partial update: the supplied one, or the
/// stored one where none was supplied.
pub open spec fn coalesce(supplied: Option<Seq<char>>, stored: Seq<char>) -> Seq<char> {
    match supplied {
        Some(text) => text,
        None => stored,
    }
}

/// The two tables, each keyed by its primary key, with the last id that each
/// has given out.
pub struct Tables {
    pub users: Map<i32, UserView>,
    pub contents: Map<i32, ContentView>,
    pub last_user_id: int,
    pub last_content_id: int,
}

impl Tables {
    /// The tables of a fresh database.
    pub open spec fn empty() -> Tables {
        Tables { users: Map::empty(), contents: Map::empty(), last_user_id: 0, last_content_id: 0 }
    }

    /// What the schema keeps true: ids start at 1 and were all given out
    /// already, each row is stored under its own id, and no two users share a
    /// name.
    pub open spec fn wf(self) -> bool {
        &&& 0 <= self.last_user_id <= i32::MAX
        &&& 0 <= self.last_content_id <= i32::MAX
        &&& forall|id: i32| #[trigger]
            self.users.contains_key(id) ==> 1 <= id <= self.last_user_id && self.users[id].id == id
        &&& forall|id: i32| #[trigger]
            self.contents.contains_key(id) ==> 1 <= id <= self.last_content_id
                && self.contents[id].id == id
        &&& forall|a: i32, b: i32|
            #![trigger self.users.contains_key(a), self.users.contains_key(b)]
            self.users.contains_key(a) && self.users.contains_key(b) && self.users[a].username
                == self.users[b].username ==> a == b
    }

    /// Whether the user `id` exists and bears `username`.
    pub open spec fn names(self, id: i32, username: Seq<char>) -> bool {
        self.users.contains_key(id) && self.users[id].username == username
    }

    /// Whether some user bears `username`.
    pub open spec fn has_username(self, username: Seq<char>) -> bool {
        exists|id: i32| self.names(id, username)
    }

    /// `find_user_by_name`: the user that bears `username`, if any.
    pub open spec fn find_user_by_name(self, username: Seq<char>) -> Option<UserView> {
        if self.has_username(username) {
            Some(self.users[choose|id: i32| self.names(id, username)])
        } else {
            None
        }
    }

    /// `insert_user`: a taken username is refused; else the row gets the next
    /// id.
    pub open spec fn insert_user(
        self,
        username: Seq<char>,
        password_hash: Seq<char>,
        created_at: Timestamp,
    ) -> (Tables, Result<UserView, GatewayError>) {
        if self.has_username(username) {
            (self, Err(GatewayError::UniqueViolation))
        } else if self.last_user_id >= i32::MAX {
            (self, Err(GatewayError::OutOfIds))
        } else {
            let id = (self.last_user_id + 1) as i32;
            let row = UserView { id, username, password_hash, created_at };
            (
                Tables { users: self.users.insert(id, row), last_user_id: id as int, ..self },
                Ok(row),
            )
        }
    }

    /// `insert_content`: the row gets the next id, and `now` as both of its
    /// instants.
    pub open spec fn insert_content(
        self,
        title: Seq<char>,
        body: Seq<char>,
        author_id: i32,
        now: Timestamp,
    ) -> (Tables, Result<ContentView, GatewayError>) {
        if self.last_content_id >= i32::MAX {
            (self, Err(GatewayError::OutOfIds))
        } else {
            let id = (self.last_content_id + 1) as i32;
            let row = ContentView { id, title, body, author_id, created_at: now, updated_at: now };
            (
                Tables {
                    contents: self.contents.insert(id, row),
                    last_content_id: id as int,
                    ..self
                },
                Ok(row),
            )
        }
    }

    /// `find_content`: the row stored under `id`, if any.
    pub open spec fn find_content(self, id: i32) -> Option<ContentView> {
        if self.contents.contains_key(id) {
            Some(self.contents[id])
        } else {
            None
        }
    }

    /// What a partial update makes of a stored row: each field is coalesced on
    /// its own, and `updated_at` becomes `now` in any case.
    pub open spec fn updated(
        stored: ContentView,
        title: Option<Seq<char>>,
        body: Option<Seq<char>>,
        now: Timestamp,
    ) -> ContentView {
        ContentView {
            title: coalesce(title, stored.title),
            body: coalesce(body, stored.body),
            updated_at: now,
            ..stored
        }
    }

    /// `update_content`: the row under `id`, if any, is replaced by its
    /// [`Tables::updated`] form, which is returned.
    pub open spec fn update_content(
        self,
        id: i32,
        title: Option<Seq<char>>,
        body: Option<Seq<char>>,
        now: Timestamp,
    ) -> (Tables, Option<ContentView>) {
        if self.contents.contains_key(id) {
            let row = Self::updated(self.contents[id], title, body, now);
            (Tables { contents: self.contents.insert(id, row), ..self }, Some(row))
        } else {
            (self, None)
        }
    }

    /// `delete_content`: the row under `id`, if any, is removed; the count of
    /// removed rows is returned.
    pub open spec fn delete_content(self, id: i32) -> (Tables, u64) {
        if self.contents.contains_key(id) {
            (Tables { contents: self.contents.remove(id), ..self }, 1)
        } else {
            (self, 0)
        }
    }

    /// What a statement does to the tables, and what the database answers.
    pub open spec fn execute(self, query: QueryView) -> (Tables, ReplyView) {
        match query {
            QueryView::InsertUser { username, password_hash, created_at } => {
                let (tables, made) = self.insert_user(username, password_hash, created_at);
                match made {
                    Ok(row) => (tables, ReplyView::User(row)),
                    Err(error) => (tables, ReplyView::Failed(error)),
                }
            },
            QueryView::FindUserByName { username } => (
                self,
                ReplyView::UserLookup(self.find_user_by_name(username)),
            ),
            QueryView::InsertContent { title, body, author_id, now } => {
                let (tables, made) = self.insert_content(title, body, author_id, now);
                match made {
                    Ok(row) => (tables, ReplyView::Content(row)),
                    Err(error) => (tables, ReplyView::Failed(error)),
                }
            },
            QueryView::FindContent { id } => (
                self,
                ReplyView::ContentLookup(self.find_content(id)),
            ),
            QueryView::UpdateContent { id, title, body, now } => {
                let (tables, hit) = self.update_content(id, title, body, now);
                (tables, ReplyView::ContentLookup(hit))
            },
            QueryView::DeleteContent { id } => {
                let (tables, count) = self.delete_content(id);
                (tables, ReplyView::Removed(count))
            },
        }
    }
}

} // verus!
