//! The rows of the two tables, and the payloads that requests carry.
//!
//! Each type has a view in which strings are sequences of characters; the
//! contracts of the crate are stated over these views.

use crate::clock::Timestamp;
use vstd::prelude::*;

verus! {

/// A row of the `users` table.
#[derive(Debug, PartialEq, Eq)]
pub struct User {
    pub id: i32,
    pub username: String,
    pub password_hash: String,
    pub created_at: Timestamp,
}

/// A [`User`] in contracts.
pub struct UserView {
    pub id: i32,
    pub username: Seq<char>,
    pub password_hash: Seq<char>,
    pub created_at: Timestamp,
}

impl View for User {
    type V = UserView;

    open spec fn view(&self) -> UserView {
        UserView {
            id: self.id,
            username: self.username@,
            password_hash: self.password_hash@,
            created_at: self.created_at,
        }
    }
}

impl Clone for User {
    fn clone(&self) -> (r: Self)
        ensures
            r@ == self@,
    {
        User {
            id: self.id,
            username: self.username.clone(),
            password_hash: self.password_hash.clone(),
            created_at: self.created_at,
        }
    }
}

/// The payload of a registration.
#[derive(Debug, PartialEq, Eq)]
pub struct NewUser {
    pub username: String,
    pub password: String,
}

/// A [`NewUser`] in contracts.
pub struct NewUserView {
    pub username: Seq<char>,
    pub password: Seq<char>,
}

impl View for NewUser {
    type V = NewUserView;

    open spec fn view(&self) -> NewUserView {
        NewUserView { username: self.username@, password: self.password@ }
    }
}

/// The payload of a login.
#[derive(Debug, PartialEq, Eq)]
pub struct LoginCredentials {
    pub username: String,
    pub password: String,
}

/// A [`LoginCredentials`] in contracts.
pub struct LoginCredentialsView {
    pub username: Seq<char>,
    pub password: Seq<char>,
}

impl View for LoginCredentials {
    type V = LoginCredentialsView;

    open spec fn view(&self) -> LoginCredentialsView {
        LoginCredentialsView { username: self.username@, password: self.password@ }
    }
}

/// A row of the `contents` table.
#[derive(Debug, PartialEq, Eq)]
pub struct Content {
    pub id: i32,
    pub title: String,
    pub body: String,
    pub author_id: i32,
    pub created_at: Timestamp,
    pub updated_at: Timestamp,
}

/// A [`Content`] in contracts.
pub struct ContentView {
    pub id: i32,
    pub title: Seq<char>,
    pub body: Seq<char>,
    pub author_id: i32,
    pub created_at: Timestamp,
    pub updated_at: Timestamp,
}

impl View for Content {
    type V = ContentView;

    open spec fn view(&self) -> ContentView {
        ContentView {
            id: self.id,
            title: self.title@,
            body: self.body@,
            author_id: self.author_id,
            created_at: self.created_at,
            updated_at: self.updated_at,
        }
    }
}

impl Clone for Content {
    fn clone(&self) -> (r: Self)
        ensures
            r@ == self@,
    {
        Content {
            id: self.id,
            title: self.title.clone(),
            body: self.body.clone(),
            author_id: self.author_id,
            created_at: self.created_at,
            updated_at: self.updated_at,
        }
    }
}

/// The payload of a content creation.
#[derive(Debug, PartialEq, Eq)]
pub struct NewContent {
    pub title: String,
    pub body: String,
}

/// A [`NewContent`] in contracts.
pub struct NewContentView {
    pub title: Seq<char>,
    pub body: Seq<char>,
}

impl View for NewContent {
    type V = NewContentView;

    open spec fn view(&self) -> NewContentView {
        NewContentView { title: self.title@, body: self.body@ }
    }
}

/// The payload of a partial update: `None` stands for a field that the
/// request left out or gave as `null`.
#[derive(Debug, PartialEq, Eq)]
pub struct UpdateContent {
    pub title: Option<String>,
    pub body: Option<String>,
}

/// An [`UpdateContent`] in contracts.
pub struct UpdateContentView {
    pub title: Option<Seq<char>>,
    pub body: Option<Seq<char>>,
}

impl View for UpdateContent {
    type V = UpdateContentView;

    open spec fn view(&self) -> UpdateContentView {
        UpdateContentView { title: text_view(self.title), body: text_view(self.body) }
    }
}

/// An optional user row in contracts.
pub open spec fn user_view(found: Option<User>) -> Option<UserView> {
    match found {
        Some(user) => Some(user@),
        None => None,
    }
}

/// An optional content row in contracts.
pub open spec fn content_view(found: Option<Content>) -> Option<ContentView> {
    match found {
        Some(content) => Some(content@),
        None => None,
    }
}

/// The characters of an optional string.
pub open spec fn text_view(text: Option<String>) -> Option<Seq<char>> {
    match text {
        Some(s) => Some(s@),
        None => None,
    }
}

} // verus!
