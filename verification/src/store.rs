//! A gateway held in memory: the two tables as vectors, with every statement
//! of the gateway carried out on them as [`Tables`] says.

use crate::clock::Timestamp;
use crate::gateway::{GatewayError, Query, Reply, Tables};
use crate::models::{content_view, text_view, user_view, Content, ContentView, User, UserView};
use vstd::prelude::*;

verus! {

/// The two tables in memory.
///
/// A user with id `n` stands at index `n - 1`. So does a content row; the
/// place of a deleted one stays behind, empty, so that its id is not given
/// out again.
pub struct Store {
    users: Vec<User>,
    contents: Vec<Option<Content>>,
}

/// The outcome of an insert into `users` in contracts.
pub open spec fn user_outcome(made: Result<User, GatewayError>) -> Result<UserView, GatewayError> {
    match made {
        Ok(user) => Ok(user@),
        Err(error) => Err(error),
    }
}

/// The outcome of an insert into `contents` in contracts.
pub open spec fn content_outcome(made: Result<Content, GatewayError>) -> Result<
    ContentView,
    GatewayError,
> {
    match made {
        Ok(content) => Ok(content@),
        Err(error) => Err(error),
    }
}

impl Store {
    /// The tables that the store holds.
    pub closed spec fn view(&self) -> Tables {
        Tables {
            users: Map::new(
                |id: i32| 1 <= id <= self.users@.len(),
                |id: i32| self.users@[id - 1]@,
            ),
            contents: Map::new(
                |id: i32| 1 <= id <= self.contents@.len() && self.contents@[id - 1] is Some,
                |id: i32| self.contents@[id - 1].unwrap()@,
            ),
            last_user_id: self.users@.len() as int,
            last_content_id: self.contents@.len() as int,
        }
    }

    /// The store's invariant: every row stands at the index that its id
    /// gives, no two users share a name, and the ids fit their type.
    pub closed spec fn wf(&self) -> bool {
        &&& self.users@.len() <= i32::MAX
        &&& self.contents@.len() <= i32::MAX
        &&& forall|i: int| 0 <= i < self.users@.len() ==> (#[trigger] self.users@[i]).id == i + 1
        &&& forall|i: int, j: int|
            #![trigger self.users@[i], self.users@[j]]
            0 <= i < self.users@.len() && 0 <= j < self.users@.len() && self.users@[i].username@
                == self.users@[j].username@ ==> i == j
        &&& forall|i: int|
            0 <= i < self.contents@.len() ==> ((#[trigger] self.contents@[i]) matches Some(row)
                ==> row.id == i + 1)
    }

    /// The tables of a well-formed store are well-formed.
    pub proof fn tables_wf(&self)
        requires
            self.wf(),
        ensures
            self@.wf(),
    {
    }

    /// A store with two empty tables.
    pub fn new() -> (store: Store)
        ensures
            store.wf(),
            store@ == Tables::empty(),
    {
        let store = Store { users: Vec::new(), contents: Vec::new() };
        assert(store@.users =~= Map::empty());
        assert(store@.contents =~= Map::empty());
        store
    }

    /// The index of the user that bears `username`, if any.
    fn position(&self, username: &str) -> (found: Option<usize>)
        requires
            self.wf(),
        ensures
            match found {
                Some(i) => i < self.users@.len() && self.users@[i as int].username@ == username@,
                None => forall|j: int|
                    0 <= j < self.users@.len() ==> (#[trigger] self.users@[j]).username@
                        != username@,
            },
    {
        let wanted = username.to_owned();
        let mut i: usize = 0;
        while i < self.users.len()
            invariant
                i <= self.users@.len(),
                wanted@ == username@,
                forall|j: int| 0 <= j < i ==> (#[trigger] self.users@[j]).username@ != username@,
            decreases self.users@.len() - i,
        {
            if self.users[i].username == wanted {
                return Some(i);
            }
            i += 1;
        }
        None
    }

    /// The user at index `i` is the one that a search for its name finds.
    proof fn lemma_found(&self, i: int)
        requires
            self.wf(),
            0 <= i < self.users@.len(),
        ensures
            self@.has_username(self.users@[i].username@),
            self@.find_user_by_name(self.users@[i].username@) == Some(self.users@[i]@),
    {
        let name = self.users@[i].username@;
        let tables = self@;
        assert(tables.names((i + 1) as i32, name));
    }

    /// `find_user_by_name`: the user that bears `username`, if any.
    pub fn find_user_by_name(&self, username: &str) -> (found: Option<User>)
        requires
            self.wf(),
        ensures
            user_view(found) == self@.find_user_by_name(username@),
    {
        match self.position(username) {
            Some(i) => {
                proof {
                    self.lemma_found(i as int);
                }
                Some(self.users[i].clone())
            },
            None => None,
        }
    }

    /// `insert_user`: adds a user under the next id, unless the username is taken.
    pub fn insert_user(
        &mut self,
        username: String,
        password_hash: String,
        created_at: Timestamp,
    ) -> (made: Result<User, GatewayError>)
        requires
            old(self).wf(),
        ensures
            final(self).wf(),
            (final(self)@, user_outcome(made)) == old(self)@.insert_user(
                username@,
                password_hash@,
                created_at,
            ),
    {
        match self.position(username.as_str()) {
            Some(i) => {
                proof {
                    self.lemma_found(i as int);
                }
                Err(GatewayError::UniqueViolation)
            },
            None => {
                if self.users.len() >= i32::MAX as usize {
                    Err(GatewayError::OutOfIds)
                } else {
                    let id = (self.users.len() + 1) as i32;
                    let row = User { id, username, password_hash, created_at };
                    let copy = row.clone();
                    self.users.push(row);
                    assert(final(self)@.users =~= old(self)@.users.insert(id, copy@));
                    Ok(copy)
                }
            },
        }
    }

    /// `insert_content`: adds a content row under the next id, created and updated at `now`.
    pub fn insert_content(
        &mut self,
        title: String,
        body: String,
        author_id: i32,
        now: Timestamp,
    ) -> (made: Result<Content, GatewayError>)
        requires
            old(self).wf(),
        ensures
            final(self).wf(),
            (final(self)@, content_outcome(made)) == old(self)@.insert_content(
                title@,
                body@,
                author_id,
                now,
            ),
    {
        if self.contents.len() >= i32::MAX as usize {
            Err(GatewayError::OutOfIds)
        } else {
            let id = (self.contents.len() + 1) as i32;
            let row = Content { id, title, body, author_id, created_at: now, updated_at: now };
            let copy = row.clone();
            self.contents.push(Some(row));
            assert(final(self)@.contents =~= old(self)@.contents.insert(id, copy@));
            Ok(copy)
        }
    }

    /// `find_content`: the content row with that id, if any.
    pub fn find_content(&self, id: i32) -> (found: Option<Content>)
        requires
            self.wf(),
        ensures
            content_view(found) == self@.find_content(id),
    {
        if id < 1 || id as usize > self.contents.len() {
            return None;
        }
        match &self.contents[(id - 1) as usize] {
            Some(row) => Some(row.clone()),
            None => None,
        }
    }

    /// `update_content`: replaces the supplied fields of the row with that id, and sets its
    /// `updated_at` to `now`; gives the row as it is then, if there is one.
    pub fn update_content(
        &mut self,
        id: i32,
        title: Option<String>,
        body: Option<String>,
        now: Timestamp,
    ) -> (hit: Option<Content>)
        requires
            old(self).wf(),
        ensures
            final(self).wf(),
            (final(self)@, content_view(hit)) == old(self)@.update_content(
                id,
                text_view(title),
                text_view(body),
                now,
            ),
    {
        if id < 1 || id as usize > self.contents.len() {
            return None;
        }
        let slot = (id - 1) as usize;
        let row = match &self.contents[slot] {
            Some(stored) => Content {
                id: stored.id,
                title: match title {
                    Some(text) => text,
                    None => stored.title.clone(),
                },
                body: match body {
                    Some(text) => text,
                    None => stored.body.clone(),
                },
                author_id: stored.author_id,
                created_at: stored.created_at,
                updated_at: now,
            },
            None => {
                return None;
            },
        };
        let copy = row.clone();
        self.contents.set(slot, Some(row));
        assert(final(self)@.contents =~= old(self)@.contents.insert(id, copy@));
        Some(copy)
    }

    /// `delete_content`: removes the row with that id, and counts the rows removed.
    pub fn delete_content(&mut self, id: i32) -> (count: u64)
        requires
            old(self).wf(),
        ensures
            final(self).wf(),
            (final(self)@, count) == old(self)@.delete_content(id),
    {
        if id < 1 || id as usize > self.contents.len() {
            return 0;
        }
        let slot = (id - 1) as usize;
        if self.contents[slot].is_none() {
            return 0;
        }
        self.contents.set(slot, None);
        assert(final(self)@.contents =~= old(self)@.contents.remove(id));
        1
    }

    /// Carries out a statement, and answers as the database would.
    pub fn execute(&mut self, query: Query) -> (reply: Reply)
        requires
            old(self).wf(),
        ensures
            final(self).wf(),
            (final(self)@, reply@) == old(self)@.execute(query@),
    {
        match query {
            Query::InsertUser { username, password_hash, created_at } => {
                match self.insert_user(username, password_hash, created_at) {
                    Ok(row) => Reply::User(row),
                    Err(error) => Reply::Failed(error),
                }
            },
            Query::FindUserByName { username } => Reply::UserLookup(
                self.find_user_by_name(username.as_str()),
            ),
            Query::InsertContent { title, body, author_id, now } => {
                match self.insert_content(title, body, author_id, now) {
                    Ok(row) => Reply::Content(row),
                    Err(error) => Reply::Failed(error),
                }
            },
            Query::FindContent { id } => Reply::ContentLookup(self.find_content(id)),
            Query::UpdateContent { id, title, body, now } => Reply::ContentLookup(
                self.update_content(id, title, body, now),
            ),
            Query::DeleteContent { id } => Reply::Removed(self.delete_content(id)),
        }
    }
}

} // verus!
