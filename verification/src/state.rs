//! The state of the server and the registry of sessions.

use crate::text::str_eq;
use crate::types::{ChatUsersCount, ChatUsersCountView, User, UserView};
use crate::views::{
    first_index, is_first_index, lemma_deep_push, lemma_deep_remove, lemma_first_index,
    lemma_first_index_found, Text,
};
use vstd::prelude::*;

verus! {

/// The live record of one logged-in connection. `sender` is the handle of the
/// connection's outbound queue; `session_id` was drawn at login.
#[derive(Debug, PartialEq, Eq)]
pub struct ConnectedUser {
    pub user: User,
    pub sender: u64,
    pub session_id: String,
}

/// A `ConnectedUser` as the contracts see it: its texts as sequences of characters.
pub struct ConnectedUserView {
    pub user: UserView,
    pub sender: u64,
    pub session_id: Text,
}

impl View for ConnectedUser {
    type V = ConnectedUserView;

    open spec fn view(&self) -> ConnectedUserView {
        ConnectedUserView {
            user: self.user@,
            sender: self.sender,
            session_id: self.session_id@,
        }
    }
}

impl DeepView for ConnectedUser {
    type V = ConnectedUserView;

    open spec fn deep_view(&self) -> ConnectedUserView {
        self@
    }
}

impl Clone for ConnectedUser {
    fn clone(&self) -> (r: Self)
        ensures
            r@ == self@,
    {
        ConnectedUser {
            user: self.user.clone(),
            sender: self.sender,
            session_id: self.session_id.clone(),
        }
    }
}

/// Everything the server keeps: the sessions in the order they logged in,
/// the membership of each chat, and the private chats that have had both
/// members inside at once.
#[derive(Debug, PartialEq, Eq)]
pub struct AppState {
    pub connected_users: Vec<ConnectedUser>,
    pub chat_tracking: Vec<ChatUsersCount>,
    pub private_chats_with_both_users: Vec<String>,
}

/// An `AppState` as the contracts see it: the sessions in order, the
/// memberships by chat identifier, and the set of the private chats that have
/// had both members inside.
pub struct AppStateView {
    pub connected_users: Seq<ConnectedUserView>,
    pub chat_tracking: Map<Text, ChatUsersCountView>,
    pub private_chats_with_both_users: Set<Text>,
}

/// The user names of the sessions, in order.
pub open spec fn names_of(users: Seq<ConnectedUserView>) -> Seq<Text> {
    Seq::new(users.len(), |i: int| users[i].user.username)
}

/// The presence records of the sessions, in order.
pub open spec fn users_of(users: Seq<ConnectedUserView>) -> Seq<UserView> {
    Seq::new(users.len(), |i: int| users[i].user)
}

/// The session registered under `name`: the first one, should there be more.
pub open spec fn lookup(users: Seq<ConnectedUserView>, name: Text) -> Option<ConnectedUserView> {
    match first_index(names_of(users), name) {
        Some(i) => Some(users[i]),
        None => None,
    }
}

/// The chat identifiers of the entries, in order.
pub open spec fn chat_ids(entries: Seq<ChatUsersCountView>) -> Seq<Text> {
    Seq::new(entries.len(), |i: int| entries[i].chat_id)
}

/// The entries by chat identifier: of several with one identifier the first
/// counts.
pub open spec fn tracking_map(entries: Seq<ChatUsersCountView>) -> Map<Text, ChatUsersCountView> {
    Map::new(
        |k: Text| first_index(chat_ids(entries), k) is Some,
        |k: Text| entries[first_index(chat_ids(entries), k).unwrap()],
    )
}

impl View for AppState {
    type V = AppStateView;

    open spec fn view(&self) -> AppStateView {
        AppStateView {
            connected_users: self.connected_users.deep_view(),
            chat_tracking: tracking_map(self.chat_tracking.deep_view()),
            private_chats_with_both_users: self.private_chats_with_both_users.deep_view().to_set(),
        }
    }
}

impl AppStateView {
    /// No two sessions share a user name, every membership is filed under its
    /// own chat identifier, its counts are the lengths of its lists, and
    /// nobody is inside a chat twice.
    pub open spec fn wf(self) -> bool {
        &&& names_of(self.connected_users).no_duplicates()
        &&& forall|k: Text| #[trigger]
            self.chat_tracking.contains_key(k) ==> self.chat_tracking[k].chat_id == k
                && self.chat_tracking[k].wf()
    }
}

/// Replacing the first entry of a chat by another of the same chat replaces
/// it in the map.
pub proof fn lemma_tracking_update(entries: Seq<ChatUsersCountView>, i: int, e: ChatUsersCountView)
    requires
        first_index(chat_ids(entries), e.chat_id) == Some(i),
    ensures
        tracking_map(entries.update(i, e)) == tracking_map(entries).insert(e.chat_id, e),
{
    assert(chat_ids(entries.update(i, e)) =~= chat_ids(entries));
}

/// Adding an entry for a chat that has none adds it to the map.
pub proof fn lemma_tracking_push(entries: Seq<ChatUsersCountView>, e: ChatUsersCountView)
    requires
        first_index(chat_ids(entries), e.chat_id) is None,
    ensures
        tracking_map(entries.push(e)) == tracking_map(entries).insert(e.chat_id, e),
{
    let before = chat_ids(entries);
    let after = chat_ids(entries.push(e));
    assert(after =~= before.push(e.chat_id));
    lemma_first_index(before, e.chat_id);
    assert(is_first_index(after, e.chat_id, entries.len() as int));
    assert forall|k: Text| k != e.chat_id implies first_index(after, k) == first_index(
        before,
        k,
    ) by {
        lemma_first_index(before, k);
        if let Some(i) = first_index(before, k) {
            assert(is_first_index(after, k, i));
        }
    }
}

/// The place of the session registered under `name`, if there is one.
pub fn find_user(users: &Vec<ConnectedUser>, name: &str) -> (r: Option<usize>)
    ensures
        match r {
            Some(i) => first_index(names_of(users.deep_view()), name@) == Some(i as int),
            None => first_index(names_of(users.deep_view()), name@) is None,
        },
        r is Some <==> lookup(users.deep_view(), name@) is Some,
        r matches Some(i) ==> i < users.len() && lookup(users.deep_view(), name@) == Some(
            users@[i as int]@,
        ),
{
    let mut i: usize = 0;
    while i < users.len()
        invariant
            i <= users.len(),
            forall|j: int| 0 <= j < i ==> names_of(users.deep_view())[j] != name@,
        decreases users.len() - i,
    {
        if str_eq(users[i].user.username.as_str(), name) {
            proof {
                lemma_first_index_found(names_of(users.deep_view()), name@, i as int);
            }
            return Some(i);
        }
        i = i + 1;
    }
    None
}

/// The place of the membership of chat `chat_id`, if it has one.
pub fn find_chat(entries: &Vec<ChatUsersCount>, chat_id: &str) -> (r: Option<usize>)
    ensures
        match r {
            Some(i) => first_index(chat_ids(entries.deep_view()), chat_id@) == Some(i as int),
            None => first_index(chat_ids(entries.deep_view()), chat_id@) is None,
        },
        r is Some <==> tracking_map(entries.deep_view()).contains_key(chat_id@),
        r matches Some(i) ==> i < entries.len() && tracking_map(entries.deep_view())[chat_id@]
            == entries@[i as int]@ && entries@[i as int]@.chat_id == chat_id@,
{
    let mut i: usize = 0;
    while i < entries.len()
        invariant
            i <= entries.len(),
            forall|j: int| 0 <= j < i ==> chat_ids(entries.deep_view())[j] != chat_id@,
        decreases entries.len() - i,
    {
        if str_eq(entries[i].chat_id.as_str(), chat_id) {
            proof {
                lemma_first_index_found(chat_ids(entries.deep_view()), chat_id@, i as int);
            }
            return Some(i);
        }
        i = i + 1;
    }
    None
}


impl AppState {
    /// A server with nobody logged in and no chat on record.
    pub fn new() -> (state: Self)
        ensures
            state@.connected_users == Seq::<ConnectedUserView>::empty(),
            state@.chat_tracking == Map::<Text, ChatUsersCountView>::empty(),
            state@.private_chats_with_both_users == Set::<Text>::empty(),
            state@.wf(),
    {
        let state = AppState {
            connected_users: Vec::new(),
            chat_tracking: Vec::new(),
            private_chats_with_both_users: Vec::new(),
        };
        state
    }

    /// A copy of all sessions, in the order they logged in.
    pub fn snapshot(&self) -> (sessions: Vec<ConnectedUser>)
        ensures
            sessions.deep_view() == self@.connected_users,
    {
        let mut sessions: Vec<ConnectedUser> = Vec::new();
        let mut i: usize = 0;
        while i < self.connected_users.len()
            invariant
                i <= self.connected_users.len(),
                sessions.deep_view() == self@.connected_users.take(i as int),
            decreases self.connected_users.len() - i,
        {
            let ghost before = sessions;
            let session = self.connected_users[i].clone();
            sessions.push(session);
            proof {
                lemma_deep_push(before, sessions, session);
            }
            i = i + 1;
        }
        sessions
    }

    /// The presence records of all sessions, in the order they logged in.
    pub fn users(&self) -> (users: Vec<User>)
        ensures
            users.deep_view() == users_of(self@.connected_users),
    {
        let mut users: Vec<User> = Vec::new();
        let mut i: usize = 0;
        while i < self.connected_users.len()
            invariant
                i <= self.connected_users.len(),
                users.deep_view() == users_of(self@.connected_users.take(i as int)),
            decreases self.connected_users.len() - i,
        {
            let ghost before = users;
            let user = self.connected_users[i].user.clone();
            users.push(user);
            proof {
                lemma_deep_push(before, users, user);
            }
            i = i + 1;
        }
        users
    }
}

/// Why a registration was turned down.
#[derive(Clone, Copy, Debug, PartialEq, Eq, Structural)]
pub enum RegistryError {
    /// Somebody is registered under the name already.
    UsernameTaken,
}

/// The presence record of a user who has just logged in: available, in no
/// chat.
pub open spec fn new_user(name: Text) -> UserView {
    UserView { username: name, is_available: true, chat_id: None }
}

/// The state with one more session at the end.
pub open spec fn with_session(s: AppStateView, session: ConnectedUserView) -> AppStateView {
    AppStateView { connected_users: s.connected_users.push(session), ..s }
}

/// The state without the session at place `i`.
pub open spec fn without_session(s: AppStateView, i: int) -> AppStateView {
    AppStateView { connected_users: s.connected_users.remove(i), ..s }
}

impl AppState {
    /// Whether somebody is registered under `username`.
    pub fn is_registered(&self, username: &str) -> (r: bool)
        ensures
            r == lookup(self@.connected_users, username@) is Some,
    {
        find_user(&self.connected_users, username).is_some()
    }

    /// A copy of the session registered under `username`, if there is one.
    pub fn lookup(&self, username: &str) -> (r: Option<ConnectedUser>)
        ensures
            r.deep_view() == lookup(self@.connected_users, username@),
    {
        match find_user(&self.connected_users, username) {
            Some(i) => {
                Some(self.connected_users[i].clone())
            },
            None => None,
        }
    }

    /// Registers a new session under `username`, with the outbound queue
    /// `sender` and the session identifier `session_id`. A name that is taken
    /// is turned down and leaves everything as it was.
    pub fn register(
        &mut self,
        username: &str,
        sender: u64,
        session_id: String,
    ) -> (r: Result<(), RegistryError>)
        ensures
            r is Ok <==> lookup(old(self)@.connected_users, username@) is None,
            r is Ok ==> final(self)@ == with_session(
                old(self)@,
                ConnectedUserView {
                    user: new_user(username@),
                    sender,
                    session_id: session_id@,
                },
            ),
            r is Err ==> final(self)@ == old(self)@,
            r matches Err(e) ==> e == RegistryError::UsernameTaken,
    {
        if self.is_registered(username) {
            return Err(RegistryError::UsernameTaken);
        }
        let ghost before = self.connected_users;
        let session = ConnectedUser {
            user: User {
                username: username.to_owned(),
                is_available: true,
                chat_id: None,
            },
            sender,
            session_id,
        };
        self.connected_users.push(session);
        proof {
            lemma_deep_push(before, self.connected_users, session);
        }
        Ok(())
    }

    /// Removes the session registered under `username` and hands it back.
    /// Where there is none, nothing changes.
    pub fn unregister(&mut self, username: &str) -> (r: Option<ConnectedUser>)
        ensures
            r.deep_view() == lookup(old(self)@.connected_users, username@),
            final(self)@ == (match first_index(names_of(old(self)@.connected_users), username@) {
                Some(i) => without_session(old(self)@, i),
                None => old(self)@,
            }),
    {
        match find_user(&self.connected_users, username) {
            Some(i) => {
                let ghost before = self.connected_users;
                let session = self.connected_users.remove(i);
                proof {
                    lemma_deep_remove(before, self.connected_users, i as int);
                }
                Some(session)
            },
            None => None,
        }
    }
}

} // verus!
