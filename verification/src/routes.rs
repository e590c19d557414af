//! What the plain request endpoints answer.

use crate::state::{find_user, names_of, users_of, AppState, AppStateView};
use crate::text::concat3;
use crate::types::{LoginRequest, User, UserView};
use crate::views::{first_index, lemma_deep_update, Text};
use crate::websocket::{login_error_text, name_taken};
use vstd::prelude::*;

verus! {

/// How a request ended.
#[derive(Clone, Copy, Debug, PartialEq, Eq, Structural)]
pub enum RouteStatus {
    Success,
    Conflict,
    NotFound,
}

/// The greeting of the root endpoint.
pub fn root() -> (greeting: &'static str)
    ensures
        greeting@ == "Rust WebSocket Chat Server is running!"@,
{
    "Rust WebSocket Chat Server is running!"
}

/// The presence records of all sessions.
pub fn get_users(state: &AppState) -> (users: Vec<User>)
    ensures
        users.deep_view() == users_of(state@.connected_users),
{
    state.users()
}

/// What a client is told whose name is free.
pub open spec fn name_free_text(name: Text) -> Text {
    "Username '"@ + name + "' è disponibile"@
}

/// Says whether the name that `login_req` asks for is free: a conflict with
/// its notice where it is taken, else the go-ahead. Nothing is registered.
pub fn login_user(state: &AppState, login_req: &LoginRequest) -> (r: (RouteStatus, String))
    ensures
        name_taken(state@, login_req@.username) ==> r.0 == RouteStatus::Conflict && r.1@
            == login_error_text(login_req@.username),
        !name_taken(state@, login_req@.username) ==> r.0 == RouteStatus::Success && r.1@
            == name_free_text(login_req@.username),
{
    let name = login_req.username.as_str();
    if state.is_registered(name) {
        (
            RouteStatus::Conflict,
            concat3("Username '", name, "' è già in uso. Scegli un altro nome."),
        )
    } else {
        (RouteStatus::Success, concat3("Username '", name, "' è disponibile"))
    }
}

/// The presence record with its availability set; a user that becomes
/// available is in no chat.
pub open spec fn with_availability(user: UserView, available: bool) -> UserView {
    UserView {
        is_available: available,
        chat_id: if available {
            None
        } else {
            user.chat_id
        },
        ..user
    }
}

/// The state after the availability of the user `name` has been set.
pub open spec fn after_availability(s: AppStateView, name: Text, available: bool) -> AppStateView {
    match first_index(names_of(s.connected_users), name) {
        Some(i) => crate::presence::with_user(
            s,
            i,
            with_availability(s.connected_users[i].user, available),
        ),
        None => s,
    }
}

/// Sets the availability of the user `username`. Who is not registered is
/// not found, and nothing changes.
pub fn update_user_availability(
    state: &mut AppState,
    username: &str,
    available: bool,
) -> (r: (RouteStatus, &'static str))
    ensures
        final(state)@ == after_availability(old(state)@, username@, available),
        name_taken(old(state)@, username@) ==> r.0 == RouteStatus::Success && r.1@
            == "Disponibilità aggiornata"@,
        !name_taken(old(state)@, username@) ==> r.0 == RouteStatus::NotFound && r.1@
            == "Utente non trovato"@,
{
    match find_user(&state.connected_users, username) {
        Some(i) => {
            let ghost before = state.connected_users;
            state.connected_users[i].user.is_available = available;
            if available {
                state.connected_users[i].user.chat_id = None;
            }
            proof {
                let session = state.connected_users@[i as int];
                assert(state.connected_users@ =~= before@.update(i as int, session));
                lemma_deep_update(before, state.connected_users, i as int, session);
            }
            (RouteStatus::Success, "Disponibilità aggiornata")
        },
        None => (RouteStatus::NotFound, "Utente non trovato"),
    }
}

} // verus!
