//! Laws of delivery: which connections a frame reaches, and which it does
//! not.

use crate::chat::{chat_message_deliveries, chat_message_frame, target_chat_id};
use crate::laws_registry::lemma_with_user_wf;
use crate::presence::{
    entered_chat, patched_user, status_patch_deliveries, with_user, StatusPatchView,
};
use crate::router::{to_all, to_chat, to_names};
use crate::state::{lookup, names_of, AppStateView, ConnectedUserView};
use crate::tracking::{alone_deliveries, alone_message, in_chat_names, join_deliveries};
use crate::types::{ChatMessageView, ChatTypeView, DeliveryView, MessageType, WebSocketMessageView};
use crate::user::{user_status_message, users_list_message};
use crate::views::{first_index, is_first_index, Text};
use vstd::prelude::*;

verus! {

/// Whether session `j` of `users` is in the chat `chat_id`.
pub open spec fn in_chat(users: Seq<ConnectedUserView>, j: int, chat_id: Text) -> bool {
    0 <= j < users.len() && users[j].user.chat_id == Some(chat_id)
}

/// Whether the connection `sender` belongs to a session in the chat
/// `chat_id`.
pub open spec fn connection_in_chat(
    users: Seq<ConnectedUserView>,
    sender: u64,
    chat_id: Text,
) -> bool {
    exists|j: int| in_chat(users, j, chat_id) && users[j].sender == sender
}

/// Whether `out` holds a delivery to the connection `sender`.
pub open spec fn reaches(out: Seq<DeliveryView>, sender: u64) -> bool {
    exists|k: int| 0 <= k < out.len() && #[trigger] out[k].sender == sender
}

/// Whether every delivery in `out` carries `message`.
pub open spec fn all_carry(out: Seq<DeliveryView>, message: WebSocketMessageView) -> bool {
    forall|k: int| 0 <= k < out.len() ==> #[trigger] out[k].message == message
}

/// Whether no delivery in `out` is of the kind `kind`.
pub open spec fn none_of_kind(out: Seq<DeliveryView>, kind: MessageType) -> bool {
    forall|k: int| 0 <= k < out.len() ==> (#[trigger] out[k]).message.message_type != kind
}

/// Whether `out` is the frame `message` delivered to the chat `chat_id`
/// and nowhere else: each delivery carries the frame and goes to the
/// connection of a session in the chat, and the connection of each session in
/// the chat is reached.
pub open spec fn delivered_to_chat(
    out: Seq<DeliveryView>,
    users: Seq<ConnectedUserView>,
    chat_id: Text,
    message: WebSocketMessageView,
) -> bool {
    &&& all_carry(out, message)
    &&& forall|k: int|
        0 <= k < out.len() ==> connection_in_chat(users, #[trigger] out[k].sender, chat_id)
    &&& forall|j: int| #[trigger] in_chat(users, j, chat_id) ==> reaches(out, users[j].sender)
}

/// A frame for a chat reaches the sessions in that chat and no others.
pub proof fn lemma_to_chat_members(
    users: Seq<ConnectedUserView>,
    chat_id: Text,
    message: WebSocketMessageView,
)
    ensures
        delivered_to_chat(to_chat(users, chat_id, message), users, chat_id, message),
    decreases users.len(),
{
    if users.len() > 0 {
        let rest = users.drop_last();
        let last = users.len() - 1;
        let out = to_chat(users, chat_id, message);
        let before = to_chat(rest, chat_id, message);
        lemma_to_chat_members(rest, chat_id, message);
        assert forall|k: int| 0 <= k < out.len() implies connection_in_chat(
            users,
            #[trigger] out[k].sender,
            chat_id,
        ) by {
            if k < before.len() {
                let j = choose|j: int|
                    in_chat(rest, j, chat_id) && rest[j].sender == before[k].sender;
                assert(in_chat(users, j, chat_id) && users[j].sender == out[k].sender);
            } else {
                assert(in_chat(users, last, chat_id) && users[last].sender == out[k].sender);
            }
        }
        assert forall|j: int| #[trigger] in_chat(users, j, chat_id) implies reaches(
            out,
            users[j].sender,
        ) by {
            if j < last {
                assert(in_chat(rest, j, chat_id));
            } else {
                assert(out[out.len() - 1].sender == users[j].sender);
            }
        }
    }
}

/// A chat message that names the chat `chat_id` reaches the sessions whose
/// presence record names that chat, and no others. Whoever is in another
/// chat, or in none, gets nothing unless it shares its connection with a
/// session in that chat.
pub proof fn lemma_targeted_delivery(
    users: Seq<ConnectedUserView>,
    sender: Text,
    msg: ChatMessageView,
    chat_id: Text,
)
    requires
        msg.chat_id == Some(chat_id),
    ensures
        delivered_to_chat(
            chat_message_deliveries(users, sender, msg),
            users,
            chat_id,
            chat_message_frame(msg),
        ),
{
    lemma_to_chat_members(users, chat_id, chat_message_frame(msg));
}

/// A chat message that names no chat, from a sender whose presence record
/// names the chat `chat_id`, goes exactly where a message that names
/// `chat_id` goes: to the sessions whose presence record names that chat,
/// and to no others.
pub proof fn lemma_fallback_targeting(
    users: Seq<ConnectedUserView>,
    sender: Text,
    msg: ChatMessageView,
    chat_id: Text,
)
    requires
        msg.chat_id is None,
        lookup(users, sender) matches Some(s) && s.user.chat_id == Some(chat_id),
    ensures
        chat_message_deliveries(users, sender, msg) == to_chat(
            users,
            chat_id,
            chat_message_frame(msg),
        ),
        delivered_to_chat(
            chat_message_deliveries(users, sender, msg),
            users,
            chat_id,
            chat_message_frame(msg),
        ),
{
    lemma_to_chat_members(users, chat_id, chat_message_frame(msg));
}

/// Deliveries to named users all carry the frame that was sent.
pub proof fn lemma_to_names_carry(
    users: Seq<ConnectedUserView>,
    names: Seq<Text>,
    message: WebSocketMessageView,
)
    ensures
        all_carry(to_names(users, names, message), message),
    decreases names.len(),
{
    if names.len() > 0 {
        lemma_to_names_carry(users, names.drop_last(), message);
    }
}

/// Every delivery of a chat message carries that message.
pub proof fn lemma_chat_message_carry(
    users: Seq<ConnectedUserView>,
    sender: Text,
    msg: ChatMessageView,
)
    ensures
        all_carry(chat_message_deliveries(users, sender, msg), chat_message_frame(msg)),
{
    let frame = chat_message_frame(msg);
    match target_chat_id(users, sender, msg) {
        Some(c) => {
            lemma_to_chat_members(users, c, frame);
        },
        None => match msg.chat_type {
            ChatTypeView::Private { target } => {
                lemma_to_names_carry(users, seq![sender, target], frame);
            },
            ChatTypeView::Group { members } => {
                lemma_to_names_carry(users, members, frame);
            },
            ChatTypeView::System => {},
        },
    }
}

/// Where no two sessions share a name, a frame sent to the names of the
/// sessions in a chat goes to those very sessions.
pub proof fn lemma_names_reach_their_sessions(
    users: Seq<ConnectedUserView>,
    chat_id: Text,
    message: WebSocketMessageView,
    upto: int,
)
    requires
        names_of(users).no_duplicates(),
        0 <= upto <= users.len(),
    ensures
        to_names(users, in_chat_names(users.take(upto), chat_id), message) == to_chat(
            users.take(upto),
            chat_id,
            message,
        ),
        in_chat_names(users.take(upto), chat_id).len() == to_chat(
            users.take(upto),
            chat_id,
            message,
        ).len(),
    decreases upto,
{
    if upto > 0 {
        let part = users.take(upto);
        let rest = users.take(upto - 1);
        assert(part.drop_last() =~= rest);
        lemma_names_reach_their_sessions(users, chat_id, message, upto - 1);
        let last = users[upto - 1];
        if last.user.chat_id == Some(chat_id) {
            let names = in_chat_names(part, chat_id);
            assert(names.drop_last() =~= in_chat_names(rest, chat_id));
            assert(is_first_index(names_of(users), last.user.username, upto - 1));
        }
    }
}

/// Where no two sessions share a name, the sessions in a chat are told
/// whether one of them is alone: nothing is sent for a chat with nobody in
/// it; the one session of a chat with one is told that it is alone; each
/// session of a chat with more is told that it is not. Nobody else is told
/// anything.
pub proof fn lemma_alone_toggling(users: Seq<ConnectedUserView>, chat_id: Text)
    requires
        names_of(users).no_duplicates(),
    ensures
        in_chat_names(users, chat_id).len() == 0 ==> alone_deliveries(users, chat_id)
            == Seq::<DeliveryView>::empty(),
        in_chat_names(users, chat_id).len() > 0 ==> alone_deliveries(users, chat_id).len()
            == in_chat_names(users, chat_id).len() && delivered_to_chat(
            alone_deliveries(users, chat_id),
            users,
            chat_id,
            alone_message(chat_id, in_chat_names(users, chat_id).len() == 1),
        ),
{
    let names = in_chat_names(users, chat_id);
    let message = alone_message(chat_id, names.len() == 1);
    assert(users.take(users.len() as int) =~= users);
    lemma_names_reach_their_sessions(users, chat_id, message, users.len() as int);
    lemma_to_chat_members(users, chat_id, message);
}

/// A chat that no session is in gets no frame.
pub proof fn lemma_to_chat_nobody(
    users: Seq<ConnectedUserView>,
    chat_id: Text,
    message: WebSocketMessageView,
)
    requires
        forall|j: int| !in_chat(users, j, chat_id),
    ensures
        to_chat(users, chat_id, message) == Seq::<DeliveryView>::empty(),
    decreases users.len(),
{
    if users.len() > 0 {
        assert(!in_chat(users, users.len() - 1, chat_id));
        assert forall|j: int| !in_chat(users.drop_last(), j, chat_id) by {
            assert(!in_chat(users, j, chat_id));
        }
        lemma_to_chat_nobody(users.drop_last(), chat_id, message);
    }
}

/// A frame for a chat that one session is in is delivered once, to that
/// session.
pub proof fn lemma_to_chat_single(
    users: Seq<ConnectedUserView>,
    chat_id: Text,
    message: WebSocketMessageView,
    i: int,
)
    requires
        in_chat(users, i, chat_id),
        forall|j: int| in_chat(users, j, chat_id) ==> j == i,
    ensures
        to_chat(users, chat_id, message) == seq![
            DeliveryView { sender: users[i].sender, message },
        ],
    decreases users.len(),
{
    let rest = users.drop_last();
    let last = users.len() - 1;
    if i == last {
        assert forall|j: int| !in_chat(rest, j, chat_id) by {
            if in_chat(rest, j, chat_id) {
                assert(in_chat(users, j, chat_id));
            }
        }
        lemma_to_chat_nobody(rest, chat_id, message);
    } else {
        assert(!in_chat(users, last, chat_id));
        assert forall|j: int| in_chat(rest, j, chat_id) implies j == i by {
            assert(in_chat(users, j, chat_id));
        }
        lemma_to_chat_single(rest, chat_id, message, i);
    }
}

/// Where no two sessions share a name and session `i` is the only one in
/// the chat `chat_id`, that session is told that it is alone, and nothing
/// else is sent.
pub proof fn lemma_alone_in_chat(users: Seq<ConnectedUserView>, chat_id: Text, i: int)
    requires
        names_of(users).no_duplicates(),
        in_chat(users, i, chat_id),
        forall|j: int| in_chat(users, j, chat_id) ==> j == i,
    ensures
        alone_deliveries(users, chat_id) == seq![
            DeliveryView { sender: users[i].sender, message: alone_message(chat_id, true) },
        ],
{
    assert(users.take(users.len() as int) =~= users);
    lemma_to_chat_single(users, chat_id, alone_message(chat_id, true), i);
    lemma_names_reach_their_sessions(
        users,
        chat_id,
        alone_message(chat_id, true),
        users.len() as int,
    );
}

/// A frame for a chat that two sessions are in is delivered at least twice.
pub proof fn lemma_to_chat_pair(
    users: Seq<ConnectedUserView>,
    chat_id: Text,
    message: WebSocketMessageView,
    i: int,
    j: int,
)
    requires
        in_chat(users, i, chat_id),
        in_chat(users, j, chat_id),
        i < j,
    ensures
        to_chat(users, chat_id, message).len() >= 2,
    decreases users.len(),
{
    let rest = users.drop_last();
    let last = users.len() - 1;
    if j == last {
        assert(in_chat(rest, i, chat_id));
        lemma_to_chat_members(rest, chat_id, message);
    } else {
        lemma_to_chat_pair(rest, chat_id, message, i, j);
    }
}

/// Where no two sessions share a name and two sessions are in the chat
/// `chat_id`, each session in the chat is told that it is not alone, and
/// nobody else is told anything.
pub proof fn lemma_not_alone_in_chat(users: Seq<ConnectedUserView>, chat_id: Text, i: int, j: int)
    requires
        names_of(users).no_duplicates(),
        in_chat(users, i, chat_id),
        in_chat(users, j, chat_id),
        i < j,
    ensures
        delivered_to_chat(
            alone_deliveries(users, chat_id),
            users,
            chat_id,
            alone_message(chat_id, false),
        ),
{
    assert(users.take(users.len() as int) =~= users);
    lemma_to_chat_pair(users, chat_id, alone_message(chat_id, false), i, j);
    lemma_names_reach_their_sessions(
        users,
        chat_id,
        alone_message(chat_id, false),
        users.len() as int,
    );
    lemma_alone_toggling(users, chat_id);
}

/// The notices about being alone are of no other kind.
pub proof fn lemma_alone_kind(users: Seq<ConnectedUserView>, chat_id: Text, kind: MessageType)
    requires
        kind != MessageType::AloneInChat,
    ensures
        none_of_kind(alone_deliveries(users, chat_id), kind),
{
    let names = in_chat_names(users, chat_id);
    let message = alone_message(chat_id, names.len() == 1);
    lemma_to_names_carry(users, names, message);
}

/// A user that comes into a chat which no other session is in is told that
/// it is alone: the status patch sends the new membership, that one notice,
/// and then the patched presence record and the list of users to everybody.
pub proof fn lemma_joining_alone(
    s: AppStateView,
    name: Text,
    patch: StatusPatchView,
    chat_id: Text,
    i: int,
)
    requires
        s.wf(),
        first_index(names_of(s.connected_users), name) == Some(i),
        entered_chat(s.connected_users[i].user, patch) == Some(chat_id),
        forall|j: int| in_chat(s.connected_users, j, chat_id) ==> j == i,
    ensures
        ({
            let user = patched_user(s.connected_users[i].user, patch);
            let t = with_user(s, i, user);
            status_patch_deliveries(s, name, patch) == join_deliveries(t, chat_id, name) + seq![
                DeliveryView {
                    sender: s.connected_users[i].sender,
                    message: alone_message(chat_id, true),
                },
            ] + to_all(t.connected_users, user_status_message(user)) + to_all(
                t.connected_users,
                users_list_message(t.connected_users),
            )
        }),
{
    let user = patched_user(s.connected_users[i].user, patch);
    let t = with_user(s, i, user);
    let users = t.connected_users;
    lemma_with_user_wf(s, i, user);
    assert forall|j: int| in_chat(users, j, chat_id) implies j == i by {
        if j != i {
            assert(in_chat(s.connected_users, j, chat_id));
        }
    }
    lemma_alone_in_chat(users, chat_id, i);
}

/// A user that comes into a chat which another session is in already is
/// told, as is every session in the chat, that it is not alone; nobody
/// outside the chat is told anything about it.
pub proof fn lemma_joining_others(
    s: AppStateView,
    name: Text,
    patch: StatusPatchView,
    chat_id: Text,
    i: int,
    j: int,
)
    requires
        s.wf(),
        first_index(names_of(s.connected_users), name) == Some(i),
        entered_chat(s.connected_users[i].user, patch) == Some(chat_id),
        in_chat(s.connected_users, j, chat_id),
        j != i,
    ensures
        ({
            let user = patched_user(s.connected_users[i].user, patch);
            let t = with_user(s, i, user);
            &&& status_patch_deliveries(s, name, patch) == join_deliveries(t, chat_id, name)
                + alone_deliveries(t.connected_users, chat_id) + to_all(
                t.connected_users,
                user_status_message(user),
            ) + to_all(t.connected_users, users_list_message(t.connected_users))
            &&& delivered_to_chat(
                alone_deliveries(t.connected_users, chat_id),
                t.connected_users,
                chat_id,
                alone_message(chat_id, false),
            )
        }),
{
    let user = patched_user(s.connected_users[i].user, patch);
    let t = with_user(s, i, user);
    let users = t.connected_users;
    lemma_with_user_wf(s, i, user);
    if i < j {
        lemma_not_alone_in_chat(users, chat_id, i, j);
    } else {
        lemma_not_alone_in_chat(users, chat_id, j, i);
    }
}

} // verus!
