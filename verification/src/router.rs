//! The building blocks of delivery: a frame for one user, for some, for
//! all, or for those in a chat.

use crate::state::{find_user, lookup, ConnectedUser, ConnectedUserView};
use crate::text::opt_is;
use crate::types::{Delivery, DeliveryView, WebSocketMessage, WebSocketMessageView};
use crate::views::Text;
use vstd::prelude::*;

verus! {

/// The frame `message`, queued for the one session registered under `name`;
/// nothing where nobody is registered under it.
pub open spec fn to_session(
    users: Seq<ConnectedUserView>,
    name: Text,
    message: WebSocketMessageView,
) -> Seq<DeliveryView> {
    match lookup(users, name) {
        Some(s) => seq![DeliveryView { sender: s.sender, message }],
        None => Seq::empty(),
    }
}

/// The frame `message`, queued once for each of `names` in turn that is
/// registered.
pub open spec fn to_names(
    users: Seq<ConnectedUserView>,
    names: Seq<Text>,
    message: WebSocketMessageView,
) -> Seq<DeliveryView>
    decreases names.len(),
{
    if names.len() == 0 {
        Seq::empty()
    } else {
        to_names(users, names.drop_last(), message) + to_session(users, names.last(), message)
    }
}

/// The frame `message`, queued for every session in order.
pub open spec fn to_all(
    users: Seq<ConnectedUserView>,
    message: WebSocketMessageView,
) -> Seq<DeliveryView> {
    Seq::new(users.len(), |i: int| DeliveryView { sender: users[i].sender, message })
}

/// The frame `message`, queued for every session whose presence record names
/// the chat `chat_id`, in order.
pub open spec fn to_chat(
    users: Seq<ConnectedUserView>,
    chat_id: Text,
    message: WebSocketMessageView,
) -> Seq<DeliveryView>
    decreases users.len(),
{
    if users.len() == 0 {
        Seq::empty()
    } else if users.last().user.chat_id == Some(chat_id) {
        to_chat(users.drop_last(), chat_id, message).push(
            DeliveryView { sender: users.last().sender, message },
        )
    } else {
        to_chat(users.drop_last(), chat_id, message)
    }
}

/// Moves the deliveries of `more` to the end of `out`.
pub(crate) fn extend(out: &mut Vec<Delivery>, more: Vec<Delivery>)
    ensures
        final(out).deep_view() == old(out).deep_view() + more.deep_view(),
{
    let mut more = more;
    out.append(&mut more);
}

/// Queues `message` for one connection.
pub(crate) fn push_delivery(out: &mut Vec<Delivery>, sender: u64, message: &WebSocketMessage)
    ensures
        final(out).deep_view() == old(out).deep_view().push(
            DeliveryView { sender, message: message@ },
        ),
{
    let d = Delivery { sender, message: message.clone() };
    out.push(d);
}

/// Queues `message` for the session registered under `name`, if there is
/// one. An absent recipient is passed over in silence.
pub fn send_to(
    users: &Vec<ConnectedUser>,
    name: &str,
    message: &WebSocketMessage,
    out: &mut Vec<Delivery>,
)
    ensures
        final(out).deep_view() == old(out).deep_view() + to_session(
            users.deep_view(),
            name@,
            message@,
        ),
{
    if let Some(i) = find_user(users, name) {
        push_delivery(out, users[i].sender, message);
    }
}

/// Queues `message` for each of `names` in turn that is registered.
pub fn send_to_names(
    users: &Vec<ConnectedUser>,
    names: &Vec<String>,
    message: &WebSocketMessage,
    out: &mut Vec<Delivery>,
)
    ensures
        final(out).deep_view() == old(out).deep_view() + to_names(
            users.deep_view(),
            names.deep_view(),
            message@,
        ),
{
    let mut i: usize = 0;
    while i < names.len()
        invariant
            i <= names.len(),
            out.deep_view() == old(out).deep_view() + to_names(
                users.deep_view(),
                names.deep_view().take(i as int),
                message@,
            ),
        decreases names.len() - i,
    {
        send_to(users, names[i].as_str(), message, out);
        proof {
            let next = names.deep_view().take(i + 1);
            assert(next.drop_last() =~= names.deep_view().take(i as int));
        }
        i = i + 1;
    }
    assert(names.deep_view().take(names.len() as int) =~= names.deep_view());
}

/// Queues `message` for every session.
pub fn send_to_all(users: &Vec<ConnectedUser>, message: &WebSocketMessage, out: &mut Vec<Delivery>)
    ensures
        final(out).deep_view() == old(out).deep_view() + to_all(users.deep_view(), message@),
{
    let mut i: usize = 0;
    while i < users.len()
        invariant
            i <= users.len(),
            out.deep_view() == old(out).deep_view() + to_all(
                users.deep_view().take(i as int),
                message@,
            ),
        decreases users.len() - i,
    {
        push_delivery(out, users[i].sender, message);
        i = i + 1;
    }
}

/// Queues `message` for every session whose presence record names the chat
/// `chat_id`.
pub fn send_to_chat(
    users: &Vec<ConnectedUser>,
    chat_id: &str,
    message: &WebSocketMessage,
    out: &mut Vec<Delivery>,
)
    ensures
        final(out).deep_view() == old(out).deep_view() + to_chat(
            users.deep_view(),
            chat_id@,
            message@,
        ),
{
    let mut i: usize = 0;
    while i < users.len()
        invariant
            i <= users.len(),
            out.deep_view() == old(out).deep_view() + to_chat(
                users.deep_view().take(i as int),
                chat_id@,
                message@,
            ),
        decreases users.len() - i,
    {
        let ghost next = users.deep_view().take(i + 1);
        proof {
            assert(next.drop_last() =~= users.deep_view().take(i as int));
        }
        if opt_is(&users[i].user.chat_id, chat_id) {
            push_delivery(out, users[i].sender, message);
        }
        i = i + 1;
    }
    assert(users.deep_view().take(users.len() as int) =~= users.deep_view());
}

} // verus!
