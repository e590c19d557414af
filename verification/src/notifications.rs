//! Withdrawing readiness notices that no longer hold.

use crate::router::to_all;
use crate::state::AppState;
use crate::types::{
    ChatInvalidated, ChatInvalidatedView, Delivery, MessageType, Payload, PayloadView,
    WebSocketMessage, WebSocketMessageView,
};
use crate::user::broadcast_to_all;
use crate::views::Text;
use vstd::prelude::*;
use vstd::string::StringExecFns;

verus! {

/// The frame that withdraws the readiness notices of a chat.
pub open spec fn invalidated_message(chat_id: Text, reason: Text) -> WebSocketMessageView {
    WebSocketMessageView {
        message_type: MessageType::ChatInvalidated,
        data: PayloadView::ChatInvalidated(ChatInvalidatedView { chat_id, reason }),
    }
}

/// Tells every session that readiness notices for the chat `chat_id` no
/// longer hold. Any client may still show one, so all of them are told.
pub fn invalidate_chat_ready_notifications(
    state: &AppState,
    chat_id: &str,
    reason: &str,
) -> (out: Vec<Delivery>)
    ensures
        out.deep_view() == to_all(state@.connected_users, invalidated_message(chat_id@, reason@)),
{
    let chat_invalidated = ChatInvalidated {
        chat_id: String::from_str(chat_id),
        reason: String::from_str(reason),
    };
    let invalidation_message = WebSocketMessage {
        message_type: MessageType::ChatInvalidated,
        data: Payload::ChatInvalidated(chat_invalidated),
    };
    broadcast_to_all(state, &invalidation_message)
}

} // verus!
