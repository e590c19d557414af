//! The session and presence engine of a chat server: who is logged in, who
//! is in which chat, and which connection gets which frame.
//!
//! Every operation takes the state and an event and hands back the frames to
//! send, each with the connection it is for. Sending them is the caller's.

pub mod chat;
pub mod invites;
pub mod json;
pub mod laws_delivery;
pub mod laws_membership;
pub mod laws_registry;
pub mod notifications;
pub mod performance;
pub mod presence;
pub mod router;
pub mod routes;
pub mod stamp;
pub mod state;
pub mod text;
pub mod tracking;
pub mod types;
pub mod user;
pub mod views;
pub mod websocket;

pub use state::{AppState, ConnectedUser, RegistryError};
pub use types::{
    AloneInChatNotification, ChatAbandonedNotification, ChatInvalidated, ChatInvite,
    ChatInviteResponse, ChatInviteResponseNotify, ChatMessage, ChatReady, ChatType,
    ChatUsersCount, Delivery, LoginRequest, MessageType, Payload, Timestamp, User,
    WebSocketMessage,
};
