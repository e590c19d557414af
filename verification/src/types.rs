//! The values that clients and server exchange.

use crate::views::{lemma_deep_push, Text};
use vstd::prelude::*;

verus! {

/// `uuid::Uuid`, an identifier of 128 bits. The proofs see nothing of what
/// it holds; messages carry it along.
#[verifier::external_type_specification]
#[verifier::external_body]
pub struct ExUuid(uuid::Uuid);

/// Copies an optional string.
pub(crate) fn clone_opt(s: &Option<String>) -> (r: Option<String>)
    ensures
        r.deep_view() == s.deep_view(),
{
    match s {
        Some(t) => Some(t.clone()),
        None => None,
    }
}

/// Copies a list of strings.
pub(crate) fn clone_names(names: &Vec<String>) -> (r: Vec<String>)
    ensures
        r.deep_view() == names.deep_view(),
{
    let mut r: Vec<String> = Vec::new();
    let mut i: usize = 0;
    while i < names.len()
        invariant
            i <= names.len(),
            r.deep_view() == names.deep_view().take(i as int),
        decreases names.len() - i,
    {
        let ghost before = r;
        let name = names[i].clone();
        r.push(name);
        proof {
            lemma_deep_push(before, r, name);
        }
        i = i + 1;
    }
    r
}

/// An instant in UTC: whole seconds since the Unix epoch and the nanoseconds
/// within that second.
#[derive(Clone, Copy, Debug, PartialEq, Eq)]
pub struct Timestamp {
    pub secs: i64,
    pub nanos: u32,
}

/// Public presence of one logged-in client.
#[derive(Debug, PartialEq, Eq)]
pub struct User {
    pub username: String,
    pub is_available: bool,
    pub chat_id: Option<String>,
}

/// A `User` as the contracts see it: its texts as sequences of characters.
pub struct UserView {
    pub username: Text,
    pub is_available: bool,
    pub chat_id: Option<Text>,
}

impl View for User {
    type V = UserView;

    open spec fn view(&self) -> UserView {
        UserView {
            username: self.username@,
            is_available: self.is_available,
            chat_id: self.chat_id.deep_view(),
        }
    }
}

impl DeepView for User {
    type V = UserView;

    open spec fn deep_view(&self) -> UserView {
        self@
    }
}

impl Clone for User {
    fn clone(&self) -> (r: Self)
        ensures
            r@ == self@,
    {
        User {
            username: self.username.clone(),
            is_available: self.is_available,
            chat_id: clone_opt(&self.chat_id),
        }
    }
}

/// Copies a list of users.
pub(crate) fn clone_users(users: &Vec<User>) -> (r: Vec<User>)
    ensures
        r.deep_view() == users.deep_view(),
{
    let mut r: Vec<User> = Vec::new();
    let mut i: usize = 0;
    while i < users.len()
        invariant
            i <= users.len(),
            r.deep_view() == users.deep_view().take(i as int),
        decreases users.len() - i,
    {
        let ghost before = r;
        let user = users[i].clone();
        r.push(user);
        proof {
            lemma_deep_push(before, r, user);
        }
        i = i + 1;
    }
    r
}


/// What a client sends to log in.
#[derive(Debug, PartialEq, Eq)]
pub struct LoginRequest {
    pub username: String,
}

/// A `LoginRequest` as the contracts see it: its texts as sequences of characters.
pub struct LoginRequestView {
    pub username: Text,
}

impl View for LoginRequest {
    type V = LoginRequestView;

    open spec fn view(&self) -> LoginRequestView {
        LoginRequestView { username: self.username@ }
    }
}

impl DeepView for LoginRequest {
    type V = LoginRequestView;

    open spec fn deep_view(&self) -> LoginRequestView {
        self@
    }
}

impl Clone for LoginRequest {
    fn clone(&self) -> (r: Self)
        ensures
            r@ == self@,
    {
        LoginRequest { username: self.username.clone() }
    }
}

/// Who a chat is between.
#[derive(Debug, PartialEq, Eq)]
pub enum ChatType {
    Private { target: String },
    Group { members: Vec<String> },
    System,
}

/// A `ChatType` as the contracts see it: its texts as sequences of characters.
pub enum ChatTypeView {
    Private { target: Text },
    Group { members: Seq<Text> },
    System,
}

impl View for ChatType {
    type V = ChatTypeView;

    open spec fn view(&self) -> ChatTypeView {
        match self {
            ChatType::Private { target } => ChatTypeView::Private { target: target@ },
            ChatType::Group { members } => ChatTypeView::Group { members: members.deep_view() },
            ChatType::System => ChatTypeView::System,
        }
    }
}

impl DeepView for ChatType {
    type V = ChatTypeView;

    open spec fn deep_view(&self) -> ChatTypeView {
        self@
    }
}

impl Clone for ChatType {
    fn clone(&self) -> (r: Self)
        ensures
            r@ == self@,
    {
        match self {
            ChatType::Private { target } => ChatType::Private { target: target.clone() },
            ChatType::Group { members } => ChatType::Group { members: clone_names(members) },
            ChatType::System => ChatType::System,
        }
    }
}

/// One chat message, from a client or from the server itself.
#[derive(Debug, PartialEq, Eq)]
pub struct ChatMessage {
    pub id: uuid::Uuid,
    pub chat_id: Option<String>,
    pub username: String,
    pub content: String,
    pub timestamp: Timestamp,
    pub chat_type: ChatType,
}

/// A `ChatMessage` as the contracts see it: its texts as sequences of characters.
pub struct ChatMessageView {
    pub id: uuid::Uuid,
    pub chat_id: Option<Text>,
    pub username: Text,
    pub content: Text,
    pub timestamp: Timestamp,
    pub chat_type: ChatTypeView,
}

impl View for ChatMessage {
    type V = ChatMessageView;

    open spec fn view(&self) -> ChatMessageView {
        ChatMessageView {
            id: self.id,
            chat_id: self.chat_id.deep_view(),
            username: self.username@,
            content: self.content@,
            timestamp: self.timestamp,
            chat_type: self.chat_type@,
        }
    }
}

impl DeepView for ChatMessage {
    type V = ChatMessageView;

    open spec fn deep_view(&self) -> ChatMessageView {
        self@
    }
}

impl Clone for ChatMessage {
    fn clone(&self) -> (r: Self)
        ensures
            r@ == self@,
    {
        ChatMessage {
            id: self.id,
            chat_id: clone_opt(&self.chat_id),
            username: self.username.clone(),
            content: self.content.clone(),
            timestamp: self.timestamp,
            chat_type: self.chat_type.clone(),
        }
    }
}

/// An invitation to a chat, as its sender wrote it.
#[derive(Debug, PartialEq, Eq)]
pub struct ChatInvite {
    pub id: String,
    pub chat_id: Option<String>,
    pub from: String,
    pub from_session_id: String,
    pub chat_type: ChatType,
    pub message: String,
    pub timestamp: Timestamp,
}

/// A `ChatInvite` as the contracts see it: its texts as sequences of characters.
pub struct ChatInviteView {
    pub id: Text,
    pub chat_id: Option<Text>,
    pub from: Text,
    pub from_session_id: Text,
    pub chat_type: ChatTypeView,
    pub message: Text,
    pub timestamp: Timestamp,
}

impl View for ChatInvite {
    type V = ChatInviteView;

    open spec fn view(&self) -> ChatInviteView {
        ChatInviteView {
            id: self.id@,
            chat_id: self.chat_id.deep_view(),
            from: self.from@,
            from_session_id: self.from_session_id@,
            chat_type: self.chat_type@,
            message: self.message@,
            timestamp: self.timestamp,
        }
    }
}

impl DeepView for ChatInvite {
    type V = ChatInviteView;

    open spec fn deep_view(&self) -> ChatInviteView {
        self@
    }
}

impl Clone for ChatInvite {
    fn clone(&self) -> (r: Self)
        ensures
            r@ == self@,
    {
        ChatInvite {
            id: self.id.clone(),
            chat_id: clone_opt(&self.chat_id),
            from: self.from.clone(),
            from_session_id: self.from_session_id.clone(),
            chat_type: self.chat_type.clone(),
            message: self.message.clone(),
            timestamp: self.timestamp,
        }
    }
}

/// The answer to an invitation. `from_user` and `from_session_id` name the
/// inviter and the session the invitation was sent from.
#[derive(Debug, PartialEq, Eq)]
pub struct ChatInviteResponse {
    pub invite_id: String,
    pub chat_id: Option<String>,
    pub accepted: bool,
    pub from_user: String,
    pub from_session_id: String,
    pub chat_type: ChatType,
}

/// A `ChatInviteResponse` as the contracts see it: its texts as sequences of characters.
pub struct ChatInviteResponseView {
    pub invite_id: Text,
    pub chat_id: Option<Text>,
    pub accepted: bool,
    pub from_user: Text,
    pub from_session_id: Text,
    pub chat_type: ChatTypeView,
}

impl View for ChatInviteResponse {
    type V = ChatInviteResponseView;

    open spec fn view(&self) -> ChatInviteResponseView {
        ChatInviteResponseView {
            invite_id: self.invite_id@,
            chat_id: self.chat_id.deep_view(),
            accepted: self.accepted,
            from_user: self.from_user@,
            from_session_id: self.from_session_id@,
            chat_type: self.chat_type@,
        }
    }
}

impl DeepView for ChatInviteResponse {
    type V = ChatInviteResponseView;

    open spec fn deep_view(&self) -> ChatInviteResponseView {
        self@
    }
}

impl Clone for ChatInviteResponse {
    fn clone(&self) -> (r: Self)
        ensures
            r@ == self@,
    {
        ChatInviteResponse {
            invite_id: self.invite_id.clone(),
            chat_id: clone_opt(&self.chat_id),
            accepted: self.accepted,
            from_user: self.from_user.clone(),
            from_session_id: self.from_session_id.clone(),
            chat_type: self.chat_type.clone(),
        }
    }
}

/// Tells an inviter that the chat can be opened.
#[derive(Debug, PartialEq, Eq)]
pub struct ChatReady {
    pub chat_id: String,
    pub inviter: String,
    pub inviter_session_id: String,
    pub chat_type: ChatType,
    pub accepted_by: String,
}

/// A `ChatReady` as the contracts see it: its texts as sequences of characters.
pub struct ChatReadyView {
    pub chat_id: Text,
    pub inviter: Text,
    pub inviter_session_id: Text,
    pub chat_type: ChatTypeView,
    pub accepted_by: Text,
}

impl View for ChatReady {
    type V = ChatReadyView;

    open spec fn view(&self) -> ChatReadyView {
        ChatReadyView {
            chat_id: self.chat_id@,
            inviter: self.inviter@,
            inviter_session_id: self.inviter_session_id@,
            chat_type: self.chat_type@,
            accepted_by: self.accepted_by@,
        }
    }
}

impl DeepView for ChatReady {
    type V = ChatReadyView;

    open spec fn deep_view(&self) -> ChatReadyView {
        self@
    }
}

impl Clone for ChatReady {
    fn clone(&self) -> (r: Self)
        ensures
            r@ == self@,
    {
        ChatReady {
            chat_id: self.chat_id.clone(),
            inviter: self.inviter.clone(),
            inviter_session_id: self.inviter_session_id.clone(),
            chat_type: self.chat_type.clone(),
            accepted_by: self.accepted_by.clone(),
        }
    }
}

/// Tells the members of a chat whether one of them is alone in it.
#[derive(Debug, PartialEq, Eq)]
pub struct AloneInChatNotification {
    pub chat_id: String,
    pub message: String,
    pub is_alone: bool,
}

/// An `AloneInChatNotification` as the contracts see it: its texts as sequences of characters.
pub struct AloneInChatNotificationView {
    pub chat_id: Text,
    pub message: Text,
    pub is_alone: bool,
}

impl View for AloneInChatNotification {
    type V = AloneInChatNotificationView;

    open spec fn view(&self) -> AloneInChatNotificationView {
        AloneInChatNotificationView {
            chat_id: self.chat_id@,
            message: self.message@,
            is_alone: self.is_alone,
        }
    }
}

impl DeepView for AloneInChatNotification {
    type V = AloneInChatNotificationView;

    open spec fn deep_view(&self) -> AloneInChatNotificationView {
        self@
    }
}

impl Clone for AloneInChatNotification {
    fn clone(&self) -> (r: Self)
        ensures
            r@ == self@,
    {
        AloneInChatNotification {
            chat_id: self.chat_id.clone(),
            message: self.message.clone(),
            is_alone: self.is_alone,
        }
    }
}

/// Membership of one chat: who was invited and who is inside now.
#[derive(Debug, PartialEq, Eq)]
pub struct ChatUsersCount {
    pub chat_id: String,
    pub invited_users: Vec<String>,
    pub users_in_chat: Vec<String>,
    pub invited_count: usize,
    pub in_chat_count: usize,
}

/// A `ChatUsersCount` as the contracts see it: its texts as sequences of characters.
pub struct ChatUsersCountView {
    pub chat_id: Text,
    pub invited_users: Seq<Text>,
    pub users_in_chat: Seq<Text>,
    pub invited_count: nat,
    pub in_chat_count: nat,
}

impl ChatUsersCountView {
    /// The two counts are the lengths of the two lists, and nobody is inside
    /// the chat twice.
    pub open spec fn wf(self) -> bool {
        &&& self.invited_count == self.invited_users.len()
        &&& self.in_chat_count == self.users_in_chat.len()
        &&& self.users_in_chat.no_duplicates()
    }
}

impl View for ChatUsersCount {
    type V = ChatUsersCountView;

    open spec fn view(&self) -> ChatUsersCountView {
        ChatUsersCountView {
            chat_id: self.chat_id@,
            invited_users: self.invited_users.deep_view(),
            users_in_chat: self.users_in_chat.deep_view(),
            invited_count: self.invited_count as nat,
            in_chat_count: self.in_chat_count as nat,
        }
    }
}

impl DeepView for ChatUsersCount {
    type V = ChatUsersCountView;

    open spec fn deep_view(&self) -> ChatUsersCountView {
        self@
    }
}

impl Clone for ChatUsersCount {
    fn clone(&self) -> (r: Self)
        ensures
            r@ == self@,
    {
        ChatUsersCount {
            chat_id: self.chat_id.clone(),
            invited_users: clone_names(&self.invited_users),
            users_in_chat: clone_names(&self.users_in_chat),
            invited_count: self.invited_count,
            in_chat_count: self.in_chat_count,
        }
    }
}

/// Tells the one who stayed that the other left an established private chat.
#[derive(Debug, PartialEq, Eq)]
pub struct ChatAbandonedNotification {
    pub chat_id: String,
    pub abandoned_by: String,
    pub remaining_user: String,
    pub message: String,
    pub is_private_chat: bool,
}

/// A `ChatAbandonedNotification` as the contracts see it: its texts as sequences of characters.
pub struct ChatAbandonedNotificationView {
    pub chat_id: Text,
    pub abandoned_by: Text,
    pub remaining_user: Text,
    pub message: Text,
    pub is_private_chat: bool,
}

impl View for ChatAbandonedNotification {
    type V = ChatAbandonedNotificationView;

    open spec fn view(&self) -> ChatAbandonedNotificationView {
        ChatAbandonedNotificationView {
            chat_id: self.chat_id@,
            abandoned_by: self.abandoned_by@,
            remaining_user: self.remaining_user@,
            message: self.message@,
            is_private_chat: self.is_private_chat,
        }
    }
}

impl DeepView for ChatAbandonedNotification {
    type V = ChatAbandonedNotificationView;

    open spec fn deep_view(&self) -> ChatAbandonedNotificationView {
        self@
    }
}

impl Clone for ChatAbandonedNotification {
    fn clone(&self) -> (r: Self)
        ensures
            r@ == self@,
    {
        ChatAbandonedNotification {
            chat_id: self.chat_id.clone(),
            abandoned_by: self.abandoned_by.clone(),
            remaining_user: self.remaining_user.clone(),
            message: self.message.clone(),
            is_private_chat: self.is_private_chat,
        }
    }
}

/// Tells every client to drop a readiness notice it may still show for a chat.
#[derive(Debug, PartialEq, Eq)]
pub struct ChatInvalidated {
    pub chat_id: String,
    pub reason: String,
}

/// A `ChatInvalidated` as the contracts see it: its texts as sequences of characters.
pub struct ChatInvalidatedView {
    pub chat_id: Text,
    pub reason: Text,
}

impl View for ChatInvalidated {
    type V = ChatInvalidatedView;

    open spec fn view(&self) -> ChatInvalidatedView {
        ChatInvalidatedView { chat_id: self.chat_id@, reason: self.reason@ }
    }
}

impl DeepView for ChatInvalidated {
    type V = ChatInvalidatedView;

    open spec fn deep_view(&self) -> ChatInvalidatedView {
        self@
    }
}

impl Clone for ChatInvalidated {
    fn clone(&self) -> (r: Self)
        ensures
            r@ == self@,
    {
        ChatInvalidated { chat_id: self.chat_id.clone(), reason: self.reason.clone() }
    }
}

/// Tells an inviter that an invitation was declined, and by whom.
#[derive(Debug, PartialEq, Eq)]
pub struct ChatInviteResponseNotify {
    pub invite_id: String,
    pub chat_id: Option<String>,
    pub accepted: bool,
    pub from_user: String,
    pub from_session_id: String,
    pub chat_type: ChatType,
    pub responding_user: String,
}

/// A `ChatInviteResponseNotify` as the contracts see it: its texts as sequences of characters.
pub struct ChatInviteResponseNotifyView {
    pub invite_id: Text,
    pub chat_id: Option<Text>,
    pub accepted: bool,
    pub from_user: Text,
    pub from_session_id: Text,
    pub chat_type: ChatTypeView,
    pub responding_user: Text,
}

impl View for ChatInviteResponseNotify {
    type V = ChatInviteResponseNotifyView;

    open spec fn view(&self) -> ChatInviteResponseNotifyView {
        ChatInviteResponseNotifyView {
            invite_id: self.invite_id@,
            chat_id: self.chat_id.deep_view(),
            accepted: self.accepted,
            from_user: self.from_user@,
            from_session_id: self.from_session_id@,
            chat_type: self.chat_type@,
            responding_user: self.responding_user@,
        }
    }
}

impl DeepView for ChatInviteResponseNotify {
    type V = ChatInviteResponseNotifyView;

    open spec fn deep_view(&self) -> ChatInviteResponseNotifyView {
        self@
    }
}

impl Clone for ChatInviteResponseNotify {
    fn clone(&self) -> (r: Self)
        ensures
            r@ == self@,
    {
        ChatInviteResponseNotify {
            invite_id: self.invite_id.clone(),
            chat_id: clone_opt(&self.chat_id),
            accepted: self.accepted,
            from_user: self.from_user.clone(),
            from_session_id: self.from_session_id.clone(),
            chat_type: self.chat_type.clone(),
            responding_user: self.responding_user.clone(),
        }
    }
}

/// The kind of a frame on the wire.
#[derive(Clone, Copy, Debug, PartialEq, Eq, Structural)]
pub enum MessageType {
    Login,
    LoginSuccess,
    LoginError,
    ChatMessage,
    UserJoined,
    UserLeft,
    UserStatusChanged,
    UsersList,
    ChatInvite,
    ChatInviteResponse,
    ChatReady,
    AloneInChat,
    ChatUsersCount,
    ChatAbandoned,
    ChatInvalidated,
    Error,
}

/// What a frame carries. On the wire this is the frame's `data` string: the
/// text itself for `Text`, and the value written as JSON for the others.
#[derive(Debug, PartialEq, Eq)]
pub enum Payload {
    Text(String),
    Login(LoginRequest),
    User(User),
    UsersList(Vec<User>),
    ChatMessage(ChatMessage),
    ChatInvite(ChatInvite),
    ChatInviteResponse(ChatInviteResponse),
    ChatInviteResponseNotify(ChatInviteResponseNotify),
    ChatReady(ChatReady),
    AloneInChat(AloneInChatNotification),
    ChatUsersCount(ChatUsersCount),
    ChatAbandoned(ChatAbandonedNotification),
    ChatInvalidated(ChatInvalidated),
}

/// A `Payload` as the contracts see it: its texts as sequences of characters.
pub enum PayloadView {
    Text(Text),
    Login(LoginRequestView),
    User(UserView),
    UsersList(Seq<UserView>),
    ChatMessage(ChatMessageView),
    ChatInvite(ChatInviteView),
    ChatInviteResponse(ChatInviteResponseView),
    ChatInviteResponseNotify(ChatInviteResponseNotifyView),
    ChatReady(ChatReadyView),
    AloneInChat(AloneInChatNotificationView),
    ChatUsersCount(ChatUsersCountView),
    ChatAbandoned(ChatAbandonedNotificationView),
    ChatInvalidated(ChatInvalidatedView),
}

impl View for Payload {
    type V = PayloadView;

    open spec fn view(&self) -> PayloadView {
        match self {
            Payload::Text(t) => PayloadView::Text(t@),
            Payload::Login(x) => PayloadView::Login(x@),
            Payload::User(x) => PayloadView::User(x@),
            Payload::UsersList(x) => PayloadView::UsersList(x.deep_view()),
            Payload::ChatMessage(x) => PayloadView::ChatMessage(x@),
            Payload::ChatInvite(x) => PayloadView::ChatInvite(x@),
            Payload::ChatInviteResponse(x) => PayloadView::ChatInviteResponse(x@),
            Payload::ChatInviteResponseNotify(x) => PayloadView::ChatInviteResponseNotify(x@),
            Payload::ChatReady(x) => PayloadView::ChatReady(x@),
            Payload::AloneInChat(x) => PayloadView::AloneInChat(x@),
            Payload::ChatUsersCount(x) => PayloadView::ChatUsersCount(x@),
            Payload::ChatAbandoned(x) => PayloadView::ChatAbandoned(x@),
            Payload::ChatInvalidated(x) => PayloadView::ChatInvalidated(x@),
        }
    }
}

impl DeepView for Payload {
    type V = PayloadView;

    open spec fn deep_view(&self) -> PayloadView {
        self@
    }
}

impl Clone for Payload {
    fn clone(&self) -> (r: Self)
        ensures
            r@ == self@,
    {
        match self {
            Payload::Text(t) => Payload::Text(t.clone()),
            Payload::Login(x) => Payload::Login(x.clone()),
            Payload::User(x) => Payload::User(x.clone()),
            Payload::UsersList(x) => Payload::UsersList(clone_users(x)),
            Payload::ChatMessage(x) => Payload::ChatMessage(x.clone()),
            Payload::ChatInvite(x) => Payload::ChatInvite(x.clone()),
            Payload::ChatInviteResponse(x) => Payload::ChatInviteResponse(x.clone()),
            Payload::ChatInviteResponseNotify(x) => Payload::ChatInviteResponseNotify(x.clone()),
            Payload::ChatReady(x) => Payload::ChatReady(x.clone()),
            Payload::AloneInChat(x) => Payload::AloneInChat(x.clone()),
            Payload::ChatUsersCount(x) => Payload::ChatUsersCount(x.clone()),
            Payload::ChatAbandoned(x) => Payload::ChatAbandoned(x.clone()),
            Payload::ChatInvalidated(x) => Payload::ChatInvalidated(x.clone()),
        }
    }
}

/// One frame: its kind and what it carries.
#[derive(Debug, PartialEq, Eq)]
pub struct WebSocketMessage {
    pub message_type: MessageType,
    pub data: Payload,
}

/// A `WebSocketMessage` as the contracts see it: its texts as sequences of characters.
pub struct WebSocketMessageView {
    pub message_type: MessageType,
    pub data: PayloadView,
}

impl View for WebSocketMessage {
    type V = WebSocketMessageView;

    open spec fn view(&self) -> WebSocketMessageView {
        WebSocketMessageView { message_type: self.message_type, data: self.data@ }
    }
}

impl DeepView for WebSocketMessage {
    type V = WebSocketMessageView;

    open spec fn deep_view(&self) -> WebSocketMessageView {
        self@
    }
}

impl Clone for WebSocketMessage {
    fn clone(&self) -> (r: Self)
        ensures
            r@ == self@,
    {
        WebSocketMessage { message_type: self.message_type, data: self.data.clone() }
    }
}

/// One frame queued for one connection. `sender` is the handle of that
/// connection's outbound queue.
#[derive(Debug, PartialEq, Eq)]
pub struct Delivery {
    pub sender: u64,
    pub message: WebSocketMessage,
}

/// A `Delivery` as the contracts see it: its texts as sequences of characters.
pub struct DeliveryView {
    pub sender: u64,
    pub message: WebSocketMessageView,
}

impl View for Delivery {
    type V = DeliveryView;

    open spec fn view(&self) -> DeliveryView {
        DeliveryView { sender: self.sender, message: self.message@ }
    }
}

impl DeepView for Delivery {
    type V = DeliveryView;

    open spec fn deep_view(&self) -> DeliveryView {
        self@
    }
}

} // verus!
