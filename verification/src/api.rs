//! The shapes of the HTTP layer's requests and responses, and the
//! validation rules the handlers apply before writing. The handlers
//! themselves do I/O against the store and live outside the library; the
//! rules they enforce are stated and checked here.
use vstd::prelude::*;

use vstd::string::StrSliceExecFns;

verus! {

/// One field's validation failures.
pub struct ValidationError {
    pub field: String,
    pub messages: Vec<String>,
}

/// The body served when no route matches.
pub struct MethodError {
    pub http_code: u16,
    pub error: String,
}

/// The body served when the request governor refuses a request.
pub struct ErrorHandler {
    pub http_code: u16,
    pub error: String,
}

/// The body served when a request is rejected before its handler runs.
pub struct RejectionResponseError {
    pub success: bool,
    pub http_code: u16,
    pub error: String,
}

/// A rejected JSON request body.
pub struct CustomJsonDataRejection {
    pub message: String,
}

/// A rejected path parameter.
pub struct CustomPathDataRejection {
    pub message: String,
}

/// The response of the invite endpoints.
pub struct InviteUserResponse {
    pub success: bool,
    pub http_code: u16,
    pub validation_errors: Option<Vec<ValidationError>>,
    pub error: Option<String>,
}

/// How an invited user answers an invite.
#[derive(Clone, Copy, Debug, PartialEq, Eq, Structural)]
pub enum InviteUserReaction {
    Accept,
    Decline,
}

/// The body answering an invite.
pub struct InviteUserRequest {
    pub reaction: Option<InviteUserReaction>,
}

/// Whether a reaction value is one of the two accepted answers. Every
/// value of the closed enumeration is.
pub fn validate_reaction(reaction: &InviteUserReaction) -> (r: Result<(), ValidationError>)
    ensures
        r is Ok,
{
    match reaction {
        InviteUserReaction::Accept => Ok(()),
        InviteUserReaction::Decline => Ok(()),
    }
}

impl InviteUserRequest {
    /// Whether the body carries a reaction: the field is required, and
    /// every carried value is valid.
    pub fn validate(&self) -> (ok: bool)
        ensures
            ok == (self.reaction is Some),
    {
        self.reaction.is_some()
    }
}

/// A user named in an invite.
pub struct Inviter {
    pub id: i32,
    pub username: String,
}

/// The error body of the message-deletion endpoint.
pub struct DeleteMessageErrorResponse {
    pub success: bool,
    pub http_code: u16,
    pub error: String,
}

/// The deletion notice published to a room's channel.
pub struct WebsocketDeleteMessageData {
    pub message_id: i32,
    pub action: String,
}

/// The query parameters of the message-history endpoint.
pub struct RetrieveMessageParams {
    pub limit: i32,
    pub message_id: i32,
}

impl RetrieveMessageParams {
    /// Whether the parameters are in range: a page of 1 to 50 messages,
    /// from a non-negative message id.
    pub fn validate(&self) -> (ok: bool)
        ensures
            ok == (1 <= self.limit <= 50 && self.message_id >= 0),
    {
        1 <= self.limit && self.limit <= 50 && self.message_id >= 0
    }
}

/// The path parameter of the single-message endpoint.
pub struct RetrieveSingleMessageParam {
    pub message_id: i32,
}

impl RetrieveSingleMessageParam {
    /// Whether the message id is positive.
    pub fn validate(&self) -> (ok: bool)
        ensures
            ok == (self.message_id >= 1),
    {
        self.message_id >= 1
    }
}

/// The error body of the may-talk check before sending a message.
pub struct CanTalkErrorResponse {
    pub success: bool,
    pub http_code: u16,
    pub error: String,
}

/// A message's sender, as the history endpoints report it.
pub struct Sender {
    pub id: i32,
    pub username: String,
}

/// One message of a room's history.
pub struct MessageReponse {
    pub message_id: i32,
    pub message: String,
    pub sender: Sender,
}

/// The response of the single-message endpoint.
pub struct RetrieveUserMessage {
    pub success: bool,
    pub http_code: u16,
    pub message: Option<MessageReponse>,
    pub validation_errors: Option<Vec<ValidationError>>,
    pub error: Option<String>,
}

/// The response of the message-history endpoint.
pub struct MessagesResponse {
    pub success: bool,
    pub http_code: u16,
    pub messages: Option<Vec<MessageReponse>>,
    pub latest_id: Option<i32>,
    pub validation_errors: Option<Vec<ValidationError>>,
    pub error: Option<String>,
}

/// The body of the send-message endpoint.
pub struct SendMessageBody {
    pub message: Option<String>,
}

impl SendMessageBody {
    /// Whether the body carries a message of 1 to 1000 characters.
    pub fn validate(&self) -> (ok: bool)
        ensures
            ok == match self.message {
                Some(m) => 1 <= m@.len() <= 1000,
                None => false,
            },
    {
        match &self.message {
            Some(m) => {
                let n = m.as_str().unicode_len();
                1 <= n && n <= 1000
            },
            None => false,
        }
    }
}

/// The response of the send-message endpoint.
pub struct SendMessageResponse {
    pub success: bool,
    pub http_code: u16,
    pub message: Option<String>,
    pub validation_errors: Option<Vec<ValidationError>>,
    pub error: Option<String>,
}

/// The error body of the room-membership middleware.
pub struct ParticipantErrorResponse {
    pub success: bool,
    pub http_code: u16,
    pub error: String,
}

/// The body of the room-creation endpoint.
pub struct CreateChatBody {
    pub name: Option<String>,
    pub capacity: Option<u8>,
}

impl CreateChatBody {
    /// Whether the body is complete and in range: a name of 1 to 50
    /// characters and a capacity of 1 to 10.
    pub fn validate(&self) -> (ok: bool)
        ensures
            ok == (match self.name {
                Some(n) => 1 <= n@.len() <= 50,
                None => false,
            } && match self.capacity {
                Some(c) => 1 <= c <= 10,
                None => false,
            }),
    {
        let name_ok = match &self.name {
            Some(n) => {
                let len = n.as_str().unicode_len();
                1 <= len && len <= 50
            },
            None => false,
        };
        let capacity_ok = match self.capacity {
            Some(c) => 1 <= c && c <= 10,
            None => false,
        };
        name_ok && capacity_ok
    }
}

/// A created room, as the creation endpoint reports it.
pub struct CreateChat {
    pub name: String,
    pub capacity: u8,
}

/// The response of the room-creation endpoint.
pub struct CreateChatResponse {
    pub success: bool,
    pub http_code: u16,
    pub chat: Option<CreateChat>,
    pub errors: Option<Vec<ValidationError>>,
}

/// The error body of the room-deletion endpoint.
pub struct DeleteChatError {
    pub success: bool,
    pub http_code: u16,
    pub error: String,
}

/// The response of the join-room endpoint.
pub struct JoinChatResponse {
    pub success: bool,
    pub http_code: u16,
    pub chat: Option<Chat>,
    pub error: Option<String>,
}

/// The error body of the leave-room endpoint.
pub struct LeaveChatErrorResponse {
    pub success: bool,
    pub http_code: u16,
    pub error: String,
}

/// The response of the ban endpoint.
pub struct BanUserResponse {
    pub success: bool,
    pub http_code: u16,
    pub message: Option<String>,
    pub validation_errors: Option<Vec<ValidationError>>,
    pub error: Option<String>,
}

/// The path parameters of the ban endpoint.
pub struct BanUserParams {
    pub user_id: i32,
}

impl BanUserParams {
    /// Whether the banned user's id is positive.
    pub fn validate(&self) -> (ok: bool)
        ensures
            ok == (self.user_id >= 1),
    {
        self.user_id >= 1
    }
}

/// The error body of the unban endpoint.
pub struct UnbanUserErrorResponse {
    pub success: bool,
    pub http_code: u16,
    pub validation_errors: Option<Vec<ValidationError>>,
    pub error: Option<String>,
}

/// A room participant, as the room endpoint reports one.
pub struct ParticipantChat {
    pub id: u64,
    pub username: String,
    pub email: String,
}

/// A room, as the room endpoint reports it.
pub struct Chat {
    pub name: String,
    pub capacity: u8,
    pub users: Vec<ParticipantChat>,
}

/// The response of the room endpoint.
pub struct RetrieveChatResonse {
    pub success: bool,
    pub http_code: u16,
    pub chat: Option<Chat>,
    pub error: Option<String>,
}

/// The body of the registration endpoint.
pub struct CreateUserRequest {
    pub username: Option<String>,
    pub email: Option<String>,
}

impl CreateUserRequest {
    /// Whether the body carries a username of 3 to 32 characters. The
    /// email format check stays with the HTTP layer; here only its
    /// presence is asked for.
    pub fn validate(&self) -> (ok: bool)
        ensures
            ok == (match self.username {
                Some(u) => 3 <= u@.len() <= 32,
                None => false,
            } && self.email is Some),
    {
        let username_ok = match &self.username {
            Some(u) => {
                let len = u.as_str().unicode_len();
                3 <= len && len <= 32
            },
            None => false,
        };
        username_ok && self.email.is_some()
    }
}

/// The response of the registration endpoint.
pub struct CreateUserResponse {
    pub success: bool,
    pub http_code: u16,
    pub csrf_token: Option<String>,
    pub error: Option<String>,
    pub validation_errors: Option<Vec<ValidationError>>,
}

/// The authenticated user, as the current-user endpoint reports one.
pub struct UserResponse {
    pub id: u64,
    pub username: String,
    pub email: String,
    pub created_at: String,
    pub token: String,
    pub csrf_token: String,
}

/// The response of the current-user endpoint.
pub struct CurrentUserResponse {
    pub success: bool,
    pub http_code: u16,
    pub user: UserResponse,
}

/// The error body of the authentication middleware.
pub struct AuthenticationErrorResponse {
    pub success: bool,
    pub http_code: u16,
    pub error: String,
}

} // verus!
