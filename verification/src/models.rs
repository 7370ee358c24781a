//! Plain records exchanged with the collaborators around the relay.

use crate::ids::Id;
use vstd::prelude::*;

verus! {

/// A chat message as the message store returned it after a successful write.
#[derive(Debug, PartialEq, Eq)]
pub struct ChatMessage {
    pub id: Id,
    pub conversation_id: Id,
    pub sender_id: Id,
    pub content: String,
    /// Assigned by the store; carried to the clients as it is.
    pub created_at: String,
}

/// Mathematical model of a [`ChatMessage`].
pub struct ChatMessageView {
    pub id: Id,
    pub conversation_id: Id,
    pub sender_id: Id,
    pub content: Seq<char>,
    pub created_at: Seq<char>,
}

impl View for ChatMessage {
    type V = ChatMessageView;

    open spec fn view(&self) -> ChatMessageView {
        ChatMessageView {
            id: self.id,
            conversation_id: self.conversation_id,
            sender_id: self.sender_id,
            content: self.content@,
            created_at: self.created_at@,
        }
    }
}

/// A failed request to a store. The relay only needs to know that the request
/// failed; the reason is kept for whoever reports it.
#[derive(Debug, PartialEq, Eq)]
pub struct StoreError {
    pub reason: String,
}

/// What a token says about its bearer.
#[derive(Debug, PartialEq, Eq)]
pub struct Claims {
    /// The identifier of the user, as text.
    pub sub: String,
    /// When the token expires, in seconds since the Unix epoch.
    pub exp: usize,
}

/// The body of a request for a one-time password.
#[derive(Debug, PartialEq, Eq)]
pub struct SendOtpRequest {
    pub phone_number: String,
}

/// The body of a request to log in with a one-time password.
#[derive(Debug, PartialEq, Eq)]
pub struct VerifyOtpRequest {
    pub phone_number: String,
    pub otp: String,
}

/// The body of the answer to a successful login.
#[derive(Debug, PartialEq, Eq)]
pub struct AuthResponse {
    pub token: String,
    pub user_id: String,
}

/// A user of the service.
#[derive(Debug, PartialEq, Eq)]
pub struct User {
    pub id: Id,
    pub phone_number: String,
    pub name: Option<String>,
}

} // verus!
