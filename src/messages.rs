//! The messages that a client sends over its event connection.

use vstd::prelude::*;
use crate::error::KrownError;
use crate::models::WebSocketEvent;
use crate::text::{joined, text_eq};

verus! {

/// A request read from a client message.
#[derive(Debug)]
pub enum ClientMessage {
    Authenticate { token: String },
    SubscribeSession { session_id: String },
    Ping,
}

/// Reads a client message from its `type` field and the fields that type
/// needs; a missing field or an unknown type is invalid input.
pub fn classify_message(msg_type: Option<&str>, token: Option<&str>, session_id: Option<&str>) -> (r: Result<
    ClientMessage,
    KrownError,
>)
    ensures
        match msg_type {
            None => r matches Err(KrownError::InvalidInput(m)) && m@ == "Missing 'type' field"@,
            Some(t) => if t@ == "authenticate"@ {
                match token {
                    Some(k) => r matches Ok(ClientMessage::Authenticate { token: x }) && x@ == k@,
                    None => r matches Err(KrownError::InvalidInput(m)) && m@ == "Missing 'token' field"@,
                }
            } else if t@ == "subscribe_session"@ {
                match session_id {
                    Some(s) => r matches Ok(ClientMessage::SubscribeSession { session_id: x }) && x@ == s@,
                    None => r matches Err(KrownError::InvalidInput(m)) && m@ == "Missing 'session_id' field"@,
                }
            } else if t@ == "ping"@ {
                r matches Ok(ClientMessage::Ping)
            } else {
                r matches Err(KrownError::InvalidInput(m)) && m@ == "Unknown message type: "@ + t@
            },
        },
{
    match msg_type {
        None => Err(KrownError::InvalidInput(String::from_str("Missing 'type' field"))),
        Some(t) => {
            if text_eq(t, "authenticate") {
                match token {
                    Some(k) => Ok(ClientMessage::Authenticate { token: String::from_str(k) }),
                    None => Err(KrownError::InvalidInput(String::from_str("Missing 'token' field"))),
                }
            } else if text_eq(t, "subscribe_session") {
                match session_id {
                    Some(s) => Ok(ClientMessage::SubscribeSession { session_id: String::from_str(s) }),
                    None => Err(KrownError::InvalidInput(String::from_str("Missing 'session_id' field"))),
                }
            } else if text_eq(t, "ping") {
                Ok(ClientMessage::Ping)
            } else {
                Err(KrownError::InvalidInput(joined("Unknown message type: ", t)))
            }
        },
    }
}

/// The reply to a subscription or a ping; an authentication is answered
/// by the caller once the token is checked.
pub fn reply_to(msg: &ClientMessage) -> (r: Option<WebSocketEvent>)
    ensures
        match msg {
            ClientMessage::Authenticate { .. } => r is None,
            ClientMessage::SubscribeSession { session_id } => r == Some(
                WebSocketEvent::Subscribed { session_id: *session_id },
            ),
            ClientMessage::Ping => r == Some(WebSocketEvent::Pong),
        },
{
    match msg {
        ClientMessage::Authenticate { .. } => None,
        ClientMessage::SubscribeSession { session_id } => Some(
            WebSocketEvent::Subscribed { session_id: session_id.clone() },
        ),
        ClientMessage::Ping => Some(WebSocketEvent::Pong),
    }
}

} // verus!
