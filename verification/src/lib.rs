//! Client-side core of a conversational voice-agent service: the wire codec,
//! the session state machine with its event dispatcher, and the request
//! builders of the conversation endpoints.

pub mod codec;
pub mod conversations;
pub mod error;
pub mod events;
pub mod session;
pub mod wire;
