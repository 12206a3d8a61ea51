//! The engine of a chat agent: it decodes inbound events into messages,
//! routes each message to its replies, frames the replies for the outbound
//! queue, and times the weekly announcement.

pub mod arithmetic;
pub mod command;
pub mod handlers;
pub mod json;
pub mod link;
pub mod meals;
pub mod message;
pub mod number;
pub mod queue;
pub mod router;
pub mod scheduler;
pub mod tarot;
pub mod text;
