//! A thin client for a chat-completion API: a request builder whose payload
//! invariant is proved, and the decisions of a single request/response exchange.
pub mod client;
pub mod openai;
