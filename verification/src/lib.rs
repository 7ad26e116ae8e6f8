//! Verified core of a small chatbot service: the conversation kept by the
//! chat room, the upgrade check of the chat endpoint and the decisions of the
//! chat widget in the browser.

pub mod api;
pub mod app;
pub mod chat;
