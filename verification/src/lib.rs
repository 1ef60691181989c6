//! Core of a resumable, multi-session, provider-agnostic chat backend.
//!
//! The verified parts are: the bounded per-session conversation history, the
//! in-memory session store, the provider-agnostic stream translator, the
//! streaming bridge that persists the assistant's reply exactly once, and the
//! fail-open robots.txt politeness cache.  Network transport, the HTTP layer
//! and the concrete language-model providers live outside this library.

pub mod auth;
pub mod bridge;
pub mod config;
pub mod fetch;
pub mod history;
pub mod origin;
pub mod page;
pub mod policy;
pub mod robots;
pub mod store;
pub mod table;
pub mod textutil;
pub mod translator;

pub use history::ConversationHistory;
pub use history::Message;
pub use history::Role;
pub use history::DEFAULT_MAX_TURNS;
