//! A verified conversation-orchestration library for a messaging chatbot.
//!
//! One inbound webhook delivery runs through a single pipeline: parse the
//! payload, classify the user's demand, load the bounded conversation
//! history, branch into chat or image generation, send one batched reply,
//! and persist the turns. The pipeline itself is a verified state machine
//! (`pipeline`); the network and storage calls around it are performed by a
//! driver that feeds their outcomes back in as events.

pub mod context;
pub mod errors;
pub mod gpt;
pub mod image;
pub mod line;
pub mod message;
pub mod pipeline;
pub mod store;
pub mod trusted;
pub mod user;
