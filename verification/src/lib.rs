//! A chat companion's verified core: the bounded conversation log, the
//! request bodies sent to the chat completion service, the handling of its
//! replies, and the slash commands that steer the model.
pub mod ai;
pub mod commands;
pub mod gpt;
pub mod json;
pub mod message_store;
pub mod text;
