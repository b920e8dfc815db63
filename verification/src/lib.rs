//! A terminal coding assistant's core logic: conversation assembly, tool
//! decisions, text formatting and session bookkeeping, with contracts.

pub mod text;
pub mod json;
pub mod order;
pub mod picker;
pub mod types;
pub mod tools;
pub mod repl;
pub mod stream;
pub mod input;
pub mod cost;
pub mod session;
pub mod auth;
pub mod render;
pub mod highlight;
