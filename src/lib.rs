//! Strict decoding of chat-log and item records exported by a virtual tabletop.
//!
//! Records arrive as [`json::JsonValue`] trees. Each decoder accepts exactly the
//! shapes its schema names and reports the first offending key, tag or value
//! with the path that leads to it.
pub mod json;
pub mod error;
pub mod fields;
pub mod item;
pub mod message_flag;
pub mod timestamp;
pub mod message;
pub mod laws;

