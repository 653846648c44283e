//! Normalization of raw favourite-post payloads into canonical posts.

pub mod commands;
pub mod decimal;
pub mod index;
pub mod link;
pub mod post;
pub mod raw;
pub mod text;
