//! Client-side logic for registering vocabulary on jpdb.io: landmark scanning of
//! HTML bodies, the note workflow, and admission control for outbound requests.

pub mod anki_connect;
pub mod config;
pub mod jpdb;
pub mod parsing;
pub mod pipeline;
pub mod text;
pub mod workflow;
