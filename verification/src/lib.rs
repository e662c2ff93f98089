//! The logic of a bridge between a Feishu bot and agents that are reached
//! through the `acpx` command line.
pub mod adapters;
pub mod application;
pub mod chunk_laws;
pub mod text_laws;
pub mod config;
pub mod config_laws;
pub mod domain;
pub mod error;
pub mod markdown;
pub mod markdown_laws;
pub mod path_laws;
pub mod paths;
pub mod platform;
pub mod ports;
pub mod send_markdown;
pub mod support;
pub mod text;
