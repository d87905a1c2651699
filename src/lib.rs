pub mod auth;
pub mod callback;
pub mod config;
pub mod encoding;
pub mod error;
pub mod http;
pub mod images;
pub mod oauth;
pub mod publisher;
pub mod query;
pub mod state_codec;
pub mod text;
pub mod timestamp;
