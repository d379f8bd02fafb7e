//! Verified core of a small remote-control server: request validation, the
//! decisions taken for each websocket and MQTT message, and the text
//! manipulation behind launching applications and web pages.

pub mod text;
pub mod launch;
pub mod json;
pub mod models;
pub mod request;
pub mod replies;
pub mod user_service;
pub mod browser_service;
pub mod mqtt;
pub mod web_server;
pub mod config;
pub mod system_info;
pub mod audio;
