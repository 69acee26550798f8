//! Core of a local IPC broker between a desktop frontend and a locally
//! running code-assistant backend: backend discovery and launch decisions,
//! the authenticated connection protocol, the bound-backend state, the
//! field-name codec, configuration, and API-key handling.

use vstd::prelude::*;

pub mod auth_sync;
pub mod backend_messages;
pub mod binding;
pub mod config;
pub mod connection;
pub mod discovery;
pub mod error;
pub mod field_normalizer;
pub mod http_status;
pub mod ipc_config;
pub mod oauth;
pub mod redacted_key;
pub mod server_info;
pub mod spawn;
pub mod text;
pub mod validation;
