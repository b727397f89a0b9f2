//! Decision logic of an MCP proxy.

pub mod backend_cell;
pub mod backoff;
pub mod client_config;
pub mod command_mode;
pub mod convert;
pub mod fallback;
pub mod headers;
pub mod launch;
pub mod model;
pub mod mrtr_headers;
pub mod program;
pub mod router;
pub mod router_laws;
pub mod router_steps;
pub mod server_builder;
pub mod session_manager;
pub mod shown;
pub mod sse_client;
pub mod sse_handler;
pub mod start_task;
pub mod starting;
pub mod stream_client;
pub mod stream_server;
pub mod table;
pub mod text;
pub mod time;
pub mod tools;
pub mod watchdog;
pub mod watchdog_laws;
