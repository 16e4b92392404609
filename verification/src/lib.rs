//! The decisions behind `nserve`, a tool that puts a development server on a
//! public ngrok URL.

pub mod auth;
pub mod cli;
pub mod discovery;
pub mod files;
pub mod ingress;
pub mod json;
pub mod process;
pub mod proxy;
pub mod session;
pub mod state;
pub mod terminal;
pub mod text;
pub mod tracer;
