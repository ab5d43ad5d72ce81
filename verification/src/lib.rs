//! Register a GitHub App for local development.
//!
//! The library holds the logic of the registration flow: merging issued
//! credentials into an environment file, serializing an app manifest,
//! accepting the one-time code on a local callback and handing it off exactly
//! once, building the credential-exchange request, and the step-by-step
//! decisions of the orchestrated flow. Network and file I/O live outside the
//! library and hand plain values in and out.

pub mod app;
pub mod env;
pub mod exchange;
pub mod form;
pub mod manifest;
pub mod net;
pub mod register;
pub mod server;
pub mod text;
pub mod urls;

pub use app::App;
