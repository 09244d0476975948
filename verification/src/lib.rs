//! Command dispatch bridge and application bootstrap sequence for a native
//! shell that embeds a webview user interface.
//!
//! The library holds the two components with structural content: a command
//! registry that maps names to natively implemented handlers and dispatches
//! invocations to them, and a bootstrap state machine that fixes the order of
//! the startup steps. The webview runtime itself (windows, plugins, the event
//! loop) is an external collaborator and is driven from outside the library.

pub mod bootstrap;
pub mod commands;
pub mod errors;
pub mod registry;
