//! Error taxonomy: per-invocation errors are local to their caller, bootstrap
//! errors are fatal to startup.

use vstd::prelude::*;

verus! {

/// Registration-time failure: the registry refuses a second entry under a
/// name that is already taken.
#[derive(Clone, Copy, Debug, PartialEq, Eq, Structural)]
pub enum RegistryError {
    DuplicateCommand,
}

/// Dispatch-time failures, returned to the caller of the one invocation that
/// raised them; they never affect other invocations.
#[derive(Clone, Copy, Debug, PartialEq, Eq, Structural)]
pub enum InvokeError {
    /// No handler is registered under the requested name.
    UnknownCommand,
    /// The argument payload does not have the shape the handler expects.
    ArgumentDecode,
}

/// Bootstrap-time failures; each one aborts startup before the event loop is
/// entered.
#[derive(Clone, Copy, Debug, PartialEq, Eq, Structural)]
pub enum BootstrapError {
    /// A plugin failed to initialize while being attached.
    PluginInit,
    /// The event loop could not be started.
    RuntimeStart,
    /// In a diagnostic build, the window that the diagnostic overlay needs was
    /// not found: an ordering invariant was broken.
    DiagnosticWindowMissing,
}

impl BootstrapError {
    /// Diagnostic text for the fatal startup report.
    pub fn message(&self) -> (r: String)
        ensures
            *self is PluginInit ==> r@ == "a plugin failed to initialize"@,
            *self is RuntimeStart ==> r@ == "the runtime failed to start the event loop"@,
            *self is DiagnosticWindowMissing ==> r@
                == "the main window was missing during diagnostic setup"@,
    {
        match self {
            BootstrapError::PluginInit => "a plugin failed to initialize".to_owned(),
            BootstrapError::RuntimeStart => "the runtime failed to start the event loop".to_owned(),
            BootstrapError::DiagnosticWindowMissing => "the main window was missing during diagnostic setup".to_owned(),
        }
    }
}

} // verus!
