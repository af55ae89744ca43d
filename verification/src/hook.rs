//! The one-shot startup decision for the process-wide panic hook.
//!
//! Installing the hook itself is an effect on the process and stays with the
//! surrounding program; this state machine decides it, so that installation
//! happens exactly once however often startup is signalled.

use vstd::prelude::*;

verus! {

/// Whether the process-wide panic hook has been installed.
#[derive(Debug)]
pub struct PanicHookState {
    installed: bool,
}

impl PanicHookState {
    /// Whether installation has already been decided.
    pub closed spec fn is_installed(&self) -> bool {
        self.installed
    }

    /// The state at process startup: nothing installed yet.
    pub fn new() -> (s: PanicHookState)
        ensures
            !s.is_installed(),
    {
        PanicHookState { installed: false }
    }

    /// Signals startup: returns whether the hook must be installed now, which
    /// is the case exactly on the first signal. Afterwards the hook counts as
    /// installed, so a repeated signal is a no-op decision.
    pub fn start(&mut self) -> (install: bool)
        ensures
            final(self).is_installed(),
            install == !old(self).is_installed(),
    {
        let install = !self.installed;
        self.installed = true;
        install
    }
}

} // verus!
