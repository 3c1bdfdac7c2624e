//! Errors of the hooking and bridging core.

use vstd::prelude::*;

verus! {

/// Everything that can go wrong while installing a hook or serving the
/// scripting bridge.
#[derive(Clone, Copy, PartialEq, Eq, Structural, Debug)]
pub enum HookError {
    /// The length the symbol table expects does not match what the
    /// patcher can safely rewrite; the feature must not half-install.
    ResolutionMismatch,
    /// The code page holding the target could not be made writable.
    MemoryProtection,
    /// The capability table could not be built, because the true
    /// global namespace of the scripting-engine instance could not be
    /// retrieved.
    BridgeConstruction,
    /// A reserved operation was invoked that has no implementation
    /// yet; signalled explicitly, never silently ignored.
    NotImplemented,
}

impl HookError {
    /// A short diagnostic name for the host's log sink.
    pub fn describe(&self) -> (r: &'static str)
        ensures
            r@ == match *self {
                HookError::ResolutionMismatch => "resolution mismatch"@,
                HookError::MemoryProtection => "memory protection error"@,
                HookError::BridgeConstruction => "bridge construction failed"@,
                HookError::NotImplemented => "not implemented"@,
            },
    {
        match self {
            HookError::ResolutionMismatch => "resolution mismatch",
            HookError::MemoryProtection => "memory protection error",
            HookError::BridgeConstruction => "bridge construction failed",
            HookError::NotImplemented => "not implemented",
        }
    }
}

} // verus!
