//! In-process hooking and scripting-bridge core.
//!
//! The library models the state of a single-function hook: a process
//! context of feature flags and build metadata, a function patcher that
//! rewrites a native entry while keeping the means to restore it, and a
//! proxy dispatch that multiplexes the hooked entry between ordinary
//! callers and a private sentinel protocol that exposes a capability
//! table to an embedded scripting engine.

use vstd::prelude::*;

pub mod context;
pub mod engine;
pub mod errors;
pub mod hook_lua;
pub mod rt_patch;

verus! {

pub use crate::context::MppatchCtx;
pub use crate::context::MppatchFeature;

/// Process-load initialization: installs the scripting hook exactly
/// when the multiplayer-patch feature is enabled in the context, and
/// otherwise leaves the process untouched. A failure aborts the
/// feature's activation without half-installing anything.
pub fn ctor_impl(
    st: &mut crate::hook_lua::HookState,
    ctx: MppatchCtx,
    region: &mut crate::rt_patch::CodeRegion,
    sym: crate::hook_lua::SymbolInfo,
    proxy_address: u64,
) -> (r: Result<(), crate::errors::HookError>)
    requires
        old(st).hook is None,
    ensures
        if ctx.spec_has_feature(MppatchFeature::Multiplayer) {
            crate::hook_lua::init_post(
                *old(st),
                *final(st),
                ctx,
                *old(region),
                *final(region),
                sym,
                proxy_address,
                r,
            )
        } else {
            *final(st) == *old(st) && *final(region) == *old(region) && r is Ok
        },
{
    if ctx.has_feature(MppatchFeature::Multiplayer) {
        crate::hook_lua::init(st, ctx, region, sym, proxy_address)
    } else {
        Ok(())
    }
}

} // verus!
