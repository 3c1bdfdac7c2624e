//! Behavior of the function patcher and the hook lifecycle on
//! concrete code regions.

use mppatch_core::context::FeatureFlags;
use mppatch_core::context::MppatchCtx;
use mppatch_core::context::Platform;
use mppatch_core::ctor_impl;
use mppatch_core::errors::HookError;
use mppatch_core::hook_lua::destroy_usage;
use mppatch_core::hook_lua::init;
use mppatch_core::hook_lua::lGetMemoryUsage;
use mppatch_core::hook_lua::HookState;
use mppatch_core::hook_lua::SymbolInfo;
use mppatch_core::rt_patch::CodeRegion;
use mppatch_core::rt_patch::PatchedFunction;

fn entry_bytes() -> Vec<u8> {
    vec![0x55, 0x48, 0x89, 0xe5, 0x41, 0x57, 0x41, 0x56, 0x53, 0x48, 0x83, 0xec]
}

fn test_ctx(multiplayer: bool) -> MppatchCtx {
    MppatchCtx {
        version: String::from("1.0.0"),
        build_id: String::from("build-42"),
        sha256: String::from("f00dcafe"),
        platform: Platform::Linux,
        flags: FeatureFlags { logging: true, debug: false, multiplayer, luajit: false },
    }
}

#[test]
fn install_writes_jump_image() {
    let mut region = CodeRegion { bytes: entry_bytes(), writable: true };
    let pf = PatchedFunction::create(
        &mut region,
        0x1000,
        0x0123_4567_89ab_cdef,
        12,
        String::from("lGetMemoryUsage"),
    )
    .expect("install must succeed");
    assert_eq!(
        region.bytes,
        vec![0xe9, 0xef, 0xcd, 0xab, 0x89, 0x67, 0x45, 0x23, 0x01, 0xcc, 0xcc, 0xcc]
    );
    assert_eq!(pf.old_bytes, entry_bytes());
    assert_eq!(pf.old_function(), 0x1000);
}

#[test]
fn uninstall_restores_original_bytes() {
    let mut region = CodeRegion { bytes: entry_bytes(), writable: true };
    let pf =
        PatchedFunction::create(&mut region, 0x1000, 0x2000, 12, String::from("lGetMemoryUsage"))
            .expect("install must succeed");
    assert_ne!(region.bytes, entry_bytes());
    pf.uninstall(&mut region);
    assert_eq!(region.bytes, entry_bytes());
    assert!(region.writable);
}

#[test]
fn length_mismatch_fails_closed() {
    let mut region = CodeRegion { bytes: entry_bytes(), writable: true };
    let r =
        PatchedFunction::create(&mut region, 0x1000, 0x2000, 11, String::from("lGetMemoryUsage"));
    assert_eq!(r.err(), Some(HookError::ResolutionMismatch));
    assert_eq!(region.bytes, entry_bytes());
}

#[test]
fn short_region_fails_closed() {
    let mut region = CodeRegion { bytes: vec![0x55, 0x48, 0x89], writable: true };
    let r =
        PatchedFunction::create(&mut region, 0x1000, 0x2000, 3, String::from("lGetMemoryUsage"));
    assert_eq!(r.err(), Some(HookError::ResolutionMismatch));
    assert_eq!(region.bytes, vec![0x55, 0x48, 0x89]);
}

#[test]
fn unwritable_page_fails_closed() {
    let mut region = CodeRegion { bytes: entry_bytes(), writable: false };
    let r =
        PatchedFunction::create(&mut region, 0x1000, 0x2000, 12, String::from("lGetMemoryUsage"));
    assert_eq!(r.err(), Some(HookError::MemoryProtection));
    assert_eq!(region.bytes, entry_bytes());
}

#[test]
fn init_then_teardown_round_trips() {
    let mut st = HookState::new();
    let mut region = CodeRegion { bytes: entry_bytes(), writable: true };
    let sym = SymbolInfo { address: 0x1000, expected_len: 12 };
    init(&mut st, test_ctx(true), &mut region, sym, 0x2000).expect("init must succeed");
    assert!(st.hook.is_some());
    assert_eq!(lGetMemoryUsage(&st), 0x1000);
    destroy_usage(&mut st, &mut region);
    assert!(st.hook.is_none());
    assert_eq!(region.bytes, entry_bytes());
    destroy_usage(&mut st, &mut region);
    assert!(st.hook.is_none());
    assert_eq!(region.bytes, entry_bytes());
}

#[test]
fn init_failure_leaves_region_untouched() {
    let mut st = HookState::new();
    let mut region = CodeRegion { bytes: entry_bytes(), writable: true };
    let sym = SymbolInfo { address: 0x1000, expected_len: 99 };
    let r = init(&mut st, test_ctx(true), &mut region, sym, 0x2000);
    assert_eq!(r, Err(HookError::ResolutionMismatch));
    assert!(st.hook.is_none());
    assert!(st.ctx.is_some());
    assert_eq!(region.bytes, entry_bytes());
}

#[test]
fn ctor_installs_only_with_multiplayer_feature() {
    let mut st = HookState::new();
    let mut region = CodeRegion { bytes: entry_bytes(), writable: true };
    let sym = SymbolInfo { address: 0x1000, expected_len: 12 };
    ctor_impl(&mut st, test_ctx(false), &mut region, sym, 0x2000).expect("no-op must succeed");
    assert!(st.hook.is_none());
    assert!(st.ctx.is_none());
    assert_eq!(region.bytes, entry_bytes());
    ctor_impl(&mut st, test_ctx(true), &mut region, sym, 0x2000).expect("install must succeed");
    assert!(st.hook.is_some());
    assert_ne!(region.bytes, entry_bytes());
}
