//! The scripting hook: sentinel protocol, capability table, and the
//! lifecycle of the one patched native entry.
//!
//! A single native function of the host is redirected to a proxy. The
//! proxy behaves exactly like the original for every ordinary caller;
//! only when the first argument is a string equal to the private
//! sentinel token does it instead return the capability table of the
//! calling scripting-engine instance, building the table on first use
//! and caching it in that instance's registry.

use vstd::prelude::*;

use crate::context::platform_name;
use crate::context::MppatchCtx;
use crate::engine::table_built;
use crate::engine::CapabilityTable;
use crate::engine::ConfigTable;
use crate::engine::Engine;
use crate::engine::GlobalsTable;
use crate::engine::LuaValue;
use crate::engine::NetPatchTable;
use crate::engine::VersionTable;
use crate::errors::HookError;
use crate::rt_patch::install_post;
use crate::rt_patch::spec_patchable;
use crate::rt_patch::CodeRegion;
use crate::rt_patch::PatchedFunction;

verus! {

/// The sentinel token: a process-wide constant, effectively
/// unguessable, that no legitimate caller of the hooked function would
/// pass as its first argument.
pub open spec fn spec_sentinel() -> Seq<char> {
    "216f0090-85dd-4061-8371-3d8ba2099a70"@
}

pub fn lua_sentinel() -> (r: &'static str)
    ensures
        r@ == spec_sentinel(),
{
    "216f0090-85dd-4061-8371-3d8ba2099a70"
}

/// The private registry key under which a scripting-engine instance
/// caches its capability table.
pub fn lua_table_index() -> (r: &'static str)
    ensures
        r@ == "4f9ef697-7746-45d3-9c2d-f2121464a359"@,
{
    "4f9ef697-7746-45d3-9c2d-f2121464a359"
}

/// The private registry key under which the global-table retrieval
/// callback is stored while the capability table is being built.
pub fn lua_func_get_globals() -> (r: &'static str)
    ensures
        r@ == "7fe157f7-909f-4cbc-9257-8156d1d84a29"@,
{
    "7fe157f7-909f-4cbc-9257-8156d1d84a29"
}

/// Whether a call's first argument selects the bridge: it must be
/// present, be a string, and equal the sentinel token exactly — no
/// case, whitespace or prefix tolerance.
pub open spec fn spec_is_sentinel(v: LuaValue) -> bool {
    v matches LuaValue::Str(s) && s@ == spec_sentinel()
}

pub fn is_sentinel(v: &LuaValue) -> (r: bool)
    ensures
        r == spec_is_sentinel(*v),
{
    match v {
        LuaValue::Str(s) => {
            let sentinel: String = lua_sentinel().to_owned();
            *s == sentinel
        },
        _ => false,
    }
}

/// What the symbol resolver yields for the hooked function on this
/// build: its address and the byte length its patchable region is
/// expected to occupy.
#[derive(Clone, Copy, PartialEq, Eq, Structural, Debug)]
pub struct SymbolInfo {
    pub address: u64,
    pub expected_len: usize,
}

/// The state of this hook module: the context stored at
/// initialization, and the one live hook record for the patched
/// symbol.
pub struct HookState {
    pub ctx: Option<MppatchCtx>,
    pub hook: Option<PatchedFunction>,
}

impl HookState {
    /// A fresh module state: nothing installed yet.
    pub fn new() -> (r: HookState)
        ensures
            r.ctx is None,
            r.hook is None,
    {
        HookState { ctx: None, hook: None }
    }
}

/// The global-table retrieval trick: the true global namespace of an
/// instance is the environment that the string-substitution primitive
/// still carries even when user code runs sandboxed. Retrieval fails
/// only when that environment cannot be found, and that failure is
/// fatal to bridge construction.
pub fn get_globals_table(engine: &Engine) -> (r: Result<u64, HookError>)
    ensures
        match engine.string_gsub_env {
            Some(g) => r == Ok::<u64, HookError>(g),
            None => r == Err::<u64, HookError>(HookError::BridgeConstruction),
        },
{
    match engine.string_gsub_env {
        Some(g) => Ok(g),
        None => Err(HookError::BridgeConstruction),
    }
}

/// The raw globals accessor exposed on the capability table: hands a
/// script the global table the embedding API exposes.
pub fn l_get_globals(engine: &Engine) -> (r: u64)
    ensures
        r == engine.api_globals,
{
    engine.api_globals
}

/// Builds the capability table for one scripting-engine instance and
/// caches it in the instance's registry slot. Called at most once per
/// instance; the proxy checks the slot before calling.
pub fn create_mppatch_table(engine: &mut Engine, ctx: &MppatchCtx) -> (r: Result<
    (),
    HookError,
>)
    requires
        old(engine).registry_patch_table is None,
        old(engine).tables_created <= u64::MAX - 2,
    ensures
        match r {
            Ok(_) => {
                &&& final(engine).registry_patch_table matches Some(ct) && table_built(
                    ct,
                    *ctx,
                    *old(engine),
                )
                &&& final(engine).tables_created == old(engine).tables_created + 2
                &&& final(engine).string_gsub_env == old(engine).string_gsub_env
                &&& final(engine).api_globals == old(engine).api_globals
                &&& old(engine).string_gsub_env is Some
            },
            Err(e) => {
                &&& e == HookError::BridgeConstruction
                &&& old(engine).string_gsub_env is None
                &&& *final(engine) == *old(engine)
            },
        },
{
    let globals_target: u64 = match get_globals_table(engine) {
        Ok(g) => g,
        Err(e) => {
            return Err(e);
        },
    };
    let version = VersionTable {
        version_string: ctx.version().clone(),
        platform: platform_name(ctx.platform).to_owned(),
        sha256: ctx.sha256().clone(),
        build_id: ctx.build_id().clone(),
    };
    let config = ConfigTable {
        enable_logging: ctx.flags.logging,
        enable_debug: ctx.flags.debug,
        enable_multiplayer_patch: ctx.flags.multiplayer,
        enable_lua_jit: ctx.flags.luajit,
    };
    let id: u64 = engine.tables_created;
    let table = CapabilityTable {
        id,
        marker: 1,
        version,
        config,
        globals: GlobalsTable { target: globals_target },
        shared_id: id + 1,
        net_patch: NetPatchTable {},
    };
    engine.tables_created = engine.tables_created + 2;
    engine.registry_patch_table = Some(table);
    Ok(())
}

/// The full behavior of one call reaching the proxy, relating the
/// engine before (`e0`) and after (`e1`) to the call's result:
/// a sentinel first argument yields the instance's capability table,
/// cached or freshly built; any other argument passes through, the
/// result being exactly what the unhooked native function returns for
/// the call, with the engine untouched.
pub open spec fn proxy_post(
    ctx: MppatchCtx,
    e0: Engine,
    e1: Engine,
    arg: LuaValue,
    original_result: LuaValue,
    r: Result<LuaValue, HookError>,
) -> bool {
    if spec_is_sentinel(arg) {
        match e0.registry_patch_table {
            Some(ct) => e1 == e0 && r == Ok::<LuaValue, HookError>(LuaValue::Table(ct.id)),
            None => match e0.string_gsub_env {
                None => e1 == e0 && r == Err::<LuaValue, HookError>(HookError::BridgeConstruction),
                Some(_) => {
                    &&& e1.registry_patch_table matches Some(ct) && table_built(ct, ctx, e0)
                        && r == Ok::<LuaValue, HookError>(LuaValue::Table(ct.id))
                    &&& e1.tables_created == e0.tables_created + 2
                    &&& e1.string_gsub_env == e0.string_gsub_env
                    &&& e1.api_globals == e0.api_globals
                },
            },
        }
    } else {
        e1 == e0 && r == Ok::<LuaValue, HookError>(original_result)
    }
}

/// The proxy installed in place of the hooked native function.
///
/// `original_result` is the value the unhooked native function returns
/// for this call; the host invokes the original through the hook
/// record's saved entry exactly when the first argument is not the
/// sentinel, and this function then returns that value unchanged.
#[allow(non_snake_case)]
pub fn lGetMemoryUsageProxy(
    ctx: &MppatchCtx,
    engine: &mut Engine,
    arg: &LuaValue,
    original_result: LuaValue,
) -> (r: Result<LuaValue, HookError>)
    requires
        old(engine).wf(),
        old(engine).tables_created <= u64::MAX - 2,
    ensures
        proxy_post(*ctx, *old(engine), *final(engine), *arg, original_result, r),
        final(engine).wf(),
{
    if is_sentinel(arg) {
        let cached: Option<u64> = match &engine.registry_patch_table {
            Some(ct) => Some(ct.id),
            None => None,
        };
        match cached {
            Some(id) => Ok(LuaValue::Table(id)),
            None => {
                match create_mppatch_table(engine, ctx) {
                    Ok(_) => {
                        match &engine.registry_patch_table {
                            Some(ct) => Ok(LuaValue::Table(ct.id)),
                            None => {
                                proof {
                                    assert(false);
                                }
                                Err(HookError::BridgeConstruction)
                            },
                        }
                    },
                    Err(e) => Err(e),
                }
            },
        }
    } else {
        Ok(original_result)
    }
}

/// Reads the hook record's saved entry, the means to invoke the
/// unhooked native function while the hook is live.
#[allow(non_snake_case)]
pub fn lGetMemoryUsage(st: &HookState) -> (r: u64)
    requires
        st.hook is Some,
    ensures
        st.hook matches Some(pf) && r == pf.old_function,
{
    match &st.hook {
        Some(pf) => pf.old_function(),
        None => {
            proof {
                assert(false);
            }
            0
        },
    }
}

/// What applying the hook guarantees, relating the module state and
/// the code region before and after: the context is stored either
/// way; on success the region holds the jump image and the hook
/// record keeps the original bytes; on failure nothing half-installs,
/// and the error says exactly why.
pub open spec fn init_post(
    st0: HookState,
    st1: HookState,
    ctx: MppatchCtx,
    m0: CodeRegion,
    m1: CodeRegion,
    sym: SymbolInfo,
    proxy_address: u64,
    r: Result<(), HookError>,
) -> bool {
    &&& st1.ctx == Some(ctx)
    &&& (r is Ok <==> spec_patchable(m0, sym.expected_len as nat) && m0.writable)
    &&& match r {
        Ok(_) => st1.hook matches Some(pf) && install_post(
            m0,
            m1,
            proxy_address,
            sym.address,
            sym.expected_len as nat,
            pf,
        ) && pf.name@ == "lGetMemoryUsage"@,
        Err(e) => {
            &&& st1.hook is None
            &&& m1 == m0
            &&& (e == HookError::ResolutionMismatch <==> !spec_patchable(
                m0,
                sym.expected_len as nat,
            ))
            &&& (e == HookError::MemoryProtection <==> spec_patchable(m0, sym.expected_len as nat)
                && !m0.writable)
        },
    }
}

/// Applies the hook: stores the context, then patches the resolved
/// symbol so calls reach the proxy. The context is stored even when
/// patching fails; the hook record is only stored on success, so the
/// feature never half-installs.
pub fn init(
    st: &mut HookState,
    ctx: MppatchCtx,
    region: &mut CodeRegion,
    sym: SymbolInfo,
    proxy_address: u64,
) -> (r: Result<(), HookError>)
    requires
        old(st).hook is None,
    ensures
        init_post(*old(st), *final(st), ctx, *old(region), *final(region), sym, proxy_address, r),
{
    st.ctx = Some(ctx);
    let name: String = "lGetMemoryUsage".to_owned();
    match PatchedFunction::create(region, sym.address, proxy_address, sym.expected_len, name) {
        Ok(pf) => {
            st.hook = Some(pf);
            Ok(())
        },
        Err(e) => Err(e),
    }
}

/// Tears the hook down, restoring the original bytes exactly; part of
/// process-unload teardown. Idempotent: with nothing installed it
/// leaves everything untouched.
pub fn destroy_usage(st: &mut HookState, region: &mut CodeRegion)
    requires
        match old(st).hook {
            Some(pf) => pf.old_bytes@.len() == old(region).bytes@.len() && old(region).writable,
            None => true,
        },
    ensures
        final(st).hook is None,
        final(st).ctx == old(st).ctx,
        match old(st).hook {
            Some(pf) => pf.restore_post(*old(region), *final(region)),
            None => *final(region) == *old(region),
        },
{
    let taken: Option<PatchedFunction> = st.hook.take();
    match taken {
        Some(pf) => pf.uninstall(region),
        None => (),
    }
}

/// Idempotence of the bridge: once a sentinel call has succeeded,
/// every further sentinel call on the same scripting-engine instance
/// returns the same capability table object and leaves the instance
/// unchanged — N sequential sentinel calls yield one table, not N.
pub proof fn lemma_sentinel_idempotent(
    ctx: MppatchCtx,
    e0: Engine,
    e1: Engine,
    e2: Engine,
    arg: LuaValue,
    orig1: LuaValue,
    orig2: LuaValue,
    r1: Result<LuaValue, HookError>,
    r2: Result<LuaValue, HookError>,
)
    requires
        spec_is_sentinel(arg),
        r1 is Ok,
        proxy_post(ctx, e0, e1, arg, orig1, r1),
        proxy_post(ctx, e1, e2, arg, orig2, r2),
    ensures
        e2 == e1,
        r2 == r1,
{
}

/// Idempotence over a whole run: for one scripting-engine instance,
/// any number of sequential sentinel calls — `states[i]` before call
/// `i`, `results[i]` its result — return the same capability table
/// reference as the first call, once that one succeeded, and the
/// instance never changes again after the first call.
pub proof fn lemma_sentinel_idempotent_n(
    ctx: MppatchCtx,
    states: Seq<Engine>,
    origs: Seq<LuaValue>,
    results: Seq<Result<LuaValue, HookError>>,
    arg: LuaValue,
)
    requires
        spec_is_sentinel(arg),
        states.len() == results.len() + 1,
        origs.len() == results.len(),
        results.len() >= 1,
        forall|i: int|
            0 <= i < results.len() ==> #[trigger] proxy_post(
                ctx,
                states[i],
                states[i + 1],
                arg,
                origs[i],
                results[i],
            ),
        results[0] is Ok,
    ensures
        forall|i: int| 0 <= i < results.len() ==> #[trigger] results[i] == results[0],
        forall|i: int| 1 <= i <= results.len() ==> #[trigger] states[i] == states[1],
    decreases results.len(),
{
    let n = results.len() as int;
    if n > 1 {
        let states_p = states.take(n);
        let origs_p = origs.take(n - 1);
        let results_p = results.take(n - 1);
        assert forall|i: int|
            0 <= i < n - 1 implies #[trigger] proxy_post(
            ctx,
            states_p[i],
            states_p[i + 1],
            arg,
            origs_p[i],
            results_p[i],
        ) by {
            assert(proxy_post(ctx, states[i], states[i + 1], arg, origs[i], results[i]));
            assert(states_p[i] == states[i] && states_p[i + 1] == states[i + 1]);
            assert(origs_p[i] == origs[i] && results_p[i] == results[i]);
        }
        assert(results_p[0] == results[0]);
        lemma_sentinel_idempotent_n(ctx, states_p, origs_p, results_p, arg);
        assert(results_p[n - 2] == results_p[0]);
        assert(results_p[n - 2] == results[n - 2]);
        assert(proxy_post(
            ctx,
            states[n - 2],
            states[n - 2 + 1],
            arg,
            origs[n - 2],
            results[n - 2],
        ));
        assert(proxy_post(
            ctx,
            states[n - 1],
            states[n - 1 + 1],
            arg,
            origs[n - 1],
            results[n - 1],
        ));
        lemma_sentinel_idempotent(
            ctx,
            states[n - 2],
            states[n - 1],
            states[n],
            arg,
            origs[n - 2],
            origs[n - 1],
            results[n - 2],
            results[n - 1],
        );
        assert forall|i: int| 0 <= i < n implies #[trigger] results[i] == results[0] by {
            if i < n - 1 {
                assert(results_p[i] == results_p[0]);
                assert(results_p[i] == results[i]);
            }
        }
        assert forall|i: int| 1 <= i <= n implies #[trigger] states[i] == states[1] by {
            if i <= n - 1 {
                assert(states_p[i] == states_p[1]);
                assert(states_p[i] == states[i] && states_p[1] == states[1]);
            } else {
                assert(states_p[n - 1] == states_p[1]);
                assert(states_p[n - 1] == states[n - 1] && states_p[1] == states[1]);
            }
        }
    }
}

/// Pass-through fidelity: for every first argument that is not the
/// sentinel token, the proxied call returns exactly what the original
/// implementation returns for it, and the scripting-engine instance
/// is untouched.
pub proof fn lemma_pass_through(
    ctx: MppatchCtx,
    e0: Engine,
    e1: Engine,
    arg: LuaValue,
    original_result: LuaValue,
    r: Result<LuaValue, HookError>,
)
    requires
        !spec_is_sentinel(arg),
        proxy_post(ctx, e0, e1, arg, original_result, r),
    ensures
        e1 == e0,
        r == Ok::<LuaValue, HookError>(original_result),
{
}

/// Sentinel exactness, falling side: a string argument that differs
/// from the sentinel token in any way — case, whitespace, truncation,
/// a single character — falls through to pass-through behavior.
pub proof fn lemma_near_miss_falls_through(
    ctx: MppatchCtx,
    e0: Engine,
    e1: Engine,
    arg: LuaValue,
    original_result: LuaValue,
    r: Result<LuaValue, HookError>,
)
    requires
        arg matches LuaValue::Str(s) && s@ != spec_sentinel(),
        proxy_post(ctx, e0, e1, arg, original_result, r),
    ensures
        e1 == e0,
        r == Ok::<LuaValue, HookError>(original_result),
{
}

/// Sentinel exactness, triggering side: whatever a successful sentinel
/// call returns is precisely the capability table the instance now
/// caches.
pub proof fn lemma_sentinel_returns_cached_table(
    ctx: MppatchCtx,
    e0: Engine,
    e1: Engine,
    arg: LuaValue,
    original_result: LuaValue,
    r: Result<LuaValue, HookError>,
)
    requires
        spec_is_sentinel(arg),
        proxy_post(ctx, e0, e1, arg, original_result, r),
    ensures
        r matches Ok(v) ==> e1.registry_patch_table matches Some(ct) && v == LuaValue::Table(
            ct.id,
        ),
{
}

} // verus!
