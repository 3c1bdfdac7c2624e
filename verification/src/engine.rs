//! Model of one embedded scripting-engine instance.
//!
//! A host process may drive several independent instances; each has a
//! registry (a storage area addressable by private keys, inaccessible
//! to ordinary scripts), a global namespace, and a pool of table
//! objects. Table objects are identified by the order in which the
//! instance allocated them: `tables_created` counts allocations, and a
//! table with an identity below the counter belongs to this instance.

use vstd::prelude::*;

use crate::context::spec_platform_name;
use crate::context::MppatchCtx;
use crate::errors::HookError;

verus! {

/// A script-level value, as far as the bridge inspects one: the hook
/// looks at strings exactly, passes every other shape through, and
/// hands table objects back by identity.
#[derive(PartialEq, Eq, Debug, Clone)]
pub enum LuaValue {
    Nil,
    Bool(bool),
    Int(i64),
    Str(String),
    Table(u64),
}

/// The version group of the capability table.
#[derive(PartialEq, Eq, Debug, Clone)]
pub struct VersionTable {
    pub version_string: String,
    pub platform: String,
    pub sha256: String,
    pub build_id: String,
}

/// The feature-flag mirror of the capability table.
#[derive(PartialEq, Eq, Structural, Debug, Clone, Copy)]
pub struct ConfigTable {
    pub enable_logging: bool,
    pub enable_debug: bool,
    pub enable_multiplayer_patch: bool,
    pub enable_lua_jit: bool,
}

/// The raw global accessors group: raw-get/raw-set operate on the true
/// global namespace, bypassing script-level interception.
#[derive(PartialEq, Eq, Structural, Debug, Clone, Copy)]
pub struct GlobalsTable {
    /// Identity of the true global table the accessors are bound to.
    pub target: u64,
}

/// The reserved mod/DLC override group: declared, but every operation
/// is unimplemented and must fail explicitly.
#[derive(PartialEq, Eq, Structural, Debug, Clone, Copy)]
pub enum NetPatchOp {
    PushMod,
    OverrideReloadMods,
    OverrideModList,
    PushDlc,
    OverrideReloadDlc,
    OverrideDlcList,
    Install,
    Reset,
}

#[derive(PartialEq, Eq, Structural, Debug, Clone, Copy)]
pub struct NetPatchTable {}

impl NetPatchTable {
    /// Invokes a reserved operation. Every member is declared but not
    /// implemented yet, so every invocation fails with an explicit
    /// signal rather than silently doing nothing.
    pub fn invoke(&self, op: NetPatchOp) -> (r: Result<LuaValue, HookError>)
        ensures
            r == Result::<LuaValue, HookError>::Err(HookError::NotImplemented),
    {
        match op {
            _ => Err(HookError::NotImplemented),
        }
    }
}

/// The capability table exposed to scripts through the sentinel
/// protocol, together with the identities of the table objects it
/// allocated in its scripting-engine instance.
#[derive(PartialEq, Eq, Debug, Clone)]
pub struct CapabilityTable {
    /// Identity of the root table object inside its instance.
    pub id: u64,
    /// The private marker field, always one.
    pub marker: u64,
    pub version: VersionTable,
    pub config: ConfigTable,
    pub globals: GlobalsTable,
    /// Identity of the free-form extension table for ad hoc
    /// script-to-native exchange.
    pub shared_id: u64,
    pub net_patch: NetPatchTable,
}

/// One scripting-engine instance, as far as the bridge touches it.
pub struct Engine {
    /// How many table objects this instance has allocated; allocation
    /// order is identity, so ids below the counter belong to this
    /// instance and a fresh table always gets a new identity.
    pub tables_created: u64,
    /// The private registry slot the capability table is cached in;
    /// empty until the first sentinel call builds the table.
    pub registry_patch_table: Option<CapabilityTable>,
    /// The environment of the string-substitution primitive, when the
    /// string library is intact: the true global table, reachable even
    /// when the embedding layer has sandboxed user code.
    pub string_gsub_env: Option<u64>,
    /// The global table the embedding API itself exposes.
    pub api_globals: u64,
}

impl Engine {
    /// Well-formedness: a cached capability table was allocated by
    /// this instance, so its identities lie below the allocation
    /// counter.
    pub open spec fn wf(self) -> bool {
        match self.registry_patch_table {
            Some(ct) => ct.id < self.tables_created && ct.shared_id < self.tables_created,
            None => true,
        }
    }
}

/// What the capability table built for context `ctx` inside engine `e`
/// holds, field by field: version and build identity copied verbatim,
/// one boolean per feature flag mirrored exactly, raw accessors bound
/// to the true global table, and the reserved group empty.
pub open spec fn table_built(ct: CapabilityTable, ctx: MppatchCtx, e: Engine) -> bool {
    &&& ct.id == e.tables_created
    &&& ct.shared_id == e.tables_created + 1
    &&& ct.marker == 1
    &&& ct.version.version_string@ == ctx.version@
    &&& ct.version.platform@ == spec_platform_name(ctx.platform)
    &&& ct.version.sha256@ == ctx.sha256@
    &&& ct.version.build_id@ == ctx.build_id@
    &&& ct.config.enable_logging == ctx.flags.logging
    &&& ct.config.enable_debug == ctx.flags.debug
    &&& ct.config.enable_multiplayer_patch == ctx.flags.multiplayer
    &&& ct.config.enable_lua_jit == ctx.flags.luajit
    &&& e.string_gsub_env matches Some(g) && ct.globals.target == g
}

/// For every combination of the four feature flags, the built table's
/// config group equals that exact combination.
pub proof fn lemma_config_fidelity(ct: CapabilityTable, ctx: MppatchCtx, e: Engine)
    requires
        table_built(ct, ctx, e),
    ensures
        ct.config == (ConfigTable {
            enable_logging: ctx.flags.logging,
            enable_debug: ctx.flags.debug,
            enable_multiplayer_patch: ctx.flags.multiplayer,
            enable_lua_jit: ctx.flags.luajit,
        }),
{
}

} // verus!
