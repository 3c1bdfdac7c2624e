//! Process context: feature flags and build/version metadata.
//!
//! The context is built once when the process is loaded and is treated
//! as immutable afterwards; every hook module reads it.

use vstd::prelude::*;

verus! {

/// The independent feature toggles of the patch.
#[derive(Clone, Copy, PartialEq, Eq, Structural, Debug)]
pub enum MppatchFeature {
    Logging,
    Debug,
    Multiplayer,
    LuaJit,
}

/// One boolean per feature, mirrored verbatim into the capability table.
#[derive(Clone, Copy, PartialEq, Eq, Structural, Debug)]
pub struct FeatureFlags {
    pub logging: bool,
    pub debug: bool,
    pub multiplayer: bool,
    pub luajit: bool,
}

/// The platform the host process runs on.
#[derive(Clone, Copy, PartialEq, Eq, Structural, Debug)]
pub enum Platform {
    Linux,
    Macos,
    Windows,
}

/// Immutable snapshot of feature flags and build identity, shared
/// read-only by every hook module.
#[derive(Clone, Debug)]
pub struct MppatchCtx {
    pub version: String,
    pub build_id: String,
    pub sha256: String,
    pub platform: Platform,
    pub flags: FeatureFlags,
}

impl MppatchCtx {
    /// Whether a feature toggle is set in this context.
    pub open spec fn spec_has_feature(self, feature: MppatchFeature) -> bool {
        match feature {
            MppatchFeature::Logging => self.flags.logging,
            MppatchFeature::Debug => self.flags.debug,
            MppatchFeature::Multiplayer => self.flags.multiplayer,
            MppatchFeature::LuaJit => self.flags.luajit,
        }
    }

    pub fn has_feature(&self, feature: MppatchFeature) -> (r: bool)
        ensures
            r == self.spec_has_feature(feature),
    {
        match feature {
            MppatchFeature::Logging => self.flags.logging,
            MppatchFeature::Debug => self.flags.debug,
            MppatchFeature::Multiplayer => self.flags.multiplayer,
            MppatchFeature::LuaJit => self.flags.luajit,
        }
    }

    pub fn version(&self) -> (r: &String)
        ensures
            r == &self.version,
    {
        &self.version
    }

    pub fn build_id(&self) -> (r: &String)
        ensures
            r == &self.build_id,
    {
        &self.build_id
    }

    pub fn sha256(&self) -> (r: &String)
        ensures
            r == &self.sha256,
    {
        &self.sha256
    }
}

/// The platform tag exposed in the capability table's version group.
pub open spec fn spec_platform_name(p: Platform) -> Seq<char> {
    match p {
        Platform::Linux => "linux"@,
        Platform::Macos => "macos"@,
        Platform::Windows => "windows"@,
    }
}

pub fn platform_name(p: Platform) -> (r: &'static str)
    ensures
        r@ == spec_platform_name(p),
{
    match p {
        Platform::Linux => "linux",
        Platform::Macos => "macos",
        Platform::Windows => "windows",
    }
}

} // verus!
