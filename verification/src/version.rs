//! The runtime's version.
use vstd::prelude::*;

verus! {

/// The version of the runtime, by which nodes tell runtimes apart.
#[derive(Clone, Copy, PartialEq, Eq, Debug)]
pub struct RuntimeVersion {
    pub spec_name: &'static str,
    pub impl_name: &'static str,
    pub authoring_version: u32,
    pub spec_version: u32,
    pub impl_version: u32,
    pub transaction_version: u32,
    pub state_version: u8,
}

/// Whether `v` is the version of this runtime.
pub open spec fn is_this_version(v: RuntimeVersion) -> bool {
    &&& v.spec_name@ == "elysium"@
    &&& v.impl_name@ == "elysium"@
    &&& v.authoring_version == 2
    &&& v.spec_version == 8
    &&& v.impl_version == 2
    &&& v.transaction_version == 1
    &&& v.state_version == 1
}

/// The version of this runtime.
pub fn version() -> (r: RuntimeVersion)
    ensures
        is_this_version(r),
{
    RuntimeVersion {
        spec_name: "elysium",
        impl_name: "elysium",
        authoring_version: 2,
        spec_version: 8,
        impl_version: 2,
        transaction_version: 1,
        state_version: 1,
    }
}

/// The version of the runtime compiled into the node, with the authoring
/// versions it can author with.
pub struct NativeVersion {
    pub runtime_version: RuntimeVersion,
    pub can_author_with: Vec<u32>,
}

/// The native version: this runtime's version, and no other authoring
/// version.
pub fn native_version() -> (r: NativeVersion)
    ensures
        is_this_version(r.runtime_version),
        r.can_author_with@.len() == 0,
{
    NativeVersion { runtime_version: version(), can_author_with: Vec::new() }
}

/// The node's version string.
pub struct VersionConstant;

impl VersionConstant {
    /// The version string, naming the source revision.
    pub fn get() -> (r: &'static str)
        ensures
            r@ == "v0.9.42 - https://github.com/VForged/elysium/tree/fa5f94e5e9b6f48ed846da0dbe2cc6c5f7d171e2"@,
    {
        "v0.9.42 - https://github.com/VForged/elysium/tree/fa5f94e5e9b6f48ed846da0dbe2cc6c5f7d171e2"
    }
}

} // verus!
