//! Versions as the native API packs them.
use vstd::prelude::*;

verus! {

/// A version packed into one word: major, minor and patch numbers.
pub open spec fn packed_version(major: u32, minor: u32, patch: u32) -> u32 {
    (major << 22u32) | (minor << 12u32) | patch
}

/// Relies on ash::vk::make_version: packs the three numbers as
/// `(major << 22) | (minor << 12) | patch`.
#[verifier::external_body]
fn make_version(major: u32, minor: u32, patch: u32) -> (r: u32)
    ensures
        r == packed_version(major, minor, patch),
{
    ash::vk::make_version(major, minor, patch)
}

/// An application version.
#[derive(Clone, Copy, Debug, PartialEq, Eq, Structural)]
pub struct Version {
    vk: u32,
}

impl Version {
    pub closed spec fn packed(&self) -> u32 {
        self.vk
    }

    pub fn new(major: u32, minor: u32, patch: u32) -> (r: Version)
        ensures
            r.packed() == packed_version(major, minor, patch),
    {
        Version { vk: make_version(major, minor, patch) }
    }

    /// The packed word.
    pub fn vk(&self) -> (r: u32)
        ensures
            r == self.packed(),
    {
        self.vk
    }
}

} // verus!
