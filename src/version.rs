use vstd::prelude::*;

verus! {

/// Version of the native transform engine, as major.minor.patch.
#[derive(Debug, Clone, Copy, PartialEq, Eq, Structural)]
pub struct Version {
    major: u32,
    minor: u32,
    patch: u32,
}

/// The major part of a packed version number (`major * 10000 + minor * 100 + patch`).
pub open spec fn spec_major(raw: u32) -> u32 {
    raw / 10000
}

/// The minor part of a packed version number.
pub open spec fn spec_minor(raw: u32) -> u32 {
    (raw % 10000) / 100
}

/// The patch part of a packed version number.
pub open spec fn spec_patch(raw: u32) -> u32 {
    raw % 100
}

impl View for Version {
    type V = (u32, u32, u32);

    /// The version as (major, minor, patch).
    closed spec fn view(&self) -> (u32, u32, u32) {
        (self.major, self.minor, self.patch)
    }
}

impl Version {
    /// Decodes the integer that the native engine reports as its version.
    pub fn from_raw(raw: u32) -> (r: Version)
        ensures
            r@ == (spec_major(raw), spec_minor(raw), spec_patch(raw)),
    {
        Version { major: raw / 10000, minor: raw % 10000 / 100, patch: raw % 100 }
    }

    pub fn major(&self) -> (r: u32)
        ensures
            r == self@.0,
    {
        self.major
    }

    pub fn minor(&self) -> (r: u32)
        ensures
            r == self@.1,
    {
        self.minor
    }

    pub fn patch(&self) -> (r: u32)
        ensures
            r == self@.2,
    {
        self.patch
    }
}

} // verus!
