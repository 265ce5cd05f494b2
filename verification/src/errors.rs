use vstd::prelude::*;

verus! {

/// The failure kinds of address-space construction.
///
/// `NotThisFormat` is the detector's verdict on a foreign input and only means
/// "try another loader". `ContainerUnreadable`, `MissingSystemInfo` and
/// `UnsupportedPlatform` abort construction. `MemoryListUnavailable` reports
/// that neither memory-region stream could be read; the builder absorbs it and
/// degrades to an empty segment table.
#[derive(Clone, Copy, Debug, PartialEq, Eq, Structural)]
pub enum LoadError {
    /// The input does not begin with the container's signature.
    NotThisFormat,
    /// The structured container could not be opened at all.
    ContainerUnreadable,
    /// The system-information stream is absent or corrupt.
    MissingSystemInfo,
    /// The system information names no platform the resolver knows.
    UnsupportedPlatform,
    /// Both memory-region streams are absent or unreadable.
    MemoryListUnavailable,
}

} // verus!
