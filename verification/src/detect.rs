use vstd::prelude::*;

use crate::errors::LoadError;

verus! {

/// A byte sequence is this container format exactly when its first four bytes
/// are the ASCII signature `MDMP`. A sequence shorter than four bytes is never
/// this format.
pub open spec fn spec_is_minidump(s: Seq<u8>) -> bool {
    s.len() >= 4 && s[0] == 0x4du8 && s[1] == 0x44u8 && s[2] == 0x4du8 && s[3] == 0x50u8
}

/// Container type detector: accept exactly the inputs whose first four bytes
/// are `MDMP`. A short read (fewer than four bytes available) is rejected
/// without reading past the available bytes.
pub fn is_minidump(data: &[u8]) -> (r: bool)
    ensures
        r == spec_is_minidump(data@),
{
    data.len() >= 4 && data[0] == 0x4d && data[1] == 0x44 && data[2] == 0x4d && data[3] == 0x50
}

/// The detector as a gate: `Ok` exactly on inputs with the `MDMP` signature,
/// `Err(NotThisFormat)` on every other input.
pub fn detect_format(data: &[u8]) -> (r: Result<(), LoadError>)
    ensures
        spec_is_minidump(data@) ==> r == Ok::<(), LoadError>(()),
        !spec_is_minidump(data@) ==> r == Err::<(), LoadError>(LoadError::NotThisFormat),
{
    if is_minidump(data) {
        Ok(())
    } else {
        Err(LoadError::NotThisFormat)
    }
}

/// The detector's verdict depends on the first four bytes alone: two inputs
/// with the same four-byte prefix are accepted or rejected together, whatever
/// trailing content follows.
pub proof fn lemma_detector_reads_prefix_only(s1: Seq<u8>, s2: Seq<u8>)
    requires
        s1.len() >= 4,
        s2.len() >= 4,
        s1.subrange(0, 4) == s2.subrange(0, 4),
    ensures
        spec_is_minidump(s1) == spec_is_minidump(s2),
{
    assert forall|i: int| 0 <= i < 4 implies s1[i] == s2[i] by {
        assert(s1.subrange(0, 4)[i] == s1[i]);
        assert(s2.subrange(0, 4)[i] == s2[i]);
    }
}

} // verus!
