//! Recognising gzip data by its magic number.

use vstd::prelude::*;

verus! {

/// Whether `header`, the first bytes of a file, starts with the gzip magic
/// number `1f 8b`; fewer than two bytes never do.
pub fn has_gzip_magic(header: &[u8]) -> (r: bool)
    ensures
        r == (header@.len() >= 2 && header@[0] == 0x1f && header@[1] == 0x8b),
{
    header.len() >= 2 && header[0] == 0x1f && header[1] == 0x8b
}

} // verus!
