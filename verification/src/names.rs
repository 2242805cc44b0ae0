//! Name rules at the HAL boundary.
//!
//! Every resource's externally visible name is the component name, a full
//! stop, and the local name.  A name crosses the boundary as a C string, so
//! it must fit [`crate::hal::HAL_NAME_LEN`] bytes and hold no embedded null
//! byte; both checks happen before any external call is made.

use vstd::prelude::*;

use vstd::string::StringSliceAdditionalSpecFns;

verus! {

/// The full name of a resource: the component name, a full stop, and the
/// local name.
pub open spec fn prefixed_name(comp: Seq<char>, local: Seq<char>) -> Seq<char> {
    comp.push('.') + local
}

/// True when the byte encoding of a name holds an embedded null byte, so
/// the name cannot be handed to the HAL as a C string.
pub open spec fn has_nul_byte(bytes: Seq<u8>) -> bool {
    bytes.contains(0u8)
}

/// Check a name's byte encoding for an embedded null byte.
pub fn str_contains_nul(s: &str) -> (b: bool)
    ensures
        b == has_nul_byte(s.spec_bytes()),
{
    let bytes = s.as_bytes();
    let n = bytes.len();
    let mut i: usize = 0;
    while i < n
        invariant
            n == bytes@.len(),
            i <= n,
            bytes@ == s.spec_bytes(),
            forall|j: int| 0 <= j < i ==> bytes@[j] != 0u8,
        decreases n - i,
    {
        if *vstd::slice::slice_index_get(bytes, i) == 0u8 {
            return true;
        }
        i = i + 1;
    }
    false
}

/// Join a component name and a local resource name with a full stop.
pub fn join_names(comp: &str, local: &str) -> (full: String)
    ensures
        full@ == prefixed_name(comp@, local@),
{
    let mut full = comp.to_owned();
    full.append(".");
    full.append(local);
    proof {
        reveal_strlit(".");
        assert(full@ =~= prefixed_name(comp@, local@));
    }
    full
}

} // verus!
