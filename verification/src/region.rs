//! The compilation-scoped memory region that owns every identifier's bytes.
//!
//! The region itself is bumpalo's arena; this module declares it and wraps
//! the one allocation call the identifier kinds need: materialize a string
//! in the region and hand back a reference that lives as long as it.

use vstd::prelude::*;

verus! {

/// Declares bumpalo's arena type, so that region handles and region-backed
/// references can appear in verified signatures. A `Bump` is opaque here.
#[verifier::external_type_specification]
#[verifier::external_body]
pub struct ExBump(bumpalo::Bump);

/// Relies on `bumpalo::Bump::alloc_str`, which copies the bytes of `s` into
/// the region and returns a reference to the copy, valid for the region's
/// whole lifetime.
#[verifier::external_body]
pub(crate) fn region_str<'arena>(alloc: &'arena bumpalo::Bump, s: &str) -> (r: &'arena str)
    ensures
        r@ == s@,
{
    alloc.alloc_str(s)
}

} // verus!
