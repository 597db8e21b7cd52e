//! Constant identifiers: unmangled, without suffix support.

use vstd::prelude::*;

use crate::Id;
use crate::mangle;
use crate::region::region_str;

verus! {

/// A constant identifier. Its raw form is the stripped surface name; the
/// display form equals the raw form. Constants cannot be suffixed.
#[derive(Clone, Debug)]
pub struct Type<'arena> {
    raw: &'arena str,
}

impl<'arena> Id<'arena> for Type<'arena> {
    open spec fn mangle_policy() -> bool {
        false
    }

    closed spec fn raw_view(&self) -> Seq<char> {
        self.raw@
    }

    fn to_raw_string(&self) -> (r: &'arena str) {
        self.raw
    }

    fn from_ast_name(alloc: &'arena bumpalo::Bump, s: &str) -> (r: Self) {
        Type { raw: region_str(alloc, mangle::strip_global_ns(s)) }
    }

    fn to_unmangled_str(&self) -> (r: String) {
        self.raw.to_owned()
    }
}

/// Materializes an already-canonical string in the region, with no
/// transformation applied.
pub fn from_raw_string<'arena>(alloc: &'arena bumpalo::Bump, s: &str) -> (r: Type<'arena>)
    ensures
        r.raw_view() == s@,
{
    Type { raw: region_str(alloc, s) }
}

} // verus!
