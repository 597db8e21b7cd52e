//! Class identifiers: the one mangle-policy-true kind.

use vstd::prelude::*;

use crate::Id;
use crate::mangle;
use crate::raw_form_of;
use crate::region::region_str;

verus! {

/// A class identifier. Its raw form, stored in the compilation-scoped
/// region, is the mangled canonical form of the stripped surface name.
#[derive(Clone, Debug)]
pub struct Type<'arena> {
    raw: &'arena str,
}

impl<'arena> Id<'arena> for Type<'arena> {
    open spec fn mangle_policy() -> bool {
        true
    }

    closed spec fn raw_view(&self) -> Seq<char> {
        self.raw@
    }

    fn to_raw_string(&self) -> (r: &'arena str) {
        self.raw
    }

    fn from_ast_name(alloc: &'arena bumpalo::Bump, s: &str) -> (r: Self) {
        let stripped = mangle::strip_global_ns(s);
        let mangled = mangle::mangle(stripped);
        Type { raw: region_str(alloc, mangled.as_str()) }
    }

    fn to_unmangled_str(&self) -> (r: String) {
        mangle::unmangle(self.raw)
    }
}

impl<'arena> Type<'arena> {
    /// Convenience constructor for callers that have just built an owned
    /// name dynamically: converts to a borrowed surface name and runs the
    /// standard construction pipeline.
    pub fn from_ast_name_and_mangle(alloc: &'arena bumpalo::Bump, s: String) -> (r: Self)
        ensures
            r.raw_view() == raw_form_of(true, s@),
    {
        Self::from_ast_name(alloc, s.as_str())
    }
}

/// Materializes an already-canonical string in the region, with no
/// transformation applied.
pub fn from_raw_string<'arena>(alloc: &'arena bumpalo::Bump, s: &str) -> (r: Type<'arena>)
    ensures
        r.raw_view() == s@,
{
    Type { raw: region_str(alloc, s) }
}

} // verus!
