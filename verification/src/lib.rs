//! Typed identifiers for a bytecode compiler's intermediate stages.
//!
//! Each identifier kind (class, property, method, function, constant, record)
//! stores its textual form once, in a compilation-scoped memory region, and
//! applies a kind-specific mangling policy when it is created from a
//! source-level name.

use vstd::prelude::*;

pub mod class;
pub mod constant;
pub mod function;
pub mod mangle;
pub mod method;
pub mod prop;
pub mod record;
mod region;

verus! {

/// The characters `':'` and `'_'` trade places under mangling; every other
/// character is kept as it is. Swapping makes the transform its own inverse
/// on the body of a name.
pub open spec fn swap_mangle_char(c: char) -> char {
    if c == ':' {
        '_'
    } else if c == '_' {
        ':'
    } else {
        c
    }
}

/// The raw form a kind with the given mangle policy stores for the surface
/// name `s`: the name is stripped of its global-namespace prefix, and a
/// mangle-policy-true kind then mangles it.
pub open spec fn raw_form_of(mangle_policy: bool, s: Seq<char>) -> Seq<char> {
    if mangle_policy {
        mangle::mangled_form(mangle::stripped_form(s))
    } else {
        mangle::stripped_form(s)
    }
}

/// The display form an identifier with the given mangle policy and raw form
/// presents: a mangle-policy-true kind unmangles the raw form on demand; any
/// other kind displays the raw form unchanged.
pub open spec fn display_form_of(mangle_policy: bool, raw: Seq<char>) -> Seq<char> {
    if mangle_policy {
        mangle::unmangled_form(raw)
    } else {
        raw
    }
}

/// The shared contract every identifier kind implements: raw-form access,
/// display-form access, and construction from a surface name. An
/// identifier's bytes live in the region its constructor was handed, and
/// stay valid exactly as long as that region does.
pub trait Id<'arena>: Sized {
    /// Whether this kind stores the mangled canonical form as its raw form.
    /// The policy is fixed per kind; it is true only for classes.
    spec fn mangle_policy() -> bool;

    /// The identifier's stored raw form.
    spec fn raw_view(&self) -> Seq<char>;

    /// Returns the stored canonical bytes with no transformation and no
    /// allocation.
    fn to_raw_string(&self) -> (r: &'arena str)
        ensures
            r@ == self.raw_view(),
    ;

    /// The sole construction path from surface syntax: strips the leading
    /// global-namespace qualifier, applies the kind's mangling policy, and
    /// materializes the result in `alloc`.
    fn from_ast_name(alloc: &'arena bumpalo::Bump, s: &str) -> (r: Self)
        ensures
            r.raw_view() == raw_form_of(Self::mangle_policy(), s@),
    ;

    /// Returns the display form: the raw form, unmangled first when this
    /// kind's mangle policy asks for it.
    fn to_unmangled_str(&self) -> (r: String)
        ensures
            r@ == display_form_of(Self::mangle_policy(), self.raw_view()),
    ;
}

/// Round-trip display law for the mangle-policy-true kind: an identifier
/// built from surface name `n` displays as the stripped surface name —
/// provided the stripped name does not itself begin with the reserved
/// mangled prefix `xhp_`, on which unmangling would not fall back to the
/// input unchanged.
pub proof fn lemma_mangled_kind_display_round_trip(n: Seq<char>)
    requires
        !mangle::has_mangled_prefix(mangle::stripped_form(n)),
    ensures
        display_form_of(true, raw_form_of(true, n)) == mangle::stripped_form(n),
{
    mangle::lemma_display_round_trip(n);
}

/// Raw access is idempotent: any two reads of the same identifier's raw
/// form return the same characters, since `to_raw_string` promises exactly
/// the stored raw form every time.
pub proof fn lemma_raw_access_idempotent<'arena, T: Id<'arena>>(
    id: &T,
    r1: Seq<char>,
    r2: Seq<char>,
)
    requires
        r1 == id.raw_view(),
        r2 == id.raw_view(),
    ensures
        r1 == r2,
{
}

/// Suffixing never mutates previously issued identifiers: when an
/// identifier's raw form grows from `a_old` to `a_new` by a suffix, an
/// independent identifier `b` that read `a_old` still reads `a_old`: the
/// old form survives as a prefix of the new one, and the new form can never
/// coincide with `b` while the suffix is non-empty.
pub proof fn lemma_suffix_non_aliasing(
    a_old: Seq<char>,
    a_new: Seq<char>,
    b: Seq<char>,
    suffix: Seq<char>,
)
    requires
        a_new == a_old + suffix,
        b == a_old,
    ensures
        a_new.subrange(0, b.len() as int) == b,
        suffix.len() > 0 ==> a_new != b,
{
    assert(a_new.subrange(0, b.len() as int) =~= b);
    if suffix.len() > 0 {
        assert(a_new.len() != b.len());
    }
}

} // verus!
