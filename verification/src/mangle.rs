//! The name-mangling transform and its inverse, together with the
//! global-namespace stripping that every identifier kind applies.
//!
//! A surface name that begins with `':'` is mangled: the leading `':'` is
//! replaced by the prefix `xhp_`, and in the rest of the name `':'` and `'_'`
//! trade places. Unmangling recognises the `xhp_` prefix and undoes both
//! steps; on any other input it returns the name unchanged.

use vstd::prelude::*;
use vstd::string::StrSliceExecFns;
use vstd::string::StringExecFns;

use crate::swap_mangle_char;

verus! {

broadcast use vstd::string::group_string_axioms;

/// A surface name is subject to mangling exactly when it begins with `':'`.
pub open spec fn is_mangle_subject(s: Seq<char>) -> bool {
    s.len() > 0 && s[0] == ':'
}

/// A name carries the mangled prefix when it begins with `xhp_`.
pub open spec fn has_mangled_prefix(s: Seq<char>) -> bool {
    s.len() >= 4 && s[0] == 'x' && s[1] == 'h' && s[2] == 'p' && s[3] == '_'
}

/// What `mangle` returns: the canonical internal form of a surface name.
pub open spec fn mangled_form(s: Seq<char>) -> Seq<char> {
    if is_mangle_subject(s) {
        seq!['x', 'h', 'p', '_'] + s.subrange(1, s.len() as int).map_values(
            |c: char| swap_mangle_char(c),
        )
    } else {
        s
    }
}

/// What `unmangle` returns: the best-effort inverse of `mangled_form`.
pub open spec fn unmangled_form(s: Seq<char>) -> Seq<char> {
    if has_mangled_prefix(s) {
        seq![':'] + s.subrange(4, s.len() as int).map_values(|c: char| swap_mangle_char(c))
    } else {
        s
    }
}

/// What `strip_global_ns` returns: the name with every leading `'\\'` removed.
pub open spec fn stripped_form(s: Seq<char>) -> Seq<char>
    decreases s.len(),
{
    if s.len() > 0 && s[0] == '\\' {
        stripped_form(s.subrange(1, s.len() as int))
    } else {
        s
    }
}

/// Builds the tail of a mangled or unmangled name: the characters of `s`
/// from position `from` on, with `':'` and `'_'` swapped.
fn swap_tail(s: &str, from: usize) -> (r: String)
    requires
        from <= s@.len(),
    ensures
        r@ == s@.subrange(from as int, s@.len() as int).map_values(
            |c: char| swap_mangle_char(c),
        ),
{
    let len: usize = s.unicode_len();
    let mut r = String::new();
    let mut i: usize = from;
    while i < len
        invariant
            from <= i <= len,
            len == s@.len(),
            r@ == s@.subrange(from as int, i as int).map_values(
                |c: char| swap_mangle_char(c),
            ),
        decreases len - i,
    {
        let ghost r0 = r@;
        let c = s.get_char(i);
        if c == ':' {
            r.append("_");
            proof {
                reveal_strlit("_");
                assert(r@ =~= r0.push('_'));
            }
        } else if c == '_' {
            r.append(":");
            proof {
                reveal_strlit(":");
                assert(r@ =~= r0.push(':'));
            }
        } else {
            let piece = s.substring_char(i, i + 1);
            proof {
                assert(piece@ =~= seq![s@[i as int]]);
            }
            r.append(piece);
            proof {
                assert(r@ =~= r0.push(s@[i as int]));
            }
        }
        proof {
            assert(r@ =~= r0.push(swap_mangle_char(s@[i as int])));
            assert(s@.subrange(from as int, (i + 1) as int) =~= s@.subrange(
                from as int,
                i as int,
            ).push(s@[i as int]));
            assert(r@ =~= s@.subrange(from as int, (i + 1) as int).map_values(
                |c: char| swap_mangle_char(c),
            ));
        }
        i = i + 1;
    }
    r
}

/// Removes every leading global-namespace separator `'\\'` from a name.
/// The result is a slice of the input, valid as long as the input is.
pub fn strip_global_ns(s: &str) -> (r: &str)
    ensures
        r@ == stripped_form(s@),
{
    let len: usize = s.unicode_len();
    let mut i: usize = 0;
    while i < len && s.get_char(i) == '\\'
        invariant
            0 <= i <= len,
            len == s@.len(),
            forall|j: int| 0 <= j < i ==> s@[j] == '\\',
        decreases len - i,
    {
        i = i + 1;
    }
    proof {
        lemma_stripped_form_skip(s@, i as int);
    }
    s.substring_char(i, len)
}

/// Mangles a surface name into its canonical internal form: a name that
/// begins with `':'` gets the `xhp_` prefix and a swapped body; any other
/// name is returned unchanged.
pub fn mangle(s: &str) -> (r: String)
    ensures
        r@ == mangled_form(s@),
{
    proof {
        reveal_strlit("xhp_");
    }
    let len: usize = s.unicode_len();
    if len > 0 && s.get_char(0) == ':' {
        let mut r = String::from_str("xhp_");
        let tail = swap_tail(s, 1);
        r.append(tail.as_str());
        proof {
            assert(r@ =~= mangled_form(s@));
        }
        r
    } else {
        s.to_owned()
    }
}

/// Unmangles a canonical internal form back to its surface spelling. On a
/// name that does not carry the mangled prefix, the input comes back
/// unchanged: a silent fallback, not an error.
pub fn unmangle(s: &str) -> (r: String)
    ensures
        r@ == unmangled_form(s@),
{
    proof {
        reveal_strlit(":");
    }
    let len: usize = s.unicode_len();
    if len >= 4 && s.get_char(0) == 'x' && s.get_char(1) == 'h' && s.get_char(2) == 'p'
        && s.get_char(3) == '_' {
        let mut r = String::from_str(":");
        let tail = swap_tail(s, 4);
        r.append(tail.as_str());
        proof {
            assert(r@ =~= unmangled_form(s@));
        }
        r
    } else {
        s.to_owned()
    }
}

proof fn lemma_stripped_form_skip(s: Seq<char>, i: int)
    requires
        0 <= i <= s.len(),
        forall|j: int| 0 <= j < i ==> s[j] == '\\',
        i == s.len() || s[i] != '\\',
    ensures
        stripped_form(s) == s.subrange(i, s.len() as int),
    decreases i,
{
    if i == 0 {
        assert(s.subrange(0, s.len() as int) =~= s);
    } else {
        let t = s.subrange(1, s.len() as int);
        assert(s[0] == '\\');
        assert(forall|j: int| 0 <= j < i - 1 ==> t[j] == '\\');
        lemma_stripped_form_skip(t, i - 1);
        assert(t.subrange(i - 1, t.len() as int) =~= s.subrange(i, s.len() as int));
    }
}

/// Every identifier kind strips the global-namespace prefix on construction:
/// a stripped name never begins with the separator `'\\'`.
pub proof fn lemma_stripped_no_leading_separator(s: Seq<char>)
    ensures
        stripped_form(s).len() == 0 || stripped_form(s)[0] != '\\',
    decreases s.len(),
{
    if s.len() > 0 && s[0] == '\\' {
        lemma_stripped_no_leading_separator(s.subrange(1, s.len() as int));
    }
}

proof fn lemma_swap_map_involution(s: Seq<char>)
    ensures
        s.map_values(|c: char| swap_mangle_char(c)).map_values(
            |c: char| swap_mangle_char(c),
        ) == s,
{
    assert(s.map_values(|c: char| swap_mangle_char(c)).map_values(
        |c: char| swap_mangle_char(c),
    ) =~= s);
}

/// Round-trip law for display: a surface name, once stripped of its
/// global-namespace prefix, survives mangling followed by unmangling
/// unchanged — provided the stripped name does not itself begin with the
/// reserved mangled prefix `xhp_`.
pub proof fn lemma_display_round_trip(n: Seq<char>)
    requires
        !has_mangled_prefix(stripped_form(n)),
    ensures
        unmangled_form(mangled_form(stripped_form(n))) == stripped_form(n),
{
    let t = stripped_form(n);
    if is_mangle_subject(t) {
        let m = mangled_form(t);
        let tail = t.subrange(1, t.len() as int);
        assert(m[0] == 'x' && m[1] == 'h' && m[2] == 'p' && m[3] == '_');
        assert(has_mangled_prefix(m));
        assert(m.subrange(4, m.len() as int) =~= tail.map_values(
            |c: char| swap_mangle_char(c),
        ));
        lemma_swap_map_involution(tail);
        assert(unmangled_form(m) =~= t);
    }
}

} // verus!
