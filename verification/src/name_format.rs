//! Canonicalization of human-supplied names into stable lookup keys.
//!
//! Type names, member names and enum value names are matched
//! case-insensitively and space-insensitively: a name is normalized by
//! removing every space and lowering every ASCII uppercase letter.
//! Dimension-indexed members additionally receive a per-axis suffix.

use vstd::prelude::*;

verus! {

/// One character of a lookup key: ASCII uppercase letters lower, all
/// other characters stay as they are.
pub open spec fn lower_char(c: char) -> char {
    if 65 <= c as u32 && c as u32 <= 90 {
        ((c as u32) + 32) as char
    } else {
        c
    }
}

/// The normalized form of a name: spaces removed, then each remaining
/// character lowered.
pub open spec fn normalize_chars(s: Seq<char>) -> Seq<char>
    decreases s.len(),
{
    if s.len() == 0 {
        Seq::empty()
    } else {
        normalize_chars(s.drop_last()) + (if s.last() == ' ' {
            Seq::<char>::empty()
        } else {
            seq![lower_char(s.last())]
        })
    }
}

/// Relies on String::push: appends the given character to the end of the
/// string.
#[verifier::external_body]
fn push_char(s: &mut String, c: char)
    ensures
        final(s)@ == old(s)@.push(c),
{
    s.push(c)
}

fn lower_char_exec(c: char) -> (r: char)
    ensures
        r == lower_char(c),
{
    let u = c as u32;
    if 65 <= u && u <= 90 {
        ((u + 32) as u8) as char
    } else {
        c
    }
}

/// Normalizes a name into its lookup key: spaces removed, ASCII
/// uppercase letters lowered.
pub fn format_lookup(s: &str) -> (r: String)
    ensures
        r@ == normalize_chars(s@),
{
    let n = s.unicode_len();
    let mut out = String::new();
    let mut i: usize = 0;
    while i < n
        invariant
            n == s@.len(),
            i <= n,
            out@ == normalize_chars(s@.take(i as int)),
        decreases n - i,
    {
        let c = s.get_char(i);
        if c != ' ' {
            let l = lower_char_exec(c);
            push_char(&mut out, l);
        }
        proof {
            assert(s@.take(i + 1 as int).drop_last() =~= s@.take(i as int));
            assert(s@.take(i + 1 as int).last() == s@[i as int]);
            if s@[i as int] == ' ' {
                assert(normalize_chars(s@.take(i + 1 as int)) =~= normalize_chars(
                    s@.take(i as int),
                ));
            } else {
                assert(normalize_chars(s@.take(i + 1 as int)) =~= normalize_chars(
                    s@.take(i as int),
                ).push(lower_char(s@[i as int])));
            }
        }
        i += 1;
    }
    proof {
        assert(s@.take(n as int) =~= s@);
    }
    out
}

/// The per-axis suffix for a dimension-indexed member: dimensions one
/// through four map to the axis letters, anything else adds nothing.
pub open spec fn dim_suffix(dim: i32) -> Seq<char> {
    if dim == 1 {
        seq!['x']
    } else if dim == 2 {
        seq!['y']
    } else if dim == 3 {
        seq!['z']
    } else if dim == 4 {
        seq!['w']
    } else {
        Seq::empty()
    }
}

/// Appends the axis suffix for the given dimension index to a member
/// name, so that each component of a multi-dimensional member gets its
/// own key.
pub fn format_dimension_member(s: &str, dim: i32) -> (r: String)
    ensures
        r@ == s@ + dim_suffix(dim),
{
    let out = String::from_str(s);
    let r = if dim == 1 {
        proof {
            reveal_strlit("x");
        }
        out.concat("x")
    } else if dim == 2 {
        proof {
            reveal_strlit("y");
        }
        out.concat("y")
    } else if dim == 3 {
        proof {
            reveal_strlit("z");
        }
        out.concat("z")
    } else if dim == 4 {
        proof {
            reveal_strlit("w");
        }
        out.concat("w")
    } else {
        out
    };
    proof {
        assert(r@ =~= s@ + dim_suffix(dim));
    }
    r
}

proof fn lemma_lower_char_fixed(c: char)
    ensures
        lower_char(lower_char(c)) == lower_char(c),
        c != ' ' ==> lower_char(c) != ' ',
{
}

pub proof fn lemma_normalize_chars_shape(s: Seq<char>)
    ensures
        forall|i: int|
            0 <= i < normalize_chars(s).len() ==> normalize_chars(s)[i] != ' '
                && lower_char(#[trigger] normalize_chars(s)[i]) == normalize_chars(s)[i],
    decreases s.len(),
{
    if s.len() > 0 {
        lemma_normalize_chars_shape(s.drop_last());
        lemma_lower_char_fixed(s.last());
        let pre = normalize_chars(s.drop_last());
        let whole = normalize_chars(s);
        assert forall|i: int| 0 <= i < whole.len() implies whole[i] != ' ' && lower_char(
            #[trigger] whole[i],
        ) == whole[i] by {
            if i < pre.len() {
                assert(whole[i] == pre[i]);
            } else {
                assert(s.last() != ' ');
                assert(whole[i] == lower_char(s.last()));
            }
        }
    }
}

pub proof fn lemma_normalize_chars_of_fixed(s: Seq<char>)
    requires
        forall|i: int|
            0 <= i < s.len() ==> s[i] != ' ' && lower_char(#[trigger] s[i]) == s[i],
    ensures
        normalize_chars(s) == s,
    decreases s.len(),
{
    if s.len() > 0 {
        lemma_normalize_chars_of_fixed(s.drop_last());
        assert(normalize_chars(s) =~= s);
    } else {
        assert(normalize_chars(s) =~= s);
    }
}

/// Normalization is case-insensitive: two names whose characters agree
/// after lowering — so names differing only in ASCII letter case —
/// normalize to the same key.
pub proof fn lemma_normalize_case_insensitive(a: Seq<char>, b: Seq<char>)
    requires
        a.len() == b.len(),
        forall|i: int| 0 <= i < a.len() ==> lower_char(#[trigger] a[i]) == lower_char(b[i]),
    ensures
        normalize_chars(a) == normalize_chars(b),
    decreases a.len(),
{
    if a.len() > 0 {
        lemma_normalize_case_insensitive(a.drop_last(), b.drop_last());
        lemma_lower_char_fixed(a.last());
        lemma_lower_char_fixed(b.last());
        assert(lower_char(a.last()) == lower_char(b.last()));
        if a.last() == ' ' {
            assert(lower_char(b.last()) == ' ');
            assert(b.last() == ' ') by {
                if b.last() != ' ' {
                    assert(lower_char(b.last()) != ' ');
                }
            }
        } else {
            assert(lower_char(a.last()) != ' ');
            assert(b.last() != ' ');
        }
    }
}

/// Appending a space changes nothing of a name's normalized form.
pub proof fn lemma_normalize_trailing_space(s: Seq<char>)
    ensures
        normalize_chars(s.push(' ')) == normalize_chars(s),
{
    assert(s.push(' ').drop_last() =~= s);
}

/// Normalization is idempotent: normalizing a name a second time leaves
/// it as it is, because a normalized name holds no spaces and no ASCII
/// uppercase letters.
pub proof fn lemma_normalize_idempotent(s: Seq<char>)
    ensures
        normalize_chars(normalize_chars(s)) == normalize_chars(s),
{
    lemma_normalize_chars_shape(s);
    lemma_normalize_chars_of_fixed(normalize_chars(s));
}

} // verus!
