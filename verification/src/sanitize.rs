//! Hostname sanitizer: turns an arbitrary hostname or IP address into an
//! identifier that is safe to embed in an SSH key file name.
//!
//! Every character outside `[A-Za-z0-9_-]` is replaced by `_`, runs of
//! consecutive `_` are collapsed to a single `_`, and leading and trailing
//! `_` are stripped.

use crate::chars::string_from_chars;
use vstd::prelude::*;

verus! {

/// A character the sanitizer keeps as it is: ASCII alphanumeric, `-` or `_`.
pub open spec fn is_safe_char(c: char) -> bool {
    (97 <= c as u32 && c as u32 <= 122)  // 'a' ..= 'z'
    || (65 <= c as u32 && c as u32 <= 90)  // 'A' ..= 'Z'
    || (48 <= c as u32 && c as u32 <= 57)  // '0' ..= '9'
    || c == '-' || c == '_'
}

/// First pass: keep safe characters, replace every other one by `_`.
pub open spec fn map_char(c: char) -> char {
    if is_safe_char(c) {
        c
    } else {
        '_'
    }
}

pub open spec fn mapped(s: Seq<char>) -> Seq<char> {
    s.map_values(|c: char| map_char(c))
}

/// Second pass over an already-mapped sequence, built up from the left:
/// drops leading underscores and collapses every interior run of
/// underscores to a single one. The result may still end in one `_`.
pub open spec fn scan(t: Seq<char>) -> Seq<char>
    decreases t.len(),
{
    if t.len() == 0 {
        Seq::<char>::empty()
    } else {
        let p = scan(t.drop_last());
        let c = t.last();
        if c != '_' {
            p.push(c)
        } else if p.len() > 0 && p.last() != '_' {
            p.push('_')
        } else {
            p
        }
    }
}

/// The sanitized form of `s`: map, collapse, then strip the one trailing
/// underscore the scan may leave.
pub open spec fn sanitize_spec(s: Seq<char>) -> Seq<char> {
    let u = scan(mapped(s));
    if u.len() > 0 && u.last() == '_' {
        u.drop_last()
    } else {
        u
    }
}

/// A sequence in sanitized shape: only safe characters, no two adjacent
/// underscores, and no underscore at either end.
pub open spec fn is_sanitized(r: Seq<char>) -> bool {
    &&& forall|i: int| 0 <= i < r.len() ==> is_safe_char(#[trigger] r[i])
    &&& forall|i: int| 0 <= i < r.len() - 1 ==> !(#[trigger] r[i] == '_' && r[i + 1] == '_')
    &&& r.len() > 0 ==> r[0] != '_' && r[r.len() - 1] != '_'
}

proof fn lemma_scan_shape(t: Seq<char>)
    requires
        forall|i: int| 0 <= i < t.len() ==> is_safe_char(#[trigger] t[i]),
    ensures
        forall|i: int| 0 <= i < scan(t).len() ==> is_safe_char(#[trigger] scan(t)[i]),
        forall|i: int|
            0 <= i < scan(t).len() - 1 ==> !(#[trigger] scan(t)[i] == '_' && scan(t)[i + 1] == '_'),
        scan(t).len() > 0 ==> scan(t)[0] != '_',
    decreases t.len(),
{
    if t.len() > 0 {
        lemma_scan_shape(t.drop_last());
    }
}

/// The sanitized form of any string is in sanitized shape: it holds only
/// characters of `[A-Za-z0-9_-]`, never two underscores in a row, and never
/// an underscore first or last.
pub proof fn lemma_sanitize_shape(s: Seq<char>)
    ensures
        is_sanitized(sanitize_spec(s)),
{
    let t = mapped(s);
    assert(forall|i: int| 0 <= i < t.len() ==> is_safe_char(#[trigger] t[i]));
    lemma_scan_shape(t);
    let u = scan(t);
    if u.len() > 0 && u.last() == '_' {
        let r = u.drop_last();
        assert(forall|i: int| 0 <= i < r.len() ==> r[i] == u[i]);
        if r.len() > 0 {
            assert(r[r.len() - 1] != '_') by {
                assert(!(u[r.len() - 1] == '_' && u[r.len() - 1 + 1] == '_'));
            }
        }
    }
}

/// A sequence already in sanitized shape passes the scan unchanged.
proof fn lemma_scan_fixed(t: Seq<char>)
    requires
        t.len() > 0 ==> t[0] != '_',
        forall|i: int| 0 <= i < t.len() - 1 ==> !(#[trigger] t[i] == '_' && t[i + 1] == '_'),
    ensures
        scan(t) == t,
    decreases t.len(),
{
    if t.len() == 0 {
        assert(scan(t) =~= t);
    } else {
        let p = t.drop_last();
        lemma_scan_fixed(p);
        let c = t.last();
        if c != '_' {
            assert(scan(t) =~= t);
        } else {
            // `t` does not start with `_`, so a final `_` is not first:
            // `p` is nonempty, and its last character is not `_` because
            // `t` holds no two adjacent underscores.
            assert(t.len() >= 2);
            assert(!(t[t.len() - 2] == '_' && t[t.len() - 2 + 1] == '_'));
            assert(p.last() != '_');
            assert(scan(t) =~= t);
        }
    }
}

/// Sanitizing is idempotent: a second pass changes nothing.
pub proof fn lemma_sanitize_idempotent(s: Seq<char>)
    ensures
        sanitize_spec(sanitize_spec(s)) == sanitize_spec(s),
{
    let r = sanitize_spec(s);
    lemma_sanitize_shape(s);
    assert(mapped(r) =~= r);
    lemma_scan_fixed(r);
    if r.len() > 0 {
        assert(r.last() != '_');
    }
}

/// Produces the key-path-safe form of `hostname`: characters outside
/// `[A-Za-z0-9_-]` become `_`, runs of `_` collapse to one, and leading and
/// trailing `_` are removed. Total over all inputs; pure and deterministic.
pub fn sanitize_hostname(hostname: &str) -> (r: String)
    ensures
        r@ == sanitize_spec(hostname@),
        is_sanitized(r@),
{
    let ghost s = hostname@;
    let n = hostname.unicode_len();
    let mut out: Vec<char> = Vec::new();
    let mut i: usize = 0;
    proof {
        assert(mapped(s).take(0) =~= Seq::<char>::empty());
    }
    while i < n
        invariant
            n == s.len(),
            s == hostname@,
            i <= n,
            out@ == scan(mapped(s).take(i as int)),
        decreases n - i,
    {
        let c = hostname.get_char(i);
        let u = c as u32;
        let m: char = if (97 <= u && u <= 122) || (65 <= u && u <= 90) || (48 <= u && u <= 57)
            || c == '-' || c == '_' {
            c
        } else {
            '_'
        };
        proof {
            assert(m == map_char(s[i as int]));
            assert(mapped(s).take((i + 1) as int).drop_last() =~= mapped(s).take(i as int));
            assert(mapped(s).take((i + 1) as int).last() == m);
        }
        if m != '_' {
            out.push(m);
        } else if out.len() > 0 {
            let last = out[out.len() - 1];
            if last != '_' {
                out.push('_');
            }
        }
        i = i + 1;
    }
    proof {
        assert(mapped(s).take(n as int) =~= mapped(s));
    }
    if out.len() > 0 {
        let last = out[out.len() - 1];
        if last == '_' {
            out.pop();
        }
    }
    proof {
        lemma_sanitize_shape(s);
    }
    string_from_chars(&out)
}

} // verus!
