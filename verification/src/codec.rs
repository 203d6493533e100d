//! The textual format of the config file: a JSON object whose members are
//! the four fields of [`crate::config::DeployConfig`], each a string or
//! `null`; a field left out counts as `null`.
//!
//! Both directions are verified: [`config_to_json`] renders the canonical
//! text, [`parse_config`] accepts the schema (any field order, any
//! whitespace, the usual string escapes), and [`lemma_config_round_trip`]
//! proves that parsing a rendered record gives the record back.

use crate::chars::{chars_vec, eq_str, push_chars_of, string_from_chars};
use crate::config::{view_opt, ConfigModel, DeployConfig};
use crate::errors::DeployError;
use vstd::prelude::*;

verus! {

// ---------------------------------------------------------------------
// The rendered text, as a spec-level function of the model.
// ---------------------------------------------------------------------
pub open spec fn is_control(c: char) -> bool {
    (c as u32) < 32
}

pub open spec fn hex_char(n: int) -> char {
    if n == 0 {
        '0'
    } else if n == 1 {
        '1'
    } else if n == 2 {
        '2'
    } else if n == 3 {
        '3'
    } else if n == 4 {
        '4'
    } else if n == 5 {
        '5'
    } else if n == 6 {
        '6'
    } else if n == 7 {
        '7'
    } else if n == 8 {
        '8'
    } else if n == 9 {
        '9'
    } else if n == 10 {
        'a'
    } else if n == 11 {
        'b'
    } else if n == 12 {
        'c'
    } else if n == 13 {
        'd'
    } else if n == 14 {
        'e'
    } else {
        'f'
    }
}

/// How one character is written inside a JSON string literal.
pub open spec fn esc_char(c: char) -> Seq<char> {
    if c == '"' {
        seq!['\\', '"']
    } else if c == '\\' {
        seq!['\\', '\\']
    } else if c == '\n' {
        seq!['\\', 'n']
    } else if c == '\r' {
        seq!['\\', 'r']
    } else if c == '\t' {
        seq!['\\', 't']
    } else if is_control(c) {
        seq!['\\', 'u', '0', '0', hex_char((c as u32) as int / 16), hex_char((c as u32) as int % 16)]
    } else {
        seq![c]
    }
}

pub open spec fn escaped(s: Seq<char>) -> Seq<char>
    decreases s.len(),
{
    if s.len() == 0 {
        Seq::<char>::empty()
    } else {
        esc_char(s[0]) + escaped(s.drop_first())
    }
}

pub open spec fn null_seq() -> Seq<char> {
    seq!['n', 'u', 'l', 'l']
}

pub open spec fn field_text(v: Option<Seq<char>>) -> Seq<char> {
    match v {
        None => null_seq(),
        Some(s) => seq!['"'] + escaped(s) + seq!['"'],
    }
}

pub open spec fn key_seq(k: int) -> Seq<char> {
    if k == 0 {
        "target_arch"@
    } else if k == 1 {
        "target_dest"@
    } else if k == 2 {
        "target_name"@
    } else {
        "target_user"@
    }
}

pub open spec fn member_text(k: int, v: Option<Seq<char>>) -> Seq<char> {
    seq!['\n', ' ', ' ', '"'] + key_seq(k) + seq!['"', ':', ' '] + field_text(v)
}

/// The canonical rendering of a config record.
pub open spec fn json_of(m: ConfigModel) -> Seq<char> {
    seq!['{'] + member_text(0, m.arch) + seq![','] + member_text(1, m.dest) + seq![',']
        + member_text(2, m.name) + seq![','] + member_text(3, m.user) + seq!['\n', '}']
}

// ---------------------------------------------------------------------
// Rendering, executably.
// ---------------------------------------------------------------------
fn hex_char_x(n: u32) -> (c: char)
    requires
        n < 16,
    ensures
        c == hex_char(n as int),
{
    if n == 0 {
        '0'
    } else if n == 1 {
        '1'
    } else if n == 2 {
        '2'
    } else if n == 3 {
        '3'
    } else if n == 4 {
        '4'
    } else if n == 5 {
        '5'
    } else if n == 6 {
        '6'
    } else if n == 7 {
        '7'
    } else if n == 8 {
        '8'
    } else if n == 9 {
        '9'
    } else if n == 10 {
        'a'
    } else if n == 11 {
        'b'
    } else if n == 12 {
        'c'
    } else if n == 13 {
        'd'
    } else if n == 14 {
        'e'
    } else {
        'f'
    }
}

proof fn lemma_escaped_append(a: Seq<char>, b: Seq<char>)
    ensures
        escaped(a + b) == escaped(a) + escaped(b),
    decreases a.len(),
{
    if a.len() == 0 {
        assert(a + b =~= b);
        assert(escaped(a) + escaped(b) =~= escaped(b));
    } else {
        assert((a + b).drop_first() =~= a.drop_first() + b);
        lemma_escaped_append(a.drop_first(), b);
        assert(esc_char(a[0]) + (escaped(a.drop_first()) + escaped(b)) =~= (esc_char(a[0])
            + escaped(a.drop_first())) + escaped(b));
    }
}

proof fn lemma_escaped_one(c: char)
    ensures
        escaped(seq![c]) == esc_char(c),
{
    assert(seq![c].drop_first() =~= Seq::<char>::empty());
    assert(escaped(Seq::<char>::empty()) == Seq::<char>::empty());
    assert(seq![c][0] == c);
    assert(esc_char(c) + Seq::<char>::empty() =~= esc_char(c));
}

fn push_escaped(out: &mut Vec<char>, s: &Vec<char>)
    ensures
        final(out)@ == old(out)@ + escaped(s@),
{
    proof {
        assert(s@.take(0) =~= Seq::<char>::empty());
        assert(out@ + escaped(s@.take(0)) =~= out@);
    }
    let n = s.len();
    let mut i: usize = 0;
    while i < n
        invariant
            n == s@.len(),
            i <= n,
            out@ == old(out)@ + escaped(s@.take(i as int)),
        decreases n - i,
    {
        let ghost prev = out@;
        let c = s[i];
        if c == '"' {
            out.push('\\');
            out.push('"');
        } else if c == '\\' {
            out.push('\\');
            out.push('\\');
        } else if c == '\n' {
            out.push('\\');
            out.push('n');
        } else if c == '\r' {
            out.push('\\');
            out.push('r');
        } else if c == '\t' {
            out.push('\\');
            out.push('t');
        } else {
            let u = c as u32;
            if u < 32 {
                out.push('\\');
                out.push('u');
                out.push('0');
                out.push('0');
                out.push(hex_char_x(u / 16));
                out.push(hex_char_x(u % 16));
            } else {
                out.push(c);
            }
        }
        proof {
            assert(out@ =~= prev + esc_char(c));
            lemma_escaped_append(s@.take(i as int), seq![c]);
            lemma_escaped_one(c);
            assert(s@.take((i + 1) as int) =~= s@.take(i as int) + seq![c]);
            assert(old(out)@ + escaped(s@.take((i + 1) as int)) =~= (old(out)@ + escaped(
                s@.take(i as int),
            )) + esc_char(c));
        }
        i = i + 1;
    }
    proof {
        assert(s@.take(n as int) =~= s@);
    }
}

fn push_member(out: &mut Vec<char>, k: u8, v: &Option<String>)
    requires
        k < 4,
    ensures
        final(out)@ == old(out)@ + member_text(k as int, view_opt(*v)),
{
    out.push('\n');
    out.push(' ');
    out.push(' ');
    out.push('"');
    if k == 0 {
        push_chars_of(out, "target_arch");
    } else if k == 1 {
        push_chars_of(out, "target_dest");
    } else if k == 2 {
        push_chars_of(out, "target_name");
    } else {
        push_chars_of(out, "target_user");
    }
    out.push('"');
    out.push(':');
    out.push(' ');
    match v {
        None => {
            out.push('n');
            out.push('u');
            out.push('l');
            out.push('l');
        },
        Some(s) => {
            out.push('"');
            let cs = chars_vec(s.as_str());
            push_escaped(out, &cs);
            out.push('"');
        },
    }
    proof {
        assert(out@ =~= old(out)@ + member_text(k as int, view_opt(*v)));
    }
}

/// Renders `c` in the canonical config file form.
pub fn config_to_json(c: &DeployConfig) -> (s: String)
    ensures
        s@ == json_of(c@),
{
    let mut out: Vec<char> = Vec::new();
    out.push('{');
    push_member(&mut out, 0, &c.target_arch);
    out.push(',');
    push_member(&mut out, 1, &c.target_dest);
    out.push(',');
    push_member(&mut out, 2, &c.target_name);
    out.push(',');
    push_member(&mut out, 3, &c.target_user);
    out.push('\n');
    out.push('}');
    proof {
        assert(out@ =~= json_of(c@));
    }
    string_from_chars(&out)
}

// ---------------------------------------------------------------------
// The accepted grammar, as spec-level parsing functions. Each returns the
// parsed value together with the index just past what it consumed.
// ---------------------------------------------------------------------
pub open spec fn is_ws(c: char) -> bool {
    c == ' ' || c == '\n' || c == '\t' || c == '\r'
}

pub open spec fn skip_ws(s: Seq<char>, i: int) -> int
    decreases s.len() - i when 0 <= i <= s.len()
{
    if i < s.len() && is_ws(s[i]) {
        skip_ws(s, i + 1)
    } else {
        i
    }
}

pub open spec fn hex_val(c: char) -> Option<int> {
    let u = c as u32;
    if 48 <= u && u <= 57 {
        Some(u - 48)
    } else if 97 <= u && u <= 102 {
        Some(u - 87)
    } else if 65 <= u && u <= 70 {
        Some(u - 55)
    } else {
        None
    }
}

/// The character a short escape (the letter after `\`) stands for.
pub open spec fn unescape(e: char) -> Option<char> {
    if e == '"' {
        Some('"')
    } else if e == '\\' {
        Some('\\')
    } else if e == '/' {
        Some('/')
    } else if e == 'b' {
        Some(8u8 as char)
    } else if e == 'f' {
        Some(12u8 as char)
    } else if e == 'n' {
        Some('\n')
    } else if e == 'r' {
        Some('\r')
    } else if e == 't' {
        Some('\t')
    } else {
        None
    }
}

/// Parses the inside of a JSON string literal, starting just after the
/// opening quote; stops just after the closing quote. `\uXXXX` escapes are
/// accepted for the ASCII range, which covers every escape the renderer
/// writes.
pub open spec fn parse_string_body(s: Seq<char>, i: int) -> Option<(Seq<char>, int)>
    decreases s.len() - i when 0 <= i <= s.len()
{
    if i >= s.len() {
        None
    } else if s[i] == '"' {
        Some((Seq::<char>::empty(), i + 1))
    } else if s[i] == '\\' {
        if i + 1 >= s.len() {
            None
        } else if s[i + 1] == 'u' {
            if i + 6 > s.len() {
                None
            } else {
                match (hex_val(s[i + 2]), hex_val(s[i + 3]), hex_val(s[i + 4]), hex_val(s[i + 5])) {
                    (Some(d1), Some(d2), Some(d3), Some(d4)) => {
                        let v = d1 * 4096 + d2 * 256 + d3 * 16 + d4;
                        if v < 128 {
                            match parse_string_body(s, i + 6) {
                                Some((rest, j)) => Some((seq![(v as u8) as char] + rest, j)),
                                None => None,
                            }
                        } else {
                            None
                        }
                    },
                    _ => None,
                }
            }
        } else {
            match unescape(s[i + 1]) {
                Some(c) => match parse_string_body(s, i + 2) {
                    Some((rest, j)) => Some((seq![c] + rest, j)),
                    None => None,
                },
                None => None,
            }
        }
    } else if is_control(s[i]) {
        None
    } else {
        match parse_string_body(s, i + 1) {
            Some((rest, j)) => Some((seq![s[i]] + rest, j)),
            None => None,
        }
    }
}

/// Parses a field value: a string literal or `null`.
pub open spec fn parse_value(s: Seq<char>, i: int) -> Option<(Option<Seq<char>>, int)> {
    if 0 <= i && i < s.len() && s[i] == '"' {
        match parse_string_body(s, i + 1) {
            Some((cs, j)) => Some((Some(cs), j)),
            None => None,
        }
    } else if 0 <= i && i + 4 <= s.len() && s.subrange(i, i + 4) == null_seq() {
        Some((None, i + 4))
    } else {
        None
    }
}

/// Which config field a parsed key names.
pub open spec fn which_key(k: Seq<char>) -> Option<int> {
    if k == key_seq(0) {
        Some(0)
    } else if k == key_seq(1) {
        Some(1)
    } else if k == key_seq(2) {
        Some(2)
    } else if k == key_seq(3) {
        Some(3)
    } else {
        None
    }
}

/// One parsed `"key": value` member.
pub struct MemberP {
    pub key: int,
    pub val: Option<Seq<char>>,
    pub end: int,
}

pub open spec fn parse_member(s: Seq<char>, i: int) -> Option<MemberP> {
    let i1 = skip_ws(s, i);
    if i1 < s.len() && s[i1] == '"' {
        match parse_string_body(s, i1 + 1) {
            Some((key, j)) => match which_key(key) {
                Some(k) => {
                    let i2 = skip_ws(s, j);
                    if i2 < s.len() && s[i2] == ':' {
                        let i3 = skip_ws(s, i2 + 1);
                        match parse_value(s, i3) {
                            Some((v, j2)) => Some(MemberP { key: k, val: v, end: j2 }),
                            None => None,
                        }
                    } else {
                        None
                    }
                },
                None => None,
            },
            None => None,
        }
    } else {
        None
    }
}

/// The fields gathered while walking the members; `None` means not seen yet.
pub struct SlotsM {
    pub arch: Option<Option<Seq<char>>>,
    pub dest: Option<Option<Seq<char>>>,
    pub name: Option<Option<Seq<char>>>,
    pub user: Option<Option<Seq<char>>>,
}

/// Files a member under its key; a key seen twice is an error.
pub open spec fn place_s(sl: SlotsM, k: int, val: Option<Seq<char>>) -> Option<SlotsM> {
    if k == 0 {
        if sl.arch is Some {
            None
        } else {
            Some(SlotsM { arch: Some(val), ..sl })
        }
    } else if k == 1 {
        if sl.dest is Some {
            None
        } else {
            Some(SlotsM { dest: Some(val), ..sl })
        }
    } else if k == 2 {
        if sl.name is Some {
            None
        } else {
            Some(SlotsM { name: Some(val), ..sl })
        }
    } else if k == 3 {
        if sl.user is Some {
            None
        } else {
            Some(SlotsM { user: Some(val), ..sl })
        }
    } else {
        None
    }
}

pub open spec fn empty_slots() -> SlotsM {
    SlotsM { arch: None, dest: None, name: None, user: None }
}

/// The record the gathered fields describe; a field that never appeared
/// counts as null.
pub open spec fn model_of_slots(sl: SlotsM) -> ConfigModel {
    ConfigModel {
        arch: match sl.arch {
            Some(a) => a,
            None => None,
        },
        dest: match sl.dest {
            Some(d) => d,
            None => None,
        },
        name: match sl.name {
            Some(n) => n,
            None => None,
        },
        user: match sl.user {
            Some(u) => u,
            None => None,
        },
    }
}

/// After one member: either `, member` again (at most `budget` more times)
/// or the closing brace.
pub open spec fn parse_rest(s: Seq<char>, i: int, sl: SlotsM, budget: nat) -> Option<(SlotsM, int)>
    decreases budget,
{
    let j = skip_ws(s, i);
    if j < s.len() && s[j] == ',' {
        if budget == 0 {
            None
        } else {
            match parse_member(s, j + 1) {
                Some(m) => match place_s(sl, m.key, m.val) {
                    Some(sl2) => parse_rest(s, m.end, sl2, (budget - 1) as nat),
                    None => None,
                },
                None => None,
            }
        }
    } else if j < s.len() && s[j] == '}' {
        Some((sl, j + 1))
    } else {
        None
    }
}

/// The whole accepted grammar: an object whose members are drawn from the
/// four fields, each at most once, in any order, then the end of the text.
/// A field that does not appear is null.
pub open spec fn parse_config_text(s: Seq<char>) -> Option<ConfigModel> {
    let i0 = skip_ws(s, 0);
    if i0 < s.len() && s[i0] == '{' {
        let j0 = skip_ws(s, i0 + 1);
        let body = if j0 < s.len() && s[j0] == '}' {
            Some((empty_slots(), j0 + 1))
        } else {
            match parse_member(s, i0 + 1) {
                Some(m1) => match place_s(empty_slots(), m1.key, m1.val) {
                    Some(s1) => parse_rest(s, m1.end, s1, 3),
                    None => None,
                },
                None => None,
            }
        };
        match body {
            Some((sl, end)) => if skip_ws(s, end) == s.len() {
                Some(model_of_slots(sl))
            } else {
                None
            },
            None => None,
        }
    } else {
        None
    }
}

// ---------------------------------------------------------------------
// Parsing, executably. Each function mirrors its spec counterpart.
// ---------------------------------------------------------------------
pub open spec fn view_opt_chars(o: Option<Vec<char>>) -> Option<Seq<char>> {
    match o {
        Some(v) => Some(v@),
        None => None,
    }
}

fn skip_ws_x(v: &Vec<char>, i: usize) -> (j: usize)
    requires
        i <= v@.len(),
    ensures
        j as int == skip_ws(v@, i as int),
        i <= j <= v@.len(),
    decreases v@.len() - i,
{
    if i < v.len() {
        let c = v[i];
        if c == ' ' || c == '\n' || c == '\t' || c == '\r' {
            return skip_ws_x(v, i + 1);
        }
    }
    i
}

fn hex_val_x(c: char) -> (r: Option<u32>)
    ensures
        match r {
            Some(d) => hex_val(c) == Some(d as int) && d < 16,
            None => hex_val(c) is None,
        },
{
    let u = c as u32;
    if 48 <= u && u <= 57 {
        Some(u - 48)
    } else if 97 <= u && u <= 102 {
        Some(u - 87)
    } else if 65 <= u && u <= 70 {
        Some(u - 55)
    } else {
        None
    }
}

fn unescape_x(e: char) -> (r: Option<char>)
    ensures
        r == unescape(e),
{
    if e == '"' {
        Some('"')
    } else if e == '\\' {
        Some('\\')
    } else if e == '/' {
        Some('/')
    } else if e == 'b' {
        Some(8u8 as char)
    } else if e == 'f' {
        Some(12u8 as char)
    } else if e == 'n' {
        Some('\n')
    } else if e == 'r' {
        Some('\r')
    } else if e == 't' {
        Some('\t')
    } else {
        None
    }
}

fn parse_string_body_x(v: &Vec<char>, i: usize) -> (r: Option<(Vec<char>, usize)>)
    requires
        i <= v@.len(),
    ensures
        match parse_string_body(v@, i as int) {
            Some(p) => match r {
                Some(q) => q.0@ == p.0 && q.1 as int == p.1 && i < q.1 <= v@.len(),
                None => false,
            },
            None => r is None,
        },
    decreases v@.len() - i,
{
    if i >= v.len() {
        return None;
    }
    let c = v[i];
    if c == '"' {
        return Some((Vec::new(), i + 1));
    }
    if c == '\\' {
        if v.len() - i < 2 {
            return None;
        }
        let e = v[i + 1];
        if e == 'u' {
            if v.len() - i < 6 {
                return None;
            }
            let d1 = match hex_val_x(v[i + 2]) {
                Some(d) => d,
                None => {
                    return None;
                },
            };
            let d2 = match hex_val_x(v[i + 3]) {
                Some(d) => d,
                None => {
                    return None;
                },
            };
            let d3 = match hex_val_x(v[i + 4]) {
                Some(d) => d,
                None => {
                    return None;
                },
            };
            let d4 = match hex_val_x(v[i + 5]) {
                Some(d) => d,
                None => {
                    return None;
                },
            };
            let val: u32 = d1 * 4096 + d2 * 256 + d3 * 16 + d4;
            if val >= 128 {
                return None;
            }
            match parse_string_body_x(v, i + 6) {
                Some((mut rest, j)) => {
                    let ghost tail = rest@;
                    rest.insert(0, (val as u8) as char);
                    proof {
                        assert(rest@ =~= seq![(val as u8) as char] + tail);
                    }
                    Some((rest, j))
                },
                None => None,
            }
        } else {
            match unescape_x(e) {
                Some(u) => match parse_string_body_x(v, i + 2) {
                    Some((mut rest, j)) => {
                        let ghost tail = rest@;
                        rest.insert(0, u);
                        proof {
                            assert(rest@ =~= seq![u] + tail);
                        }
                        Some((rest, j))
                    },
                    None => None,
                },
                None => None,
            }
        }
    } else {
        let u = c as u32;
        if u < 32 {
            return None;
        }
        match parse_string_body_x(v, i + 1) {
            Some((mut rest, j)) => {
                let ghost tail = rest@;
                rest.insert(0, c);
                proof {
                    assert(rest@ =~= seq![c] + tail);
                }
                Some((rest, j))
            },
            None => None,
        }
    }
}

fn parse_value_x(v: &Vec<char>, i: usize) -> (r: Option<(Option<Vec<char>>, usize)>)
    requires
        i <= v@.len(),
    ensures
        match parse_value(v@, i as int) {
            Some(p) => match r {
                Some(q) => view_opt_chars(q.0) == p.0 && q.1 as int == p.1 && q.1 <= v@.len(),
                None => false,
            },
            None => r is None,
        },
{
    if i < v.len() && v[i] == '"' {
        match parse_string_body_x(v, i + 1) {
            Some((cs, j)) => Some((Some(cs), j)),
            None => None,
        }
    } else if v.len() - i >= 4 && v[i] == 'n' && v[i + 1] == 'u' && v[i + 2] == 'l' && v[i + 3]
        == 'l' {
        proof {
            assert(v@.subrange(i as int, i as int + 4) =~= null_seq());
        }
        Some((None, i + 4))
    } else {
        proof {
            let gi = i as int;
            if 0 <= gi && gi + 4 <= v@.len() && v@.subrange(gi, gi + 4) == null_seq() {
                assert(v@[gi] == v@.subrange(gi, gi + 4)[0]);
                assert(v@[gi + 1] == v@.subrange(gi, gi + 4)[1]);
                assert(v@[gi + 2] == v@.subrange(gi, gi + 4)[2]);
                assert(v@[gi + 3] == v@.subrange(gi, gi + 4)[3]);
            }
        }
        None
    }
}

fn which_key_x(k: &Vec<char>) -> (r: Option<u8>)
    ensures
        match which_key(k@) {
            Some(n) => match r {
                Some(b) => b as int == n && b < 4,
                None => false,
            },
            None => r is None,
        },
{
    if eq_str(k, "target_arch") {
        Some(0)
    } else if eq_str(k, "target_dest") {
        Some(1)
    } else if eq_str(k, "target_name") {
        Some(2)
    } else if eq_str(k, "target_user") {
        Some(3)
    } else {
        None
    }
}

fn parse_member_x(v: &Vec<char>, i: usize) -> (r: Option<(u8, Option<Vec<char>>, usize)>)
    requires
        i <= v@.len(),
    ensures
        match parse_member(v@, i as int) {
            Some(m) => match r {
                Some(q) => q.0 as int == m.key && q.0 < 4 && view_opt_chars(q.1) == m.val && q.2
                    as int == m.end && q.2 <= v@.len(),
                None => false,
            },
            None => r is None,
        },
{
    let i1 = skip_ws_x(v, i);
    if !(i1 < v.len()) {
        return None;
    }
    if v[i1] != '"' {
        return None;
    }
    let (key, j) = match parse_string_body_x(v, i1 + 1) {
        Some(p) => p,
        None => {
            return None;
        },
    };
    let k = match which_key_x(&key) {
        Some(k) => k,
        None => {
            return None;
        },
    };
    let i2 = skip_ws_x(v, j);
    if !(i2 < v.len()) {
        return None;
    }
    if v[i2] != ':' {
        return None;
    }
    let i3 = skip_ws_x(v, i2 + 1);
    match parse_value_x(v, i3) {
        Some((val, j2)) => Some((k, val, j2)),
        None => None,
    }
}

struct Slots {
    arch: Option<Option<String>>,
    dest: Option<Option<String>>,
    name: Option<Option<String>>,
    user: Option<Option<String>>,
}

spec fn slots_model(sl: &Slots) -> SlotsM {
    SlotsM {
        arch: match sl.arch {
            Some(a) => Some(view_opt(a)),
            None => None,
        },
        dest: match sl.dest {
            Some(d) => Some(view_opt(d)),
            None => None,
        },
        name: match sl.name {
            Some(n) => Some(view_opt(n)),
            None => None,
        },
        user: match sl.user {
            Some(u) => Some(view_opt(u)),
            None => None,
        },
    }
}

fn opt_string_of(val: Option<Vec<char>>) -> (r: Option<String>)
    ensures
        view_opt(r) == view_opt_chars(val),
{
    match val {
        Some(cs) => Some(string_from_chars(&cs)),
        None => None,
    }
}

fn place_x(sl: &mut Slots, k: u8, val: Option<Vec<char>>) -> (ok: bool)
    requires
        k < 4,
    ensures
        match place_s(slots_model(old(sl)), k as int, view_opt_chars(val)) {
            Some(m) => ok && slots_model(final(sl)) == m,
            None => !ok && *final(sl) == *old(sl),
        },
{
    let vs = opt_string_of(val);
    if k == 0 {
        if sl.arch.is_some() {
            return false;
        }
        sl.arch = Some(vs);
        true
    } else if k == 1 {
        if sl.dest.is_some() {
            return false;
        }
        sl.dest = Some(vs);
        true
    } else if k == 2 {
        if sl.name.is_some() {
            return false;
        }
        sl.name = Some(vs);
        true
    } else {
        if sl.user.is_some() {
            return false;
        }
        sl.user = Some(vs);
        true
    }
}

/// One step of the member list: a further `, member` (at most `budget`
/// more) or the closing brace.
fn parse_rest_x(v: &Vec<char>, i: usize, slots: &mut Slots, budget: u8) -> (r: Option<usize>)
    requires
        i <= v@.len(),
    ensures
        match parse_rest(v@, i as int, slots_model(old(slots)), budget as nat) {
            Some(p) => match r {
                Some(e) => e as int == p.1 && slots_model(final(slots)) == p.0 && e <= v@.len(),
                None => false,
            },
            None => r is None,
        },
    decreases budget,
{
    let j = skip_ws_x(v, i);
    if j < v.len() {
        let c = v[j];
        if c == ',' {
            if budget == 0 {
                return None;
            }
            match parse_member_x(v, j + 1) {
                Some((k, val, e)) => {
                    if !place_x(slots, k, val) {
                        return None;
                    }
                    parse_rest_x(v, e, slots, budget - 1)
                },
                None => None,
            }
        } else if c == '}' {
            Some(j + 1)
        } else {
            None
        }
    } else {
        None
    }
}

/// Parses config file text. Returns the record exactly when the text lies
/// in the accepted grammar; every other text is a parse error.
pub fn parse_config(text: &str) -> (r: Result<DeployConfig, DeployError>)
    ensures
        match r {
            Ok(c) => parse_config_text(text@) == Some(c@),
            Err(e) => parse_config_text(text@) is None && e == DeployError::ConfigParse,
        },
{
    let v = chars_vec(text);
    let i0 = skip_ws_x(&v, 0);
    if !(i0 < v.len()) {
        return Err(DeployError::ConfigParse);
    }
    if v[i0] != '{' {
        return Err(DeployError::ConfigParse);
    }
    let mut slots = Slots { arch: None, dest: None, name: None, user: None };
    let end: usize;
    let j0 = skip_ws_x(&v, i0 + 1);
    if j0 < v.len() && v[j0] == '}' {
        end = j0 + 1;
    } else {
        let (k1, val1, e1) = match parse_member_x(&v, i0 + 1) {
            Some(p) => p,
            None => {
                return Err(DeployError::ConfigParse);
            },
        };
        if !place_x(&mut slots, k1, val1) {
            return Err(DeployError::ConfigParse);
        }
        end = match parse_rest_x(&v, e1, &mut slots, 3) {
            Some(e) => e,
            None => {
                return Err(DeployError::ConfigParse);
            },
        };
    }
    let j5 = skip_ws_x(&v, end);
    if j5 != v.len() {
        return Err(DeployError::ConfigParse);
    }
    Ok(
        DeployConfig {
            target_arch: match slots.arch {
                Some(a) => a,
                None => None,
            },
            target_dest: match slots.dest {
                Some(d) => d,
                None => None,
            },
            target_name: match slots.name {
                Some(n) => n,
                None => None,
            },
            target_user: match slots.user {
                Some(u) => u,
                None => None,
            },
        },
    )
}

// ---------------------------------------------------------------------
// Round trip: parsing a rendered record gives the record back.
// ---------------------------------------------------------------------
proof fn lemma_hex_round(n: int)
    requires
        0 <= n < 16,
    ensures
        hex_val(hex_char(n)) == Some(n),
{
}

proof fn lemma_low_char_round(c: char)
    requires
        (c as u32) < 32,
    ensures
        (((c as u32) as u8) as char) == c,
{
}

/// Parsing a string body that was written by the renderer recovers the
/// original characters and stops just past the closing quote.
proof fn lemma_psb_emitted(full: Seq<char>, i: int, s: Seq<char>)
    requires
        0 <= i,
        i + escaped(s).len() + 1 <= full.len(),
        full.subrange(i, i + escaped(s).len()) == escaped(s),
        full[i + escaped(s).len()] == '"',
    ensures
        parse_string_body(full, i) == Some((s, i + escaped(s).len() + 1)),
    decreases s.len(),
{
    let esc = escaped(s);
    if s.len() == 0 {
        assert(esc =~= Seq::<char>::empty());
        assert(full[i] == '"');
        assert(s =~= Seq::<char>::empty());
    } else {
        let c = s[0];
        let e = esc_char(c);
        let rest = s.drop_first();
        assert(esc == e + escaped(rest));
        assert(e.len() >= 1);
        assert forall|p: int| i <= p < i + esc.len() implies full[p] == esc[p - i] by {
            assert(full.subrange(i, i + esc.len())[p - i] == full[p]);
        }
        let i2 = i + e.len();
        let resc = escaped(rest);
        assert forall|p: int| i2 <= p < i2 + resc.len() implies full[p] == resc[p - i2] by {
            assert(full[p] == esc[p - i]);
            assert(esc[p - i] == resc[p - i2]);
        }
        assert(full.subrange(i2, i2 + resc.len()) =~= resc);
        assert(full[i2 + resc.len()] == '"');
        lemma_psb_emitted(full, i2, rest);
        if c == '"' || c == '\\' || c == '\n' || c == '\r' || c == '\t' {
            assert(e.len() == 2);
            assert(full[i] == esc[0] && full[i + 1] == esc[1]);
            assert(esc[0] == e[0] && esc[1] == e[1]);
            assert(e[0] == '\\');
            assert(unescape(e[1]) == Some(c));
            assert(seq![c] + rest =~= s);
        } else if is_control(c) {
            let u = (c as u32) as int;
            assert(e.len() == 6);
            assert(full[i] == esc[0] && full[i + 1] == esc[1] && full[i + 2] == esc[2] && full[i
                + 3] == esc[3] && full[i + 4] == esc[4] && full[i + 5] == esc[5]);
            assert(esc[0] == e[0] && esc[1] == e[1] && esc[2] == e[2] && esc[3] == e[3] && esc[4]
                == e[4] && esc[5] == e[5]);
            assert(e[0] == '\\' && e[1] == 'u' && e[2] == '0' && e[3] == '0' && e[4] == hex_char(
                u / 16,
            ) && e[5] == hex_char(u % 16));
            assert(hex_val('0') == Some(0int));
            assert(0 <= u / 16 < 16 && 0 <= u % 16 < 16);
            lemma_hex_round(u / 16);
            lemma_hex_round(u % 16);
            let v = 0 * 4096 + 0 * 256 + (u / 16) * 16 + u % 16;
            assert(v == u);
            assert(v < 128);
            assert(v as u8 == (c as u32) as u8);
            lemma_low_char_round(c);
            assert(((v as u8) as char) == c);
            assert(seq![(v as u8) as char] + rest =~= s);
        } else {
            assert(e == seq![c]);
            assert(full[i] == esc[0] && esc[0] == e[0] && e[0] == c);
            assert(!is_control(c));
            assert(seq![c] + rest =~= s);
        }
    }
}

/// The four field names: written out they stand for themselves, they all
/// have eleven characters, and each is recognized as exactly its own key.
proof fn lemma_keys()
    ensures
        forall|k: int| 0 <= k < 4 ==> #[trigger] escaped(key_seq(k)) == key_seq(k),
        forall|k: int| 0 <= k < 4 ==> #[trigger] key_seq(k).len() == 11,
        forall|k: int| 0 <= k < 4 ==> #[trigger] which_key(key_seq(k)) == Some(k),
{
    reveal_strlit("target_arch");
    reveal_strlit("target_dest");
    reveal_strlit("target_name");
    reveal_strlit("target_user");
    reveal_with_fuel(escaped, 13);
    assert(escaped(key_seq(0)) =~= key_seq(0));
    assert(escaped(key_seq(1)) =~= key_seq(1));
    assert(escaped(key_seq(2)) =~= key_seq(2));
    assert(escaped(key_seq(3)) =~= key_seq(3));
    // the keys differ pairwise: their eighth characters are a, d, n, u
    assert(key_seq(0)[7] == 'a' && key_seq(1)[7] == 'd' && key_seq(2)[7] == 'n' && key_seq(3)[7]
        == 'u');
    assert forall|k: int| 0 <= k < 4 implies #[trigger] which_key(key_seq(k)) == Some(k) by {
        if key_seq(1) == key_seq(0) {
            assert(key_seq(1)[7] == key_seq(0)[7]);
        }
        if key_seq(2) == key_seq(0) {
            assert(key_seq(2)[7] == key_seq(0)[7]);
        }
        if key_seq(2) == key_seq(1) {
            assert(key_seq(2)[7] == key_seq(1)[7]);
        }
        if key_seq(3) == key_seq(0) {
            assert(key_seq(3)[7] == key_seq(0)[7]);
        }
        if key_seq(3) == key_seq(1) {
            assert(key_seq(3)[7] == key_seq(1)[7]);
        }
        if key_seq(3) == key_seq(2) {
            assert(key_seq(3)[7] == key_seq(2)[7]);
        }
    }
}

/// Parsing a member that was written by the renderer recovers its key and
/// value and stops exactly at the member's end.
proof fn lemma_member_emitted(full: Seq<char>, i: int, k: int, v: Option<Seq<char>>)
    requires
        0 <= k < 4,
        0 <= i,
        i + member_text(k, v).len() <= full.len(),
        full.subrange(i, i + member_text(k, v).len()) == member_text(k, v),
    ensures
        parse_member(full, i) == Some(MemberP { key: k, val: v, end: i + member_text(k, v).len() }),
{
    lemma_keys();
    let m = member_text(k, v);
    let key = key_seq(k);
    let ft = field_text(v);
    assert forall|p: int| i <= p < i + m.len() implies full[p] == m[p - i] by {
        assert(full.subrange(i, i + m.len())[p - i] == full[p]);
    }
    assert(key.len() == 11);
    assert(m.len() == 18 + ft.len());
    assert(m[0] == '\n' && m[1] == ' ' && m[2] == ' ' && m[3] == '"');
    assert(full[i] == '\n' && full[i + 1] == ' ' && full[i + 2] == ' ' && full[i + 3] == '"');
    assert(skip_ws(full, i) == i + 3) by {
        reveal_with_fuel(skip_ws, 5);
    }
    // the key string, from position i + 4
    assert(full.subrange(i + 4, i + 15) =~= key) by {
        assert forall|t: int| 0 <= t < 11 implies full.subrange(i + 4, i + 15)[t] == key[t] by {
            assert(full[i + 4 + t] == m[4 + t]);
            assert(m[4 + t] == key[t]);
        }
    }
    assert(m[15] == '"' && m[16] == ':' && m[17] == ' ');
    assert(full[i + 15] == '"');
    lemma_psb_emitted(full, i + 4, key);
    assert(parse_string_body(full, i + 4) == Some((key, i + 16)));
    assert(which_key(key) == Some(k));
    // the separator, then the value at i + 18
    assert(full[i + 16] == ':' && full[i + 17] == ' ');
    assert(skip_ws(full, i + 16) == i + 16);
    match v {
        None => {
            assert(m[18] == 'n' && m[19] == 'u' && m[20] == 'l' && m[21] == 'l');
            assert(full[i + 18] == 'n' && full[i + 19] == 'u' && full[i + 20] == 'l' && full[i
                + 21] == 'l');
            assert(skip_ws(full, i + 17) == i + 18) by {
                reveal_with_fuel(skip_ws, 3);
            }
            assert(full.subrange(i + 18, i + 22) =~= null_seq());
            assert(parse_value(full, i + 18) == Some((Option::<Seq<char>>::None, i + 22)));
        },
        Some(str) => {
            assert(m[18] == '"');
            assert(full[i + 18] == '"');
            assert(skip_ws(full, i + 17) == i + 18) by {
                reveal_with_fuel(skip_ws, 3);
            }
            let esc = escaped(str);
            assert(ft.len() == esc.len() + 2);
            assert(full.subrange(i + 19, i + 19 + esc.len()) =~= esc) by {
                assert forall|t: int| 0 <= t < esc.len() implies full.subrange(
                    i + 19,
                    i + 19 + esc.len(),
                )[t] == esc[t] by {
                    assert(full[i + 19 + t] == m[19 + t]);
                    assert(m[19 + t] == ft[1 + t]);
                    assert(ft[1 + t] == esc[t]);
                }
            }
            assert(full[i + 19 + esc.len()] == '"') by {
                assert(full[i + 19 + esc.len()] == m[19 + esc.len() as int]);
                assert(m[19 + esc.len() as int] == ft[1 + esc.len() as int]);
            }
            lemma_psb_emitted(full, i + 19, str);
            assert(parse_value(full, i + 18) == Some((Some(str), i + 18 + ft.len())));
        },
    }
}

/// Round trip: any config record, rendered and parsed back, is itself.
pub proof fn lemma_config_round_trip(m: ConfigModel)
    ensures
        parse_config_text(json_of(m)) == Some(m),
{
    lemma_keys();
    let full = json_of(m);
    let m0 = member_text(0, m.arch);
    let m1 = member_text(1, m.dest);
    let m2 = member_text(2, m.name);
    let m3 = member_text(3, m.user);
    let e0: int = 1 + m0.len() as int;
    let e1: int = e0 + 1 + m1.len();
    let e2: int = e1 + 1 + m2.len();
    let e3: int = e2 + 1 + m3.len();
    assert(full.len() == e3 + 2);
    assert(full[0] == '{');
    assert(full.subrange(1, e0) =~= m0);
    assert(full[e0] == ',');
    assert(full.subrange(e0 + 1, e1) =~= m1);
    assert(full[e1] == ',');
    assert(full.subrange(e1 + 1, e2) =~= m2);
    assert(full[e2] == ',');
    assert(full.subrange(e2 + 1, e3) =~= m3);
    assert(full[e3] == '\n');
    assert(full[e3 + 1] == '}');
    assert(skip_ws(full, 0) == 0);
    lemma_member_emitted(full, 1, 0, m.arch);
    assert(skip_ws(full, e0) == e0);
    lemma_member_emitted(full, e0 + 1, 1, m.dest);
    assert(skip_ws(full, e1) == e1);
    lemma_member_emitted(full, e1 + 1, 2, m.name);
    assert(skip_ws(full, e2) == e2);
    lemma_member_emitted(full, e2 + 1, 3, m.user);
    assert(skip_ws(full, e3) == e3 + 1) by {
        reveal_with_fuel(skip_ws, 3);
    }
    assert(skip_ws(full, e3 + 2) == full.len());
    let mm1 = MemberP { key: 0, val: m.arch, end: e0 };
    let mm2 = MemberP { key: 1, val: m.dest, end: e1 };
    let mm3 = MemberP { key: 2, val: m.name, end: e2 };
    let mm4 = MemberP { key: 3, val: m.user, end: e3 };
    assert(parse_member(full, 1) == Some(mm1));
    assert(parse_member(full, e0 + 1) == Some(mm2));
    assert(parse_member(full, e1 + 1) == Some(mm3));
    assert(parse_member(full, e2 + 1) == Some(mm4));
    // after `{` the text goes on with a member, not with `}`
    assert(full[1] == '\n' && full[2] == ' ' && full[3] == ' ' && full[4] == '"');
    assert(skip_ws(full, 1) == 4) by {
        reveal_with_fuel(skip_ws, 6);
    }
    let s0 = empty_slots();
    let s1 = SlotsM { arch: Some(m.arch), ..s0 };
    let s2 = SlotsM { dest: Some(m.dest), ..s1 };
    let s3 = SlotsM { name: Some(m.name), ..s2 };
    let s4 = SlotsM { user: Some(m.user), ..s3 };
    assert(place_s(s0, 0, m.arch) == Some(s1));
    assert(place_s(s1, 1, m.dest) == Some(s2));
    assert(place_s(s2, 2, m.name) == Some(s3));
    assert(place_s(s3, 3, m.user) == Some(s4));
    assert(parse_rest(full, e3, s4, 0) == Some((s4, e3 + 2)));
    assert(parse_rest(full, e2, s3, 1) == Some((s4, e3 + 2)));
    assert(parse_rest(full, e1, s2, 2) == Some((s4, e3 + 2)));
    assert(parse_rest(full, e0, s1, 3) == Some((s4, e3 + 2)));
    assert(model_of_slots(s4) =~= m);
}

} // verus!
