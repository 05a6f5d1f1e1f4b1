//! The wire codec: JSON text to [`JsonValue`] and back. The grammar and
//! the rendering are the library's own logic, specified by the `spec_*`
//! functions and proved of the executable code.
//!
//! Two deliberate restrictions of the grammar: numbers are 64-bit signed
//! integers, so a fractional or exponent form is refused; and of the
//! string escapes only the named ones are read, so a `\u` code-point
//! escape is refused. A reply using either surfaces as a decode error.
//! An object that binds the same key twice keeps the first binding, as
//! [`crate::json::map_get`] reads entries.

use crate::json::{
    jview, jview_elems, lemma_jview_elems, lemma_map_view, JsonData, JsonMap, JsonValue,
};
use crate::text::{chars_string, string_chars};
use vstd::prelude::*;

verus! {

broadcast use vstd::std_specs::vec::group_vec_axioms, vstd::seq::group_seq_axioms;

/// JSON insignificant whitespace.
pub open spec fn is_ws(c: char) -> bool {
    c == ' ' || c == '\n' || c == '\r' || c == '\t'
}

/// A decimal digit.
pub open spec fn is_digit(c: char) -> bool {
    '0' <= c && c <= '9'
}

/// The numeric value of a decimal digit.
pub open spec fn digit_val(c: char) -> int {
    c as int - '0' as int
}

/// The decimal digit character for a value below ten.
pub open spec fn digit_char(d: int) -> char {
    if d == 0 {
        '0'
    } else if d == 1 {
        '1'
    } else if d == 2 {
        '2'
    } else if d == 3 {
        '3'
    } else if d == 4 {
        '4'
    } else if d == 5 {
        '5'
    } else if d == 6 {
        '6'
    } else if d == 7 {
        '7'
    } else if d == 8 {
        '8'
    } else {
        '9'
    }
}

/// The decimal digits of `n`, most significant first.
pub open spec fn spec_digits(n: nat) -> Seq<char>
    decreases n,
{
    if n < 10 {
        seq![digit_char(n as int)]
    } else {
        spec_digits(n / 10) + seq![digit_char((n % 10) as int)]
    }
}

/// The decimal rendering of `i`, with a leading minus sign when negative.
pub open spec fn spec_int_chars(i: int) -> Seq<char> {
    if i < 0 {
        seq!['-'] + spec_digits((-i) as nat)
    } else {
        spec_digits(i as nat)
    }
}

/// How one character is written inside a JSON string literal.
pub open spec fn esc_char(c: char) -> Seq<char> {
    if c == '"' {
        seq!['\\', '"']
    } else if c == '\\' {
        seq!['\\', '\\']
    } else if c == '\n' {
        seq!['\\', 'n']
    } else if c == '\t' {
        seq!['\\', 't']
    } else if c == '\r' {
        seq!['\\', 'r']
    } else if c == '\u{8}' {
        seq!['\\', 'b']
    } else if c == '\u{c}' {
        seq!['\\', 'f']
    } else {
        seq![c]
    }
}

/// The escaped form of the first `k` characters of `s`.
pub open spec fn spec_escape(s: Seq<char>, k: int) -> Seq<char>
    decreases k,
{
    if k <= 0 {
        Seq::empty()
    } else {
        spec_escape(s, k - 1) + esc_char(s[k - 1])
    }
}

/// The rendering of a JSON value: canonical, with no insignificant
/// whitespace, object entries in their stored order.
pub open spec fn spec_ser(d: JsonData) -> Seq<char>
    decreases d, 0int,
{
    match d {
        JsonData::Null => seq!['n', 'u', 'l', 'l'],
        JsonData::Bool(b) => if b {
            seq!['t', 'r', 'u', 'e']
        } else {
            seq!['f', 'a', 'l', 's', 'e']
        },
        JsonData::Int(i) => spec_int_chars(i),
        JsonData::Str(s) => seq!['"'] + spec_escape(s, s.len() as int) + seq!['"'],
        JsonData::Arr(items) => seq!['['] + spec_ser_items(items, items.len() as int) + seq![']'],
        JsonData::Obj(entries) => seq!['{'] + spec_ser_entries(entries, entries.len() as int)
            + seq!['}'],
    }
}

/// The rendering of the first `k` array elements, comma separated.
pub open spec fn spec_ser_items(items: Seq<JsonData>, k: int) -> Seq<char>
    decreases items, k,
{
    if k <= 0 || k > items.len() {
        Seq::empty()
    } else {
        spec_ser_items(items, k - 1) + (if k == 1 {
            Seq::empty()
        } else {
            seq![',']
        }) + spec_ser(items[k - 1])
    }
}

/// The rendering of the first `k` object entries, comma separated.
pub open spec fn spec_ser_entries(entries: Seq<(Seq<char>, JsonData)>, k: int) -> Seq<char>
    decreases entries, k,
{
    if k <= 0 || k > entries.len() {
        Seq::empty()
    } else {
        spec_ser_entries(entries, k - 1) + (if k == 1 {
            Seq::empty()
        } else {
            seq![',']
        }) + seq!['"'] + spec_escape(entries[k - 1].0, entries[k - 1].0.len() as int) + seq![
            '"',
            ':',
        ] + spec_ser(entries[k - 1].1)
    }
}

/// Writes the decimal digits of `n`.
pub(crate) fn write_u64(n: u64, out: &mut Vec<char>)
    ensures
        final(out)@ == old(out)@ + spec_digits(n as nat),
    decreases n,
{
    if n < 10 {
        let d: u64 = n;
        out.push(match d {
            0 => '0',
            1 => '1',
            2 => '2',
            3 => '3',
            4 => '4',
            5 => '5',
            6 => '6',
            7 => '7',
            8 => '8',
            _ => '9',
        });
        proof {
            assert(out@ =~= old(out)@ + spec_digits(n as nat));
        }
    } else {
        write_u64(n / 10, out);
        let d: u64 = n % 10;
        out.push(match d {
            0 => '0',
            1 => '1',
            2 => '2',
            3 => '3',
            4 => '4',
            5 => '5',
            6 => '6',
            7 => '7',
            8 => '8',
            _ => '9',
        });
        proof {
            assert(out@ =~= old(out)@ + spec_digits(n as nat));
        }
    }
}

/// Writes the decimal rendering of `i`.
fn write_i64(i: i64, out: &mut Vec<char>)
    ensures
        final(out)@ == old(out)@ + spec_int_chars(i as int),
{
    if i >= 0 {
        write_u64(i as u64, out);
    } else {
        out.push('-');
        let m: u64 = if i == i64::MIN {
            9223372036854775808u64
        } else {
            (-i) as u64
        };
        proof {
            assert(m as nat == (-(i as int)) as nat);
        }
        write_u64(m, out);
        proof {
            assert(out@ =~= old(out)@ + spec_int_chars(i as int));
        }
    }
}

/// Writes `s` as it stands inside a JSON string literal.
fn write_escaped(s: &str, out: &mut Vec<char>)
    ensures
        final(out)@ == old(out)@ + spec_escape(s@, s@.len() as int),
{
    let cs: Vec<char> = string_chars(s);
    let n: usize = cs.len();
    let mut k: usize = 0;
    while k < n
        invariant
            0 <= k <= n,
            n == cs@.len(),
            cs@ == s@,
            out@ == old(out)@ + spec_escape(s@, k as int),
        decreases n - k,
    {
        let c: char = cs[k];
        if c == '"' {
            out.push('\\');
            out.push('"');
        } else if c == '\\' {
            out.push('\\');
            out.push('\\');
        } else if c == '\n' {
            out.push('\\');
            out.push('n');
        } else if c == '\t' {
            out.push('\\');
            out.push('t');
        } else if c == '\r' {
            out.push('\\');
            out.push('r');
        } else if c == '\u{8}' {
            out.push('\\');
            out.push('b');
        } else if c == '\u{c}' {
            out.push('\\');
            out.push('f');
        } else {
            out.push(c);
        }
        proof {
            assert(out@ =~= old(out)@ + spec_escape(s@, k + 1));
        }
        k = k + 1;
    }
}

/// Writes the rendering of `v`.
#[verifier::loop_isolation(false)]
#[verifier::rlimit(50)]
fn write_json(v: &JsonValue, out: &mut Vec<char>)
    ensures
        final(out)@ == old(out)@ + spec_ser(jview(*v)),
    decreases *v,
{
    match v {
        JsonValue::Null => {
            out.push('n');
            out.push('u');
            out.push('l');
            out.push('l');
            proof {
                assert(out@ =~= old(out)@ + spec_ser(jview(*v)));
            }
        },
        JsonValue::Bool(b) => {
            if *b {
                out.push('t');
                out.push('r');
                out.push('u');
                out.push('e');
            } else {
                out.push('f');
                out.push('a');
                out.push('l');
                out.push('s');
                out.push('e');
            }
            proof {
                assert(out@ =~= old(out)@ + spec_ser(jview(*v)));
            }
        },
        JsonValue::Int(i) => {
            write_i64(*i, out);
        },
        JsonValue::Str(s) => {
            out.push('"');
            write_escaped(s.as_str(), out);
            out.push('"');
            proof {
                assert(out@ =~= old(out)@ + spec_ser(jview(*v)));
            }
        },
        JsonValue::Arr(items) => {
            let ghost iv = jview_elems(items@);
            proof {
                lemma_jview_elems(items@);
            }
            out.push('[');
            let n: usize = items.len();
            let mut k: usize = 0;
            while k < n
                invariant
                    0 <= k <= n,
                    n == items@.len(),
                    iv == jview_elems(items@),
                    iv.len() == n,
                    forall|j: int| 0 <= j < n ==> iv[j] == jview(items@[j]),
                    out@ == old(out)@ + seq!['['] + spec_ser_items(iv, k as int),
                decreases n - k,
            {
                if k > 0 {
                    out.push(',');
                }
                proof {
                    assert(*v == JsonValue::Arr(*items));
                    assert(decreases_to!(JsonValue::Arr(*items) => *items));
                    assert(decreases_to!(*items => items@[k as int]));
                }
                write_json(&items[k], out);
                proof {
                    assert(out@ =~= old(out)@ + seq!['['] + spec_ser_items(iv, k + 1));
                }
                k = k + 1;
            }
            out.push(']');
            proof {
                assert(out@ =~= old(out)@ + spec_ser(jview(*v)));
            }
        },
        JsonValue::Obj(m) => {
            let ghost mv = m@;
            proof {
                lemma_map_view(m);
            }
            out.push('{');
            let entries: &Vec<(String, JsonValue)> = m.entries();
            let n: usize = entries.len();
            let mut k: usize = 0;
            while k < n
                invariant
                    0 <= k <= n,
                    n == entries@.len(),
                    mv.len() == n,
                    forall|j: int| 0 <= j < n ==> mv[j] == (entries@[j].0@, jview(entries@[j].1)),
                    out@ == old(out)@ + seq!['{'] + spec_ser_entries(mv, k as int),
                decreases n - k,
            {
                if k > 0 {
                    out.push(',');
                }
                out.push('"');
                write_escaped(entries[k].0.as_str(), out);
                out.push('"');
                out.push(':');
                proof {
                    assert(decreases_to!(JsonValue::Obj(*m) => *m));
                    assert(decreases_to!(*entries => entries@[k as int]));
                    assert(decreases_to!(entries@[k as int] => entries@[k as int].1));
                }
                write_json(&entries[k].1, out);
                proof {
                    assert(out@ =~= old(out)@ + seq!['{'] + spec_ser_entries(mv, k + 1));
                }
                k = k + 1;
            }
            out.push('}');
            proof {
                assert(jview(*v) == JsonData::Obj(mv));
                assert(spec_ser(jview(*v)) == seq!['{'] + spec_ser_entries(mv, n as int) + seq![
                    '}',
                ]);
                assert(out@ =~= old(out)@ + spec_ser(jview(*v)));
            }
        },
    }
}

/// The canonical JSON text of `v`.
pub fn to_json_string(v: &JsonValue) -> (r: String)
    ensures
        r@ == spec_ser(jview(*v)),
{
    let mut out: Vec<char> = Vec::new();
    write_json(v, &mut out);
    proof {
        assert(Seq::<char>::empty() + spec_ser(jview(*v)) =~= spec_ser(jview(*v)));
    }
    chars_string(&out)
}

/// The position of the first non-whitespace character at or after `i`.
pub open spec fn spec_skip_ws(s: Seq<char>, i: int) -> int
    decreases s.len() - i,
{
    if 0 <= i < s.len() && is_ws(s[i]) {
        spec_skip_ws(s, i + 1)
    } else {
        i
    }
}

/// The character an escape letter stands for, if the escape is known.
pub open spec fn unescape(c: char) -> Option<char> {
    if c == '"' {
        Some('"')
    } else if c == '\\' {
        Some('\\')
    } else if c == '/' {
        Some('/')
    } else if c == 'n' {
        Some('\n')
    } else if c == 't' {
        Some('\t')
    } else if c == 'r' {
        Some('\r')
    } else if c == 'b' {
        Some('\u{8}')
    } else if c == 'f' {
        Some('\u{c}')
    } else {
        None
    }
}

/// What parsing a string literal body from `i` (just after the opening
/// quote) yields: the unescaped content and the position after the closing
/// quote.
pub open spec fn spec_parse_string(s: Seq<char>, i: int) -> Option<(Seq<char>, int)>
    decreases s.len() - i,
{
    if i < 0 || i >= s.len() {
        None
    } else if s[i] == '"' {
        Some((Seq::empty(), i + 1))
    } else if s[i] == '\\' {
        if i + 1 >= s.len() {
            None
        } else {
            match unescape(s[i + 1]) {
                Some(e) => match spec_parse_string(s, i + 2) {
                    Some((rest, j)) => Some((seq![e] + rest, j)),
                    None => None,
                },
                None => None,
            }
        }
    } else {
        match spec_parse_string(s, i + 1) {
            Some((rest, j)) => Some((seq![s[i]] + rest, j)),
            None => None,
        }
    }
}

/// `r` with `p` put in front of the parsed content.
pub open spec fn prepend_parsed(p: Seq<char>, r: Option<(Seq<char>, int)>) -> Option<
    (Seq<char>, int),
> {
    match r {
        Some((t, j)) => Some((p + t, j)),
        None => None,
    }
}

/// The position after the run of decimal digits starting at `i`.
pub open spec fn spec_digits_end(s: Seq<char>, i: int) -> int
    decreases s.len() - i,
{
    if 0 <= i < s.len() && is_digit(s[i]) {
        spec_digits_end(s, i + 1)
    } else {
        i
    }
}

/// The value of the digits of `s` between `i` and `j`.
pub open spec fn spec_digits_val(s: Seq<char>, i: int, j: int) -> int
    decreases j - i,
{
    if i >= j {
        0
    } else {
        spec_digits_val(s, i, j - 1) * 10 + digit_val(s[j - 1])
    }
}

/// What parsing a number at `i` yields: an optional minus sign and a digit
/// run, refused when the value does not fit a 64-bit signed integer.
pub open spec fn spec_parse_number(s: Seq<char>, i: int) -> Option<(JsonData, int)> {
    let neg = 0 <= i < s.len() && s[i] == '-';
    let d0 = if neg {
        i + 1
    } else {
        i
    };
    let dend = spec_digits_end(s, d0);
    if dend == d0 {
        None
    } else {
        let m = spec_digits_val(s, d0, dend);
        if neg {
            if m <= 0x8000_0000_0000_0000 {
                Some((JsonData::Int(-m), dend))
            } else {
                None
            }
        } else {
            if m <= 0x7fff_ffff_ffff_ffff {
                Some((JsonData::Int(m), dend))
            } else {
                None
            }
        }
    }
}

/// True when the characters of `lit` stand at `i`.
pub open spec fn spec_has(s: Seq<char>, i: int, lit: Seq<char>) -> bool {
    0 <= i && i + lit.len() <= s.len() && s.subrange(i, i + lit.len()) == lit
}

/// What parsing one JSON value at `i` yields. The fuel bounds the nesting
/// the parse may descend through; the top-level entry point supplies more
/// than any text of that length can consume.
pub open spec fn spec_parse_value(s: Seq<char>, i: int, fuel: nat) -> Option<(JsonData, int)>
    decreases fuel,
{
    if fuel == 0 {
        None
    } else {
        let j = spec_skip_ws(s, i);
        if !(0 <= j < s.len()) {
            None
        } else {
            let c = s[j];
            if c == 'n' {
                if spec_has(s, j, seq!['n', 'u', 'l', 'l']) {
                    Some((JsonData::Null, j + 4))
                } else {
                    None
                }
            } else if c == 't' {
                if spec_has(s, j, seq!['t', 'r', 'u', 'e']) {
                    Some((JsonData::Bool(true), j + 4))
                } else {
                    None
                }
            } else if c == 'f' {
                if spec_has(s, j, seq!['f', 'a', 'l', 's', 'e']) {
                    Some((JsonData::Bool(false), j + 5))
                } else {
                    None
                }
            } else if c == '"' {
                match spec_parse_string(s, j + 1) {
                    Some((t, k)) => Some((JsonData::Str(t), k)),
                    None => None,
                }
            } else if c == '-' || is_digit(c) {
                spec_parse_number(s, j)
            } else if c == '[' {
                let k = spec_skip_ws(s, j + 1);
                if 0 <= k < s.len() && s[k] == ']' {
                    Some((JsonData::Arr(Seq::empty()), k + 1))
                } else {
                    match spec_parse_elements(s, j + 1, (fuel - 1) as nat) {
                        Some((items, e)) => Some((JsonData::Arr(items), e)),
                        None => None,
                    }
                }
            } else if c == '{' {
                let k = spec_skip_ws(s, j + 1);
                if 0 <= k < s.len() && s[k] == '}' {
                    Some((JsonData::Obj(Seq::empty()), k + 1))
                } else {
                    match spec_parse_members(s, j + 1, (fuel - 1) as nat) {
                        Some((entries, e)) => Some((JsonData::Obj(entries), e)),
                        None => None,
                    }
                }
            } else {
                None
            }
        }
    }
}

/// What parsing one or more comma-separated array elements and the closing
/// bracket yields.
pub open spec fn spec_parse_elements(s: Seq<char>, i: int, fuel: nat) -> Option<
    (Seq<JsonData>, int),
>
    decreases fuel,
{
    if fuel == 0 {
        None
    } else {
        match spec_parse_value(s, i, (fuel - 1) as nat) {
            Some((v, j)) => {
                let k = spec_skip_ws(s, j);
                if 0 <= k < s.len() && s[k] == ',' {
                    match spec_parse_elements(s, k + 1, (fuel - 1) as nat) {
                        Some((rest, e)) => Some((seq![v] + rest, e)),
                        None => None,
                    }
                } else if 0 <= k < s.len() && s[k] == ']' {
                    Some((seq![v], k + 1))
                } else {
                    None
                }
            },
            None => None,
        }
    }
}

/// What parsing one or more comma-separated object entries and the closing
/// brace yields.
pub open spec fn spec_parse_members(s: Seq<char>, i: int, fuel: nat) -> Option<
    (Seq<(Seq<char>, JsonData)>, int),
>
    decreases fuel,
{
    if fuel == 0 {
        None
    } else {
        let j = spec_skip_ws(s, i);
        if !(0 <= j < s.len() && s[j] == '"') {
            None
        } else {
            match spec_parse_string(s, j + 1) {
                Some((key, j2)) => {
                    let j3 = spec_skip_ws(s, j2);
                    if !(0 <= j3 < s.len() && s[j3] == ':') {
                        None
                    } else {
                        match spec_parse_value(s, j3 + 1, (fuel - 1) as nat) {
                            Some((v, j4)) => {
                                let j5 = spec_skip_ws(s, j4);
                                if 0 <= j5 < s.len() && s[j5] == ',' {
                                    match spec_parse_members(s, j5 + 1, (fuel - 1) as nat) {
                                        Some((rest, e)) => Some((seq![(key, v)] + rest, e)),
                                        None => None,
                                    }
                                } else if 0 <= j5 < s.len() && s[j5] == '}' {
                                    Some((seq![(key, v)], j5 + 1))
                                } else {
                                    None
                                }
                            },
                            None => None,
                        }
                    }
                },
                None => None,
            }
        }
    }
}

/// What parsing a whole JSON text yields: one value, with nothing but
/// whitespace around it.
pub open spec fn spec_parse_json(s: Seq<char>) -> Option<JsonData> {
    if s.len() > 0x4000_0000 {
        None
    } else {
        match spec_parse_value(s, 0, (2 * s.len() + 2) as nat) {
            Some((v, j)) => if spec_skip_ws(s, j) == s.len() {
                Some(v)
            } else {
                None
            },
            None => None,
        }
    }
}

/// Finds the first non-whitespace position at or after `i`.
fn skip_whitespace(s: &Vec<char>, i: usize) -> (r: usize)
    requires
        i <= s@.len(),
    ensures
        r as int == spec_skip_ws(s@, i as int),
        i <= r <= s@.len(),
{
    let n: usize = s.len();
    let mut cur: usize = i;
    loop
        invariant
            i <= cur <= n,
            n == s@.len(),
            spec_skip_ws(s@, i as int) == spec_skip_ws(s@, cur as int),
        decreases n - cur,
    {
        if cur >= n {
            return cur;
        }
        let c: char = s[cur];
        if !(c == ' ' || c == '\n' || c == '\r' || c == '\t') {
            return cur;
        }
        cur = cur + 1;
    }
}

/// Parses a string literal body from `i`, just after the opening quote.
fn parse_string_chars(s: &Vec<char>, i: usize) -> (r: Option<(Vec<char>, usize)>)
    requires
        i <= s@.len(),
    ensures
        match r {
            Some((t, j)) => spec_parse_string(s@, i as int) == Some((t@, j as int)) && j
                <= s@.len(),
            None => spec_parse_string(s@, i as int) is None,
        },
{
    let n: usize = s.len();
    let mut out: Vec<char> = Vec::new();
    let mut cur: usize = i;
    proof {
        match spec_parse_string(s@, i as int) {
            Some((t, j)) => {
                assert(Seq::<char>::empty() + t =~= t);
            },
            None => {},
        }
    }
    loop
        invariant
            i <= cur <= n,
            n == s@.len(),
            spec_parse_string(s@, i as int) == prepend_parsed(
                out@,
                spec_parse_string(s@, cur as int),
            ),
        decreases n - cur,
    {
        if cur >= n {
            return None;
        }
        let c: char = s[cur];
        if c == '"' {
            proof {
                assert(out@ + Seq::<char>::empty() =~= out@);
            }
            return Some((out, cur + 1));
        }
        if c == '\\' {
            if cur + 1 >= n {
                return None;
            }
            let e: char = s[cur + 1];
            let ec: char;
            if e == '"' {
                ec = '"';
            } else if e == '\\' {
                ec = '\\';
            } else if e == '/' {
                ec = '/';
            } else if e == 'n' {
                ec = '\n';
            } else if e == 't' {
                ec = '\t';
            } else if e == 'r' {
                ec = '\r';
            } else if e == 'b' {
                ec = '\u{8}';
            } else if e == 'f' {
                ec = '\u{c}';
            } else {
                return None;
            }
            let ghost out_prev = out@;
            out.push(ec);
            proof {
                assert(unescape(e) == Some(ec));
                match spec_parse_string(s@, cur as int + 2) {
                    Some((t, j)) => {
                        assert(out_prev + (seq![ec] + t) =~= out@ + t);
                    },
                    None => {},
                }
            }
            cur = cur + 2;
        } else {
            let ghost out_prev = out@;
            out.push(c);
            proof {
                match spec_parse_string(s@, cur as int + 1) {
                    Some((t, j)) => {
                        assert(out_prev + (seq![c] + t) =~= out@ + t);
                    },
                    None => {},
                }
            }
            cur = cur + 1;
        }
    }
}

/// Finds the end of the digit run starting at `i`.
fn scan_digits(s: &Vec<char>, i: usize) -> (r: usize)
    requires
        i <= s@.len(),
    ensures
        r as int == spec_digits_end(s@, i as int),
        i <= r <= s@.len(),
        forall|j: int| i as int <= j < r as int ==> is_digit(s@[j]),
{
    let n: usize = s.len();
    let mut cur: usize = i;
    loop
        invariant
            i <= cur <= n,
            n == s@.len(),
            spec_digits_end(s@, i as int) == spec_digits_end(s@, cur as int),
            forall|j: int| i as int <= j < cur as int ==> is_digit(s@[j]),
        decreases n - cur,
    {
        if cur >= n {
            return cur;
        }
        let c: char = s[cur];
        if !('0' <= c && c <= '9') {
            return cur;
        }
        cur = cur + 1;
    }
}

/// Parses a number at `i`.
fn parse_number_chars(s: &Vec<char>, i: usize) -> (r: Option<(i64, usize)>)
    requires
        i < s@.len(),
    ensures
        match r {
            Some((v, j)) => spec_parse_number(s@, i as int) == Some(
                (JsonData::Int(v as int), j as int),
            ) && j <= s@.len(),
            None => spec_parse_number(s@, i as int) is None,
        },
{
    let n: usize = s.len();
    let neg: bool = s[i] == '-';
    let d0: usize = if neg {
        i + 1
    } else {
        i
    };
    let e: usize = scan_digits(s, d0);
    if e == d0 {
        return None;
    }
    let mut acc: u64 = 0;
    let mut over: bool = false;
    let mut k: usize = d0;
    while k < e
        invariant
            d0 <= k <= e <= n,
            n == s@.len(),
            e as int == spec_digits_end(s@, d0 as int),
            forall|j: int| d0 as int <= j < e as int ==> is_digit(s@[j]),
            !over ==> acc as int == spec_digits_val(s@, d0 as int, k as int) && acc
                <= 0x8000_0000_0000_0000u64,
            over ==> spec_digits_val(s@, d0 as int, k as int) > 0x8000_0000_0000_0000,
        decreases e - k,
    {
        let c: char = s[k];
        proof {
            assert(is_digit(s@[k as int]));
        }
        let d: u64 = ((c as u32) - ('0' as u32)) as u64;
        proof {
            assert(d as int == digit_val(c));
            assert(spec_digits_val(s@, d0 as int, k as int + 1) == spec_digits_val(
                s@,
                d0 as int,
                k as int,
            ) * 10 + digit_val(s@[k as int]));
        }
        if over {
        } else if acc > 922337203685477580u64 {
            over = true;
        } else {
            let next: u64 = acc * 10 + d;
            if next > 0x8000_0000_0000_0000u64 {
                over = true;
            } else {
                acc = next;
            }
        }
        k = k + 1;
    }
    if over {
        return None;
    }
    if neg {
        if acc == 0x8000_0000_0000_0000u64 {
            Some((i64::MIN, e))
        } else {
            Some((-(acc as i64), e))
        }
    } else {
        if acc > 0x7fff_ffff_ffff_ffffu64 {
            return None;
        }
        Some((acc as i64, e))
    }
}

/// Parses one JSON value at `i`.
#[verifier::rlimit(50)]
fn parse_value_chars(s: &Vec<char>, i: usize, fuel: usize) -> (r: Option<(JsonValue, usize)>)
    requires
        i <= s@.len(),
    ensures
        match r {
            Some((v, j)) => spec_parse_value(s@, i as int, fuel as nat) == Some(
                (jview(v), j as int),
            ) && j <= s@.len(),
            None => spec_parse_value(s@, i as int, fuel as nat) is None,
        },
    decreases fuel,
{
    if fuel == 0 {
        return None;
    }
    let n: usize = s.len();
    let j: usize = skip_whitespace(s, i);
    if j >= n {
        return None;
    }
    let c: char = s[j];
    if c == 'n' {
        if n - j > 3 && s[j + 1] == 'u' && s[j + 2] == 'l' && s[j + 3] == 'l' {
            proof {
                assert(s@.subrange(j as int, j as int + 4) =~= seq!['n', 'u', 'l', 'l']);
            }
            Some((JsonValue::Null, j + 4))
        } else {
            proof {
                if spec_has(s@, j as int, seq!['n', 'u', 'l', 'l']) {
                    assert(s@.subrange(j as int, j as int + 4)[1] == s@[j as int + 1]);
                    assert(s@.subrange(j as int, j as int + 4)[2] == s@[j as int + 2]);
                    assert(s@.subrange(j as int, j as int + 4)[3] == s@[j as int + 3]);
                }
            }
            None
        }
    } else if c == 't' {
        if n - j > 3 && s[j + 1] == 'r' && s[j + 2] == 'u' && s[j + 3] == 'e' {
            proof {
                assert(s@.subrange(j as int, j as int + 4) =~= seq!['t', 'r', 'u', 'e']);
            }
            Some((JsonValue::Bool(true), j + 4))
        } else {
            proof {
                if spec_has(s@, j as int, seq!['t', 'r', 'u', 'e']) {
                    assert(s@.subrange(j as int, j as int + 4)[1] == s@[j as int + 1]);
                    assert(s@.subrange(j as int, j as int + 4)[2] == s@[j as int + 2]);
                    assert(s@.subrange(j as int, j as int + 4)[3] == s@[j as int + 3]);
                }
            }
            None
        }
    } else if c == 'f' {
        if n - j > 4 && s[j + 1] == 'a' && s[j + 2] == 'l' && s[j + 3] == 's' && s[j + 4] == 'e' {
            proof {
                assert(s@.subrange(j as int, j as int + 5) =~= seq!['f', 'a', 'l', 's', 'e']);
            }
            Some((JsonValue::Bool(false), j + 5))
        } else {
            proof {
                if spec_has(s@, j as int, seq!['f', 'a', 'l', 's', 'e']) {
                    assert(s@.subrange(j as int, j as int + 5)[1] == s@[j as int + 1]);
                    assert(s@.subrange(j as int, j as int + 5)[2] == s@[j as int + 2]);
                    assert(s@.subrange(j as int, j as int + 5)[3] == s@[j as int + 3]);
                    assert(s@.subrange(j as int, j as int + 5)[4] == s@[j as int + 4]);
                }
            }
            None
        }
    } else if c == '"' {
        match parse_string_chars(s, j + 1) {
            Some((t, k)) => {
                let st: String = chars_string(&t);
                Some((JsonValue::Str(st), k))
            },
            None => None,
        }
    } else if c == '-' || ('0' <= c && c <= '9') {
        match parse_number_chars(s, j) {
            Some((v, k)) => Some((JsonValue::Int(v), k)),
            None => None,
        }
    } else if c == '[' {
        let k: usize = skip_whitespace(s, j + 1);
        if k < n && s[k] == ']' {
            let items: Vec<JsonValue> = Vec::new();
            proof {
                assert(jview_elems(items@) =~= Seq::<JsonData>::empty());
            }
            Some((JsonValue::Arr(items), k + 1))
        } else {
            match parse_elements_chars(s, j + 1, fuel - 1) {
                Some((items, e)) => Some((JsonValue::Arr(items), e)),
                None => None,
            }
        }
    } else if c == '{' {
        let k: usize = skip_whitespace(s, j + 1);
        if k < n && s[k] == '}' {
            let m: JsonMap = JsonMap::new();
            proof {
                lemma_map_view(&m);
                assert(m@ =~= Seq::<(Seq<char>, JsonData)>::empty());
            }
            Some((JsonValue::Obj(m), k + 1))
        } else {
            match parse_members_chars(s, j + 1, fuel - 1) {
                Some((m, e)) => {
                    proof {
                        lemma_map_view(&m);
                    }
                    Some((JsonValue::Obj(m), e))
                },
                None => None,
            }
        }
    } else {
        None
    }
}

/// Parses one or more comma-separated array elements and the closing
/// bracket.
fn parse_elements_chars(s: &Vec<char>, i: usize, fuel: usize) -> (r: Option<(Vec<JsonValue>, usize)>)
    requires
        i <= s@.len(),
    ensures
        match r {
            Some((items, j)) => spec_parse_elements(s@, i as int, fuel as nat) == Some(
                (jview_elems(items@), j as int),
            ) && j <= s@.len(),
            None => spec_parse_elements(s@, i as int, fuel as nat) is None,
        },
    decreases fuel,
{
    if fuel == 0 {
        return None;
    }
    match parse_value_chars(s, i, fuel - 1) {
        None => None,
        Some((v, j)) => {
            let k: usize = skip_whitespace(s, j);
            let n: usize = s.len();
            if k < n && s[k] == ',' {
                match parse_elements_chars(s, k + 1, fuel - 1) {
                    None => None,
                    Some((rest, e)) => {
                        let ghost rest_prev = rest@;
                        let mut items: Vec<JsonValue> = rest;
                        items.insert(0, v);
                        proof {
                            assert(items@.drop_first() =~= rest_prev);
                            assert(jview_elems(items@) =~= seq![jview(v)] + jview_elems(
                                rest_prev,
                            ));
                        }
                        Some((items, e))
                    },
                }
            } else if k < n && s[k] == ']' {
                let mut items: Vec<JsonValue> = Vec::new();
                items.push(v);
                proof {
                    assert(items@[0] == v);
                    assert(items@.drop_first() =~= Seq::<JsonValue>::empty());
                    assert(jview_elems(Seq::<JsonValue>::empty()) =~= Seq::<JsonData>::empty());
                    assert(jview_elems(items@) =~= seq![jview(v)]);
                }
                Some((items, k + 1))
            } else {
                None
            }
        },
    }
}

/// Parses one or more comma-separated object entries and the closing brace.
fn parse_members_chars(s: &Vec<char>, i: usize, fuel: usize) -> (r: Option<(JsonMap, usize)>)
    requires
        i <= s@.len(),
    ensures
        match r {
            Some((m, j)) => spec_parse_members(s@, i as int, fuel as nat) == Some(
                (m@, j as int),
            ) && j <= s@.len(),
            None => spec_parse_members(s@, i as int, fuel as nat) is None,
        },
    decreases fuel,
{
    if fuel == 0 {
        return None;
    }
    let n: usize = s.len();
    let j: usize = skip_whitespace(s, i);
    if !(j < n && s[j] == '"') {
        return None;
    }
    match parse_string_chars(s, j + 1) {
        None => None,
        Some((key_chars, j2)) => {
            let key: String = chars_string(&key_chars);
            let j3: usize = skip_whitespace(s, j2);
            if !(j3 < n && s[j3] == ':') {
                return None;
            }
            match parse_value_chars(s, j3 + 1, fuel - 1) {
                None => None,
                Some((v, j4)) => {
                    let j5: usize = skip_whitespace(s, j4);
                    if j5 < n && s[j5] == ',' {
                        match parse_members_chars(s, j5 + 1, fuel - 1) {
                            None => None,
                            Some((rest, e)) => {
                                let ghost rest_prev = rest@;
                                let mut m: JsonMap = rest;
                                let ghost kv = key@;
                                let ghost vv = jview(v);
                                m.prepend(key, v);
                                proof {
                                    assert(m@ =~= seq![(kv, vv)] + rest_prev);
                                }
                                Some((m, e))
                            },
                        }
                    } else if j5 < n && s[j5] == '}' {
                        let mut m: JsonMap = JsonMap::new();
                        let ghost kv = key@;
                        let ghost vv = jview(v);
                        m.prepend(key, v);
                        proof {
                            assert(m@ =~= seq![(kv, vv)]);
                        }
                        Some((m, j5 + 1))
                    } else {
                        None
                    }
                },
            }
        },
    }
}

/// Parses a whole JSON text: one value, with nothing but whitespace around
/// it.
pub fn parse_json_str(text: &str) -> (r: Option<JsonValue>)
    ensures
        match r {
            Some(v) => spec_parse_json(text@) == Some(jview(v)),
            None => spec_parse_json(text@) is None,
        },
{
    let s: Vec<char> = string_chars(text);
    if s.len() > 0x4000_0000usize {
        return None;
    }
    let fuel: usize = 2 * s.len() + 2;
    match parse_value_chars(&s, 0, fuel) {
        Some((v, j)) => {
            let k: usize = skip_whitespace(&s, j);
            if k == s.len() {
                Some(v)
            } else {
                None
            }
        },
        None => None,
    }
}

} // verus!
