//! The verified JSON text parser: from characters to the `Json` model.
//! The grammar is standard JSON, with two deliberate narrowings that fit the
//! event stream: a number literal with a fraction or exponent, or an integer
//! beyond the signed 64-bit range, is kept as raw text rather than a float,
//! and an unpaired surrogate escape is a parse failure.

use crate::json::{spec_fields_view, spec_jsons_view, Json, JsonV};
use crate::text::{chars_to_string, str_to_chars};
use vstd::prelude::*;

verus! {

/// JSON whitespace.
pub open spec fn spec_is_ws(c: char) -> bool {
    c == ' ' || c == '\t' || c == '\n' || c == '\r'
}

/// The first index at or after `i` that holds a non-whitespace character,
/// or the length if none does.
pub open spec fn spec_skip_ws(s: Seq<char>, i: int) -> int
    decreases s.len() - i,
{
    if i < 0 || i >= s.len() {
        i
    } else if spec_is_ws(s[i]) {
        spec_skip_ws(s, i + 1)
    } else {
        i
    }
}

fn skip_ws(cs: &Vec<char>, i: usize) -> (r: usize)
    requires
        i <= cs@.len(),
    ensures
        r == spec_skip_ws(cs@, i as int),
        i <= r <= cs@.len(),
    decreases cs@.len() - i,
{
    if i < cs.len() {
        let c = cs[i];
        if c == ' ' || c == '\t' || c == '\n' || c == '\r' {
            return skip_ws(cs, i + 1);
        }
    }
    i
}

/// The value of a hexadecimal digit, or -1.
pub open spec fn spec_hex_val(c: char) -> int {
    if '0' <= c && c <= '9' {
        c as int - 48
    } else if 'a' <= c && c <= 'f' {
        c as int - 87
    } else if 'A' <= c && c <= 'F' {
        c as int - 55
    } else {
        -1
    }
}

/// The value of the four hexadecimal digits at `i`, or -1.
pub open spec fn spec_hex4(s: Seq<char>, i: int) -> int {
    if i < 0 || i + 4 > s.len() {
        -1
    } else {
        let a = spec_hex_val(s[i]);
        let b = spec_hex_val(s[i + 1]);
        let c = spec_hex_val(s[i + 2]);
        let d = spec_hex_val(s[i + 3]);
        if a < 0 || b < 0 || c < 0 || d < 0 {
            -1
        } else {
            a * 4096 + b * 256 + c * 16 + d
        }
    }
}

fn hex_val(c: char) -> (r: i32)
    ensures
        r as int == spec_hex_val(c),
{
    if '0' <= c && c <= '9' {
        (c as u32 as i32) - 48
    } else if 'a' <= c && c <= 'f' {
        (c as u32 as i32) - 87
    } else if 'A' <= c && c <= 'F' {
        (c as u32 as i32) - 55
    } else {
        -1
    }
}

fn hex4(cs: &Vec<char>, i: usize) -> (r: i32)
    requires
        i <= cs@.len(),
    ensures
        r as int == spec_hex4(cs@, i as int),
        r >= -1,
        r < 65536,
{
    if cs.len() - i < 4 {
        return -1;
    }
    let a = hex_val(cs[i]);
    let b = hex_val(cs[i + 1]);
    let c = hex_val(cs[i + 2]);
    let d = hex_val(cs[i + 3]);
    if a < 0 || b < 0 || c < 0 || d < 0 {
        return -1;
    }
    a * 4096 + b * 256 + c * 16 + d
}

/// Relies on `char::from_u32`: it returns the character with code point `x`
/// exactly when `x` is not a surrogate code point and is at most 0x10FFFF.
#[verifier::external_body]
fn char_from_u32(x: u32) -> (r: Option<char>)
    ensures
        (r is Some) <==> (x < 0xD800 || (0xE000 <= x && x <= 0x10FFFF)),
        r matches Some(c) ==> c == x as char,
{
    char::from_u32(x)
}

/// One decoded character of a string literal body at `i` (a position that
/// does not hold the closing quote): the character and the index just past
/// what encoded it.
pub open spec fn spec_str_step(s: Seq<char>, i: int) -> Option<(char, int)> {
    if i < 0 || i >= s.len() {
        None
    } else if s[i] == '\\' {
        if i + 1 >= s.len() {
            None
        } else {
            let e = s[i + 1];
            if e == '"' || e == '\\' || e == '/' {
                Some((e, i + 2))
            } else if e == 'b' {
                Some((8 as char, i + 2))
            } else if e == 'f' {
                Some((12 as char, i + 2))
            } else if e == 'n' {
                Some(('\n', i + 2))
            } else if e == 'r' {
                Some(('\r', i + 2))
            } else if e == 't' {
                Some(('\t', i + 2))
            } else if e == 'u' {
                let cp = spec_hex4(s, i + 2);
                if cp < 0 {
                    None
                } else if 0xD800 <= cp && cp < 0xDC00 {
                    if i + 8 <= s.len() && s[i + 6] == '\\' && s[i + 7] == 'u' {
                        let lo = spec_hex4(s, i + 8);
                        if 0xDC00 <= lo && lo < 0xE000 {
                            let joint = 0x10000 + (cp - 0xD800) * 0x400 + (lo - 0xDC00);
                            Some((joint as char, i + 12))
                        } else {
                            None
                        }
                    } else {
                        None
                    }
                } else if 0xDC00 <= cp && cp < 0xE000 {
                    None
                } else {
                    Some((cp as char, i + 6))
                }
            } else {
                None
            }
        }
    } else if (s[i] as u32) < 32 {
        None
    } else {
        Some((s[i], i + 1))
    }
}

pub proof fn lemma_str_step_bounds(s: Seq<char>, i: int)
    ensures
        spec_str_step(s, i) matches Some((c, m)) ==> i < m <= s.len(),
{
}

/// The decoded content of a string literal body starting at `i` (just after
/// the opening quote), together with the index just past the closing quote.
pub open spec fn spec_parse_str_body(s: Seq<char>, i: int) -> Option<(Seq<char>, int)>
    decreases s.len() - i,
    via spec_parse_str_body_decreases
{
    if i < 0 || i >= s.len() {
        None
    } else if s[i] == '"' {
        Some((Seq::empty(), i + 1))
    } else {
        match spec_str_step(s, i) {
            Some((c, m)) => spec_str_cons(c, spec_parse_str_body(s, m)),
            None => None,
        }
    }
}

#[via_fn]
proof fn spec_parse_str_body_decreases(s: Seq<char>, i: int) {
    lemma_str_step_bounds(s, i);
}

/// Prepend one decoded character to a string-body parse result.
pub open spec fn spec_str_cons(c: char, rest: Option<(Seq<char>, int)>) -> Option<(
    Seq<char>,
    int,
)> {
    match rest {
        Some((t, m)) => Some((seq![c] + t, m)),
        None => None,
    }
}

pub proof fn lemma_parse_str_body_bounds(s: Seq<char>, i: int)
    ensures
        spec_parse_str_body(s, i) matches Some((t, m)) ==> i < m <= s.len(),
    decreases s.len() - i,
{
    if 0 <= i < s.len() && s[i] != '"' {
        match spec_str_step(s, i) {
            Some((c, m2)) => {
                lemma_str_step_bounds(s, i);
                lemma_parse_str_body_bounds(s, m2);
            },
            None => {},
        }
    }
}

fn str_step(cs: &Vec<char>, i: usize) -> (r: Option<(char, usize)>)
    requires
        i <= cs@.len(),
    ensures
        match r {
            Some((c, m)) => spec_str_step(cs@, i as int) == Some((c, m as int)) && i < m
                <= cs@.len(),
            None => spec_str_step(cs@, i as int) is None,
        },
{
    let n = cs.len();
    if i >= n {
        return None;
    }
    let c = cs[i];
    if c == '\\' {
        if n - i < 2 {
            return None;
        }
        let e = cs[i + 1];
        if e == '"' || e == '\\' || e == '/' {
            assert(spec_str_step(cs@, i as int) == Some((e, i + 2 as int)));
            Some((e, i + 2))
        } else if e == 'b' {
            let bs: char = 8u8 as char;
            assert(bs == (8 as char));
            assert(spec_str_step(cs@, i as int) == Some((bs, i + 2 as int)));
            Some((bs, i + 2))
        } else if e == 'f' {
            let ff: char = 12u8 as char;
            assert(ff == (12 as char));
            assert(spec_str_step(cs@, i as int) == Some((ff, i + 2 as int)));
            Some((ff, i + 2))
        } else if e == 'n' {
            assert(spec_str_step(cs@, i as int) == Some(('\n', i + 2 as int)));
            Some(('\n', i + 2))
        } else if e == 'r' {
            assert(spec_str_step(cs@, i as int) == Some(('\r', i + 2 as int)));
            Some(('\r', i + 2))
        } else if e == 't' {
            assert(spec_str_step(cs@, i as int) == Some(('\t', i + 2 as int)));
            Some(('\t', i + 2))
        } else if e == 'u' {
            let cp = hex4(cs, i + 2);
            if cp < 0 {
                None
            } else if 0xD800 <= cp && cp < 0xDC00 {
                if n - i >= 8 && cs[i + 6] == '\\' && cs[i + 7] == 'u' {
                    let lo = hex4(cs, i + 8);
                    if 0xDC00 <= lo && lo < 0xE000 {
                        proof {
                            assert(spec_hex4(cs@, i + 8) >= 0);
                            assert(i + 12 <= cs@.len());
                        }
                        let joint: u32 = 0x10000 + (cp as u32 - 0xD800) * 0x400 + (lo as u32
                            - 0xDC00);
                        match char_from_u32(joint) {
                            Some(ch) => {
                                assert(ch == (joint as int) as char);
                                assert(spec_str_step(cs@, i as int) == Some((ch, i + 12 as int)));
                                Some((ch, i + 12))
                            },
                            None => {
                                proof {
                                    // a joined surrogate pair is a valid code
                                    // point, so this arm cannot run
                                    assert(false);
                                }
                                None
                            },
                        }
                    } else {
                        None
                    }
                } else {
                    None
                }
            } else if 0xDC00 <= cp && cp < 0xE000 {
                None
            } else {
                proof {
                    assert(spec_hex4(cs@, i + 2) >= 0);
                    assert(i + 6 <= cs@.len());
                }
                match char_from_u32(cp as u32) {
                    Some(ch) => {
                        assert(ch == (cp as int) as char);
                        assert(spec_str_step(cs@, i as int) == Some((ch, i + 6 as int)));
                        Some((ch, i + 6))
                    },
                    None => {
                        proof {
                            // excluded by the surrogate checks above
                            assert(false);
                        }
                        None
                    },
                }
            }
        } else {
            None
        }
    } else if (c as u32) < 32 {
        None
    } else {
        assert(spec_str_step(cs@, i as int) == Some((c, i + 1 as int)));
        Some((c, i + 1))
    }
}

fn parse_str_body(cs: &Vec<char>, start: usize) -> (r: Option<(String, usize)>)
    requires
        start <= cs@.len(),
    ensures
        match r {
            Some((t, m)) => spec_parse_str_body(cs@, start as int) == Some((t@, m as int)) && start
                < m <= cs@.len(),
            None => spec_parse_str_body(cs@, start as int) is None,
        },
{
    let n = cs.len();
    let mut acc: Vec<char> = Vec::new();
    let mut i: usize = start;
    loop
        invariant
            start <= i <= n,
            n == cs@.len(),
            spec_parse_str_body(cs@, start as int) == (match spec_parse_str_body(cs@, i as int) {
                Some((t, m)) => Some((acc@ + t, m)),
                None => None,
            }),
        decreases n - i,
    {
        proof {
            lemma_parse_str_body_bounds(cs@, i as int);
        }
        if i >= n {
            return None;
        }
        let c = cs[i];
        if c == '"' {
            proof {
                assert(spec_parse_str_body(cs@, i as int) == Some(
                    (Seq::<char>::empty(), i + 1 as int),
                ));
                assert(acc@ + Seq::<char>::empty() =~= acc@);
            }
            let t = chars_to_string(&acc);
            return Some((t, i + 1));
        }
        match str_step(cs, i) {
            Some((ch, m)) => {
                proof {
                    assert(spec_parse_str_body(cs@, i as int) == spec_str_cons(
                        ch,
                        spec_parse_str_body(cs@, m as int),
                    ));
                }
                acc.push(ch);
                proof {
                    lemma_str_cons_assoc(acc@, ch, cs@, m as int);
                }
                i = m;
            },
            None => {
                return None;
            },
        }
    }
}

proof fn lemma_str_cons_assoc(acc_new: Seq<char>, c: char, s: Seq<char>, next: int)
    requires
        acc_new.len() > 0,
        acc_new.last() == c,
    ensures
        (match spec_parse_str_body(s, next) {
            Some((t, m)) => Some((acc_new.drop_last() + (seq![c] + t), m)),
            None => None,
        }) == (match spec_parse_str_body(s, next) {
            Some((t, m)) => Some((acc_new + t, m)),
            None => None,
        }),
{
    match spec_parse_str_body(s, next) {
        Some((t, m)) => {
            assert(acc_new.drop_last() + (seq![c] + t) =~= acc_new + t);
        },
        None => {},
    }
}

/// A decimal digit.
pub open spec fn spec_is_digit(c: char) -> bool {
    '0' <= c && c <= '9'
}

/// Length of the run of decimal digits starting at `i`.
pub open spec fn spec_digit_run(s: Seq<char>, i: int) -> int
    decreases s.len() - i,
{
    if i < 0 || i >= s.len() {
        0
    } else if spec_is_digit(s[i]) {
        1 + spec_digit_run(s, i + 1)
    } else {
        0
    }
}

/// A character that may appear in a number literal.
pub open spec fn spec_is_numchar(c: char) -> bool {
    spec_is_digit(c) || c == '.' || c == 'e' || c == 'E' || c == '+' || c == '-'
}

/// Length of the run of number characters starting at `i`.
pub open spec fn spec_num_run(s: Seq<char>, i: int) -> int
    decreases s.len() - i,
{
    if i < 0 || i >= s.len() {
        0
    } else if spec_is_numchar(s[i]) {
        1 + spec_num_run(s, i + 1)
    } else {
        0
    }
}

/// The value of the decimal digits `s[i..j]`.
pub open spec fn spec_dec_val(s: Seq<char>, i: int, j: int) -> int
    decreases j - i,
{
    if j <= i {
        0
    } else {
        spec_dec_val(s, i, j - 1) * 10 + (s[j - 1] as u32 - 48)
    }
}

/// Ten to the `k`.
pub open spec fn spec_pow10(k: nat) -> int
    decreases k,
{
    if k == 0 {
        1
    } else {
        10 * spec_pow10((k - 1) as nat)
    }
}

proof fn lemma_pow10_le(a: nat, b: nat)
    requires
        a <= b,
    ensures
        0 < spec_pow10(a) <= spec_pow10(b),
    decreases b,
{
    if a == b {
        if b > 0 {
            lemma_pow10_le((a - 1) as nat, (b - 1) as nat);
        }
    } else {
        lemma_pow10_le(a, (b - 1) as nat);
    }
}

proof fn lemma_dec_val_upper(s: Seq<char>, i: int, j: int)
    requires
        0 <= i <= j <= s.len(),
        forall|m: int| i <= m < j ==> spec_is_digit(s[m]),
    ensures
        0 <= spec_dec_val(s, i, j) < spec_pow10((j - i) as nat),
    decreases j - i,
{
    if j <= i {
    } else {
        lemma_dec_val_upper(s, i, j - 1);
        assert(spec_is_digit(s[j - 1]));
        assert(0 <= s[j - 1] as u32 - 48 < 10);
        assert(spec_pow10((j - i) as nat) == 10 * spec_pow10((j - i - 1) as nat));
    }
}

proof fn lemma_dec_val_lower(s: Seq<char>, i: int, j: int)
    requires
        0 <= i < j <= s.len(),
        forall|m: int| i <= m < j ==> spec_is_digit(s[m]),
        s[i] as u32 != 48,
    ensures
        spec_dec_val(s, i, j) >= spec_pow10((j - i - 1) as nat),
    decreases j - i,
{
    if j == i + 1 {
        assert(spec_is_digit(s[i]));
        assert(spec_dec_val(s, i, i) == 0);
        assert(spec_dec_val(s, i, j) == s[i] as u32 - 48);
        assert(s[i] as u32 - 48 >= 1);
    } else {
        lemma_dec_val_lower(s, i, j - 1);
        assert(spec_is_digit(s[j - 1]));
        assert(spec_pow10((j - i - 1) as nat) == 10 * spec_pow10((j - i - 2) as nat));
        assert(spec_dec_val(s, i, j) >= spec_dec_val(s, i, j - 1) * 10);
    }
}

proof fn lemma_digit_run_position(s: Seq<char>, i: int, p: int)
    requires
        0 <= i,
        i + p <= s.len(),
        0 <= p,
        forall|m: int| i <= m < i + p ==> spec_is_digit(s[m]),
        i + p == s.len() || !spec_is_digit(s[i + p]),
    ensures
        spec_digit_run(s, i) == p,
    decreases p,
{
    if p == 0 {
    } else {
        assert(spec_is_digit(s[i]));
        lemma_digit_run_position(s, i + 1, p - 1);
    }
}

proof fn lemma_num_run_nonneg(s: Seq<char>, i: int)
    ensures
        spec_num_run(s, i) >= 0,
    decreases s.len() - i,
{
    if 0 <= i < s.len() && spec_is_numchar(s[i]) {
        lemma_num_run_nonneg(s, i + 1);
    }
}

proof fn lemma_num_run_position(s: Seq<char>, i: int, p: int)
    requires
        0 <= i,
        i + p <= s.len(),
        0 <= p,
        forall|m: int| i <= m < i + p ==> spec_is_numchar(s[m]),
        i + p == s.len() || !spec_is_numchar(s[i + p]),
    ensures
        spec_num_run(s, i) == p,
    decreases p,
{
    if p == 0 {
    } else {
        assert(spec_is_numchar(s[i]));
        lemma_num_run_position(s, i + 1, p - 1);
    }
}

/// The number literal starting at `i`: an integer in the signed 64-bit
/// range becomes `Int`; any other well-formed literal is kept as raw text.
pub open spec fn spec_parse_number(s: Seq<char>, i: int) -> Option<(JsonV, int)> {
    let neg = 0 <= i < s.len() && s[i] == '-';
    let d0 = if neg {
        i + 1
    } else {
        i
    };
    let rl = spec_digit_run(s, d0);
    if rl == 0 {
        None
    } else if s[d0] as u32 == 48 && rl > 1 {
        None
    } else {
        let dend = d0 + rl;
        if dend < s.len() && (s[dend] == '.' || s[dend] == 'e' || s[dend] == 'E') {
            let nend = d0 + spec_num_run(s, d0);
            Some((JsonV::NumText(s.subrange(i, nend)), nend))
        } else {
            let v = spec_dec_val(s, d0, dend);
            if neg {
                if v <= 0x8000_0000_0000_0000 {
                    Some((JsonV::Int(-v), dend))
                } else {
                    Some((JsonV::NumText(s.subrange(i, dend)), dend))
                }
            } else {
                if v <= 0x7fff_ffff_ffff_ffff {
                    Some((JsonV::Int(v), dend))
                } else {
                    Some((JsonV::NumText(s.subrange(i, dend)), dend))
                }
            }
        }
    }
}

fn copy_range(cs: &Vec<char>, a: usize, b: usize) -> (r: String)
    requires
        a <= b <= cs@.len(),
    ensures
        r@ == cs@.subrange(a as int, b as int),
{
    let mut acc: Vec<char> = Vec::new();
    let mut k: usize = a;
    while k < b
        invariant
            a <= k <= b <= cs@.len(),
            acc@ =~= cs@.subrange(a as int, k as int),
        decreases b - k,
    {
        let c = cs[k];
        acc.push(c);
        k = k + 1;
        assert(acc@ =~= cs@.subrange(a as int, k as int));
    }
    chars_to_string(&acc)
}

fn digit_run(cs: &Vec<char>, i: usize) -> (r: usize)
    requires
        i <= cs@.len(),
    ensures
        r as int == spec_digit_run(cs@, i as int),
        i + r <= cs@.len(),
        forall|m: int| i <= m < i + r ==> spec_is_digit(cs@[m]),
        i + r == cs@.len() || !spec_is_digit(cs@[i + r]),
{
    let n = cs.len();
    let mut k: usize = i;
    while k < n && '0' <= cs[k] && cs[k] <= '9'
        invariant
            i <= k <= n,
            n == cs@.len(),
            forall|m: int| i <= m < k ==> spec_is_digit(cs@[m]),
        decreases n - k,
    {
        k = k + 1;
    }
    proof {
        lemma_digit_run_position(cs@, i as int, k - i);
    }
    k - i
}

fn num_run(cs: &Vec<char>, i: usize) -> (r: usize)
    requires
        i <= cs@.len(),
    ensures
        r as int == spec_num_run(cs@, i as int),
        i + r <= cs@.len(),
{
    let n = cs.len();
    let mut k: usize = i;
    while k < n && ('0' <= cs[k] && cs[k] <= '9' || cs[k] == '.' || cs[k] == 'e' || cs[k] == 'E'
        || cs[k] == '+' || cs[k] == '-')
        invariant
            i <= k <= n,
            n == cs@.len(),
            forall|m: int| i <= m < k ==> spec_is_numchar(cs@[m]),
        decreases n - k,
    {
        k = k + 1;
    }
    proof {
        lemma_num_run_position(cs@, i as int, k - i);
    }
    k - i
}

fn is_zero_digit(c: char) -> (r: bool)
    ensures
        r == (c as u32 == 48),
{
    c == '0'
}

#[verifier::rlimit(60)]
fn parse_number(cs: &Vec<char>, i: usize) -> (r: Option<(Json, usize)>)
    requires
        i <= cs@.len(),
    ensures
        match r {
            Some((j, m)) => spec_parse_number(cs@, i as int) == Some((j@, m as int)) && i < m
                <= cs@.len(),
            None => spec_parse_number(cs@, i as int) is None,
        },
{
    let n = cs.len();
    let neg = i < n && cs[i] == '-';
    let d0: usize = if neg {
        i + 1
    } else {
        i
    };
    let rl = digit_run(cs, d0);
    if rl == 0 {
        return None;
    }
    let zd = is_zero_digit(cs[d0]);
    if zd && rl > 1 {
        return None;
    }
    let dend = d0 + rl;
    if dend < n && (cs[dend] == '.' || cs[dend] == 'e' || cs[dend] == 'E') {
        let nr = num_run(cs, d0);
        let nend = d0 + nr;
        proof {
            assert(spec_is_numchar(cs@[dend as int]));
            assert(spec_is_digit(cs@[d0 as int]));
            assert(spec_is_numchar(cs@[d0 as int]));
            assert(spec_num_run(cs@, d0 as int) == 1 + spec_num_run(cs@, d0 + 1 as int));
            assert(spec_num_run(cs@, d0 + 1 as int) >= 0) by {
                lemma_num_run_nonneg(cs@, d0 + 1 as int);
            }
            assert(nr > 0);
        }
        let raw = copy_range(cs, i, nend);
        return Some((Json::NumText(raw), nend));
    }
    if rl >= 20 {
        proof {
            lemma_dec_val_lower(cs@, d0 as int, dend as int);
            lemma_pow10_le(19, (rl - 1) as nat);
            assert(spec_pow10(19) == 10_000_000_000_000_000_000) by {
                reveal_with_fuel(spec_pow10, 21);
            }
        }
        let raw = copy_range(cs, i, dend);
        return Some((Json::NumText(raw), dend));
    }
    let mut acc: u128 = 0;
    let mut k: usize = d0;
    proof {
        lemma_pow10_le((rl - (dend - k)) as nat, 19);
        assert(spec_pow10(19) == 10_000_000_000_000_000_000) by {
            reveal_with_fuel(spec_pow10, 21);
        }
    }
    while k < dend
        invariant
            d0 <= k <= dend <= cs@.len(),
            dend - d0 == rl <= 19,
            forall|m: int| d0 <= m < dend ==> spec_is_digit(cs@[m]),
            acc as int == spec_dec_val(cs@, d0 as int, k as int),
            (acc as int) < spec_pow10((k - d0) as nat),
            spec_pow10((k - d0) as nat) <= 10_000_000_000_000_000_000,
        decreases dend - k,
    {
        let c = cs[k];
        proof {
            assert(spec_is_digit(cs@[k as int]));
            assert(spec_pow10((k + 1 - d0) as nat) == 10 * spec_pow10((k - d0) as nat));
            lemma_pow10_le((k + 1 - d0) as nat, 19);
            assert(spec_pow10(19) == 10_000_000_000_000_000_000) by {
                reveal_with_fuel(spec_pow10, 21);
            }
        }
        let d: u128 = (c as u32 - 48) as u128;
        acc = acc * 10 + d;
        k = k + 1;
    }
    if neg {
        if acc <= 0x8000_0000_0000_0000 {
            let v: i64 = (-(acc as i128)) as i64;
            proof {
                assert(v as int == -(acc as int));
            }
            return Some((Json::Int(v), dend));
        } else {
            let raw = copy_range(cs, i, dend);
            return Some((Json::NumText(raw), dend));
        }
    } else {
        if acc <= 0x7fff_ffff_ffff_ffff {
            let v: i64 = acc as i64;
            return Some((Json::Int(v), dend));
        } else {
            let raw = copy_range(cs, i, dend);
            return Some((Json::NumText(raw), dend));
        }
    }
}

/// A JSON value beginning at `i` (after whitespace): the value and the
/// index just past it. The fuel bounds recursion depth; the top-level entry
/// supplies more than any input of that length can use.
pub open spec fn spec_parse_value(s: Seq<char>, i: int, fuel: nat) -> Option<(JsonV, int)>
    decreases fuel,
{
    if fuel == 0 {
        None
    } else {
        let j = spec_skip_ws(s, i);
        if j >= s.len() {
            None
        } else if s[j] == 'n' {
            if j + 4 <= s.len() && s[j + 1] == 'u' && s[j + 2] == 'l' && s[j + 3] == 'l' {
                Some((JsonV::Null, j + 4))
            } else {
                None
            }
        } else if s[j] == 't' {
            if j + 4 <= s.len() && s[j + 1] == 'r' && s[j + 2] == 'u' && s[j + 3] == 'e' {
                Some((JsonV::Bool(true), j + 4))
            } else {
                None
            }
        } else if s[j] == 'f' {
            if j + 5 <= s.len() && s[j + 1] == 'a' && s[j + 2] == 'l' && s[j + 3] == 's' && s[j + 4]
                == 'e' {
                Some((JsonV::Bool(false), j + 5))
            } else {
                None
            }
        } else if s[j] == '"' {
            match spec_parse_str_body(s, j + 1) {
                Some((t, m)) => Some((JsonV::Str(t), m)),
                None => None,
            }
        } else if s[j] == '[' {
            let k = spec_skip_ws(s, j + 1);
            if k < s.len() && s[k] == ']' {
                Some((JsonV::Arr(Seq::empty()), k + 1))
            } else {
                match spec_parse_elems(s, j + 1, (fuel - 1) as nat) {
                    Some((els, m)) => Some((JsonV::Arr(els), m)),
                    None => None,
                }
            }
        } else if s[j] == '{' {
            let k = spec_skip_ws(s, j + 1);
            if k < s.len() && s[k] == '}' {
                Some((JsonV::Obj(Seq::empty()), k + 1))
            } else {
                match spec_parse_members(s, j + 1, (fuel - 1) as nat) {
                    Some((fs, m)) => Some((JsonV::Obj(fs), m)),
                    None => None,
                }
            }
        } else {
            spec_parse_number(s, j)
        }
    }
}

/// The elements of a non-empty array, from the first element through the
/// closing bracket.
pub open spec fn spec_parse_elems(s: Seq<char>, i: int, fuel: nat) -> Option<(Seq<JsonV>, int)>
    decreases fuel,
{
    if fuel == 0 {
        None
    } else {
        match spec_parse_value(s, i, (fuel - 1) as nat) {
            None => None,
            Some((v, m)) => {
                let k = spec_skip_ws(s, m);
                if k >= s.len() {
                    None
                } else if s[k] == ',' {
                    match spec_parse_elems(s, k + 1, (fuel - 1) as nat) {
                        Some((rest, e)) => Some((seq![v] + rest, e)),
                        None => None,
                    }
                } else if s[k] == ']' {
                    Some((seq![v], k + 1))
                } else {
                    None
                }
            },
        }
    }
}

/// The members of a non-empty object, from the first key through the
/// closing brace.
pub open spec fn spec_parse_members(s: Seq<char>, i: int, fuel: nat) -> Option<(
    Seq<(Seq<char>, JsonV)>,
    int,
)>
    decreases fuel,
{
    if fuel == 0 {
        None
    } else {
        let j = spec_skip_ws(s, i);
        if j >= s.len() || s[j] != '"' {
            None
        } else {
            match spec_parse_str_body(s, j + 1) {
                None => None,
                Some((key, m1)) => {
                    let c = spec_skip_ws(s, m1);
                    if c >= s.len() || s[c] != ':' {
                        None
                    } else {
                        match spec_parse_value(s, c + 1, (fuel - 1) as nat) {
                            None => None,
                            Some((v, m2)) => {
                                let k = spec_skip_ws(s, m2);
                                if k >= s.len() {
                                    None
                                } else if s[k] == ',' {
                                    match spec_parse_members(s, k + 1, (fuel - 1) as nat) {
                                        Some((rest, e)) => Some((seq![(key, v)] + rest, e)),
                                        None => None,
                                    }
                                } else if s[k] == '}' {
                                    Some((seq![(key, v)], k + 1))
                                } else {
                                    None
                                }
                            },
                        }
                    }
                },
            }
        }
    }
}

/// More fuel than parsing an input of this length can use.
pub open spec fn spec_parse_fuel(s: Seq<char>) -> nat {
    (3 * s.len() + 5) as nat
}

/// The JSON value that the whole text `s` holds, allowing leading and
/// trailing whitespace; `None` when `s` is not well-formed JSON.
pub open spec fn spec_parse_text(s: Seq<char>) -> Option<JsonV> {
    match spec_parse_value(s, 0, spec_parse_fuel(s)) {
        Some((v, m)) => if spec_skip_ws(s, m) == s.len() {
            Some(v)
        } else {
            None
        },
        None => None,
    }
}

fn parse_value(cs: &Vec<char>, i: usize, fuel: u128) -> (r: Option<(Json, usize)>)
    requires
        i <= cs@.len(),
    ensures
        match r {
            Some((j, m)) => spec_parse_value(cs@, i as int, fuel as nat) == Some((j@, m as int))
                && m <= cs@.len(),
            None => spec_parse_value(cs@, i as int, fuel as nat) is None,
        },
    decreases fuel,
{
    if fuel == 0 {
        return None;
    }
    let n = cs.len();
    let j = skip_ws(cs, i);
    if j >= n {
        return None;
    }
    let c = cs[j];
    if c == 'n' {
        if n - j >= 4 && cs[j + 1] == 'u' && cs[j + 2] == 'l' && cs[j + 3] == 'l' {
            Some((Json::Null, j + 4))
        } else {
            None
        }
    } else if c == 't' {
        if n - j >= 4 && cs[j + 1] == 'r' && cs[j + 2] == 'u' && cs[j + 3] == 'e' {
            Some((Json::Bool(true), j + 4))
        } else {
            None
        }
    } else if c == 'f' {
        if n - j >= 5 && cs[j + 1] == 'a' && cs[j + 2] == 'l' && cs[j + 3] == 's' && cs[j + 4]
            == 'e' {
            Some((Json::Bool(false), j + 5))
        } else {
            None
        }
    } else if c == '"' {
        match parse_str_body(cs, j + 1) {
            Some((t, m)) => Some((Json::Str(t), m)),
            None => None,
        }
    } else if c == '[' {
        let k = skip_ws(cs, j + 1);
        if k < n && cs[k] == ']' {
            let els: Vec<Json> = Vec::new();
            proof {
                assert(spec_jsons_view(els@) =~= Seq::<JsonV>::empty());
            }
            Some((Json::Arr(els), k + 1))
        } else {
            match parse_elems(cs, j + 1, fuel - 1) {
                Some((els, m)) => Some((Json::Arr(els), m)),
                None => None,
            }
        }
    } else if c == '{' {
        let k = skip_ws(cs, j + 1);
        if k < n && cs[k] == '}' {
            let fs: Vec<(String, Json)> = Vec::new();
            proof {
                assert(spec_fields_view(fs@) =~= Seq::<(Seq<char>, JsonV)>::empty());
            }
            Some((Json::Obj(fs), k + 1))
        } else {
            match parse_members(cs, j + 1, fuel - 1) {
                Some((fs, m)) => Some((Json::Obj(fs), m)),
                None => None,
            }
        }
    } else {
        parse_number(cs, j)
    }
}

fn parse_elems(cs: &Vec<char>, i: usize, fuel: u128) -> (r: Option<(Vec<Json>, usize)>)
    requires
        i <= cs@.len(),
    ensures
        match r {
            Some((els, m)) => spec_parse_elems(cs@, i as int, fuel as nat) == Some(
                (spec_jsons_view(els@), m as int),
            ) && m <= cs@.len(),
            None => spec_parse_elems(cs@, i as int, fuel as nat) is None,
        },
    decreases fuel,
{
    if fuel == 0 {
        return None;
    }
    match parse_value(cs, i, fuel - 1) {
        None => None,
        Some((v, m)) => {
            let k = skip_ws(cs, m);
            if k >= cs.len() {
                None
            } else if cs[k] == ',' {
                match parse_elems(cs, k + 1, fuel - 1) {
                    Some((rest, e)) => {
                        let ghost oldrest = rest@;
                        let mut out = rest;
                        out.insert(0, v);
                        proof {
                            assert(out@ =~= seq![v] + oldrest);
                            lemma_jsons_view_cons(v, oldrest);
                        }
                        Some((out, e))
                    },
                    None => None,
                }
            } else if cs[k] == ']' {
                let out: Vec<Json> = vec![v];
                proof {
                    assert(out@ =~= seq![v]);
                    lemma_jsons_view_cons(v, Seq::empty());
                    assert(seq![v] + Seq::<Json>::empty() =~= seq![v]);
                    assert(spec_jsons_view(out@) =~= seq![v@]);
                }
                Some((out, k + 1))
            } else {
                None
            }
        },
    }
}

proof fn lemma_jsons_view_cons(v: Json, rest: Seq<Json>)
    ensures
        spec_jsons_view(seq![v] + rest) == seq![v@] + spec_jsons_view(rest),
{
    let s = seq![v] + rest;
    assert(s.len() > 0);
    assert(s[0] == v);
    assert(s.drop_first() =~= rest);
    assert(spec_jsons_view(s) =~= seq![v@] + spec_jsons_view(rest));
}

proof fn lemma_fields_view_cons(key: String, v: Json, rest: Seq<(String, Json)>)
    ensures
        spec_fields_view(seq![(key, v)] + rest) == seq![(key@, v@)] + spec_fields_view(rest),
{
    let s = seq![(key, v)] + rest;
    assert(s.len() > 0);
    assert(s[0] == (key, v));
    assert(s.drop_first() =~= rest);
    assert(spec_fields_view(s) =~= seq![(key@, v@)] + spec_fields_view(rest));
}

fn parse_members(cs: &Vec<char>, i: usize, fuel: u128) -> (r: Option<(Vec<(String, Json)>, usize)>)
    requires
        i <= cs@.len(),
    ensures
        match r {
            Some((fs, m)) => spec_parse_members(cs@, i as int, fuel as nat) == Some(
                (spec_fields_view(fs@), m as int),
            ) && m <= cs@.len(),
            None => spec_parse_members(cs@, i as int, fuel as nat) is None,
        },
    decreases fuel,
{
    if fuel == 0 {
        return None;
    }
    let n = cs.len();
    let j = skip_ws(cs, i);
    if j >= n {
        return None;
    }
    if cs[j] != '"' {
        return None;
    }
    match parse_str_body(cs, j + 1) {
        None => None,
        Some((key, m1)) => {
            let c = skip_ws(cs, m1);
            if c >= n {
                return None;
            }
            if cs[c] != ':' {
                return None;
            }
            match parse_value(cs, c + 1, fuel - 1) {
                None => None,
                Some((v, m2)) => {
                    let k = skip_ws(cs, m2);
                    if k >= n {
                        None
                    } else if cs[k] == ',' {
                        match parse_members(cs, k + 1, fuel - 1) {
                            Some((rest, e)) => {
                                let ghost oldrest = rest@;
                                let ghost gkey = key@;
                                let ghost gv = v@;
                                let mut out = rest;
                                out.insert(0, (key, v));
                                proof {
                                    lemma_fields_view_cons(out@[0].0, out@[0].1, oldrest);
                                    assert(out@ =~= seq![(out@[0].0, out@[0].1)] + oldrest);
                                    assert(out@[0].0@ == gkey);
                                    assert(out@[0].1@ == gv);
                                }
                                Some((out, e))
                            },
                            None => None,
                        }
                    } else if cs[k] == '}' {
                        let ghost gkey = key@;
                        let ghost gv = v@;
                        let out: Vec<(String, Json)> = vec![(key, v)];
                        proof {
                            lemma_fields_view_cons(out@[0].0, out@[0].1, Seq::empty());
                            assert(out@ =~= seq![(out@[0].0, out@[0].1)] + Seq::<(
                                String,
                                Json,
                            )>::empty());
                            assert(spec_fields_view(out@) =~= seq![(gkey, gv)]);
                        }
                        Some((out, k + 1))
                    } else {
                        None
                    }
                },
            }
        },
    }
}

/// Parse a whole text frame into a JSON value.
pub fn parse_json_text(s: &str) -> (r: Option<Json>)
    ensures
        match r {
            Some(j) => spec_parse_text(s@) == Some(j@),
            None => spec_parse_text(s@) is None,
        },
{
    let cs = str_to_chars(s);
    let n = cs.len();
    let fuel: u128 = 3 * (n as u128) + 5;
    proof {
        assert(fuel as nat == spec_parse_fuel(s@));
    }
    match parse_value(&cs, 0, fuel) {
        Some((j, m)) => {
            let e = skip_ws(&cs, m);
            if e == n {
                Some(j)
            } else {
                None
            }
        },
        None => None,
    }
}

} // verus!


