//! A small JSON model: decimal rendering of integers and a parser for the
//! error payloads the platform returns.

use vstd::prelude::*;
use vstd::string::*;

verus! {

/// The decimal digit character for a value below ten.
pub open spec fn digit_char(d: nat) -> char {
    if d == 0 {
        '0'
    } else if d == 1 {
        '1'
    } else if d == 2 {
        '2'
    } else if d == 3 {
        '3'
    } else if d == 4 {
        '4'
    } else if d == 5 {
        '5'
    } else if d == 6 {
        '6'
    } else if d == 7 {
        '7'
    } else if d == 8 {
        '8'
    } else {
        '9'
    }
}

/// The decimal rendering of a natural number, most significant digit first.
pub open spec fn u64_dec(n: nat) -> Seq<char>
    decreases n,
{
    if n < 10 {
        seq![digit_char(n)]
    } else {
        u64_dec(n / 10).push(digit_char(n % 10))
    }
}

/// Renders `n` in decimal.
pub fn u64_to_string(n: u64) -> (r: String)
    ensures
        r@ == u64_dec(n as nat),
{
    let mut digits: Vec<u8> = Vec::new();
    let mut m: u64 = n;
    while m >= 10
        invariant
            u64_dec(n as nat) == u64_dec(m as nat)
                + digits@.map_values(|d: u8| digit_char(d as nat)).reverse(),
            forall|i: int| 0 <= i < digits@.len() ==> digits@[i] < 10,
        decreases m,
    {
        let d: u8 = (m % 10) as u8;
        let ghost m0 = m as nat;
        let ghost mapped0 = digits@.map_values(|x: u8| digit_char(x as nat));
        m = m / 10;
        digits.push(d);
        proof {
            let mapped1 = digits@.map_values(|x: u8| digit_char(x as nat));
            assert(mapped1 =~= mapped0.push(digit_char(d as nat)));
            assert(mapped1.reverse() =~= seq![digit_char(d as nat)] + mapped0.reverse());
            assert(u64_dec(m0) == u64_dec(m0 / 10).push(digit_char(m0 % 10)));
            assert(u64_dec(n as nat) =~= u64_dec(m as nat) + mapped1.reverse());
        }
    }
    let ghost mapped0 = digits@.map_values(|x: u8| digit_char(x as nat));
    digits.push(m as u8);
    proof {
        let mapped1 = digits@.map_values(|x: u8| digit_char(x as nat));
        assert(mapped1 =~= mapped0.push(digit_char(m as nat)));
        assert(mapped1.reverse() =~= seq![digit_char(m as nat)] + mapped0.reverse());
        assert(u64_dec(m as nat) == seq![digit_char(m as nat)]);
        assert(u64_dec(n as nat) =~= mapped1.reverse());
    }
    let ghost mapped = digits@.map_values(|d: u8| digit_char(d as nat));
    let mut r = String::new();
    let mut i: usize = digits.len();
    proof {
        assert(r@ =~= mapped.subrange(i as int, mapped.len() as int).reverse());
    }
    while i > 0
        invariant
            i <= digits@.len(),
            forall|k: int| 0 <= k < digits@.len() ==> digits@[k] < 10,
            mapped == digits@.map_values(|d: u8| digit_char(d as nat)),
            u64_dec(n as nat) == mapped.reverse(),
            r@ == mapped.subrange(i as int, mapped.len() as int).reverse(),
        decreases i,
    {
        i = i - 1;
        let d = digits[i];
        r.append(digit_str(d));
        proof {
            assert(mapped.subrange(i as int, mapped.len() as int)
                =~= seq![mapped[i as int]] + mapped.subrange(i as int + 1, mapped.len() as int));
            assert(mapped.subrange(i as int, mapped.len() as int).reverse()
                =~= mapped.subrange(i as int + 1, mapped.len() as int).reverse()
                    + seq![mapped[i as int]]);
            assert(r@ =~= mapped.subrange(i as int, mapped.len() as int).reverse());
        }
    }
    proof {
        assert(r@ =~= mapped.subrange(0, mapped.len() as int).reverse());
        assert(mapped.subrange(0, mapped.len() as int) =~= mapped);
    }
    r
}

// ---------------------------------------------------------------------------
// The JSON value model.
//
// Number literals are kept only as far as the protocol needs them: an
// integer literal in the signed 64-bit range is carried exactly, any other
// well-formed number literal (fraction, exponent, out of range) is recorded
// as `BigNum` and rejected by every schema that expects an integer.
// ---------------------------------------------------------------------------

/// The mathematical shape of a parsed JSON document.
#[verifier::ext_equal]
pub enum Jv {
    Null,
    Bool(bool),
    Int(i64),
    BigNum,
    Str(Seq<char>),
    Arr(Seq<Jv>),
    Obj(Seq<(Seq<char>, Jv)>),
}

/// A parsed JSON document, as exec data. Its view is the matching `Jv`.
#[derive(Debug)]
pub enum JsonValue {
    Null,
    Bool(bool),
    Int(i64),
    BigNum,
    Str(String),
    Arr(Vec<JsonValue>),
    Obj(Vec<(String, JsonValue)>),
}

/// The view of a parsed document.
pub open spec fn jv_of(v: JsonValue) -> Jv
    decreases v,
{
    match v {
        JsonValue::Null => Jv::Null,
        JsonValue::Bool(b) => Jv::Bool(b),
        JsonValue::Int(n) => Jv::Int(n),
        JsonValue::BigNum => Jv::BigNum,
        JsonValue::Str(s) => Jv::Str(s@),
        JsonValue::Arr(xs) => Jv::Arr(
            Seq::new(
                xs@.len(),
                |i: int|
                    if 0 <= i < xs@.len() {
                        jv_of(xs@[i])
                    } else {
                        Jv::Null
                    },
            ),
        ),
        JsonValue::Obj(ps) => Jv::Obj(
            Seq::new(
                ps@.len(),
                |i: int|
                    if 0 <= i < ps@.len() {
                        (ps@[i].0@, jv_of(ps@[i].1))
                    } else {
                        (Seq::empty(), Jv::Null)
                    },
            ),
        ),
    }
}

impl View for JsonValue {
    type V = Jv;

    open spec fn view(&self) -> Jv {
        jv_of(*self)
    }
}

// ---------------------------------------------------------------------------
// The grammar, as spec functions over character sequences. Each parser takes
// a position and yields the parsed result with the position one past it.
// The `if !(..)` bound checks also serve as the termination guards of the
// mutual recursion; the executable parser establishes that they never fail.
// ---------------------------------------------------------------------------

/// JSON insignificant whitespace.
pub open spec fn is_json_ws(c: char) -> bool {
    c == ' ' || c == '\t' || c == '\n' || c == '\r'
}

/// The first position at or after `i` holding no whitespace.
pub open spec fn skip_ws(s: Seq<char>, i: int) -> int
    decreases s.len() - i,
{
    if 0 <= i < s.len() && is_json_ws(s[i]) {
        skip_ws(s, i + 1)
    } else {
        i
    }
}

/// An ASCII decimal digit.
pub open spec fn is_digit(c: char) -> bool {
    48 <= c as int <= 57
}

/// The value of a decimal digit character.
pub open spec fn digit_val(c: char) -> int {
    c as int - 48
}

/// The first position at or after `i` holding no decimal digit.
pub open spec fn scan_digits(s: Seq<char>, i: int) -> int
    decreases s.len() - i,
{
    if 0 <= i < s.len() && is_digit(s[i]) {
        scan_digits(s, i + 1)
    } else {
        i
    }
}

/// The value of a sequence of decimal digit characters.
pub open spec fn digits_val(s: Seq<char>) -> int
    decreases s.len(),
{
    if s.len() == 0 {
        0
    } else {
        digits_val(s.drop_last()) * 10 + digit_val(s.last())
    }
}

/// The value of a hexadecimal digit character, if it is one.
pub open spec fn hex_val(c: char) -> Option<u32> {
    if is_digit(c) {
        Some((c as int - 48) as u32)
    } else if 97 <= c as int <= 102 {
        Some((c as int - 87) as u32)
    } else if 65 <= c as int <= 70 {
        Some((c as int - 55) as u32)
    } else {
        None
    }
}

/// The character named by a single-character escape, if the escape is valid.
pub open spec fn esc_char(c: char) -> Option<char> {
    if c == '"' {
        Some('"')
    } else if c == '\\' {
        Some('\\')
    } else if c == '/' {
        Some('/')
    } else if c == 'b' {
        Some(8 as char)
    } else if c == 'f' {
        Some(12 as char)
    } else if c == 'n' {
        Some('\n')
    } else if c == 'r' {
        Some('\r')
    } else if c == 't' {
        Some('\t')
    } else {
        None
    }
}

/// A code point that names a character: in the basic plane and no surrogate.
pub open spec fn is_scalar_code(code: int) -> bool {
    code < 0xD800 || (0xDFFF < code && code <= 0xFFFF)
}

/// Parses the body of a string literal, starting after the opening quote;
/// yields the decoded characters and the position after the closing quote.
/// A `\u` escape must name a basic-plane character that is no surrogate.
pub open spec fn parse_str_body(s: Seq<char>, i: int) -> Option<(Seq<char>, int)>
    decreases s.len() - i,
{
    if !(0 <= i < s.len()) {
        None
    } else if s[i] == '"' {
        Some((Seq::empty(), i + 1))
    } else if s[i] == '\\' {
        if !(i + 1 < s.len()) {
            None
        } else if s[i + 1] == 'u' {
            if !(i + 6 <= s.len()) {
                None
            } else {
                match (hex_val(s[i + 2]), hex_val(s[i + 3]), hex_val(s[i + 4]), hex_val(
                    s[i + 5],
                )) {
                    (Some(a), Some(b), Some(c), Some(d)) => {
                        let code = a * 4096 + b * 256 + c * 16 + d;
                        if is_scalar_code(code) {
                            match parse_str_body(s, i + 6) {
                                Some((rest, j)) => Some((seq![code as char] + rest, j)),
                                None => None,
                            }
                        } else {
                            None
                        }
                    },
                    _ => None,
                }
            }
        } else {
            match esc_char(s[i + 1]) {
                Some(c) => match parse_str_body(s, i + 2) {
                    Some((rest, j)) => Some((seq![c] + rest, j)),
                    None => None,
                },
                None => None,
            }
        }
    } else if (s[i] as int) < 32 {
        None
    } else {
        match parse_str_body(s, i + 1) {
            Some((rest, j)) => Some((seq![s[i]] + rest, j)),
            None => None,
        }
    }
}

/// Parses a number literal. An integer literal in the signed 64-bit range
/// yields `Int`; any other well-formed literal yields `BigNum`.
pub open spec fn parse_number(s: Seq<char>, i: int) -> Option<(Jv, int)> {
    let neg = 0 <= i < s.len() && s[i] == '-';
    let i1 = if neg {
        i + 1
    } else {
        i
    };
    if !(0 <= i1 < s.len() && is_digit(s[i1])) {
        None
    } else {
        let i2 = if s[i1] == '0' {
            i1 + 1
        } else {
            scan_digits(s, i1)
        };
        let has_frac = i2 < s.len() && s[i2] == '.';
        let frac_end = if has_frac {
            scan_digits(s, i2 + 1)
        } else {
            i2
        };
        let frac_ok = !has_frac || frac_end > i2 + 1;
        let has_exp = frac_end < s.len() && (s[frac_end] == 'e' || s[frac_end] == 'E');
        let exp_start = if has_exp {
            if frac_end + 1 < s.len() && (s[frac_end + 1] == '+' || s[frac_end + 1] == '-') {
                frac_end + 2
            } else {
                frac_end + 1
            }
        } else {
            frac_end
        };
        let exp_end = if has_exp {
            scan_digits(s, exp_start)
        } else {
            frac_end
        };
        let exp_ok = !has_exp || exp_end > exp_start;
        if !(frac_ok && exp_ok) {
            None
        } else if has_frac || has_exp {
            Some((Jv::BigNum, exp_end))
        } else {
            let m = digits_val(s.subrange(i1, i2));
            let v = if neg {
                -m
            } else {
                m
            };
            if i64::MIN <= v <= i64::MAX {
                Some((Jv::Int(v as i64), i2))
            } else {
                Some((Jv::BigNum, i2))
            }
        }
    }
}

/// Parses one JSON value starting exactly at `i`.
pub open spec fn parse_value(s: Seq<char>, i: int) -> Option<(Jv, int)>
    decreases s.len() - i, 0int,
{
    if !(0 <= i < s.len()) {
        None
    } else {
        let c = s[i];
        if c == 'n' {
            if i + 4 <= s.len() && s[i + 1] == 'u' && s[i + 2] == 'l' && s[i + 3] == 'l' {
                Some((Jv::Null, i + 4))
            } else {
                None
            }
        } else if c == 't' {
            if i + 4 <= s.len() && s[i + 1] == 'r' && s[i + 2] == 'u' && s[i + 3] == 'e' {
                Some((Jv::Bool(true), i + 4))
            } else {
                None
            }
        } else if c == 'f' {
            if i + 5 <= s.len() && s[i + 1] == 'a' && s[i + 2] == 'l' && s[i + 3] == 's'
                && s[i + 4] == 'e' {
                Some((Jv::Bool(false), i + 5))
            } else {
                None
            }
        } else if c == '"' {
            match parse_str_body(s, i + 1) {
                Some((t, j)) => Some((Jv::Str(t), j)),
                None => None,
            }
        } else if c == '-' || is_digit(c) {
            parse_number(s, i)
        } else if c == '[' {
            let j = skip_ws(s, i + 1);
            if !(i + 1 <= j <= s.len()) {
                None
            } else if j < s.len() && s[j] == ']' {
                Some((Jv::Arr(Seq::empty()), j + 1))
            } else {
                match parse_items(s, j) {
                    Some((xs, k)) => Some((Jv::Arr(xs), k)),
                    None => None,
                }
            }
        } else if c == '{' {
            let j = skip_ws(s, i + 1);
            if !(i + 1 <= j <= s.len()) {
                None
            } else if j < s.len() && s[j] == '}' {
                Some((Jv::Obj(Seq::empty()), j + 1))
            } else {
                match parse_members(s, j) {
                    Some((ps, k)) => Some((Jv::Obj(ps), k)),
                    None => None,
                }
            }
        } else {
            None
        }
    }
}

/// Parses the elements of an array from the first element on, including the
/// closing bracket.
pub open spec fn parse_items(s: Seq<char>, i: int) -> Option<(Seq<Jv>, int)>
    decreases s.len() - i, 1int,
{
    if !(0 <= i <= s.len()) {
        None
    } else {
        match parse_value(s, i) {
            None => None,
            Some((v, j)) => {
                if !(i < j <= s.len()) {
                    None
                } else {
                    let k = skip_ws(s, j);
                    if !(j <= k <= s.len()) {
                        None
                    } else if k < s.len() && s[k] == ',' {
                        let m = skip_ws(s, k + 1);
                        if !(k + 1 <= m <= s.len()) {
                            None
                        } else {
                            match parse_items(s, m) {
                                Some((rest, e)) => Some((seq![v] + rest, e)),
                                None => None,
                            }
                        }
                    } else if k < s.len() && s[k] == ']' {
                        Some((seq![v], k + 1))
                    } else {
                        None
                    }
                }
            },
        }
    }
}

/// Parses the members of an object from the first key on, including the
/// closing brace.
pub open spec fn parse_members(s: Seq<char>, i: int) -> Option<(Seq<(Seq<char>, Jv)>, int)>
    decreases s.len() - i, 1int,
{
    if !(0 <= i < s.len() && s[i] == '"') {
        None
    } else {
        match parse_str_body(s, i + 1) {
            None => None,
            Some((key, j)) => {
                if !(i < j <= s.len()) {
                    None
                } else {
                    let c = skip_ws(s, j);
                    if !(j <= c <= s.len() && c < s.len() && s[c] == ':') {
                        None
                    } else {
                        let m = skip_ws(s, c + 1);
                        if !(c + 1 <= m <= s.len()) {
                            None
                        } else {
                            match parse_value(s, m) {
                                None => None,
                                Some((v, j2)) => {
                                    if !(m < j2 <= s.len()) {
                                        None
                                    } else {
                                        let k = skip_ws(s, j2);
                                        if !(j2 <= k <= s.len()) {
                                            None
                                        } else if k < s.len() && s[k] == ',' {
                                            let m2 = skip_ws(s, k + 1);
                                            if !(k + 1 <= m2 <= s.len()) {
                                                None
                                            } else {
                                                match parse_members(s, m2) {
                                                    Some((rest, e)) => Some(
                                                        (seq![(key, v)] + rest, e),
                                                    ),
                                                    None => None,
                                                }
                                            }
                                        } else if k < s.len() && s[k] == '}' {
                                            Some((seq![(key, v)], k + 1))
                                        } else {
                                            None
                                        }
                                    }
                                },
                            }
                        }
                    }
                }
            },
        }
    }
}

/// Parses a whole document: one value, surrounded by whitespace only.
pub open spec fn spec_parse_json(s: Seq<char>) -> Option<Jv> {
    let i = skip_ws(s, 0);
    if !(0 <= i <= s.len()) {
        None
    } else {
        match parse_value(s, i) {
            Some((v, j)) => {
                if !(j <= s.len()) {
                    None
                } else if skip_ws(s, j) == s.len() {
                    Some(v)
                } else {
                    None
                }
            },
            None => None,
        }
    }
}

/// Looks a key up among an object's members; on a repeated key the later
/// member wins.
pub open spec fn obj_get(ps: Seq<(Seq<char>, Jv)>, key: Seq<char>) -> Option<Jv>
    decreases ps.len(),
{
    if ps.len() == 0 {
        None
    } else if ps.last().0 == key {
        Some(ps.last().1)
    } else {
        obj_get(ps.drop_last(), key)
    }
}

// ---------------------------------------------------------------------------
// The executable parser. Each function mirrors its spec counterpart and is
// proved to return exactly what the spec parser says.
// ---------------------------------------------------------------------------

/// The sequence of views of a sequence of parsed values.
pub open spec fn views_of(xs: Seq<JsonValue>) -> Seq<Jv> {
    Seq::new(
        xs.len(),
        |i: int|
            if 0 <= i < xs.len() {
                xs[i]@
            } else {
                Jv::Null
            },
    )
}

/// The sequence of views of a sequence of parsed object members.
pub open spec fn views_of_pairs(ps: Seq<(String, JsonValue)>) -> Seq<(Seq<char>, Jv)> {
    Seq::new(
        ps.len(),
        |i: int|
            if 0 <= i < ps.len() {
                (ps[i].0@, ps[i].1@)
            } else {
                (Seq::empty(), Jv::Null)
            },
    )
}

/// Relies on char::from_u32: yields the character with the given code point
/// exactly when the point is a scalar value (not a surrogate, at most
/// 0x10FFFF).
#[verifier::external_body]
fn char_from_code(code: u32) -> (r: Option<char>)
    ensures
        match r {
            Some(c) => c as u32 == code && (code < 0xD800 || (0xDFFF < code && code
                <= 0x10FFFF)),
            None => !(code < 0xD800 || (0xDFFF < code && code <= 0x10FFFF)),
        },
{
    char::from_u32(code)
}

/// Relies on String::push: appends one character to the string.
#[verifier::external_body]
fn push_char(s: &mut String, c: char)
    ensures
        final(s)@ == old(s)@.push(c),
{
    s.push(c);
}

fn is_ws_x(c: char) -> (r: bool)
    ensures
        r == is_json_ws(c),
{
    c == ' ' || c == '\t' || c == '\n' || c == '\r'
}

fn is_digit_x(c: char) -> (r: bool)
    ensures
        r == is_digit(c),
{
    let u = c as u32;
    48 <= u && u <= 57
}

fn hex_val_x(c: char) -> (r: Option<u32>)
    ensures
        r == hex_val(c),
{
    let u = c as u32;
    if 48 <= u && u <= 57 {
        Some(u - 48)
    } else if 97 <= u && u <= 102 {
        Some(u - 87)
    } else if 65 <= u && u <= 70 {
        Some(u - 55)
    } else {
        None
    }
}

fn esc_char_x(c: char) -> (r: Option<char>)
    ensures
        r == esc_char(c),
{
    if c == '"' {
        Some('"')
    } else if c == '\\' {
        Some('\\')
    } else if c == '/' {
        Some('/')
    } else if c == 'b' {
        Some('\u{8}')
    } else if c == 'f' {
        Some('\u{c}')
    } else if c == 'n' {
        Some('\n')
    } else if c == 'r' {
        Some('\r')
    } else if c == 't' {
        Some('\t')
    } else {
        None
    }
}

fn skip_ws_x(s: &str, n: usize, i: usize) -> (r: usize)
    requires
        n == s@.len(),
        i <= n,
    ensures
        i <= r <= n,
        r as int == skip_ws(s@, i as int),
{
    let mut j = i;
    while j < n && is_ws_x(s.get_char(j))
        invariant
            n == s@.len(),
            i <= j <= n,
            skip_ws(s@, i as int) == skip_ws(s@, j as int),
        decreases n - j,
    {
        j = j + 1;
    }
    j
}

fn scan_digits_x(s: &str, n: usize, i: usize) -> (r: usize)
    requires
        n == s@.len(),
        i <= n,
    ensures
        i <= r <= n,
        r as int == scan_digits(s@, i as int),
{
    let mut j = i;
    while j < n && is_digit_x(s.get_char(j))
        invariant
            n == s@.len(),
            i <= j <= n,
            scan_digits(s@, i as int) == scan_digits(s@, j as int),
        decreases n - j,
    {
        j = j + 1;
    }
    j
}

/// Every position a digit scan passed over holds a digit.
proof fn lemma_scan_digits(s: Seq<char>, i: int)
    requires
        0 <= i <= s.len(),
    ensures
        i <= scan_digits(s, i) <= s.len(),
        forall|k: int| i <= k < scan_digits(s, i) ==> is_digit(s[k]),
    decreases s.len() - i,
{
    if i < s.len() && is_digit(s[i]) {
        lemma_scan_digits(s, i + 1);
    }
}

/// A digit string's value is never negative.
proof fn lemma_digits_val_nonneg(s: Seq<char>)
    requires
        forall|k: int| 0 <= k < s.len() ==> is_digit(s[k]),
    ensures
        digits_val(s) >= 0,
    decreases s.len(),
{
    if s.len() > 0 {
        lemma_digits_val_nonneg(s.drop_last());
    }
}

/// How the loop of `parse_number_x` keeps its saturating accumulator in
/// step with the value of the digits read so far.
spec fn acc_tracks(acc: u128, v: int) -> bool {
    if v <= 0x8000_0000_0000_0000 {
        acc == v
    } else {
        acc > 0x8000_0000_0000_0000
    }
}

fn parse_number_x(s: &str, n: usize, i: usize) -> (r: Option<(JsonValue, usize)>)
    requires
        n == s@.len(),
        i <= n,
    ensures
        match r {
            Some((v, j)) => parse_number(s@, i as int) == Some((v@, j as int)) && i < j <= n,
            None => parse_number(s@, i as int) is None,
        },
{
    let neg = i < n && s.get_char(i) == '-';
    let i1 = if neg {
        i + 1
    } else {
        i
    };
    if !(i1 < n && is_digit_x(s.get_char(i1))) {
        return None;
    }
    let i2 = if s.get_char(i1) == '0' {
        i1 + 1
    } else {
        scan_digits_x(s, n, i1)
    };
    proof {
        lemma_scan_digits(s@, i1 as int);
        if s@[i1 as int] != '0' {
            assert(scan_digits(s@, i1 as int) == scan_digits(s@, i1 as int + 1));
            lemma_scan_digits(s@, i1 as int + 1);
        }
        assert(i1 < i2);
        assert(forall|k: int| i1 <= k < i2 ==> is_digit(s@[k]));
    }
    let has_frac = i2 < n && s.get_char(i2) == '.';
    let frac_end = if has_frac {
        scan_digits_x(s, n, i2 + 1)
    } else {
        i2
    };
    if has_frac && !(frac_end > i2 + 1) {
        return None;
    }
    let has_exp = frac_end < n && (s.get_char(frac_end) == 'e' || s.get_char(frac_end) == 'E');
    let exp_start = if has_exp {
        if frac_end + 1 < n && (s.get_char(frac_end + 1) == '+' || s.get_char(frac_end + 1)
            == '-') {
            frac_end + 2
        } else {
            frac_end + 1
        }
    } else {
        frac_end
    };
    let exp_end = if has_exp {
        scan_digits_x(s, n, exp_start)
    } else {
        frac_end
    };
    if has_exp && !(exp_end > exp_start) {
        return None;
    }
    if has_frac || has_exp {
        return Some((JsonValue::BigNum, exp_end));
    }
    // a pure integer literal: compute its value, saturating above the
    // signed 64-bit magnitude bound
    let ghost digits = s@.subrange(i1 as int, i2 as int);
    proof {
        assert(forall|k: int| 0 <= k < digits.len() ==> is_digit(digits[k]));
    }
    let mut acc: u128 = 0;
    let mut p = i1;
    proof {
        assert(s@.subrange(i1 as int, i1 as int) =~= Seq::<char>::empty());
    }
    while p < i2
        invariant
            n == s@.len(),
            i1 <= p <= i2 <= n,
            forall|k: int| i1 <= k < i2 ==> is_digit(s@[k]),
            acc_tracks(acc, digits_val(s@.subrange(i1 as int, p as int))),
        decreases i2 - p,
    {
        let ghost pref = s@.subrange(i1 as int, p as int);
        let d = (s.get_char(p) as u32) - 48;
        proof {
            lemma_digits_val_nonneg(pref);
            let pref1 = s@.subrange(i1 as int, p as int + 1);
            assert(pref1.drop_last() =~= pref);
            assert(pref1.last() == s@[p as int]);
        }
        if acc <= 0x8000_0000_0000_0000 {
            acc = acc * 10 + (d as u128);
        }
        p = p + 1;
    }
    proof {
        assert(s@.subrange(i1 as int, i2 as int) =~= digits);
        lemma_digits_val_nonneg(digits);
    }
    let ghost m = digits_val(digits);
    let ghost v = if neg {
        -m
    } else {
        m
    };
    if neg {
        if acc <= 0x8000_0000_0000_0000 {
            let out: i64 = if acc == 0x8000_0000_0000_0000 {
                i64::MIN
            } else {
                let small: i64 = acc as i64;
                -small
            };
            proof {
                assert(acc == m);
                assert(i64::MIN <= v <= i64::MAX);
                assert(out as int == v);
                assert(out == v as i64);
            }
            Some((JsonValue::Int(out), i2))
        } else {
            proof {
                assert(m > 0x8000_0000_0000_0000);
                assert(!(i64::MIN <= v <= i64::MAX));
            }
            Some((JsonValue::BigNum, i2))
        }
    } else {
        if acc < 0x8000_0000_0000_0000 {
            let out: i64 = acc as i64;
            proof {
                assert(acc == m);
                assert(i64::MIN <= v <= i64::MAX);
                assert(out as int == v);
                assert(out == v as i64);
            }
            Some((JsonValue::Int(out), i2))
        } else {
            proof {
                assert(m >= 0x8000_0000_0000_0000);
                assert(!(i64::MIN <= v <= i64::MAX));
            }
            Some((JsonValue::BigNum, i2))
        }
    }
}

/// How the loop of `parse_str_body_x` relates the characters read so far to
/// the whole string literal.
spec fn str_body_rel(s: Seq<char>, i: int, pos: int, acc: Seq<char>) -> bool {
    match parse_str_body(s, pos) {
        Some((t2, j2)) => parse_str_body(s, i) == Some((acc + t2, j2)),
        None => parse_str_body(s, i) is None,
    }
}

fn parse_str_body_x(s: &str, n: usize, i: usize) -> (r: Option<(String, usize)>)
    requires
        n == s@.len(),
        i <= n,
    ensures
        match r {
            Some((t, j)) => parse_str_body(s@, i as int) == Some((t@, j as int)) && i < j
                <= n,
            None => parse_str_body(s@, i as int) is None,
        },
{
    let mut acc = String::new();
    let mut pos = i;
    loop
        invariant
            n == s@.len(),
            i <= pos <= n,
            str_body_rel(s@, i as int, pos as int, acc@),
        decreases n - pos,
    {
        if pos >= n {
            return None;
        }
        let c = s.get_char(pos);
        if c == '"' {
            proof {
                assert(acc@ + Seq::<char>::empty() =~= acc@);
            }
            return Some((acc, pos + 1));
        }
        if c == '\\' {
            if n - pos < 2 {
                return None;
            }
            let e = s.get_char(pos + 1);
            if e == 'u' {
                if n - pos < 6 {
                    return None;
                }
                let h0 = hex_val_x(s.get_char(pos + 2));
                let h1 = hex_val_x(s.get_char(pos + 3));
                let h2 = hex_val_x(s.get_char(pos + 4));
                let h3 = hex_val_x(s.get_char(pos + 5));
                match (h0, h1, h2, h3) {
                    (Some(a), Some(b), Some(cc), Some(d)) => {
                        let code = a * 4096 + b * 256 + cc * 16 + d;
                        if !(code < 0xD800 || (0xDFFF < code && code <= 0xFFFF)) {
                            return None;
                        }
                        match char_from_code(code) {
                            Some(ch) => {
                                let ghost acc0 = acc@;
                                push_char(&mut acc, ch);
                                proof {
                                    vstd::utf8::char_u32_cast(ch, code);
                                    assert(ch == (code as int) as char);
                                    lemma_unfold_escape(s@, pos as int, acc0, ch, 6);
                                }
                                pos = pos + 6;
                            },
                            None => {
                                proof {
                                    assert(false);
                                }
                            },
                        }
                    },
                    _ => {
                        return None;
                    },
                }
            } else {
                match esc_char_x(e) {
                    Some(ch) => {
                        let ghost acc0 = acc@;
                        push_char(&mut acc, ch);
                        proof {
                            lemma_unfold_escape(s@, pos as int, acc0, ch, 2);
                        }
                        pos = pos + 2;
                    },
                    None => {
                        return None;
                    },
                }
            }
        } else if (c as u32) < 32 {
            return None;
        } else {
            let ghost acc0 = acc@;
            push_char(&mut acc, c);
            proof {
                lemma_unfold_escape(s@, pos as int, acc0, c, 1);
            }
            pos = pos + 1;
        }
    }
}

/// One step of the string-literal scan: consuming `w` characters that
/// decode to `ch` keeps the accumulated prefix in step with the literal.
proof fn lemma_unfold_escape(s: Seq<char>, pos: int, acc: Seq<char>, ch: char, w: int)
    requires
        0 <= pos,
        pos + w <= s.len(),
        parse_str_body(s, pos) == (match parse_str_body(s, pos + w) {
            Some((rest, j)) => Some::<(Seq<char>, int)>((seq![ch] + rest, j)),
            None => None::<(Seq<char>, int)>,
        }),
    ensures
        match parse_str_body(s, pos + w) {
            Some((t2, j2)) => (acc.push(ch) + t2 == acc + (seq![ch] + t2)),
            None => true,
        },
{
    match parse_str_body(s, pos + w) {
        Some((t2, j2)) => {
            assert(acc.push(ch) + t2 =~= acc + (seq![ch] + t2));
        },
        None => {},
    }
}

/// An `Arr` value's view is the array of its elements' views.
pub proof fn lemma_arr_view(v: JsonValue)
    ensures
        v matches JsonValue::Arr(xs) ==> v@ == Jv::Arr(views_of(xs@)),
{
    match v {
        JsonValue::Arr(xs) => {
            match jv_of(v) {
                Jv::Arr(a) => {
                    assert forall|i: int| 0 <= i < a.len() implies a[i] == views_of(xs@)[i] by {
                        assert(a[i] == jv_of(xs@[i]));
                    }
                    assert(a =~= views_of(xs@));
                },
                _ => {
                    assert(false);
                },
            }
        },
        _ => {},
    }
}

/// An `Obj` value's view is the member list of its members' views.
pub proof fn lemma_obj_view(v: JsonValue)
    ensures
        v matches JsonValue::Obj(ps) ==> v@ == Jv::Obj(views_of_pairs(ps@)),
{
    match v {
        JsonValue::Obj(ps) => {
            match jv_of(v) {
                Jv::Obj(a) => {
                    assert forall|i: int| 0 <= i < a.len() implies a[i] == views_of_pairs(
                        ps@,
                    )[i] by {
                        assert(a[i] == (ps@[i].0@, jv_of(ps@[i].1)));
                    }
                    assert(a =~= views_of_pairs(ps@));
                },
                _ => {
                    assert(false);
                },
            }
        },
        _ => {},
    }
}

fn parse_value_x(s: &str, n: usize, i: usize) -> (r: Option<(JsonValue, usize)>)
    requires
        n == s@.len(),
        i <= n,
    ensures
        match r {
            Some((v, j)) => parse_value(s@, i as int) == Some((v@, j as int)) && i < j <= n,
            None => parse_value(s@, i as int) is None,
        },
    decreases n - i, 0int,
{
    if i >= n {
        return None;
    }
    let c = s.get_char(i);
    if c == 'n' {
        if n - i >= 4 && s.get_char(i + 1) == 'u' && s.get_char(i + 2) == 'l' && s.get_char(
            i + 3,
        ) == 'l' {
            Some((JsonValue::Null, i + 4))
        } else {
            None
        }
    } else if c == 't' {
        if n - i >= 4 && s.get_char(i + 1) == 'r' && s.get_char(i + 2) == 'u' && s.get_char(
            i + 3,
        ) == 'e' {
            Some((JsonValue::Bool(true), i + 4))
        } else {
            None
        }
    } else if c == 'f' {
        if n - i >= 5 && s.get_char(i + 1) == 'a' && s.get_char(i + 2) == 'l' && s.get_char(
            i + 3,
        ) == 's' && s.get_char(i + 4) == 'e' {
            Some((JsonValue::Bool(false), i + 5))
        } else {
            None
        }
    } else if c == '"' {
        match parse_str_body_x(s, n, i + 1) {
            Some((t, j)) => Some((JsonValue::Str(t), j)),
            None => None,
        }
    } else if c == '-' || is_digit_x(c) {
        parse_number_x(s, n, i)
    } else if c == '[' {
        let j = skip_ws_x(s, n, i + 1);
        if j < n && s.get_char(j) == ']' {
            let out = JsonValue::Arr(Vec::new());
            proof {
                lemma_arr_view(out);
                assert(views_of(Seq::<JsonValue>::empty()) =~= Seq::<Jv>::empty());
            }
            Some((out, j + 1))
        } else {
            match parse_items_x(s, n, j) {
                Some((xs, k)) => {
                    let ghost xsv = xs@;
                    let out = JsonValue::Arr(xs);
                    proof {
                        lemma_arr_view(out);
                    }
                    Some((out, k))
                },
                None => None,
            }
        }
    } else if c == '{' {
        let j = skip_ws_x(s, n, i + 1);
        if j < n && s.get_char(j) == '}' {
            let out = JsonValue::Obj(Vec::new());
            proof {
                lemma_obj_view(out);
                assert(views_of_pairs(Seq::<(String, JsonValue)>::empty()) =~= Seq::<(
                    Seq<char>,
                    Jv,
                )>::empty());
            }
            Some((out, j + 1))
        } else {
            match parse_members_x(s, n, j) {
                Some((ps, k)) => {
                    let out = JsonValue::Obj(ps);
                    proof {
                        lemma_obj_view(out);
                    }
                    Some((out, k))
                },
                None => None,
            }
        }
    } else {
        None
    }
}

fn parse_items_x(s: &str, n: usize, i: usize) -> (r: Option<(Vec<JsonValue>, usize)>)
    requires
        n == s@.len(),
        i <= n,
    ensures
        match r {
            Some((xs, k)) => parse_items(s@, i as int) == Some((views_of(xs@), k as int)) && i
                < k <= n,
            None => parse_items(s@, i as int) is None,
        },
    decreases n - i, 1int,
{
    match parse_value_x(s, n, i) {
        None => None,
        Some((v, j)) => {
            let k = skip_ws_x(s, n, j);
            if k < n && s.get_char(k) == ',' {
                let m = skip_ws_x(s, n, k + 1);
                match parse_items_x(s, n, m) {
                    Some((rest, e)) => {
                        let ghost rest0 = rest@;
                        let mut rest = rest;
                        rest.insert(0, v);
                        proof {
                            assert(views_of(rest@) =~= seq![v@] + views_of(rest0));
                        }
                        Some((rest, e))
                    },
                    None => None,
                }
            } else if k < n && s.get_char(k) == ']' {
                let mut xs: Vec<JsonValue> = Vec::new();
                xs.push(v);
                proof {
                    assert(views_of(xs@) =~= seq![v@]);
                }
                Some((xs, k + 1))
            } else {
                None
            }
        },
    }
}

fn parse_members_x(s: &str, n: usize, i: usize) -> (r: Option<(Vec<(String, JsonValue)>, usize)>)
    requires
        n == s@.len(),
        i <= n,
    ensures
        match r {
            Some((ps, k)) => parse_members(s@, i as int) == Some(
                (views_of_pairs(ps@), k as int),
            ) && i < k <= n,
            None => parse_members(s@, i as int) is None,
        },
    decreases n - i, 1int,
{
    if !(i < n && s.get_char(i) == '"') {
        return None;
    }
    match parse_str_body_x(s, n, i + 1) {
        None => None,
        Some((key, j)) => {
            let c = skip_ws_x(s, n, j);
            if !(c < n && s.get_char(c) == ':') {
                return None;
            }
            let m = skip_ws_x(s, n, c + 1);
            match parse_value_x(s, n, m) {
                None => None,
                Some((v, j2)) => {
                    let k = skip_ws_x(s, n, j2);
                    if k < n && s.get_char(k) == ',' {
                        let m2 = skip_ws_x(s, n, k + 1);
                        match parse_members_x(s, n, m2) {
                            Some((rest, e)) => {
                                let ghost rest0 = rest@;
                                let ghost keyv = key@;
                                let ghost vv = v@;
                                let mut rest = rest;
                                rest.insert(0, (key, v));
                                proof {
                                    assert(views_of_pairs(rest@) =~= seq![(keyv, vv)]
                                        + views_of_pairs(rest0));
                                }
                                Some((rest, e))
                            },
                            None => None,
                        }
                    } else if k < n && s.get_char(k) == '}' {
                        let ghost keyv = key@;
                        let ghost vv = v@;
                        let mut ps: Vec<(String, JsonValue)> = Vec::new();
                        ps.push((key, v));
                        proof {
                            assert(views_of_pairs(ps@) =~= seq![(keyv, vv)]);
                        }
                        Some((ps, k + 1))
                    } else {
                        None
                    }
                },
            }
        },
    }
}

/// Parses a whole JSON document.
pub fn parse_json(s: &str) -> (r: Option<JsonValue>)
    ensures
        match r {
            Some(v) => spec_parse_json(s@) == Some(v@),
            None => spec_parse_json(s@) is None,
        },
{
    let n = s.unicode_len();
    let i = skip_ws_x(s, n, 0);
    match parse_value_x(s, n, i) {
        Some((v, j)) => {
            let k = skip_ws_x(s, n, j);
            if k == n {
                Some(v)
            } else {
                None
            }
        },
        None => None,
    }
}

/// Looks a key up among an object's members; on a repeated key the later
/// member wins.
pub fn obj_get_x<'a>(ps: &'a Vec<(String, JsonValue)>, key: &String) -> (r: Option<
    &'a JsonValue,
>)
    ensures
        match r {
            Some(v) => obj_get(views_of_pairs(ps@), key@) == Some(v@),
            None => obj_get(views_of_pairs(ps@), key@) is None,
        },
{
    let ghost full = views_of_pairs(ps@);
    let mut i = ps.len();
    proof {
        assert(full.take(ps@.len() as int) =~= full);
    }
    while i > 0
        invariant
            i <= ps@.len(),
            full == views_of_pairs(ps@),
            obj_get(full, key@) == obj_get(full.take(i as int), key@),
        decreases i,
    {
        i = i - 1;
        proof {
            assert(full.take(i as int + 1).drop_last() =~= full.take(i as int));
            assert(full.take(i as int + 1).last() == full[i as int]);
        }
        let p = &ps[i];
        if p.0 == *key {
            return Some(&p.1);
        }
    }
    proof {
        assert(full.take(0) =~= Seq::<(Seq<char>, Jv)>::empty());
    }
    None
}

// ---------------------------------------------------------------------------
// The decimal wire form of an integer round-trips through the parser.
// ---------------------------------------------------------------------------

/// A decimal rendering is nonempty, holds digits only, has no leading zero
/// for a positive value, and evaluates back to the rendered value.
pub proof fn lemma_u64_dec_props(n: nat)
    ensures
        u64_dec(n).len() >= 1,
        forall|i: int| 0 <= i < u64_dec(n).len() ==> is_digit(#[trigger] u64_dec(n)[i]),
        n >= 1 ==> u64_dec(n)[0] != '0',
        digits_val(u64_dec(n)) == n,
    decreases n,
{
    if n < 10 {
        let s = u64_dec(n);
        assert(s =~= seq![digit_char(n)]);
        assert(s.len() == 1);
        assert(s.last() == digit_char(n));
        assert(s.drop_last() =~= Seq::<char>::empty());
        assert(s.drop_last().len() == 0);
        assert(digits_val(s.drop_last()) == 0);
        assert(digits_val(s) == digits_val(s.drop_last()) * 10 + digit_val(s.last()));
        assert(digits_val(s) == digit_val(digit_char(n)));
    } else {
        lemma_u64_dec_props(n / 10);
        let p = u64_dec(n / 10);
        let s = u64_dec(n);
        assert(s == p.push(digit_char(n % 10)));
        assert(s.drop_last() =~= p);
        assert(s.last() == digit_char(n % 10));
        assert(digits_val(s) == digits_val(p) * 10 + digit_val(digit_char(n % 10)));
        assert(forall|i: int| 0 <= i < s.len() ==> is_digit(#[trigger] s[i])) by {
            assert(forall|i: int| 0 <= i < p.len() ==> s[i] == #[trigger] p[i]);
            assert(s[s.len() - 1] == digit_char(n % 10));
        }
    }
}

/// A scan over digits only stops at the end.
pub proof fn lemma_scan_all_digits(s: Seq<char>, i: int)
    requires
        0 <= i <= s.len(),
        forall|k: int| i <= k < s.len() ==> is_digit(#[trigger] s[k]),
    ensures
        scan_digits(s, i) == s.len(),
    decreases s.len() - i,
{
    if i < s.len() {
        lemma_scan_all_digits(s, i + 1);
    }
}

/// The decimal rendering of a value in the signed 64-bit range parses back
/// to exactly that integer.
pub proof fn lemma_parse_u64_dec(n: u64)
    requires
        1 <= n <= i64::MAX as u64,
    ensures
        spec_parse_json(u64_dec(n as nat)) == Some(Jv::Int(n as i64)),
{
    let s = u64_dec(n as nat);
    lemma_u64_dec_props(n as nat);
    assert(is_digit(s[0]));
    assert(!is_json_ws(s[0]));
    assert(skip_ws(s, 0) == 0);
    lemma_scan_all_digits(s, 0);
    assert(s[0] != '0');
    assert(parse_number(s, 0) == Some((Jv::Int(n as i64), s.len() as int))) by {
        assert(s.subrange(0, s.len() as int) =~= s);
        assert(digits_val(s.subrange(0, s.len() as int)) == n);
    }
    assert(parse_value(s, 0) == Some((Jv::Int(n as i64), s.len() as int)));
    assert(skip_ws(s, s.len() as int) == s.len());
}

// ---------------------------------------------------------------------------
// Writing JSON string literals, for request bodies.
// ---------------------------------------------------------------------------

/// The hexadecimal digit character for a value below sixteen.
pub open spec fn hex_char(d: nat) -> char {
    if d < 10 {
        digit_char(d)
    } else if d == 10 {
        'a'
    } else if d == 11 {
        'b'
    } else if d == 12 {
        'c'
    } else if d == 13 {
        'd'
    } else if d == 14 {
        'e'
    } else {
        'f'
    }
}

/// How one character is written inside a JSON string literal: quotes and
/// backslashes get a backslash escape, control characters a `\u00..`
/// escape, everything else stands as itself.
pub open spec fn esc_of(c: char) -> Seq<char> {
    if c == '"' {
        seq!['\\', '"']
    } else if c == '\\' {
        seq!['\\', '\\']
    } else if (c as int) < 32 {
        seq!['\\', 'u', '0', '0', hex_char((c as int / 16) as nat), hex_char(
            (c as int % 16) as nat,
        )]
    } else {
        seq![c]
    }
}

/// The escaped body of a JSON string literal.
pub open spec fn spec_escape(s: Seq<char>) -> Seq<char>
    decreases s.len(),
{
    if s.len() == 0 {
        Seq::empty()
    } else {
        spec_escape(s.drop_last()) + esc_of(s.last())
    }
}

/// A whole JSON string literal: the escaped text in quotes.
pub open spec fn spec_json_string(s: Seq<char>) -> Seq<char> {
    seq!['"'] + spec_escape(s) + seq!['"']
}

/// The one-character string for a value below sixteen, as a hex digit.
fn hex_str(d: u8) -> (r: &'static str)
    requires
        d < 16,
    ensures
        r@ == seq![hex_char(d as nat)],
{
    proof {
        reveal_strlit("a");
        reveal_strlit("b");
        reveal_strlit("c");
        reveal_strlit("d");
        reveal_strlit("e");
        reveal_strlit("f");
    }
    if d < 10 {
        digit_str(d)
    } else {
        match d {
            10 => "a",
            11 => "b",
            12 => "c",
            13 => "d",
            14 => "e",
            _ => "f",
        }
    }
}

/// Appends one JSON string literal holding `s` to `out`.
pub fn append_json_string(out: &mut String, s: &str)
    ensures
        final(out)@ == old(out)@ + spec_json_string(s@),
{
    let n = s.unicode_len();
    out.append("\"");
    let ghost start = out@;
    let mut i: usize = 0;
    proof {
        assert(s@.subrange(0, 0) =~= Seq::<char>::empty());
    }
    while i < n
        invariant
            n == s@.len(),
            i <= n,
            out@ == start + spec_escape(s@.subrange(0, i as int)),
        decreases n - i,
    {
        let c = s.get_char(i);
        proof {
            assert(s@.subrange(0, i as int + 1).drop_last() =~= s@.subrange(0, i as int));
            assert(s@.subrange(0, i as int + 1).last() == s@[i as int]);
        }
        if c == '"' {
            out.append("\\\"");
            proof {
                reveal_strlit("\\\"");
                assert(out@ =~= start + spec_escape(s@.subrange(0, i as int + 1)));
            }
        } else if c == '\\' {
            out.append("\\\\");
            proof {
                reveal_strlit("\\\\");
                assert(out@ =~= start + spec_escape(s@.subrange(0, i as int + 1)));
            }
        } else if (c as u32) < 32 {
            let code = c as u32;
            out.append("\\u00");
            out.append(hex_str((code / 16) as u8));
            out.append(hex_str((code % 16) as u8));
            proof {
                reveal_strlit("\\u00");
                assert(out@ =~= start + spec_escape(s@.subrange(0, i as int + 1)));
            }
        } else {
            push_char(out, c);
            proof {
                assert(out@ =~= start + spec_escape(s@.subrange(0, i as int + 1)));
            }
        }
        i = i + 1;
    }
    proof {
        assert(s@.subrange(0, n as int) =~= s@);
    }
    out.append("\"");
    proof {
        reveal_strlit("\"");
        assert(start =~= old(out)@ + seq!['"']);
        assert(out@ =~= old(out)@ + spec_json_string(s@));
    }
}

/// The one-character string for a decimal digit.
fn digit_str(d: u8) -> (r: &'static str)
    requires
        d < 10,
    ensures
        r@ == seq![digit_char(d as nat)],
{
    proof {
        reveal_strlit("0");
        reveal_strlit("1");
        reveal_strlit("2");
        reveal_strlit("3");
        reveal_strlit("4");
        reveal_strlit("5");
        reveal_strlit("6");
        reveal_strlit("7");
        reveal_strlit("8");
        reveal_strlit("9");
    }
    match d {
        0 => "0",
        1 => "1",
        2 => "2",
        3 => "3",
        4 => "4",
        5 => "5",
        6 => "6",
        7 => "7",
        8 => "8",
        _ => "9",
    }
}

} // verus!
