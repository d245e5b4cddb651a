//! The envelope syntax of the wire protocol.
//!
//! Frames carry one JSON value each.  This module defines the grammar as a
//! family of spec functions over character sequences — the single meaning
//! against which the executable parser is verified — together with that
//! parser.  Parsing is index-based: each function takes the position where
//! its production starts and yields the parsed value and the position just
//! past it, or nothing when the production does not match.
//!
//! The executable parser does not build a tree.  It returns the parsed value
//! as ghost data, together with a [`ValueInfo`] summary holding the few
//! concrete pieces the event codec reads: whether the value is null, its
//! characters if it is a string, its parts if it is a number, and, if it is
//! an object, the first-occurrence values of the member names the protocol
//! cares about.

use vstd::prelude::*;

verus! {

/// Whether a character counts as insignificant whitespace between tokens.
pub open spec fn is_ws(c: char) -> bool {
    c == ' ' || c == '\t' || c == '\n' || c == '\r'
}

/// Whether a character is a decimal digit.
pub open spec fn is_digit(c: char) -> bool {
    '0' <= c && c <= '9'
}

/// A number literal, reduced to what the protocol ever reads of one: its
/// sign, its integer digits, and whether it had no fraction and no exponent.
pub struct JsonNumV {
    pub neg: bool,
    pub digits: Seq<char>,
    pub integral: bool,
}

/// A JSON value.
pub enum JsonV {
    Null,
    Bool(bool),
    Num(JsonNumV),
    Str(Seq<char>),
    Arr(Seq<JsonV>),
    Obj(Seq<(Seq<char>, JsonV)>),
}

/// First index at or after `i` holding no whitespace.
pub open spec fn spec_ws(s: Seq<char>, i: int) -> int
    decreases s.len() - i,
{
    if 0 <= i && i < s.len() && is_ws(s[i]) {
        spec_ws(s, i + 1)
    } else {
        i
    }
}

/// The value of a hexadecimal digit, if the character is one.
pub open spec fn hex_val(c: char) -> Option<int> {
    if '0' <= c && c <= '9' {
        Some(c as int - '0' as int)
    } else if 'a' <= c && c <= 'f' {
        Some(c as int - 'a' as int + 10)
    } else if 'A' <= c && c <= 'F' {
        Some(c as int - 'A' as int + 10)
    } else {
        None
    }
}

/// The value of the four hexadecimal digits at `i`.
pub open spec fn spec_hex4(s: Seq<char>, i: int) -> Option<int> {
    if 0 <= i && i + 4 <= s.len() {
        match (hex_val(s[i]), hex_val(s[i + 1]), hex_val(s[i + 2]), hex_val(s[i + 3])) {
            (Some(a), Some(b), Some(c), Some(d)) => Some(a * 0x1000 + b * 0x100 + c * 0x10 + d),
            _ => None,
        }
    } else {
        None
    }
}

/// The character with the given scalar value.
pub open spec fn char_of(v: int) -> char {
    (v as u32) as char
}

/// Prepends a character to the string being collected, if the tail parsed.
pub open spec fn str_cons(c: char, rest: Option<(Seq<char>, int)>) -> Option<(Seq<char>, int)> {
    match rest {
        Some((t, j)) => Some((seq![c] + t, j)),
        None => None,
    }
}

/// Parses the body of a string literal, starting just after the opening
/// quote, up to and including the closing quote.
pub open spec fn spec_str_body(s: Seq<char>, i: int) -> Option<(Seq<char>, int)>
    decreases s.len() - i,
{
    if i < 0 || i >= s.len() {
        None
    } else if s[i] == '"' {
        Some((Seq::empty(), i + 1))
    } else if s[i] == '\\' {
        if i + 1 >= s.len() {
            None
        } else {
            let e = s[i + 1];
            if e == '"' || e == '\\' || e == '/' {
                str_cons(e, spec_str_body(s, i + 2))
            } else if e == 'b' {
                str_cons('\u{8}', spec_str_body(s, i + 2))
            } else if e == 'f' {
                str_cons('\u{c}', spec_str_body(s, i + 2))
            } else if e == 'n' {
                str_cons('\n', spec_str_body(s, i + 2))
            } else if e == 'r' {
                str_cons('\r', spec_str_body(s, i + 2))
            } else if e == 't' {
                str_cons('\t', spec_str_body(s, i + 2))
            } else if e == 'u' {
                match spec_hex4(s, i + 2) {
                    None => None,
                    Some(cp) => {
                        if 0xD800 <= cp && cp < 0xDC00 {
                            // a high surrogate must pair with a following \u low surrogate
                            if i + 8 <= s.len() && s[i + 6] == '\\' && s[i + 7] == 'u' {
                                match spec_hex4(s, i + 8) {
                                    None => None,
                                    Some(lo) => {
                                        if 0xDC00 <= lo && lo < 0xE000 {
                                            str_cons(
                                                char_of(
                                                    0x10000 + (cp - 0xD800) * 0x400 + (lo - 0xDC00),
                                                ),
                                                spec_str_body(s, i + 12),
                                            )
                                        } else {
                                            None
                                        }
                                    },
                                }
                            } else {
                                None
                            }
                        } else if 0xDC00 <= cp && cp < 0xE000 {
                            None
                        } else {
                            str_cons(char_of(cp), spec_str_body(s, i + 6))
                        }
                    },
                }
            } else {
                None
            }
        }
    } else if (s[i] as u32) < 0x20 {
        None
    } else {
        str_cons(s[i], spec_str_body(s, i + 1))
    }
}

/// Parses a string literal starting at its opening quote.
pub open spec fn spec_parse_string(s: Seq<char>, i: int) -> Option<(Seq<char>, int)> {
    if 0 <= i && i < s.len() && s[i] == '"' {
        spec_str_body(s, i + 1)
    } else {
        None
    }
}

/// First index at or after `i` holding no decimal digit.
pub open spec fn digits_end(s: Seq<char>, i: int) -> int
    decreases s.len() - i,
{
    if 0 <= i && i < s.len() && is_digit(s[i]) {
        digits_end(s, i + 1)
    } else {
        i
    }
}

/// Parses the fraction part, if any; yields whether the number stays
/// integral and the position after the part.
pub open spec fn spec_num_frac(s: Seq<char>, i: int) -> Option<(bool, int)> {
    if 0 <= i && i < s.len() && s[i] == '.' {
        let fend = digits_end(s, i + 1);
        if fend > i + 1 {
            Some((false, fend))
        } else {
            None
        }
    } else {
        Some((true, i))
    }
}

/// Parses the exponent part, if any; yields whether the number stays
/// integral and the position after the part.
pub open spec fn spec_num_exp(s: Seq<char>, i: int) -> Option<(bool, int)> {
    if 0 <= i && i < s.len() && (s[i] == 'e' || s[i] == 'E') {
        let m = if i + 1 < s.len() && (s[i + 1] == '+' || s[i + 1] == '-') {
            i + 2
        } else {
            i + 1
        };
        let eend = digits_end(s, m);
        if eend > m {
            Some((false, eend))
        } else {
            None
        }
    } else {
        Some((true, i))
    }
}

/// Parses a number literal starting at its sign or first digit.
pub open spec fn spec_parse_number(s: Seq<char>, i: int) -> Option<(JsonNumV, int)> {
    if i < 0 || i >= s.len() {
        None
    } else {
        let neg = s[i] == '-';
        let j = if neg {
            i + 1
        } else {
            i
        };
        if j >= s.len() || !is_digit(s[j]) {
            None
        } else {
            let dend = if s[j] == '0' {
                j + 1
            } else {
                digits_end(s, j)
            };
            match spec_num_frac(s, dend) {
                None => None,
                Some((int1, k)) => match spec_num_exp(s, k) {
                    None => None,
                    Some((int2, end)) => Some(
                        (
                            JsonNumV {
                                neg,
                                digits: s.subrange(j, dend),
                                integral: int1 && int2,
                            },
                            end,
                        ),
                    ),
                },
            }
        }
    }
}

/// Parses any value starting at `i`.
///
/// The guards comparing returned positions against `i` only state what the
/// grammar guarantees anyway — every production consumes at least one
/// character — in the form the termination checker can use.
pub open spec fn spec_parse_value(s: Seq<char>, i: int) -> Option<(JsonV, int)>
    decreases s.len() - i, 1int,
{
    if i < 0 || i >= s.len() {
        None
    } else if s[i] == '{' {
        match spec_parse_object(s, i) {
            None => None,
            Some((ms, j)) => Some((JsonV::Obj(ms), j)),
        }
    } else if s[i] == '[' {
        match spec_parse_array(s, i) {
            None => None,
            Some((es, j)) => Some((JsonV::Arr(es), j)),
        }
    } else if s[i] == '"' {
        match spec_parse_string(s, i) {
            None => None,
            Some((cs, j)) => Some((JsonV::Str(cs), j)),
        }
    } else if s[i] == 't' {
        if i + 4 <= s.len() && s[i + 1] == 'r' && s[i + 2] == 'u' && s[i + 3] == 'e' {
            Some((JsonV::Bool(true), i + 4))
        } else {
            None
        }
    } else if s[i] == 'f' {
        if i + 5 <= s.len() && s[i + 1] == 'a' && s[i + 2] == 'l' && s[i + 3] == 's' && s[i + 4]
            == 'e' {
            Some((JsonV::Bool(false), i + 5))
        } else {
            None
        }
    } else if s[i] == 'n' {
        if i + 4 <= s.len() && s[i + 1] == 'u' && s[i + 2] == 'l' && s[i + 3] == 'l' {
            Some((JsonV::Null, i + 4))
        } else {
            None
        }
    } else if s[i] == '-' || is_digit(s[i]) {
        match spec_parse_number(s, i) {
            None => None,
            Some((n, j)) => Some((JsonV::Num(n), j)),
        }
    } else {
        None
    }
}

/// Parses an object starting at its opening brace.
pub open spec fn spec_parse_object(s: Seq<char>, i: int) -> Option<(Seq<(Seq<char>, JsonV)>, int)>
    decreases s.len() - i, 0int,
{
    if i < 0 || i >= s.len() || s[i] != '{' {
        None
    } else {
        let j = spec_ws(s, i + 1);
        if j < s.len() && s[j] == '}' {
            Some((Seq::empty(), j + 1))
        } else if i < j && j <= s.len() {
            spec_parse_members(s, j)
        } else {
            None
        }
    }
}

/// Parses the members of an object, starting at the first key and ending
/// just past the closing brace.
pub open spec fn spec_parse_members(s: Seq<char>, i: int) -> Option<(Seq<(Seq<char>, JsonV)>, int)>
    decreases s.len() - i, 0int,
{
    match spec_parse_string(s, i) {
        None => None,
        Some((key, i2)) => {
            let i3 = spec_ws(s, i2);
            if i3 < s.len() && s[i3] == ':' {
                let i4 = spec_ws(s, i3 + 1);
                if i < i4 && i4 <= s.len() {
                    match spec_parse_value(s, i4) {
                        None => None,
                        Some((v, i5)) => {
                            let i6 = spec_ws(s, i5);
                            if i6 < s.len() && s[i6] == ',' {
                                let i7 = spec_ws(s, i6 + 1);
                                if i < i7 && i7 <= s.len() {
                                    match spec_parse_members(s, i7) {
                                        None => None,
                                        Some((rest, i8)) => Some((seq![(key, v)] + rest, i8)),
                                    }
                                } else {
                                    None
                                }
                            } else if i6 < s.len() && s[i6] == '}' {
                                Some((seq![(key, v)], i6 + 1))
                            } else {
                                None
                            }
                        },
                    }
                } else {
                    None
                }
            } else {
                None
            }
        },
    }
}

/// Parses an array starting at its opening bracket.
pub open spec fn spec_parse_array(s: Seq<char>, i: int) -> Option<(Seq<JsonV>, int)>
    decreases s.len() - i, 0int,
{
    if i < 0 || i >= s.len() || s[i] != '[' {
        None
    } else {
        let j = spec_ws(s, i + 1);
        if j < s.len() && s[j] == ']' {
            Some((Seq::empty(), j + 1))
        } else if i < j && j <= s.len() {
            spec_parse_elements(s, j)
        } else {
            None
        }
    }
}

/// Parses the elements of an array, starting at the first element and
/// ending just past the closing bracket.
pub open spec fn spec_parse_elements(s: Seq<char>, i: int) -> Option<(Seq<JsonV>, int)>
    decreases s.len() - i, 2int,
{
    match spec_parse_value(s, i) {
        None => None,
        Some((v, i2)) => {
            let i3 = spec_ws(s, i2);
            if i3 < s.len() && s[i3] == ',' {
                let i4 = spec_ws(s, i3 + 1);
                if i < i4 && i4 <= s.len() {
                    match spec_parse_elements(s, i4) {
                        None => None,
                        Some((rest, i5)) => Some((seq![v] + rest, i5)),
                    }
                } else {
                    None
                }
            } else if i3 < s.len() && s[i3] == ']' {
                Some((seq![v], i3 + 1))
            } else {
                None
            }
        },
    }
}

/// Parses a whole frame: one value, possibly surrounded by whitespace.
pub open spec fn spec_parse_text(s: Seq<char>) -> Option<JsonV> {
    match spec_parse_value(s, spec_ws(s, 0)) {
        None => None,
        Some((v, j)) => {
            if spec_ws(s, j) == s.len() {
                Some(v)
            } else {
                None
            }
        },
    }
}

/// The value of the first member named `key`, if any.
pub open spec fn obj_get(ms: Seq<(Seq<char>, JsonV)>, key: Seq<char>) -> Option<JsonV>
    decreases ms.len(),
{
    if ms.len() == 0 {
        None
    } else if ms[0].0 == key {
        Some(ms[0].1)
    } else {
        obj_get(ms.drop_first(), key)
    }
}

/// The number parts the executable parser hands over.
#[derive(Debug, Clone)]
pub struct JsonNum {
    pub neg: bool,
    pub digits: Vec<char>,
    pub integral: bool,
}

/// The number a [`JsonNum`] stands for.
pub open spec fn num_v(n: JsonNum) -> JsonNumV {
    JsonNumV { neg: n.neg, digits: n.digits@, integral: n.integral }
}

/// What the executable parser reports about one parsed value.
#[derive(Debug)]
pub struct ValueInfo {
    /// Whether the value is `null`
    pub is_null: bool,
    /// The characters of the value, when it is a string
    pub str_val: Option<Vec<char>>,
    /// The parts of the value, when it is a number
    pub num_val: Option<JsonNum>,
    /// The tracked members of the value, when it is an object
    pub fields: Option<EnvFields>,
}

/// The first-occurrence values of the member names the protocol reads.
#[derive(Debug)]
pub struct EnvFields {
    pub tag: Option<Box<ValueInfo>>,
    pub data: Option<Box<ValueInfo>>,
    pub error: Option<Box<ValueInfo>>,
    pub content: Option<Box<ValueInfo>>,
    pub system: Option<Box<ValueInfo>>,
    pub channel: Option<Box<ValueInfo>>,
    pub id: Option<Box<ValueInfo>>,
    pub by: Option<Box<ValueInfo>>,
    pub name: Option<Box<ValueInfo>>,
}

/// Whether `info` faithfully reports the value `v`.
pub open spec fn info_ok(info: ValueInfo, v: JsonV) -> bool
    decreases info,
{
    &&& (info.is_null <==> v is Null)
    &&& (info.str_val is Some <==> v is Str)
    &&& (match info.str_val {
        Some(cs) => v matches JsonV::Str(t) && cs@ == t,
        None => true,
    })
    &&& (info.num_val is Some <==> v is Num)
    &&& (match info.num_val {
        Some(n) => v matches JsonV::Num(m) && num_v(n) == m,
        None => true,
    })
    &&& (info.fields is Some <==> v is Obj)
    &&& (match info.fields {
        Some(ef) => v matches JsonV::Obj(ms) && env_fields_ok(ef, ms),
        None => true,
    })
}

/// Whether every tracked slot reports the first member of its name in `ms`.
pub open spec fn env_fields_ok(ef: EnvFields, ms: Seq<(Seq<char>, JsonV)>) -> bool
    decreases ef,
{
    &&& slot_ok(ef.tag, obj_get(ms, "type"@))
    &&& slot_ok(ef.data, obj_get(ms, "data"@))
    &&& slot_ok(ef.error, obj_get(ms, "error"@))
    &&& slot_ok(ef.content, obj_get(ms, "content"@))
    &&& slot_ok(ef.system, obj_get(ms, "system"@))
    &&& slot_ok(ef.channel, obj_get(ms, "channel"@))
    &&& slot_ok(ef.id, obj_get(ms, "id"@))
    &&& slot_ok(ef.by, obj_get(ms, "by"@))
    &&& slot_ok(ef.name, obj_get(ms, "name"@))
}

/// Whether a slot reports a member lookup result.
pub open spec fn slot_ok(slot: Option<Box<ValueInfo>>, got: Option<JsonV>) -> bool
    decreases slot,
{
    match (slot, got) {
        (Option::None, Option::None) => true,
        (Option::Some(b), Option::Some(w)) => info_ok(*b, w),
        _ => false,
    }
}

/// Looking a key up in an object that starts with one known member.
pub proof fn obj_get_cons(k: Seq<char>, v: JsonV, rest: Seq<(Seq<char>, JsonV)>, key: Seq<char>)
    ensures
        obj_get(seq![(k, v)] + rest, key) == if k == key {
            Some(v)
        } else {
            obj_get(rest, key)
        },
{
    let ms = seq![(k, v)] + rest;
    assert(ms[0] == (k, v));
    assert(ms.drop_first() =~= rest);
}

/// Whether a character counts as whitespace.
pub fn ws_char(c: char) -> (r: bool)
    ensures
        r == is_ws(c),
{
    c == ' ' || c == '\t' || c == '\n' || c == '\r'
}

/// Whether a character is a decimal digit.
pub fn digit_char(c: char) -> (r: bool)
    ensures
        r == is_digit(c),
{
    c >= '0' && c <= '9'
}

/// First index at or after `i` holding no whitespace.
pub fn skip_ws(s: &Vec<char>, i: usize) -> (j: usize)
    requires
        i <= s@.len(),
    ensures
        j as int == spec_ws(s@, i as int),
        i <= j <= s@.len(),
{
    let mut cur = i;
    while cur < s.len() && ws_char(s[cur])
        invariant
            i <= cur <= s@.len(),
            spec_ws(s@, i as int) == spec_ws(s@, cur as int),
        decreases s@.len() - cur,
    {
        cur = cur + 1;
    }
    cur
}

/// First index at or after `i` holding no decimal digit.
pub fn scan_digits(s: &Vec<char>, i: usize) -> (j: usize)
    requires
        i <= s@.len(),
    ensures
        j as int == digits_end(s@, i as int),
        i <= j <= s@.len(),
        i < s@.len() && is_digit(s@[i as int]) ==> j > i,
{
    let mut cur = i;
    while cur < s.len() && digit_char(s[cur])
        invariant
            i <= cur <= s@.len(),
            digits_end(s@, i as int) == digits_end(s@, cur as int),
        decreases s@.len() - cur,
    {
        cur = cur + 1;
    }
    cur
}

/// The value of a hexadecimal digit, if the character is one.
pub fn hex_digit(c: char) -> (r: Option<u32>)
    ensures
        match r {
            Some(h) => hex_val(c) == Some(h as int) && h < 16,
            None => hex_val(c) is None,
        },
{
    let u = c as u32;
    if c >= '0' && c <= '9' {
        Some(u - 48)
    } else if c >= 'a' && c <= 'f' {
        Some(u - 97 + 10)
    } else if c >= 'A' && c <= 'F' {
        Some(u - 65 + 10)
    } else {
        None
    }
}

/// The value of the four hexadecimal digits at `i`.
pub fn hex4(s: &Vec<char>, i: usize) -> (r: Option<u32>)
    ensures
        match r {
            Some(v) => spec_hex4(s@, i as int) == Some(v as int) && v < 0x10000,
            None => spec_hex4(s@, i as int) is None,
        },
{
    if i > s.len() || s.len() - i < 4 {
        return None;
    }
    let a = hex_digit(s[i]);
    let b = hex_digit(s[i + 1]);
    let c = hex_digit(s[i + 2]);
    let d = hex_digit(s[i + 3]);
    match (a, b, c, d) {
        (Some(a), Some(b), Some(c), Some(d)) => Some(a * 0x1000 + b * 0x100 + c * 0x10 + d),
        _ => None,
    }
}

/// Appending an already-collected prefix to a string parse result.
pub open spec fn str_app(p: Seq<char>, rest: Option<(Seq<char>, int)>) -> Option<(Seq<char>, int)> {
    match rest {
        Some((t, j)) => Some((p + t, j)),
        None => None,
    }
}

proof fn str_app_cons(p: Seq<char>, c: char, rest: Option<(Seq<char>, int)>)
    ensures
        str_app(p, str_cons(c, rest)) == str_app(p.push(c), rest),
{
    match rest {
        Some((t, j)) => {
            assert(p + (seq![c] + t) =~= p.push(c) + t);
        },
        None => {},
    }
}

/// Parses a string literal starting at its opening quote.
#[verifier::loop_isolation(false)]
pub fn parse_string(s: &Vec<char>, i: usize) -> (r: Option<(Vec<char>, usize)>)
    requires
        i <= s@.len(),
    ensures
        match r {
            None => spec_parse_string(s@, i as int) is None,
            Some(p) => spec_parse_string(s@, i as int) == Some((p.0@, p.1 as int)) && i < p.1
                <= s@.len(),
        },
{
    if i >= s.len() || s[i] != '"' {
        return None;
    }
    let mut acc: Vec<char> = Vec::new();
    let mut cur = i + 1;
    loop
        invariant
            i + 1 <= cur <= s@.len(),
            spec_str_body(s@, i as int + 1) == str_app(acc@, spec_str_body(s@, cur as int)),
        decreases s@.len() - cur,
    {
        if cur >= s.len() {
            return None;
        }
        let c = s[cur];
        if c == '"' {
            proof {
                assert(acc@ + Seq::<char>::empty() =~= acc@);
            }
            return Some((acc, cur + 1));
        } else if c == '\\' {
            if s.len() - cur < 2 {
                return None;
            }
            let e = s[cur + 1];
            if e == '"' || e == '\\' || e == '/' {
                proof {
                    str_app_cons(acc@, e, spec_str_body(s@, cur + 2));
                }
                acc.push(e);
                cur = cur + 2;
            } else if e == 'b' {
                proof {
                    str_app_cons(acc@, '\u{8}', spec_str_body(s@, cur + 2));
                }
                acc.push('\u{8}');
                cur = cur + 2;
            } else if e == 'f' {
                proof {
                    str_app_cons(acc@, '\u{c}', spec_str_body(s@, cur + 2));
                }
                acc.push('\u{c}');
                cur = cur + 2;
            } else if e == 'n' {
                proof {
                    str_app_cons(acc@, '\n', spec_str_body(s@, cur + 2));
                }
                acc.push('\n');
                cur = cur + 2;
            } else if e == 'r' {
                proof {
                    str_app_cons(acc@, '\r', spec_str_body(s@, cur + 2));
                }
                acc.push('\r');
                cur = cur + 2;
            } else if e == 't' {
                proof {
                    str_app_cons(acc@, '\t', spec_str_body(s@, cur + 2));
                }
                acc.push('\t');
                cur = cur + 2;
            } else if e == 'u' {
                let cp = match hex4(s, cur + 2) {
                    Some(cp) => cp,
                    None => {
                        return None;
                    },
                };
                if 0xD800 <= cp && cp < 0xDC00 {
                    if s.len() - cur >= 8 && s[cur + 6] == '\\' && s[cur + 7] == 'u' {
                        let lo = match hex4(s, cur + 8) {
                            Some(lo) => lo,
                            None => {
                                return None;
                            },
                        };
                        if 0xDC00 <= lo && lo < 0xE000 {
                            let sc: u32 = 0x10000 + (cp - 0xD800) * 0x400 + (lo - 0xDC00);
                            let ch = char::from_u32(sc).unwrap();
                            proof {
                                vstd::utf8::char_u32_cast(ch, sc);
                                str_app_cons(acc@, char_of(sc as int), spec_str_body(s@, cur + 12));
                            }
                            acc.push(ch);
                            cur = cur + 12;
                        } else {
                            return None;
                        }
                    } else {
                        return None;
                    }
                } else if 0xDC00 <= cp && cp < 0xE000 {
                    return None;
                } else {
                    let ch = char::from_u32(cp).unwrap();
                    proof {
                        vstd::utf8::char_u32_cast(ch, cp);
                        str_app_cons(acc@, char_of(cp as int), spec_str_body(s@, cur + 6));
                    }
                    acc.push(ch);
                    cur = cur + 6;
                }
            } else {
                return None;
            }
        } else if (c as u32) < 0x20 {
            return None;
        } else {
            proof {
                str_app_cons(acc@, c, spec_str_body(s@, cur + 1));
            }
            acc.push(c);
            cur = cur + 1;
        }
    }
}

/// Parses a number literal starting at its sign or first digit.
#[verifier::loop_isolation(false)]
pub fn parse_number(s: &Vec<char>, i: usize) -> (r: Option<(JsonNum, usize)>)
    requires
        i <= s@.len(),
    ensures
        match r {
            None => spec_parse_number(s@, i as int) is None,
            Some(p) => spec_parse_number(s@, i as int) == Some((num_v(p.0), p.1 as int)) && i < p.1
                <= s@.len(),
        },
{
    if i >= s.len() {
        return None;
    }
    let neg = s[i] == '-';
    let j = if neg {
        i + 1
    } else {
        i
    };
    if j >= s.len() || !digit_char(s[j]) {
        return None;
    }
    let dend = if s[j] == '0' {
        j + 1
    } else {
        scan_digits(s, j)
    };
    let mut digits: Vec<char> = Vec::new();
    let mut k = j;
    while k < dend
        invariant
            j <= k <= dend <= s@.len(),
            digits@ == s@.subrange(j as int, k as int),
        decreases dend - k,
    {
        digits.push(s[k]);
        proof {
            assert(digits@ =~= s@.subrange(j as int, k + 1 as int));
        }
        k = k + 1;
    }
    // fraction part
    let mut integral = true;
    let mut pos = dend;
    if pos < s.len() && s[pos] == '.' {
        let fend = scan_digits(s, pos + 1);
        if fend == pos + 1 {
            return None;
        }
        integral = false;
        pos = fend;
    }
    assert(spec_num_frac(s@, dend as int) == Some((integral, pos as int)));
    // exponent part
    let ghost epos = pos as int;
    let ghost eintegral = integral;
    if pos < s.len() && (s[pos] == 'e' || s[pos] == 'E') {
        let m = if pos + 1 < s.len() && (s[pos + 1] == '+' || s[pos + 1] == '-') {
            pos + 2
        } else {
            pos + 1
        };
        let eend = scan_digits(s, m);
        if eend == m {
            return None;
        }
        integral = false;
        pos = eend;
        assert(spec_num_exp(s@, epos) == Some((false, pos as int)));
    } else {
        assert(spec_num_exp(s@, epos) == Some((true, pos as int)));
    }
    Some((JsonNum { neg, digits, integral }, pos))
}

/// The member names the parser tracks are pairwise distinct.
pub proof fn tracked_keys_distinct()
    ensures
        "type"@ != "data"@,
        "type"@ != "error"@,
        "type"@ != "content"@,
        "type"@ != "system"@,
        "type"@ != "channel"@,
        "type"@ != "id"@,
        "type"@ != "by"@,
        "type"@ != "name"@,
        "data"@ != "error"@,
        "data"@ != "content"@,
        "data"@ != "system"@,
        "data"@ != "channel"@,
        "data"@ != "id"@,
        "data"@ != "by"@,
        "data"@ != "name"@,
        "error"@ != "content"@,
        "error"@ != "system"@,
        "error"@ != "channel"@,
        "error"@ != "id"@,
        "error"@ != "by"@,
        "error"@ != "name"@,
        "content"@ != "system"@,
        "content"@ != "channel"@,
        "content"@ != "id"@,
        "content"@ != "by"@,
        "content"@ != "name"@,
        "system"@ != "channel"@,
        "system"@ != "id"@,
        "system"@ != "by"@,
        "system"@ != "name"@,
        "channel"@ != "id"@,
        "channel"@ != "by"@,
        "channel"@ != "name"@,
        "id"@ != "by"@,
        "id"@ != "name"@,
        "by"@ != "name"@,
{
    reveal_strlit("type");
    reveal_strlit("data");
    reveal_strlit("error");
    reveal_strlit("content");
    reveal_strlit("system");
    reveal_strlit("channel");
    reveal_strlit("id");
    reveal_strlit("by");
    reveal_strlit("name");
    assert(("type"@).len() == 4);
    assert(("data"@).len() == 4);
    assert(("error"@).len() == 5);
    assert(("content"@).len() == 7);
    assert(("system"@).len() == 6);
    assert(("channel"@).len() == 7);
    assert(("id"@).len() == 2);
    assert(("by"@).len() == 2);
    assert(("name"@).len() == 4);
    assert(("type"@)[0] == 't');
    assert(("data"@)[0] == 'd');
    assert(("name"@)[0] == 'n');
    assert(("content"@)[1] == 'o');
    assert(("channel"@)[1] == 'h');
    assert(("id"@)[0] == 'i');
    assert(("by"@)[0] == 'b');
}

/// Parses any value starting at `i`, reporting what the codec reads of it.
pub fn parse_value(s: &Vec<char>, i: usize) -> (r: Option<(ValueInfo, Ghost<JsonV>, usize)>)
    requires
        i <= s@.len(),
    ensures
        match r {
            None => spec_parse_value(s@, i as int) is None,
            Some(p) => spec_parse_value(s@, i as int) == Some((p.1@, p.2 as int)) && info_ok(
                p.0,
                p.1@,
            ) && i < p.2 <= s@.len(),
        },
    decreases s@.len() - i, 1int,
{
    if i >= s.len() {
        return None;
    }
    let c = s[i];
    if c == '{' {
        match parse_object(s, i) {
            None => None,
            Some((ef, ms, j)) => {
                let info = ValueInfo { is_null: false, str_val: None, num_val: None, fields: Some(
                    ef,
                ) };
                Some((info, Ghost(JsonV::Obj(ms@)), j))
            },
        }
    } else if c == '[' {
        match parse_array(s, i) {
            None => None,
            Some((es, j)) => {
                let info = ValueInfo { is_null: false, str_val: None, num_val: None, fields: None };
                Some((info, Ghost(JsonV::Arr(es@)), j))
            },
        }
    } else if c == '"' {
        match parse_string(s, i) {
            None => None,
            Some((cs, j)) => {
                let ghost g = JsonV::Str(cs@);
                let info = ValueInfo {
                    is_null: false,
                    str_val: Some(cs),
                    num_val: None,
                    fields: None,
                };
                Some((info, Ghost(g), j))
            },
        }
    } else if c == 't' {
        if s.len() - i >= 4 && s[i + 1] == 'r' && s[i + 2] == 'u' && s[i + 3] == 'e' {
            let info = ValueInfo { is_null: false, str_val: None, num_val: None, fields: None };
            Some((info, Ghost(JsonV::Bool(true)), i + 4))
        } else {
            None
        }
    } else if c == 'f' {
        if s.len() - i >= 5 && s[i + 1] == 'a' && s[i + 2] == 'l' && s[i + 3] == 's' && s[i + 4]
            == 'e' {
            let info = ValueInfo { is_null: false, str_val: None, num_val: None, fields: None };
            Some((info, Ghost(JsonV::Bool(false)), i + 5))
        } else {
            None
        }
    } else if c == 'n' {
        if s.len() - i >= 4 && s[i + 1] == 'u' && s[i + 2] == 'l' && s[i + 3] == 'l' {
            let info = ValueInfo { is_null: true, str_val: None, num_val: None, fields: None };
            Some((info, Ghost(JsonV::Null), i + 4))
        } else {
            None
        }
    } else if c == '-' || digit_char(c) {
        match parse_number(s, i) {
            None => None,
            Some((n, j)) => {
                let ghost g = JsonV::Num(num_v(n));
                let info = ValueInfo {
                    is_null: false,
                    str_val: None,
                    num_val: Some(n),
                    fields: None,
                };
                Some((info, Ghost(g), j))
            },
        }
    } else {
        None
    }
}

/// Parses an object starting at its opening brace.
pub fn parse_object(s: &Vec<char>, i: usize) -> (r: Option<
    (EnvFields, Ghost<Seq<(Seq<char>, JsonV)>>, usize),
>)
    requires
        i <= s@.len(),
    ensures
        match r {
            None => spec_parse_object(s@, i as int) is None,
            Some(p) => spec_parse_object(s@, i as int) == Some((p.1@, p.2 as int))
                && env_fields_ok(p.0, p.1@) && i < p.2 <= s@.len(),
        },
    decreases s@.len() - i, 0int,
{
    if i >= s.len() || s[i] != '{' {
        return None;
    }
    let j = skip_ws(s, i + 1);
    if j < s.len() && s[j] == '}' {
        let ef = EnvFields {
            tag: None,
            data: None,
            error: None,
            content: None,
            system: None,
            channel: None,
            id: None,
            by: None,
            name: None,
        };
        let ghost ms: Seq<(Seq<char>, JsonV)> = Seq::empty();
        Some((ef, Ghost(ms), j + 1))
    } else {
        parse_members(s, j)
    }
}

/// Parses the members of an object, starting at the first key.
pub fn parse_members(s: &Vec<char>, i: usize) -> (r: Option<
    (EnvFields, Ghost<Seq<(Seq<char>, JsonV)>>, usize),
>)
    requires
        i <= s@.len(),
    ensures
        match r {
            None => spec_parse_members(s@, i as int) is None,
            Some(p) => spec_parse_members(s@, i as int) == Some((p.1@, p.2 as int))
                && env_fields_ok(p.0, p.1@) && i < p.2 <= s@.len(),
        },
    decreases s@.len() - i, 0int,
{
    let (key, i2) = match parse_string(s, i) {
        None => {
            return None;
        },
        Some(p) => p,
    };
    let i3 = skip_ws(s, i2);
    if i3 >= s.len() || s[i3] != ':' {
        return None;
    }
    let i4 = skip_ws(s, i3 + 1);
    let (info, gv, i5) = match parse_value(s, i4) {
        None => {
            return None;
        },
        Some(p) => p,
    };
    let i6 = skip_ws(s, i5);
    let (ef_rest, ms_rest, end) = if i6 < s.len() && s[i6] == ',' {
        let i7 = skip_ws(s, i6 + 1);
        match parse_members(s, i7) {
            None => {
                return None;
            },
            Some(p) => p,
        }
    } else if i6 < s.len() && s[i6] == '}' {
        let ef = EnvFields {
            tag: None,
            data: None,
            error: None,
            content: None,
            system: None,
            channel: None,
            id: None,
            by: None,
            name: None,
        };
        let ghost ms: Seq<(Seq<char>, JsonV)> = Seq::empty();
        (ef, Ghost(ms), i6 + 1)
    } else {
        return None;
    };
    let ghost ms = seq![(key@, gv@)] + ms_rest@;
    proof {
        assert(seq![(key@, gv@)] + Seq::<(Seq<char>, JsonV)>::empty() =~= seq![(key@, gv@)]);
    }
    let h_tag = crate::text::chars_eq_str(&key, "type");
    let h_data = crate::text::chars_eq_str(&key, "data");
    let h_error = crate::text::chars_eq_str(&key, "error");
    let h_content = crate::text::chars_eq_str(&key, "content");
    let h_system = crate::text::chars_eq_str(&key, "system");
    let h_channel = crate::text::chars_eq_str(&key, "channel");
    let h_id = crate::text::chars_eq_str(&key, "id");
    let h_by = crate::text::chars_eq_str(&key, "by");
    let h_name = crate::text::chars_eq_str(&key, "name");
    let mut ef = ef_rest;
    if h_tag {
        ef.tag = Some(Box::new(info));
    } else if h_data {
        ef.data = Some(Box::new(info));
    } else if h_error {
        ef.error = Some(Box::new(info));
    } else if h_content {
        ef.content = Some(Box::new(info));
    } else if h_system {
        ef.system = Some(Box::new(info));
    } else if h_channel {
        ef.channel = Some(Box::new(info));
    } else if h_id {
        ef.id = Some(Box::new(info));
    } else if h_by {
        ef.by = Some(Box::new(info));
    } else if h_name {
        ef.name = Some(Box::new(info));
    }
    proof {
        tracked_keys_distinct();
        obj_get_cons(key@, gv@, ms_rest@, "type"@);
        obj_get_cons(key@, gv@, ms_rest@, "data"@);
        obj_get_cons(key@, gv@, ms_rest@, "error"@);
        obj_get_cons(key@, gv@, ms_rest@, "content"@);
        obj_get_cons(key@, gv@, ms_rest@, "system"@);
        obj_get_cons(key@, gv@, ms_rest@, "channel"@);
        obj_get_cons(key@, gv@, ms_rest@, "id"@);
        obj_get_cons(key@, gv@, ms_rest@, "by"@);
        obj_get_cons(key@, gv@, ms_rest@, "name"@);
        assert(env_fields_ok(ef, ms));
    }
    Some((ef, Ghost(ms), end))
}

/// Parses an array starting at its opening bracket.
pub fn parse_array(s: &Vec<char>, i: usize) -> (r: Option<(Ghost<Seq<JsonV>>, usize)>)
    requires
        i <= s@.len(),
    ensures
        match r {
            None => spec_parse_array(s@, i as int) is None,
            Some(p) => spec_parse_array(s@, i as int) == Some((p.0@, p.1 as int)) && i < p.1
                <= s@.len(),
        },
    decreases s@.len() - i, 0int,
{
    if i >= s.len() || s[i] != '[' {
        return None;
    }
    let j = skip_ws(s, i + 1);
    if j < s.len() && s[j] == ']' {
        let ghost es: Seq<JsonV> = Seq::empty();
        Some((Ghost(es), j + 1))
    } else {
        parse_elements(s, j)
    }
}

/// Parses the elements of an array, starting at the first element.
pub fn parse_elements(s: &Vec<char>, i: usize) -> (r: Option<(Ghost<Seq<JsonV>>, usize)>)
    requires
        i <= s@.len(),
    ensures
        match r {
            None => spec_parse_elements(s@, i as int) is None,
            Some(p) => spec_parse_elements(s@, i as int) == Some((p.0@, p.1 as int)) && i < p.1
                <= s@.len(),
        },
    decreases s@.len() - i, 2int,
{
    let (_info, gv, i2) = match parse_value(s, i) {
        None => {
            return None;
        },
        Some(p) => p,
    };
    let i3 = skip_ws(s, i2);
    if i3 < s.len() && s[i3] == ',' {
        let i4 = skip_ws(s, i3 + 1);
        match parse_elements(s, i4) {
            None => None,
            Some((rest, i5)) => {
                let ghost es = seq![gv@] + rest@;
                Some((Ghost(es), i5))
            },
        }
    } else if i3 < s.len() && s[i3] == ']' {
        let ghost es = seq![gv@];
        Some((Ghost(es), i3 + 1))
    } else {
        None
    }
}

/// Parses a whole frame: one value, possibly surrounded by whitespace.
pub fn parse_text(s: &Vec<char>) -> (r: Option<(ValueInfo, Ghost<JsonV>)>)
    ensures
        match r {
            None => spec_parse_text(s@) is None,
            Some(p) => spec_parse_text(s@) == Some(p.1@) && info_ok(p.0, p.1@),
        },
{
    let i = skip_ws(s, 0);
    match parse_value(s, i) {
        None => None,
        Some((info, gv, j)) => {
            let k = skip_ws(s, j);
            if k == s.len() {
                Some((info, gv))
            } else {
                None
            }
        },
    }
}

} // verus!
