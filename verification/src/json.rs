//! The loosely typed side of the wire: a JSON value tree, a parser for
//! reply bodies proved sound against a spec-level grammar (whatever tree
//! the parser returns, the input text renders that tree), and the typed
//! field extractors the response decoder is built from. An absent or null
//! member reads as an absent value; a member present with an unexpected
//! shape is a decode failure; unknown members are ignored.
use vstd::prelude::*;

use crate::wire::push_char;

verus! {

/// A JSON value as it arrives from the daemon. Integers that fit a signed
/// 64-bit value parse as `Int`; any other number keeps its raw token text
/// in `Num`.
#[derive(Debug, PartialEq)]
pub enum Json {
    Null,
    Bool(bool),
    Int(i64),
    Num(String),
    Text(String),
    List(Vec<Json>),
    Object(Vec<(String, Json)>),
}

/// A decode failure: some member of the reply had an unexpected shape.
#[derive(Debug, Clone, Copy, PartialEq, Eq, Structural)]
pub struct DecodeError;

/// A numeric attribute exactly as it stood on the wire: a whole number, or
/// the raw token text of a fractional one.
#[derive(Debug, Clone, PartialEq)]
pub enum WireNum {
    Whole(i64),
    Decimal(String),
}

// ---------------------------------------------------------------------------
// Member lookup
// ---------------------------------------------------------------------------
/// The first member of `ms` named `key`, if any.
pub open spec fn obj_lookup(ms: Seq<(String, Json)>, key: Seq<char>) -> Option<Json>
    decreases ms.len(),
{
    if ms.len() == 0 {
        None
    } else if ms[0].0@ == key {
        Some(ms[0].1)
    } else {
        obj_lookup(ms.drop_first(), key)
    }
}

/// The member of object `j` named `key`; None for a missing member or a
/// non-object value.
pub open spec fn json_member(j: Json, key: Seq<char>) -> Option<Json> {
    match j {
        Json::Object(ms) => obj_lookup(ms@, key),
        _ => None,
    }
}

/// A borrowed view of the member of `j` named `key`.
pub fn find_member<'a>(j: &'a Json, key: &str) -> (r: Option<&'a Json>)
    ensures
        match r {
            Some(v) => json_member(*j, key@) == Some(*v),
            None => json_member(*j, key@) is None,
        },
{
    match j {
        Json::Object(ms) => {
            let wanted = String::from_str(key);
            let mut k: usize = 0;
            assert(ms@.skip(0) =~= ms@);
            while k < ms.len()
                invariant
                    k <= ms@.len(),
                    wanted@ == key@,
                    json_member(*j, key@) == obj_lookup(ms@, key@),
                    obj_lookup(ms@, key@) == obj_lookup(ms@.skip(k as int), key@),
                    forall|i: int| 0 <= i < k ==> ms@[i].0@ != key@,
                decreases ms@.len() - k,
            {
                if ms[k].0 == wanted {
                    proof {
                        assert(ms@.skip(k as int)[0] == ms@[k as int]);
                        assert(obj_lookup(ms@.skip(k as int), key@) == Some(ms@[k as int].1));
                    }
                    return Some(&ms[k].1);
                }
                proof {
                    assert(ms@.skip(k as int)[0] == ms@[k as int]);
                    assert(ms@.skip(k as int).drop_first() =~= ms@.skip(k as int + 1));
                }
                k = k + 1;
            }
            proof {
                assert(ms@.skip(k as int).len() == 0);
            }
            None
        },
        _ => None,
    }
}

// ---------------------------------------------------------------------------
// Typed field extraction: for each field kind an "ok" spec saying when the
// member has an acceptable shape, an "m" spec relating the member to the
// decoded value, and a proved extractor.
// ---------------------------------------------------------------------------
pub open spec fn ok_opt_i64(j: Json, key: Seq<char>) -> bool {
    match json_member(j, key) {
        None => true,
        Some(Json::Null) => true,
        Some(Json::Int(_)) => true,
        Some(_) => false,
    }
}

pub open spec fn m_opt_i64(j: Json, key: Seq<char>, v: Option<i64>) -> bool {
    match json_member(j, key) {
        None => v is None,
        Some(Json::Null) => v is None,
        Some(Json::Int(n)) => v == Some(n),
        Some(_) => true,
    }
}

pub fn get_opt_i64(j: &Json, key: &str) -> (r: Result<Option<i64>, DecodeError>)
    ensures
        r matches Ok(v) ==> ok_opt_i64(*j, key@) && m_opt_i64(*j, key@, v),
        r is Err <==> !ok_opt_i64(*j, key@),
{
    match find_member(j, key) {
        None => Ok(None),
        Some(Json::Null) => Ok(None),
        Some(Json::Int(n)) => Ok(Some(*n)),
        Some(_) => Err(DecodeError),
    }
}

pub open spec fn i32_range(n: i64) -> bool {
    -0x8000_0000 <= n <= 0x7fff_ffff
}

pub open spec fn ok_opt_i32(j: Json, key: Seq<char>) -> bool {
    match json_member(j, key) {
        None => true,
        Some(Json::Null) => true,
        Some(Json::Int(n)) => i32_range(n),
        Some(_) => false,
    }
}

pub open spec fn m_opt_i32(j: Json, key: Seq<char>, v: Option<i32>) -> bool {
    match json_member(j, key) {
        None => v is None,
        Some(Json::Null) => v is None,
        Some(Json::Int(n)) => v == Some(n as i32),
        Some(_) => true,
    }
}

pub fn get_opt_i32(j: &Json, key: &str) -> (r: Result<Option<i32>, DecodeError>)
    ensures
        r matches Ok(v) ==> ok_opt_i32(*j, key@) && m_opt_i32(*j, key@, v),
        r is Err <==> !ok_opt_i32(*j, key@),
{
    match find_member(j, key) {
        None => Ok(None),
        Some(Json::Null) => Ok(None),
        Some(Json::Int(n)) => {
            if *n >= -0x8000_0000i64 && *n <= 0x7fff_ffffi64 {
                Ok(Some(*n as i32))
            } else {
                Err(DecodeError)
            }
        },
        Some(_) => Err(DecodeError),
    }
}

pub open spec fn ok_opt_bool(j: Json, key: Seq<char>) -> bool {
    match json_member(j, key) {
        None => true,
        Some(Json::Null) => true,
        Some(Json::Bool(_)) => true,
        Some(_) => false,
    }
}

pub open spec fn m_opt_bool(j: Json, key: Seq<char>, v: Option<bool>) -> bool {
    match json_member(j, key) {
        None => v is None,
        Some(Json::Null) => v is None,
        Some(Json::Bool(b)) => v == Some(b),
        Some(_) => true,
    }
}

pub fn get_opt_bool(j: &Json, key: &str) -> (r: Result<Option<bool>, DecodeError>)
    ensures
        r matches Ok(v) ==> ok_opt_bool(*j, key@) && m_opt_bool(*j, key@, v),
        r is Err <==> !ok_opt_bool(*j, key@),
{
    match find_member(j, key) {
        None => Ok(None),
        Some(Json::Null) => Ok(None),
        Some(Json::Bool(b)) => Ok(Some(*b)),
        Some(_) => Err(DecodeError),
    }
}

pub open spec fn ok_opt_text(j: Json, key: Seq<char>) -> bool {
    match json_member(j, key) {
        None => true,
        Some(Json::Null) => true,
        Some(Json::Text(_)) => true,
        Some(_) => false,
    }
}

pub open spec fn m_opt_text(j: Json, key: Seq<char>, v: Option<String>) -> bool {
    match json_member(j, key) {
        None => v is None,
        Some(Json::Null) => v is None,
        Some(Json::Text(s)) => v matches Some(t) && t@ == s@,
        Some(_) => true,
    }
}

pub fn get_opt_text(j: &Json, key: &str) -> (r: Result<Option<String>, DecodeError>)
    ensures
        r matches Ok(v) ==> ok_opt_text(*j, key@) && m_opt_text(*j, key@, v),
        r is Err <==> !ok_opt_text(*j, key@),
{
    match find_member(j, key) {
        None => Ok(None),
        Some(Json::Null) => Ok(None),
        Some(Json::Text(s)) => Ok(Some(s.clone())),
        Some(_) => Err(DecodeError),
    }
}

pub open spec fn ok_opt_num(j: Json, key: Seq<char>) -> bool {
    match json_member(j, key) {
        None => true,
        Some(Json::Null) => true,
        Some(Json::Int(_)) => true,
        Some(Json::Num(_)) => true,
        Some(_) => false,
    }
}

pub open spec fn m_opt_num(j: Json, key: Seq<char>, v: Option<WireNum>) -> bool {
    match json_member(j, key) {
        None => v is None,
        Some(Json::Null) => v is None,
        Some(Json::Int(n)) => v == Some(WireNum::Whole(n)),
        Some(Json::Num(s)) => v matches Some(w) && w matches WireNum::Decimal(t) && t@ == s@,
        Some(_) => true,
    }
}

pub fn get_opt_num(j: &Json, key: &str) -> (r: Result<Option<WireNum>, DecodeError>)
    ensures
        r matches Ok(v) ==> ok_opt_num(*j, key@) && m_opt_num(*j, key@, v),
        r is Err <==> !ok_opt_num(*j, key@),
{
    match find_member(j, key) {
        None => Ok(None),
        Some(Json::Null) => Ok(None),
        Some(Json::Int(n)) => Ok(Some(WireNum::Whole(*n))),
        Some(Json::Num(s)) => Ok(Some(WireNum::Decimal(s.clone()))),
        Some(_) => Err(DecodeError),
    }
}

pub open spec fn ok_req_i64(j: Json, key: Seq<char>) -> bool {
    json_member(j, key) matches Some(Json::Int(_))
}

pub open spec fn m_req_i64(j: Json, key: Seq<char>, v: i64) -> bool {
    match json_member(j, key) {
        Some(Json::Int(n)) => v == n,
        _ => true,
    }
}

pub fn get_req_i64(j: &Json, key: &str) -> (r: Result<i64, DecodeError>)
    ensures
        r matches Ok(v) ==> ok_req_i64(*j, key@) && m_req_i64(*j, key@, v),
        r is Err <==> !ok_req_i64(*j, key@),
{
    match find_member(j, key) {
        Some(Json::Int(n)) => Ok(*n),
        _ => Err(DecodeError),
    }
}

pub open spec fn ok_req_i32(j: Json, key: Seq<char>) -> bool {
    json_member(j, key) matches Some(Json::Int(n)) && i32_range(n)
}

pub open spec fn m_req_i32(j: Json, key: Seq<char>, v: i32) -> bool {
    match json_member(j, key) {
        Some(Json::Int(n)) => v == n as i32,
        _ => true,
    }
}

pub fn get_req_i32(j: &Json, key: &str) -> (r: Result<i32, DecodeError>)
    ensures
        r matches Ok(v) ==> ok_req_i32(*j, key@) && m_req_i32(*j, key@, v),
        r is Err <==> !ok_req_i32(*j, key@),
{
    match find_member(j, key) {
        Some(Json::Int(n)) => {
            if *n >= -0x8000_0000i64 && *n <= 0x7fff_ffffi64 {
                Ok(*n as i32)
            } else {
                Err(DecodeError)
            }
        },
        _ => Err(DecodeError),
    }
}

pub open spec fn i8_range(n: i64) -> bool {
    -128 <= n <= 127
}

pub open spec fn ok_req_i8(j: Json, key: Seq<char>) -> bool {
    json_member(j, key) matches Some(Json::Int(n)) && i8_range(n)
}

pub open spec fn m_req_i8(j: Json, key: Seq<char>, v: i8) -> bool {
    match json_member(j, key) {
        Some(Json::Int(n)) => v == n as i8,
        _ => true,
    }
}

pub fn get_req_i8(j: &Json, key: &str) -> (r: Result<i8, DecodeError>)
    ensures
        r matches Ok(v) ==> ok_req_i8(*j, key@) && m_req_i8(*j, key@, v),
        r is Err <==> !ok_req_i8(*j, key@),
{
    match find_member(j, key) {
        Some(Json::Int(n)) => {
            if *n >= -128i64 && *n <= 127i64 {
                Ok(*n as i8)
            } else {
                Err(DecodeError)
            }
        },
        _ => Err(DecodeError),
    }
}

pub open spec fn ok_req_bool(j: Json, key: Seq<char>) -> bool {
    json_member(j, key) matches Some(Json::Bool(_))
}

pub open spec fn m_req_bool(j: Json, key: Seq<char>, v: bool) -> bool {
    match json_member(j, key) {
        Some(Json::Bool(b)) => v == b,
        _ => true,
    }
}

pub fn get_req_bool(j: &Json, key: &str) -> (r: Result<bool, DecodeError>)
    ensures
        r matches Ok(v) ==> ok_req_bool(*j, key@) && m_req_bool(*j, key@, v),
        r is Err <==> !ok_req_bool(*j, key@),
{
    match find_member(j, key) {
        Some(Json::Bool(b)) => Ok(*b),
        _ => Err(DecodeError),
    }
}

pub open spec fn ok_req_text(j: Json, key: Seq<char>) -> bool {
    json_member(j, key) matches Some(Json::Text(_))
}

pub open spec fn m_req_text(j: Json, key: Seq<char>, v: String) -> bool {
    match json_member(j, key) {
        Some(Json::Text(s)) => v@ == s@,
        _ => true,
    }
}

pub fn get_req_text(j: &Json, key: &str) -> (r: Result<String, DecodeError>)
    ensures
        r matches Ok(v) ==> ok_req_text(*j, key@) && m_req_text(*j, key@, v),
        r is Err <==> !ok_req_text(*j, key@),
{
    match find_member(j, key) {
        Some(Json::Text(s)) => Ok(s.clone()),
        _ => Err(DecodeError),
    }
}

// ---------------------------------------------------------------------------
// Optional lists of scalars
// ---------------------------------------------------------------------------
pub open spec fn ok_opt_i8_list(j: Json, key: Seq<char>) -> bool {
    match json_member(j, key) {
        None => true,
        Some(Json::Null) => true,
        Some(Json::List(items)) => forall|i: int|
            0 <= i < items@.len() ==> ((#[trigger] items@[i]) matches Json::Int(n) && i8_range(n)),
        Some(_) => false,
    }
}

pub open spec fn m_opt_i8_list(j: Json, key: Seq<char>, v: Option<Vec<i8>>) -> bool {
    match json_member(j, key) {
        None => v is None,
        Some(Json::Null) => v is None,
        Some(Json::List(items)) => v matches Some(vs) && vs@.len() == items@.len() && (forall|
            i: int,
        |
            0 <= i < items@.len() ==> ((#[trigger] items@[i]) matches Json::Int(n) && vs@[i] == n as i8)),
        Some(_) => true,
    }
}

pub fn get_opt_i8_list(j: &Json, key: &str) -> (r: Result<Option<Vec<i8>>, DecodeError>)
    ensures
        r matches Ok(v) ==> ok_opt_i8_list(*j, key@) && m_opt_i8_list(*j, key@, v),
        r is Err <==> !ok_opt_i8_list(*j, key@),
{
    match find_member(j, key) {
        None => Ok(None),
        Some(Json::Null) => Ok(None),
        Some(Json::List(items)) => {
            let mut out: Vec<i8> = Vec::new();
            let mut k: usize = 0;
            while k < items.len()
                invariant
                    k <= items@.len(),
                    out@.len() == k,
                    json_member(*j, key@) == Some(Json::List(*items)),
                    forall|i: int|
                        0 <= i < k ==> ((#[trigger] items@[i]) matches Json::Int(n) && i8_range(n)
                            && out@[i] == n as i8),
                decreases items@.len() - k,
            {
                match &items[k] {
                    Json::Int(n) => {
                        if *n >= -128i64 && *n <= 127i64 {
                            out.push(*n as i8);
                        } else {
                            assert(!(items@[k as int] matches Json::Int(m) && i8_range(m)));
                            return Err(DecodeError);
                        }
                    },
                    _ => {
                        assert(!(items@[k as int] matches Json::Int(m) && i8_range(m)));
                        return Err(DecodeError);
                    },
                }
                k = k + 1;
            }
            Ok(Some(out))
        },
        Some(_) => Err(DecodeError),
    }
}

pub open spec fn ok_opt_text_list(j: Json, key: Seq<char>) -> bool {
    match json_member(j, key) {
        None => true,
        Some(Json::Null) => true,
        Some(Json::List(items)) => forall|i: int|
            0 <= i < items@.len() ==> (#[trigger] items@[i]) is Text,
        Some(_) => false,
    }
}

pub open spec fn m_opt_text_list(j: Json, key: Seq<char>, v: Option<Vec<String>>) -> bool {
    match json_member(j, key) {
        None => v is None,
        Some(Json::Null) => v is None,
        Some(Json::List(items)) => v matches Some(vs) && vs@.len() == items@.len() && (forall|
            i: int,
        |
            0 <= i < items@.len() ==> ((#[trigger] items@[i]) matches Json::Text(s) && vs@[i]@ == s@)),
        Some(_) => true,
    }
}

pub fn get_opt_text_list(j: &Json, key: &str) -> (r: Result<Option<Vec<String>>, DecodeError>)
    ensures
        r matches Ok(v) ==> ok_opt_text_list(*j, key@) && m_opt_text_list(*j, key@, v),
        r is Err <==> !ok_opt_text_list(*j, key@),
{
    match find_member(j, key) {
        None => Ok(None),
        Some(Json::Null) => Ok(None),
        Some(Json::List(items)) => {
            let mut out: Vec<String> = Vec::new();
            let mut k: usize = 0;
            while k < items.len()
                invariant
                    k <= items@.len(),
                    out@.len() == k,
                    json_member(*j, key@) == Some(Json::List(*items)),
                    forall|i: int|
                        0 <= i < k ==> ((#[trigger] items@[i]) matches Json::Text(s) && out@[i]@
                            == s@),
                decreases items@.len() - k,
            {
                match &items[k] {
                    Json::Text(s) => out.push(s.clone()),
                    _ => {
                        assert(!(items@[k as int] is Text));
                        return Err(DecodeError);
                    },
                }
                k = k + 1;
            }
            Ok(Some(out))
        },
        Some(_) => Err(DecodeError),
    }
}

// ---------------------------------------------------------------------------
// The reply-text grammar: what it means for a span of text to render a
// JSON value. The parser below is proved sound against these relations:
// whatever tree it returns, the input text renders that tree.
// ---------------------------------------------------------------------------
/// Whitespace the wire format allows between tokens.
pub open spec fn is_ws_char(c: char) -> bool {
    c == ' ' || c == '\t' || c == '\n' || c == '\r'
}

/// Every character of `t` is whitespace.
pub open spec fn all_ws(t: Seq<char>) -> bool {
    forall|i: int| 0 <= i < t.len() ==> is_ws_char(#[trigger] t[i])
}

/// The first position at or after `i` holding a non-whitespace character,
/// or the end of `s`.
pub open spec fn ws_end(s: Seq<char>, i: int) -> int
    decreases s.len() - i when 0 <= i <= s.len()
{
    if i < s.len() && is_ws_char(s[i]) {
        ws_end(s, i + 1)
    } else {
        i
    }
}

pub proof fn lemma_ws_end(s: Seq<char>, i: int)
    requires
        0 <= i <= s.len(),
    ensures
        i <= ws_end(s, i) <= s.len(),
        all_ws(s.subrange(i, ws_end(s, i))),
    decreases s.len() - i,
{
    if i < s.len() && is_ws_char(s[i]) {
        lemma_ws_end(s, i + 1);
        assert forall|q: int| 0 <= q < ws_end(s, i) - i implies is_ws_char(
            s.subrange(i, ws_end(s, i))[q],
        ) by {
            if q == 0 {
            } else {
                assert(s.subrange(i + 1, ws_end(s, i + 1))[q - 1] == s.subrange(
                    i,
                    ws_end(s, i),
                )[q]);
            }
        }
    } else {
        assert(s.subrange(i, i) =~= Seq::<char>::empty());
    }
}

/// A decimal digit.
pub open spec fn is_digit_char(c: char) -> bool {
    48 <= c as u32 <= 57
}

/// Every character of `t` is a decimal digit.
pub open spec fn all_digits(t: Seq<char>) -> bool {
    forall|i: int| 0 <= i < t.len() ==> is_digit_char(#[trigger] t[i])
}

/// The value of a run of decimal digits.
pub open spec fn digits_val(t: Seq<char>) -> int
    decreases t.len(),
{
    if t.len() == 0 {
        0
    } else {
        digits_val(t.take(t.len() - 1)) * 10 + (t.last() as u32 - 48)
    }
}

/// An integer token: an optional minus sign and at least one digit.
pub open spec fn int_token(t: Seq<char>) -> bool {
    if t.len() >= 1 && t[0] == '-' {
        t.len() >= 2 && all_digits(t.skip(1))
    } else {
        t.len() >= 1 && all_digits(t)
    }
}

/// The value of an integer token.
pub open spec fn int_token_val(t: Seq<char>) -> int {
    if t.len() >= 1 && t[0] == '-' {
        -digits_val(t.skip(1))
    } else {
        digits_val(t)
    }
}

/// A fraction part: empty, or a dot followed by at least one digit.
pub open spec fn frac_part(u: Seq<char>) -> bool {
    u.len() == 0 || (u.len() >= 2 && u[0] == '.' && all_digits(u.skip(1)))
}

/// An exponent part: empty, or an exponent mark, an optional sign, and at
/// least one digit.
pub open spec fn exp_part(u: Seq<char>) -> bool {
    u.len() == 0 || ((u[0] == 'e' || u[0] == 'E') && u.len() >= 2 && (if u[1] == '+' || u[1]
        == '-' {
        u.len() >= 3 && all_digits(u.skip(2))
    } else {
        all_digits(u.skip(1))
    }))
}

/// A number token: integer part, then optional fraction and exponent.
pub open spec fn number_token(t: Seq<char>) -> bool {
    exists|a: int, b: int|
        0 <= a <= b <= t.len() && int_token(t.take(a)) && frac_part(t.subrange(a, b)) && exp_part(
            t.skip(b),
        )
}

/// A hexadecimal digit.
pub open spec fn is_hex_char(c: char) -> bool {
    48 <= c as u32 <= 57 || 97 <= c as u32 <= 102 || 65 <= c as u32 <= 70
}

/// The value of one hexadecimal digit.
pub open spec fn hex_char_val(c: char) -> int {
    if 48 <= c as u32 <= 57 {
        c as u32 - 48
    } else if 97 <= c as u32 <= 102 {
        c as u32 - 87
    } else {
        c as u32 - 55
    }
}

/// Four hexadecimal digits stand at `p` in `t`.
pub open spec fn is_hex4(t: Seq<char>, p: int) -> bool {
    0 <= p && p + 4 <= t.len() && is_hex_char(t[p]) && is_hex_char(t[p + 1]) && is_hex_char(
        t[p + 2],
    ) && is_hex_char(t[p + 3])
}

/// The value of the four hexadecimal digits at `p` in `t`.
pub open spec fn hex4(t: Seq<char>, p: int) -> int {
    ((hex_char_val(t[p]) * 16 + hex_char_val(t[p + 1])) * 16 + hex_char_val(t[p + 2])) * 16
        + hex_char_val(t[p + 3])
}

/// One unit of a quoted string's body rendering one character: the
/// character itself, a two-character short escape, a `\uXXXX` escape, or a
/// surrogate pair of two such escapes.
pub open spec fn escape_unit(u: Seq<char>, ch: char) -> bool {
    ||| (u.len() == 1 && u[0] == ch && ch != '"' && ch != '\\')
    ||| (u.len() == 2 && u[0] == '\\' && ((u[1] == '"' && ch == '"') || (u[1] == '\\' && ch
        == '\\') || (u[1] == '/' && ch == '/') || (u[1] == 'b' && ch == '\u{8}') || (u[1] == 'f'
        && ch == '\u{c}') || (u[1] == 'n' && ch == '\n') || (u[1] == 'r' && ch == '\r') || (u[1]
        == 't' && ch == '\t')))
    ||| (u.len() == 6 && u[0] == '\\' && u[1] == 'u' && is_hex4(u, 2) && !(0xd800 <= hex4(u, 2)
        < 0xe000) && ch as u32 as int == hex4(u, 2))
    ||| (u.len() == 12 && u[0] == '\\' && u[1] == 'u' && u[6] == '\\' && u[7] == 'u' && is_hex4(
        u,
        2,
    ) && is_hex4(u, 8) && 0xd800 <= hex4(u, 2) < 0xdc00 && 0xdc00 <= hex4(u, 8) < 0xe000 && (
    ch as u32 as int) == 0x10000 + (hex4(u, 2) - 0xd800) * 0x400 + (hex4(u, 8) - 0xdc00))
}

/// The body of a quoted string renders the character sequence `c`: it
/// splits into one escape unit per character, in order.
pub open spec fn unescapes_to(t: Seq<char>, c: Seq<char>) -> bool
    decreases c.len(),
{
    if c.len() == 0 {
        t.len() == 0
    } else {
        exists|m: int|
            0 <= m <= t.len() && unescapes_to(t.take(m), c.drop_last()) && escape_unit(
                t.skip(m),
                c.last(),
            )
    }
}

/// A span of text renders a JSON value: the exact text of a literal, a
/// well-formed number or string token, or a bracketed list of rendered
/// elements or members.
pub open spec fn renders(t: Seq<char>, v: Json) -> bool
    decreases v,
{
    match v {
        Json::Null => t == "null"@,
        Json::Bool(b) => if b {
            t == "true"@
        } else {
            t == "false"@
        },
        Json::Int(n) => int_token(t) && int_token_val(t) == n as int,
        Json::Num(s) => number_token(t) && t == s@,
        Json::Text(s) => t.len() >= 2 && t[0] == '"' && t.last() == '"' && unescapes_to(
            t.subrange(1, t.len() - 1),
            s@,
        ),
        Json::List(items) => t.len() >= 2 && t[0] == '[' && t.last() == ']' && renders_items(
            t.subrange(1, t.len() - 1),
            items@,
        ),
        Json::Object(ms) => t.len() >= 2 && t[0] == '{' && t.last() == '}' && renders_members(
            t.subrange(1, t.len() - 1),
            ms@,
        ),
    }
}

/// The inside of a bracketed list renders the elements in order, separated
/// by single commas, each element padded by whitespace.
pub open spec fn renders_items(u: Seq<char>, items: Seq<Json>) -> bool
    decreases items,
{
    if items.len() == 0 {
        all_ws(u)
    } else if items.len() == 1 {
        exists|a: int, b: int|
            #![trigger u.subrange(a, b)]
            0 <= a <= b <= u.len() && all_ws(u.take(a)) && renders(u.subrange(a, b), items[0])
                && all_ws(u.skip(b))
    } else {
        exists|m: int|
            #![trigger u.take(m)]
            0 <= m < u.len() && u[m] == ',' && renders_items(u.take(m), items.drop_last())
                && renders_items(
                u.skip(m + 1),
                items.subrange(items.len() - 1, items.len() as int),
            )
    }
}

/// The inside of a braced object renders the members in order, separated
/// by single commas: each member is a quoted key, a colon, and a rendered
/// value, padded by whitespace.
pub open spec fn renders_members(u: Seq<char>, ms: Seq<(String, Json)>) -> bool
    decreases ms,
{
    if ms.len() == 0 {
        all_ws(u)
    } else if ms.len() == 1 {
        exists|a: int, b: int, c: int, d: int, e: int|
            #![trigger u.take(a), u.subrange(b, c), u.subrange(d, e)]
            0 <= a < b <= c < u.len() && c < d <= e <= u.len() && all_ws(u.take(a)) && b - a >= 2
                && u[a] == '"' && u[b - 1] == '"' && unescapes_to(u.subrange(a + 1, b - 1), ms[0].0@)
                && all_ws(u.subrange(b, c)) && u[c] == ':' && all_ws(u.subrange(c + 1, d))
                && renders(u.subrange(d, e), ms[0].1) && all_ws(u.skip(e))
    } else {
        exists|m: int|
            #![trigger u.take(m)]
            0 <= m < u.len() && u[m] == ',' && renders_members(u.take(m), ms.drop_last())
                && renders_members(u.skip(m + 1), ms.subrange(ms.len() - 1, ms.len() as int))
    }
}

// ---------------------------------------------------------------------------
// Parsing reply text
// ---------------------------------------------------------------------------
/// Relies on char::from_u32: Some exactly for valid scalar values (not a
/// surrogate, at most 0x10FFFF), and the character converts back by `as`.
#[verifier::external_body]
fn char_from_u32(n: u32) -> (r: Option<char>)
    ensures
        r matches Some(c) ==> c as u32 == n,
        r is None <==> (0xD800 <= n < 0xE000 || n > 0x10FFFF),
{
    char::from_u32(n)
}

fn chars_of(s: &str) -> (v: Vec<char>)
    ensures
        v@ == s@,
{
    let n = s.unicode_len();
    let mut v: Vec<char> = Vec::new();
    let mut i: usize = 0;
    while i < n
        invariant
            i <= n,
            n == s@.len(),
            v@ == s@.take(i as int),
        decreases n - i,
    {
        v.push(s.get_char(i));
        assert(v@ =~= s@.take(i as int + 1));
        i = i + 1;
    }
    assert(s@.take(n as int) =~= s@);
    v
}

fn skip_ws(s: &Vec<char>, i: usize) -> (k: usize)
    requires
        i <= s@.len(),
    ensures
        i <= k <= s@.len(),
        all_ws(s@.subrange(i as int, k as int)),
        k < s@.len() ==> !is_ws_char(s@[k as int]),
        k as int == ws_end(s@, i as int),
{
    let n = s.len();
    let mut k = i;
    assert(all_ws(s@.subrange(i as int, i as int)));
    loop
        invariant
            i <= k <= n,
            n == s@.len(),
            all_ws(s@.subrange(i as int, k as int)),
            ws_end(s@, i as int) == ws_end(s@, k as int),
        decreases n - k,
    {
        if k >= n {
            return k;
        }
        let c = s[k];
        if c == ' ' || c == '\t' || c == '\n' || c == '\r' {
            proof {
                assert(s@.subrange(i as int, k as int + 1) =~= s@.subrange(i as int, k as int)
                    + seq![s@[k as int]]);
                assert(all_ws(s@.subrange(i as int, k as int + 1)));
            }
            k = k + 1;
        } else {
            return k;
        }
    }
}

fn hex_val(c: char) -> (r: Option<u32>)
    ensures
        r matches Some(v) ==> v < 16 && is_hex_char(c) && v as int == hex_char_val(c),
{
    let u = c as u32;
    if u >= 48 && u <= 57 {
        Some(u - 48)
    } else if u >= 97 && u <= 102 {
        Some(u - 87)
    } else if u >= 65 && u <= 70 {
        Some(u - 55)
    } else {
        None
    }
}

fn parse_hex4(s: &Vec<char>, start: usize) -> (r: Option<u32>)
    requires
        start <= s@.len(),
    ensures
        r is Some ==> start + 4 <= s@.len(),
        r matches Some(v) ==> v < 0x10000 && is_hex4(s@, start as int) && v as int == hex4(
            s@,
            start as int,
        ),
{
    if s.len() < 4 || start > s.len() - 4 {
        return None;
    }
    let d0 = match hex_val(s[start]) {
        Some(d) => d,
        None => {
            return None;
        },
    };
    let d1 = match hex_val(s[start + 1]) {
        Some(d) => d,
        None => {
            return None;
        },
    };
    let d2 = match hex_val(s[start + 2]) {
        Some(d) => d,
        None => {
            return None;
        },
    };
    let d3 = match hex_val(s[start + 3]) {
        Some(d) => d,
        None => {
            return None;
        },
    };
    Some(((d0 * 16 + d1) * 16 + d2) * 16 + d3)
}

proof fn lemma_all_ws_join(s: Seq<char>, a: int, b: int, c: int)
    requires
        0 <= a <= b <= c <= s.len(),
        all_ws(s.subrange(a, b)),
        all_ws(s.subrange(b, c)),
    ensures
        all_ws(s.subrange(a, c)),
{
    assert forall|q: int| 0 <= q < c - a implies is_ws_char(s.subrange(a, c)[q]) by {
        if q < b - a {
            assert(s.subrange(a, b)[q] == s.subrange(a, c)[q]);
        } else {
            assert(s.subrange(b, c)[q - (b - a)] == s.subrange(a, c)[q]);
        }
    }
}

proof fn lemma_unescape_extend(t: Seq<char>, c: Seq<char>, u: Seq<char>, ch: char)
    requires
        unescapes_to(t, c),
        escape_unit(u, ch),
    ensures
        unescapes_to(t + u, c.push(ch)),
{
    assert((t + u).take(t.len() as int) =~= t);
    assert((t + u).skip(t.len() as int) =~= u);
    assert(c.push(ch).drop_last() =~= c);
    assert(c.push(ch).last() == ch);
    assert(unescapes_to(t + u, c.push(ch)));
}

proof fn lemma_string_step(s: Seq<char>, start: int, i: int, len: int, prev: Seq<char>, ch: char)
    requires
        0 <= len,
        0 <= start,
        start + 1 <= i,
        i + len <= s.len(),
        unescapes_to(s.subrange(start + 1, i), prev),
        escape_unit(s.subrange(i, i + len), ch),
    ensures
        unescapes_to(s.subrange(start + 1, i + len), prev.push(ch)),
{
    lemma_unescape_extend(s.subrange(start + 1, i), prev, s.subrange(i, i + len), ch);
    assert(s.subrange(start + 1, i) + s.subrange(i, i + len) =~= s.subrange(start + 1, i + len));
}

#[verifier::rlimit(100)]
fn parse_string_at(s: &Vec<char>, start: usize) -> (r: Option<(String, usize)>)
    requires
        start < s@.len(),
    ensures
        r matches Some(p) ==> start + 2 <= p.1 <= s@.len() && s@[p.1 - 1] == '"' && unescapes_to(
            s@.subrange(start as int + 1, p.1 - 1),
            p.0@,
        ),
{
    let n = s.len();
    let mut out = String::new();
    let mut i = start + 1;
    assert(unescapes_to(s@.subrange(start as int + 1, start as int + 1), out@));
    loop
        invariant
            start < i <= n,
            n == s@.len(),
            unescapes_to(s@.subrange(start as int + 1, i as int), out@),
        decreases n - i,
    {
        if i >= n {
            return None;
        }
        let c = s[i];
        if c == '"' {
            return Some((out, i + 1));
        }
        if c == '\\' {
            if i + 1 >= n {
                return None;
            }
            let e = s[i + 1];
            if e == '"' {
                let ghost prev = out@;
                push_char(&mut out, '"');
                proof {
                    let u = s@.subrange(i as int, i as int + 2);
                    assert(u =~= seq![s@[i as int], s@[i as int + 1]]);
                    assert(escape_unit(u, '"'));
                    lemma_string_step(s@, start as int, i as int, 2, prev, '"');
                    assert(out@ =~= prev.push('"'));
                }
                i = i + 2;
            } else if e == '\\' {
                let ghost prev = out@;
                push_char(&mut out, '\\');
                proof {
                    let u = s@.subrange(i as int, i as int + 2);
                    assert(u =~= seq![s@[i as int], s@[i as int + 1]]);
                    assert(escape_unit(u, '\\'));
                    lemma_string_step(s@, start as int, i as int, 2, prev, '\\');
                    assert(out@ =~= prev.push('\\'));
                }
                i = i + 2;
            } else if e == '/' {
                let ghost prev = out@;
                push_char(&mut out, '/');
                proof {
                    let u = s@.subrange(i as int, i as int + 2);
                    assert(u =~= seq![s@[i as int], s@[i as int + 1]]);
                    assert(escape_unit(u, '/'));
                    lemma_string_step(s@, start as int, i as int, 2, prev, '/');
                    assert(out@ =~= prev.push('/'));
                }
                i = i + 2;
            } else if e == 'b' {
                let ghost prev = out@;
                push_char(&mut out, '\u{8}');
                proof {
                    let u = s@.subrange(i as int, i as int + 2);
                    assert(u =~= seq![s@[i as int], s@[i as int + 1]]);
                    assert(escape_unit(u, '\u{8}'));
                    lemma_string_step(s@, start as int, i as int, 2, prev, '\u{8}');
                    assert(out@ =~= prev.push('\u{8}'));
                }
                i = i + 2;
            } else if e == 'f' {
                let ghost prev = out@;
                push_char(&mut out, '\u{c}');
                proof {
                    let u = s@.subrange(i as int, i as int + 2);
                    assert(u =~= seq![s@[i as int], s@[i as int + 1]]);
                    assert(escape_unit(u, '\u{c}'));
                    lemma_string_step(s@, start as int, i as int, 2, prev, '\u{c}');
                    assert(out@ =~= prev.push('\u{c}'));
                }
                i = i + 2;
            } else if e == 'n' {
                let ghost prev = out@;
                push_char(&mut out, '\n');
                proof {
                    let u = s@.subrange(i as int, i as int + 2);
                    assert(u =~= seq![s@[i as int], s@[i as int + 1]]);
                    assert(escape_unit(u, '\n'));
                    lemma_string_step(s@, start as int, i as int, 2, prev, '\n');
                    assert(out@ =~= prev.push('\n'));
                }
                i = i + 2;
            } else if e == 'r' {
                let ghost prev = out@;
                push_char(&mut out, '\r');
                proof {
                    let u = s@.subrange(i as int, i as int + 2);
                    assert(u =~= seq![s@[i as int], s@[i as int + 1]]);
                    assert(escape_unit(u, '\r'));
                    lemma_string_step(s@, start as int, i as int, 2, prev, '\r');
                    assert(out@ =~= prev.push('\r'));
                }
                i = i + 2;
            } else if e == 't' {
                let ghost prev = out@;
                push_char(&mut out, '\t');
                proof {
                    let u = s@.subrange(i as int, i as int + 2);
                    assert(u =~= seq![s@[i as int], s@[i as int + 1]]);
                    assert(escape_unit(u, '\t'));
                    lemma_string_step(s@, start as int, i as int, 2, prev, '\t');
                    assert(out@ =~= prev.push('\t'));
                }
                i = i + 2;
            } else if e == 'u' {
                let hi = match parse_hex4(s, i + 2) {
                    Some(v) => v,
                    None => {
                        return None;
                    },
                };
                if hi >= 0xD800 && hi < 0xDC00 {
                    if n - i >= 12 && s[i + 6] == '\\' && s[i + 7] == 'u' {
                        let lo = match parse_hex4(s, i + 8) {
                            Some(v) => v,
                            None => {
                                return None;
                            },
                        };
                        if lo >= 0xDC00 && lo < 0xE000 {
                            let code: u32 = 0x10000 + (hi - 0xD800) * 0x400 + (lo - 0xDC00);
                            match char_from_u32(code) {
                                Some(ch) => {
                                    let ghost prev = out@;
                                    push_char(&mut out, ch);
                                    proof {
                                        let u = s@.subrange(i as int, i as int + 12);
                                        assert(forall|q: int|
                                            0 <= q < 12 ==> #[trigger] u[q] == s@[i as int + q]);
                                        assert(u.len() == 12);
                                        assert(is_hex4(u, 2) && hex4(u, 2) == hex4(
                                            s@,
                                            i as int + 2,
                                        ));
                                        assert(is_hex4(u, 8) && hex4(u, 8) == hex4(
                                            s@,
                                            i as int + 8,
                                        ));
                                        assert(escape_unit(u, ch));
                                        lemma_string_step(s@, start as int, i as int, 12, prev, ch);
                                        assert(out@ =~= prev.push(ch));
                                    }
                                    i = i + 12;
                                },
                                None => {
                                    return None;
                                },
                            }
                        } else {
                            return None;
                        }
                    } else {
                        return None;
                    }
                } else if hi >= 0xDC00 && hi < 0xE000 {
                    return None;
                } else {
                    match char_from_u32(hi) {
                        Some(ch) => {
                            let ghost prev = out@;
                            push_char(&mut out, ch);
                            proof {
                                let u = s@.subrange(i as int, i as int + 6);
                                assert(u =~= seq![
                                    s@[i as int],
                                    s@[i as int + 1],
                                    s@[i as int + 2],
                                    s@[i as int + 3],
                                    s@[i as int + 4],
                                    s@[i as int + 5],
                                ]);
                                assert(is_hex4(u, 2) && hex4(u, 2) == hex4(s@, i as int + 2));
                                assert(escape_unit(u, ch));
                                lemma_string_step(s@, start as int, i as int, 6, prev, ch);
                                assert(out@ =~= prev.push(ch));
                            }
                            i = i + 6;
                        },
                        None => {
                            return None;
                        },
                    }
                }
            } else {
                return None;
            }
        } else {
            let ghost prev = out@;
            push_char(&mut out, c);
            proof {
                let u = s@.subrange(i as int, i as int + 1);
                assert(u =~= seq![s@[i as int]]);
                assert(escape_unit(u, c));
                lemma_string_step(s@, start as int, i as int, 1, prev, c);
                assert(out@ =~= prev.push(c));
            }
            i = i + 1;
        }
    }
}

#[verifier::rlimit(100)]
fn parse_number_at(s: &Vec<char>, start: usize) -> (r: Option<(Json, usize)>)
    requires
        start < s@.len(),
    ensures
        r matches Some(p) ==> start < p.1 <= s@.len() && number_token(
            s@.subrange(start as int, p.1 as int),
        ) && (match p.0 {
            Json::Int(v) => int_token(s@.subrange(start as int, p.1 as int)) && int_token_val(
                s@.subrange(start as int, p.1 as int),
            ) == v as int,
            Json::Num(raw) => raw@ == s@.subrange(start as int, p.1 as int),
            _ => false,
        }),
{
    let n = s.len();
    let mut i = start;
    let neg = s[i] == '-';
    if neg {
        i = i + 1;
    }
    let digits_start = i;
    let mut mag: u64 = 0;
    let mut overflow = false;
    proof {
        assert(s@.subrange(digits_start as int, digits_start as int)
            =~= Seq::<char>::empty());
    }
    loop
        invariant
            digits_start <= i <= n,
            n == s@.len(),
            start < s@.len(),
            neg ==> digits_start == start + 1 && s@[start as int] == '-',
            !neg ==> digits_start == start,
            all_digits(s@.subrange(digits_start as int, i as int)),
            !overflow ==> mag as int == digits_val(s@.subrange(digits_start as int, i as int)),
        decreases n - i,
    {
        if i >= n {
            break;
        }
        let u = s[i] as u32;
        if u < 48 || u > 57 {
            break;
        }
        let d: u64 = (u - 48) as u64;
        proof {
            let t0 = s@.subrange(digits_start as int, i as int);
            let t1 = s@.subrange(digits_start as int, i as int + 1);
            assert(t1 =~= t0 + seq![s@[i as int]]);
            assert(t1.take(t1.len() - 1) =~= t0);
            assert(is_digit_char(s@[i as int]));
            assert(all_digits(t1));
            assert(digits_val(t1) == digits_val(t0) * 10 + (s@[i as int] as u32 - 48));
        }
        if mag > 0xffff_ffff_ffff_ffffu64 / 10 {
            overflow = true;
        } else {
            mag = mag * 10;
            if mag > 0xffff_ffff_ffff_ffffu64 - d {
                overflow = true;
            } else {
                mag = mag + d;
            }
        }
        i = i + 1;
    }
    if i == digits_start {
        return None;
    }
    let ghost int_end = i as int;
    proof {
        let itok = s@.subrange(start as int, int_end);
        if neg {
            assert(itok[0] == '-');
            assert(itok.skip(1) =~= s@.subrange(digits_start as int, int_end));
            assert(int_token(itok));
            assert(!overflow ==> int_token_val(itok) == -(mag as int));
        } else {
            assert(itok =~= s@.subrange(digits_start as int, int_end));
            assert(is_digit_char(itok[0]));
            assert(itok[0] != '-');
            assert(int_token(itok));
            assert(!overflow ==> int_token_val(itok) == mag as int);
        }
    }
    let mut is_int = true;
    let ghost mut frac_end = int_end;
    if i < n && s[i] == '.' {
        is_int = false;
        i = i + 1;
        let frac_start = i;
        proof {
            assert(s@.subrange(frac_start as int, frac_start as int) =~= Seq::<char>::empty());
        }
        loop
            invariant
                frac_start <= i <= n,
                n == s@.len(),
                frac_start as int == int_end + 1,
                int_end < s@.len(),
                s@[int_end] == '.',
                all_digits(s@.subrange(frac_start as int, i as int)),
            decreases n - i,
        {
            if i >= n {
                break;
            }
            let u = s[i] as u32;
            if u < 48 || u > 57 {
                break;
            }
            proof {
                assert(s@.subrange(frac_start as int, i as int + 1) =~= s@.subrange(
                    frac_start as int,
                    i as int,
                ) + seq![s@[i as int]]);
                assert(is_digit_char(s@[i as int]));
            }
            i = i + 1;
        }
        if i == frac_start {
            return None;
        }
        proof {
            frac_end = i as int;
            let f = s@.subrange(int_end, frac_end);
            assert(f[0] == '.');
            assert(f.skip(1) =~= s@.subrange(frac_start as int, frac_end));
            assert(frac_part(f));
        }
    }
    let ghost exp_begin = i as int;
    if i < n && (s[i] == 'e' || s[i] == 'E') {
        is_int = false;
        i = i + 1;
        let ghost signed = i < n && (s@[i as int] == '+' || s@[i as int] == '-');
        if i < n && (s[i] == '+' || s[i] == '-') {
            i = i + 1;
        }
        let exp_start = i;
        proof {
            assert(s@.subrange(exp_start as int, exp_start as int) =~= Seq::<char>::empty());
        }
        loop
            invariant
                exp_start <= i <= n,
                n == s@.len(),
                exp_begin < s@.len(),
                s@[exp_begin] == 'e' || s@[exp_begin] == 'E',
                signed ==> exp_start as int == exp_begin + 2 && (s@[exp_begin + 1] == '+'
                    || s@[exp_begin + 1] == '-'),
                !signed ==> exp_start as int == exp_begin + 1,
                all_digits(s@.subrange(exp_start as int, i as int)),
            decreases n - i,
        {
            if i >= n {
                break;
            }
            let u = s[i] as u32;
            if u < 48 || u > 57 {
                break;
            }
            proof {
                assert(s@.subrange(exp_start as int, i as int + 1) =~= s@.subrange(
                    exp_start as int,
                    i as int,
                ) + seq![s@[i as int]]);
                assert(is_digit_char(s@[i as int]));
            }
            i = i + 1;
        }
        if i == exp_start {
            return None;
        }
        proof {
            let x = s@.subrange(exp_begin, i as int);
            if signed {
                assert(x[1] == s@[exp_begin + 1]);
                assert(x.skip(2) =~= s@.subrange(exp_begin + 2, i as int));
                assert(exp_part(x));
            } else {
                assert(x[1] == s@[exp_begin + 1]);
                assert(s@.subrange(exp_start as int, i as int)[0] == s@[exp_start as int]);
                assert(is_digit_char(x[1]));
                assert(x[1] != '+' && x[1] != '-');
                assert(x.skip(1) =~= s@.subrange(exp_begin + 1, i as int));
                assert(exp_part(x));
            }
        }
    }
    proof {
        let tok = s@.subrange(start as int, i as int);
        let a = int_end - start;
        let b = frac_end - start;
        assert(tok.take(a) =~= s@.subrange(start as int, int_end));
        assert(tok.subrange(a, b) =~= s@.subrange(int_end, frac_end));
        assert(tok.skip(b) =~= s@.subrange(frac_end, i as int));
        assert(frac_end == exp_begin);
        if frac_end == i as int {
            assert(tok.skip(b) =~= Seq::<char>::empty());
            assert(exp_part(tok.skip(b)));
        }
        if int_end == frac_end {
            assert(tok.subrange(a, b) =~= Seq::<char>::empty());
            assert(frac_part(tok.subrange(a, b)));
        }
        assert(number_token(tok));
    }
    if is_int && !overflow {
        proof {
            assert(i as int == int_end);
            assert(s@.subrange(start as int, i as int) == s@.subrange(start as int, int_end));
        }
        if !neg && mag <= 0x7fff_ffff_ffff_ffffu64 {
            return Some((Json::Int(mag as i64), i));
        }
        if neg && mag <= 0x7fff_ffff_ffff_ffffu64 {
            return Some((Json::Int(-(mag as i64)), i));
        }
        if neg && mag == 0x8000_0000_0000_0000u64 {
            return Some((Json::Int(i64::MIN), i));
        }
    }
    let mut raw = String::new();
    let mut t = start;
    proof {
        assert(s@.subrange(start as int, start as int) =~= Seq::<char>::empty());
    }
    while t < i
        invariant
            start <= t <= i <= n,
            n == s@.len(),
            raw@ == s@.subrange(start as int, t as int),
        decreases i - t,
    {
        push_char(&mut raw, s[t]);
        proof {
            assert(s@.subrange(start as int, t as int + 1) =~= s@.subrange(
                start as int,
                t as int,
            ) + seq![s@[t as int]]);
        }
        t = t + 1;
    }
    Some((Json::Num(raw), i))
}

#[verifier::rlimit(100)]
fn parse_list_at(s: &Vec<char>, j: usize) -> (r: Option<(Json, usize)>)
    requires
        j < s@.len(),
        s@[j as int] == '[',
    ensures
        r matches Some(p) ==> j < p.1 <= s@.len() && renders(s@.subrange(j as int, p.1 as int), p.0),
    decreases s@.len() - j, 0nat,
{
    let n = s.len();
    let mut items: Vec<Json> = Vec::new();
    let k0 = skip_ws(s, j + 1);
    if k0 < n && s[k0] == ']' {
        let end = k0 + 1;
        proof {
            let tt = s@.subrange(j as int, end as int);
            assert(tt[0] == '[' && tt.last() == ']');
            assert(tt.subrange(1, tt.len() - 1) =~= s@.subrange(j as int + 1, k0 as int));
            assert(items@ =~= Seq::<Json>::empty());
            assert(renders_items(tt.subrange(1, tt.len() - 1), items@));
            assert(renders(tt, Json::List(items)));
        }
        return Some((Json::List(items), end));
    }
    let mut k = k0;
    let ghost mut done_end: int = 0;
    loop
        invariant
            j < n == s@.len(),
            s@[j as int] == '[',
            j + 1 <= k as int <= n,
            items@.len() == 0 ==> k == k0 && all_ws(s@.subrange(j as int + 1, k as int)),
            items@.len() > 0 ==> j + 1 <= done_end && done_end == k - 1 && s@[done_end] == ','
                && renders_items(s@.subrange(j as int + 1, done_end), items@),
        decreases n - k,
    {
        match parse_at(s, k) {
            None => {
                return None;
            },
            Some((v, k2)) => {
                let k3 = skip_ws(s, k2);
                proof {
                    let mv = ws_end(s@, k as int);
                    lemma_ws_end(s@, k as int);
                    let u2 = s@.subrange(k as int, k3 as int);
                    let a = mv - k;
                    let b = k2 as int - k;
                    assert(u2.take(a) =~= s@.subrange(k as int, mv));
                    assert(u2.subrange(a, b) =~= s@.subrange(mv, k2 as int));
                    assert(u2.skip(b) =~= s@.subrange(k2 as int, k3 as int));
                    if items@.len() == 0 {
                        let u = s@.subrange(j as int + 1, k3 as int);
                        lemma_all_ws_join(s@, j as int + 1, k as int, mv);
                        assert(u.take(mv - (j + 1)) =~= s@.subrange(j as int + 1, mv));
                        assert(u.subrange(mv - (j + 1), k2 - (j + 1)) =~= s@.subrange(
                            mv,
                            k2 as int,
                        ));
                        assert(u.skip(k2 - (j + 1)) =~= s@.subrange(k2 as int, k3 as int));
                        assert(items@.push(v).len() == 1 && items@.push(v)[0] == v);
                        assert(renders_items(u, items@.push(v)));
                    } else {
                        let u = s@.subrange(j as int + 1, k3 as int);
                        let mm = done_end - (j + 1);
                        assert(u[mm] == s@[done_end]);
                        assert(u.take(mm) =~= s@.subrange(j as int + 1, done_end));
                        assert(u.skip(mm + 1) =~= s@.subrange(k as int, k3 as int));
                        assert(items@.push(v).drop_last() =~= items@);
                        let single = items@.push(v).subrange(
                            items@.push(v).len() - 1,
                            items@.push(v).len() as int,
                        );
                        assert(single.len() == 1 && single[0] == v);
                        assert(renders_items(u2, single));
                        assert(renders_items(u, items@.push(v)));
                    }
                }
                items.push(v);
                if k3 < n && s[k3] == ',' {
                    proof {
                        done_end = k3 as int;
                    }
                    k = k3 + 1;
                } else if k3 < n && s[k3] == ']' {
                    let end = k3 + 1;
                    proof {
                        let tt = s@.subrange(j as int, end as int);
                        assert(tt[0] == '[' && tt.last() == ']');
                        assert(tt.subrange(1, tt.len() - 1) =~= s@.subrange(
                            j as int + 1,
                            k3 as int,
                        ));
                        assert(renders(tt, Json::List(items)));
                    }
                    return Some((Json::List(items), end));
                } else {
                    return None;
                }
            },
        }
    }
}

#[verifier::rlimit(100)]
fn parse_object_at(s: &Vec<char>, j: usize) -> (r: Option<(Json, usize)>)
    requires
        j < s@.len(),
        s@[j as int] == '{',
    ensures
        r matches Some(p) ==> j < p.1 <= s@.len() && renders(s@.subrange(j as int, p.1 as int), p.0),
    decreases s@.len() - j, 0nat,
{
    let n = s.len();
    let mut members: Vec<(String, Json)> = Vec::new();
    let k0 = skip_ws(s, j + 1);
    if k0 < n && s[k0] == '}' {
        let end = k0 + 1;
        proof {
            let tt = s@.subrange(j as int, end as int);
            assert(tt[0] == '{' && tt.last() == '}');
            assert(tt.subrange(1, tt.len() - 1) =~= s@.subrange(j as int + 1, k0 as int));
            assert(members@ =~= Seq::<(String, Json)>::empty());
            assert(renders_members(tt.subrange(1, tt.len() - 1), members@));
            assert(renders(tt, Json::Object(members)));
        }
        return Some((Json::Object(members), end));
    }
    let mut k = k0;
    let ghost mut done_end: int = 0;
    loop
        invariant
            j < n == s@.len(),
            s@[j as int] == '{',
            j + 1 <= k as int <= n,
            members@.len() == 0 ==> all_ws(s@.subrange(j as int + 1, k as int)),
            members@.len() > 0 ==> j + 1 <= done_end && done_end < k as int && s@[done_end] == ','
                && renders_members(s@.subrange(j as int + 1, done_end), members@) && all_ws(
                s@.subrange(done_end + 1, k as int),
            ),
        decreases n - k,
    {
        if !(k < n && s[k] == '"') {
            return None;
        }
        match parse_string_at(s, k) {
            None => {
                return None;
            },
            Some((key, k2)) => {
                let k3 = skip_ws(s, k2);
                if !(k3 < n && s[k3] == ':') {
                    return None;
                }
                match parse_at(s, k3 + 1) {
                    None => {
                        return None;
                    },
                    Some((v, k4)) => {
                        let k5 = skip_ws(s, k4);
                        proof {
                            let mv = ws_end(s@, k3 as int + 1);
                            lemma_ws_end(s@, k3 as int + 1);
                            let ghost ms2 = members@.push((key, v));
                            if members@.len() == 0 {
                                let u = s@.subrange(j as int + 1, k5 as int);
                                let base = j as int + 1;
                                let a = k as int - base;
                                let b = k2 as int - base;
                                let cc = k3 as int - base;
                                let d = mv - base;
                                let e = k4 as int - base;
                                assert(u.take(a) =~= s@.subrange(base, k as int));
                                assert(u[a] == s@[k as int] && u[b - 1] == s@[k2 as int - 1]);
                                assert(u.subrange(a + 1, b - 1) =~= s@.subrange(
                                    k as int + 1,
                                    k2 as int - 1,
                                ));
                                assert(u.subrange(b, cc) =~= s@.subrange(k2 as int, k3 as int));
                                assert(u[cc] == s@[k3 as int]);
                                assert(u.subrange(cc + 1, d) =~= s@.subrange(k3 as int + 1, mv));
                                assert(u.subrange(d, e) =~= s@.subrange(mv, k4 as int));
                                assert(u.skip(e) =~= s@.subrange(k4 as int, k5 as int));
                                assert(ms2.len() == 1 && ms2[0] == (key, v));
                                assert(renders_members(u, ms2));
                            } else {
                                let u = s@.subrange(j as int + 1, k5 as int);
                                let mm = done_end - (j + 1);
                                assert(u[mm] == s@[done_end]);
                                assert(u.take(mm) =~= s@.subrange(j as int + 1, done_end));
                                assert(ms2.drop_last() =~= members@);
                                let w = s@.subrange(done_end + 1, k5 as int);
                                assert(u.skip(mm + 1) =~= w);
                                let base = done_end + 1;
                                let a = k as int - base;
                                let b = k2 as int - base;
                                let cc = k3 as int - base;
                                let d = mv - base;
                                let e = k4 as int - base;
                                assert(w.take(a) =~= s@.subrange(base, k as int));
                                assert(w[a] == s@[k as int] && w[b - 1] == s@[k2 as int - 1]);
                                assert(w.subrange(a + 1, b - 1) =~= s@.subrange(
                                    k as int + 1,
                                    k2 as int - 1,
                                ));
                                assert(w.subrange(b, cc) =~= s@.subrange(k2 as int, k3 as int));
                                assert(w[cc] == s@[k3 as int]);
                                assert(w.subrange(cc + 1, d) =~= s@.subrange(k3 as int + 1, mv));
                                assert(w.subrange(d, e) =~= s@.subrange(mv, k4 as int));
                                assert(w.skip(e) =~= s@.subrange(k4 as int, k5 as int));
                                let single = ms2.subrange(ms2.len() - 1, ms2.len() as int);
                                assert(single.len() == 1 && single[0] == (key, v));
                                assert(renders_members(w, single));
                                assert(renders_members(u, ms2));
                            }
                        }
                        members.push((key, v));
                        if k5 < n && s[k5] == ',' {
                            proof {
                                done_end = k5 as int;
                            }
                            k = skip_ws(s, k5 + 1);
                        } else if k5 < n && s[k5] == '}' {
                            let end = k5 + 1;
                            proof {
                                let tt = s@.subrange(j as int, end as int);
                                assert(tt[0] == '{' && tt.last() == '}');
                                assert(tt.subrange(1, tt.len() - 1) =~= s@.subrange(
                                    j as int + 1,
                                    k5 as int,
                                ));
                                assert(renders(tt, Json::Object(members)));
                            }
                            return Some((Json::Object(members), end));
                        } else {
                            return None;
                        }
                    },
                }
            },
        }
    }
}

#[verifier::rlimit(100)]
fn parse_at(s: &Vec<char>, i: usize) -> (r: Option<(Json, usize)>)
    requires
        i <= s@.len(),
    ensures
        r matches Some(p) ==> i < p.1 <= s@.len() && ws_end(s@, i as int) <= p.1 && renders(
            s@.subrange(ws_end(s@, i as int), p.1 as int),
            p.0,
        ),
    decreases s@.len() - i, 1nat,
{
    let n = s.len();
    let j = skip_ws(s, i);
    if j >= n {
        return None;
    }
    let c = s[j];
    if c == 'n' {
        if n - j >= 4 && s[j + 1] == 'u' && s[j + 2] == 'l' && s[j + 3] == 'l' {
            let end = j + 4;
            proof {
                reveal_strlit("null");
                assert(s@.subrange(j as int, end as int) =~= "null"@);
                assert(renders(s@.subrange(j as int, end as int), Json::Null));
            }
            return Some((Json::Null, end));
        }
        return None;
    } else if c == 't' {
        if n - j >= 4 && s[j + 1] == 'r' && s[j + 2] == 'u' && s[j + 3] == 'e' {
            let end = j + 4;
            proof {
                reveal_strlit("true");
                assert(s@.subrange(j as int, end as int) =~= "true"@);
                assert(renders(s@.subrange(j as int, end as int), Json::Bool(true)));
            }
            return Some((Json::Bool(true), end));
        }
        return None;
    } else if c == 'f' {
        if n - j >= 5 && s[j + 1] == 'a' && s[j + 2] == 'l' && s[j + 3] == 's' && s[j + 4] == 'e' {
            let end = j + 5;
            proof {
                reveal_strlit("false");
                assert(s@.subrange(j as int, end as int) =~= "false"@);
                assert(renders(s@.subrange(j as int, end as int), Json::Bool(false)));
            }
            return Some((Json::Bool(false), end));
        }
        return None;
    } else if c == '"' {
        match parse_string_at(s, j) {
            Some((t, k)) => {
                proof {
                    let tt = s@.subrange(j as int, k as int);
                    assert(tt[0] == s@[j as int]);
                    assert(tt.last() == s@[k as int - 1]);
                    assert(tt.subrange(1, tt.len() - 1) =~= s@.subrange(j as int + 1, k as int - 1));
                    assert(renders(tt, Json::Text(t)));
                }
                return Some((Json::Text(t), k));
            },
            None => {
                return None;
            },
        }
    } else if c == '[' {
        match parse_list_at(s, j) {
            Some((v, k)) => {
                proof {
                    assert(renders(s@.subrange(j as int, k as int), v));
                }
                return Some((v, k));
            },
            None => {
                return None;
            },
        }
    } else if c == '{' {
        match parse_object_at(s, j) {
            Some((v, k)) => {
                proof {
                    assert(renders(s@.subrange(j as int, k as int), v));
                }
                return Some((v, k));
            },
            None => {
                return None;
            },
        }
    } else if c == '-' || (c as u32 >= 48 && c as u32 <= 57) {
        match parse_number_at(s, j) {
            Some((v, k)) => {
                proof {
                    assert(renders(s@.subrange(j as int, k as int), v));
                }
                return Some((v, k));
            },
            None => {
                return None;
            },
        }
    }
    None
}

/// Parses one JSON value from reply text, as the transport hands it over.
/// Yields None when the text is not a single well-formed value. Whatever
/// tree comes back, the input was exactly whitespace around a span that
/// renders that tree under the wire grammar.
pub fn parse_json(s: &str) -> (r: Option<Json>)
    ensures
        r matches Some(v) ==> exists|k: int|
            #![trigger s@.subrange(ws_end(s@, 0), k)]
            0 <= ws_end(s@, 0) <= k <= s@.len() && all_ws(s@.take(ws_end(s@, 0))) && renders(
                s@.subrange(ws_end(s@, 0), k),
                v,
            ) && all_ws(s@.skip(k)),
{
    let cs = chars_of(s);
    if cs.len() == 0 {
        return None;
    }
    match parse_at(&cs, 0) {
        Some((v, k)) => {
            let k2 = skip_ws(&cs, k);
            if k2 == cs.len() {
                proof {
                    let m = ws_end(s@, 0);
                    lemma_ws_end(s@, 0);
                    assert(s@.take(m) =~= s@.subrange(0, m));
                    assert(s@.skip(k as int) =~= s@.subrange(k as int, k2 as int));
                    assert(renders(s@.subrange(m, k as int), v));
                    assert(0 <= m <= k as int <= s@.len() && all_ws(s@.take(m)) && renders(
                        s@.subrange(m, k as int),
                        v,
                    ) && all_ws(s@.skip(k as int)));
                }
                Some(v)
            } else {
                None
            }
        },
        None => None,
    }
}

} // verus!\n