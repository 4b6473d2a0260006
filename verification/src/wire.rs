//! Text-level building blocks for the wire format: JSON string escaping,
//! decimal integer text, and comma-joined member lists. Every executable
//! writer is proved to produce exactly the text its spec function describes.
use vstd::prelude::*;

verus! {

// ---------------------------------------------------------------------------
// String escaping
// ---------------------------------------------------------------------------
/// Hexadecimal digit for `n` in 0..16, lower case.
pub open spec fn hex_digit(n: int) -> char {
    if n == 0 {
        '0'
    } else if n == 1 {
        '1'
    } else if n == 2 {
        '2'
    } else if n == 3 {
        '3'
    } else if n == 4 {
        '4'
    } else if n == 5 {
        '5'
    } else if n == 6 {
        '6'
    } else if n == 7 {
        '7'
    } else if n == 8 {
        '8'
    } else if n == 9 {
        '9'
    } else if n == 10 {
        'a'
    } else if n == 11 {
        'b'
    } else if n == 12 {
        'c'
    } else if n == 13 {
        'd'
    } else if n == 14 {
        'e'
    } else {
        'f'
    }
}

/// Characters that escape to a two-character short form.
pub open spec fn is_short_escape(c: char) -> bool {
    c == '"' || c == '\\' || c == '\u{8}' || c == '\t' || c == '\n' || c == '\u{c}' || c == '\r'
}

/// The character after the backslash in a short escape.
pub open spec fn short_escape_mark(c: char) -> char {
    if c == '"' {
        '"'
    } else if c == '\\' {
        '\\'
    } else if c == '\u{8}' {
        'b'
    } else if c == '\t' {
        't'
    } else if c == '\n' {
        'n'
    } else if c == '\u{c}' {
        'f'
    } else {
        'r'
    }
}

/// How one character appears inside a quoted wire string: itself, a short
/// escape, or a `\u00XX` escape for the remaining control characters.
pub open spec fn esc_char(c: char) -> Seq<char> {
    if is_short_escape(c) {
        seq!['\\', short_escape_mark(c)]
    } else if (c as u32) < 32 {
        seq!['\\', 'u', '0', '0', hex_digit(c as u32 as int / 16), hex_digit(c as u32 as int % 16)]
    } else {
        seq![c]
    }
}

/// A whole character sequence, escaped.
pub open spec fn escaped(s: Seq<char>) -> Seq<char>
    decreases s.len(),
{
    if s.len() == 0 {
        Seq::empty()
    } else {
        esc_char(s[0]) + escaped(s.drop_first())
    }
}

/// A quoted wire string: opening quote, escaped contents, closing quote.
pub open spec fn quoted(s: Seq<char>) -> Seq<char> {
    seq!['"'] + escaped(s) + seq!['"']
}

pub proof fn lemma_escaped_append(a: Seq<char>, b: Seq<char>)
    ensures
        escaped(a + b) == escaped(a) + escaped(b),
    decreases a.len(),
{
    if a.len() == 0 {
        assert(a + b =~= b);
        assert(escaped(a) + escaped(b) =~= escaped(b));
    } else {
        assert((a + b).drop_first() =~= a.drop_first() + b);
        lemma_escaped_append(a.drop_first(), b);
        assert(escaped(a + b) =~= escaped(a) + escaped(b));
    }
}

pub proof fn lemma_escaped_take_step(s: Seq<char>, i: int)
    requires
        0 <= i < s.len(),
    ensures
        escaped(s.take(i + 1)) == escaped(s.take(i)) + esc_char(s[i]),
{
    assert(s.take(i + 1) =~= s.take(i) + seq![s[i]]);
    lemma_escaped_append(s.take(i), seq![s[i]]);
    assert(seq![s[i]].len() == 1 && seq![s[i]][0] == s[i]);
    assert(seq![s[i]].drop_first() =~= Seq::<char>::empty());
    assert(escaped(seq![s[i]]) == esc_char(s[i]) + escaped(Seq::<char>::empty()));
    assert(escaped(seq![s[i]]) =~= esc_char(s[i]));
}

/// Relies on String::push: appends exactly one character.
#[verifier::external_body]
pub(crate) fn push_char(s: &mut String, c: char)
    ensures
        final(s)@ == old(s)@ + seq![c],
{
    s.push(c);
}

fn hex_digit_char(n: u8) -> (c: char)
    requires
        n < 16,
    ensures
        c == hex_digit(n as int),
{
    match n {
        0 => '0',
        1 => '1',
        2 => '2',
        3 => '3',
        4 => '4',
        5 => '5',
        6 => '6',
        7 => '7',
        8 => '8',
        9 => '9',
        10 => 'a',
        11 => 'b',
        12 => 'c',
        13 => 'd',
        14 => 'e',
        _ => 'f',
    }
}

pub(crate) fn write_escaped(out: &mut String, s: &str)
    ensures
        final(out)@ == old(out)@ + escaped(s@),
{
    let n = s.unicode_len();
    let mut i: usize = 0;
    while i < n
        invariant
            i <= n,
            n == s@.len(),
            out@ == old(out)@ + escaped(s@.take(i as int)),
        decreases n - i,
    {
        let c = s.get_char(i);
        proof {
            lemma_escaped_take_step(s@, i as int);
        }
        if c == '"' {
            push_char(out, '\\');
            push_char(out, '"');
        } else if c == '\\' {
            push_char(out, '\\');
            push_char(out, '\\');
        } else if c == '\u{8}' {
            push_char(out, '\\');
            push_char(out, 'b');
        } else if c == '\t' {
            push_char(out, '\\');
            push_char(out, 't');
        } else if c == '\n' {
            push_char(out, '\\');
            push_char(out, 'n');
        } else if c == '\u{c}' {
            push_char(out, '\\');
            push_char(out, 'f');
        } else if c == '\r' {
            push_char(out, '\\');
            push_char(out, 'r');
        } else if (c as u32) < 32 {
            push_char(out, '\\');
            push_char(out, 'u');
            push_char(out, '0');
            push_char(out, '0');
            let v = c as u32;
            push_char(out, hex_digit_char((v / 16) as u8));
            push_char(out, hex_digit_char((v % 16) as u8));
        } else {
            push_char(out, c);
        }
        assert(out@ =~= old(out)@ + escaped(s@.take(i as int + 1)));
        i = i + 1;
    }
    assert(s@.take(n as int) =~= s@);
}

/// A quoted wire string built from `s`.
pub fn quoted_str(s: &str) -> (r: String)
    ensures
        r@ == quoted(s@),
{
    let mut out = String::new();
    push_char(&mut out, '"');
    write_escaped(&mut out, s);
    push_char(&mut out, '"');
    assert(out@ =~= quoted(s@));
    out
}

// ---------------------------------------------------------------------------
// Decimal integer text
// ---------------------------------------------------------------------------
/// Decimal digit character for `n` in 0..10.
pub open spec fn dec_digit(n: int) -> char {
    if n == 0 {
        '0'
    } else if n == 1 {
        '1'
    } else if n == 2 {
        '2'
    } else if n == 3 {
        '3'
    } else if n == 4 {
        '4'
    } else if n == 5 {
        '5'
    } else if n == 6 {
        '6'
    } else if n == 7 {
        '7'
    } else if n == 8 {
        '8'
    } else {
        '9'
    }
}

/// Decimal text of a non-negative integer, no leading zeros.
pub open spec fn nat_text(n: int) -> Seq<char>
    decreases n,
{
    if n < 10 {
        seq![dec_digit(n)]
    } else {
        nat_text(n / 10) + seq![dec_digit(n % 10)]
    }
}

/// Decimal text of an integer, with a leading minus sign when negative.
pub open spec fn int_text(n: int) -> Seq<char> {
    if n < 0 {
        seq!['-'] + nat_text(-n)
    } else {
        nat_text(n)
    }
}

fn dec_digit_char(n: u64) -> (c: char)
    requires
        n < 10,
    ensures
        c == dec_digit(n as int),
{
    match n {
        0 => '0',
        1 => '1',
        2 => '2',
        3 => '3',
        4 => '4',
        5 => '5',
        6 => '6',
        7 => '7',
        8 => '8',
        _ => '9',
    }
}

fn write_nat(out: &mut String, n: u64)
    ensures
        final(out)@ == old(out)@ + nat_text(n as int),
    decreases n,
{
    if n < 10 {
        push_char(out, dec_digit_char(n));
    } else {
        write_nat(out, n / 10);
        push_char(out, dec_digit_char(n % 10));
        assert(out@ =~= old(out)@ + nat_text(n as int));
    }
}

pub(crate) fn write_i64(out: &mut String, n: i64)
    ensures
        final(out)@ == old(out)@ + int_text(n as int),
{
    if n >= 0 {
        write_nat(out, n as u64);
    } else {
        push_char(out, '-');
        let m: u64 = ((-(n + 1)) as u64) + 1;
        assert(m as int == -(n as int));
        write_nat(out, m);
        assert(out@ =~= old(out)@ + int_text(n as int));
    }
}

/// Decimal text of `n` as a fresh string.
pub fn i64_str(n: i64) -> (r: String)
    ensures
        r@ == int_text(n as int),
{
    let mut out = String::new();
    write_i64(&mut out, n);
    assert(out@ =~= int_text(n as int));
    out
}

// ---------------------------------------------------------------------------
// Booleans
// ---------------------------------------------------------------------------
/// The wire text of a boolean.
pub open spec fn bool_text(b: bool) -> Seq<char> {
    if b {
        "true"@
    } else {
        "false"@
    }
}

pub fn bool_str(b: bool) -> (r: String)
    ensures
        r@ == bool_text(b),
{
    if b {
        String::from_str("true")
    } else {
        String::from_str("false")
    }
}

// ---------------------------------------------------------------------------
// Comma-joined lists, objects and arrays
// ---------------------------------------------------------------------------
/// `parts` joined with single commas and nothing else.
pub open spec fn joined(parts: Seq<Seq<char>>) -> Seq<char>
    decreases parts.len(),
{
    if parts.len() == 0 {
        Seq::empty()
    } else if parts.len() == 1 {
        parts[0]
    } else {
        parts[0] + seq![','] + joined(parts.drop_first())
    }
}

pub proof fn lemma_joined_snoc(parts: Seq<Seq<char>>, p: Seq<char>)
    ensures
        joined(parts.push(p)) == if parts.len() == 0 {
            p
        } else {
            joined(parts) + seq![','] + p
        },
    decreases parts.len(),
{
    if parts.len() == 0 {
        assert(parts.push(p)[0] =~= p);
    } else if parts.len() == 1 {
        assert(parts.push(p).drop_first() =~= seq![p]);
        assert(parts.push(p)[0] == parts[0]);
        assert(seq![p].len() == 1 && seq![p][0] == p);
        assert(joined(seq![p]) == p);
        assert(joined(parts.push(p)) =~= parts[0] + seq![','] + p);
    } else {
        assert(parts.push(p).drop_first() =~= parts.drop_first().push(p));
        lemma_joined_snoc(parts.drop_first(), p);
        assert(joined(parts.push(p)) =~= joined(parts) + seq![','] + p);
    }
}

/// The views of a list of built strings.
pub open spec fn views_of(parts: Seq<String>) -> Seq<Seq<char>> {
    Seq::new(parts.len(), |i: int| parts[i]@)
}

/// The wire text of an object with the given pre-rendered members.
pub open spec fn obj_text(members: Seq<Seq<char>>) -> Seq<char> {
    seq!['{'] + joined(members) + seq!['}']
}

/// The wire text of an array with the given pre-rendered elements.
pub open spec fn arr_text(elems: Seq<Seq<char>>) -> Seq<char> {
    seq!['['] + joined(elems) + seq![']']
}

pub(crate) fn write_joined(out: &mut String, parts: &Vec<String>)
    ensures
        final(out)@ == old(out)@ + joined(views_of(parts@)),
{
    let mut k: usize = 0;
    while k < parts.len()
        invariant
            k <= parts@.len(),
            out@ == old(out)@ + joined(views_of(parts@).take(k as int)),
        decreases parts@.len() - k,
    {
        if k > 0 {
            push_char(out, ',');
        }
        out.append(parts[k].as_str());
        proof {
            assert(views_of(parts@).take(k as int).push(parts@[k as int]@) =~= views_of(parts@)
                .take(k as int + 1));
            lemma_joined_snoc(views_of(parts@).take(k as int), parts@[k as int]@);
            assert(out@ =~= old(out)@ + joined(views_of(parts@).take(k as int + 1)));
        }
        k = k + 1;
    }
    assert(views_of(parts@).take(parts@.len() as int) =~= views_of(parts@));
}

/// An object assembled from pre-rendered members.
pub fn object_str(members: &Vec<String>) -> (r: String)
    ensures
        r@ == obj_text(views_of(members@)),
{
    let mut out = String::new();
    push_char(&mut out, '{');
    write_joined(&mut out, members);
    push_char(&mut out, '}');
    assert(out@ =~= obj_text(views_of(members@)));
    out
}

/// An array assembled from pre-rendered elements.
pub fn array_str(elems: &Vec<String>) -> (r: String)
    ensures
        r@ == arr_text(views_of(elems@)),
{
    let mut out = String::new();
    push_char(&mut out, '[');
    write_joined(&mut out, elems);
    push_char(&mut out, ']');
    assert(out@ =~= arr_text(views_of(elems@)));
    out
}

/// One rendered object member: quoted key, colon, pre-rendered value.
pub open spec fn member(key: Seq<char>, value: Seq<char>) -> Seq<char> {
    quoted(key) + seq![':'] + value
}

pub fn member_str(key: &str, value: String) -> (r: String)
    ensures
        r@ == member(key@, value@),
{
    let mut out = quoted_str(key);
    push_char(&mut out, ':');
    out.append(value.as_str());
    assert(out@ =~= member(key@, value@));
    out
}

} // verus!
