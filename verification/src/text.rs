//! Plain-text helpers shared by the library: conversions between strings and
//! character vectors, and printing integers as decimal or hexadecimal digits.

use vstd::prelude::*;

verus! {

/// The decimal digit character for a value below ten.
pub open spec fn spec_digit(d: nat) -> char {
    if d == 0 {
        '0'
    } else if d == 1 {
        '1'
    } else if d == 2 {
        '2'
    } else if d == 3 {
        '3'
    } else if d == 4 {
        '4'
    } else if d == 5 {
        '5'
    } else if d == 6 {
        '6'
    } else if d == 7 {
        '7'
    } else if d == 8 {
        '8'
    } else {
        '9'
    }
}

/// The decimal digits of `n`, most significant first, with no leading zeros.
pub open spec fn spec_u64_chars(n: nat) -> Seq<char>
    decreases n,
{
    if n < 10 {
        seq![spec_digit(n)]
    } else {
        spec_u64_chars(n / 10).push(spec_digit(n % 10))
    }
}

/// The lowercase hexadecimal digit character for a value below sixteen.
pub open spec fn spec_hex_digit(d: nat) -> char {
    if d < 10 {
        spec_digit(d)
    } else if d == 10 {
        'a'
    } else if d == 11 {
        'b'
    } else if d == 12 {
        'c'
    } else if d == 13 {
        'd'
    } else if d == 14 {
        'e'
    } else {
        'f'
    }
}

/// The lowercase hexadecimal digits of `n`, most significant first, with no
/// leading zeros.
pub open spec fn spec_hex_chars(n: nat) -> Seq<char>
    decreases n,
{
    if n < 16 {
        seq![spec_hex_digit(n)]
    } else {
        spec_hex_chars(n / 16).push(spec_hex_digit(n % 16))
    }
}

/// The decimal digit character for `d`.
pub fn digit_char(d: u64) -> (r: char)
    requires
        d < 10,
    ensures
        r == spec_digit(d as nat),
{
    if d == 0 {
        '0'
    } else if d == 1 {
        '1'
    } else if d == 2 {
        '2'
    } else if d == 3 {
        '3'
    } else if d == 4 {
        '4'
    } else if d == 5 {
        '5'
    } else if d == 6 {
        '6'
    } else if d == 7 {
        '7'
    } else if d == 8 {
        '8'
    } else {
        '9'
    }
}

/// The lowercase hexadecimal digit character for `d`.
pub fn hex_digit_char(d: u32) -> (r: char)
    requires
        d < 16,
    ensures
        r == spec_hex_digit(d as nat),
{
    if d < 10 {
        digit_char(d as u64)
    } else if d == 10 {
        'a'
    } else if d == 11 {
        'b'
    } else if d == 12 {
        'c'
    } else if d == 13 {
        'd'
    } else if d == 14 {
        'e'
    } else {
        'f'
    }
}

/// The decimal digits of `n`, most significant first.
pub fn u64_chars(n: u64) -> (r: Vec<char>)
    ensures
        r@ == spec_u64_chars(n as nat),
    decreases n,
{
    if n < 10 {
        let mut v: Vec<char> = Vec::new();
        v.push(digit_char(n));
        proof {
            assert(v@ =~= seq![spec_digit(n as nat)]);
        }
        v
    } else {
        let mut v = u64_chars(n / 10);
        v.push(digit_char(n % 10));
        v
    }
}

/// The lowercase hexadecimal digits of `n`, most significant first.
pub fn hex_chars(n: u32) -> (r: Vec<char>)
    ensures
        r@ == spec_hex_chars(n as nat),
    decreases n,
{
    if n < 16 {
        let mut v: Vec<char> = Vec::new();
        v.push(hex_digit_char(n));
        proof {
            assert(v@ =~= seq![spec_hex_digit(n as nat)]);
        }
        v
    } else {
        let mut v = hex_chars(n / 16);
        v.push(hex_digit_char(n % 16));
        v
    }
}

/// The characters of `s`, in order.
pub fn str_chars(s: &str) -> (r: Vec<char>)
    ensures
        r@ == s@,
{
    let n = s.unicode_len();
    let mut v: Vec<char> = Vec::new();
    let mut i: usize = 0;
    while i < n
        invariant
            n == s@.len(),
            i <= n,
            v@ == s@.take(i as int),
        decreases n - i,
    {
        v.push(s.get_char(i));
        i = i + 1;
        proof {
            assert(v@ =~= s@.take(i as int));
        }
    }
    proof {
        assert(s@.take(n as int) =~= s@);
    }
    v
}

/// Append the characters of `s` to `out`.
pub fn push_str_chars(out: &mut Vec<char>, s: &str)
    ensures
        final(out)@ == old(out)@ + s@,
{
    let n = s.unicode_len();
    let mut i: usize = 0;
    while i < n
        invariant
            n == s@.len(),
            i <= n,
            out@ == old(out)@ + s@.take(i as int),
        decreases n - i,
    {
        out.push(s.get_char(i));
        i = i + 1;
        proof {
            assert(old(out)@ + s@.take(i as int) =~= (old(out)@ + s@.take(i - 1)).push(
                s@[i - 1],
            ));
        }
    }
    proof {
        assert(old(out)@ + s@.take(n as int) =~= old(out)@ + s@);
    }
}

/// Append the characters of `extra` to `out`.
pub fn push_chars(out: &mut Vec<char>, extra: &Vec<char>)
    ensures
        final(out)@ == old(out)@ + extra@,
{
    let n = extra.len();
    let mut i: usize = 0;
    while i < n
        invariant
            n == extra@.len(),
            i <= n,
            out@ == old(out)@ + extra@.take(i as int),
        decreases n - i,
    {
        out.push(extra[i]);
        i = i + 1;
        proof {
            assert(old(out)@ + extra@.take(i as int) =~= (old(out)@ + extra@.take(i - 1)).push(
                extra@[i - 1],
            ));
        }
    }
    proof {
        assert(old(out)@ + extra@.take(n as int) =~= old(out)@ + extra@);
    }
}

/// The characters of `v` between indices `from` and `to`.
pub fn sub_chars(v: &Vec<char>, from: usize, to: usize) -> (r: Vec<char>)
    requires
        from <= to <= v@.len(),
    ensures
        r@ == v@.subrange(from as int, to as int),
{
    let mut r: Vec<char> = Vec::new();
    let mut i: usize = from;
    while i < to
        invariant
            from <= i <= to <= v@.len(),
            r@ == v@.subrange(from as int, i as int),
        decreases to - i,
    {
        r.push(v[i]);
        i = i + 1;
        proof {
            assert(r@ =~= v@.subrange(from as int, i as int));
        }
    }
    r
}

/// Decimal digit sequences are never empty and hold neither newlines nor
/// carriage returns.
pub proof fn lemma_u64_chars_plain(n: nat)
    ensures
        spec_u64_chars(n).len() >= 1,
        forall|k: int|
            0 <= k < spec_u64_chars(n).len() ==> spec_u64_chars(n)[k] != '\n' && spec_u64_chars(
                n,
            )[k] != '\r',
    decreases n,
{
    if n < 10 {
    } else {
        lemma_u64_chars_plain(n / 10);
    }
}

/// Hexadecimal digit sequences are never empty and hold neither newlines nor
/// carriage returns.
pub proof fn lemma_hex_chars_plain(n: nat)
    ensures
        spec_hex_chars(n).len() >= 1,
        forall|k: int|
            0 <= k < spec_hex_chars(n).len() ==> spec_hex_chars(n)[k] != '\n' && spec_hex_chars(
                n,
            )[k] != '\r',
    decreases n,
{
    if n < 16 {
    } else {
        lemma_hex_chars_plain(n / 16);
    }
}

/// How one character is written by the default escape: tab, carriage return,
/// newline, backslash and both quotes get a backslash escape; printable ASCII
/// stays as it is; everything else becomes `\u{...}` with lowercase
/// hexadecimal digits.
pub open spec fn spec_escape_char(c: char) -> Seq<char> {
    if c == '\t' {
        seq!['\\', 't']
    } else if c == '\r' {
        seq!['\\', 'r']
    } else if c == '\n' {
        seq!['\\', 'n']
    } else if c == '\\' {
        seq!['\\', '\\']
    } else if c == '\'' {
        seq!['\\', '\'']
    } else if c == '"' {
        seq!['\\', '"']
    } else if 0x20 <= (c as u32) && (c as u32) <= 0x7e {
        seq![c]
    } else {
        seq!['\\', 'u', '{'] + spec_hex_chars(c as u32 as nat) + seq!['}']
    }
}

/// The default escape of a whole character sequence.
pub open spec fn spec_escape(s: Seq<char>) -> Seq<char>
    decreases s.len(),
{
    if s.len() == 0 {
        Seq::empty()
    } else {
        spec_escape_char(s[0]) + spec_escape(s.drop_first())
    }
}

/// Escaping one more character appends that character's escape.
pub proof fn lemma_escape_push(s: Seq<char>, c: char)
    ensures
        spec_escape(s.push(c)) == spec_escape(s) + spec_escape_char(c),
    decreases s.len(),
{
    if s.len() == 0 {
        assert(s.push(c)[0] == c);
        assert(s.push(c).drop_first() =~= Seq::<char>::empty());
        assert(spec_escape(s.push(c)) == spec_escape_char(c) + spec_escape(
            Seq::<char>::empty(),
        ));
        assert(spec_escape_char(c) + Seq::<char>::empty() =~= spec_escape_char(c));
        assert(spec_escape(s) + spec_escape_char(c) =~= spec_escape_char(c));
    } else {
        assert(s.push(c).drop_first() =~= s.drop_first().push(c));
        lemma_escape_push(s.drop_first(), c);
        assert(s.push(c)[0] == s[0]);
        assert(spec_escape_char(s[0]) + (spec_escape(s.drop_first()) + spec_escape_char(c)) =~= (
        spec_escape_char(s[0]) + spec_escape(s.drop_first())) + spec_escape_char(c));
    }
}

/// No character's escape holds a newline or a carriage return.
pub proof fn lemma_escape_char_plain(c: char)
    ensures
        forall|k: int|
            0 <= k < spec_escape_char(c).len() ==> spec_escape_char(c)[k] != '\n'
                && spec_escape_char(c)[k] != '\r',
{
    if c == '\t' || c == '\r' || c == '\n' || c == '\\' || c == '\'' || c == '"' {
    } else if 0x20 <= (c as u32) && (c as u32) <= 0x7e {
        assert(('\n' as u32) == 0x0a);
        assert(('\r' as u32) == 0x0d);
    } else {
        lemma_hex_chars_plain(c as u32 as nat);
    }
}

/// An escaped text holds neither newlines nor carriage returns, whatever was
/// escaped.
pub proof fn lemma_escape_plain(s: Seq<char>)
    ensures
        forall|k: int|
            0 <= k < spec_escape(s).len() ==> spec_escape(s)[k] != '\n' && spec_escape(s)[k]
                != '\r',
    decreases s.len(),
{
    if s.len() == 0 {
    } else {
        lemma_escape_char_plain(s[0]);
        lemma_escape_plain(s.drop_first());
        let head = spec_escape_char(s[0]);
        let tail = spec_escape(s.drop_first());
        assert forall|k: int|
            0 <= k < spec_escape(s).len() implies spec_escape(s)[k] != '\n' && spec_escape(s)[k]
            != '\r' by {
            if k < head.len() {
                assert(spec_escape(s)[k] == head[k]);
            } else {
                assert(spec_escape(s)[k] == tail[k - head.len()]);
            }
        }
    }
}

/// Write one character's default escape onto `out`.
fn push_escaped_char(out: &mut Vec<char>, c: char)
    ensures
        final(out)@ == old(out)@ + spec_escape_char(c),
{
    if c == '\t' {
        out.push('\\');
        out.push('t');
    } else if c == '\r' {
        out.push('\\');
        out.push('r');
    } else if c == '\n' {
        out.push('\\');
        out.push('n');
    } else if c == '\\' {
        out.push('\\');
        out.push('\\');
    } else if c == '\'' {
        out.push('\\');
        out.push('\'');
    } else if c == '"' {
        out.push('\\');
        out.push('"');
    } else {
        let code = c as u32;
        if 0x20 <= code && code <= 0x7e {
            out.push(c);
        } else {
            out.push('\\');
            out.push('u');
            out.push('{');
            let digits = hex_chars(code);
            push_chars(out, &digits);
            out.push('}');
        }
    }
    proof {
        assert(out@ =~= old(out)@ + spec_escape_char(c));
    }
}

/// The default escape of `v`, character by character.
pub fn escape_default_chars(v: &Vec<char>) -> (r: Vec<char>)
    ensures
        r@ == spec_escape(v@),
{
    let mut r: Vec<char> = Vec::new();
    let mut i: usize = 0;
    while i < v.len()
        invariant
            i <= v@.len(),
            r@ == spec_escape(v@.take(i as int)),
        decreases v@.len() - i,
    {
        proof {
            assert(v@.take(i as int).push(v@[i as int]) =~= v@.take(i as int + 1));
            lemma_escape_push(v@.take(i as int), v@[i as int]);
        }
        push_escaped_char(&mut r, v[i]);
        i = i + 1;
    }
    proof {
        assert(v@.take(v@.len() as int) =~= v@);
    }
    r
}

/// Are the two strings the same sequence of characters?
pub fn str_eq(s: &str, t: &str) -> (r: bool)
    ensures
        r == (s@ == t@),
{
    let n = s.unicode_len();
    let m = t.unicode_len();
    if n != m {
        proof {
            assert(s@ != t@);
        }
        return false;
    }
    let mut i: usize = 0;
    while i < n
        invariant
            n == s@.len(),
            n == t@.len(),
            i <= n,
            forall|k: int| 0 <= k < i ==> s@[k] == t@[k],
        decreases n - i,
    {
        if s.get_char(i) != t.get_char(i) {
            return false;
        }
        i = i + 1;
    }
    proof {
        assert(s@ =~= t@);
    }
    true
}

/// Relies on `String`'s `FromIterator<char>` implementation: collecting
/// characters yields the string made of exactly those characters, in order.
#[verifier::external_body]
pub fn chars_string(v: &Vec<char>) -> (r: String)
    ensures
        r@ == v@,
{
    v.iter().collect()
}

} // verus!
