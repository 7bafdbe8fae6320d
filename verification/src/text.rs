//! Identifier casing, decimal formatting and lexicographic comparison.
//!
//! These are the pure naming utilities: underscore-delimited source
//! identifiers are turned into PascalCase or camelCase host identifiers, and
//! numbers are rendered in decimal exactly as the emitted documents need them.

use vstd::prelude::*;

verus! {

/// Uppercase a single ASCII letter; every other character is unchanged.
pub open spec fn spec_ascii_upper(c: char) -> char {
    if 'a' <= c && c <= 'z' {
        (((c as u8) - 32) as char)
    } else {
        c
    }
}

/// Lowercase a single ASCII letter; every other character is unchanged.
pub open spec fn spec_ascii_lower(c: char) -> char {
    if 'A' <= c && c <= 'Z' {
        (((c as u8) + 32) as char)
    } else {
        c
    }
}

pub fn ascii_upper(c: char) -> (r: char)
    ensures
        r == spec_ascii_upper(c),
{
    if 'a' <= c && c <= 'z' {
        ((c as u8) - 32) as char
    } else {
        c
    }
}

pub fn ascii_lower(c: char) -> (r: char)
    ensures
        r == spec_ascii_lower(c),
{
    if 'A' <= c && c <= 'Z' {
        ((c as u8) + 32) as char
    } else {
        c
    }
}

/// Relies on `String::push`: appends exactly one character to the string.
#[verifier::external_body]
pub fn push_char(s: &mut String, c: char)
    ensures
        final(s)@ == old(s)@.push(c),
{
    s.push(c);
}

/// The camel-casing of `s` from position `i` on: underscores are dropped, and
/// a character standing right after the start or an underscore is uppercased.
pub open spec fn camel_from(s: Seq<char>, i: int, boundary: bool) -> Seq<char>
    decreases s.len() - i,
{
    if i < 0 || i >= s.len() {
        Seq::<char>::empty()
    } else if s[i] == '_' {
        camel_from(s, i + 1, true)
    } else if boundary {
        seq![spec_ascii_upper(s[i])] + camel_from(s, i + 1, false)
    } else {
        seq![s[i]] + camel_from(s, i + 1, false)
    }
}

/// PascalCase of an underscore-delimited identifier.
pub open spec fn spec_upper_camel(s: Seq<char>) -> Seq<char> {
    camel_from(s, 0, true)
}

/// camelCase of an underscore-delimited identifier: PascalCase with the first
/// character lowercased.
pub open spec fn spec_lower_camel(s: Seq<char>) -> Seq<char> {
    let u = spec_upper_camel(s);
    if u.len() == 0 {
        u
    } else {
        seq![spec_ascii_lower(u[0])] + u.skip(1)
    }
}

/// Convert an underscore-delimited identifier to PascalCase.
pub fn to_upper_camel(s: &str) -> (r: String)
    ensures
        r@ == spec_upper_camel(s@),
{
    let len: usize = s.unicode_len();
    let mut out = String::new();
    let mut boundary = true;
    let mut i: usize = 0;
    proof {
        assert(out@ + camel_from(s@, 0, true) =~= camel_from(s@, 0, true));
    }
    while i < len
        invariant
            len == s@.len(),
            i <= len,
            spec_upper_camel(s@) == out@ + camel_from(s@, i as int, boundary),
        decreases len - i,
    {
        let c = s.get_char(i);
        if c == '_' {
            boundary = true;
        } else if boundary {
            let u = ascii_upper(c);
            proof {
                assert((out@ + seq![spec_ascii_upper(s@[i as int])]) + camel_from(
                    s@,
                    i as int + 1,
                    false,
                ) =~= out@ + (seq![spec_ascii_upper(s@[i as int])] + camel_from(
                    s@,
                    i as int + 1,
                    false,
                )));
            }
            push_char(&mut out, u);
            boundary = false;
        } else {
            proof {
                assert((out@ + seq![s@[i as int]]) + camel_from(s@, i as int + 1, false) =~= out@
                    + (seq![s@[i as int]] + camel_from(s@, i as int + 1, false)));
            }
            push_char(&mut out, c);
            boundary = false;
        }
        i = i + 1;
    }
    proof {
        assert(out@ =~= out@ + camel_from(s@, len as int, boundary));
    }
    out
}

/// Convert an underscore-delimited identifier to camelCase.
pub fn to_lower_camel(s: &str) -> (r: String)
    ensures
        r@ == spec_lower_camel(s@),
{
    let u = to_upper_camel(s);
    let ulen: usize = u.as_str().unicode_len();
    if ulen == 0 {
        return u;
    }
    let mut out = String::new();
    let first = u.as_str().get_char(0);
    push_char(&mut out, ascii_lower(first));
    let mut i: usize = 1;
    while i < ulen
        invariant
            ulen == u@.len(),
            1 <= i <= ulen,
            u@ == spec_upper_camel(s@),
            out@ == seq![spec_ascii_lower(u@[0])] + u@.subrange(1, i as int),
        decreases ulen - i,
    {
        let c = u.as_str().get_char(i);
        proof {
            assert((seq![spec_ascii_lower(u@[0])] + u@.subrange(1, i as int)).push(u@[i as int])
                =~= seq![spec_ascii_lower(u@[0])] + u@.subrange(1, i as int + 1));
        }
        push_char(&mut out, c);
        i = i + 1;
    }
    proof {
        assert(u@.subrange(1, ulen as int) =~= u@.skip(1));
    }
    out
}

/// The title-casing of a constant name from position `i` on: underscores
/// are dropped, the character after each boundary is uppercased, and every
/// other character is lowercased.
pub open spec fn title_from(s: Seq<char>, i: int, boundary: bool) -> Seq<char>
    decreases s.len() - i,
{
    if i < 0 || i >= s.len() {
        Seq::<char>::empty()
    } else if s[i] == '_' {
        title_from(s, i + 1, true)
    } else if boundary {
        seq![spec_ascii_upper(s[i])] + title_from(s, i + 1, false)
    } else {
        seq![spec_ascii_lower(s[i])] + title_from(s, i + 1, false)
    }
}

/// TitleCase of an underscore-delimited constant name: `NONCE_LEN` becomes
/// `NonceLen`.
pub open spec fn spec_title_camel(s: Seq<char>) -> Seq<char> {
    title_from(s, 0, true)
}

/// Convert an underscore-delimited constant name to TitleCase.
pub fn to_title_camel(s: &str) -> (r: String)
    ensures
        r@ == spec_title_camel(s@),
{
    let len: usize = s.unicode_len();
    let mut out = String::new();
    let mut boundary = true;
    let mut i: usize = 0;
    proof {
        assert(out@ + title_from(s@, 0, true) =~= title_from(s@, 0, true));
    }
    while i < len
        invariant
            len == s@.len(),
            i <= len,
            spec_title_camel(s@) == out@ + title_from(s@, i as int, boundary),
        decreases len - i,
    {
        let c = s.get_char(i);
        if c == '_' {
            boundary = true;
        } else if boundary {
            let u = ascii_upper(c);
            proof {
                assert((out@ + seq![spec_ascii_upper(s@[i as int])]) + title_from(
                    s@,
                    i as int + 1,
                    false,
                ) =~= out@ + (seq![spec_ascii_upper(s@[i as int])] + title_from(
                    s@,
                    i as int + 1,
                    false,
                )));
            }
            push_char(&mut out, u);
            boundary = false;
        } else {
            let l = ascii_lower(c);
            proof {
                assert((out@ + seq![spec_ascii_lower(s@[i as int])]) + title_from(
                    s@,
                    i as int + 1,
                    false,
                ) =~= out@ + (seq![spec_ascii_lower(s@[i as int])] + title_from(
                    s@,
                    i as int + 1,
                    false,
                )));
            }
            push_char(&mut out, l);
            boundary = false;
        }
        i = i + 1;
    }
    proof {
        assert(out@ =~= out@ + title_from(s@, len as int, boundary));
    }
    out
}

/// The decimal digit character for a value below ten.
pub open spec fn digit_char(d: int) -> char {
    if d == 0 {
        '0'
    } else if d == 1 {
        '1'
    } else if d == 2 {
        '2'
    } else if d == 3 {
        '3'
    } else if d == 4 {
        '4'
    } else if d == 5 {
        '5'
    } else if d == 6 {
        '6'
    } else if d == 7 {
        '7'
    } else if d == 8 {
        '8'
    } else {
        '9'
    }
}

/// The decimal rendering of a natural number, most significant digit first.
pub open spec fn spec_dec_nat(n: nat) -> Seq<char>
    decreases n,
{
    if n < 10 {
        seq![digit_char(n as int)]
    } else {
        spec_dec_nat(n / 10) + seq![digit_char((n % 10) as int)]
    }
}

/// The decimal rendering of an integer, with a leading minus where negative.
pub open spec fn spec_dec_int(i: int) -> Seq<char> {
    if i >= 0 {
        spec_dec_nat(i as nat)
    } else {
        seq!['-'] + spec_dec_nat((-i) as nat)
    }
}

fn digit10(d: u64) -> (c: char)
    requires
        d < 10,
    ensures
        c == digit_char(d as int),
{
    if d == 0 {
        '0'
    } else if d == 1 {
        '1'
    } else if d == 2 {
        '2'
    } else if d == 3 {
        '3'
    } else if d == 4 {
        '4'
    } else if d == 5 {
        '5'
    } else if d == 6 {
        '6'
    } else if d == 7 {
        '7'
    } else if d == 8 {
        '8'
    } else {
        '9'
    }
}

/// Render an unsigned number in decimal.
pub fn dec_u64(n: u64) -> (s: String)
    ensures
        s@ == spec_dec_nat(n as nat),
    decreases n,
{
    if n < 10 {
        let mut s = String::new();
        push_char(&mut s, digit10(n));
        proof {
            assert(s@ =~= spec_dec_nat(n as nat));
        }
        s
    } else {
        let mut s = dec_u64(n / 10);
        push_char(&mut s, digit10(n % 10));
        proof {
            assert(s@ =~= spec_dec_nat(n as nat));
        }
        s
    }
}

/// Render an unsigned number in decimal.
pub fn dec_u128(n: u128) -> (s: String)
    ensures
        s@ == spec_dec_nat(n as nat),
    decreases n,
{
    if n < 10 {
        let mut s = String::new();
        push_char(&mut s, digit10((n % 10) as u64));
        proof {
            assert(s@ =~= spec_dec_nat(n as nat));
        }
        s
    } else {
        let mut s = dec_u128(n / 10);
        push_char(&mut s, digit10((n % 10) as u64));
        proof {
            assert(s@ =~= spec_dec_nat(n as nat));
        }
        s
    }
}

/// Render a signed number in decimal.
pub fn dec_i64(n: i64) -> (s: String)
    ensures
        s@ == spec_dec_int(n as int),
{
    if n >= 0 {
        dec_u64(n as u64)
    } else {
        let mag: i128 = -(n as i128);
        let mut s = String::new();
        push_char(&mut s, '-');
        let rest = dec_u64(mag as u64);
        s.append(rest.as_str());
        proof {
            assert(s@ =~= spec_dec_int(n as int));
        }
        s
    }
}

/// Whether an identifier follows the `<base>_ptr` naming convention.
pub open spec fn is_ptr_name(s: Seq<char>) -> bool {
    s.len() > 4 && s.subrange(s.len() - 4, s.len() as int) == "_ptr"@
}

/// The `<base>` of an identifier named `<base>_ptr`.
pub open spec fn ptr_base(s: Seq<char>) -> Seq<char> {
    s.subrange(0, s.len() - 4)
}

/// Compare two string slices for character-wise equality.
pub fn str_eq(a: &str, b: &str) -> (r: bool)
    ensures
        r == (a@ == b@),
{
    String::from_str(a) == String::from_str(b)
}

/// The base of an identifier following the `<base>_ptr` convention, if it
/// does follow it.
pub fn ptr_base_name(s: &str) -> (r: Option<String>)
    ensures
        match r {
            Some(b) => is_ptr_name(s@) && b@ == ptr_base(s@),
            None => !is_ptr_name(s@),
        },
{
    let len: usize = s.unicode_len();
    if len <= 4 {
        return None;
    }
    let suffix = s.substring_char(len - 4, len);
    if str_eq(suffix, "_ptr") {
        Some(String::from_str(s.substring_char(0, len - 4)))
    } else {
        None
    }
}

/// Strict lexicographic order on character sequences, by code point.
pub open spec fn lex_lt(a: Seq<char>, b: Seq<char>) -> bool
    decreases a.len(),
{
    if b.len() == 0 {
        false
    } else if a.len() == 0 {
        true
    } else if a[0] != b[0] {
        (a[0] as int) < (b[0] as int)
    } else {
        lex_lt(a.skip(1), b.skip(1))
    }
}

/// Result of a three-way string comparison.
#[derive(Clone, Copy, PartialEq, Eq, Structural, Debug)]
pub enum Cmp {
    Lt,
    Eq,
    Gt,
}

/// Compare two strings lexicographically by character code.
pub fn str_cmp(a: &str, b: &str) -> (r: Cmp)
    ensures
        (r == Cmp::Eq) <==> (a@ == b@),
        (r == Cmp::Lt) <==> lex_lt(a@, b@),
        (r == Cmp::Gt) <==> lex_lt(b@, a@),
{
    let alen: usize = a.unicode_len();
    let blen: usize = b.unicode_len();
    let mut i: usize = 0;
    proof {
        assert(a@.skip(0) =~= a@);
        assert(b@.skip(0) =~= b@);
    }
    while i < alen && i < blen
        invariant
            alen == a@.len(),
            blen == b@.len(),
            i <= alen,
            i <= blen,
            a@.take(i as int) =~= b@.take(i as int),
            lex_lt(a@, b@) == lex_lt(a@.skip(i as int), b@.skip(i as int)),
            lex_lt(b@, a@) == lex_lt(b@.skip(i as int), a@.skip(i as int)),
        decreases alen - i,
    {
        let ca = a.get_char(i);
        let cb = b.get_char(i);
        if ca != cb {
            proof {
                assert(a@.skip(i as int)[0] == a@[i as int]);
                assert(b@.skip(i as int)[0] == b@[i as int]);
                assert(a@[i as int] != b@[i as int] ==> a@ != b@);
            }
            if (ca as u32) < (cb as u32) {
                return Cmp::Lt;
            } else {
                return Cmp::Gt;
            }
        }
        proof {
            assert(a@.skip(i as int).skip(1) =~= a@.skip(i as int + 1));
            assert(b@.skip(i as int).skip(1) =~= b@.skip(i as int + 1));
            assert(a@.take(i as int).push(a@[i as int]) =~= a@.take(i as int + 1));
            assert(b@.take(i as int).push(b@[i as int]) =~= b@.take(i as int + 1));
        }
        i = i + 1;
    }
    if alen == blen {
        proof {
            assert(a@.take(i as int) =~= a@);
            assert(b@.take(i as int) =~= b@);
        }
        Cmp::Eq
    } else if alen < blen {
        proof {
            assert(a@.skip(i as int).len() == 0);
            assert(b@.skip(i as int).len() > 0);
            assert(a@.len() != b@.len() ==> a@ != b@);
        }
        Cmp::Lt
    } else {
        proof {
            assert(b@.skip(i as int).len() == 0);
            assert(a@.skip(i as int).len() > 0);
            assert(a@.len() != b@.len() ==> a@ != b@);
        }
        Cmp::Gt
    }
}

} // verus!
