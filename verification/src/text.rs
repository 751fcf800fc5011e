//! Small helpers for strings and decimal numbers.

use vstd::prelude::*;

verus! {

/// Relies on `str`'s `PartialEq` implementation: two string slices are equal
/// exactly when they consist of the same characters.
#[verifier::external_body]
pub fn str_eq(a: &str, b: &str) -> (r: bool)
    ensures
        r == (a@ == b@),
{
    a == b
}

/// A sequence of string pairs, as specification-level pairs of character
/// sequences.
pub open spec fn view_pairs(h: Seq<(String, String)>) -> Seq<(Seq<char>, Seq<char>)> {
    h.map_values(|p: (String, String)| (p.0@, p.1@))
}

/// A sequence of strings, as specification-level character sequences.
pub open spec fn view_strings(v: Seq<String>) -> Seq<Seq<char>> {
    v.map_values(|s: String| s@)
}

/// An optional string, as an optional specification-level character
/// sequence.
pub open spec fn view_opt_string(v: Option<String>) -> Option<Seq<char>> {
    match v {
        Some(s) => Some(s@),
        None => None,
    }
}

/// The decimal digit for a value below ten.
pub open spec fn spec_digit(d: nat) -> char {
    if d == 0 {
        '0'
    } else if d == 1 {
        '1'
    } else if d == 2 {
        '2'
    } else if d == 3 {
        '3'
    } else if d == 4 {
        '4'
    } else if d == 5 {
        '5'
    } else if d == 6 {
        '6'
    } else if d == 7 {
        '7'
    } else if d == 8 {
        '8'
    } else {
        '9'
    }
}

/// The decimal rendering of a natural number, most significant digit first.
pub open spec fn spec_dec(n: nat) -> Seq<char>
    decreases n,
{
    if n < 10 {
        seq![spec_digit(n)]
    } else {
        spec_dec(n / 10) + seq![spec_digit(n % 10)]
    }
}

/// Append the decimal rendering of `n` to `out`.
fn push_dec_digits(n: u64, out: &mut Vec<char>)
    ensures
        final(out)@ == old(out)@ + spec_dec(n as nat),
    decreases n,
{
    if n < 10 {
        out.push(digit_char(n));
    } else {
        push_dec_digits(n / 10, out);
        out.push(digit_char(n % 10));
    }
}

/// The decimal digit character for a value below ten.
fn digit_char(d: u64) -> (c: char)
    requires
        d < 10,
    ensures
        c == spec_digit(d as nat),
{
    if d == 0 {
        '0'
    } else if d == 1 {
        '1'
    } else if d == 2 {
        '2'
    } else if d == 3 {
        '3'
    } else if d == 4 {
        '4'
    } else if d == 5 {
        '5'
    } else if d == 6 {
        '6'
    } else if d == 7 {
        '7'
    } else if d == 8 {
        '8'
    } else {
        '9'
    }
}

/// Render a number in decimal.
pub fn fmt_u64(n: u64) -> (r: String)
    ensures
        r@ == spec_dec(n as nat),
{
    let mut digits: Vec<char> = Vec::new();
    push_dec_digits(n, &mut digits);
    chars_to_string(&digits)
}

/// Relies on `String`'s `FromIterator<char>` implementation: collecting
/// characters yields the string of exactly those characters in order.
#[verifier::external_body]
pub fn chars_to_string(chars: &Vec<char>) -> (r: String)
    ensures
        r@ == chars@,
{
    chars.iter().collect()
}

/// A run of `k` zero characters.
pub open spec fn spec_zeros(k: nat) -> Seq<char>
    decreases k,
{
    if k == 0 {
        Seq::empty()
    } else {
        seq!['0'] + spec_zeros((k - 1) as nat)
    }
}

/// A run of zeros is all zeros.
proof fn lemma_zeros(k: nat)
    ensures
        spec_zeros(k).len() == k,
        forall|j: int| 0 <= j < k ==> #[trigger] spec_zeros(k)[j] == '0',
    decreases k,
{
    if k > 0 {
        lemma_zeros((k - 1) as nat);
    }
}

/// The decimal rendering of a natural number, padded with leading zeros to
/// at least `w` characters.
pub open spec fn spec_pad_dec(n: nat, w: nat) -> Seq<char> {
    if spec_dec(n).len() >= w {
        spec_dec(n)
    } else {
        spec_zeros((w - spec_dec(n).len()) as nat) + spec_dec(n)
    }
}

/// Render a number in decimal, padded with leading zeros to at least
/// `width` characters.
pub fn fmt_u64_pad(n: u64, width: usize) -> (r: String)
    ensures
        r@ == spec_pad_dec(n as nat, width as nat),
{
    let digits = fmt_u64(n);
    let dlen = digits.as_str().unicode_len();
    if dlen >= width {
        return digits;
    }
    let mut out: Vec<char> = Vec::new();
    let mut i: usize = 0;
    while i < width - dlen
        invariant
            dlen == spec_dec(n as nat).len(),
            dlen < width,
            0 <= i <= width - dlen,
            out@ == spec_zeros(i as nat),
        decreases width - dlen - i,
    {
        out.push('0');
        proof {
            lemma_zeros(i as nat);
            lemma_zeros((i + 1) as nat);
            assert(out@ =~= spec_zeros((i + 1) as nat));
        }
        i = i + 1;
    }
    let mut s = chars_to_string(&out);
    s.append(digits.as_str());
    s
}

/// Render a civil date and time of day as an ISO-8601 UTC timestamp,
/// `YYYY-MM-DDTHH:MM:SSZ`, each field zero-padded to its width. The caller
/// supplies the fields; nothing here decides what day it is.
pub fn iso8601_from_fields(
    year: u64,
    month: u64,
    day: u64,
    hour: u64,
    minute: u64,
    second: u64,
) -> (r: String)
    ensures
        r@ == spec_pad_dec(year as nat, 4) + "-"@ + spec_pad_dec(month as nat, 2) + "-"@
            + spec_pad_dec(day as nat, 2) + "T"@ + spec_pad_dec(hour as nat, 2) + ":"@
            + spec_pad_dec(minute as nat, 2) + ":"@ + spec_pad_dec(second as nat, 2) + "Z"@,
{
    let mut s = fmt_u64_pad(year, 4);
    s.append("-");
    s.append(fmt_u64_pad(month, 2).as_str());
    s.append("-");
    s.append(fmt_u64_pad(day, 2).as_str());
    s.append("T");
    s.append(fmt_u64_pad(hour, 2).as_str());
    s.append(":");
    s.append(fmt_u64_pad(minute, 2).as_str());
    s.append(":");
    s.append(fmt_u64_pad(second, 2).as_str());
    s.append("Z");
    s
}

/// The numeric value of a decimal digit character, if it is one.
pub open spec fn spec_digit_val(c: char) -> Option<nat> {
    if c == '0' {
        Some(0nat)
    } else if c == '1' {
        Some(1nat)
    } else if c == '2' {
        Some(2nat)
    } else if c == '3' {
        Some(3nat)
    } else if c == '4' {
        Some(4nat)
    } else if c == '5' {
        Some(5nat)
    } else if c == '6' {
        Some(6nat)
    } else if c == '7' {
        Some(7nat)
    } else if c == '8' {
        Some(8nat)
    } else if c == '9' {
        Some(9nat)
    } else {
        None
    }
}

/// The value of a sequence of decimal digit characters, or `None` if the
/// sequence is empty or holds a character that is not a digit.
pub open spec fn spec_dec_val(s: Seq<char>) -> Option<nat>
    decreases s.len(),
{
    if s.len() == 0 {
        None
    } else if s.len() == 1 {
        spec_digit_val(s[0])
    } else {
        match (spec_dec_val(s.drop_last()), spec_digit_val(s.last())) {
            (Some(hi), Some(lo)) => Some(hi * 10 + lo),
            _ => None,
        }
    }
}

/// Parse a sequence of decimal digit characters as a number.
///
/// Returns `None` exactly when the input is empty, holds a non-digit
/// character, or denotes a value that does not fit in a `u64`.
pub fn parse_u64(chars: &Vec<char>) -> (r: Option<u64>)
    ensures
        match r {
            Some(n) => spec_dec_val(chars@) == Some(n as nat),
            None => match spec_dec_val(chars@) {
                Some(v) => v > u64::MAX,
                None => true,
            },
        },
{
    if chars.len() == 0 {
        return None;
    }
    let mut acc: u64 = 0;
    let mut i: usize = 0;
    while i < chars.len()
        invariant
            0 <= i <= chars@.len(),
            i > 0 ==> spec_dec_val(chars@.take(i as int)) == Some(acc as nat),
            i == 0 ==> acc == 0,
            chars@.len() > 0,
        decreases chars@.len() - i,
    {
        let c = chars[i];
        let d: u64 = match digit_val(c) {
            Some(d) => d,
            None => {
                proof {
                    lemma_dec_val_bad_digit(chars@, i as int);
                    assert(chars@.take(chars@.len() as int) =~= chars@);
                }
                return None;
            },
        };
        if acc > (u64::MAX - d) / 10 {
            proof {
                lemma_dec_val_grows(chars@, i as int, acc as nat, d as nat);
                assert(chars@.take(chars@.len() as int) =~= chars@);
            }
            return None;
        }
        let new_acc: u64 = acc * 10 + d;
        proof {
            assert(chars@.take(i as int + 1).drop_last() =~= chars@.take(i as int));
            assert(chars@.take(i as int + 1).last() == chars@[i as int]);
        }
        acc = new_acc;
        i = i + 1;
    }
    proof {
        assert(chars@.take(chars@.len() as int) =~= chars@);
    }
    Some(acc)
}

/// The numeric value of a decimal digit character.
fn digit_val(c: char) -> (r: Option<u64>)
    ensures
        match r {
            Some(d) => spec_digit_val(c) == Some(d as nat) && d < 10,
            None => spec_digit_val(c) is None,
        },
{
    if c == '0' {
        Some(0)
    } else if c == '1' {
        Some(1)
    } else if c == '2' {
        Some(2)
    } else if c == '3' {
        Some(3)
    } else if c == '4' {
        Some(4)
    } else if c == '5' {
        Some(5)
    } else if c == '6' {
        Some(6)
    } else if c == '7' {
        Some(7)
    } else if c == '8' {
        Some(8)
    } else if c == '9' {
        Some(9)
    } else {
        None
    }
}

/// The lowercase hexadecimal digit for a value below sixteen.
pub open spec fn spec_hex_digit(d: nat) -> char {
    if d == 10 {
        'a'
    } else if d == 11 {
        'b'
    } else if d == 12 {
        'c'
    } else if d == 13 {
        'd'
    } else if d == 14 {
        'e'
    } else if d == 15 {
        'f'
    } else {
        spec_digit(d)
    }
}

/// The lowercase hexadecimal digit character for a value below sixteen.
fn hex_digit_char(d: u32) -> (c: char)
    requires
        d < 16,
    ensures
        c == spec_hex_digit(d as nat),
{
    if d == 10 {
        'a'
    } else if d == 11 {
        'b'
    } else if d == 12 {
        'c'
    } else if d == 13 {
        'd'
    } else if d == 14 {
        'e'
    } else if d == 15 {
        'f'
    } else {
        digit_char(d as u64)
    }
}

/// How one character is written inside a JSON string literal: quotes,
/// backslashes and control characters are escaped, everything else stands
/// for itself.
pub open spec fn spec_escape_char(c: char) -> Seq<char> {
    if c == '"' {
        seq!['\\', '"']
    } else if c == '\\' {
        seq!['\\', '\\']
    } else if c == '\n' {
        seq!['\\', 'n']
    } else if c == '\r' {
        seq!['\\', 'r']
    } else if c == '\t' {
        seq!['\\', 't']
    } else if (c as u32) < 32 {
        seq!['\\', 'u', '0', '0', spec_hex_digit((c as u32 / 16) as nat), spec_hex_digit(
            (c as u32 % 16) as nat,
        )]
    } else {
        seq![c]
    }
}

/// The body of a JSON string literal denoting a character sequence.
pub open spec fn spec_json_escape(s: Seq<char>) -> Seq<char>
    decreases s.len(),
{
    if s.len() == 0 {
        Seq::empty()
    } else {
        spec_json_escape(s.drop_last()) + spec_escape_char(s.last())
    }
}

/// A JSON string literal denoting a character sequence, quotes included.
pub open spec fn spec_json_string(s: Seq<char>) -> Seq<char> {
    seq!['"'] + spec_json_escape(s) + seq!['"']
}

/// Escape a string for use inside a JSON string literal.
pub fn json_escape(s: &str) -> (r: String)
    ensures
        r@ == spec_json_escape(s@),
{
    let n = s.unicode_len();
    let mut out: Vec<char> = Vec::new();
    let mut i: usize = 0;
    while i < n
        invariant
            0 <= i <= n,
            n == s@.len(),
            out@ == spec_json_escape(s@.take(i as int)),
        decreases n - i,
    {
        let c = s.get_char(i);
        if c == '"' {
            out.push('\\');
            out.push('"');
        } else if c == '\\' {
            out.push('\\');
            out.push('\\');
        } else if c == '\n' {
            out.push('\\');
            out.push('n');
        } else if c == '\r' {
            out.push('\\');
            out.push('r');
        } else if c == '\t' {
            out.push('\\');
            out.push('t');
        } else if (c as u32) < 32 {
            out.push('\\');
            out.push('u');
            out.push('0');
            out.push('0');
            out.push(hex_digit_char(c as u32 / 16));
            out.push(hex_digit_char(c as u32 % 16));
        } else {
            out.push(c);
        }
        proof {
            assert(s@.take(i as int + 1).drop_last() =~= s@.take(i as int));
            assert(s@.take(i as int + 1).last() == s@[i as int]);
        }
        i = i + 1;
    }
    proof {
        assert(s@.take(n as int) =~= s@);
    }
    chars_to_string(&out)
}

/// Render a string as a JSON string literal, quotes included.
pub fn json_string(s: &str) -> (r: String)
    ensures
        r@ == spec_json_string(s@),
{
    let mut out: Vec<char> = Vec::new();
    out.push('"');
    let escaped = json_escape(s);
    append_chars(&mut out, escaped.as_str());
    out.push('"');
    proof {
        assert(out@ =~= spec_json_string(s@));
    }
    chars_to_string(&out)
}

/// Append every character of a string to a vector of characters.
fn append_chars(out: &mut Vec<char>, s: &str)
    ensures
        final(out)@ == old(out)@ + s@,
{
    let n = s.unicode_len();
    let mut i: usize = 0;
    while i < n
        invariant
            0 <= i <= n,
            n == s@.len(),
            out@ == old(out)@ + s@.take(i as int),
        decreases n - i,
    {
        out.push(s.get_char(i));
        proof {
            assert(s@.take(i as int + 1) =~= s@.take(i as int).push(s@[i as int]));
        }
        i = i + 1;
    }
    proof {
        assert(s@.take(n as int) =~= s@);
    }
}

/// A sequence with a non-digit character at position `i` has no decimal value.
proof fn lemma_dec_val_bad_digit(s: Seq<char>, i: int)
    requires
        0 <= i < s.len(),
        spec_digit_val(s[i]) is None,
    ensures
        forall|j: int| i < j <= s.len() ==> spec_dec_val(#[trigger] s.take(j)) is None,
    decreases s.len(),
{
    assert forall|j: int| i < j <= s.len() implies spec_dec_val(#[trigger] s.take(j)) is None by {
        lemma_dec_val_bad_digit_one(s, i, j);
    }
}

proof fn lemma_dec_val_bad_digit_one(s: Seq<char>, i: int, j: int)
    requires
        0 <= i < j <= s.len(),
        spec_digit_val(s[i]) is None,
    ensures
        spec_dec_val(s.take(j)) is None,
    decreases j,
{
    let t = s.take(j);
    if j == i + 1 {
        if t.len() == 1 {
        } else {
            assert(t.last() == s[i]);
        }
    } else {
        lemma_dec_val_bad_digit_one(s, i, j - 1);
        assert(t.drop_last() =~= s.take(j - 1));
        if t.len() == 1 {
            assert(j == 1 && i < 0);
        }
    }
}

/// A longer digit prefix denotes a value at least as large as ten times the
/// shorter one.
proof fn lemma_dec_val_grows(s: Seq<char>, i: int, acc: nat, d: nat)
    requires
        0 <= i < s.len(),
        i > 0 ==> spec_dec_val(s.take(i)) == Some(acc),
        i == 0 ==> acc == 0,
        spec_digit_val(s[i]) == Some(d),
        acc * 10 + d > u64::MAX,
    ensures
        forall|j: int|
            i < j <= s.len() ==> (spec_dec_val(#[trigger] s.take(j)) matches Some(v) ==> v
                > u64::MAX),
    decreases s.len(),
{
    assert forall|j: int|
        i < j <= s.len() && spec_dec_val(#[trigger] s.take(j)) is Some implies spec_dec_val(
        s.take(j),
    )->Some_0 > u64::MAX by {
        lemma_dec_val_grows_one(s, i, acc, d, j);
    }
}

proof fn lemma_dec_val_grows_one(s: Seq<char>, i: int, acc: nat, d: nat, j: int)
    requires
        0 <= i < j <= s.len(),
        i > 0 ==> spec_dec_val(s.take(i)) == Some(acc),
        i == 0 ==> acc == 0,
        spec_digit_val(s[i]) == Some(d),
        acc * 10 + d > u64::MAX,
        spec_dec_val(s.take(j)) is Some,
    ensures
        spec_dec_val(s.take(j))->Some_0 > u64::MAX,
    decreases j,
{
    let t = s.take(j);
    if j == i + 1 {
        if t.len() == 1 {
            assert(i == 0);
            assert(t[0] == s[i]);
        } else {
            assert(t.drop_last() =~= s.take(i));
            assert(t.last() == s[i]);
        }
    } else {
        assert(t.drop_last() =~= s.take(j - 1));
        assert(t.len() > 1) by {
            assert(j >= i + 2 >= 2);
        }
        lemma_dec_val_grows_one(s, i, acc, d, j - 1);
        let hi = spec_dec_val(s.take(j - 1))->Some_0;
        let lo = spec_digit_val(t.last())->Some_0;
        assert(spec_dec_val(t)->Some_0 == hi * 10 + lo);
        assert(hi * 10 >= hi) by (nonlinear_arith)
            requires hi >= 0,
        ;
        assert(hi * 10 + lo > u64::MAX) by (nonlinear_arith)
            requires hi > u64::MAX, lo >= 0,
        ;
    }
}

} // verus!
