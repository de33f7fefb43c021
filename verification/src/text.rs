//! Verified text helpers: decimal digits, number formatting and parsing,
//! and splitting a string on a separator character.

use vstd::prelude::*;
use vstd::string::*;

verus! {

/// `String::push` appends one character at the end of the string.
pub assume_specification[ String::push ](s: &mut String, ch: char)
    ensures
        final(s)@ == old(s)@.push(ch),
;

/// Is `c` a decimal digit?
pub open spec fn is_digit(c: char) -> bool {
    '0' <= c && c <= '9'
}

/// Numeric value of a decimal digit character.
pub open spec fn digit_val(c: char) -> nat {
    (c as int - '0' as int) as nat
}

/// The decimal digit character for `d` (meaningful for `d < 10`).
pub open spec fn digit_char(d: nat) -> char {
    ((d + ('0' as int)) as u8) as char
}

/// Does `s` consist of decimal digits only?
pub open spec fn all_digits(s: Seq<char>) -> bool {
    forall|i: int| 0 <= i < s.len() ==> is_digit(#[trigger] s[i])
}

/// Numeric value of a digit string, most significant digit first.
pub open spec fn digits_val(s: Seq<char>) -> nat
    decreases s.len(),
{
    if s.len() == 0 {
        0
    } else {
        digits_val(s.drop_last()) * 10 + digit_val(s.last())
    }
}

/// `10^n`.
pub open spec fn pow10(n: nat) -> nat
    decreases n,
{
    if n == 0 {
        1
    } else {
        10 * pow10((n - 1) as nat)
    }
}

/// A digit string of length `n` has a value below `10^n`.
pub proof fn lemma_digits_val_bound(s: Seq<char>)
    requires
        all_digits(s),
    ensures
        digits_val(s) < pow10(s.len()),
    decreases s.len(),
{
    if s.len() > 0 {
        lemma_digits_val_bound(s.drop_last());
        let v = digits_val(s.drop_last());
        let p = pow10((s.len() - 1) as nat);
        assert(digit_val(s.last()) <= 9);
        assert(v * 10 + 9 < p * 10) by (nonlinear_arith)
            requires
                v < p,
        ;
    }
}

/// Extending a digit string by one digit multiplies its value by ten.
pub proof fn lemma_digits_val_step(s: Seq<char>, i: int)
    requires
        0 <= i < s.len(),
    ensures
        digits_val(s.subrange(0, i + 1)) == digits_val(s.subrange(0, i)) * 10 + digit_val(s[i]),
{
    let t = s.subrange(0, i + 1);
    assert(t.drop_last() =~= s.subrange(0, i));
    assert(t.last() == s[i]);
}

/// Decimal representation of `n`, without sign or padding.
pub open spec fn dec_spec(n: nat) -> Seq<char>
    decreases n,
{
    if n < 10 {
        seq![digit_char(n)]
    } else {
        dec_spec(n / 10) + seq![digit_char(n % 10)]
    }
}

/// Pushes the digit character for `d` onto `s`.
fn push_digit(s: &mut String, d: u64)
    requires
        d < 10,
    ensures
        final(s)@ == old(s)@.push(digit_char(d as nat)),
{
    let c = (48 + d as u8) as char;
    assert(c == digit_char(d as nat));
    s.push(c);
}

/// Appends the decimal representation of `n` to `s`.
fn append_dec(s: &mut String, n: u64)
    ensures
        final(s)@ == old(s)@ + dec_spec(n as nat),
    decreases n,
{
    if n < 10 {
        push_digit(s, n);
        assert(s@ =~= old(s)@ + dec_spec(n as nat));
    } else {
        assert(n / 10 < n) by (nonlinear_arith)
            requires
                n >= 10,
        ;
        append_dec(s, n / 10);
        push_digit(s, n % 10);
        assert(s@ =~= old(s)@ + dec_spec(n as nat));
    }
}

/// Decimal representation of `n`.
pub fn u64_to_dec(n: u64) -> (r: String)
    ensures
        r@ == dec_spec(n as nat),
{
    let mut s = String::new();
    append_dec(&mut s, n);
    proof {
        assert(s@ =~= dec_spec(n as nat));
    }
    s
}

/// Decimal representation of a signed number: a leading minus sign
/// for a negative value, plain digits otherwise.
pub open spec fn int_dec_spec(n: int) -> Seq<char> {
    if n < 0 {
        seq!['-'] + dec_spec((-n) as nat)
    } else {
        dec_spec(n as nat)
    }
}

/// Decimal representation of a signed 32-bit number.
pub fn i32_to_dec(n: i32) -> (r: String)
    ensures
        r@ == int_dec_spec(n as int),
{
    let mut s = String::new();
    if n < 0 {
        s.push('-');
        let m: u64 = (-(n as i64)) as u64;
        append_dec(&mut s, m);
        assert(s@ =~= int_dec_spec(n as int));
    } else {
        append_dec(&mut s, n as u64);
    }
    s
}

/// Two decimal digits, zero-padded (for values below one hundred;
/// larger values keep their plain representation).
pub open spec fn pad2_spec(n: nat) -> Seq<char> {
    if n < 100 {
        seq![digit_char(n / 10), digit_char(n % 10)]
    } else {
        dec_spec(n)
    }
}

/// Appends the zero-padded two-digit representation of `n` to `s`.
pub fn append_pad2(s: &mut String, n: u32)
    ensures
        final(s)@ == old(s)@ + pad2_spec(n as nat),
{
    if n < 100 {
        push_digit(s, (n / 10) as u64);
        push_digit(s, (n % 10) as u64);
        assert(s@ =~= old(s)@ + pad2_spec(n as nat));
    } else {
        append_dec(s, n as u64);
    }
}

/// Four decimal digits, zero-padded (for values below ten thousand;
/// larger values keep their plain representation).
pub open spec fn pad4_spec(n: nat) -> Seq<char> {
    if n < 10000 {
        seq![
            digit_char(n / 1000),
            digit_char((n / 100) % 10),
            digit_char((n / 10) % 10),
            digit_char(n % 10),
        ]
    } else {
        dec_spec(n)
    }
}

/// Zero-padded representation of a year; a negative year keeps its sign.
pub open spec fn year_spec(y: int) -> Seq<char> {
    if y < 0 {
        seq!['-'] + pad4_spec((-y) as nat)
    } else {
        pad4_spec(y as nat)
    }
}

/// Appends the zero-padded representation of the year `y` to `s`.
pub fn append_year(s: &mut String, y: i32)
    ensures
        final(s)@ == old(s)@ + year_spec(y as int),
{
    let m: u32 = if y < 0 {
        (-(y as i64)) as u32
    } else {
        y as u32
    };
    if y < 0 {
        s.push('-');
    }
    if m < 10000 {
        push_digit(s, (m / 1000) as u64);
        push_digit(s, ((m / 100) % 10) as u64);
        push_digit(s, ((m / 10) % 10) as u64);
        push_digit(s, (m % 10) as u64);
    } else {
        append_dec(s, m as u64);
    }
    assert(s@ =~= old(s)@ + year_spec(y as int));
}

/// Parses a non-empty string of at most nine decimal digits.
/// Returns the numeric value, or `None` if any character is not a digit.
pub fn parse_digits(s: &str) -> (r: Option<u32>)
    requires
        1 <= s@.len() <= 9,
    ensures
        r matches Some(v) ==> all_digits(s@) && v == digits_val(s@),
        r is None ==> !all_digits(s@),
{
    let len = s.unicode_len();
    let mut acc: u32 = 0;
    let mut i: usize = 0;
    while i < len
        invariant
            0 <= i <= len == s@.len() <= 9,
            all_digits(s@.subrange(0, i as int)),
            acc == digits_val(s@.subrange(0, i as int)),
            acc < pow10(i as nat),
        decreases len - i,
    {
        let c = s.get_char(i);
        if !('0' <= c && c <= '9') {
            assert(!all_digits(s@)) by {
                assert(s@[i as int] == c && !is_digit(c));
            }
            return None;
        }
        proof {
            assert(pow10(i as nat) <= pow10(8)) by {
                lemma_pow10_mono(i as nat, 8);
            }
            assert(pow10(8) == 100000000) by {
                reveal_with_fuel(pow10, 9);
            }
            lemma_digits_val_step(s@, i as int);
            assert(acc * 10 + 9 < pow10((i + 1) as nat)) by (nonlinear_arith)
                requires
                    acc < pow10(i as nat) && pow10((i + 1) as nat) == 10 * pow10(i as nat),
            ;
        }
        let d: u32 = c as u32 - 48;
        acc = acc * 10 + d;
        i += 1;
        assert(s@.subrange(0, i as int).drop_last() =~= s@.subrange(0, i as int - 1));
    }
    proof {
        assert(s@.subrange(0, len as int) =~= s@);
    }
    Some(acc)
}

/// `10^n` does not decrease as `n` grows.
pub proof fn lemma_pow10_mono(m: nat, n: nat)
    requires
        m <= n,
    ensures
        pow10(m) <= pow10(n),
    decreases n,
{
    if m < n {
        lemma_pow10_mono(m, (n - 1) as nat);
    }
}

/// The value a string denotes under the rules of `str::parse::<i32>`:
/// an optional single sign, then one or more decimal digits, and the
/// resulting value must fit in a signed 32-bit integer; anything else
/// (including the empty string) denotes nothing.
pub open spec fn parse_i32_spec(s: Seq<char>) -> Option<i32> {
    if s.len() == 0 {
        None
    } else {
        let neg = s[0] == '-';
        let ds = if s[0] == '-' || s[0] == '+' {
            s.drop_first()
        } else {
            s
        };
        if ds.len() == 0 || !all_digits(ds) {
            None
        } else if neg && digits_val(ds) <= 0x8000_0000 {
            Some((-(digits_val(ds) as int)) as i32)
        } else if !neg && digits_val(ds) <= 0x7FFF_FFFF {
            Some(digits_val(ds) as i32)
        } else {
            None
        }
    }
}

/// Clamp used while accumulating a parsed value: anything at or above
/// this bound is already out of range for a 32-bit result.
pub open spec fn clamped(v: nat) -> nat {
    if v > 10_000_000_000 {
        10_000_000_000
    } else {
        v
    }
}

/// Parses a signed 32-bit integer exactly as `str::parse::<i32>` does:
/// an optional `+` or `-` sign followed by one or more decimal digits,
/// rejecting anything else and any value out of range.
pub fn parse_i32(s: &str) -> (r: Option<i32>)
    ensures
        r == parse_i32_spec(s@),
{
    let len = s.unicode_len();
    if len == 0 {
        return None;
    }
    let c0 = s.get_char(0);
    let neg = c0 == '-';
    let start: usize = if c0 == '-' || c0 == '+' {
        1
    } else {
        0
    };
    let ghost ds = s@.subrange(start as int, len as int);
    proof {
        if start == 1 {
            assert(ds =~= s@.drop_first());
        } else {
            assert(ds =~= s@);
        }
    }
    if start == len {
        return None;
    }
    let mut acc: u64 = 0;
    let mut i: usize = start;
    while i < len
        invariant
            start <= i <= len == s@.len(),
            1 <= len,
            start == (if s@[0] == '-' || s@[0] == '+' { 1int } else { 0int }),
            ds == (if s@[0] == '-' || s@[0] == '+' { s@.drop_first() } else { s@ }),
            ds == s@.subrange(start as int, len as int),
            all_digits(s@.subrange(start as int, i as int)),
            acc == clamped(digits_val(s@.subrange(start as int, i as int))),
        decreases len - i,
    {
        let c = s.get_char(i);
        if !('0' <= c && c <= '9') {
            proof {
                assert(ds[i as int - start as int] == c && !is_digit(c));
            }
            return None;
        }
        let d: u32 = c as u32 - 48;
        proof {
            let p = s@.subrange(start as int, i as int);
            let q = s@.subrange(start as int, i as int + 1);
            assert(q.drop_last() =~= p);
            assert(q.last() == c);
            let v = digits_val(p);
            let dv = digit_val(c);
            if v > 10_000_000_000 {
                assert(v * 10 >= v) by (nonlinear_arith);
                assert(clamped(clamped(v) * 10 + dv) == clamped(v * 10 + dv));
            } else {
                assert(clamped(clamped(v) * 10 + dv) == clamped(v * 10 + dv));
            }
        }
        acc = acc * 10 + d as u64;
        if acc > 10_000_000_000 {
            acc = 10_000_000_000;
        }
        i += 1;
    }
    proof {
        assert(s@.subrange(start as int, len as int) =~= ds);
    }
    if neg {
        if acc <= 0x8000_0000 {
            Some((-(acc as i64)) as i32)
        } else {
            None
        }
    } else {
        if acc <= 0x7FFF_FFFF {
            Some(acc as i32)
        } else {
            None
        }
    }
}

/// The tokens of `s` delimited by `sep`: one more token than there are
/// separators, in order, each without the separator itself.
pub open spec fn split_spec(s: Seq<char>, sep: char) -> Seq<Seq<char>>
    decreases s.len(),
{
    if s.len() == 0 {
        seq![Seq::<char>::empty()]
    } else if s[0] == sep {
        seq![Seq::<char>::empty()] + split_spec(s.drop_first(), sep)
    } else {
        let rest = split_spec(s.drop_first(), sep);
        seq![seq![s[0]] + rest[0]] + rest.drop_first()
    }
}

/// Splitting always yields at least one token.
pub proof fn lemma_split_nonempty(s: Seq<char>, sep: char)
    ensures
        split_spec(s, sep).len() >= 1,
    decreases s.len(),
{
    if s.len() > 0 {
        lemma_split_nonempty(s.drop_first(), sep);
    }
}

/// A string without the separator is a single token.
proof fn lemma_split_no_sep(s: Seq<char>, sep: char)
    requires
        forall|i: int| 0 <= i < s.len() ==> s[i] != sep,
    ensures
        split_spec(s, sep) == seq![s],
    decreases s.len(),
{
    if s.len() == 0 {
        assert(s =~= Seq::<char>::empty());
        assert(split_spec(s, sep) =~= seq![s]);
    } else {
        lemma_split_no_sep(s.drop_first(), sep);
        lemma_split_nonempty(s.drop_first(), sep);
        let rest = split_spec(s.drop_first(), sep);
        assert(rest[0] == s.drop_first());
        assert(seq![s[0]] + s.drop_first() =~= s);
        assert(rest.drop_first() =~= Seq::<Seq<char>>::empty());
        assert(split_spec(s, sep) =~= seq![s]);
    }
}

/// Splitting at the first separator: the head token is everything before
/// it, and the rest is the split of everything after it.
proof fn lemma_split_at_first_sep(s: Seq<char>, sep: char, k: int)
    requires
        0 <= k < s.len(),
        s[k] == sep,
        forall|i: int| 0 <= i < k ==> s[i] != sep,
    ensures
        split_spec(s, sep) == seq![s.subrange(0, k)] + split_spec(
            s.subrange(k + 1, s.len() as int),
            sep,
        ),
    decreases k,
{
    if k == 0 {
        assert(s.subrange(0, 0) =~= Seq::<char>::empty());
        assert(s.subrange(1, s.len() as int) =~= s.drop_first());
        assert(split_spec(s, sep) =~= seq![s.subrange(0, 0)] + split_spec(
            s.subrange(1, s.len() as int),
            sep,
        ));
    } else {
        let t = s.drop_first();
        assert(t[k - 1] == sep);
        lemma_split_at_first_sep(t, sep, k - 1);
        lemma_split_nonempty(t.subrange(k, t.len() as int), sep);
        let rest = split_spec(t, sep);
        assert(rest[0] == t.subrange(0, k - 1));
        assert(seq![s[0]] + t.subrange(0, k - 1) =~= s.subrange(0, k));
        assert(rest.drop_first() =~= split_spec(t.subrange(k, t.len() as int), sep));
        assert(t.subrange(k, t.len() as int) =~= s.subrange(k + 1, s.len() as int));
        assert(split_spec(s, sep) =~= seq![s.subrange(0, k)] + split_spec(
            s.subrange(k + 1, s.len() as int),
            sep,
        ));
    }
}

/// Splits `s` on every occurrence of `sep`, in order.
pub fn split_char(s: &str, sep: char) -> (r: Vec<String>)
    ensures
        r.deep_view() == split_spec(s@, sep),
        r@.len() >= 1,
{
    let len = s.unicode_len();
    let mut parts: Vec<String> = Vec::new();
    proof {
        assert(s@.subrange(0, len as int) =~= s@);
        assert(parts.deep_view() =~= Seq::<Seq<char>>::empty());
    }
    let mut start: usize = 0;
    let mut i: usize = 0;
    while i < len
        invariant
            0 <= start <= i <= len == s@.len(),
            forall|j: int| start <= j < i ==> s@[j] != sep,
            split_spec(s@, sep) == parts.deep_view() + split_spec(
                s@.subrange(start as int, len as int),
                sep,
            ),
        decreases len - i,
    {
        if s.get_char(i) == sep {
            let tok = s.substring_char(start, i).to_owned();
            proof {
                let sub = s@.subrange(start as int, len as int);
                assert(sub[i - start] == sep);
                assert(forall|j: int| 0 <= j < i - start ==> sub[j] != sep);
                lemma_split_at_first_sep(sub, sep, i - start);
                assert(sub.subrange(0, i - start) =~= s@.subrange(start as int, i as int));
                assert(sub.subrange(i - start + 1, sub.len() as int) =~= s@.subrange(
                    i as int + 1,
                    len as int,
                ));
            }
            let ghost old_parts = parts;
            parts.push(tok);
            proof {
                assert(parts.deep_view() =~= old_parts.deep_view() + seq![tok@]);
                assert(split_spec(s@, sep) =~= parts.deep_view() + split_spec(
                    s@.subrange(i as int + 1, len as int),
                    sep,
                ));
            }
            start = i + 1;
        }
        i += 1;
    }
    let tok = s.substring_char(start, len).to_owned();
    proof {
        lemma_split_no_sep(s@.subrange(start as int, len as int), sep);
    }
    let ghost old_parts = parts;
    parts.push(tok);
    proof {
        assert(parts.deep_view() =~= old_parts.deep_view() + seq![tok@]);
        assert(parts.deep_view() =~= split_spec(s@, sep));
    }
    parts
}

/// Does `s` begin with the characters of `p`?
pub fn has_prefix(s: &str, p: &str) -> (r: bool)
    ensures
        r == (p@.len() <= s@.len() && s@.subrange(0, p@.len() as int) == p@),
{
    let sl = s.unicode_len();
    let pl = p.unicode_len();
    if pl > sl {
        return false;
    }
    let mut i: usize = 0;
    while i < pl
        invariant
            0 <= i <= pl == p@.len() <= sl == s@.len(),
            forall|j: int| 0 <= j < i ==> s@[j] == p@[j],
        decreases pl - i,
    {
        if s.get_char(i) != p.get_char(i) {
            assert(s@.subrange(0, p@.len() as int) != p@) by {
                assert(s@.subrange(0, p@.len() as int)[i as int] != p@[i as int]);
            }
            return false;
        }
        i += 1;
    }
    proof {
        assert(s@.subrange(0, p@.len() as int) =~= p@);
    }
    true
}

} // verus!
