//! Reading and writing numbers as text.
use vstd::prelude::*;

verus! {

/// `char::to_digit`: the value of a digit in the given radix (at most 36).
pub open spec fn digit_of(c: char, radix: nat) -> Option<nat> {
    let v: int = if '0' <= c <= '9' {
        c as int - '0' as int
    } else if 'a' <= c <= 'z' {
        c as int - 'a' as int + 10
    } else if 'A' <= c <= 'Z' {
        c as int - 'A' as int + 10
    } else {
        99
    };
    if 0 <= v < radix { Some(v as nat) } else { None }
}

/// Whether every character is a digit in the radix.
pub open spec fn all_digits(s: Seq<char>, radix: nat) -> bool {
    forall|i: int| 0 <= i < s.len() ==> (#[trigger] digit_of(s[i], radix)) is Some
}

/// The value of a string of digits.
pub open spec fn digits_value(s: Seq<char>, radix: nat) -> nat
    decreases s.len(),
{
    if s.len() == 0 {
        0
    } else {
        digits_value(s.drop_last(), radix) * radix + digit_of(s.last(), radix).unwrap_or(0)
    }
}

/// `from_str_radix` for an unsigned type whose largest value is `max`: an optional
/// `+` followed by at least one digit, with a value no greater than `max`.
pub open spec fn parse_unsigned_spec(s: Seq<char>, radix: nat, max: nat) -> Option<nat> {
    let digits = if s.len() > 1 && s[0] == '+' { s.drop_first() } else { s };
    if s.len() == 0 || s =~= seq!['+'] || !all_digits(digits, radix) || digits_value(digits, radix) > max {
        None
    } else {
        Some(digits_value(digits, radix))
    }
}

/// `i32::from_str`: an optional sign followed by at least one decimal digit, with a
/// value in the range of `i32`.
pub open spec fn parse_i32_spec(s: Seq<char>) -> Option<int> {
    if s.len() > 1 && s[0] == '-' {
        let digits = s.drop_first();
        if !all_digits(digits, 10) || digits_value(digits, 10) > 0x8000_0000 {
            None
        } else {
            Some(-(digits_value(digits, 10) as int))
        }
    } else if s.len() == 1 && s[0] == '-' {
        None
    } else {
        match parse_unsigned_spec(s, 10, 0x7fff_ffff) {
            Some(v) => Some(v as int),
            None => None,
        }
    }
}

/// The value of one digit character.
pub fn digit_value(c: char, radix: u32) -> (r: Option<u32>)
    requires
        2 <= radix <= 36,
    ensures
        r matches Some(v) ==> digit_of(c, radix as nat) == Some(v as nat),
        r is None ==> digit_of(c, radix as nat) is None,
{
    let v: u32 = if '0' <= c && c <= '9' {
        (c as u32) - ('0' as u32)
    } else if 'a' <= c && c <= 'z' {
        (c as u32) - ('a' as u32) + 10
    } else if 'A' <= c && c <= 'Z' {
        (c as u32) - ('A' as u32) + 10
    } else {
        99
    };
    if v < radix { Some(v) } else { None }
}

proof fn lemma_digits_value_prefix(s: Seq<char>, radix: nat, i: int)
    requires
        radix >= 1,
        0 <= i <= s.len(),
    ensures
        digits_value(s.take(i), radix) <= digits_value(s, radix),
    decreases s.len() - i,
{
    if i < s.len() {
        lemma_digits_value_prefix(s, radix, i + 1);
        assert(s.take(i + 1).drop_last() =~= s.take(i));
        let a = digits_value(s.take(i), radix);
        assert(a <= a * radix) by (nonlinear_arith) requires radix >= 1;
    } else {
        assert(s.take(i) =~= s);
    }
}

/// Parses the digits `v[from..]` in the radix, failing on a non-digit or on a value
/// above `max`.
fn parse_digits(v: &Vec<char>, from: usize, radix: u32, max: u64) -> (r: Option<u64>)
    requires
        2 <= radix <= 36,
        from <= v@.len(),
    ensures
        r matches Some(x) ==> all_digits(v@.skip(from as int), radix as nat)
            && digits_value(v@.skip(from as int), radix as nat) == x && x <= max,
        r is None ==> !all_digits(v@.skip(from as int), radix as nat)
            || digits_value(v@.skip(from as int), radix as nat) > max,
{
    let ghost s = v@.skip(from as int);
    let mut acc: u64 = 0;
    let mut i: usize = from;
    assert(s.take(0) =~= Seq::<char>::empty());
    while i < v.len()
        invariant
            from <= i <= v@.len(),
            s == v@.skip(from as int),
            2 <= radix <= 36,
            acc <= max,
            all_digits(s.take(i - from), radix as nat),
            digits_value(s.take(i - from), radix as nat) == acc,
        decreases v@.len() - i,
    {
        let k = i - from;
        assert(s.take(k + 1).drop_last() =~= s.take(k as int));
        assert(s.take(k + 1).last() == v@[i as int]);
        match digit_value(v[i], radix) {
            None => {
                assert(digit_of(s[k as int], radix as nat) is None);
                return None;
            },
            Some(d) => {
                let next = match acc.checked_mul(radix as u64) {
                    Some(x) => x.checked_add(d as u64),
                    None => None,
                };
                match next {
                    Some(x) => {
                        if x > max {
                            proof {
                                if all_digits(s, radix as nat) {
                                    lemma_digits_value_prefix(s, radix as nat, k + 1);
                                }
                            }
                            return None;
                        }
                        proof {
                            assert forall|j: int| 0 <= j < k + 1 implies
                                (#[trigger] digit_of(s.take(k + 1)[j], radix as nat)) is Some by {
                                if j < k { assert(s.take(k + 1)[j] == s.take(k as int)[j]); }
                            }
                        }
                        acc = x;
                    },
                    None => {
                        proof {
                            assert(acc * radix + d > u64::MAX);
                            if all_digits(s, radix as nat) {
                                lemma_digits_value_prefix(s, radix as nat, k + 1);
                            }
                        }
                        return None;
                    },
                }
            },
        }
        i = i + 1;
    }
    assert(s.take(i - from) =~= s);
    Some(acc)
}

/// `from_str_radix` into an unsigned type whose largest value is `max`.
pub fn parse_unsigned(v: &Vec<char>, radix: u32, max: u64) -> (r: Option<u64>)
    requires
        2 <= radix <= 36,
    ensures
        r matches Some(x) ==> parse_unsigned_spec(v@, radix as nat, max as nat) == Some(x as nat),
        r is None ==> parse_unsigned_spec(v@, radix as nat, max as nat) is None,
{
    if v.len() == 0 {
        return None;
    }
    if v.len() == 1 && v[0] == '+' {
        assert(v@ =~= seq!['+']);
        return None;
    }
    proof {
        if v@ =~= seq!['+'] { assert(v@[0] == '+'); }
    }
    let from: usize = if v.len() > 1 && v[0] == '+' { 1 } else { 0 };
    assert(v@.skip(0) =~= v@);
    parse_digits(v, from, radix, max)
}

/// `i32::from_str`.
pub fn parse_i32(v: &Vec<char>) -> (r: Option<i32>)
    ensures
        r matches Some(x) ==> parse_i32_spec(v@) == Some(x as int),
        r is None ==> parse_i32_spec(v@) is None,
{
    if v.len() > 1 && v[0] == '-' {
        match parse_digits(v, 1, 10, 0x8000_0000) {
            Some(m) => {
                assert(v@.skip(1) =~= v@.drop_first());
                if m == 0x8000_0000 {
                    Some(i32::MIN)
                } else {
                    Some(-(m as i32))
                }
            },
            None => {
                assert(v@.skip(1) =~= v@.drop_first());
                None
            },
        }
    } else if v.len() == 1 && v[0] == '-' {
        None
    } else {
        match parse_unsigned(v, 10, 0x7fff_ffff) {
            Some(x) => Some(x as i32),
            None => None,
        }
    }
}

/// The character of a digit below sixteen, upper or lower case.
pub open spec fn digit_char(d: nat, upper: bool) -> char {
    if d < 10 {
        ('0' as u32 + d) as char
    } else if upper {
        ('A' as u32 + d - 10) as char
    } else {
        ('a' as u32 + d - 10) as char
    }
}

/// The digits of `n` in the radix (10 or 16), most significant first, without
/// leading zeros (zero is `0`).
pub open spec fn digits_of(n: nat, radix: nat, upper: bool) -> Seq<char>
    decreases n,
{
    if radix < 2 || n < radix {
        seq![digit_char(n, upper)]
    } else {
        proof {
            vstd::arithmetic::div_mod::lemma_div_decreases(n as int, radix as int);
        }
        digits_of(n / radix, radix, upper).push(digit_char(n % radix, upper))
    }
}

/// The digit character of a digit reads back as that digit.
proof fn lemma_digit_char_value(d: nat, radix: nat, upper: bool)
    requires
        d < radix <= 16,
    ensures
        digit_of(digit_char(d, upper), radix) == Some(d),
        digit_char(d, upper) != '+',
{
    if d < 10 {
        assert(('0' as u32 + d) as char as int == '0' as int + d);
    } else if upper {
        assert(('A' as u32 + d - 10) as char as int == 'A' as int + d - 10);
    } else {
        assert(('a' as u32 + d - 10) as char as int == 'a' as int + d - 10);
    }
}

/// The digits of a number read back as that number.
pub proof fn lemma_digits_of_value(n: nat, radix: nat, upper: bool)
    requires
        radix == 10 || radix == 16,
    ensures
        all_digits(digits_of(n, radix, upper), radix),
        digits_value(digits_of(n, radix, upper), radix) == n,
        digits_of(n, radix, upper).len() > 0,
        digits_of(n, radix, upper)[0] != '+',
    decreases n,
{
    let s = digits_of(n, radix, upper);
    if n < radix {
        lemma_digit_char_value(n, radix, upper);
        assert(s.drop_last() =~= Seq::<char>::empty());
        assert(s.last() == digit_char(n, upper));
        assert(digits_value(s.drop_last(), radix) == 0);
        assert(0 * radix == 0);
    } else {
        vstd::arithmetic::div_mod::lemma_div_decreases(n as int, radix as int);
        let p = digits_of(n / radix, radix, upper);
        lemma_digits_of_value(n / radix, radix, upper);
        lemma_digit_char_value(n % radix, radix, upper);
        assert(s == p.push(digit_char(n % radix, upper)));
        assert(s.drop_last() =~= p);
        assert(s[0] == p[0]);
        assert forall|i: int| 0 <= i < s.len() implies (#[trigger] digit_of(s[i], radix)) is Some by {
            if i < p.len() {
                assert(s[i] == p[i]);
            }
        }
        assert(n == (n / radix) * radix + n % radix) by (nonlinear_arith)
            requires radix > 0;
        assert(s.last() == digit_char(n % radix, upper));
        assert(digits_value(s, radix) == digits_value(p, radix) * radix + (n % radix));
    }
}

/// The number of digits of `n`: enough to hold it, and (beyond one digit) no more
/// than it needs.
pub proof fn lemma_digits_of_len(n: nat, radix: nat, upper: bool)
    requires
        radix >= 2,
    ensures
        digits_of(n, radix, upper).len() >= 1,
        n < vstd::arithmetic::power::pow(radix as int, digits_of(n, radix, upper).len()),
        digits_of(n, radix, upper).len() == 1
            || vstd::arithmetic::power::pow(radix as int, (digits_of(n, radix, upper).len() - 1) as nat) <= n,
    decreases n,
{
    reveal(vstd::arithmetic::power::pow);
    let len = digits_of(n, radix, upper).len();
    if n < radix {
        assert(vstd::arithmetic::power::pow(radix as int, 1) == radix * vstd::arithmetic::power::pow(radix as int, 0));
    } else {
        vstd::arithmetic::div_mod::lemma_div_decreases(n as int, radix as int);
        let q = n / radix;
        lemma_digits_of_len(q, radix, upper);
        let lq = digits_of(q, radix, upper).len();
        assert(len == lq + 1);
        let pq = vstd::arithmetic::power::pow(radix as int, lq);
        assert(vstd::arithmetic::power::pow(radix as int, len) == radix * pq);
        assert(n < radix * pq) by (nonlinear_arith)
            requires q == n / radix, q < pq, radix > 0, n >= 0;
        if lq == 1 {
            assert(vstd::arithmetic::power::pow(radix as int, 0) == 1);
            assert(vstd::arithmetic::power::pow(radix as int, 1) == radix * vstd::arithmetic::power::pow(radix as int, 0));
            assert(vstd::arithmetic::power::pow(radix as int, (len - 1) as nat) == radix);
            assert(radix <= n);
        } else {
            let pl = vstd::arithmetic::power::pow(radix as int, (lq - 1) as nat);
            assert(vstd::arithmetic::power::pow(radix as int, lq) == radix * pl);
            assert(radix * pl <= n) by (nonlinear_arith)
                requires q == n / radix, pl <= q, radix > 0, n >= 0;
            assert((len - 1) as nat == lq);
        }
    }
}

/// Upper-case hexadecimal text is made of `0` to `9` and `A` to `F`.
pub proof fn lemma_digits_upper(n: nat)
    ensures
        forall|k: int| 0 <= k < hex_upper(n).len()
            ==> ('0' <= #[trigger] hex_upper(n)[k] <= '9' || 'A' <= hex_upper(n)[k] <= 'F'),
    decreases n,
{
    let h = hex_upper(n);
    if n < 16 {
        lemma_digit_char_range(n);
    } else {
        lemma_digits_upper(n / 16);
        lemma_digit_char_range(n % 16);
        assert(h == hex_upper(n / 16).push(digit_char(n % 16, true)));
        assert forall|k: int| 0 <= k < h.len() implies ('0' <= #[trigger] h[k] <= '9' || 'A' <= h[k] <= 'F') by {
            if k < h.len() - 1 {
                assert(h[k] == hex_upper(n / 16)[k]);
            }
        }
    }
}

/// An upper-case digit below sixteen is `0` to `9` or `A` to `F`.
proof fn lemma_digit_char_range(d: nat)
    requires
        d < 16,
    ensures
        '0' <= digit_char(d, true) <= '9' || 'A' <= digit_char(d, true) <= 'F',
{
    if d < 10 {
        assert(('0' as u32 + d) as char as int == '0' as int + d);
    } else {
        assert(('A' as u32 + d - 10) as char as int == 'A' as int + d - 10);
    }
}

/// Leading zeros do not change the value of a string of digits.
pub proof fn lemma_leading_zeros(z: nat, s: Seq<char>, radix: nat)
    requires
        radix >= 2,
    ensures
        digits_value(Seq::new(z, |i: int| '0') + s, radix) == digits_value(s, radix),
        all_digits(s, radix) ==> all_digits(Seq::new(z, |i: int| '0') + s, radix),
    decreases s.len(),
{
    let zs = Seq::new(z, |i: int| '0');
    assert(digit_of('0', radix) == Some(0nat));
    if s.len() == 0 {
        assert(zs + s =~= zs);
        lemma_zeros_value(z, radix);
    } else {
        lemma_leading_zeros(z, s.drop_last(), radix);
        assert((zs + s).drop_last() =~= zs + s.drop_last());
        assert((zs + s).last() == s.last());
    }
    if all_digits(s, radix) {
        assert forall|i: int| 0 <= i < (zs + s).len() implies (#[trigger] digit_of((zs + s)[i], radix)) is Some by {
            if i >= z {
                assert((zs + s)[i] == s[i - z]);
            }
        }
    }
}

/// A string of zeros is worth zero.
proof fn lemma_zeros_value(z: nat, radix: nat)
    requires
        radix >= 2,
    ensures
        digits_value(Seq::new(z, |i: int| '0'), radix) == 0,
    decreases z,
{
    assert(digit_of('0', radix) == Some(0nat));
    if z > 0 {
        let zs = Seq::new(z, |i: int| '0');
        assert(zs.drop_last() =~= Seq::new((z - 1) as nat, |i: int| '0'));
        lemma_zeros_value((z - 1) as nat, radix);
        assert(zs.last() == '0');
        assert(digits_value(zs, radix) == digits_value(zs.drop_last(), radix) * radix + 0);
        assert(0 * radix == 0);
    }
}

/// Decimal text of a number, as `{}` formats it.
pub open spec fn dec(n: nat) -> Seq<char> {
    digits_of(n, 10, false)
}

/// Upper-case hexadecimal text of a number, as `{:X}` formats it.
pub open spec fn hex_upper(n: nat) -> Seq<char> {
    digits_of(n, 16, true)
}

/// Lower-case hexadecimal text of a number, as `{:x}` formats it.
pub open spec fn hex_lower(n: nat) -> Seq<char> {
    digits_of(n, 16, false)
}

/// `s` padded on the left with `pad` to at least `width` characters.
pub open spec fn pad_left(s: Seq<char>, width: nat, pad: char) -> Seq<char> {
    if s.len() >= width { s } else { Seq::new((width - s.len()) as nat, |i: int| pad) + s }
}

fn digit_to_char(d: u64, upper: bool) -> (c: char)
    requires
        d < 16,
    ensures
        c == digit_char(d as nat, upper),
{
    if d < 10 {
        ((d as u8) + 48u8) as char
    } else if upper {
        ((d as u8) - 10 + 65u8) as char
    } else {
        ((d as u8) - 10 + 97u8) as char
    }
}

/// The digits of `n` in radix 10 or 16.
pub fn fmt_digits(n: u64, radix: u64, upper: bool) -> (r: Vec<char>)
    requires
        radix == 10 || radix == 16,
    ensures
        r@ == digits_of(n as nat, radix as nat, upper),
        r@.len() >= 1,
    decreases n,
{
    if n < radix {
        let mut v: Vec<char> = Vec::new();
        v.push(digit_to_char(n, upper));
        assert(v@ =~= seq![digit_char(n as nat, upper)]);
        v
    } else {
        let mut v = fmt_digits(n / radix, radix, upper);
        v.push(digit_to_char(n % radix, upper));
        v
    }
}

/// Pads `s` on the left with `pad` to at least `width` characters.
pub fn pad_chars(s: &Vec<char>, width: usize, pad: char) -> (r: Vec<char>)
    ensures
        r@ == pad_left(s@, width as nat, pad),
{
    if s.len() >= width {
        return crate::text::slice_chars(s, 0, s.len());
    }
    let mut r: Vec<char> = Vec::new();
    let n = width - s.len();
    let mut i: usize = 0;
    while i < n
        invariant
            i <= n,
            r@ == Seq::new(i as nat, |k: int| pad),
        decreases n - i,
    {
        r.push(pad);
        i = i + 1;
        assert(r@ =~= Seq::new(i as nat, |k: int| pad));
    }
    crate::text::append_chars(&mut r, s);
    r
}

} // verus!
