//! Digits: reading unsigned integers from text and writing them back.
//!
//! The reading side follows the rules of `from_str_radix` for unsigned
//! integer types: an optional `+`, then at least one digit of the radix, and
//! a value that fits the type. The writing side produces the digits of a
//! number in a radix, padded with zeros on the left to a minimum width, as
//! the `{:0w}` and `{:0wx}` formats do.

use vstd::prelude::*;
use vstd::arithmetic::power::pow;
use vstd::arithmetic::div_mod::{lemma_div_decreases, lemma_fundamental_div_mod, lemma_mod_bound};

verus! {

/// The value of `c` as a digit in `radix`, if it is one (`0`-`9`, then
/// letters of either case, as far as the radix reaches).
pub open spec fn digit_value(c: char, radix: nat) -> Option<nat> {
    let v: int = if '0' <= c && c <= '9' {
        c as int - '0' as int
    } else if 'a' <= c && c <= 'z' {
        c as int - 'a' as int + 10
    } else if 'A' <= c && c <= 'Z' {
        c as int - 'A' as int + 10
    } else {
        -1
    };
    if 0 <= v && v < radix {
        Some(v as nat)
    } else {
        None
    }
}

/// Every character of `s` is a digit in `radix`.
pub open spec fn all_digits(s: Seq<char>, radix: nat) -> bool {
    forall|i: int| 0 <= i < s.len() ==> (#[trigger] digit_value(s[i], radix)) is Some
}

/// The number that the digits `s` denote in `radix`, most significant first.
pub open spec fn digits_value(s: Seq<char>, radix: nat) -> nat
    decreases s.len(),
{
    if s.len() == 0 {
        0
    } else {
        let d = match digit_value(s.last(), radix) {
            Some(d) => d,
            None => 0,
        };
        digits_value(s.drop_last(), radix) * radix + d
    }
}

/// The digits of `s` after an optional leading `+`.
pub open spec fn unsigned_digits(s: Seq<char>) -> Seq<char> {
    if s.len() > 0 && s[0] == '+' {
        s.drop_first()
    } else {
        s
    }
}

/// What `from_str_radix` gives for `s`, for an unsigned type whose largest
/// value is `max`: the value, or `None` where it reports an error.
pub open spec fn spec_parse_unsigned(s: Seq<char>, radix: nat, max: nat) -> Option<nat> {
    let d = unsigned_digits(s);
    if d.len() > 0 && all_digits(d, radix) && digits_value(d, radix) <= max {
        Some(digits_value(d, radix))
    } else {
        None
    }
}

/// The character of digit `d` (below 36): `0`-`9`, then lower-case letters.
pub open spec fn digit_char(d: nat) -> char {
    if d < 10 {
        (d + 48) as char
    } else {
        (d + 87) as char
    }
}

/// The digits of `x` in `radix`, most significant first, with zeros on the
/// left up to at least `width` digits. Zero with width 0 is the single digit `0`.
pub open spec fn radix_str(x: nat, radix: nat, width: nat) -> Seq<char>
    decreases x, width,
{
    if radix < 2 {
        Seq::empty()
    } else if x < radix && width <= 1 {
        seq![digit_char(x)]
    } else {
        proof {
            if x > 0 {
                lemma_div_decreases(x as int, radix as int);
            }
        }
        radix_str(x / radix, radix, if width > 0 { (width - 1) as nat } else { 0 }).push(
            digit_char(x % radix),
        )
    }
}

/// Appends `c` to `s`: `String::push`.
#[verifier::external_body]
pub(crate) fn push_char(s: &mut String, c: char)
    ensures
        final(s)@ == old(s)@.push(c),
{
    s.push(c)
}

/// The part of `s` before `suffix`, if `s` ends with it.
pub open spec fn spec_strip_suffix(s: Seq<char>, suffix: Seq<char>) -> Option<Seq<char>> {
    if suffix.len() <= s.len() && s.subrange(s.len() - suffix.len(), s.len() as int) == suffix {
        Some(s.subrange(0, s.len() - suffix.len()))
    } else {
        None
    }
}

/// Removes `suffix` from the end of `s`: `str::strip_suffix` with a string
/// pattern, which gives the part before the suffix where `s` ends with it,
/// and `None` where it does not.
#[verifier::external_body]
pub(crate) fn strip_suffix<'a>(s: &'a str, suffix: &str) -> (r: Option<&'a str>)
    ensures
        match r {
            Some(p) => spec_strip_suffix(s@, suffix@) == Some(p@),
            None => spec_strip_suffix(s@, suffix@) is None,
        },
{
    s.strip_suffix(suffix)
}

/// The character of digit `d`.
fn digit_to_char(d: u64) -> (c: char)
    requires
        d < 16,
    ensures
        c == digit_char(d as nat),
{
    if d < 10 {
        ((d as u8) + 48) as char
    } else {
        ((d as u8) + 87) as char
    }
}

/// Appends the digits of `x` in `radix`, padded with zeros to `width`.
pub(crate) fn push_radix(s: &mut String, x: u64, radix: u64, width: usize)
    requires
        2 <= radix <= 16,
    ensures
        final(s)@ == old(s)@ + radix_str(x as nat, radix as nat, width as nat),
    decreases x, width,
{
    if x < radix && width <= 1 {
        push_char(s, digit_to_char(x));
        assert(s@ =~= old(s)@ + radix_str(x as nat, radix as nat, width as nat));
    } else {
        proof {
            if x > 0 {
                lemma_div_decreases(x as int, radix as int);
            }
            lemma_mod_bound(x as int, radix as int);
        }
        let w = if width > 0 {
            width - 1
        } else {
            0
        };
        push_radix(s, x / radix, radix, w);
        push_char(s, digit_to_char(x % radix));
        assert(s@ =~= old(s)@ + radix_str(x as nat, radix as nat, width as nat));
    }
}

/// The digit that byte `b` stands for in `radix`, if any.
fn byte_digit(b: u8, radix: u64) -> (r: Option<u64>)
    requires
        2 <= radix <= 36,
    ensures
        match digit_value(b as char, radix as nat) {
            Some(d) => r == Some(d as u64),
            None => r is None,
        },
{
    let v: u64 = if 48 <= b && b <= 57 {
        (b - 48) as u64
    } else if 97 <= b && b <= 122 {
        (b - 87) as u64
    } else if 65 <= b && b <= 90 {
        (b - 55) as u64
    } else {
        return None;
    };
    if v < radix {
        Some(v)
    } else {
        None
    }
}

proof fn lemma_digits_value_push(s: Seq<char>, c: char, radix: nat)
    ensures
        digits_value(s.push(c), radix) == digits_value(s, radix) * radix + match digit_value(
            c,
            radix,
        ) {
            Some(d) => d,
            None => 0,
        },
{
    assert(s.push(c).drop_last() =~= s);
}

/// Appending digits never makes the value smaller.
proof fn lemma_digits_value_prefix(s: Seq<char>, k: int, radix: nat)
    requires
        0 <= k <= s.len(),
        radix >= 1,
    ensures
        digits_value(s.take(k), radix) <= digits_value(s, radix),
    decreases s.len(),
{
    if k < s.len() {
        lemma_digits_value_prefix(s.drop_last(), k, radix);
        assert(s.drop_last().take(k) =~= s.take(k));
        let v = digits_value(s.drop_last(), radix);
        assert(v * radix >= v) by (nonlinear_arith)
            requires
                radix >= 1,
        ;
    } else {
        assert(s.take(k) =~= s);
    }
}

/// Reads an unsigned integer in `radix` as `from_str_radix` does for an
/// unsigned type whose largest value is `max`.
pub(crate) fn parse_unsigned(s: &str, radix: u64, max: u64) -> (r: Option<u64>)
    requires
        2 <= radix <= 36,
    ensures
        match spec_parse_unsigned(s@, radix as nat, max as nat) {
            Some(v) => r == Some(v as u64),
            None => r is None,
        },
{
    broadcast use vstd::string::is_ascii_spec_bytes;

    let ghost digits = unsigned_digits(s@);
    if !s.is_ascii() {
        proof {
            let i = choose|i: int| 0 <= i < s@.len() && !('\0' <= #[trigger] s@[i] <= '\u{7f}');
            if digits.len() > 0 && all_digits(digits, radix as nat) {
                if s@.len() > 0 && s@[0] == '+' {
                    assert(digits[i - 1] == s@[i]);
                    assert(digit_value(digits[i - 1], radix as nat) is Some);
                } else {
                    assert(digit_value(digits[i], radix as nat) is Some);
                }
            }
        }
        return None;
    }
    let bytes = s.as_bytes();
    let n = bytes.len();
    assert(bytes@.len() == s@.len());
    let start: usize = if n > 0 && bytes[0] == 43 {
        1
    } else {
        0
    };
    assert(start == 1 ==> s@[0] == '+');
    assert(start == 0 && n > 0 ==> s@[0] != '+');
    assert(digits =~= s@.subrange(start as int, n as int));
    if start == n {
        return None;
    }
    let mut acc: u64 = 0;
    let mut i: usize = start;
    while i < n
        invariant
            start <= i <= n,
            n == bytes@.len(),
            n == s@.len(),
            start < n,
            2 <= radix <= 36,
            digits =~= s@.subrange(start as int, n as int),
            digits == unsigned_digits(s@),
            forall|j: int| 0 <= j < n ==> bytes@[j] == s@[j] as u8,
            forall|j: int| 0 <= j < n ==> '\0' <= #[trigger] s@[j] <= '\u{7f}',
            all_digits(digits.take(i - start), radix as nat),
            acc == digits_value(digits.take(i - start), radix as nat),
            acc <= max,
        decreases n - i,
    {
        let b = bytes[i];
        assert(s@[i as int] == digits[i - start]);
        assert(b as char == s@[i as int]) by {
            let c = s@[i as int];
            assert('\0' <= c <= '\u{7f}');
        }
        let d = match byte_digit(b, radix) {
            Some(d) => d,
            None => {
                assert(!all_digits(digits, radix as nat)) by {
                    assert(digit_value(digits[i - start], radix as nat) is None);
                }
                return None;
            },
        };
        let ghost prefix = digits.take(i - start);
        assert(digits.take(i + 1 - start) =~= prefix.push(digits[i - start]));
        proof {
            lemma_digits_value_push(prefix, digits[i - start], radix as nat);
        }
        if d > max || acc > (max - d) / radix {
            proof {
                if d <= max {
                    assert(acc * radix + d > max) by (nonlinear_arith)
                        requires
                            acc > (max - d) / (radix as int),
                            radix >= 2,
                            d <= max,
                    ;
                }
                if all_digits(digits, radix as nat) {
                    lemma_digits_value_prefix(digits, i + 1 - start, radix as nat);
                }
            }
            return None;
        }
        assert(acc * radix + d <= max) by (nonlinear_arith)
            requires
                acc <= (max - d) / (radix as int),
                radix >= 2,
                d <= max,
        ;
        acc = acc * radix + d;
        i = i + 1;
        assert(all_digits(digits.take(i - start), radix as nat)) by {
            assert forall|j: int| 0 <= j < digits.take(i - start).len() implies (#[trigger] digit_value(
                digits.take(i - start)[j],
                radix as nat,
            )) is Some by {
                if j < i - 1 - start {
                    assert(digits.take(i - start)[j] == prefix[j]);
                }
            }
        }
    }
    assert(digits.take(n - start) =~= digits);
    Some(acc)
}

/// The digits written by `radix_str` are digits of the radix, and they denote
/// the number written.
pub proof fn lemma_radix_str_value(x: nat, radix: nat, width: nat)
    requires
        2 <= radix <= 16,
    ensures
        all_digits(radix_str(x, radix, width), radix),
        digits_value(radix_str(x, radix, width), radix) == x,
        radix_str(x, radix, width).len() > 0,
        radix_str(x, radix, width)[0] != '+',
    decreases x, width,
{
    if x < radix && width <= 1 {
        lemma_digit_char_value(x, radix);
        let s = radix_str(x, radix, width);
        assert(s.drop_last() =~= Seq::<char>::empty());
        assert(s.last() == digit_char(x));
        assert(digits_value(s.drop_last(), radix) == 0);
        assert(0 * radix == 0);
    } else {
        if x > 0 {
            lemma_div_decreases(x as int, radix as int);
        }
        lemma_mod_bound(x as int, radix as int);
        lemma_fundamental_div_mod(x as int, radix as int);
        let w: nat = if width > 0 {
            (width - 1) as nat
        } else {
            0
        };
        lemma_radix_str_value(x / radix, radix, w);
        lemma_digit_char_value(x % radix, radix);
        let prev = radix_str(x / radix, radix, w);
        lemma_digits_value_push(prev, digit_char(x % radix), radix);
        let s = prev.push(digit_char(x % radix));
        assert(all_digits(s, radix)) by {
            assert forall|j: int| 0 <= j < s.len() implies (#[trigger] digit_value(s[j], radix)) is Some by {
                if j < prev.len() {
                    assert(s[j] == prev[j]);
                }
            }
        }
        assert(s[0] == prev[0]);
        assert((x / radix) * radix + x % radix == x) by (nonlinear_arith)
            requires
                x == radix * (x / radix) + (x % radix),
        ;
    }
}

proof fn lemma_digit_char_value(d: nat, radix: nat)
    requires
        d < radix <= 16,
    ensures
        digit_value(digit_char(d), radix) == Some(d),
        digit_char(d) != '+',
{
}

/// Reading back what `radix_str` writes gives the number written, for any
/// number that fits the type read.
pub proof fn lemma_parse_radix_str(x: nat, radix: nat, width: nat, max: nat)
    requires
        2 <= radix <= 16,
        x <= max,
    ensures
        spec_parse_unsigned(radix_str(x, radix, width), radix, max) == Some(x),
{
    lemma_radix_str_value(x, radix, width);
}


/// A number below `radix` to the power `width` is written with exactly
/// `width` digits.
pub proof fn lemma_radix_str_len(x: nat, radix: nat, width: nat)
    requires
        2 <= radix,
        1 <= width,
        x < pow(radix as int, width),
    ensures
        radix_str(x, radix, width).len() == width,
    decreases width,
{
    reveal(pow);
    if x < radix && width <= 1 {
    } else {
        lemma_fundamental_div_mod(x as int, radix as int);
        lemma_mod_bound(x as int, radix as int);
        if width == 1 {
            assert(pow(radix as int, 0) == 1);
        } else {
            let p = pow(radix as int, (width - 1) as nat);
            assert(x / radix < p) by (nonlinear_arith)
                requires
                    x < radix * p,
                    radix >= 2,
                    x == radix * (x / radix) + (x % radix),
                    0 <= x % radix < radix,
            ;
            lemma_radix_str_len(x / radix, radix, (width - 1) as nat);
        }
    }
}

/// Whether text `a` sorts before text `b`: comparing character by
/// character, the first difference decides, and a proper prefix sorts first
/// (the order in which `str` compares).
pub open spec fn text_less(a: Seq<char>, b: Seq<char>) -> bool
    decreases a.len(),
{
    if a.len() == 0 {
        b.len() > 0
    } else if b.len() == 0 {
        false
    } else if a[0] != b[0] {
        (a[0] as u32) < (b[0] as u32)
    } else {
        text_less(a.drop_first(), b.drop_first())
    }
}

/// Texts that begin with parts of the same length sort by those parts first,
/// and by the rest where the parts are equal.
pub proof fn lemma_text_less_concat(a1: Seq<char>, a2: Seq<char>, b1: Seq<char>, b2: Seq<char>)
    requires
        a1.len() == b1.len(),
    ensures
        text_less(a1 + a2, b1 + b2) == (text_less(a1, b1) || (a1 == b1 && text_less(a2, b2))),
    decreases a1.len(),
{
    if a1.len() == 0 {
        assert(a1 + a2 =~= a2);
        assert(b1 + b2 =~= b2);
        assert(a1 =~= b1);
    } else {
        assert((a1 + a2)[0] == a1[0]);
        assert((b1 + b2)[0] == b1[0]);
        assert((a1 + a2).drop_first() =~= a1.drop_first() + a2);
        assert((b1 + b2).drop_first() =~= b1.drop_first() + b2);
        lemma_text_less_concat(a1.drop_first(), a2, b1.drop_first(), b2);
        if a1[0] == b1[0] && a1.drop_first() == b1.drop_first() {
            assert forall|i: int| 0 <= i < a1.len() implies a1[i] == b1[i] by {
                if i > 0 {
                    assert(a1[i] == a1.drop_first()[i - 1]);
                    assert(b1[i] == b1.drop_first()[i - 1]);
                }
            }
            assert(a1 =~= b1);
        }
        if a1 == b1 {
            assert(a1.drop_first() =~= b1.drop_first());
        }
    }
}

/// Numbers written with the same number of digits sort as text as they do
/// as numbers, and their texts are equal only where the numbers are.
pub proof fn lemma_radix_str_order(x: nat, y: nat, width: nat)
    requires
        1 <= width,
        x < pow(10, width),
        y < pow(10, width),
    ensures
        text_less(radix_str(x, 10, width), radix_str(y, 10, width)) == (x < y),
        (radix_str(x, 10, width) == radix_str(y, 10, width)) == (x == y),
    decreases width,
{
    reveal(pow);
    lemma_radix_str_value(x, 10, width);
    lemma_radix_str_value(y, 10, width);
    if width == 1 {
        assert(pow(10, 0) == 1);
        assert(pow(10, 1) == 10);
        let sx = radix_str(x, 10, width);
        let sy = radix_str(y, 10, width);
        assert(sx =~= seq![digit_char(x)]);
        assert(sy =~= seq![digit_char(y)]);
        assert(sx.drop_first() =~= Seq::<char>::empty());
        assert(sy.drop_first() =~= Seq::<char>::empty());
        assert(digit_char(x) as u32 == x + 48);
        assert(digit_char(y) as u32 == y + 48);
        assert(text_less(sx, sy) == (x < y)) by {
            if sx[0] == sy[0] {
                assert(text_less(sx.drop_first(), sy.drop_first()) == false);
            }
        }
    } else {
        let w1 = (width - 1) as nat;
        let p = pow(10, w1);
        assert(x / 10 < p);
        assert(y / 10 < p);
        lemma_radix_str_order(x / 10, y / 10, w1);
        lemma_radix_str_len(x / 10, 10, w1);
        lemma_radix_str_len(y / 10, 10, w1);
        let px = radix_str(x / 10, 10, w1);
        let py = radix_str(y / 10, 10, w1);
        let cx = seq![digit_char(x % 10)];
        let cy = seq![digit_char(y % 10)];
        assert(radix_str(x, 10, width) =~= px + cx);
        assert(radix_str(y, 10, width) =~= py + cy);
        lemma_text_less_concat(px, cx, py, cy);
        assert(cx.drop_first() =~= Seq::<char>::empty());
        assert(cy.drop_first() =~= Seq::<char>::empty());
        assert(digit_char(x % 10) as u32 == x % 10 + 48);
        assert(digit_char(y % 10) as u32 == y % 10 + 48);
        lemma_fundamental_div_mod(x as int, 10);
        lemma_fundamental_div_mod(y as int, 10);
        lemma_mod_bound(x as int, 10);
        lemma_mod_bound(y as int, 10);
        assert(text_less(cx, cy) == (x % 10 < y % 10)) by {
            if cx[0] == cy[0] {
                assert(text_less(cx.drop_first(), cy.drop_first()) == false);
            }
        }
        assert((x < y) == (x / 10 < y / 10 || (x / 10 == y / 10 && x % 10 < y % 10)));
        if px + cx == py + cy {
            assert((px + cx)[width - 1] == (py + cy)[width - 1]);
            assert(px =~= (px + cx).take(w1 as int));
            assert(py =~= (py + cy).take(w1 as int));
        }
    }
}

} // verus!
