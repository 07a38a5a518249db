use vstd::prelude::*;

verus! {

/// The value of an ASCII letter or digit as a digit of base 36 (`'7'` is 7, `'b'` and `'B'` are
/// 11); 36 for any other character.
pub open spec fn digit_value(c: char) -> nat {
    if '0' <= c && c <= '9' {
        (c as u32 - '0' as u32) as nat
    } else if 'a' <= c && c <= 'z' {
        (c as u32 - 'a' as u32 + 10) as nat
    } else if 'A' <= c && c <= 'Z' {
        (c as u32 - 'A' as u32 + 10) as nat
    } else {
        36
    }
}

/// Whether `c` is a digit in `radix`, as `char::to_digit` decides it.
pub open spec fn is_digit(c: char, radix: nat) -> bool {
    digit_value(c) < radix
}

/// Whether every character of `d` is a digit in `radix`.
pub open spec fn all_digits(d: Seq<char>, radix: nat) -> bool {
    forall|i: int| 0 <= i < d.len() ==> is_digit(#[trigger] d[i], radix)
}

/// The number that the digits `d` write in `radix`, most significant digit first.
pub open spec fn digits_value(d: Seq<char>, radix: nat) -> nat
    decreases d.len(),
{
    if d.len() == 0 {
        0
    } else {
        digits_value(d.drop_last(), radix) * radix + digit_value(d.last())
    }
}

/// The index of the first character of `d`, from `i` on, that is no digit in `radix`
/// (`d.len()` when there is none).
pub open spec fn first_non_digit(d: Seq<char>, radix: nat, i: int) -> int
    decreases d.len() - i,
{
    if 0 <= i < d.len() && is_digit(d[i], radix) {
        first_non_digit(d, radix, i + 1)
    } else {
        i
    }
}

/// What `u8::from_str` gives for `s`: an optional `+`, then at least one decimal digit, whose
/// value is at most 255.
pub open spec fn u8_of(s: Seq<char>) -> Option<u8> {
    let d = if s.len() > 0 && s[0] == '+' {
        s.drop_first()
    } else {
        s
    };
    if d.len() > 0 && all_digits(d, 10) && digits_value(d, 10) <= 255 {
        Some(digits_value(d, 10) as u8)
    } else {
        None
    }
}

/// The value of a digit string does not shrink when digits are appended.
pub proof fn lemma_prefix_value_le(d: Seq<char>, radix: nat, k: int)
    requires
        radix >= 1,
        0 <= k <= d.len(),
    ensures
        digits_value(d.take(k), radix) <= digits_value(d, radix),
    decreases d.len(),
{
    if k < d.len() {
        let rest = d.drop_last();
        lemma_prefix_value_le(rest, radix, k);
        assert(rest.take(k) =~= d.take(k));
        assert(digits_value(rest, radix) <= digits_value(rest, radix) * radix) by (nonlinear_arith)
            requires
                radix >= 1,
        ;
    } else {
        assert(d.take(k) =~= d);
    }
}

/// Appending one digit: the value of the first `i + 1` digits from the first `i`.
pub proof fn lemma_value_step(d: Seq<char>, radix: nat, i: int)
    requires
        0 <= i < d.len(),
    ensures
        digits_value(d.take(i + 1), radix) == digits_value(d.take(i), radix) * radix + digit_value(
            d[i],
        ),
{
    assert(d.take(i + 1).drop_last() =~= d.take(i));
}

/// Parses `s` as `u8::from_str` does, giving `None` where that gives an error.
pub fn parse_u8(s: &[char]) -> (r: Option<u8>)
    ensures
        r == u8_of(s@),
{
    let start: usize = if s.len() > 0 && s[0] == '+' {
        1
    } else {
        0
    };
    let ghost d = if s@.len() > 0 && s@[0] == '+' {
        s@.drop_first()
    } else {
        s@
    };
    assert(d =~= s@.subrange(start as int, s@.len() as int));
    if start == s.len() {
        return None;
    }
    let mut acc: u32 = 0;
    let mut i: usize = start;
    while i < s.len()
        invariant
            start <= i <= s.len(),
            d == s@.subrange(start as int, s@.len() as int),
            d == (if s@.len() > 0 && s@[0] == '+' {
                s@.drop_first()
            } else {
                s@
            }),
            d.len() > 0,
            all_digits(d.take(i - start), 10),
            acc == digits_value(d.take(i - start), 10),
            acc <= 255,
        decreases s.len() - i,
    {
        let c = s[i];
        if !('0' <= c && c <= '9') {
            assert(!is_digit(d[i - start], 10));
            assert(!all_digits(d, 10));
            return None;
        }
        proof {
            lemma_value_step(d, 10, i - start);
        }
        acc = acc * 10 + (c as u32 - '0' as u32);
        i += 1;
        assert(all_digits(d.take(i - start), 10)) by {
            assert forall|j: int| 0 <= j < d.take(i - start).len() implies is_digit(
                #[trigger] d.take(i - start)[j],
                10,
            ) by {
                if j < i - 1 - start {
                    assert(d.take(i - start)[j] == d.take(i - 1 - start)[j]);
                }
            }
        }
        if acc > 255 {
            proof {
                if all_digits(d, 10) {
                    lemma_prefix_value_le(d, 10, i - start);
                    assert(digits_value(d, 10) > 255);
                }
            }
            return None;
        }
    }
    assert(d.take(i - start) =~= d);
    Some(acc as u8)
}

} // verus!
