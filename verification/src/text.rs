use vstd::prelude::*;

verus! {

// ---------------------------------------------------------------------------
// Suffix matching and string equality
// ---------------------------------------------------------------------------

/// `s` ends with `suffix`.
pub open spec fn ends_with(s: Seq<char>, suffix: Seq<char>) -> bool {
    suffix.len() <= s.len() && s.subrange(s.len() - suffix.len(), s.len() as int) == suffix
}

/// Whether the string ends with the given suffix.
pub fn str_ends_with(s: &str, suffix: &str) -> (r: bool)
    ensures
        r == ends_with(s@, suffix@),
{
    let n = s.unicode_len();
    let m = suffix.unicode_len();
    if m > n {
        assert(!ends_with(s@, suffix@));
        return false;
    }
    let mut i: usize = 0;
    while i < m
        invariant
            i <= m <= n,
            n == s@.len(),
            m == suffix@.len(),
            forall|j: int| 0 <= j < i ==> s@[n - m + j] == suffix@[j],
        decreases m - i,
    {
        if s.get_char(n - m + i) != suffix.get_char(i) {
            assert(s@.subrange(n - m, n as int)[i as int] != suffix@[i as int]);
            return false;
        }
        i = i + 1;
    }
    assert(s@.subrange(n - m, n as int) =~= suffix@);
    true
}

/// Whether the two strings hold the same characters.
pub fn str_eq(a: &str, b: &str) -> (r: bool)
    ensures
        r == (a@ == b@),
{
    let n = a.unicode_len();
    let m = b.unicode_len();
    if n != m {
        return false;
    }
    let mut i: usize = 0;
    while i < n
        invariant
            i <= n,
            n == a@.len() == b@.len(),
            forall|j: int| 0 <= j < i ==> a@[j] == b@[j],
        decreases n - i,
    {
        if a.get_char(i) != b.get_char(i) {
            return false;
        }
        i = i + 1;
    }
    assert(a@ =~= b@);
    true
}

// ---------------------------------------------------------------------------
// Decimal digits
// ---------------------------------------------------------------------------

/// `c` is an ASCII decimal digit.
pub open spec fn is_digit(c: char) -> bool {
    48 <= c as u32 <= 57
}

/// The numeric value of a digit character.
pub open spec fn digit_val(c: char) -> nat {
    (c as u32 - 48) as nat
}

/// Every character of `s` is a decimal digit.
pub open spec fn all_digits(s: Seq<char>) -> bool {
    forall|i: int| 0 <= i < s.len() ==> is_digit(#[trigger] s[i])
}

/// The number that the digit string `s` denotes, most significant digit first.
pub open spec fn decimal_value(s: Seq<char>) -> nat
    decreases s.len(),
{
    if s.len() == 0 {
        0
    } else {
        decimal_value(s.drop_last()) * 10 + digit_val(s.last())
    }
}

/// Extending a digit string on the right never shrinks its value.
proof fn lemma_decimal_value_monotonic(s: Seq<char>, i: int, j: int)
    requires
        0 <= i <= j <= s.len(),
    ensures
        decimal_value(s.take(i)) <= decimal_value(s.take(j)),
    decreases j - i,
{
    if i < j {
        lemma_decimal_value_monotonic(s, i, j - 1);
        assert(s.take(j).drop_last() =~= s.take(j - 1));
        assert(decimal_value(s.take(j)) == decimal_value(s.take(j - 1)) * 10 + digit_val(
            s.take(j).last(),
        ));
    } else {
        assert(s.take(i) =~= s.take(j));
    }
}

// ---------------------------------------------------------------------------
// Parsing unsigned integers, as the standard library's `usize` parser does:
// an optional leading '+', then one or more decimal digits, rejecting values
// that do not fit.
// ---------------------------------------------------------------------------

/// The digit part of an unsigned-integer text: the text with a leading '+'
/// removed, if there is one.
pub open spec fn uint_digits(s: Seq<char>) -> Seq<char> {
    if s.len() > 0 && s[0] == '+' {
        s.skip(1)
    } else {
        s
    }
}

/// `s` is a well-formed unsigned-integer text, whatever its value.
pub open spec fn is_uint_text(s: Seq<char>) -> bool {
    uint_digits(s).len() > 0 && all_digits(uint_digits(s))
}

/// The number an unsigned-integer text denotes.
pub open spec fn uint_text_value(s: Seq<char>) -> nat {
    decimal_value(uint_digits(s))
}

/// Parse an unsigned integer: an optional '+', then decimal digits.
/// Returns `None` on anything else, and on a value above `usize::MAX`.
pub fn parse_usize(s: &str) -> (r: Option<usize>)
    ensures
        r is Some <==> is_uint_text(s@) && uint_text_value(s@) <= usize::MAX,
        r is Some ==> r->0 == uint_text_value(s@),
{
    let n = s.unicode_len();
    let start: usize = if n > 0 && s.get_char(0) == '+' {
        1
    } else {
        0
    };
    let ghost digits = uint_digits(s@);
    proof {
        assert(digits =~= s@.skip(start as int));
    }
    if start == n {
        return None;
    }
    let mut acc: u128 = 0;
    let mut i: usize = start;
    while i < n
        invariant
            start <= i <= n,
            n == s@.len(),
            start < n,
            digits == uint_digits(s@),
            digits == s@.skip(start as int),
            all_digits(digits.take(i - start)),
            acc == decimal_value(digits.take(i - start)),
            acc <= usize::MAX,
        decreases n - i,
    {
        let c = s.get_char(i);
        let v = c as u32;
        if v < 48 || v > 57 {
            assert(!all_digits(digits)) by {
                assert(digits[i - start] == s@[i as int]);
            }
            return None;
        }
        let d = (v - 48) as u128;
        let next = acc * 10 + d;
        proof {
            assert(digits.take(i - start + 1).drop_last() =~= digits.take(i - start));
            assert(digits.take(i - start + 1).last() == digits[i - start] == s@[i as int]);
            assert(all_digits(digits.take(i - start + 1)));
            assert(decimal_value(digits.take(i - start + 1)) == acc * 10 + digit_val(s@[i as int]));
            assert(digit_val(s@[i as int]) == d);
        }
        if next > usize::MAX as u128 {
            // The value of the digits seen so far is already too large, so the
            // whole text's value is too large whenever the text is well formed.
            proof {
                if is_uint_text(s@) {
                    lemma_decimal_value_monotonic(digits, i - start + 1, digits.len() as int);
                    assert(digits.take(digits.len() as int) =~= digits);
                    assert(decimal_value(digits) >= next > usize::MAX);
                }
            }
            return None;
        }
        acc = next;
        i = i + 1;
    }
    proof {
        assert(digits.take((n - start) as int) =~= digits);
    }
    Some(acc as usize)
}

// ---------------------------------------------------------------------------
// Formatting unsigned integers in decimal
// ---------------------------------------------------------------------------

/// The digit character for a value below ten.
pub open spec fn digit_char(d: nat) -> char {
    if d == 0 {
        '0'
    } else if d == 1 {
        '1'
    } else if d == 2 {
        '2'
    } else if d == 3 {
        '3'
    } else if d == 4 {
        '4'
    } else if d == 5 {
        '5'
    } else if d == 6 {
        '6'
    } else if d == 7 {
        '7'
    } else if d == 8 {
        '8'
    } else {
        '9'
    }
}

/// The decimal digits of `n`, most significant first, without leading zeros
/// (a single '0' for zero).
pub open spec fn digits_of(n: nat) -> Seq<char>
    decreases n,
{
    if n < 10 {
        seq![digit_char(n)]
    } else {
        digits_of(n / 10).push(digit_char(n % 10))
    }
}

/// A one-character string for a digit value.
fn digit_str(d: usize) -> (r: &'static str)
    requires
        d < 10,
    ensures
        r@ =~= seq![digit_char(d as nat)],
{
    proof {
        reveal_strlit("0");
        reveal_strlit("1");
        reveal_strlit("2");
        reveal_strlit("3");
        reveal_strlit("4");
        reveal_strlit("5");
        reveal_strlit("6");
        reveal_strlit("7");
        reveal_strlit("8");
        reveal_strlit("9");
    }
    match d {
        0 => "0",
        1 => "1",
        2 => "2",
        3 => "3",
        4 => "4",
        5 => "5",
        6 => "6",
        7 => "7",
        8 => "8",
        _ => "9",
    }
}

/// Append the decimal digits of `n` to `out`.
pub fn push_decimal(n: usize, out: &mut String)
    ensures
        final(out)@ == old(out)@ + digits_of(n as nat),
    decreases n,
{
    if n >= 10 {
        push_decimal(n / 10, out);
        out.append(digit_str(n % 10));
        assert(final(out)@ =~= old(out)@ + digits_of(n as nat));
    } else {
        out.append(digit_str(n));
        assert(final(out)@ =~= old(out)@ + digits_of(n as nat));
    }
}

/// Digit characters are digits, and carry their value.
proof fn lemma_digit_char_val(d: nat)
    requires
        d < 10,
    ensures
        is_digit(digit_char(d)),
        digit_val(digit_char(d)) == d,
{
}

/// The digits of `n` are digit characters, and denote `n` again.
pub proof fn lemma_digits_of_value(n: nat)
    ensures
        all_digits(digits_of(n)),
        decimal_value(digits_of(n)) == n,
    decreases n,
{
    if n < 10 {
        let s = digits_of(n);
        lemma_digit_char_val(n);
        assert(s.len() == 1);
        assert(s.last() == digit_char(n));
        assert(s.drop_last() =~= Seq::<char>::empty());
        assert(decimal_value(Seq::<char>::empty()) == 0);
        assert(decimal_value(s) == decimal_value(s.drop_last()) * 10 + digit_val(s.last()));
    } else {
        lemma_digits_of_value(n / 10);
        lemma_digit_char_val(n % 10);
        let s = digits_of(n);
        assert(s.drop_last() =~= digits_of(n / 10));
        assert(s.last() == digit_char(n % 10));
        assert(forall|i: int| 0 <= i < s.len() - 1 ==> s[i] == digits_of(n / 10)[i]);
        assert(decimal_value(s) == decimal_value(s.drop_last()) * 10 + digit_val(s.last()));
        assert(decimal_value(s) == (n / 10) * 10 + (n % 10));
    }
}

} // verus!
