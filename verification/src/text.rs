use vstd::prelude::*;
use vstd::string::StrSliceExecFns;

verus! {

/// Appends one character to a string.
///
/// Trusted: `String::push`, which the standard library documents as appending the
/// given `char` to the end of the `String`; the contract says exactly that.
#[verifier::external_body]
pub(crate) fn push_char(s: &mut String, c: char)
    ensures
        final(s)@ == old(s)@.push(c),
{
    s.push(c);
}

} // verus!

verus! {

/// Whether two string slices hold the same characters.
pub fn str_eq(a: &str, b: &str) -> (r: bool)
    ensures
        r == (a@ == b@),
{
    let n = a.unicode_len();
    if n != b.unicode_len() {
        return false;
    }
    let mut i: usize = 0;
    while i < n
        invariant
            n == a@.len(),
            n == b@.len(),
            i <= n,
            forall|j: int| 0 <= j < i ==> a@[j] == b@[j],
        decreases n - i,
    {
        if a.get_char(i) != b.get_char(i) {
            return false;
        }
        i = i + 1;
    }
    assert(a@ =~= b@);
    true
}

} // verus!

verus! {

/// The decimal digits of `n`, most significant first, without leading zeros (`"0"` for 0).
pub open spec fn decimal_digits(n: nat) -> Seq<char>
    decreases n,
{
    if n < 10 {
        seq![(48 + n) as char]
    } else {
        decimal_digits(n / 10).push((48 + n % 10) as char)
    }
}

/// Writes `n` in decimal, as `usize`'s `Display` does.
pub fn usize_to_decimal(n: usize) -> (s: String)
    ensures
        s@ == decimal_digits(n as nat),
{
    let mut low: Vec<char> = Vec::new();
    let mut v: usize = n;
    let ghost mut suffix: Seq<char> = Seq::empty();
    loop
        invariant_except_break
            v <= n,
            decimal_digits(n as nat) =~= decimal_digits(v as nat) + suffix,
        invariant
            low@.len() == suffix.len(),
            forall|i: int| 0 <= i < low@.len() ==> #[trigger] low@[i] == suffix[suffix.len() - 1 - i],
        ensures
            suffix =~= decimal_digits(n as nat),
        decreases v,
    {
        let c: char = (48u8 + (v % 10) as u8) as char;
        if v < 10 {
            proof {
                assert(decimal_digits(v as nat) =~= seq![c]);
                suffix = seq![c] + suffix;
            }
            low.push(c);
            break;
        }
        proof {
            assert(decimal_digits(v as nat) + suffix =~= decimal_digits((v / 10) as nat) + (seq![c] + suffix));
            suffix = seq![c] + suffix;
        }
        low.push(c);
        v = v / 10;
    }
    assert(suffix =~= decimal_digits(n as nat));
    let mut s = String::new();
    let len = low.len();
    let mut k: usize = 0;
    while k < len
        invariant
            k <= len,
            len == low@.len(),
            low@.len() == suffix.len(),
            forall|i: int| 0 <= i < low@.len() ==> #[trigger] low@[i] == suffix[suffix.len() - 1 - i],
            s@ =~= suffix.take(k as int),
        decreases len - k,
    {
        push_char(&mut s, low[len - 1 - k]);
        assert(suffix.take(k + 1) =~= suffix.take(k as int).push(suffix[k as int]));
        k = k + 1;
    }
    assert(suffix.take(len as int) =~= suffix);
    s
}

} // verus!

verus! {

/// `s` without its trailing `/` characters, as `trim_end_matches('/')` gives it.
pub open spec fn trim_trailing_slashes(s: Seq<char>) -> Seq<char>
    decreases s.len(),
{
    if s.len() > 0 && s.last() == '/' {
        trim_trailing_slashes(s.drop_last())
    } else {
        s
    }
}

/// Trimming removes only slashes, only at the end, and all of them: the result is a prefix of
/// `s` that does not end with `/`, and every character after it is `/`.
pub proof fn lemma_trim_trailing_slashes(s: Seq<char>)
    ensures
        trim_trailing_slashes(s).len() <= s.len(),
        s.take(trim_trailing_slashes(s).len() as int) == trim_trailing_slashes(s),
        trim_trailing_slashes(s).len() == 0 || trim_trailing_slashes(s).last() != '/',
        forall|i: int| trim_trailing_slashes(s).len() <= i < s.len() ==> s[i] == '/',
    decreases s.len(),
{
    if s.len() > 0 && s.last() == '/' {
        let t = s.drop_last();
        lemma_trim_trailing_slashes(t);
        let r = trim_trailing_slashes(t);
        assert(s.take(r.len() as int) =~= t.take(r.len() as int));
        assert forall|i: int| r.len() <= i < s.len() implies s[i] == '/' by {
            if i < t.len() {
                assert(s[i] == t[i]);
            }
        }
    } else {
        assert(s.take(s.len() as int) =~= s);
    }
}

/// `s` without its trailing `/` characters.
pub fn trim_end_slashes(s: &str) -> (t: &str)
    ensures
        t@ == trim_trailing_slashes(s@),
{
    let n = s.unicode_len();
    let mut end: usize = n;
    assert(s@.take(n as int) =~= s@);
    while end > 0 && s.get_char(end - 1) == '/'
        invariant
            end <= n,
            n == s@.len(),
            trim_trailing_slashes(s@) == trim_trailing_slashes(s@.take(end as int)),
        decreases end,
    {
        assert(s@.take(end as int).drop_last() =~= s@.take(end - 1));
        end = end - 1;
    }
    assert(s@.take(n as int) =~= s@);
    s.substring_char(0, end)
}

/// The value of a string of decimal digits.
pub open spec fn decimal_value(digits: Seq<char>) -> nat
    decreases digits.len(),
{
    if digits.len() == 0 {
        0
    } else {
        (decimal_value(digits.drop_last()) * 10 + (digits.last() as int - 48)) as nat
    }
}

/// Whether `c` is an ASCII decimal digit.
pub open spec fn is_decimal_digit(c: char) -> bool {
    '0' <= c <= '9'
}

/// The number that `str::parse` reads from `s` for an unsigned integer type, before the
/// range check: an optional `+`, then one or more decimal digits; `None` for anything else.
/// The digits of an unsigned literal: all of it, or what follows a leading `+`.
pub open spec fn literal_digits(s: Seq<char>) -> Seq<char> {
    if s.len() > 0 && s[0] == '+' {
        s.drop_first()
    } else {
        s
    }
}

pub open spec fn unsigned_literal_value(s: Seq<char>) -> Option<nat> {
    let digits = literal_digits(s);
    if digits.len() > 0 && forall|i: int| 0 <= i < digits.len() ==> is_decimal_digit(#[trigger] digits[i]) {
        Some(decimal_value(digits))
    } else {
        None
    }
}

/// What `s.parse::<T>()` gives for an unsigned integer type `T` whose largest value is `max`.
pub open spec fn parse_unsigned(s: Seq<char>, max: nat) -> Option<nat> {
    match unsigned_literal_value(s) {
        Some(n) => if n <= max {
            Some(n)
        } else {
            None
        },
        None => None,
    }
}

proof fn lemma_decimal_prefix_monotone(s: Seq<char>, j: int, k: int)
    requires
        0 <= j <= k <= s.len(),
        forall|i: int| 0 <= i < s.len() ==> is_decimal_digit(#[trigger] s[i]),
    ensures
        decimal_value(s.take(j)) <= decimal_value(s.take(k)),
    decreases k - j,
{
    if j < k {
        lemma_decimal_prefix_monotone(s, j, k - 1);
        assert(s.take(k).drop_last() =~= s.take(k - 1));
    }
}

/// Reads an unsigned decimal number as `str::parse::<u64>` does: an optional `+` and one or
/// more digits, no larger than `max`.
pub fn parse_unsigned_up_to(s: &str, max: u64) -> (r: Option<u64>)
    ensures
        r == (match parse_unsigned(s@, max as nat) {
            Some(n) => Some(n as u64),
            None => None::<u64>,
        }),
{
    let n = s.unicode_len();
    let mut start: usize = 0;
    if n > 0 && s.get_char(0) == '+' {
        start = 1;
    }
    let ghost digits = literal_digits(s@);
    assert(digits =~= s@.subrange(start as int, n as int));
    if start == n {
        return None;
    }
    let mut i: usize = start;
    while i < n
        invariant
            start <= i <= n,
            n == s@.len(),
            digits =~= s@.subrange(start as int, n as int),
            digits == literal_digits(s@),
            forall|j: int| 0 <= j < i - start ==> is_decimal_digit(#[trigger] digits[j]),
        decreases n - i,
    {
        if !('0' <= s.get_char(i) && s.get_char(i) <= '9') {
            assert(!is_decimal_digit(digits[i - start]));
            assert(unsigned_literal_value(s@) is None);
            return None;
        }
        i = i + 1;
    }
    let mut acc: u64 = 0;
    let mut i: usize = start;
    while i < n
        invariant
            start <= i <= n,
            n == s@.len(),
            digits =~= s@.subrange(start as int, n as int),
            digits == literal_digits(s@),
            forall|j: int| 0 <= j < digits.len() ==> is_decimal_digit(#[trigger] digits[j]),
            acc as nat == decimal_value(digits.take(i - start)),
            acc <= max,
        decreases n - i,
    {
        let c = s.get_char(i);
        assert(digits.take(i - start + 1).drop_last() =~= digits.take(i - start));
        assert(digits[i - start] == c);
        assert(is_decimal_digit(digits[i - start]));
        let d: u64 = (c as u32 - 48) as u64;
        match acc.checked_mul(10) {
            Some(m) => match m.checked_add(d) {
                Some(v) => {
                    if v > max {
                        proof {
                            lemma_decimal_prefix_monotone(digits, i - start + 1, digits.len() as int);
                            assert(digits.take(digits.len() as int) =~= digits);
                        }
                        return None;
                    }
                    acc = v;
                },
                None => {
                    proof {
                        lemma_decimal_prefix_monotone(digits, i - start + 1, digits.len() as int);
                        assert(digits.take(digits.len() as int) =~= digits);
                    }
                    return None;
                },
            },
            None => {
                proof {
                    lemma_decimal_prefix_monotone(digits, i - start + 1, digits.len() as int);
                    assert(digits.take(digits.len() as int) =~= digits);
                }
                return None;
            },
        }
        i = i + 1;
    }
    assert(digits.take(n - start) =~= digits);
    Some(acc)
}

} // verus!
