use rand::Rng;
use vstd::prelude::*;
use vstd::arithmetic::div_mod::{lemma_fundamental_div_mod, lemma_fundamental_div_mod_converse};

use crate::text::{decimal_digits, push_char, usize_to_decimal};
use vstd::string::StringExecFns;
use vstd::string::StringSliceAdditionalSpecFns;

verus! {

/// The 62 characters of the alphabet, as ASCII bytes: `0-9`, then `a-z`, then `A-Z`.
pub const BASE62_ALPHABET: [u8; 62] = [
    48, 49, 50, 51, 52, 53, 54, 55, 56, 57, 97, 98, 99, 100, 101, 102,
    103, 104, 105, 106, 107, 108, 109, 110, 111, 112, 113, 114, 115, 116, 117, 118,
    119, 120, 121, 122, 65, 66, 67, 68, 69, 70, 71, 72, 73, 74, 75, 76,
    77, 78, 79, 80, 81, 82, 83, 84, 85, 86, 87, 88, 89, 90,
];

/// The character that stands for the base-62 digit `d` (`0`-`9`, then `a`-`z`, then `A`-`Z`).
pub open spec fn base62_char(d: int) -> char {
    if d < 10 {
        (48 + d) as char
    } else if d < 36 {
        (97 + d - 10) as char
    } else {
        (65 + d - 36) as char
    }
}

/// Whether `c` is one of the 62 characters of the alphabet.
pub open spec fn is_base62_char(c: char) -> bool {
    ('0' <= c <= '9') || ('a' <= c <= 'z') || ('A' <= c <= 'Z')
}

/// The digit that the alphabet character `c` stands for.
pub open spec fn base62_value(c: char) -> int {
    if '0' <= c <= '9' {
        c as int - 48
    } else if 'a' <= c <= 'z' {
        c as int - 97 + 10
    } else {
        c as int - 65 + 36
    }
}

/// The base-62 digits of `v`, most significant first, with no leading zero (empty for 0).
pub open spec fn base62_digits(v: nat) -> Seq<char>
    decreases v,
{
    if v == 0 {
        Seq::empty()
    } else {
        base62_digits(v / 62).push(base62_char((v % 62) as int))
    }
}

/// What `encode_base62` returns: the digits of `v`, and `"0"` for zero.
pub open spec fn base62_encoding(v: nat) -> Seq<char> {
    if v == 0 {
        seq!['0']
    } else {
        base62_digits(v)
    }
}

/// The number that a string of alphabet characters denotes in base 62.
pub open spec fn base62_decode(s: Seq<char>) -> nat
    decreases s.len(),
{
    if s.len() == 0 {
        0
    } else {
        (base62_decode(s.drop_last()) * 62 + base62_value(s.last())) as nat
    }
}

proof fn lemma_base62_char(d: int)
    requires
        0 <= d < 62,
    ensures
        is_base62_char(base62_char(d)),
        base62_value(base62_char(d)) == d,
{
}

proof fn lemma_digits_decode(v: nat)
    ensures
        base62_decode(base62_digits(v)) == v,
        forall|i: int| 0 <= i < base62_digits(v).len() ==> is_base62_char(#[trigger] base62_digits(v)[i]),
    decreases v,
{
    if v > 0 {
        lemma_digits_decode(v / 62);
        lemma_base62_char((v % 62) as int);
        lemma_fundamental_div_mod(v as int, 62);
        let s = base62_digits(v);
        assert(s.drop_last() =~= base62_digits(v / 62));
    }
}

/// The alphabet character of digit `d`.
fn digit_to_char(d: u8) -> (c: char)
    requires
        d < 62,
    ensures
        c == base62_char(d as int),
        is_base62_char(c),
{
    let b = BASE62_ALPHABET[d as usize];
    b as char
}

/// Encodes `value` in base 62 with the alphabet `0-9a-zA-Z`, most significant digit first.
pub fn encode_base62(value: u128) -> (encoded: String)
    ensures
        encoded@ == base62_encoding(value as nat),
{
    let mut encoded = String::new();
    if value == 0 {
        push_char(&mut encoded, '0');
        assert(encoded@ =~= seq!['0']);
        return encoded;
    }
    // least significant digit first
    let mut low: Vec<char> = Vec::new();
    let mut v: u128 = value;
    let ghost mut suffix: Seq<char> = Seq::empty();
    while v > 0
        invariant
            base62_digits(value as nat) =~= base62_digits(v as nat) + suffix,
            low@.len() == suffix.len(),
            forall|i: int| 0 <= i < low@.len() ==> #[trigger] low@[i] == suffix[suffix.len() - 1 - i],
        decreases v,
    {
        let d: u8 = (v % 62) as u8;
        let c = digit_to_char(d);
        assert(c == base62_char((v % 62) as int));
        proof {
            assert(base62_digits(v as nat) == base62_digits((v / 62) as nat).push(c));
            assert(base62_digits(v as nat) + suffix =~= base62_digits((v / 62) as nat) + (seq![c] + suffix));
            suffix = seq![c] + suffix;
        }
        low.push(c);
        v = v / 62;
    }
    assert(suffix =~= base62_digits(value as nat));
    let n = low.len();
    let mut k: usize = 0;
    while k < n
        invariant
            k <= n,
            n == low@.len(),
            low@.len() == suffix.len(),
            forall|i: int| 0 <= i < low@.len() ==> #[trigger] low@[i] == suffix[suffix.len() - 1 - i],
            encoded@ =~= suffix.take(k as int),
        decreases n - k,
    {
        push_char(&mut encoded, low[n - 1 - k]);
        assert(suffix.take(k + 1) =~= suffix.take(k as int).push(suffix[k as int]));
        k = k + 1;
    }
    assert(suffix.take(n as int) =~= suffix);
    encoded
}

/// `BASE62_ALPHABET` lists the alphabet in digit order: its entry `d` is the character of digit `d`.
pub proof fn lemma_base62_alphabet_table(d: int)
    requires
        0 <= d < 62,
    ensures
        BASE62_ALPHABET@[d] as char == base62_char(d),
{
}

/// Decoding an encoding gives back the number that was encoded.
pub proof fn lemma_base62_roundtrip(v: nat)
    ensures
        base62_decode(base62_encoding(v)) == v,
{
    lemma_digits_decode(v);
    if v == 0 {
        assert(base62_encoding(0).drop_last() =~= Seq::<char>::empty());
    }
}

/// Whether `s` is the way `encode_base62` writes some number: alphabet characters only, and
/// no leading `0` unless `s` is `"0"`.
pub open spec fn is_canonical_base62(s: Seq<char>) -> bool {
    &&& s.len() > 0
    &&& forall|i: int| 0 <= i < s.len() ==> is_base62_char(#[trigger] s[i])
    &&& (s.len() == 1 || s[0] != '0')
}

proof fn lemma_char_of_value(c: char)
    requires
        is_base62_char(c),
    ensures
        0 <= base62_value(c) < 62,
        base62_char(base62_value(c)) == c,
        base62_value(c) == 0 <==> c == '0',
{
}

proof fn lemma_leading_digit_positive(s: Seq<char>)
    requires
        s.len() > 0,
        forall|i: int| 0 <= i < s.len() ==> is_base62_char(#[trigger] s[i]),
        s[0] != '0',
    ensures
        base62_decode(s) > 0,
    decreases s.len(),
{
    if s.len() == 1 {
        lemma_char_of_value(s[0]);
        assert(s.drop_last().len() == 0);
    } else {
        let t = s.drop_last();
        assert(t[0] == s[0]);
        lemma_leading_digit_positive(t);
        lemma_char_of_value(s.last());
    }
}

proof fn lemma_digits_of_decode(s: Seq<char>)
    requires
        s.len() > 0,
        forall|i: int| 0 <= i < s.len() ==> is_base62_char(#[trigger] s[i]),
        s[0] != '0',
    ensures
        base62_digits(base62_decode(s)) == s,
    decreases s.len(),
{
    let t = s.drop_last();
    let c = s.last();
    lemma_char_of_value(c);
    let v = base62_decode(s);
    if s.len() == 1 {
        assert(base62_decode(t) == 0);
        lemma_leading_digit_positive(s);
        assert(v == base62_value(c));
        assert(v / 62 == 0);
        assert(v % 62 == base62_value(c));
        assert(base62_digits(0) == Seq::<char>::empty());
        assert(base62_digits(v) == base62_digits(v / 62).push(base62_char((v % 62) as int)));
        assert(base62_digits(v) =~= Seq::<char>::empty().push(c));
        assert(s =~= seq![c]);
    } else {
        assert(t[0] == s[0]);
        lemma_digits_of_decode(t);
        lemma_fundamental_div_mod_converse(v as int, 62, base62_decode(t) as int, base62_value(c));
        assert(v > 0) by {
            lemma_leading_digit_positive(s);
        }
        assert(base62_digits(v) == base62_digits(v / 62).push(base62_char((v % 62) as int)));
        assert(s =~= t.push(c));
    }
}

/// Every string written the way `encode_base62` writes is the encoding of the number it
/// denotes: with the roundtrip law, encoding is a one-to-one correspondence between numbers
/// and canonical base-62 strings.
pub proof fn lemma_base62_canonical_is_encoding(s: Seq<char>)
    requires
        is_canonical_base62(s),
    ensures
        base62_encoding(base62_decode(s)) == s,
{
    if s.len() == 1 && s[0] == '0' {
        assert(s.drop_last().len() == 0);
        assert(base62_decode(s.drop_last()) == 0);
        assert(s.last() == '0');
        assert(base62_value('0') == 0);
        assert(base62_decode(s) == 0);
        assert(s =~= seq!['0']);
    } else {
        lemma_digits_of_decode(s);
        lemma_leading_digit_positive(s);
    }
}

/// The encoding of every number is canonical.
pub proof fn lemma_base62_encoding_is_canonical(v: nat)
    ensures
        is_canonical_base62(base62_encoding(v)),
{
    lemma_digits_decode(v);
    if v > 0 {
        lemma_first_digit_nonzero(v);
    }
}

proof fn lemma_first_digit_nonzero(v: nat)
    requires
        v > 0,
    ensures
        base62_digits(v).len() > 0,
        base62_digits(v)[0] != '0',
    decreases v,
{
    lemma_base62_char((v % 62) as int);
    let d = base62_digits(v);
    assert(d == base62_digits(v / 62).push(base62_char((v % 62) as int)));
    if v / 62 > 0 {
        lemma_first_digit_nonzero(v / 62);
        assert(d[0] == base62_digits(v / 62)[0]);
    } else {
        assert(base62_digits(0) == Seq::<char>::empty());
        assert(v % 62 == v);
        assert(d[0] == base62_char(v as int));
        assert(base62_value(d[0]) == v);
    }
}

/// Whether `x` comes before `y` in the order of codes: shorter first, and among codes of one
/// length, by the digit value at the first position where they differ.
pub open spec fn base62_precedes(x: Seq<char>, y: Seq<char>) -> bool {
    x.len() < y.len() || (x.len() == y.len() && exists|k: int|
        0 <= k < x.len() && x.take(k) == y.take(k) && #[trigger] base62_value(x[k]) < base62_value(y[k]))
}

spec fn pow62(n: nat) -> nat
    decreases n,
{
    if n == 0 {
        1
    } else {
        62 * pow62((n - 1) as nat)
    }
}

proof fn lemma_pow62_monotone(m: nat, n: nat)
    requires
        m <= n,
    ensures
        1 <= pow62(m) <= pow62(n),
    decreases n,
{
    if m < n {
        lemma_pow62_monotone(m, (n - 1) as nat);
    } else if n > 0 {
        lemma_pow62_monotone(0, (n - 1) as nat);
    }
}

proof fn lemma_decode_below_pow(s: Seq<char>)
    requires
        forall|i: int| 0 <= i < s.len() ==> is_base62_char(#[trigger] s[i]),
    ensures
        base62_decode(s) < pow62(s.len()),
    decreases s.len(),
{
    if s.len() > 0 {
        let t = s.drop_last();
        assert forall|i: int| 0 <= i < t.len() implies is_base62_char(#[trigger] t[i]) by {
            assert(t[i] == s[i]);
        }
        lemma_decode_below_pow(t);
        lemma_char_of_value(s.last());
    }
}

proof fn lemma_decode_at_least_pow(s: Seq<char>)
    requires
        s.len() > 0,
        forall|i: int| 0 <= i < s.len() ==> is_base62_char(#[trigger] s[i]),
        s[0] != '0',
    ensures
        base62_decode(s) >= pow62((s.len() - 1) as nat),
    decreases s.len(),
{
    let t = s.drop_last();
    lemma_char_of_value(s.last());
    if s.len() == 1 {
        lemma_leading_digit_positive(s);
    } else {
        assert(t[0] == s[0]);
        assert forall|i: int| 0 <= i < t.len() implies is_base62_char(#[trigger] t[i]) by {
            assert(t[i] == s[i]);
        }
        lemma_decode_at_least_pow(t);
    }
}

proof fn lemma_decode_first_difference(x: Seq<char>, y: Seq<char>, k: int)
    requires
        x.len() == y.len(),
        0 <= k < x.len(),
        x.take(k) == y.take(k),
        forall|i: int| 0 <= i < x.len() ==> is_base62_char(#[trigger] x[i]),
        forall|i: int| 0 <= i < y.len() ==> is_base62_char(#[trigger] y[i]),
        base62_value(x[k]) < base62_value(y[k]),
    ensures
        base62_decode(x) < base62_decode(y),
    decreases x.len(),
{
    let n = x.len() as int;
    let tx = x.drop_last();
    let ty = y.drop_last();
    lemma_char_of_value(x.last());
    lemma_char_of_value(y.last());
    if k == n - 1 {
        assert(tx =~= x.take(k));
        assert(ty =~= y.take(k));
    } else {
        assert(tx.take(k) =~= x.take(k));
        assert(ty.take(k) =~= y.take(k));
        assert(tx[k] == x[k]);
        assert(ty[k] == y[k]);
        assert forall|i: int| 0 <= i < tx.len() implies is_base62_char(#[trigger] tx[i]) by {
            assert(tx[i] == x[i]);
        }
        assert forall|i: int| 0 <= i < ty.len() implies is_base62_char(#[trigger] ty[i]) by {
            assert(ty[i] == y[i]);
        }
        lemma_decode_first_difference(tx, ty, k);
    }
}

/// Among canonical codes, the order of codes is the order of the numbers they denote.
pub proof fn lemma_base62_precedes_decode(x: Seq<char>, y: Seq<char>)
    requires
        is_canonical_base62(x),
        is_canonical_base62(y),
        base62_precedes(x, y),
    ensures
        base62_decode(x) < base62_decode(y),
{
    if x.len() < y.len() {
        lemma_decode_below_pow(x);
        lemma_decode_at_least_pow(y);
        lemma_pow62_monotone(x.len(), (y.len() - 1) as nat);
    } else {
        let k = choose|k: int|
            0 <= k < x.len() && x.take(k) == y.take(k) && #[trigger] base62_value(x[k]) < base62_value(y[k]);
        lemma_decode_first_difference(x, y, k);
    }
}

proof fn lemma_first_difference(x: Seq<char>, y: Seq<char>, i: int) -> (k: int)
    requires
        x.len() == y.len(),
        x != y,
        0 <= i <= x.len(),
        x.take(i) == y.take(i),
    ensures
        i <= k < x.len(),
        x.take(k) == y.take(k),
        x[k] != y[k],
    decreases x.len() - i,
{
    if i == x.len() {
        assert(x =~= x.take(i));
        assert(y =~= y.take(i));
        assert(false);
        i
    } else if x[i] != y[i] {
        i
    } else {
        assert(x.take(i + 1) =~= x.take(i).push(x[i]));
        assert(y.take(i + 1) =~= y.take(i).push(y[i]));
        lemma_first_difference(x, y, i + 1)
    }
}

/// Encoding keeps the order of numbers: a smaller number has a shorter code, or a code of the
/// same length with a smaller digit at the first position where the two differ.
pub proof fn lemma_base62_order(a: nat, b: nat)
    requires
        a < b,
    ensures
        base62_precedes(base62_encoding(a), base62_encoding(b)),
{
    let x = base62_encoding(a);
    let y = base62_encoding(b);
    lemma_base62_encoding_is_canonical(a);
    lemma_base62_encoding_is_canonical(b);
    lemma_base62_roundtrip(a);
    lemma_base62_roundtrip(b);
    if y.len() < x.len() {
        lemma_base62_precedes_decode(y, x);
    } else if x.len() == y.len() {
        assert(x != y);
        assert(x.take(0) =~= y.take(0));
        let k = lemma_first_difference(x, y, 0);
        lemma_char_of_value(x[k]);
        lemma_char_of_value(y[k]);
        if base62_value(y[k]) < base62_value(x[k]) {
            lemma_base62_precedes_decode(y, x);
        } else {
            assert(base62_value(x[k]) < base62_value(y[k]));
        }
    }
}

/// Distinct numbers have distinct encodings.
pub proof fn lemma_base62_injective(a: nat, b: nat)
    requires
        base62_encoding(a) == base62_encoding(b),
    ensures
        a == b,
{
    lemma_base62_roundtrip(a);
    lemma_base62_roundtrip(b);
}

/// Every character of an encoding is in the alphabet.
pub proof fn lemma_base62_alphabet(v: nat)
    ensures
        forall|i: int| 0 <= i < base62_encoding(v).len() ==> is_base62_char(#[trigger] base62_encoding(v)[i]),
{
    lemma_digits_decode(v);
}

} // verus!

verus! {

/// Why a custom short code is refused.
#[derive(Debug, PartialEq, Eq, Structural)]
pub enum ShortCodeError {
    InvalidLength { min: usize, max: usize },
    InvalidCharacters,
    Reserved,
}

/// The shortest custom code accepted.
pub const MIN_CUSTOM_CODE_LEN: usize = 3;

/// The longest custom code accepted.
pub const MAX_CUSTOM_CODE_LEN: usize = 64;

/// Whether a byte may occur in a custom code: an ASCII letter or digit, `-` or `_`.
pub open spec fn is_code_byte(b: u8) -> bool {
    (48 <= b <= 57) || (65 <= b <= 90) || (97 <= b <= 122) || b == 45 || b == 95
}

/// ASCII lower-casing of one byte; other bytes are left alone.
pub open spec fn ascii_lower(b: u8) -> u8 {
    if 65 <= b <= 90 {
        (b + 32) as u8
    } else {
        b
    }
}

/// Equality of two byte strings up to ASCII case.
pub open spec fn eq_ignore_ascii_case(a: Seq<u8>, b: Seq<u8>) -> bool {
    a.len() == b.len() && forall|i: int| 0 <= i < a.len() ==> ascii_lower(#[trigger] a[i]) == ascii_lower(b[i])
}

/// The words that cannot be used as custom codes, since they name other routes.
pub open spec fn reserved_words() -> Seq<Seq<u8>> {
    seq![
        seq![104u8, 101, 97, 108, 116, 104],
        seq![117u8, 114, 108, 115],
        seq![109u8, 101, 116, 114, 105, 99, 115],
    ]
}

/// Whether the code is one of the reserved words, ignoring ASCII case.
pub open spec fn is_reserved_code(code: Seq<u8>) -> bool {
    exists|i: int| 0 <= i < reserved_words().len() && eq_ignore_ascii_case(code, #[trigger] reserved_words()[i])
}

/// What `validate_custom_code` answers for the UTF-8 bytes of a code.
pub open spec fn custom_code_verdict(code: Seq<u8>) -> Result<(), ShortCodeError> {
    if code.len() < MIN_CUSTOM_CODE_LEN || code.len() > MAX_CUSTOM_CODE_LEN {
        Err(ShortCodeError::InvalidLength { min: MIN_CUSTOM_CODE_LEN, max: MAX_CUSTOM_CODE_LEN })
    } else if !(forall|i: int| 0 <= i < code.len() ==> is_code_byte(#[trigger] code[i])) {
        Err(ShortCodeError::InvalidCharacters)
    } else if is_reserved_code(code) {
        Err(ShortCodeError::Reserved)
    } else {
        Ok(())
    }
}

/// A custom code is accepted only if it has 3 to 64 bytes, each an ASCII digit (`0`-`9`), an
/// ASCII letter (`A`-`Z`, `a`-`z`), `-` or `_`; a code of accepted length with any other byte
/// (such as `.`, `/`, a space or a byte of a non-ASCII character) is refused with
/// `InvalidCharacters`, and one of the wrong length with `InvalidLength { min: 3, max: 64 }`.
pub proof fn lemma_custom_code_alphabet(code: Seq<u8>)
    ensures
        custom_code_verdict(code) is Ok ==> 3 <= code.len() <= 64 && forall|i: int|
            0 <= i < code.len() ==> ('0' as u8 <= #[trigger] code[i] <= '9' as u8) || ('A' as u8 <= code[i]
                <= 'Z' as u8) || ('a' as u8 <= code[i] <= 'z' as u8) || code[i] == '-' as u8 || code[i]
                == '_' as u8,
        (3 <= code.len() <= 64 && exists|i: int|
            0 <= i < code.len() && !(('0' as u8 <= #[trigger] code[i] <= '9' as u8) || ('A' as u8 <= code[i]
                <= 'Z' as u8) || ('a' as u8 <= code[i] <= 'z' as u8) || code[i] == '-' as u8 || code[i]
                == '_' as u8)) ==> custom_code_verdict(code) == Err::<(), ShortCodeError>(
            ShortCodeError::InvalidCharacters,
        ),
        !(3 <= code.len() <= 64) ==> custom_code_verdict(code) == Err::<(), ShortCodeError>(
            ShortCodeError::InvalidLength { min: 3, max: 64 },
        ),
{
}

fn lower_byte(b: u8) -> (r: u8)
    ensures
        r == ascii_lower(b),
{
    if 65 <= b && b <= 90 {
        b + 32
    } else {
        b
    }
}

fn bytes_eq_ignore_ascii_case(a: &[u8], b: &[u8]) -> (r: bool)
    ensures
        r == eq_ignore_ascii_case(a@, b@),
{
    if a.len() != b.len() {
        return false;
    }
    let mut i: usize = 0;
    while i < a.len()
        invariant
            a@.len() == b@.len(),
            i <= a@.len(),
            forall|j: int| 0 <= j < i ==> ascii_lower(#[trigger] a@[j]) == ascii_lower(b@[j]),
        decreases a.len() - i,
    {
        if lower_byte(a[i]) != lower_byte(b[i]) {
            return false;
        }
        i = i + 1;
    }
    true
}

/// Checks a user-chosen short code: its length in bytes, its characters, and the reserved words.
pub fn validate_custom_code(code: &str) -> (res: Result<(), ShortCodeError>)
    ensures
        res == custom_code_verdict(code.spec_bytes()),
{
    let bytes = code.as_bytes();
    let len = bytes.len();
    if len < MIN_CUSTOM_CODE_LEN || len > MAX_CUSTOM_CODE_LEN {
        return Err(ShortCodeError::InvalidLength { min: MIN_CUSTOM_CODE_LEN, max: MAX_CUSTOM_CODE_LEN });
    }
    let mut i: usize = 0;
    while i < len
        invariant
            bytes@ == code.spec_bytes(),
            len == bytes@.len(),
            MIN_CUSTOM_CODE_LEN <= len <= MAX_CUSTOM_CODE_LEN,
            i <= len,
            forall|j: int| 0 <= j < i ==> is_code_byte(#[trigger] bytes@[j]),
        decreases len - i,
    {
        let b = bytes[i];
        let ok = (48 <= b && b <= 57) || (65 <= b && b <= 90) || (97 <= b && b <= 122) || b == 45 || b == 95;
        if !ok {
            assert(!is_code_byte(bytes@[i as int]));
            return Err(ShortCodeError::InvalidCharacters);
        }
        i = i + 1;
    }
    let health: [u8; 6] = [104, 101, 97, 108, 116, 104];
    let urls: [u8; 4] = [117, 114, 108, 115];
    let metrics: [u8; 7] = [109, 101, 116, 114, 105, 99, 115];
    assert(health@ =~= reserved_words()[0]);
    assert(urls@ =~= reserved_words()[1]);
    assert(metrics@ =~= reserved_words()[2]);
    if bytes_eq_ignore_ascii_case(bytes, &health) || bytes_eq_ignore_ascii_case(bytes, &urls)
        || bytes_eq_ignore_ascii_case(bytes, &metrics) {
        return Err(ShortCodeError::Reserved);
    }
    assert(!is_reserved_code(bytes@)) by {
        if is_reserved_code(bytes@) {
            let k = choose|k: int| 0 <= k < reserved_words().len() && eq_ignore_ascii_case(bytes@, #[trigger] reserved_words()[k]);
            assert(k == 0 || k == 1 || k == 2);
        }
    }
    Ok(())
}

} // verus!

verus! {

/// The message of a `ShortCodeError`, as its `Display` writes it.
pub open spec fn short_code_error_message(e: ShortCodeError) -> Seq<char> {
    match e {
        ShortCodeError::InvalidLength { min, max } => "short code must be between "@ + decimal_digits(
            min as nat,
        ) + " and "@ + decimal_digits(max as nat) + " characters"@,
        ShortCodeError::InvalidCharacters => "short code can only contain letters, numbers, hyphen, and underscore"@,
        ShortCodeError::Reserved => "short code is reserved"@,
    }
}

impl ShortCodeError {
    /// The human-readable message of this error.
    pub fn message(&self) -> (m: String)
        ensures
            m@ == short_code_error_message(*self),
    {
        match self {
            ShortCodeError::InvalidLength { min, max } => {
                let mut m = String::from_str("short code must be between ");
                m.append(usize_to_decimal(*min).as_str());
                m.append(" and ");
                m.append(usize_to_decimal(*max).as_str());
                m.append(" characters");
                m
            },
            ShortCodeError::InvalidCharacters => String::from_str(
                "short code can only contain letters, numbers, hyphen, and underscore",
            ),
            ShortCodeError::Reserved => String::from_str("short code is reserved"),
        }
    }
}

} // verus!

verus! {

/// `rand::rngs::ThreadRng`, the thread-local random generator.
#[verifier::external_type_specification]
#[verifier::external_body]
pub struct ExThreadRng(rand::rngs::ThreadRng);

/// Trusted: `rand::rng()`, which hands out the thread-local generator. Nothing is said of it.
#[verifier::external_body]
fn thread_rng() -> rand::rngs::ThreadRng {
    rand::rng()
}

/// Trusted: `Rng::random_range(0..bound)` on the thread-local generator, which returns a
/// value of the half-open range (it panics on an empty range, which `requires` leaves out).
/// Which value comes out is chance and is left unsaid.
#[verifier::external_body]
fn random_below(rng: &mut rand::rngs::ThreadRng, bound: usize) -> (i: usize)
    requires
        bound > 0,
    ensures
        i < bound,
{
    rng.random_range(0..bound)
}

/// A random code of `length` characters of the base-62 alphabet.
pub fn random_base62_code(length: usize) -> (code: String)
    ensures
        code@.len() == length,
        forall|i: int| 0 <= i < code@.len() ==> is_base62_char(#[trigger] code@[i]),
{
    let mut rng = thread_rng();
    let mut code = String::new();
    let mut k: usize = 0;
    while k < length
        invariant
            k <= length,
            code@.len() == k,
            forall|i: int| 0 <= i < code@.len() ==> is_base62_char(#[trigger] code@[i]),
        decreases length - k,
    {
        let index = random_below(&mut rng, 62);
        push_char(&mut code, digit_to_char(index as u8));
        k = k + 1;
    }
    code
}

} // verus!
