//! Plain text helpers: decimal rendering of integers.

use vstd::prelude::*;

verus! {

/// The decimal digit character for `d` (0 to 9).
pub open spec fn digit_char(d: nat) -> char {
    if d == 0 { '0' }
    else if d == 1 { '1' }
    else if d == 2 { '2' }
    else if d == 3 { '3' }
    else if d == 4 { '4' }
    else if d == 5 { '5' }
    else if d == 6 { '6' }
    else if d == 7 { '7' }
    else if d == 8 { '8' }
    else { '9' }
}

/// The decimal representation of `n`, without sign or leading zeros.
pub open spec fn decimal(n: nat) -> Seq<char>
    decreases n,
{
    if n < 10 {
        seq![digit_char(n)]
    } else {
        decimal(n / 10).push(digit_char(n % 10))
    }
}

/// Whether `c` is a decimal digit character.
pub open spec fn is_digit(c: char) -> bool {
    '0' as int <= c as int <= '9' as int
}

/// The value of a decimal digit character.
pub open spec fn digit_value(c: char) -> int {
    c as int - '0' as int
}

/// The number that the decimal digits `digits` denote, most significant first.
pub open spec fn decimal_value(digits: Seq<char>) -> int
    decreases digits.len(),
{
    if digits.len() == 0 {
        0
    } else {
        decimal_value(digits.drop_last()) * 10 + digit_value(digits.last())
    }
}

proof fn digit_char_value(d: nat)
    requires
        d < 10,
    ensures
        is_digit(digit_char(d)),
        digit_value(digit_char(d)) == d,
        digit_char(d) == '0' ==> d == 0,
{
    assert('0' as int == 48 && '1' as int == 49 && '2' as int == 50 && '3' as int == 51 && '4' as int == 52);
    assert('5' as int == 53 && '6' as int == 54 && '7' as int == 55 && '8' as int == 56 && '9' as int == 57);
}

/// The decimal text of `n` is made of digits, has no leading zero unless it
/// is `0` itself, and reads back as `n`.
pub proof fn decimal_reads_back(n: nat)
    ensures
        decimal(n).len() >= 1,
        forall|i: int| 0 <= i < decimal(n).len() ==> is_digit(#[trigger] decimal(n)[i]),
        decimal(n)[0] == '0' ==> n == 0,
        decimal_value(decimal(n)) == n,
    decreases n,
{
    if n < 10 {
        digit_char_value(n);
        assert(decimal(n).drop_last() =~= Seq::<char>::empty());
        assert(decimal_value(Seq::<char>::empty()) == 0);
        assert(decimal(n).last() == digit_char(n));
        assert(decimal_value(decimal(n)) == decimal_value(decimal(n).drop_last()) * 10 + digit_value(decimal(n).last()));
    } else {
        digit_char_value(n % 10);
        decimal_reads_back(n / 10);
        let d = decimal(n);
        assert(d.drop_last() =~= decimal(n / 10));
        assert(d.last() == digit_char(n % 10));
        assert(decimal_value(d) == decimal_value(decimal(n / 10)) * 10 + digit_value(digit_char(n % 10)));
        assert(d[0] == decimal(n / 10)[0]);
        assert forall|i: int| 0 <= i < d.len() implies is_digit(#[trigger] d[i]) by {
            if i < d.len() - 1 {
                assert(d[i] == decimal(n / 10)[i]);
            }
        }
    }
}

/// Appends one character to a string (`String::push`).
#[verifier::external_body]
fn push_char(s: &mut String, c: char)
    ensures
        final(s)@ == old(s)@.push(c),
{
    s.push(c);
}

fn digit(d: u64) -> (c: char)
    requires
        d < 10,
    ensures
        c == digit_char(d as nat),
{
    if d == 0 { '0' }
    else if d == 1 { '1' }
    else if d == 2 { '2' }
    else if d == 3 { '3' }
    else if d == 4 { '4' }
    else if d == 5 { '5' }
    else if d == 6 { '6' }
    else if d == 7 { '7' }
    else if d == 8 { '8' }
    else { '9' }
}

/// Appends the decimal representation of `n` to `out`.
pub fn push_decimal(out: &mut String, n: u64)
    ensures
        final(out)@ == old(out)@ + decimal(n as nat),
    decreases n,
{
    if n < 10 {
        push_char(out, digit(n));
    } else {
        push_decimal(out, n / 10);
        push_char(out, digit(n % 10));
    }
}

/// The lowercase hexadecimal digit character for `d` (0 to 15).
pub open spec fn hex_char(d: int) -> char {
    if d < 10 {
        digit_char(d as nat)
    } else if d == 10 { 'a' }
    else if d == 11 { 'b' }
    else if d == 12 { 'c' }
    else if d == 13 { 'd' }
    else if d == 14 { 'e' }
    else { 'f' }
}

/// The `k`-th hexadecimal digit of `id` (0 to 31), counted from the most
/// significant one.
pub open spec fn uuid_nibble(id: u128, k: int) -> int {
    (id as int / vstd::arithmetic::power::pow(16, (31 - k) as nat)) % 16
}

/// How many hyphens come before position `i` of the hyphenated form.
pub open spec fn hyphens_before(i: int) -> int {
    if i < 8 { 0 } else if i < 13 { 1 } else if i < 18 { 2 } else if i < 23 { 3 } else { 4 }
}

/// The hyphenated lowercase form of a UUID given as its 128-bit big-endian
/// value: 32 hexadecimal digits in groups of 8, 4, 4, 4 and 12, separated by
/// hyphens.
pub open spec fn hyphenated_uuid(id: u128) -> Seq<char> {
    Seq::new(
        36,
        |i: int|
            if i == 8 || i == 13 || i == 18 || i == 23 {
                '-'
            } else {
                hex_char(uuid_nibble(id, i - hyphens_before(i)))
            },
    )
}

/// A UUID of version 4 (random) and of the RFC 4122 variant: bits 76 to 79
/// hold 4 and bits 62 and 63 hold 0b10.
pub open spec fn is_random_uuid(id: u128) -> bool {
    &&& (id >> 76u128) & 15u128 == 4u128
    &&& (id >> 62u128) & 3u128 == 2u128
}

/// The value of a lowercase hexadecimal digit character.
pub open spec fn hex_value(c: char) -> int {
    if c as int <= '9' as int { c as int - '0' as int } else { c as int - 'a' as int + 10 }
}

/// Whether `c` is a lowercase hexadecimal digit character.
pub open spec fn is_lower_hex(c: char) -> bool {
    ('0' as int <= c as int <= '9' as int) || ('a' as int <= c as int <= 'f' as int)
}

/// The number that the hexadecimal digits `digits` denote, most significant first.
pub open spec fn hex_digits_value(digits: Seq<char>) -> int
    decreases digits.len(),
{
    if digits.len() == 0 {
        0
    } else {
        hex_digits_value(digits.drop_last()) * 16 + hex_value(digits.last())
    }
}

/// Where the `k`-th hexadecimal digit (0 to 31) stands in the hyphenated form.
pub open spec fn digit_position(k: int) -> int {
    k + (if k >= 8 { 1int } else { 0 }) + (if k >= 12 { 1int } else { 0 }) + (if k >= 16 { 1int } else { 0 })
        + (if k >= 20 { 1int } else { 0 })
}

/// The 32 hexadecimal digits of a hyphenated UUID text, hyphens left out.
pub open spec fn uuid_digits(text: Seq<char>) -> Seq<char> {
    Seq::new(32, |k: int| text[digit_position(k)])
}

proof fn hex_char_value(d: int)
    requires
        0 <= d < 16,
    ensures
        is_lower_hex(hex_char(d)),
        hex_value(hex_char(d)) == d,
{
    if d < 10 {
        digit_char_value(d as nat);
    }
    assert('0' as int == 48 && '9' as int == 57 && 'a' as int == 97 && 'b' as int == 98 && 'c' as int == 99);
    assert('d' as int == 100 && 'e' as int == 101 && 'f' as int == 102);
}

proof fn sixteen_to_the_32nd()
    ensures
        vstd::arithmetic::power::pow(16, 32) == 0x1_0000_0000_0000_0000_0000_0000_0000_0000,
{
    reveal_with_fuel(vstd::arithmetic::power::pow, 33);
}

/// The first `m` digits of the hyphenated form of `id` denote `id` divided
/// by 16 to the power of the remaining digits.
proof fn uuid_prefix_value(id: u128, m: int)
    requires
        0 <= m <= 32,
    ensures
        hex_digits_value(uuid_digits(hyphenated_uuid(id)).take(m))
            == id as int / vstd::arithmetic::power::pow(16, (32 - m) as nat),
    decreases m,
{
    let digits = uuid_digits(hyphenated_uuid(id));
    if m == 0 {
        assert(digits.take(0) =~= Seq::<char>::empty());
        sixteen_to_the_32nd();
        vstd::arithmetic::div_mod::lemma_basic_div(id as int, vstd::arithmetic::power::pow(16, 32));
    } else {
        uuid_prefix_value(id, m - 1);
        let k = m - 1;
        assert(digits.take(m).drop_last() =~= digits.take(k));
        assert(digit_position(k) - hyphens_before(digit_position(k)) == k);
        let a = vstd::arithmetic::power::pow(16, (31 - k) as nat);
        vstd::arithmetic::power::lemma_pow_positive(16, (31 - k) as nat);
        vstd::arithmetic::power::lemma_pow_adds(16, 1, (31 - k) as nat);
        vstd::arithmetic::power::lemma_pow1(16);
        assert(vstd::arithmetic::power::pow(16, (32 - k) as nat) == 16 * a);
        let q = id as int / a;
        vstd::arithmetic::div_mod::lemma_div_denominator(id as int, a, 16);
        assert(id as int / (a * 16) == q / 16);
        assert(a * 16 == 16 * a) by (nonlinear_arith);
        vstd::arithmetic::div_mod::lemma_fundamental_div_mod(q, 16);
        hex_char_value(uuid_nibble(id, k));
        assert(digits.take(m).last() == digits[k]);
        assert(hex_value(digits[k]) == q % 16);
    }
}

/// The hyphenated form of a UUID is 36 characters: hyphens at positions 8,
/// 13, 18 and 23 and lowercase hexadecimal digits elsewhere, and those 32
/// digits read back as the UUID's value.
pub proof fn uuid_text_reads_back(id: u128)
    ensures
        hyphenated_uuid(id).len() == 36,
        hyphenated_uuid(id)[8] == '-' && hyphenated_uuid(id)[13] == '-',
        hyphenated_uuid(id)[18] == '-' && hyphenated_uuid(id)[23] == '-',
        forall|k: int| 0 <= k < 32 ==> is_lower_hex(#[trigger] uuid_digits(hyphenated_uuid(id))[k]),
        hex_digits_value(uuid_digits(hyphenated_uuid(id))) == id,
{
    assert forall|k: int| 0 <= k < 32 implies is_lower_hex(#[trigger] uuid_digits(hyphenated_uuid(id))[k]) by {
        assert(digit_position(k) - hyphens_before(digit_position(k)) == k);
        hex_char_value(uuid_nibble(id, k));
    }
    uuid_prefix_value(id, 32);
    assert(uuid_digits(hyphenated_uuid(id)).take(32) =~= uuid_digits(hyphenated_uuid(id)));
    vstd::arithmetic::power::lemma_pow0(16);
}

/// `uuid::Uuid::from_u128(id).to_string()`. Trusted: uuid formats a UUID
/// through `Display` as its hyphenated lowercase form (`fmt.rs`,
/// `format_hyphenated`), the digits taken from the big-endian bytes of `id`.
#[verifier::external_body]
pub(crate) fn uuid_text(id: u128) -> (text: String)
    ensures
        text@ == hyphenated_uuid(id),
{
    uuid::Uuid::from_u128(id).to_string()
}

/// `uuid::Uuid::new_v4()`, as its 128-bit value. Trusted: uuid draws 128
/// random bits and then sets the version and variant bits (`v4.rs`); which
/// value comes back is left open.
#[verifier::external_body]
pub(crate) fn new_random_uuid() -> (id: u128)
    ensures
        is_random_uuid(id),
{
    uuid::Uuid::new_v4().as_u128()
}

} // verus!
