//! Text helpers shared by the rest of the crate: equality and prefix tests on
//! string slices, trimming, upper-casing, decimal rendering of integers, and
//! incremental construction of `String`s.

use vstd::prelude::*;

verus! {

broadcast use vstd::string::group_string_axioms;

/// `s` starts with `prefix`.
pub open spec fn has_prefix(s: Seq<char>, prefix: Seq<char>) -> bool {
    prefix.len() <= s.len() && s.subrange(0, prefix.len() as int) == prefix
}

/// The characters that carry the Unicode `White_Space` property, which is
/// what `str::trim` removes.
pub open spec fn is_unicode_whitespace(c: char) -> bool {
    ||| ('\u{9}' <= c && c <= '\u{d}')
    ||| c == ' '
    ||| c == '\u{85}'
    ||| c == '\u{a0}'
    ||| c == '\u{1680}'
    ||| ('\u{2000}' <= c && c <= '\u{200a}')
    ||| c == '\u{2028}'
    ||| c == '\u{2029}'
    ||| c == '\u{202f}'
    ||| c == '\u{205f}'
    ||| c == '\u{3000}'
}

/// `s` without its leading whitespace.
pub open spec fn trim_start_spec(s: Seq<char>) -> Seq<char>
    decreases s.len(),
{
    if s.len() > 0 && is_unicode_whitespace(s[0]) {
        trim_start_spec(s.drop_first())
    } else {
        s
    }
}

/// `s` without its trailing whitespace.
pub open spec fn trim_end_spec(s: Seq<char>) -> Seq<char>
    decreases s.len(),
{
    if s.len() > 0 && is_unicode_whitespace(s.last()) {
        trim_end_spec(s.drop_last())
    } else {
        s
    }
}

/// `s` without leading and trailing whitespace.
pub open spec fn trim_spec(s: Seq<char>) -> Seq<char> {
    trim_end_spec(trim_start_spec(s))
}

/// ASCII upper-casing of one character.
pub open spec fn ascii_upper_char(c: char) -> char {
    if 'a' <= c && c <= 'z' {
        ((c as u32) - 32) as char
    } else {
        c
    }
}

/// Every character of `s` is ASCII.
pub open spec fn all_ascii(s: Seq<char>) -> bool {
    forall|i: int| 0 <= i < s.len() ==> (s[i] as u32) < 128
}

/// The Unicode upper-case mapping of a whole string, as `str::to_uppercase`
/// computes it.
pub uninterp spec fn unicode_upper(s: Seq<char>) -> Seq<char>;

/// Equality of two string slices.
///
/// Trusted: `<str as PartialEq>::eq`, which std documents as comparing the
/// two slices character by character.
#[verifier::external_body]
pub(crate) fn str_eq(a: &str, b: &str) -> (r: bool)
    ensures
        r == (a@ == b@),
{
    a == b
}

/// Whether `s` begins with `prefix`.
///
/// Trusted: `str::starts_with` with a `&str` pattern, which std documents as
/// true exactly when `prefix` is a prefix of `s`.
#[verifier::external_body]
pub(crate) fn str_starts_with(s: &str, prefix: &str) -> (r: bool)
    ensures
        r == has_prefix(s@, prefix@),
{
    s.starts_with(prefix)
}

/// `s` with leading and trailing whitespace removed.
///
/// Trusted: `str::trim`, which std documents as removing the leading and
/// trailing characters that have the Unicode `White_Space` property.
#[verifier::external_body]
pub(crate) fn str_trim(s: &str) -> (r: &str)
    ensures
        r@ == trim_spec(s@),
{
    s.trim()
}

/// The upper-case form of `s`.
///
/// Trusted: `str::to_uppercase`. Its result is named `unicode_upper`; the
/// only fact stated beside the name is the one std documents for ASCII input:
/// there each letter `a`..`z` becomes `A`..`Z` and every other character stays.
#[verifier::external_body]
pub(crate) fn str_to_uppercase(s: &str) -> (r: String)
    ensures
        r@ == unicode_upper(s@),
        all_ascii(s@) ==> r@ == s@.map_values(|c: char| ascii_upper_char(c)),
{
    s.to_uppercase()
}

/// Appends one character to a `String`.
///
/// Trusted: `String::push`, which appends `c` at the end.
#[verifier::external_body]
pub(crate) fn string_push(s: &mut String, c: char)
    ensures
        final(s)@ == old(s)@.push(c),
{
    s.push(c);
}

/// An owned copy of a string slice.
pub fn owned(s: &str) -> (r: String)
    ensures
        r@ == s@,
{
    s.to_string()
}

/// The concatenation of two string slices.
pub fn concat2(a: &str, b: &str) -> (r: String)
    ensures
        r@ == a@ + b@,
{
    let mut r = a.to_string();
    r.append(b);
    r
}

/// The concatenation of three string slices.
pub fn concat3(a: &str, b: &str, c: &str) -> (r: String)
    ensures
        r@ == a@ + b@ + c@,
{
    let mut r = a.to_string();
    r.append(b);
    r.append(c);
    r
}

/// The decimal digit character for `d`.
pub open spec fn digit_char(d: nat) -> char {
    ((d % 10) + 48) as char
}

/// The decimal digits of a natural number, most significant first, with no
/// leading zeros (zero itself is `"0"`).
pub open spec fn nat_decimal(n: nat) -> Seq<char>
    decreases n,
{
    if n < 10 {
        seq![digit_char(n)]
    } else {
        nat_decimal(n / 10).push(digit_char(n % 10))
    }
}

/// The decimal rendering of an integer, with a leading `-` when negative,
/// as `Display` writes it for the integer types.
pub open spec fn int_decimal(i: int) -> Seq<char> {
    if i < 0 {
        seq!['-'].add(nat_decimal((-i) as nat))
    } else {
        nat_decimal(i as nat)
    }
}

/// The digit character for a value below ten.
fn digit_to_char(d: u128) -> (c: char)
    requires
        d < 10,
    ensures
        c == digit_char(d as nat),
{
    match d {
        0 => '0',
        1 => '1',
        2 => '2',
        3 => '3',
        4 => '4',
        5 => '5',
        6 => '6',
        7 => '7',
        8 => '8',
        _ => '9',
    }
}

proof fn lemma_decimal_step(m: nat)
    requires
        m >= 10,
    ensures
        nat_decimal(m) == nat_decimal(m / 10).push(digit_char(m % 10)),
{
}

proof fn lemma_push_reverse(ds: Seq<char>, c: char, prefix: Seq<char>)
    ensures
        ds.push(c).reverse() == seq![c] + ds.reverse(),
        prefix.push(c) + ds.reverse() == prefix + ds.push(c).reverse(),
{
    assert(ds.push(c).reverse() =~= seq![c] + ds.reverse());
    assert(prefix.push(c) + ds.reverse() =~= prefix + (seq![c] + ds.reverse()));
}

/// Renders an unsigned number in decimal.
pub fn u128_to_decimal(n: u128) -> (r: String)
    ensures
        r@ == nat_decimal(n as nat),
{
    let mut digits: Vec<char> = Vec::new();
    let mut m: u128 = n;
    loop
        invariant_except_break
            nat_decimal(n as nat) == nat_decimal(m as nat) + digits@.reverse(),
        ensures
            nat_decimal(n as nat) == digits@.reverse(),
        decreases m,
    {
        let d = m % 10;
        let ghost before = digits@;
        let c = digit_to_char(d);
        digits.push(c);
        proof {
            lemma_push_reverse(before, c, nat_decimal((m / 10) as nat));
        }
        if m < 10 {
            assert(nat_decimal(m as nat) =~= seq![digit_char(d as nat)]);
            break;
        }
        proof {
            lemma_decimal_step(m as nat);
        }
        m = m / 10;
    }
    let mut r = String::new();
    let mut i = digits.len();
    while i > 0
        invariant
            i <= digits.len(),
            r@ =~= digits@.reverse().subrange(0, (digits.len() - i) as int),
        decreases i,
    {
        i = i - 1;
        string_push(&mut r, digits[i]);
        assert(r@ =~= digits@.reverse().subrange(0, (digits.len() - i) as int));
    }
    assert(r@ =~= digits@.reverse());
    r
}

/// Renders a signed number in decimal, as `Display` does for `i64`.
pub fn i64_to_decimal(i: i64) -> (r: String)
    ensures
        r@ == int_decimal(i as int),
{
    if i < 0 {
        let magnitude: u128 = (-(i as i128)) as u128;
        let digits = u128_to_decimal(magnitude);
        let mut r = String::new();
        string_push(&mut r, '-');
        r.append(digits.as_str());
        assert(r@ =~= seq!['-'].add(nat_decimal((-(i as int)) as nat)));
        r
    } else {
        u128_to_decimal(i as u128)
    }
}

/// The views of a list of strings.
pub open spec fn string_views(v: Seq<String>) -> Seq<Seq<char>> {
    v.map_values(|s: String| s@)
}

/// The view of an optional string.
pub open spec fn opt_string_view(o: Option<String>) -> Option<Seq<char>> {
    match o {
        Some(s) => Some(s@),
        None => None,
    }
}

} // verus!
