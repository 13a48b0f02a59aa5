//! Strings as sequences of characters: the searching, trimming and number writing that the rest
//! of the library states its contracts over.

use vstd::arithmetic::div_mod::*;
use vstd::arithmetic::power::*;
use vstd::prelude::*;
use vstd::slice::slice_subrange;
use vstd::string::*;

verus! {

/// `String::push` appends one character to the end of the string.
pub assume_specification[ String::push ](s: &mut String, c: char)
    ensures
        final(s)@ == old(s)@.push(c),
;

/// `String::push_str` appends a string slice to the end of the string.
pub assume_specification[ String::push_str ](s: &mut String, other: &str)
    ensures
        final(s)@ == old(s)@ + other@,
;

/// The characters of `s`, in order.
pub fn chars_of(s: &str) -> (chars: Vec<char>)
    ensures
        chars@ == s@,
{
    let mut chars: Vec<char> = Vec::new();
    for c in it: s.chars()
        invariant
            it.seq() == s@,
            chars@ == s@.take(it.index()),
    {
        chars.push(c);
    }
    chars
}

/// The string made of `chars`.
pub fn string_of(chars: &[char]) -> (s: String)
    ensures
        s@ == chars@,
{
    let mut s = String::new();
    let mut i: usize = 0;
    while i < chars.len()
        invariant
            i <= chars.len(),
            s@ == chars@.take(i as int),
        decreases chars.len() - i,
    {
        s.push(chars[i]);
        i += 1;
    }
    s
}

/// `a` followed by `b`.
pub fn cat(a: &str, b: &str) -> (s: String)
    ensures
        s@ == a@ + b@,
{
    let mut s = a.to_owned();
    s.push_str(b);
    s
}

/// `a`, `b` and `c` in a row.
pub fn cat3(a: &str, b: &str, c: &str) -> (s: String)
    ensures
        s@ == a@ + b@ + c@,
{
    let mut s = cat(a, b);
    s.push_str(c);
    s
}

/// `a`, `b`, `c` and `d` in a row.
pub fn cat4(a: &str, b: &str, c: &str, d: &str) -> (s: String)
    ensures
        s@ == a@ + b@ + c@ + d@,
{
    let mut s = cat3(a, b, c);
    s.push_str(d);
    s
}

/// `a`, `b`, `c`, `d` and `e` in a row.
pub fn cat5(a: &str, b: &str, c: &str, d: &str, e: &str) -> (s: String)
    ensures
        s@ == a@ + b@ + c@ + d@ + e@,
{
    let mut s = cat4(a, b, c, d);
    s.push_str(e);
    s
}

/// The character sequences that a sequence of strings holds.
pub open spec fn texts(strings: Seq<String>) -> Seq<Seq<char>> {
    strings.map_values(|s: String| s@)
}

/// The characters that an optional string holds.
pub open spec fn opt_text(s: Option<String>) -> Option<Seq<char>> {
    match s {
        Some(s) => Some(s@),
        None => None,
    }
}

/// Whether `s` begins with `prefix`.
pub fn starts_with(s: &[char], prefix: &[char]) -> (r: bool)
    ensures
        r == prefix@.is_prefix_of(s@),
{
    if prefix.len() > s.len() {
        return false;
    }
    let mut i: usize = 0;
    while i < prefix.len()
        invariant
            i <= prefix.len() <= s.len(),
            forall|j: int| 0 <= j < i ==> prefix@[j] == s@[j],
        decreases prefix.len() - i,
    {
        if prefix[i] != s[i] {
            assert(s@.subrange(0, prefix@.len() as int)[i as int] != prefix@[i as int]);
            return false;
        }
        i += 1;
    }
    assert(s@.subrange(0, prefix@.len() as int) =~= prefix@);
    true
}

/// Whether `s` ends with `suffix`.
pub fn ends_with(s: &[char], suffix: &[char]) -> (r: bool)
    ensures
        r == suffix@.is_suffix_of(s@),
{
    if suffix.len() > s.len() {
        return false;
    }
    let from: usize = s.len() - suffix.len();
    let tail = slice_subrange(s, from, s.len());
    assert(suffix@.is_prefix_of(tail@) == suffix@.is_suffix_of(s@)) by {
        assert(tail@.subrange(0, suffix@.len() as int) =~= tail@);
    }
    starts_with(tail, suffix)
}

/// Whether two strings hold the same characters.
pub fn same(a: &str, b: &str) -> (r: bool)
    ensures
        r == (a@ == b@),
{
    let x = chars_of(a);
    let y = chars_of(b);
    if x.len() != y.len() {
        return false;
    }
    let r = starts_with(x.as_slice(), y.as_slice());
    assert(y@.is_prefix_of(x@) == (x@ == y@)) by {
        assert(x@.subrange(0, y@.len() as int) =~= x@);
    }
    r
}

/// Whether the string `s` begins with the string `prefix`.
pub fn has_prefix(s: &str, prefix: &str) -> (r: bool)
    ensures
        r == prefix@.is_prefix_of(s@),
{
    starts_with(chars_of(s).as_slice(), chars_of(prefix).as_slice())
}

/// Whether the string `s` ends with the string `suffix`.
pub fn has_suffix(s: &str, suffix: &str) -> (r: bool)
    ensures
        r == suffix@.is_suffix_of(s@),
{
    ends_with(chars_of(s).as_slice(), chars_of(suffix).as_slice())
}

/// What is left of `s` behind `prefix`, where `s` begins with it.
pub open spec fn without_prefix(s: Seq<char>, prefix: Seq<char>) -> Option<Seq<char>> {
    if prefix.is_prefix_of(s) {
        Some(s.skip(prefix.len() as int))
    } else {
        None
    }
}

/// Takes `prefix` off the front of `s`, once.
pub fn strip_prefix(s: &str, prefix: &str) -> (r: Option<String>)
    ensures
        opt_text(r) == without_prefix(s@, prefix@),
{
    let chars = chars_of(s);
    let front = chars_of(prefix);
    if starts_with(chars.as_slice(), front.as_slice()) {
        let rest = slice_subrange(chars.as_slice(), front.len(), chars.len());
        assert(rest@ =~= s@.skip(prefix@.len() as int));
        Some(string_of(rest))
    } else {
        None
    }
}

/// `s` with every leading repetition of `prefix` taken off.
pub open spec fn without_prefixes(s: Seq<char>, prefix: Seq<char>) -> Seq<char>
    decreases s.len(),
{
    if prefix.len() > 0 && prefix.is_prefix_of(s) {
        without_prefixes(s.skip(prefix.len() as int), prefix)
    } else {
        s
    }
}

/// Takes `prefix` off the front of `s` as often as it stands there.
pub fn trim_start_matches(s: &str, prefix: &str) -> (r: String)
    ensures
        r@ == without_prefixes(s@, prefix@),
{
    let chars = chars_of(s);
    let front = chars_of(prefix);
    let mut i: usize = 0;
    let mut more = front.len() > 0;
    assert(s@.skip(0) =~= s@);
    while more
        invariant
            chars@ == s@,
            front@ == prefix@,
            i <= chars.len(),
            more ==> front.len() > 0,
            without_prefixes(s@, prefix@) == without_prefixes(s@.skip(i as int), prefix@),
            !more ==> without_prefixes(s@, prefix@) == s@.skip(i as int),
        decreases chars.len() - i, more as int,
    {
        let rest = slice_subrange(chars.as_slice(), i, chars.len());
        assert(rest@ =~= s@.skip(i as int));
        if starts_with(rest, front.as_slice()) {
            assert(s@.skip(i as int).skip(prefix@.len() as int) =~= s@.skip(i + prefix@.len()));
            i += front.len();
        } else {
            more = false;
        }
    }
    let rest = slice_subrange(chars.as_slice(), i, chars.len());
    assert(rest@ =~= s@.skip(i as int));
    string_of(rest)
}

/// Whether `c` has the Unicode property `White_Space`.
pub open spec fn white_space(c: char) -> bool {
    ||| '\u{9}' <= c <= '\u{d}'
    ||| c == ' '
    ||| c == '\u{85}'
    ||| c == '\u{a0}'
    ||| c == '\u{1680}'
    ||| '\u{2000}' <= c <= '\u{200a}'
    ||| c == '\u{2028}'
    ||| c == '\u{2029}'
    ||| c == '\u{202f}'
    ||| c == '\u{205f}'
    ||| c == '\u{3000}'
}

/// Tests a character for white space.
pub fn is_white_space(c: char) -> (r: bool)
    ensures
        r == white_space(c),
{
    ('\u{9}' <= c && c <= '\u{d}') || c == ' ' || c == '\u{85}' || c == '\u{a0}' || c == '\u{1680}'
        || ('\u{2000}' <= c && c <= '\u{200a}') || c == '\u{2028}' || c == '\u{2029}'
        || c == '\u{202f}' || c == '\u{205f}' || c == '\u{3000}'
}

/// `s` without the white space at its two ends.
pub open spec fn trimmed(s: Seq<char>) -> Seq<char>
    decreases s.len(),
{
    if s.len() > 0 && white_space(s[0]) {
        trimmed(s.skip(1))
    } else if s.len() > 0 && white_space(s.last()) {
        trimmed(s.drop_last())
    } else {
        s
    }
}

/// Takes the white space off both ends of `s`.
pub fn trim(s: &str) -> (r: String)
    ensures
        r@ == trimmed(s@),
{
    let chars = chars_of(s);
    let mut lo: usize = 0;
    let mut hi: usize = chars.len();
    assert(s@.subrange(0, s@.len() as int) =~= s@);
    while lo < hi && is_white_space(chars[lo])
        invariant
            chars@ == s@,
            lo <= hi <= chars.len(),
            trimmed(s@) == trimmed(s@.subrange(lo as int, hi as int)),
        decreases hi - lo,
    {
        assert(s@.subrange(lo as int, hi as int).skip(1) =~= s@.subrange(lo + 1, hi as int));
        lo += 1;
    }
    while lo < hi && is_white_space(chars[hi - 1])
        invariant
            chars@ == s@,
            lo <= hi <= chars.len(),
            lo < hi ==> !white_space(s@[lo as int]),
            trimmed(s@) == trimmed(s@.subrange(lo as int, hi as int)),
        decreases hi - lo,
    {
        assert(s@.subrange(lo as int, hi as int).drop_last() =~= s@.subrange(lo as int, hi - 1));
        hi -= 1;
    }
    let core = slice_subrange(chars.as_slice(), lo, hi);
    assert(core@ =~= s@.subrange(lo as int, hi as int));
    string_of(core)
}

/// The value of a hexadecimal digit.
pub open spec fn hex_digit(c: char) -> Option<nat> {
    if '0' <= c <= '9' {
        Some((c as nat - '0' as nat) as nat)
    } else if 'a' <= c <= 'f' {
        Some((c as nat - 'a' as nat + 10) as nat)
    } else if 'A' <= c <= 'F' {
        Some((c as nat - 'A' as nat + 10) as nat)
    } else {
        None
    }
}

/// Whether every character is a hexadecimal digit.
pub open spec fn all_hex(s: Seq<char>) -> bool {
    forall|i: int| 0 <= i < s.len() ==> hex_digit(#[trigger] s[i]) is Some
}

/// The number that a sequence of hexadecimal digits writes.
pub open spec fn hex_value(s: Seq<char>) -> nat
    decreases s.len(),
{
    if s.len() == 0 {
        0
    } else {
        16 * hex_value(s.drop_last()) + hex_digit(s.last())->0
    }
}

/// The digits of a number that may carry a plus sign.
pub open spec fn unsigned_digits(s: Seq<char>) -> Seq<char> {
    if s.len() > 0 && s[0] == '+' {
        s.skip(1)
    } else {
        s
    }
}

/// The hexadecimal number that `s` writes, if it writes one that fits 32 bits.
pub open spec fn hex_u32(s: Seq<char>) -> Option<u32> {
    let digits = unsigned_digits(s);
    if digits.len() > 0 && all_hex(digits) && hex_value(digits) <= u32::MAX {
        Some(hex_value(digits) as u32)
    } else {
        None
    }
}

/// A longer number is no smaller.
proof fn lemma_hex_value_grows(s: Seq<char>, n: int)
    requires
        0 <= n <= s.len(),
    ensures
        hex_value(s.take(n)) <= hex_value(s),
    decreases s.len(),
{
    if n < s.len() {
        lemma_hex_value_grows(s.drop_last(), n);
        assert(s.drop_last().take(n) =~= s.take(n));
    } else {
        assert(s.take(n) =~= s);
    }
}

/// Reads a hexadecimal number: an optional plus sign, then one digit or more.
pub fn parse_hex_u32(s: &str) -> (r: Option<u32>)
    ensures
        r == hex_u32(s@),
{
    let chars = chars_of(s);
    let from: usize = if chars.len() > 0 && chars[0] == '+' { 1 } else { 0 };
    let digits = slice_subrange(chars.as_slice(), from, chars.len());
    assert(digits@ =~= unsigned_digits(s@));
    if digits.len() == 0 {
        return None;
    }
    let mut value: u32 = 0;
    let mut i: usize = 0;
    assert(digits@.take(0) =~= Seq::<char>::empty());
    while i < digits.len()
        invariant
            i <= digits.len(),
            digits@ == unsigned_digits(s@),
            all_hex(digits@.take(i as int)),
            value == hex_value(digits@.take(i as int)),
        decreases digits.len() - i,
    {
        let c = digits[i];
        let ghost before = digits@.take(i as int);
        let ghost after = digits@.take(i + 1);
        assert(after.drop_last() =~= before);
        assert(after.last() == c);
        let digit: u32 = if '0' <= c && c <= '9' {
            c as u32 - '0' as u32
        } else if 'a' <= c && c <= 'f' {
            c as u32 - 'a' as u32 + 10
        } else if 'A' <= c && c <= 'F' {
            c as u32 - 'A' as u32 + 10
        } else {
            assert(hex_digit(digits@[i as int]) is None);
            return None;
        };
        if value > (u32::MAX - digit) / 16 {
            proof {
                assert(hex_value(after) > u32::MAX);
                lemma_hex_value_grows(digits@, i + 1);
            }
            return None;
        }
        value = 16 * value + digit;
        assert forall|j: int| 0 <= j < after.len() implies hex_digit(#[trigger] after[j]) is Some by {
            if j < i {
                assert(before[j] == after[j]);
            }
        }
        i += 1;
    }
    assert(digits@.take(digits@.len() as int) =~= digits@);
    Some(value)
}

/// The decimal digit that writes `d`.
pub open spec fn digit(d: nat) -> char {
    (d + '0' as nat) as char
}

/// The decimal writing of `n`.
pub open spec fn decimal(n: nat) -> Seq<char>
    decreases n,
{
    if n < 10 {
        seq![digit(n)]
    } else {
        decimal(n / 10).push(digit(n % 10))
    }
}

/// Whether `c` is a decimal digit.
pub open spec fn is_digit(c: char) -> bool {
    '0' <= c <= '9'
}

/// A decimal writing has a digit, and has nothing but digits.
pub proof fn lemma_decimal_digits(n: nat)
    ensures
        decimal(n).len() > 0,
        forall|i: int| 0 <= i < decimal(n).len() ==> is_digit(#[trigger] decimal(n)[i]),
    decreases n,
{
    if n >= 10 {
        lemma_decimal_digits(n / 10);
    }
}

/// Two numbers with the same decimal writing are the same number.
pub proof fn lemma_decimal_injective(a: nat, b: nat)
    requires
        decimal(a) == decimal(b),
    ensures
        a == b,
    decreases a,
{
    lemma_decimal_digits(a / 10);
    lemma_decimal_digits(b / 10);
    assert(decimal(a).last() == digit(a % 10));
    assert(decimal(b).last() == digit(b % 10));
    assert(a % 10 == b % 10);
    if a >= 10 && b >= 10 {
        assert(decimal(a).drop_last() =~= decimal(a / 10));
        assert(decimal(b).drop_last() =~= decimal(b / 10));
        lemma_decimal_injective(a / 10, b / 10);
    } else if a >= 10 {
        assert(decimal(a).len() > 1);
    } else if b >= 10 {
        assert(decimal(b).len() > 1);
    }
}

/// The decimal digit below ten.
fn digit_char(d: u8) -> (c: char)
    requires
        d < 10,
    ensures
        c == digit(d as nat),
{
    (d + 48) as char
}

/// Writes `n` in decimal.
pub fn decimal_of(n: u128) -> (s: String)
    ensures
        s@ == decimal(n as nat),
    decreases n,
{
    if n < 10 {
        let mut s = String::new();
        s.push(digit_char(n as u8));
        s
    } else {
        let mut s = decimal_of(n / 10);
        s.push(digit_char((n % 10) as u8));
        s
    }
}

/// Where `c` first stands in `s`, if it does.
pub open spec fn first_at(s: Seq<char>, c: char) -> Option<int>
    decreases s.len(),
{
    if s.len() == 0 {
        None
    } else if s[0] == c {
        Some(0)
    } else {
        match first_at(s.skip(1), c) {
            Some(i) => Some(i + 1),
            None => None,
        }
    }
}

/// The first place of `c` holds it, and no earlier place does.
pub proof fn lemma_first_at(s: Seq<char>, c: char)
    ensures
        first_at(s, c) matches Some(i) ==> 0 <= i < s.len() && s[i] == c && (forall|j: int|
            0 <= j < i ==> s[j] != c),
        first_at(s, c) is None ==> forall|j: int| 0 <= j < s.len() ==> s[j] != c,
    decreases s.len(),
{
    if s.len() > 0 && s[0] != c {
        lemma_first_at(s.skip(1), c);
        assert forall|j: int| 1 <= j < s.len() implies s[j] == s.skip(1)[j - 1] by {}
        if first_at(s.skip(1), c) is None {
            assert forall|j: int| 0 <= j < s.len() implies s[j] != c by {
                if j > 0 {
                    assert(s.skip(1)[j - 1] != c);
                }
            }
        } else {
            let i = first_at(s.skip(1), c)->0;
            assert forall|j: int| 0 <= j < i + 1 implies s[j] != c by {
                if j > 0 {
                    assert(s.skip(1)[j - 1] != c);
                }
            }
        }
    }
}

/// The two sides of the first `c` in `s`.
pub open spec fn split_at_first(s: Seq<char>, c: char) -> Option<(Seq<char>, Seq<char>)> {
    match first_at(s, c) {
        Some(i) => Some((s.take(i), s.skip(i + 1))),
        None => None,
    }
}

/// Splits `s` around its first `c`.
pub fn split_once(s: &str, c: char) -> (r: Option<(String, String)>)
    ensures
        match r {
            Some((a, b)) => split_at_first(s@, c) == Some((a@, b@)),
            None => split_at_first(s@, c) is None,
        },
{
    let chars = chars_of(s);
    let mut i: usize = 0;
    proof {
        lemma_first_at(s@, c);
    }
    while i < chars.len()
        invariant
            chars@ == s@,
            i <= chars.len(),
            forall|j: int| 0 <= j < i ==> s@[j] != c,
            first_at(s@, c) matches Some(k) ==> 0 <= k < s@.len() && s@[k] == c && (forall|j: int|
                0 <= j < k ==> s@[j] != c),
            first_at(s@, c) is None ==> forall|j: int| 0 <= j < s@.len() ==> s@[j] != c,
        decreases chars.len() - i,
    {
        if chars[i] == c {
            assert(first_at(s@, c) == Some(i as int));
            let a = slice_subrange(chars.as_slice(), 0, i);
            let b = slice_subrange(chars.as_slice(), i + 1, chars.len());
            assert(a@ =~= s@.take(i as int));
            assert(b@ =~= s@.skip(i + 1));
            return Some((string_of(a), string_of(b)));
        }
        i += 1;
    }
    None
}

/// `c` with an upper-case ASCII letter made lower-case.
pub open spec fn ascii_lower(c: char) -> char {
    if 'A' <= c <= 'Z' {
        (c as u32 + 32) as char
    } else {
        c
    }
}

/// `c` with a lower-case ASCII letter made upper-case.
pub open spec fn ascii_upper(c: char) -> char {
    if 'a' <= c <= 'z' {
        (c as u32 - 32) as char
    } else {
        c
    }
}

/// Whether `c` is an ASCII letter or digit.
pub open spec fn ascii_alphanumeric(c: char) -> bool {
    ||| '0' <= c <= '9'
    ||| 'A' <= c <= 'Z'
    ||| 'a' <= c <= 'z'
}

/// Whether two strings differ in nothing but the case of ASCII letters.
pub open spec fn same_but_ascii_case(a: Seq<char>, b: Seq<char>) -> bool {
    a.map_values(|c: char| ascii_lower(c)) == b.map_values(|c: char| ascii_lower(c))
}

/// The lower-case form of an ASCII letter, any other character as it is.
fn lower(c: char) -> (r: char)
    ensures
        r == ascii_lower(c),
{
    if 'A' <= c && c <= 'Z' {
        (c as u8 + 32) as char
    } else {
        c
    }
}

/// Compares two strings, with the case of ASCII letters put aside.
pub fn eq_ignore_ascii_case(a: &str, b: &str) -> (r: bool)
    ensures
        r == same_but_ascii_case(a@, b@),
{
    let x = chars_of(a);
    let y = chars_of(b);
    let ghost p = a@.map_values(|c: char| ascii_lower(c));
    let ghost q = b@.map_values(|c: char| ascii_lower(c));
    if x.len() != y.len() {
        assert(p.len() != q.len());
        return false;
    }
    let mut i: usize = 0;
    while i < x.len()
        invariant
            x@ == a@,
            y@ == b@,
            x.len() == y.len(),
            i <= x.len(),
            p == a@.map_values(|c: char| ascii_lower(c)),
            q == b@.map_values(|c: char| ascii_lower(c)),
            forall|j: int| 0 <= j < i ==> p[j] == q[j],
        decreases x.len() - i,
    {
        if lower(x[i]) != lower(y[i]) {
            assert(p[i as int] != q[i as int]);
            return false;
        }
        i += 1;
    }
    assert(p =~= q);
    true
}

/// `s` with every occurrence of `from` replaced by `to`, from left to right and without looking
/// into what was put in.
pub open spec fn replaced(s: Seq<char>, from: Seq<char>, to: Seq<char>) -> Seq<char>
    decreases s.len(),
{
    if from.len() == 0 || s.len() < from.len() {
        s
    } else if from.is_prefix_of(s) {
        to + replaced(s.skip(from.len() as int), from, to)
    } else {
        seq![s[0]] + replaced(s.skip(1), from, to)
    }
}

/// Replaces every occurrence of `from`.
pub fn replace(s: &str, from: &str, to: &str) -> (r: String)
    requires
        from@.len() > 0,
    ensures
        r@ == replaced(s@, from@, to@),
{
    let chars = chars_of(s);
    let old_chars = chars_of(from);
    let mut r = String::new();
    let mut i: usize = 0;
    assert(s@.skip(0) =~= s@);
    assert(r@ + replaced(s@.skip(0), from@, to@) =~= replaced(s@, from@, to@));
    while chars.len() - i >= old_chars.len()
        invariant
            chars@ == s@,
            old_chars@ == from@,
            from@.len() > 0,
            i <= chars.len(),
            r@ + replaced(s@.skip(i as int), from@, to@) == replaced(s@, from@, to@),
        decreases chars.len() - i,
    {
        let rest = slice_subrange(chars.as_slice(), i, chars.len());
        assert(rest@ =~= s@.skip(i as int));
        let ghost before = r@;
        if starts_with(rest, old_chars.as_slice()) {
            r.push_str(to);
            assert(s@.skip(i as int).skip(from@.len() as int) =~= s@.skip(i + from@.len()));
            assert(r@ + replaced(s@.skip(i + from@.len()), from@, to@) =~= before + (to@ + replaced(
                s@.skip(i + from@.len()),
                from@,
                to@,
            )));
            i += old_chars.len();
        } else {
            r.push(chars[i]);
            assert(s@.skip(i as int).skip(1) =~= s@.skip(i + 1));
            assert(r@ + replaced(s@.skip(i + 1), from@, to@) =~= before + (seq![s@[i as int]]
                + replaced(s@.skip(i + 1), from@, to@)));
            i += 1;
        }
    }
    let rest = string_of(slice_subrange(chars.as_slice(), i, chars.len()));
    assert(rest@ =~= s@.skip(i as int));
    r.push_str(rest.as_str());
    r
}

/// The strings of a list stand in its texts one for one.
pub proof fn texts_are_the_strings(strings: Seq<String>, i: int)
    ensures
        texts(strings).len() == strings.len(),
        0 <= i < strings.len() ==> texts(strings)[i] == strings[i]@,
{
}

/// Taking a prefix off is undone by putting it back: `rest` is what is left just where the prefix
/// and `rest` make up the whole.
pub proof fn a_prefix_can_be_put_back(s: Seq<char>, prefix: Seq<char>, rest: Seq<char>)
    ensures
        without_prefix(s, prefix) == Some(rest) <==> s == prefix + rest,
{
    if prefix.is_prefix_of(s) {
        assert(prefix + s.skip(prefix.len() as int) =~= s);
    }
    if s == prefix + rest {
        assert(s.subrange(0, prefix.len() as int) =~= prefix);
        assert(s.skip(prefix.len() as int) =~= rest);
    }
}

/// A text made of `n` repetitions of `part`.
pub open spec fn repeated(part: Seq<char>, n: nat) -> Seq<char>
    decreases n,
{
    if n == 0 {
        seq![]
    } else {
        part + repeated(part, (n - 1) as nat)
    }
}

/// However often a prefix stands in front of a text that does not begin with it, that text is what
/// is left.
pub proof fn every_leading_prefix_goes(prefix: Seq<char>, n: nat, rest: Seq<char>)
    requires
        prefix.len() > 0,
        !prefix.is_prefix_of(rest),
    ensures
        without_prefixes(repeated(prefix, n) + rest, prefix) == rest,
    decreases n,
{
    let s = repeated(prefix, n) + rest;
    if n == 0 {
        assert(s =~= rest);
    } else {
        let shorter = repeated(prefix, (n - 1) as nat) + rest;
        every_leading_prefix_goes(prefix, (n - 1) as nat, rest);
        assert(s.subrange(0, prefix.len() as int) =~= prefix);
        assert(s.skip(prefix.len() as int) =~= shorter);
    }
}

/// White space round a text that neither begins nor ends with any is trimmed off, and nothing else
/// is.
pub proof fn trimming_takes_the_white_space_only(before: Seq<char>, core: Seq<char>, behind: Seq<char>)
    requires
        forall|i: int| 0 <= i < before.len() ==> white_space(#[trigger] before[i]),
        forall|i: int| 0 <= i < behind.len() ==> white_space(#[trigger] behind[i]),
        core.len() > 0 ==> !white_space(core[0]) && !white_space(core.last()),
    ensures
        trimmed(before + core + behind) == core,
    decreases before.len() + behind.len(),
{
    let s = before + core + behind;
    if before.len() > 0 {
        assert(s[0] == before[0]);
        let fewer = before.skip(1);
        assert forall|i: int| 0 <= i < fewer.len() implies white_space(#[trigger] fewer[i]) by {
            assert(fewer[i] == before[i + 1]);
        }
        trimming_takes_the_white_space_only(fewer, core, behind);
        assert(s.skip(1) =~= fewer + core + behind);
    } else if behind.len() > 0 {
        assert(s.last() == behind.last());
        assert(behind.last() == behind[behind.len() - 1]);
        if core.len() > 0 {
            assert(s[0] == core[0]);
            let fewer = behind.drop_last();
            assert forall|i: int| 0 <= i < fewer.len() implies white_space(#[trigger] fewer[i]) by {
                assert(fewer[i] == behind[i]);
            }
            trimming_takes_the_white_space_only(before, core, fewer);
            assert(s.drop_last() =~= before + core + fewer);
        } else {
            assert(s[0] == behind[0]);
            let fewer = behind.skip(1);
            assert forall|i: int| 0 <= i < fewer.len() implies white_space(#[trigger] fewer[i]) by {
                assert(fewer[i] == behind[i + 1]);
            }
            trimming_takes_the_white_space_only(before, core, fewer);
            assert(s.skip(1) =~= before + core + fewer);
        }
    } else {
        assert(s =~= core);
    }
}

/// A text is white space that is trimmed off, what trimming leaves, and white space again.
pub proof fn trimming_leaves_a_core(s: Seq<char>) -> (sides: (Seq<char>, Seq<char>))
    ensures
        s == sides.0 + trimmed(s) + sides.1,
        forall|i: int| 0 <= i < sides.0.len() ==> white_space(#[trigger] sides.0[i]),
        forall|i: int| 0 <= i < sides.1.len() ==> white_space(#[trigger] sides.1[i]),
        trimmed(s).len() > 0 ==> !white_space(trimmed(s)[0]) && !white_space(trimmed(s).last()),
    decreases s.len(),
{
    if s.len() > 0 && white_space(s[0]) {
        let (before, behind) = trimming_leaves_a_core(s.skip(1));
        let longer = seq![s[0]] + before;
        assert(s =~= longer + trimmed(s) + behind) by {
            assert(s =~= seq![s[0]] + s.skip(1));
        }
        assert forall|i: int| 0 <= i < longer.len() implies white_space(#[trigger] longer[i]) by {
            if i > 0 {
                assert(longer[i] == before[i - 1]);
            }
        }
        (longer, behind)
    } else if s.len() > 0 && white_space(s.last()) {
        let (before, behind) = trimming_leaves_a_core(s.drop_last());
        let longer = behind.push(s.last());
        assert(s =~= before + trimmed(s) + longer) by {
            assert(s =~= s.drop_last().push(s.last()));
        }
        (before, longer)
    } else {
        assert(s =~= Seq::<char>::empty() + trimmed(s) + Seq::<char>::empty());
        (seq![], seq![])
    }
}

/// Whether `s` writes `n` in decimal: each digit stands for its power of ten, and there are no more
/// digits than it takes.
pub open spec fn writes_number(s: Seq<char>, n: nat) -> bool {
    &&& s.len() > 0
    &&& n < pow(10, s.len())
    &&& s.len() > 1 ==> n >= pow(10, (s.len() - 1) as nat)
    &&& forall|i: int|
        0 <= i < s.len() ==> #[trigger] s[i] as int == 48 + (n as int / pow(10, (s.len() - 1 - i) as nat)) % 10
}

proof fn lemma_decimal_writes(n: nat)
    ensures
        writes_number(decimal(n), n),
    decreases n,
{
    let s = decimal(n);
    reveal(pow);
    assert(pow(10, 0) == 1);
    if n < 10 {
        assert(pow(10, 1) == 10 * pow(10, 0));
        assert(s[0] as int == 48 + n);
        assert forall|i: int| 0 <= i < s.len() implies #[trigger] s[i] as int == 48 + (n as int / pow(
            10,
            (s.len() - 1 - i) as nat,
        )) % 10 by {
            assert(i == 0);
        }
    } else {
        let d = decimal(n / 10);
        let l = d.len();
        lemma_decimal_writes(n / 10);
        assert(s.len() == l + 1);
        assert(pow(10, l + 1) == 10 * pow(10, l));
        if l > 1 {
            assert(pow(10, l) == 10 * pow(10, (l - 1) as nat));
        } else {
            assert(pow(10, 1) == 10 * pow(10, 0));
        }
        assert forall|i: int| 0 <= i < s.len() implies #[trigger] s[i] as int == 48 + (n as int / pow(
            10,
            (s.len() - 1 - i) as nat,
        )) % 10 by {
            if i < l {
                let m = (l - 1 - i) as nat;
                assert(s[i] == d[i]);
                lemma_pow_positive(10, m);
                lemma_div_denominator(n as int, 10, pow(10, m));
                assert(pow(10, m + 1) == 10 * pow(10, m));
            } else {
                assert(s[i] == digit(n % 10));
            }
        }
    }
}

/// The decimal writing of a number is the one text that writes it.
pub proof fn a_number_has_one_writing(s: Seq<char>, n: nat)
    ensures
        writes_number(s, n) <==> s == decimal(n),
{
    lemma_decimal_writes(n);
    let d = decimal(n);
    if writes_number(s, n) {
        if s.len() < d.len() {
            lemma_pow_increases(10, s.len(), (d.len() - 1) as nat);
        }
        if d.len() < s.len() {
            lemma_pow_increases(10, d.len(), (s.len() - 1) as nat);
        }
        assert forall|i: int| 0 <= i < s.len() implies s[i] == d[i] by {
            assert(s[i] as int == d[i] as int);
        }
        assert(s =~= d);
    }
}

/// Two numbers are written differently.
pub proof fn numbers_are_told_apart(s: Seq<char>, a: nat, b: nat)
    requires
        writes_number(s, a),
        writes_number(s, b),
    ensures
        a == b,
{
    a_number_has_one_writing(s, a);
    a_number_has_one_writing(s, b);
    lemma_decimal_injective(a, b);
}

/// A hexadecimal digit, in either case, by its value.
pub open spec fn is_hex_digit_for(c: char, d: int) -> bool {
    0 <= d < 16 && (c == "0123456789abcdef"@[d] || c == "0123456789ABCDEF"@[d])
}

proof fn lemma_hex_digit(c: char, d: nat)
    ensures
        hex_digit(c) == Some(d) <==> is_hex_digit_for(c, d as int),
{
    reveal_strlit("0123456789abcdef");
    reveal_strlit("0123456789ABCDEF");
    let (lo, up) = ("0123456789abcdef"@, "0123456789ABCDEF"@);
    assert(lo[0] == '0' && lo[1] == '1' && lo[2] == '2' && lo[3] == '3' && lo[4] == '4' && lo[5] == '5'
        && lo[6] == '6' && lo[7] == '7' && lo[8] == '8' && lo[9] == '9' && lo[10] == 'a' && lo[11] == 'b'
        && lo[12] == 'c' && lo[13] == 'd' && lo[14] == 'e' && lo[15] == 'f');
    assert(up[0] == '0' && up[1] == '1' && up[2] == '2' && up[3] == '3' && up[4] == '4' && up[5] == '5'
        && up[6] == '6' && up[7] == '7' && up[8] == '8' && up[9] == '9' && up[10] == 'A' && up[11] == 'B'
        && up[12] == 'C' && up[13] == 'D' && up[14] == 'E' && up[15] == 'F');
}

/// Whether `s` writes `n` in hexadecimal: each digit stands for its power of sixteen.
pub open spec fn writes_hex(s: Seq<char>, n: nat) -> bool {
    &&& s.len() > 0
    &&& n < pow(16, s.len())
    &&& forall|i: int|
        0 <= i < s.len() ==> is_hex_digit_for(#[trigger] s[i], (n as int / pow(16, (s.len() - 1 - i) as nat)) % 16)
}

proof fn lemma_hex_value_writes(s: Seq<char>)
    requires
        s.len() > 0,
        all_hex(s),
    ensures
        writes_hex(s, hex_value(s)),
    decreases s.len(),
{
    let n = hex_value(s);
    let front = s.drop_last();
    let last = hex_digit(s.last())->0;
    reveal(pow);
    assert(pow(16, 0) == 1);
    assert(pow(16, s.len()) == 16 * pow(16, front.len()));
    assert(s[s.len() - 1] == s.last());
    lemma_hex_digit(s.last(), last);
    assert(n == 16 * hex_value(front) + last);
    assert(n / 16 == hex_value(front) && n % 16 == last);
    if front.len() > 0 {
        assert forall|i: int| 0 <= i < front.len() implies hex_digit(#[trigger] front[i]) is Some by {
            assert(front[i] == s[i]);
        }
        lemma_hex_value_writes(front);
    } else {
        assert(hex_value(front) == 0);
    }
    assert forall|i: int| 0 <= i < s.len() implies is_hex_digit_for(
        #[trigger] s[i],
        (n as int / pow(16, (s.len() - 1 - i) as nat)) % 16,
    ) by {
        if i < front.len() {
            let m = (front.len() - 1 - i) as nat;
            assert(s[i] == front[i]);
            lemma_pow_positive(16, m);
            lemma_div_denominator(n as int, 16, pow(16, m));
            assert(pow(16, m + 1) == 16 * pow(16, m));
        }
    }
}

proof fn lemma_writes_hex_value(s: Seq<char>, n: nat)
    requires
        writes_hex(s, n),
    ensures
        all_hex(s),
        hex_value(s) == n,
    decreases s.len(),
{
    let front = s.drop_last();
    reveal(pow);
    assert(pow(16, 0) == 1);
    assert(pow(16, s.len()) == 16 * pow(16, front.len()));
    assert(s[s.len() - 1] == s.last());
    assert(is_hex_digit_for(s[s.len() - 1], n as int % 16)) by {
        assert(n as int / pow(16, 0) == n);
    }
    lemma_hex_digit(s.last(), n % 16);
    assert(hex_value(s) == 16 * hex_value(front) + n % 16);
    assert(n == 16 * (n / 16) + n % 16);
    if front.len() > 0 {
        assert forall|i: int| 0 <= i < front.len() implies is_hex_digit_for(
            #[trigger] front[i],
            ((n / 16) as int / pow(16, (front.len() - 1 - i) as nat)) % 16,
        ) by {
            let m = (front.len() - 1 - i) as nat;
            assert(s[i] == front[i]);
            lemma_pow_positive(16, m);
            lemma_div_denominator(n as int, 16, pow(16, m));
            assert(pow(16, m + 1) == 16 * pow(16, m));
        }
        assert(n / 16 < pow(16, front.len()));
        lemma_writes_hex_value(front, n / 16);
        assert(hex_value(front) == n / 16);
    } else {
        assert(hex_value(front) == 0);
        assert(pow(16, front.len()) == 1);
        assert(n < 16);
    }
    assert forall|i: int| 0 <= i < s.len() implies hex_digit(#[trigger] s[i]) is Some by {
        if i < front.len() {
            assert(s[i] == front[i]);
        }
    }
}

/// A text reads as a 32-bit number just where it writes that number in hexadecimal, a plus sign in
/// front or not.
pub proof fn a_hex_number_is_what_its_digits_write(s: Seq<char>, n: u32)
    ensures
        hex_u32(s) == Some(n) <==> writes_hex(s, n as nat) || (s.len() > 0 && s[0] == '+' && writes_hex(
            s.skip(1),
            n as nat,
        )),
{
    let digits = unsigned_digits(s);
    if hex_u32(s) == Some(n) {
        lemma_hex_value_writes(digits);
    }
    if writes_hex(digits, n as nat) {
        lemma_writes_hex_value(digits, n as nat);
    }
    if s.len() > 0 && s[0] == '+' && writes_hex(s, n as nat) {
        lemma_writes_hex_value(s, n as nat);
        assert(hex_digit(s[0]) is Some);
    }
}

/// A text splits in two just where a first `c` stands between the two sides, and does not where it
/// holds none.
pub proof fn a_split_is_round_the_first(s: Seq<char>, c: char, a: Seq<char>, b: Seq<char>)
    ensures
        split_at_first(s, c) == Some((a, b)) <==> s == a + seq![c] + b && !a.contains(c),
        split_at_first(s, c) is None <==> !s.contains(c),
{
    lemma_first_at(s, c);
    if let Some(i) = first_at(s, c) {
        assert(s.take(i) + seq![c] + s.skip(i + 1) =~= s);
        assert(s[i] == c);
        assert forall|j: int| 0 <= j < i implies s.take(i)[j] != c by {
            assert(s.take(i)[j] == s[j]);
        }
    }
    if s == a + seq![c] + b && !a.contains(c) {
        let k = a.len() as int;
        assert(s[k] == c);
        let i = first_at(s, c)->0;
        assert(first_at(s, c) is Some);
        if i < k {
            assert(a[i] == s[i]);
        }
        assert(i == k);
        assert(s.take(k) =~= a);
        assert(s.skip(k + 1) =~= b);
    }
}

/// Whether two characters are the same letter, or the upper and the lower case of one ASCII letter.
pub open spec fn same_letter(a: char, b: char) -> bool {
    ||| a == b
    ||| 'A' <= a <= 'Z' && b as int == a as int + 32
    ||| 'A' <= b <= 'Z' && a as int == b as int + 32
}

/// Two texts are the same but for the case of ASCII letters just where they are of one length and
/// the same letter by letter.
pub proof fn ascii_case_is_all_that_is_put_aside(a: Seq<char>, b: Seq<char>)
    ensures
        same_but_ascii_case(a, b) <==> a.len() == b.len() && forall|i: int|
            0 <= i < a.len() ==> same_letter(#[trigger] a[i], b[i]),
{
    let p = a.map_values(|c: char| ascii_lower(c));
    let q = b.map_values(|c: char| ascii_lower(c));
    if same_but_ascii_case(a, b) {
        assert(p.len() == q.len());
        assert forall|i: int| 0 <= i < a.len() implies same_letter(#[trigger] a[i], b[i]) by {
            assert(p[i] == q[i]);
            assert(ascii_lower(a[i]) as int == ascii_lower(b[i]) as int);
        }
    }
    if a.len() == b.len() && forall|i: int| 0 <= i < a.len() ==> same_letter(#[trigger] a[i], b[i]) {
        assert forall|i: int| 0 <= i < p.len() implies p[i] == q[i] by {
            assert(same_letter(a[i], b[i]));
        }
        assert(p =~= q);
    }
}

/// An upper-case ASCII letter is thirty-two before its lower-case form; every other character is
/// its own upper case.
pub proof fn upper_case_is_letter_by_letter(c: char)
    ensures
        'a' <= c <= 'z' ==> ascii_upper(c) as int == c as int - 32,
        !('a' <= c <= 'z') ==> ascii_upper(c) == c,
{
}

/// What stands in front of the first occurrence stays, the occurrence is replaced, and the rest is
/// gone through in the same way. A text without an occurrence stays as it is.
pub proof fn replacing_goes_from_occurrence_to_occurrence(before: Seq<char>, from: Seq<char>, rest: Seq<char>, to: Seq<char>)
    requires
        from.len() > 0,
        forall|i: int|
            0 <= i < before.len() ==> !from.is_prefix_of(#[trigger] (before + from + rest).skip(i)),
    ensures
        replaced(before + from + rest, from, to) == before + to + replaced(rest, from, to),
    decreases before.len(),
{
    let s = before + from + rest;
    if before.len() == 0 {
        assert(s.subrange(0, from.len() as int) =~= from);
        assert(s.skip(from.len() as int) =~= rest);
        assert(before + to + replaced(rest, from, to) =~= to + replaced(rest, from, to));
    } else {
        assert(s.skip(0) =~= s);
        let shorter = before.skip(1);
        let t = shorter + from + rest;
        assert(s.skip(1) =~= t);
        assert forall|i: int| 0 <= i < shorter.len() implies !from.is_prefix_of(#[trigger] t.skip(i)) by {
            assert(t.skip(i) =~= s.skip(i + 1));
        }
        replacing_goes_from_occurrence_to_occurrence(shorter, from, rest, to);
        assert(s[0] == before[0]);
        assert(seq![before[0]] + (shorter + to + replaced(rest, from, to)) =~= before + to + replaced(rest, from, to));
    }
}

/// A text in which nothing is to be replaced stays as it is.
pub proof fn nothing_else_is_replaced(s: Seq<char>, from: Seq<char>, to: Seq<char>)
    requires
        from.len() > 0,
        forall|i: int| 0 <= i < s.len() ==> !from.is_prefix_of(#[trigger] s.skip(i)),
    ensures
        replaced(s, from, to) == s,
    decreases s.len(),
{
    if s.len() >= from.len() {
        assert(s.skip(0) =~= s);
        let t = s.skip(1);
        assert forall|i: int| 0 <= i < t.len() implies !from.is_prefix_of(#[trigger] t.skip(i)) by {
            assert(t.skip(i) =~= s.skip(i + 1));
        }
        nothing_else_is_replaced(t, from, to);
        assert(seq![s[0]] + t =~= s);
    }
}

/// The letters and digits of ASCII, by their codes.
pub proof fn ascii_letters_and_digits(c: char)
    ensures
        ascii_alphanumeric(c) <==> (48 <= c as int <= 57) || (65 <= c as int <= 90) || (97 <= c as int <= 122),
{
}

/// White space is what Unicode lists as such: five control characters and the next-line one, and
/// nineteen spaces and separators.
pub proof fn white_space_is_what_unicode_lists(c: char)
    ensures
        white_space(c) <==> "\u{9}\u{a}\u{b}\u{c}\u{d}\u{20}\u{85}\u{a0}\u{1680}\u{2000}\u{2001}\u{2002}\u{2003}\u{2004}\u{2005}\u{2006}\u{2007}\u{2008}\u{2009}\u{200a}\u{2028}\u{2029}\u{202f}\u{205f}\u{3000}"@.contains(
            c,
        ),
{
    reveal_strlit(
        "\u{9}\u{a}\u{b}\u{c}\u{d}\u{20}\u{85}\u{a0}\u{1680}\u{2000}\u{2001}\u{2002}\u{2003}\u{2004}\u{2005}\u{2006}\u{2007}\u{2008}\u{2009}\u{200a}\u{2028}\u{2029}\u{202f}\u{205f}\u{3000}",
    );
    let all = "\u{9}\u{a}\u{b}\u{c}\u{d}\u{20}\u{85}\u{a0}\u{1680}\u{2000}\u{2001}\u{2002}\u{2003}\u{2004}\u{2005}\u{2006}\u{2007}\u{2008}\u{2009}\u{200a}\u{2028}\u{2029}\u{202f}\u{205f}\u{3000}"@;
    assert(all[0] == '\u{9}' && all[1] == '\u{a}' && all[2] == '\u{b}' && all[3] == '\u{c}' && all[4] == '\u{d}'
        && all[5] == ' ' && all[6] == '\u{85}' && all[7] == '\u{a0}' && all[8] == '\u{1680}');
    assert(all[9] == '\u{2000}' && all[10] == '\u{2001}' && all[11] == '\u{2002}' && all[12] == '\u{2003}'
        && all[13] == '\u{2004}' && all[14] == '\u{2005}' && all[15] == '\u{2006}' && all[16] == '\u{2007}'
        && all[17] == '\u{2008}' && all[18] == '\u{2009}' && all[19] == '\u{200a}');
    assert(all[20] == '\u{2028}' && all[21] == '\u{2029}' && all[22] == '\u{202f}' && all[23] == '\u{205f}'
        && all[24] == '\u{3000}');
    assert(all.len() == 25);
    if white_space(c) {
        assert(exists|i: int| 0 <= i < 25 && all[i] == c);
    }
}

} // verus!
