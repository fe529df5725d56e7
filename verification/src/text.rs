//! Text as sequences of characters: trimming, affixes and decimal numbers.

use vstd::prelude::*;
use vstd::string::*;

verus! {

/// Characters with the Unicode `White_Space` property.
pub open spec fn is_white_space(c: char) -> bool {
    let n = c as u32;
    ||| 0x9 <= n <= 0xd
    ||| n == 0x20
    ||| n == 0x85
    ||| n == 0xa0
    ||| n == 0x1680
    ||| 0x2000 <= n <= 0x200a
    ||| n == 0x2028
    ||| n == 0x2029
    ||| n == 0x202f
    ||| n == 0x205f
    ||| n == 0x3000
}

/// `s` without its leading white space.
pub open spec fn trimmed_start(s: Seq<char>) -> Seq<char>
    decreases s.len(),
{
    if s.len() > 0 && is_white_space(s.first()) {
        trimmed_start(s.drop_first())
    } else {
        s
    }
}

/// `s` without its trailing white space.
pub open spec fn trimmed_end(s: Seq<char>) -> Seq<char>
    decreases s.len(),
{
    if s.len() > 0 && is_white_space(s.last()) {
        trimmed_end(s.drop_last())
    } else {
        s
    }
}

/// `s` without leading and trailing white space.
pub open spec fn trimmed(s: Seq<char>) -> Seq<char> {
    trimmed_end(trimmed_start(s))
}

/// A text is blank when every character of it is white space.
pub open spec fn is_blank(s: Seq<char>) -> bool {
    forall|i: int| 0 <= i < s.len() ==> is_white_space(#[trigger] s[i])
}

/// `s` without any trailing occurrence of `c`.
pub open spec fn without_trailing(s: Seq<char>, c: char) -> Seq<char>
    decreases s.len(),
{
    if s.len() > 0 && s.last() == c {
        without_trailing(s.drop_last(), c)
    } else {
        s
    }
}

/// What is left of `s` before `suffix`, where `s` ends in it.
pub open spec fn before_suffix(s: Seq<char>, suffix: Seq<char>) -> Option<Seq<char>> {
    if suffix.is_suffix_of(s) {
        Some(s.take(s.len() - suffix.len()))
    } else {
        None
    }
}

/// An ASCII decimal digit.
pub open spec fn is_digit(c: char) -> bool {
    '0' <= c && c <= '9'
}

/// The number that a sequence of decimal digits denotes.
pub open spec fn decimal_value(digits: Seq<char>) -> nat
    decreases digits.len(),
{
    if digits.len() == 0 {
        0
    } else {
        decimal_value(digits.drop_last()) * 10 + (digits.last() as u32 - '0' as u32) as nat
    }
}

/// What follows an optional plus sign in `s`.
pub open spec fn after_plus(s: Seq<char>) -> Seq<char> {
    if s.len() > 0 && s.first() == '+' {
        s.drop_first()
    } else {
        s
    }
}

/// One or more decimal digits.
pub open spec fn are_digits(s: Seq<char>) -> bool {
    s.len() > 0 && forall|i: int| 0 <= i < s.len() ==> is_digit(#[trigger] s[i])
}

/// The unsigned number written in `s`: an optional plus sign and at least one
/// decimal digit, nothing else, and no more than `u64::MAX`.
pub open spec fn number_in(s: Seq<char>) -> Option<u64> {
    let digits = after_plus(s);
    if are_digits(digits) && decimal_value(digits) <= u64::MAX {
        Some(decimal_value(digits) as u64)
    } else {
        None
    }
}

/// `str::trim` of std removes leading and trailing characters with the Unicode
/// `White_Space` property, and nothing else.
pub assume_specification[ str::trim ](s: &str) -> (res: &str)
    ensures
        res@ == trimmed(s@),
;

/// `str::trim_end_matches` of std with a character as its pattern: every
/// trailing occurrence of that character is removed.
#[verifier::external_body]
pub(crate) fn trim_end_char(s: &str, c: char) -> (res: &str)
    ensures
        res@ == without_trailing(s@, c),
{
    s.trim_end_matches(c)
}

/// `str::strip_suffix` of std with a text as its pattern: the part before the
/// suffix, or `None` where the text does not end in it.
#[verifier::external_body]
pub(crate) fn strip_suffix<'a>(s: &'a str, suffix: &str) -> (res: Option<&'a str>)
    ensures
        match res {
            Some(rest) => before_suffix(s@, suffix@) == Some(rest@),
            None => before_suffix(s@, suffix@) is None,
        },
{
    s.strip_suffix(suffix)
}

/// `str::starts_with` of std with a character as its pattern.
#[verifier::external_body]
pub(crate) fn starts_with_char(s: &str, c: char) -> (res: bool)
    ensures
        res == (s@.len() > 0 && s@.first() == c),
{
    s.starts_with(c)
}

/// `str::parse` of std for `u64`: an optional plus sign and decimal digits
/// only; an empty text, any other character or an overflow is an error.
#[verifier::external_body]
pub(crate) fn parse_number(s: &str) -> (res: Option<u64>)
    ensures
        res == number_in(s@),
{
    match s.parse::<u64>() {
        Ok(number) => Some(number),
        Err(_) => None,
    }
}

/// Trimming leaves nothing exactly of the blank texts.
pub proof fn lemma_blank_iff_trimmed_empty(s: Seq<char>)
    ensures
        is_blank(s) <==> trimmed(s).len() == 0,
{
    lemma_trimmed_start(s);
    lemma_trimmed_end(trimmed_start(s));
    let inner = trimmed_start(s);
    if is_blank(s) && inner.len() > 0 {
        let k = s.len() - inner.len();
        assert(inner[0] == s[k]);
        assert(is_white_space(s[k]));
    }
    if inner.len() == 0 {
        assert forall|i: int| 0 <= i < s.len() implies is_white_space(#[trigger] s[i]) by {}
    }
}

proof fn lemma_trimmed_start(s: Seq<char>)
    ensures
        trimmed_start(s).len() <= s.len(),
        trimmed_start(s) == s.skip(s.len() - trimmed_start(s).len()),
        trimmed_start(s).len() > 0 ==> !is_white_space(trimmed_start(s)[0]),
        forall|i: int|
            0 <= i < s.len() - trimmed_start(s).len() ==> is_white_space(#[trigger] s[i]),
    decreases s.len(),
{
    if s.len() > 0 && is_white_space(s.first()) {
        let rest = s.drop_first();
        lemma_trimmed_start(rest);
        let t = trimmed_start(s);
        assert(t =~= s.skip(s.len() - t.len()));
        assert forall|i: int| 0 <= i < s.len() - t.len() implies is_white_space(#[trigger] s[i]) by {
            if i > 0 {
                assert(s[i] == rest[i - 1]);
            }
        }
    } else {
        assert(s =~= s.skip(0));
    }
}

proof fn lemma_trimmed_end(s: Seq<char>)
    ensures
        trimmed_end(s).len() <= s.len(),
        s.len() > 0 && !is_white_space(s[0]) ==> trimmed_end(s).len() > 0,
    decreases s.len(),
{
    if s.len() > 0 && is_white_space(s.last()) {
        lemma_trimmed_end(s.drop_last());
    }
}

/// Trimming takes away exactly the white space around a text that neither
/// begins nor ends with any.
pub proof fn lemma_trim_surrounded(before: Seq<char>, s: Seq<char>, after: Seq<char>)
    requires
        is_blank(before),
        is_blank(after),
        s.len() > 0,
        !is_white_space(s.first()),
        !is_white_space(s.last()),
    ensures
        trimmed(before + s + after) == s,
{
    lemma_trim_before(before, s + after);
    assert(before + s + after =~= before + (s + after));
    lemma_trim_after(s, after);
}

proof fn lemma_trim_before(before: Seq<char>, s: Seq<char>)
    requires
        is_blank(before),
        s.len() > 0,
        !is_white_space(s.first()),
    ensures
        trimmed_start(before + s) == s,
    decreases before.len(),
{
    if before.len() == 0 {
        assert(before + s =~= s);
    } else {
        let rest = before.drop_first();
        assert((before + s).first() == before[0]);
        assert((before + s).drop_first() =~= rest + s);
        assert forall|i: int| 0 <= i < rest.len() implies is_white_space(#[trigger] rest[i]) by {
            assert(rest[i] == before[i + 1]);
        }
        lemma_trim_before(rest, s);
    }
}

proof fn lemma_trim_after(s: Seq<char>, after: Seq<char>)
    requires
        is_blank(after),
        s.len() > 0,
        !is_white_space(s.last()),
    ensures
        trimmed_end(s + after) == s,
    decreases after.len(),
{
    if after.len() == 0 {
        assert(s + after =~= s);
    } else {
        let rest = after.drop_last();
        assert((s + after).last() == after[after.len() - 1]);
        assert((s + after).drop_last() =~= s + rest);
        assert forall|i: int| 0 <= i < rest.len() implies is_white_space(#[trigger] rest[i]) by {
            assert(rest[i] == after[i]);
        }
        lemma_trim_after(s, rest);
    }
}

/// Whether a text has no character besides white space.
pub fn blank(s: &str) -> (res: bool)
    ensures
        res == is_blank(s@),
{
    proof {
        lemma_blank_iff_trimmed_empty(s@);
    }
    s.trim().is_empty()
}

/// Trimming splits a text into white space, a core that neither begins nor ends
/// with any, and white space.
pub proof fn law_trim_leaves_the_core(s: Seq<char>) -> (around: (Seq<char>, Seq<char>))
    ensures
        s == around.0 + trimmed(s) + around.1,
        is_blank(around.0),
        is_blank(around.1),
        trimmed(s).len() > 0 ==> !is_white_space(trimmed(s).first()) && !is_white_space(
            trimmed(s).last(),
        ),
{
    lemma_trimmed_start(s);
    let inner = trimmed_start(s);
    let before = s.take(s.len() - inner.len());
    assert forall|i: int| 0 <= i < before.len() implies is_white_space(#[trigger] before[i]) by {
        assert(before[i] == s[i]);
    }
    let after = lemma_trimmed_end_core(inner);
    assert(s =~= before + inner);
    assert(before + trimmed(s) + after =~= before + (trimmed(s) + after));
    if trimmed(s).len() > 0 {
        assert(trimmed(s)[0] == inner[0]);
    }
    (before, after)
}

proof fn lemma_trimmed_end_core(s: Seq<char>) -> (after: Seq<char>)
    ensures
        s == trimmed_end(s) + after,
        is_blank(after),
        trimmed_end(s).len() > 0 ==> !is_white_space(trimmed_end(s).last()),
    decreases s.len(),
{
    if s.len() > 0 && is_white_space(s.last()) {
        let rest = lemma_trimmed_end_core(s.drop_last());
        let after = rest.push(s.last());
        let core = trimmed_end(s.drop_last());
        assert(trimmed_end(s) == core);
        assert(s =~= s.drop_last().push(s.last()));
        assert(core + after =~= (core + rest).push(s.last()));
        after
    } else {
        let after = Seq::<char>::empty();
        assert(s =~= trimmed_end(s) + after);
        after
    }
}

/// What is left of a text without its trailing occurrences of a character is
/// the part before them: `n` characters, the last of which is another one.
pub proof fn law_only_trailing_occurrences_go(s: Seq<char>, c: char) -> (n: int)
    ensures
        0 <= n <= s.len(),
        without_trailing(s, c) == s.take(n),
        n > 0 ==> s[n - 1] != c,
        forall|i: int| n <= i < s.len() ==> #[trigger] s[i] == c,
    decreases s.len(),
{
    if s.len() > 0 && s.last() == c {
        let n = law_only_trailing_occurrences_go(s.drop_last(), c);
        assert(s.drop_last().take(n) =~= s.take(n));
        assert forall|i: int| n <= i < s.len() implies #[trigger] s[i] == c by {
            if i < s.len() - 1 {
                assert(s.drop_last()[i] == s[i]);
            }
        }
        if n > 0 {
            assert(s.drop_last()[n - 1] == s[n - 1]);
        }
        n
    } else {
        assert(s.take(s.len() as int) =~= s);
        s.len() as int
    }
}

/// A text is what stands before its suffix, and the suffix.
pub proof fn law_suffix_completes_the_text(s: Seq<char>, suffix: Seq<char>, rest: Seq<char>)
    ensures
        before_suffix(s, suffix) == Some(rest) <==> s == rest + suffix,
{
    if s == rest + suffix {
        assert(suffix =~= s.subrange(s.len() - suffix.len(), s.len() as int));
        assert(s.take(s.len() - suffix.len()) =~= rest);
    }
    if before_suffix(s, suffix) == Some(rest) {
        assert(s =~= rest + suffix);
    }
}

/// A digit behind a number makes it ten times as large and adds the digit, as
/// long as the result fits in 64 bits. What is no number does not become one.
pub proof fn law_digit_extends_a_number(s: Seq<char>, d: char)
    requires
        '0' <= d,
        d <= '9',
    ensures
        number_in(seq![d]) == Some((d as u32 - '0' as u32) as u64),
        s.len() > 0 && s != seq!['+'] ==> number_in(s.push(d)) == match number_in(s) {
            Some(n) => if n * 10 + (d as u32 - '0' as u32) <= 0xffff_ffff_ffff_ffff {
                Some((n * 10 + (d as u32 - '0' as u32)) as u64)
            } else {
                None
            },
            None => None,
        },
{
    let one = seq![d];
    assert(one.drop_last() =~= Seq::empty());
    reveal_with_fuel(decimal_value, 2);
    assert(after_plus(one) == one);
    assert(are_digits(one));
    if s.len() > 0 && s != seq!['+'] {
        let digits = after_plus(s);
        let longer = after_plus(s.push(d));
        assert(longer =~= digits.push(d));
        assert(longer.drop_last() =~= digits);
        if s.first() == '+' && s.len() == 1 {
            assert(s =~= seq!['+']);
        }
        assert(digits.len() > 0);
        if are_digits(longer) {
            assert forall|i: int| 0 <= i < digits.len() implies is_digit(#[trigger] digits[i]) by {
                assert(longer[i] == digits[i]);
            }
        }
        if are_digits(digits) {
            assert forall|i: int| 0 <= i < longer.len() implies is_digit(#[trigger] longer[i]) by {
                if i < digits.len() {
                    assert(longer[i] == digits[i]);
                }
            }
        }
    }
}

/// A number is made of digits. One sign `+` may stand before them.
pub proof fn law_number_is_made_of_digits(s: Seq<char>, i: int)
    ensures
        s.len() == 0 ==> number_in(s) is None,
        number_in(seq!['+']) is None,
        s.len() > 0 && s.first() != '+' ==> number_in(seq!['+'] + s) == number_in(s),
        0 <= i < s.len() && !('0' <= s[i] && s[i] <= '9') && !(i == 0 && s[i] == '+')
            ==> number_in(s) is None,
{
    assert(after_plus(seq!['+']) =~= Seq::empty());
    if s.len() > 0 && s.first() != '+' {
        assert(after_plus(seq!['+'] + s) =~= s);
    }
    if 0 <= i < s.len() && !('0' <= s[i] && s[i] <= '9') && !(i == 0 && s[i] == '+') {
        let digits = after_plus(s);
        let k = if s.first() == '+' {
            i - 1
        } else {
            i
        };
        assert(digits[k] == s[i]);
        assert(!is_digit(digits[k]));
    }
}

/// White space is what Unicode calls so, and a blank text holds nothing else.
pub proof fn law_blank_text_is_white_space(s: Seq<char>, c: char)
    ensures
        is_white_space(c) <==> seq![
            0x9u32,
            0xau32,
            0xbu32,
            0xcu32,
            0xdu32,
            0x20u32,
            0x85u32,
            0xa0u32,
            0x1680u32,
            0x2028u32,
            0x2029u32,
            0x202fu32,
            0x205fu32,
            0x3000u32,
        ].contains(c as u32) || 0x2000 <= c as u32 && c as u32 <= 0x200a,
        is_blank(s.push(c)) <==> is_blank(s) && is_white_space(c),
        s.len() == 0 ==> is_blank(s),
        is_blank(s) <==> trimmed(s).len() == 0,
{
    let spaces = seq![
        0x9u32,
        0xau32,
        0xbu32,
        0xcu32,
        0xdu32,
        0x20u32,
        0x85u32,
        0xa0u32,
        0x1680u32,
        0x2028u32,
        0x2029u32,
        0x202fu32,
        0x205fu32,
        0x3000u32,
    ];
    if is_white_space(c) && !(0x2000 <= c as u32 && c as u32 <= 0x200a) {
        let n = c as u32;
        let k: int = if n <= 0xd {
            n - 0x9
        } else if n == 0x20 {
            5
        } else if n == 0x85 {
            6
        } else if n == 0xa0 {
            7
        } else if n == 0x1680 {
            8
        } else if n == 0x2028 {
            9
        } else if n == 0x2029 {
            10
        } else if n == 0x202f {
            11
        } else if n == 0x205f {
            12
        } else {
            13
        };
        assert(spaces[k] == n);
    }
    let longer = s.push(c);
    if is_blank(longer) {
        assert(is_white_space(longer[s.len() as int]));
        assert forall|i: int| 0 <= i < s.len() implies is_white_space(#[trigger] s[i]) by {
            assert(longer[i] == s[i]);
        }
    }
    lemma_blank_iff_trimmed_empty(s);
}

} // verus!
