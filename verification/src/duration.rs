//! Time spans with millisecond precision, and the text form that they have in
//! resource fields.

use crate::text::{self, parse_number, strip_suffix};
use vstd::prelude::*;
use vstd::string::*;

verus! {

/// A span of time in whole milliseconds, whose whole seconds fit in `u64`.
#[derive(Clone, Copy, Debug, PartialEq, Eq, Structural)]
pub struct Duration {
    millis: u128,
}

impl View for Duration {
    type V = nat;

    closed spec fn view(&self) -> nat {
        self.millis as nat
    }
}

impl Duration {
    #[verifier::type_invariant]
    spec fn seconds_fit(self) -> bool {
        self.millis / 1000 <= u64::MAX
    }

    /// A span of whole seconds.
    pub fn from_secs(secs: u64) -> (res: Self)
        ensures
            res@ == secs * 1000,
    {
        Duration { millis: secs as u128 * 1000 }
    }

    /// A span of whole milliseconds.
    pub fn from_millis(millis: u64) -> (res: Self)
        ensures
            res@ == millis,
    {
        Duration { millis: millis as u128 }
    }

    /// The span in milliseconds.
    pub fn as_millis(self) -> (res: u128)
        ensures
            res == self@,
    {
        self.millis
    }

    /// The whole seconds of the span.
    pub fn as_secs(self) -> (res: u64)
        ensures
            res == self@ / 1000,
    {
        proof {
            use_type_invariant(&self);
        }
        (self.millis / 1000) as u64
    }

    /// The milliseconds beyond the whole seconds of the span.
    pub fn subsec_millis(self) -> (res: u32)
        ensures
            res == self@ % 1000,
    {
        (self.millis % 1000) as u32
    }

    /// The shorter of two spans.
    pub fn min(self, other: Self) -> (res: Self)
        ensures
            res@ == if self@ <= other@ { self@ } else { other@ },
    {
        if self.millis <= other.millis {
            self
        } else {
            other
        }
    }
}

/// Spans of the same length are the same span.
pub proof fn law_duration_is_its_length(a: Duration, b: Duration)
    ensures
        a == b <==> a@ == b@,
{
}

/// The span in milliseconds that a text such as `"500ms"` or `"30s"` denotes:
/// a number, which white space may surround, before one of the two units.
pub open spec fn duration_in(s: Seq<char>) -> Option<nat> {
    match text::before_suffix(s, "ms"@) {
        Some(n) => match text::number_in(text::trimmed(n)) {
            Some(millis) => Some(millis as nat),
            None => None,
        },
        None => match text::before_suffix(s, "s"@) {
            Some(n) => match text::number_in(text::trimmed(n)) {
                Some(secs) => Some(secs as nat * 1000),
                None => None,
            },
            None => None,
        },
    }
}

/// Parse a human-readable duration.
///
/// Accepted suffixes:
/// - `"ms"`: milliseconds
/// - `"s"`: seconds
///
/// Returns `None` for any other format.
pub fn parse_duration_str(s: &str) -> (res: Option<Duration>)
    ensures
        match res {
            Some(duration) => duration_in(s@) == Some(duration@),
            None => duration_in(s@) is None,
        },
{
    if let Some(n) = strip_suffix(s, "ms") {
        match parse_number(n.trim()) {
            Some(millis) => Some(Duration::from_millis(millis)),
            None => None,
        }
    } else if let Some(n) = strip_suffix(s, "s") {
        match parse_number(n.trim()) {
            Some(secs) => Some(Duration::from_secs(secs)),
            None => None,
        }
    } else {
        None
    }
}

/// A number with a unit denotes that many seconds or milliseconds, whatever
/// white space stands around the number.
pub proof fn law_number_with_unit_is_a_duration(
    before: Seq<char>,
    number: Seq<char>,
    after: Seq<char>,
    value: u64,
)
    requires
        text::is_blank(before),
        text::is_blank(after),
        text::number_in(number) == Some(value),
    ensures
        duration_in(before + number + after + "s"@) == Some(value as nat * 1000),
        duration_in(before + number + after + "ms"@) == Some(value as nat),
{
    reveal_strlit("s");
    reveal_strlit("ms");
    let digits = text::after_plus(number);
    assert(text::is_digit(digits[0]));
    assert(text::is_digit(digits[digits.len() - 1]));
    assert(number.last() == digits[digits.len() - 1]);
    let numeric = before + number + after;
    text::lemma_trim_surrounded(before, number, after);

    let seconds = numeric + "s"@;
    assert(numeric.last() != 'm') by {
        if after.len() > 0 {
            assert(numeric.last() == after.last());
            assert(text::is_white_space(after[after.len() - 1]));
        } else {
            assert(numeric.last() == number.last());
        }
    }
    assert(!("ms"@.is_suffix_of(seconds))) by {
        if "ms"@.is_suffix_of(seconds) {
            let tail = seconds.subrange(seconds.len() - 2, seconds.len() as int);
            assert(tail[0] == 'm');
            assert(seconds[seconds.len() - 2] == numeric.last());
        }
    }
    assert("s"@.is_suffix_of(seconds)) by {
        assert("s"@ =~= seconds.subrange(seconds.len() - 1, seconds.len() as int));
    }
    assert(seconds.take(seconds.len() - 1) =~= numeric);

    let millis = numeric + "ms"@;
    assert("ms"@.is_suffix_of(millis)) by {
        assert("ms"@ =~= millis.subrange(millis.len() - 2, millis.len() as int));
    }
    assert(millis.take(millis.len() - 2) =~= numeric);
}

/// The unit decides what the number before it means. A number before `"s"` does
/// not end in `m`, which would make the unit another one.
pub proof fn law_unit_decides_the_length(number: Seq<char>)
    ensures
        duration_in(number + "ms"@) == match text::number_in(text::trimmed(number)) {
            Some(value) => Some(value as nat),
            None => None,
        },
        number.len() == 0 || number.last() != 'm' ==> duration_in(number + "s"@)
            == match text::number_in(text::trimmed(number)) {
            Some(value) => Some(value as nat * 1000),
            None => None,
        },
{
    reveal_strlit("s");
    reveal_strlit("ms");
    text::law_suffix_completes_the_text(number + "ms"@, "ms"@, number);
    text::law_suffix_completes_the_text(number + "s"@, "s"@, number);
    if number.len() == 0 || number.last() != 'm' {
        let s = number + "s"@;
        if text::before_suffix(s, "ms"@) is Some {
            let rest = text::before_suffix(s, "ms"@)->0;
            text::law_suffix_completes_the_text(s, "ms"@, rest);
            assert(s[s.len() - 2] == 'm');
            assert(s[s.len() - 2] == number.last());
        }
    }
}

/// A text without one of the two units is no duration.
pub proof fn law_duration_has_a_unit(s: Seq<char>)
    ensures
        duration_in(s) is Some ==> s.len() > 1 && s.last() == 's',
{
    reveal_strlit("s");
    reveal_strlit("ms");
    if let Some(n) = text::before_suffix(s, "ms"@) {
        text::law_suffix_completes_the_text(s, "ms"@, n);
    } else if let Some(n) = text::before_suffix(s, "s"@) {
        text::law_suffix_completes_the_text(s, "s"@, n);
        if n.len() == 0 {
            text::lemma_blank_iff_trimmed_empty(n);
        }
    }
}

} // verus!
