//! Time spans written in compact human notation such as `1h`, `1m` or `234ms`.

use vstd::prelude::*;

verus! {

/// What `humantime::parse_duration` makes of a text: whole seconds and the
/// nanoseconds beyond them, or nothing when the text is not a span.
pub uninterp spec fn span_of_text(s: Seq<char>) -> Option<(u64, u32)>;

/// The text that `humantime::format_duration` writes for a span.
pub uninterp spec fn text_of_span(secs: u64, nanos: u32) -> Seq<char>;

pub const NANOS_PER_SEC: u32 = 1_000_000_000;

pub const NANOS_PER_MILLI: u32 = 1_000_000;

/// A length of time: whole seconds and the nanoseconds beyond them.
#[derive(Clone, Copy, Debug, PartialEq, Eq, Structural)]
pub struct Span {
    pub secs: u64,
    pub nanos: u32,
}

/// Unit letters: they end a number in span notation.
pub open spec fn is_unit_char(c: char) -> bool {
    ('a' <= c && c <= 'z') || ('A' <= c && c <= 'Z') || c == 'µ'
}

pub open spec fn is_digit(c: char) -> bool {
    '0' <= c && c <= '9'
}

pub open spec fn pow10(n: nat) -> nat
    decreases n,
{
    if n == 0 {
        1
    } else {
        10 * pow10((n - 1) as nat)
    }
}

/// The weight of a number written with `digits` digits: ten to that power,
/// or nothing when it has no digit.
pub open spec fn group_weight(digits: nat) -> nat {
    if digits == 0 {
        0
    } else {
        pow10(digits)
    }
}

/// The summed weights of the numbers in `s`, where a number is everything
/// between unit letters and `run` digits of the current number were seen.
pub open spec fn weight_from(s: Seq<char>, run: nat) -> nat
    decreases s.len(),
{
    if s.len() == 0 {
        group_weight(run)
    } else if is_unit_char(s[0]) {
        group_weight(run) + weight_from(s.drop_first(), 0)
    } else if is_digit(s[0]) {
        weight_from(s.drop_first(), run + 1)
    } else {
        weight_from(s.drop_first(), run)
    }
}

/// The summed weights of the numbers written in a span text. Each number
/// of it adds less than its weight times the seconds of a year.
pub open spec fn number_weight(s: Seq<char>) -> nat {
    weight_from(s, 0)
}

/// The largest weight whose year count still stays below `u64::MAX`
/// seconds: `u64::MAX / 31_557_600`.
pub const MAX_NUMBER_WEIGHT: u64 = 584_542_046_090;

/// Spans are held below ten to the eleventh years of 31_557_600 seconds.
pub const MAX_SPAN_SECS: u64 = 3_155_760_000_000_000_000;

/// A span text small enough to be read without reaching `u64::MAX` seconds.
pub open spec fn fits_span_text(s: Seq<char>) -> bool {
    number_weight(s) <= MAX_NUMBER_WEIGHT
}

/// The span that a text denotes, if it denotes one.
pub open spec fn span_decode(s: Seq<char>) -> Option<Span> {
    match span_of_text(s) {
        Some(p) => Some(Span { secs: p.0, nanos: p.1 }),
        None => None,
    }
}

/// The span that this library reads from a text: one that the text denotes,
/// that is small enough to read safely and below the span limit.
pub open spec fn span_read(s: Seq<char>) -> Option<Span> {
    if !fits_span_text(s) {
        None
    } else {
        match span_decode(s) {
            Some(d) => if d.secs < MAX_SPAN_SECS {
                Some(d)
            } else {
                None
            },
            None => None,
        }
    }
}

/// Relies on `humantime::parse_duration`: reads a span such as `1h 30m` or
/// `234ms`; a `Duration` always keeps its nanoseconds under one second.
/// It panics only when the seconds reach `u64::MAX` together with a
/// nanosecond carry; every number of the text adds less than its weight
/// times 31_557_600 seconds (a year, its largest unit), so the weight bound
/// keeps the sum below that.
#[verifier::external_body]
fn parse_human(s: &str) -> (r: Option<(u64, u32)>)
    requires
        fits_span_text(s@),
    ensures
        r == span_of_text(s@),
        r matches Some(p) ==> p.1 < NANOS_PER_SEC,
{
    humantime::parse_duration(s).ok().map(|d| (d.as_secs(), d.subsec_nanos()))
}

/// Relies on `humantime::format_duration`, whose documentation guarantees
/// that `parse_duration` reads its output back as the same value. Its
/// `Display` writes years (fewer than ten to the eleventh here), months,
/// days, hours, minutes and seconds below a hundred, and milli-, micro- and
/// nanoseconds below a thousand, each number followed by its unit letters.
#[verifier::external_body]
fn format_human(secs: u64, nanos: u32) -> (r: String)
    requires
        nanos < NANOS_PER_SEC,
        secs < MAX_SPAN_SECS,
    ensures
        r@ == text_of_span(secs, nanos),
        span_of_text(r@) == Some((secs, nanos)),
        number_weight(r@) <= 100_000_003_600,
{
    humantime::format_duration(std::time::Duration::new(secs, nanos)).to_string()
}

/// A number never weighs less than the digits already seen of it.
proof fn lemma_weight_from_covers_run(s: Seq<char>, run: nat)
    ensures
        weight_from(s, run) >= group_weight(run),
    decreases s.len(),
{
    if s.len() > 0 {
        if is_unit_char(s[0]) {
        } else if is_digit(s[0]) {
            lemma_weight_from_covers_run(s.drop_first(), run + 1);
            if run > 0 {
                assert(pow10(run + 1) == 10 * pow10(run));
            }
        } else {
            lemma_weight_from_covers_run(s.drop_first(), run);
        }
    }
}

/// Whether a text is small enough for `parse_human`.
pub fn span_text_fits(s: &str) -> (r: bool)
    ensures
        r == fits_span_text(s@),
{
    let n: usize = s.unicode_len();
    let mut i: usize = 0;
    let mut total: u64 = 0;
    let mut run: usize = 0;
    let mut run_pow: u64 = 1;
    assert(s@.subrange(0, n as int) =~= s@);
    while i < n
        invariant
            n == s@.len(),
            0 <= i <= n,
            run <= 11,
            run_pow == pow10(run as nat),
            total <= MAX_NUMBER_WEIGHT,
            number_weight(s@) == total + weight_from(s@.subrange(i as int, n as int), run as nat),
        decreases n - i,
    {
        let c = s.get_char(i);
        let ghost rest = s@.subrange(i as int, n as int);
        assert(rest.drop_first() =~= s@.subrange(i + 1, n as int));
        if ('a' <= c && c <= 'z') || ('A' <= c && c <= 'Z') || c == 'µ' {
            let w: u64 = if run == 0 { 0 } else { run_pow };
            proof {
                lemma_pow10_bound(run as nat);
            }
            total = total + w;
            if total > MAX_NUMBER_WEIGHT {
                return false;
            }
            run = 0;
            run_pow = 1;
        } else if '0' <= c && c <= '9' {
            if run == 11 {
                proof {
                    lemma_weight_from_covers_run(s@.subrange(i + 1, n as int), 12);
                    lemma_pow10_twelve();
                }
                return false;
            }
            run = run + 1;
            proof {
                lemma_pow10_bound((run - 1) as nat);
            }
            run_pow = run_pow * 10;
        }
        i = i + 1;
    }
    proof {
        lemma_pow10_bound(run as nat);
    }
    let w: u64 = if run == 0 { 0 } else { run_pow };
    total + w <= MAX_NUMBER_WEIGHT
}

proof fn lemma_pow10_bound(n: nat)
    requires
        n <= 11,
    ensures
        pow10(n) <= 100_000_000_000,
{
    lemma_pow10_monotone(n, 11);
    reveal_with_fuel(pow10, 12);
}

/// Ten to the twelfth is beyond the largest weight.
proof fn lemma_pow10_twelve()
    ensures
        pow10(12) == 1_000_000_000_000,
{
    reveal_with_fuel(pow10, 13);
}

proof fn lemma_pow10_monotone(a: nat, b: nat)
    requires
        a <= b,
    ensures
        pow10(a) <= pow10(b),
    decreases b,
{
    if a < b {
        lemma_pow10_monotone(a, (b - 1) as nat);
    }
}

impl Span {
    /// The nanoseconds stay under one second and the span under the limit.
    pub open spec fn wf(&self) -> bool {
        self.nanos < NANOS_PER_SEC && self.secs < MAX_SPAN_SECS
    }

    /// The length in nanoseconds.
    pub open spec fn total_nanos(&self) -> int {
        self.secs * NANOS_PER_SEC as int + self.nanos
    }

    pub fn from_secs(secs: u64) -> (r: Span)
        ensures
            r == (Span { secs, nanos: 0 }),
            secs < MAX_SPAN_SECS ==> r.wf(),
    {
        Span { secs, nanos: 0 }
    }

    pub fn from_millis(millis: u64) -> (r: Span)
        ensures
            r.wf(),
            r.total_nanos() == millis * NANOS_PER_MILLI as int,
            r.secs == millis / 1000,
            r.nanos == (millis % 1000) * NANOS_PER_MILLI as int,
    {
        let secs: u64 = millis / 1000;
        let rest: u64 = millis % 1000;
        let nanos: u32 = (rest as u32) * NANOS_PER_MILLI;
        Span { secs, nanos }
    }

    /// Reads a span in human notation; `None` when the text is not one, or
    /// its numbers are too large to read safely, or the span reaches the
    /// limit.
    pub fn from_text(s: &str) -> (r: Option<Span>)
        ensures
            r == span_read(s@),
            r matches Some(d) ==> d.wf(),
    {
        if !span_text_fits(s) {
            return None;
        }
        match parse_human(s) {
            Some(p) => if p.0 < MAX_SPAN_SECS {
                Some(Span { secs: p.0, nanos: p.1 })
            } else {
                None
            },
            None => None,
        }
    }

    /// Writes the span in human notation; reading the text back gives the
    /// same span.
    pub fn to_text(&self) -> (r: String)
        requires
            self.wf(),
        ensures
            r@ == text_of_span(self.secs, self.nanos),
            span_read(r@) == Some(*self),
    {
        format_human(self.secs, self.nanos)
    }
}

} // verus!
