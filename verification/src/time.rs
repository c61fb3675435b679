use vstd::prelude::*;

verus! {

/// `std::time::Instant`: an opaque reading of the monotonic clock.
#[verifier::external_type_specification]
#[verifier::external_body]
pub struct ExInstant(std::time::Instant);

/// Relies on `std::time::Instant::now`: an opaque clock reading about which
/// nothing is promised.
pub assume_specification[ std::time::Instant::now ]() -> std::time::Instant;

/// Relies on `std::time::Instant::saturating_duration_since`: the span
/// between two readings, zero when `earlier` is the later one; unlike
/// `duration_since` it never panics. Nothing is promised of the value.
pub assume_specification[ std::time::Instant::saturating_duration_since ](
    instant: &std::time::Instant,
    earlier: std::time::Instant,
) -> core::time::Duration;

/// The wall-clock span of one execution: a start reading taken at creation
/// and an end reading once stopped.
#[derive(Debug)]
pub struct TimeInterval {
    start_time: std::time::Instant,
    end_time: Option<std::time::Instant>,
}

impl TimeInterval {
    /// Whether the interval has been closed by `stop`.
    pub closed spec fn spec_stopped(self) -> bool {
        self.end_time is Some
    }

    /// A fresh interval starting now, still open.
    pub fn new() -> (res: Self)
        ensures
            !res.spec_stopped(),
    {
        TimeInterval { start_time: std::time::Instant::now(), end_time: None }
    }

    /// Close the interval now and return its span.
    pub fn stop(&mut self) -> (res: core::time::Duration)
        ensures
            final(self).spec_stopped(),
    {
        let end = std::time::Instant::now();
        self.end_time = Some(end);
        end.saturating_duration_since(self.start_time)
    }

    /// The span of the interval: present exactly once the interval was
    /// stopped.
    pub fn elapsed(&self) -> (res: Option<core::time::Duration>)
        ensures
            res is Some <==> self.spec_stopped(),
    {
        match self.end_time {
            Some(end) => Some(end.saturating_duration_since(self.start_time)),
            None => None,
        }
    }
}

/// The character of one decimal digit.
pub open spec fn decimal_digit(d: int) -> char {
    if d == 0 {
        '0'
    } else if d == 1 {
        '1'
    } else if d == 2 {
        '2'
    } else if d == 3 {
        '3'
    } else if d == 4 {
        '4'
    } else if d == 5 {
        '5'
    } else if d == 6 {
        '6'
    } else if d == 7 {
        '7'
    } else if d == 8 {
        '8'
    } else {
        '9'
    }
}

/// The usual decimal notation of a nonnegative number, without leading
/// zeros (a lone zero for 0).
pub open spec fn decimal_rep(n: int) -> Seq<char>
    decreases n,
{
    if n < 10 {
        seq![decimal_digit(n)]
    } else {
        decimal_rep(n / 10).push(decimal_digit(n % 10))
    }
}

/// The characters of the collected digits, least significant digit last.
pub open spec fn digit_chars_rev(digits: Seq<u64>) -> Seq<char> {
    Seq::new(digits.len(), |k: int| decimal_digit(digits[digits.len() - 1 - k] as int))
}

proof fn lemma_digit_chars_rev_push(digits: Seq<u64>, d: u64)
    ensures
        digit_chars_rev(digits.push(d)) =~= seq![decimal_digit(d as int)] + digit_chars_rev(
            digits,
        ),
{
}

/// The one-character string of one decimal digit.
fn digit_str(d: u64) -> (res: &'static str)
    requires
        d < 10,
    ensures
        res@ =~= seq![decimal_digit(d as int)],
{
    proof {
        reveal_strlit("0");
        reveal_strlit("1");
        reveal_strlit("2");
        reveal_strlit("3");
        reveal_strlit("4");
        reveal_strlit("5");
        reveal_strlit("6");
        reveal_strlit("7");
        reveal_strlit("8");
        reveal_strlit("9");
    }
    match d {
        0 => "0",
        1 => "1",
        2 => "2",
        3 => "3",
        4 => "4",
        5 => "5",
        6 => "6",
        7 => "7",
        8 => "8",
        _ => "9",
    }
}

/// The decimal notation of `n`.
pub fn decimal_string(n: u64) -> (res: String)
    ensures
        res@ == decimal_rep(n as int),
{
    let mut digits: Vec<u64> = Vec::new();
    let mut rest = n;
    loop
        invariant_except_break
            digits@.len() == 0 ==> rest == n,
            digits@.len() > 0 ==> rest > 0 && decimal_rep(n as int) =~= decimal_rep(rest as int)
                + digit_chars_rev(digits@),
        invariant
            forall|k: int| 0 <= k < digits@.len() ==> digits@[k] < 10,
        ensures
            digits@.len() > 0,
            decimal_rep(n as int) =~= digit_chars_rev(digits@),
            forall|k: int| 0 <= k < digits@.len() ==> digits@[k] < 10,
        decreases rest,
    {
        let ghost old_digits = digits@;
        let ghost old_rest = rest;
        let digit = rest % 10;
        digits.push(digit);
        rest = rest / 10;
        proof {
            lemma_digit_chars_rev_push(old_digits, digit);
            if old_digits.len() == 0 {
                if old_rest < 10 {
                    assert(decimal_rep(n as int) =~= digit_chars_rev(digits@));
                } else {
                    assert(decimal_rep(n as int) == decimal_rep(rest as int).push(
                        decimal_digit(digit as int),
                    ));
                    assert(decimal_rep(n as int) =~= decimal_rep(rest as int)
                        + digit_chars_rev(digits@));
                }
            } else {
                if old_rest < 10 {
                    assert(decimal_rep(old_rest as int) =~= seq![
                        decimal_digit(old_rest as int),
                    ]);
                    assert(decimal_rep(n as int) =~= digit_chars_rev(digits@));
                } else {
                    assert(decimal_rep(old_rest as int) == decimal_rep(rest as int).push(
                        decimal_digit(digit as int),
                    ));
                    assert(decimal_rep(n as int) =~= decimal_rep(rest as int)
                        + digit_chars_rev(digits@));
                }
            }
        }
        if rest == 0 {
            break;
        }
    }
    let mut res = String::new();
    let mut i = digits.len();
    while i > 0
        invariant
            i <= digits@.len(),
            decimal_rep(n as int) =~= digit_chars_rev(digits@),
            forall|k: int| 0 <= k < digits@.len() ==> digits@[k] < 10,
            res@ =~= digit_chars_rev(digits@).take(digits@.len() - i),
        decreases i,
    {
        i -= 1;
        res.append(digit_str(digits[i]));
        assert(res@ =~= digit_chars_rev(digits@).take(digits@.len() - i));
    }
    assert(digit_chars_rev(digits@).take(digits@.len() as int) =~= digit_chars_rev(digits@));
    res
}

/// The rendering of a span given in whole seconds: hours, minutes and
/// seconds, omitting the leading parts that are zero.
pub open spec fn spec_format(seconds: int) -> Seq<char> {
    let minutes = seconds / 60;
    let hours = minutes / 60;
    let secs = seconds % 60;
    let mins = minutes % 60;
    if hours > 0 {
        decimal_rep(hours) + "h "@ + decimal_rep(mins) + "m "@ + decimal_rep(secs) + "s"@
    } else if mins > 0 {
        decimal_rep(mins) + "m "@ + decimal_rep(secs) + "s"@
    } else {
        decimal_rep(secs) + "s"@
    }
}

/// Render a span of whole seconds as `1h 1m 1s`, `1m 1s` or `1s`.
pub fn format(seconds: u64) -> (res: String)
    ensures
        res@ == spec_format(seconds as int),
{
    let minutes = seconds / 60;
    let hours = minutes / 60;
    let secs = seconds % 60;
    let mins = minutes % 60;
    if hours > 0 {
        let mut out = decimal_string(hours);
        out.append("h ");
        out.append(decimal_string(mins).as_str());
        out.append("m ");
        out.append(decimal_string(secs).as_str());
        out.append("s");
        out
    } else if mins > 0 {
        let mut out = decimal_string(mins);
        out.append("m ");
        out.append(decimal_string(secs).as_str());
        out.append("s");
        out
    } else {
        let mut out = decimal_string(secs);
        out.append("s");
        out
    }
}

} // verus!
