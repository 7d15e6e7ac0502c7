//! Wall-clock times of day, with arithmetic that wraps at midnight.
use vstd::prelude::*;
use vstd::arithmetic::div_mod::lemma_mod_multiples_vanish;

verus! {

/// Seconds in one day.
pub const SECONDS_PER_DAY: u32 = 86400;

/// A whole-second time of day, counted in seconds from midnight.
#[derive(Debug, Clone, Copy, PartialEq, Eq, Structural)]
pub struct TimeOfDay {
    pub seconds: u32,
}

/// The time of day that lies `delta` seconds after `t` (before it, for a
/// negative `delta`), modulo one day.
pub open spec fn wrap_add(t: int, delta: int) -> int {
    (t + delta) % (SECONDS_PER_DAY as int)
}

pub open spec fn digit_char(d: int) -> char {
    ((48 + d) as u8) as char
}

pub open spec fn two_digits(n: int) -> Seq<char> {
    seq![digit_char(n / 10), digit_char(n % 10)]
}

/// `HH:MM:SS` for a number of seconds since midnight.
pub open spec fn hms_text(t: int) -> Seq<char> {
    two_digits(t / 3600) + seq![':'] + two_digits((t % 3600) / 60) + seq![':'] + two_digits(
        t % 60,
    )
}

fn digit_text(d: u32) -> (r: &'static str)
    requires
        d < 10,
    ensures
        r@ == seq![digit_char(d as int)],
{
    let digits = "0123456789";
    proof {
        reveal_strlit("0123456789");
    }
    digits.substring_char(d as usize, d as usize + 1)
}

fn push_two_digits(out: &mut String, n: u32)
    requires
        n < 100,
    ensures
        final(out)@ == old(out)@ + two_digits(n as int),
{
    out.append(digit_text(n / 10));
    out.append(digit_text(n % 10));
    assert(final(out)@ =~= old(out)@ + two_digits(n as int));
}

impl TimeOfDay {
    /// A time of day lies before midnight.
    pub open spec fn wf(&self) -> bool {
        self.seconds < SECONDS_PER_DAY
    }

    /// The time `hour:minute:second`.
    pub fn from_hms(hour: u32, minute: u32, second: u32) -> (r: TimeOfDay)
        requires
            hour < 24,
            minute < 60,
            second < 60,
        ensures
            r.wf(),
            r.seconds == hour * 3600 + minute * 60 + second,
    {
        TimeOfDay { seconds: hour * 3600 + minute * 60 + second }
    }

    pub fn hour(&self) -> (r: u32)
        requires
            self.wf(),
        ensures
            r == self.seconds / 3600,
            r < 24,
    {
        self.seconds / 3600
    }

    pub fn minute(&self) -> (r: u32)
        ensures
            r == (self.seconds % 3600) / 60,
            r < 60,
    {
        (self.seconds % 3600) / 60
    }

    pub fn second(&self) -> (r: u32)
        ensures
            r == self.seconds % 60,
            r < 60,
    {
        self.seconds % 60
    }

    /// The time `delta` seconds later, wrapping past midnight (earlier, for a
    /// negative `delta`).
    pub fn add_seconds_wrapping(&self, delta: i32) -> (r: TimeOfDay)
        requires
            self.wf(),
        ensures
            r.wf(),
            r.seconds == wrap_add(self.seconds as int, delta as int),
    {
        // Enough whole days to lift any `i32` above zero.
        let lift: i64 = 86400 * 24856;
        let shifted: i64 = self.seconds as i64 + delta as i64 + lift;
        let r = (shifted as u64 % 86400) as u32;
        proof {
            lemma_mod_multiples_vanish(24856, self.seconds + delta, 86400);
        }
        TimeOfDay { seconds: r }
    }

    /// The time as `HH:MM:SS`, each field zero-padded to two digits.
    pub fn format_hms(&self) -> (r: String)
        requires
            self.wf(),
        ensures
            r@ == hms_text(self.seconds as int),
    {
        let mut out = String::new();
        push_two_digits(&mut out, self.hour());
        out.append(":");
        proof {
            reveal_strlit(":");
        }
        push_two_digits(&mut out, self.minute());
        out.append(":");
        push_two_digits(&mut out, self.second());
        assert(out@ =~= hms_text(self.seconds as int));
        out
    }
}

} // verus!
