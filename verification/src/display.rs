//! What a timer shows: the seconds left, the share of the countdown that is
//! left, a colour band and a label.

use crate::timer::Timer;
use crate::timer::TimerModel;
use vstd::prelude::*;

verus! {

/// `String::push` of std appends the character to the end of the string and
/// leaves the rest as it was.
pub assume_specification[ String::push ](s: &mut String, c: char)
    ensures
        final(s)@ == old(s)@.push(c),
;

/// How much of the countdown is left, in three steps.
#[derive(Clone, Copy, Debug, PartialEq, Eq, Structural)]
pub enum Band {
    /// More than 66 percent.
    Plenty,
    /// More than 33 percent and at most 66.
    Halfway,
    /// At most 33 percent.
    Urgent,
}

/// What is drawn for a timer at one moment.
#[derive(Clone, Debug, PartialEq, Eq)]
pub struct Readout {
    pub remaining_secs: u128,
    /// The share that is left, in whole percent, rounded down.
    pub percent: u16,
    pub band: Band,
    /// Minutes and seconds left, as `MM:SS`.
    pub label: String,
}

/// The share `remaining` of `total` in whole percent, rounded down. Of a
/// countdown of no length nothing is left.
pub open spec fn percent_of(remaining: nat, total: nat) -> nat {
    if total == 0 {
        0
    } else {
        remaining * 100 / total
    }
}

/// The band of the share `remaining` of `total`. The share itself decides, not
/// its rounded percentage.
pub open spec fn band_of(remaining: nat, total: nat) -> Band {
    if remaining * 100 > 66 * total {
        Band::Plenty
    } else if remaining * 100 > 33 * total {
        Band::Halfway
    } else {
        Band::Urgent
    }
}

/// The character of a decimal digit.
pub open spec fn digit(d: nat) -> char {
    if d == 0 {
        '0'
    } else if d == 1 {
        '1'
    } else if d == 2 {
        '2'
    } else if d == 3 {
        '3'
    } else if d == 4 {
        '4'
    } else if d == 5 {
        '5'
    } else if d == 6 {
        '6'
    } else if d == 7 {
        '7'
    } else if d == 8 {
        '8'
    } else {
        '9'
    }
}

/// A number in decimal, without leading zeros.
pub open spec fn decimal(n: nat) -> Seq<char>
    decreases n,
{
    if n < 10 {
        seq![digit(n)]
    } else {
        decimal(n / 10).push(digit(n % 10))
    }
}

/// A number in decimal, with a leading zero where it has one digit.
pub open spec fn two_digits(n: nat) -> Seq<char> {
    if n < 10 {
        seq!['0', digit(n)]
    } else {
        decimal(n)
    }
}

/// Minutes, a colon, seconds: each of two digits at least. Minutes do not
/// roll over into hours.
pub open spec fn label_text(remaining: nat) -> Seq<char> {
    two_digits(remaining / 60) + seq![':'] + two_digits(remaining % 60)
}

/// A timer of at least one minute that has just been made shows all of its
/// seconds, a hundred percent and the first band.
pub proof fn lemma_fresh_timer_is_full(duration: nat, now: nat)
    requires
        duration > 0,
    ensures
        ({
            let t = TimerModel::fresh(duration, now);
            &&& t.remaining_secs(now) == duration * 60
            &&& percent_of(t.remaining_secs(now), t.total_secs()) == 100
            &&& band_of(t.remaining_secs(now), t.total_secs()) == Band::Plenty
        }),
{
    let total: nat = duration * 60;
    assert(total * 100 / total == 100) by (nonlinear_arith)
        requires
            total > 0,
    ;
}

/// The percentage is at most a hundred wherever no more is left than the
/// whole, and the bands lie on it as the percentage says: above 66 percent
/// the first, at or below 33 the last.
pub proof fn lemma_percent_and_band(remaining: nat, total: nat)
    requires
        remaining <= total,
        total > 0,
    ensures
        percent_of(remaining, total) <= 100,
        percent_of(remaining, total) >= 67 ==> band_of(remaining, total) == Band::Plenty,
        band_of(remaining, total) == Band::Plenty ==> percent_of(remaining, total) >= 66,
        percent_of(remaining, total) < 33 ==> band_of(remaining, total) == Band::Urgent,
        band_of(remaining, total) == Band::Urgent ==> percent_of(remaining, total) <= 33,
        34 <= percent_of(remaining, total) <= 65 ==> band_of(remaining, total) == Band::Halfway,
{
    let scaled: nat = remaining * 100;
    let q: nat = scaled / total;
    assert(q * total <= scaled < (q + 1) * total) by (nonlinear_arith)
        requires
            q == scaled / total,
            total > 0,
    ;
    assert(q <= 100) by (nonlinear_arith)
        requires
            q * total <= scaled,
            scaled <= 100 * total,
            total > 0,
    ;
    assert(q >= 67 ==> scaled > 66 * total) by (nonlinear_arith)
        requires
            q * total <= scaled,
            total > 0,
    ;
    assert(scaled > 66 * total ==> q >= 66) by (nonlinear_arith)
        requires
            scaled < (q + 1) * total,
            total > 0,
    ;
    assert(q < 33 ==> scaled <= 33 * total) by (nonlinear_arith)
        requires
            scaled < (q + 1) * total,
            total > 0,
    ;
    assert(scaled <= 33 * total ==> q <= 33) by (nonlinear_arith)
        requires
            q * total <= scaled,
            total > 0,
    ;
    assert(q >= 34 ==> scaled > 33 * total) by (nonlinear_arith)
        requires
            q * total <= scaled,
            total > 0,
    ;
    assert(q <= 65 ==> scaled <= 66 * total) by (nonlinear_arith)
        requires
            scaled < (q + 1) * total,
            total > 0,
    ;
}

/// A label has five characters at least, with the colon third from the end.
pub proof fn lemma_label_shape(remaining: nat)
    ensures
        label_text(remaining).len() >= 5,
        label_text(remaining)[label_text(remaining).len() - 3] == ':',
        remaining < 6000 ==> label_text(remaining).len() == 5,
        remaining < 6000 ==> label_text(remaining) == seq![
            digit(remaining / 600),
            digit(remaining / 60 % 10),
            ':',
            digit(remaining % 60 / 10),
            digit(remaining % 60 % 10),
        ],
{
    let m: nat = remaining / 60;
    let s: nat = remaining % 60;
    lemma_two_digits_len(m);
    reveal_with_fuel(decimal, 3);
    assert(two_digits(s).len() == 2);
    if remaining < 6000 {
        assert(two_digits(m) =~= seq![digit(m / 10), digit(m % 10)]);
        assert(two_digits(s) =~= seq![digit(s / 10), digit(s % 10)]);
        assert(label_text(remaining) =~= seq![
            digit(remaining / 600),
            digit(remaining / 60 % 10),
            ':',
            digit(remaining % 60 / 10),
            digit(remaining % 60 % 10),
        ]);
    }
}

/// A number padded to two digits has two digits at least.
pub proof fn lemma_two_digits_len(n: nat)
    ensures
        two_digits(n).len() >= 2,
        decimal(n).len() >= 1,
        n >= 10 ==> decimal(n).len() >= 2,
    decreases n,
{
    if n >= 10 {
        lemma_two_digits_len(n / 10);
    }
}

impl Readout {
    /// Whether this is what the timer `m` shows at `now`.
    pub open spec fn shows(self, m: TimerModel, now: nat) -> bool {
        &&& self.remaining_secs == m.remaining_secs(now)
        &&& self.percent == percent_of(m.remaining_secs(now), m.total_secs())
        &&& self.band == band_of(m.remaining_secs(now), m.total_secs())
        &&& self.label@ == label_text(m.remaining_secs(now))
    }

    /// Whether this is what the timer `m` shows at some reading that is not
    /// earlier than `since`.
    pub open spec fn shows_after(self, m: TimerModel, since: nat) -> bool {
        exists|now: nat| now >= since && #[trigger] self.shows(m, now)
    }
}

fn digit_char(d: u8) -> (c: char)
    requires
        d < 10,
    ensures
        c == digit(d as nat),
{
    if d == 0 {
        '0'
    } else if d == 1 {
        '1'
    } else if d == 2 {
        '2'
    } else if d == 3 {
        '3'
    } else if d == 4 {
        '4'
    } else if d == 5 {
        '5'
    } else if d == 6 {
        '6'
    } else if d == 7 {
        '7'
    } else if d == 8 {
        '8'
    } else {
        '9'
    }
}

fn push_decimal(s: &mut String, n: u128)
    ensures
        final(s)@ == old(s)@ + decimal(n as nat),
    decreases n,
{
    if n >= 10 {
        push_decimal(s, n / 10);
    }
    s.push(digit_char((n % 10) as u8));
    assert(final(s)@ =~= old(s)@ + decimal(n as nat));
}

fn push_two_digits(s: &mut String, n: u128)
    ensures
        final(s)@ == old(s)@ + two_digits(n as nat),
{
    if n < 10 {
        s.push('0');
        s.push(digit_char(n as u8));
        assert(final(s)@ =~= old(s)@ + two_digits(n as nat));
    } else {
        push_decimal(s, n);
    }
}

/// The label for `remaining` seconds.
pub fn label(remaining: u128) -> (s: String)
    ensures
        s@ == label_text(remaining as nat),
{
    let mut s = String::new();
    push_two_digits(&mut s, remaining / 60);
    s.push(':');
    push_two_digits(&mut s, remaining % 60);
    assert(s@ =~= label_text(remaining as nat));
    s
}

/// The share `remaining` of `total` in whole percent, rounded down.
pub fn percent(remaining: u128, total: u128) -> (p: u16)
    requires
        remaining <= total,
        total <= u128::MAX / 100,
    ensures
        p == percent_of(remaining as nat, total as nat),
        p <= 100,
{
    if total == 0 {
        0
    } else {
        let scaled: u128 = remaining * 100;
        let q: u128 = scaled / total;
        assert(q <= 100) by (nonlinear_arith)
            requires
                scaled <= 100 * total,
                total > 0,
                q == scaled / total,
        ;
        q as u16
    }
}

/// The band of the share `remaining` of `total`.
pub fn band(remaining: u128, total: u128) -> (b: Band)
    requires
        remaining <= total,
        total <= u128::MAX / 100,
    ensures
        b == band_of(remaining as nat, total as nat),
{
    if remaining * 100 > 66 * total {
        Band::Plenty
    } else if remaining * 100 > 33 * total {
        Band::Halfway
    } else {
        Band::Urgent
    }
}

impl Timer {
    /// What the timer shows at `now`. While it is paused that does not depend
    /// on `now`.
    pub fn readout(&self, now: u128) -> (r: Readout)
        ensures
            r.shows(self@, now as nat),
            r.remaining_secs <= self@.total_secs(),
            r.percent <= 100,
    {
        let total: u128 = self.total_secs();
        let remaining: u128 = self.remaining_secs(now);
        assert(u64::MAX * 60 <= u128::MAX / 100);
        Readout {
            remaining_secs: remaining,
            percent: percent(remaining, total),
            band: band(remaining, total),
            label: label(remaining),
        }
    }
}

} // verus!
