//! The countdown itself: a duration, a start, and the bookkeeping of pauses.
//!
//! Time enters as a reading of a monotonic clock, in nanoseconds after an
//! origin that the caller fixes. Nothing here reads a clock.

use vstd::prelude::*;

verus! {

/// Nanoseconds in a second.
pub const NANOS_PER_SEC: u128 = 1_000_000_000;

/// Seconds in a minute.
pub const SECS_PER_MIN: u128 = 60;

/// The time from one reading to a later one; zero where the second is not later.
pub open spec fn span(from: nat, to: nat) -> nat {
    if to >= from {
        (to - from) as nat
    } else {
        0
    }
}

/// What a timer is, in mathematical terms. Times are in nanoseconds.
pub struct TimerModel {
    /// The length of the countdown, in minutes.
    pub duration: nat,
    /// When the countdown began, moved forward by every pause that has ended.
    pub start: nat,
    /// When the current pause began.
    pub pause: Option<nat>,
    pub paused: bool,
    pub finished: bool,
}

impl TimerModel {
    /// A pause has a beginning exactly while the timer is paused, and no pause
    /// begins before the countdown did.
    pub open spec fn wf(self) -> bool {
        &&& self.paused <==> self.pause.is_some()
        &&& self.pause.is_some() ==> self.start <= self.pause.unwrap()
    }

    /// Whether the timer has seen no reading later than `now`: neither its
    /// start nor the beginning of its pause is after `now`.
    pub open spec fn not_after(self, now: nat) -> bool {
        &&& self.start <= now
        &&& self.pause.is_some() ==> self.pause.unwrap() <= now
    }

    /// A timer that starts to run at `now`.
    pub open spec fn fresh(duration: nat, now: nat) -> TimerModel {
        TimerModel { duration, start: now, pause: None, paused: false, finished: false }
    }

    /// The length of the countdown, in seconds.
    pub open spec fn total_secs(self) -> nat {
        self.duration * 60
    }

    /// Nanoseconds counted at `now`: frozen at the beginning of the pause while
    /// paused, else the time since the start.
    pub open spec fn elapsed_nanos(self, now: nat) -> nat {
        match self.pause {
            Some(p) => span(self.start, p),
            None => span(self.start, now),
        }
    }

    /// Whole seconds counted at `now`.
    pub open spec fn elapsed_secs(self, now: nat) -> nat {
        self.elapsed_nanos(now) / 1_000_000_000
    }

    /// Seconds left at `now`; zero once the countdown is over.
    pub open spec fn remaining_secs(self, now: nat) -> nat {
        if self.elapsed_secs(now) >= self.total_secs() {
            0
        } else {
            (self.total_secs() - self.elapsed_secs(now)) as nat
        }
    }

    /// Whether a look at the clock at `now` finds the countdown over. A paused
    /// timer does not look.
    pub open spec fn expires_at(self, now: nat) -> bool {
        !self.paused && self.elapsed_secs(now) >= self.total_secs()
    }

    /// The timer after a look at the clock at `now`.
    pub open spec fn advance(self, now: nat) -> TimerModel {
        TimerModel { finished: self.finished || self.expires_at(now), ..self }
    }

    /// The timer after the pause key at `now`. A running timer pauses, at `now`
    /// or at its start where `now` is earlier. A paused timer resumes, its
    /// start moved forward by the length of the pause.
    pub open spec fn toggle_pause(self, now: nat) -> TimerModel {
        match self.pause {
            Some(p) if self.paused => TimerModel {
                start: self.start + span(p, now),
                pause: None,
                paused: false,
                ..self
            },
            _ => TimerModel {
                pause: Some(if now >= self.start { now } else { self.start }),
                paused: true,
                ..self
            },
        }
    }
}

/// Both steps of a timer keep it well formed.
pub proof fn lemma_steps_keep_wf(t: TimerModel, now: nat)
    requires
        t.wf(),
    ensures
        t.advance(now).wf(),
        t.toggle_pause(now).wf(),
        TimerModel::fresh(t.duration, now).wf(),
{
}

/// A timer that has just been made has counted nothing and all of its
/// seconds are left.
pub proof fn lemma_fresh_timer_has_all_left(duration: nat, now: nat)
    ensures
        TimerModel::fresh(duration, now).elapsed_secs(now) == 0,
        TimerModel::fresh(duration, now).remaining_secs(now) == duration * 60,
        !TimerModel::fresh(duration, now).paused,
        !TimerModel::fresh(duration, now).finished,
{
}

/// A running timer that is paused and resumed at the same reading is as it
/// was before.
pub proof fn lemma_pause_and_resume_at_once(t: TimerModel, now: nat)
    requires
        t.wf(),
        !t.paused,
    ensures
        t.toggle_pause(now).toggle_pause(now) == t,
        t.toggle_pause(now).toggle_pause(now).remaining_secs(now) == t.remaining_secs(now),
{
}

/// While a timer is paused, what it has counted and what is left do not
/// depend on the reading, and a look at the clock changes nothing.
pub proof fn lemma_paused_timer_is_frozen(t: TimerModel, a: nat, b: nat)
    requires
        t.wf(),
        t.paused,
    ensures
        t.elapsed_nanos(a) == t.elapsed_nanos(b),
        t.remaining_secs(a) == t.remaining_secs(b),
        t.advance(a) == t,
{
}

/// Time spent paused is not counted. A running timer is paused at `paused_at`
/// and resumed at `resumed_at`: at the moment it resumes it has counted what
/// it had counted when the pause began, and at any later reading `later` it
/// has counted that and the time since it resumed, whatever the length of the
/// pause.
pub proof fn lemma_pause_is_not_counted(t: TimerModel, paused_at: nat, resumed_at: nat, later: nat)
    requires
        t.wf(),
        !t.paused,
        t.start <= paused_at <= resumed_at <= later,
    ensures
        ({
            let r = t.toggle_pause(paused_at).toggle_pause(resumed_at);
            &&& !r.paused
            &&& r.start == t.start + (resumed_at - paused_at)
            &&& r.elapsed_nanos(resumed_at) == t.elapsed_nanos(paused_at)
            &&& r.remaining_secs(resumed_at) == t.remaining_secs(paused_at)
            &&& r.elapsed_nanos(later) == t.elapsed_nanos(paused_at) + (later - resumed_at)
        }),
{
}

/// A timer that is driven by readings that do not go back never holds a
/// moment later than the last reading.
pub proof fn lemma_steps_keep_not_after(t: TimerModel, last: nat, now: nat)
    requires
        t.wf(),
        t.not_after(last),
        last <= now,
    ensures
        t.not_after(now),
        t.advance(now).not_after(now),
        t.toggle_pause(now).not_after(now),
        TimerModel::fresh(t.duration, now).not_after(now),
{
}

/// The start of a timer never moves back.
pub proof fn lemma_start_only_moves_forward(t: TimerModel, now: nat)
    ensures
        t.advance(now).start == t.start,
        t.toggle_pause(now).start >= t.start,
        !t.paused ==> t.toggle_pause(now).start == t.start,
{
}

/// A look at the clock finishes a running timer exactly when the seconds it
/// has counted have reached its length, and changes nothing else.
pub proof fn lemma_finishes_exactly_at_the_end(t: TimerModel, now: nat)
    requires
        !t.finished,
        !t.paused,
    ensures
        t.advance(now).finished <==> t.elapsed_secs(now) >= t.total_secs(),
        t.advance(now) == (TimerModel { finished: t.advance(now).finished, ..t }),
{
}

/// A timer made at `made_at` and never paused is finished by a look at the
/// clock exactly from `duration` minutes after `made_at` on, to the
/// nanosecond.
pub proof fn lemma_fresh_timer_finishes_on_time(duration: nat, made_at: nat, now: nat)
    requires
        made_at <= now,
    ensures
        TimerModel::fresh(duration, made_at).advance(now).finished <==> now >= made_at + duration
            * 60 * 1_000_000_000,
{
    let f = TimerModel::fresh(duration, made_at);
    let goal: nat = duration * 60;
    let e: nat = (now - made_at) as nat;
    assert(goal * 1_000_000_000 == duration * 60 * 1_000_000_000);
    assert(f.elapsed_nanos(now) == e);
    assert(e / 1_000_000_000 >= goal <==> e >= goal * 1_000_000_000) by (nonlinear_arith);
}

/// A finished timer stays finished, whatever comes, and a look at the clock
/// changes nothing in it. A second look at the same reading changes nothing
/// either.
pub proof fn lemma_finished_is_final(t: TimerModel, now: nat)
    ensures
        t.finished ==> t.advance(now) == t,
        t.finished ==> t.toggle_pause(now).finished,
        t.advance(now).advance(now) == t.advance(now),
{
}

/// What is left is never more than the whole countdown and never below zero,
/// and nothing is left from the moment the timer can finish.
pub proof fn lemma_remaining_in_range(t: TimerModel, now: nat)
    ensures
        0 <= t.remaining_secs(now) <= t.total_secs(),
        t.elapsed_secs(now) >= t.total_secs() ==> t.remaining_secs(now) == 0,
        t.expires_at(now) ==> t.remaining_secs(now) == 0,
{
}

/// A countdown of whole minutes that can be paused.
#[derive(Clone, Copy, Debug)]
pub struct Timer {
    duration: u64,
    start: u128,
    pause: Option<u128>,
    paused: bool,
    finished: bool,
}

impl View for Timer {
    type V = TimerModel;

    closed spec fn view(&self) -> TimerModel {
        TimerModel {
            duration: self.duration as nat,
            start: self.start as nat,
            pause: match self.pause {
                Some(p) => Some(p as nat),
                None => None,
            },
            paused: self.paused,
            finished: self.finished,
        }
    }
}

impl Timer {
    #[verifier::type_invariant]
    spec fn inv(self) -> bool {
        self@.wf()
    }

    /// A timer of `duration` minutes that starts to run at `now`.
    pub fn new(duration: u64, now: u128) -> (t: Timer)
        ensures
            t@ == TimerModel::fresh(duration as nat, now as nat),
            t@.wf(),
    {
        Timer { duration, start: now, pause: None, paused: false, finished: false }
    }

    /// The length of the countdown, in minutes.
    pub fn duration(&self) -> (d: u64)
        ensures
            d == self@.duration,
    {
        self.duration
    }

    pub fn is_paused(&self) -> (b: bool)
        ensures
            b == self@.paused,
            self@.wf(),
    {
        proof {
            use_type_invariant(self);
        }
        self.paused
    }

    pub fn is_finished(&self) -> (b: bool)
        ensures
            b == self@.finished,
    {
        self.finished
    }

    /// The length of the countdown, in seconds.
    pub fn total_secs(&self) -> (s: u128)
        ensures
            s == self@.total_secs(),
            s <= u64::MAX * 60,
    {
        self.duration as u128 * SECS_PER_MIN
    }

    /// Whole seconds counted at `now`, the time spent paused left out.
    pub fn elapsed_secs(&self, now: u128) -> (s: u128)
        ensures
            s == self@.elapsed_secs(now as nat),
            self@.wf(),
    {
        proof {
            use_type_invariant(self);
        }
        let nanos: u128 = match self.pause {
            Some(p) => p - self.start,
            None => if now >= self.start {
                now - self.start
            } else {
                0
            },
        };
        nanos / NANOS_PER_SEC
    }

    /// Seconds left at `now`, never below zero.
    pub fn remaining_secs(&self, now: u128) -> (s: u128)
        ensures
            s == self@.remaining_secs(now as nat),
            s <= self@.total_secs(),
            self@.wf(),
    {
        let total: u128 = self.total_secs();
        let elapsed: u128 = self.elapsed_secs(now);
        if elapsed >= total {
            0
        } else {
            total - elapsed
        }
    }

    /// Looks at the clock: a running timer whose counted seconds have reached
    /// its length is finished from now on. Nothing else changes.
    pub fn advance(&mut self, now: u128)
        ensures
            final(self)@ == old(self)@.advance(now as nat),
            final(self)@.wf(),
    {
        proof {
            use_type_invariant(&*self);
        }
        if !self.paused && self.elapsed_secs(now) >= self.total_secs() {
            self.finished = true;
        }
    }

    /// The pause key: a running timer pauses, a paused one resumes where it
    /// left off.
    pub fn toggle_pause(&mut self, now: u128)
        ensures
            final(self)@ == old(self)@.toggle_pause(now as nat),
            final(self)@.wf(),
    {
        proof {
            use_type_invariant(&*self);
        }
        match self.pause {
            Some(p) => {
                let away: u128 = if now >= p {
                    now - p
                } else {
                    0
                };
                *self = Timer {
                    duration: self.duration,
                    start: self.start + away,
                    pause: None,
                    paused: false,
                    finished: self.finished,
                };
            },
            None => {
                let at: u128 = if now >= self.start {
                    now
                } else {
                    self.start
                };
                *self = Timer {
                    duration: self.duration,
                    start: self.start,
                    pause: Some(at),
                    paused: true,
                    finished: self.finished,
                };
            },
        }
    }
}

} // verus!
