//! A session that reads the clock itself.

use crate::clock::Clock;
use crate::display::Readout;
use crate::session::Frame;
use crate::session::Key;
use crate::session::Phase;
use crate::session::Session;
use crate::session::SessionModel;
use vstd::prelude::*;

verus! {

/// A session together with the clock that its timer goes by. Each method
/// reads the clock once and hands the reading to the session, so its
/// contract holds for some reading, whichever the clock gave, that is not
/// earlier than the one before.
pub struct PomodoroApp {
    clock: Clock,
    session: Session,
}

impl View for PomodoroApp {
    type V = SessionModel;

    closed spec fn view(&self) -> SessionModel {
        self.session@
    }
}

impl PomodoroApp {
    /// The latest reading of the clock that has reached the session.
    pub closed spec fn latest(&self) -> nat {
        self.clock.latest()
    }

    #[verifier::type_invariant]
    spec fn inv(self) -> bool {
        self.session@.timer.wf() && self.session@.timer.not_after(self.clock.latest())
    }

    /// A timer of `duration` minutes that starts to run now, at the clock's
    /// zero.
    pub fn new(duration: u64) -> (app: PomodoroApp)
        ensures
            app@ == SessionModel::fresh(duration as nat, 0),
            app.latest() == 0,
    {
        PomodoroApp { clock: Clock::start(), session: Session::new(duration, 0) }
    }

    /// The session as it stands.
    pub fn session(&self) -> (s: Session)
        ensures
            s@ == self@,
            s@.timer.wf(),
            s@.timer.not_after(self.latest()),
    {
        proof {
            use_type_invariant(self);
        }
        self.session
    }

    pub fn phase(&self) -> (p: Phase)
        ensures
            p == self@.phase(),
    {
        self.session.phase()
    }

    /// The timer looks at the clock.
    pub fn advance(&mut self)
        ensures
            final(self).latest() >= old(self).latest(),
            final(self)@ == old(self)@.with_timer(old(self)@.timer.advance(final(self).latest())),
    {
        proof {
            use_type_invariant(&*self);
        }
        let mut clock = self.clock;
        let mut session = self.session;
        let now: u128 = clock.read();
        session.timer.advance(now);
        *self = PomodoroApp { clock, session };
    }

    /// The pause key, pressed now.
    pub fn toggle_pause(&mut self)
        ensures
            final(self).latest() >= old(self).latest(),
            final(self)@ == old(self)@.with_timer(
                old(self)@.timer.toggle_pause(final(self).latest()),
            ),
    {
        proof {
            use_type_invariant(&*self);
        }
        let mut clock = self.clock;
        let mut session = self.session;
        let now: u128 = clock.read();
        session.timer.toggle_pause(now);
        *self = PomodoroApp { clock, session };
    }

    /// What the timer shows now. The reading is not noted.
    pub fn draw(&self) -> (r: Readout)
        ensures
            r.shows_after(self@.timer, self.latest()),
            r.percent <= 100,
    {
        let now: u128 = self.clock.peek();
        let r = self.session.timer.readout(now);
        assert(r.shows(self@.timer, now as nat));
        r
    }

    /// One tick of the loop, now.
    pub fn tick(&mut self) -> (f: Frame)
        ensures
            final(self).latest() >= old(self).latest(),
            final(self)@ == old(self)@.tick(final(self).latest()),
            match f {
                Frame::Stop => final(self)@.is_over(),
                Frame::Draw(r) => !final(self)@.is_over() && r.shows(
                    final(self)@.timer,
                    final(self).latest(),
                ) && r.percent <= 100,
            },
    {
        proof {
            use_type_invariant(&*self);
        }
        let mut clock = self.clock;
        let mut session = self.session;
        let now: u128 = clock.read();
        let f = session.tick(now);
        *self = PomodoroApp { clock, session };
        f
    }

    /// One key, pressed now. The result says whether the loop goes on.
    pub fn press(&mut self, key: Key) -> (go_on: bool)
        ensures
            final(self).latest() >= old(self).latest(),
            final(self)@ == old(self)@.press(key, final(self).latest()),
            go_on == !final(self)@.is_over(),
    {
        proof {
            use_type_invariant(&*self);
        }
        let mut clock = self.clock;
        let mut session = self.session;
        let now: u128 = clock.read();
        let go_on = session.press(key, now);
        *self = PomodoroApp { clock, session };
        go_on
    }
}

} // verus!
