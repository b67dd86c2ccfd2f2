//! The decisions of the loop that drives a timer: what a tick of the loop and
//! what a key do to it, and when the loop is over. The loop itself, which
//! draws and waits for keys, is the caller's.

use crate::display::Readout;
use crate::timer::lemma_fresh_timer_finishes_on_time;
use crate::timer::Timer;
use crate::timer::TimerModel;
use vstd::prelude::*;

verus! {

/// A key, as far as the loop tells keys apart.
#[derive(Clone, Copy, Debug, PartialEq, Eq)]
pub enum Key {
    Esc,
    Char(char),
    Other,
}

/// What a key asks for.
#[derive(Clone, Copy, Debug, PartialEq, Eq, Structural)]
pub enum Command {
    Quit,
    TogglePause,
    Ignore,
}

/// Where the loop stands. `Finished` and `Quit` are final.
#[derive(Clone, Copy, Debug, PartialEq, Eq, Structural)]
pub enum Phase {
    Running,
    Paused,
    Finished,
    Quit,
}

/// What the loop does after a tick.
#[derive(Clone, Debug, PartialEq, Eq)]
pub enum Frame {
    /// Draw this and wait for a key.
    Draw(Readout),
    /// Leave the loop without drawing.
    Stop,
}

/// `q` and escape quit, `p` toggles the pause, every other key is ignored.
pub open spec fn command_of(key: Key) -> Command {
    match key {
        Key::Esc => Command::Quit,
        Key::Char(c) => if c == 'q' {
            Command::Quit
        } else if c == 'p' {
            Command::TogglePause
        } else {
            Command::Ignore
        },
        Key::Other => Command::Ignore,
    }
}

/// What a key asks for.
pub fn command(key: Key) -> (c: Command)
    ensures
        c == command_of(key),
{
    match key {
        Key::Esc => Command::Quit,
        Key::Char(c) => if c == 'q' {
            Command::Quit
        } else if c == 'p' {
            Command::TogglePause
        } else {
            Command::Ignore
        },
        Key::Other => Command::Ignore,
    }
}

/// A session in mathematical terms: a timer, and whether the user has quit.
pub struct SessionModel {
    pub timer: TimerModel,
    pub quit: bool,
}

impl SessionModel {
    /// A session whose timer starts to run at `now`.
    pub open spec fn fresh(duration: nat, now: nat) -> SessionModel {
        SessionModel { timer: TimerModel::fresh(duration, now), quit: false }
    }

    pub open spec fn phase(self) -> Phase {
        if self.quit {
            Phase::Quit
        } else if self.timer.finished {
            Phase::Finished
        } else if self.timer.paused {
            Phase::Paused
        } else {
            Phase::Running
        }
    }

    /// Whether the loop has ended.
    pub open spec fn is_over(self) -> bool {
        self.quit || self.timer.finished
    }

    /// The same session with another timer.
    pub open spec fn with_timer(self, timer: TimerModel) -> SessionModel {
        SessionModel { timer, ..self }
    }

    /// The session after a tick of the loop at `now`: the timer looks at the
    /// clock. A session that is over stays as it is.
    pub open spec fn tick(self, now: nat) -> SessionModel {
        if self.is_over() {
            self
        } else {
            self.with_timer(self.timer.advance(now))
        }
    }

    /// The session after a key at `now`. A session that is over stays as it is.
    pub open spec fn press(self, key: Key, now: nat) -> SessionModel {
        if self.is_over() {
            self
        } else {
            match command_of(key) {
                Command::Quit => SessionModel { quit: true, ..self },
                Command::TogglePause => self.with_timer(self.timer.toggle_pause(now)),
                Command::Ignore => self,
            }
        }
    }
}

/// `Finished` and `Quit` are final: neither a tick nor a key changes a
/// session that is over, and a session that goes on has not been over.
pub proof fn lemma_over_is_final(s: SessionModel, key: Key, now: nat)
    ensures
        s.is_over() ==> s.tick(now) == s && s.press(key, now) == s,
        s.is_over() ==> s.tick(now).is_over() && s.press(key, now).is_over(),
        s.is_over() <==> s.phase() == Phase::Finished || s.phase() == Phase::Quit,
{
}

/// The moves of a session that is not over. The pause key leads from
/// `Running` to `Paused` and back; `q` and escape lead to `Quit` and leave
/// the timer alone; any other key changes nothing.
pub proof fn lemma_key_moves(s: SessionModel, key: Key, now: nat)
    requires
        s.timer.wf(),
        !s.is_over(),
    ensures
        ({
            let next = s.press(key, now);
            &&& next.timer.wf()
            &&& command_of(key) == Command::TogglePause && s.phase() == Phase::Running
                ==> next.phase() == Phase::Paused
            &&& command_of(key) == Command::TogglePause && s.phase() == Phase::Paused
                ==> next.phase() == Phase::Running
            &&& command_of(key) == Command::Quit ==> next.phase() == Phase::Quit && next.timer
                == s.timer
            &&& command_of(key) == Command::Ignore ==> next == s
        }),
{
}

/// A tick of a session that is not over leads to `Finished` exactly where
/// the running timer has counted its whole length, and changes nothing else.
/// A paused session is left as it is.
pub proof fn lemma_tick_moves(s: SessionModel, now: nat)
    requires
        s.timer.wf(),
        !s.is_over(),
    ensures
        ({
            let next = s.tick(now);
            &&& next.timer.wf()
            &&& next.phase() == Phase::Finished <==> s.timer.expires_at(now)
            &&& !s.timer.expires_at(now) ==> next == s
            &&& s.phase() == Phase::Paused ==> next == s
            &&& !next.quit
        }),
{
}

/// A session that no key touches ends by itself: made at `made_at`, it is
/// finished by a tick exactly from `duration` minutes after `made_at` on.
pub proof fn lemma_untouched_session_ends_on_time(duration: nat, made_at: nat, now: nat)
    requires
        made_at <= now,
    ensures
        SessionModel::fresh(duration, made_at).phase() == Phase::Running,
        SessionModel::fresh(duration, made_at).tick(now).phase() == Phase::Finished <==> now
            >= made_at + duration * 60 * 1_000_000_000,
        SessionModel::fresh(duration, made_at).tick(now).phase() == Phase::Running <==> now
            < made_at + duration * 60 * 1_000_000_000,
{
    lemma_fresh_timer_finishes_on_time(duration, made_at, now);
}

/// A timer and the state of the loop around it.
#[derive(Clone, Copy, Debug)]
pub struct Session {
    pub timer: Timer,
    /// Whether the user has quit.
    pub quit: bool,
}

impl View for Session {
    type V = SessionModel;

    open spec fn view(&self) -> SessionModel {
        SessionModel { timer: self.timer@, quit: self.quit }
    }
}

impl Session {
    /// A session with a timer of `duration` minutes that starts to run at `now`.
    pub fn new(duration: u64, now: u128) -> (s: Session)
        ensures
            s@ == SessionModel::fresh(duration as nat, now as nat),
            s@.phase() == Phase::Running,
    {
        Session { timer: Timer::new(duration, now), quit: false }
    }

    pub fn phase(&self) -> (p: Phase)
        ensures
            p == self@.phase(),
    {
        if self.quit {
            Phase::Quit
        } else if self.timer.is_finished() {
            Phase::Finished
        } else if self.timer.is_paused() {
            Phase::Paused
        } else {
            Phase::Running
        }
    }

    /// Whether the loop has ended.
    pub fn is_over(&self) -> (b: bool)
        ensures
            b == self@.is_over(),
    {
        self.quit || self.timer.is_finished()
    }

    /// One tick of the loop at `now`: the timer looks at the clock, and the
    /// loop stops without drawing where the session is over, else it draws
    /// what the timer shows at `now`.
    pub fn tick(&mut self, now: u128) -> (f: Frame)
        ensures
            final(self)@ == old(self)@.tick(now as nat),
            match f {
                Frame::Stop => final(self)@.is_over(),
                Frame::Draw(r) => !final(self)@.is_over() && r.shows(
                    final(self)@.timer,
                    now as nat,
                ) && r.percent <= 100,
            },
    {
        if self.is_over() {
            return Frame::Stop;
        }
        self.timer.advance(now);
        if self.timer.is_finished() {
            Frame::Stop
        } else {
            Frame::Draw(self.timer.readout(now))
        }
    }

    /// One key at `now`. The result says whether the loop goes on.
    pub fn press(&mut self, key: Key, now: u128) -> (go_on: bool)
        ensures
            final(self)@ == old(self)@.press(key, now as nat),
            go_on == !final(self)@.is_over(),
    {
        if self.is_over() {
            return false;
        }
        match command(key) {
            Command::Quit => {
                self.quit = true;
                false
            },
            Command::TogglePause => {
                self.timer.toggle_pause(now);
                true
            },
            Command::Ignore => true,
        }
    }
}

} // verus!
