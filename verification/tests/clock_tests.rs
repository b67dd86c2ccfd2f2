use catmodoro::clock::Clock;
use catmodoro::pomodoro::PomodoroApp;
use catmodoro::session::Frame;

#[test]
fn readings_do_not_go_back() {
    let mut clock = Clock::start();
    let mut last: u128 = 0;
    for _ in 0..1000 {
        let now = clock.read();
        assert!(now >= last);
        assert!(clock.peek() >= now);
        last = now;
    }
}

#[test]
fn clock_counts_from_its_start() {
    let mut clock = Clock::start();
    let first = clock.read();
    assert!(first < 5_000_000_000);
    let begin = std::time::Instant::now();
    while begin.elapsed() < std::time::Duration::from_millis(20) {}
    let second = clock.read();
    assert!(second - first >= 20_000_000);
    assert!(second < 10_000_000_000);
}

#[test]
fn remaining_never_grows_while_the_app_runs() {
    let mut app = PomodoroApp::new(1);
    let mut last: u128 = 60;
    for _ in 0..200 {
        match app.tick() {
            Frame::Draw(r) => {
                assert!(r.remaining_secs <= last);
                assert!(r.remaining_secs >= 59);
                last = r.remaining_secs;
            }
            Frame::Stop => panic!("a minute has not passed"),
        }
    }
}
