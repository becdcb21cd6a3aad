use pomodoro::countdown::{wait_before, Countdown};

#[test]
fn zero_countdown_draws_one_line_and_ends() {
    let mut cd = Countdown::new(0);
    assert_eq!(cd.frame("Focus"), "\rFocus: 0:00");
    assert_eq!(cd.advance(), None);
    assert_eq!(cd.tick, 0);
}

#[test]
fn countdown_draws_each_second_down_to_zero() {
    let mut cd = Countdown::new(3);
    let mut frames = Vec::new();
    let mut ticks = Vec::new();
    loop {
        frames.push(cd.frame("Break"));
        match cd.advance() {
            Some(t) => ticks.push(t),
            None => break,
        }
    }
    assert_eq!(
        frames,
        vec!["\rBreak: 0:03", "\rBreak: 0:02", "\rBreak: 0:01", "\rBreak: 0:00"]
    );
    assert_eq!(ticks, vec![1, 2, 3]);
}

#[test]
fn remaining_counts_down() {
    let mut cd = Countdown::new(125);
    assert_eq!(cd.remaining(), 125);
    assert_eq!(cd.frame("Long break"), "\rLong break: 2:05");
    cd.advance();
    assert_eq!(cd.remaining(), 124);
}

#[test]
fn remaining_never_below_zero() {
    let cd = Countdown { secs: 2, tick: 5 };
    assert_eq!(cd.remaining(), 0);
}

#[test]
fn waits_until_tick_when_early() {
    assert_eq!(wait_before(1, 0), (1, 0));
    assert_eq!(wait_before(1, 400_000_000), (0, 600_000_000));
    assert_eq!(wait_before(3, 1_250_000_000), (1, 750_000_000));
}

#[test]
fn no_wait_when_late() {
    assert_eq!(wait_before(2, 2_000_000_000), (0, 0));
    assert_eq!(wait_before(2, 5_000_000_000), (0, 0));
}

#[test]
fn wake_time_does_not_drift() {
    // However late each tick arrives, it is due a whole number of seconds
    // after the start.
    let delays = [0u128, 30_000_000, 999_000_000, 1_700_000_000, 10];
    let mut elapsed: u128 = 0;
    for tick in 1..=5u64 {
        elapsed += delays[(tick - 1) as usize];
        let (s, n) = wait_before(tick, elapsed);
        let woke = elapsed + s as u128 * 1_000_000_000 + n as u128;
        let due = tick as u128 * 1_000_000_000;
        assert_eq!(woke, due.max(elapsed));
        elapsed = woke;
    }
}

#[test]
fn largest_tick_waits_without_overflow() {
    let (s, n) = wait_before(u64::MAX, 0);
    assert_eq!((s, n), (u64::MAX, 0));
}
