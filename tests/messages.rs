use pomodoro::messages::{acknowledgment, announcement, closing_line, label, summary_line};
use pomodoro::session::{Config, Interval, IntervalKind};

#[test]
fn labels() {
    assert_eq!(label(IntervalKind::Focus), "Focus");
    assert_eq!(label(IntervalKind::ShortBreak), "Break");
    assert_eq!(label(IntervalKind::LongBreak), "Long break");
}

#[test]
fn summary_names_settings() {
    assert_eq!(summary_line(&Config::default()), "Run with focus=25m, break-min=5m, cycles=4");
}

#[test]
fn banner_before_focus_only() {
    let f = Interval { kind: IntervalKind::Focus, secs: 1500, session: 2 };
    let b = Interval { kind: IntervalKind::ShortBreak, secs: 300, session: 2 };
    assert_eq!(announcement(&f, 4), Some("\n=== Session 2/4 ===".to_string()));
    assert_eq!(announcement(&b, 4), None);
}

#[test]
fn completion_lines() {
    let f = Interval { kind: IntervalKind::Focus, secs: 1500, session: 1 };
    let b = Interval { kind: IntervalKind::ShortBreak, secs: 300, session: 1 };
    let l = Interval { kind: IntervalKind::LongBreak, secs: 900, session: 4 };
    assert_eq!(acknowledgment(&f), "\u{2705} Focus done");
    assert_eq!(acknowledgment(&b), "\u{2615} Break over");
    assert_eq!(acknowledgment(&l), "\u{2615} Long break over");
    assert_eq!(closing_line(), "\n\u{1F389} All sessions done. Nice work.");
}
