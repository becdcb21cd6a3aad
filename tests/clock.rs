use pomodoro::clock::{fmt_mm_ss, push_decimal};

#[test]
fn formats_zero() {
    assert_eq!(fmt_mm_ss(0), "0:00");
}

#[test]
fn formats_seconds_only() {
    assert_eq!(fmt_mm_ss(5), "0:05");
    assert_eq!(fmt_mm_ss(59), "0:59");
}

#[test]
fn formats_whole_minute() {
    assert_eq!(fmt_mm_ss(60), "1:00");
}

#[test]
fn formats_minutes_and_seconds() {
    assert_eq!(fmt_mm_ss(125), "2:05");
    assert_eq!(fmt_mm_ss(1500), "25:00");
}

#[test]
fn minutes_exceed_an_hour_unpadded() {
    assert_eq!(fmt_mm_ss(3661), "61:01");
}

#[test]
fn formats_largest_count() {
    let x = u64::MAX;
    assert_eq!(fmt_mm_ss(x), format!("{}:{:02}", x / 60, x % 60));
}

#[test]
fn rendering_reads_back() {
    for x in [0u64, 1, 9, 10, 59, 60, 61, 599, 600, 3599, 3600, 3661, 86399, 1_000_000] {
        let s = fmt_mm_ss(x);
        let (m, sec) = s.split_at(s.len() - 3);
        assert_eq!(&sec[..1], ":");
        assert_eq!(sec[1..].len(), 2);
        assert_eq!(m.parse::<u64>().unwrap(), x / 60);
        assert_eq!(sec[1..].parse::<u64>().unwrap(), x % 60);
    }
}

#[test]
fn decimal_appends() {
    let mut s = String::from("n=");
    push_decimal(&mut s, 0);
    assert_eq!(s, "n=0");
    push_decimal(&mut s, 40213);
    assert_eq!(s, "n=040213");
}
