use fontcheck::diagnostic::{CheckError, Diagnostic, Level, MetricRange};
use fontcheck::font_tables::{read_head, read_os2, HeadExtents, Os2WinMetrics};
use fontcheck::runner::{run_checks, Check};
use fontcheck::win_metrics::{
    check_tables, check_win_ascent, check_win_ascent_and_descent, check_win_descent,
    expected_win_ascent, expected_win_descent,
};

fn os2_table(win_ascent: u16, win_descent: u16) -> Vec<u8> {
    let mut t = vec![0u8; 78];
    t[74..76].copy_from_slice(&win_ascent.to_be_bytes());
    t[76..78].copy_from_slice(&win_descent.to_be_bytes());
    t
}

fn head_table(y_max: i16, y_min: i16) -> Vec<u8> {
    let mut t = vec![0u8; 54];
    t[0..2].copy_from_slice(&1u16.to_be_bytes());
    t[12..16].copy_from_slice(&0x5F0F3CF5u32.to_be_bytes());
    t[18..20].copy_from_slice(&1000u16.to_be_bytes());
    t[38..40].copy_from_slice(&y_min.to_be_bytes());
    t[42..44].copy_from_slice(&y_max.to_be_bytes());
    t
}

/// A font file holding the given tables, in the given order.
fn font_file(tables: &[(&[u8; 4], Vec<u8>)]) -> Vec<u8> {
    let n = tables.len() as u16;
    let mut out = Vec::new();
    out.extend_from_slice(&0x00010000u32.to_be_bytes());
    out.extend_from_slice(&n.to_be_bytes());
    out.extend_from_slice(&16u16.to_be_bytes());
    out.extend_from_slice(&0u16.to_be_bytes());
    out.extend_from_slice(&0u16.to_be_bytes());
    let mut offset = 12 + 16 * tables.len();
    for (tag, data) in tables {
        out.extend_from_slice(&tag[..]);
        out.extend_from_slice(&0u32.to_be_bytes());
        out.extend_from_slice(&(offset as u32).to_be_bytes());
        out.extend_from_slice(&(data.len() as u32).to_be_bytes());
        offset += (data.len() + 3) / 4 * 4;
    }
    for (_, data) in tables {
        out.extend_from_slice(data);
        while out.len() % 4 != 0 {
            out.push(0);
        }
    }
    out
}

fn font(y_max: i16, y_min: i16, win_ascent: u16, win_descent: u16) -> Vec<u8> {
    font_file(&[
        (b"OS/2", os2_table(win_ascent, win_descent)),
        (b"head", head_table(y_max, y_min)),
    ])
}

fn lines(ds: &[Diagnostic]) -> Vec<String> {
    ds.iter().map(|d| d.render()).collect()
}

fn out_of_range(field: &str, lower: i32, upper: i32, actual: i32) -> Diagnostic {
    Diagnostic {
        level: Level::Fail,
        message: CheckError::MetricOutOfRange {
            field: field.to_string(),
            expected: MetricRange { lower, upper },
            actual,
        },
    }
}

#[test]
fn example_metrics_in_range() {
    let ds = check_win_ascent_and_descent(&font(1000, -200, 1500, 300));
    assert!(ds.is_empty());
}

#[test]
fn example_ascent_out_of_range() {
    let ds = check_win_ascent_and_descent(&font(1000, -200, 500, 300));
    assert_eq!(ds, vec![out_of_range("usWinAscent", 1000, 2000, 500)]);
    assert_eq!(
        lines(&ds),
        vec!["Fail: OS/2.usWinAscent value should be in the range [1000, 2000], but got 500"]
    );
}

#[test]
fn example_descent_out_of_range() {
    let ds = check_win_ascent_and_descent(&font(1000, -200, 1500, 50));
    assert_eq!(ds, vec![out_of_range("usWinDescent", 200, 400, 50)]);
    assert_eq!(
        lines(&ds),
        vec!["Fail: OS/2.usWinDescent value should be in the range [200, 400], but got 50"]
    );
}

#[test]
fn example_missing_head_table() {
    let data = font_file(&[(b"OS/2", os2_table(1500, 300))]);
    let ds = check_win_ascent_and_descent(&data);
    assert_eq!(lines(&ds), vec!["Fail: Cannot read OS/2 or head table"]);
    assert_eq!(
        ds[0].message,
        CheckError::MissingTable { name: "OS/2 or head".to_string() }
    );
}

#[test]
fn missing_os2_table() {
    let data = font_file(&[(b"head", head_table(1000, -200))]);
    let ds = check_win_ascent_and_descent(&data);
    assert_eq!(lines(&ds), vec!["Fail: Cannot read OS/2 or head table"]);
}

#[test]
fn unreadable_file_reports_missing_tables() {
    let ds = check_win_ascent_and_descent(&[1, 2, 3]);
    assert_eq!(lines(&ds), vec!["Fail: Cannot read OS/2 or head table"]);
    let ds = check_win_ascent_and_descent(&[]);
    assert_eq!(ds.len(), 1);
}

#[test]
fn both_out_of_range_ascent_first() {
    let ds = check_win_ascent_and_descent(&font(1000, -200, 3000, 401));
    assert_eq!(
        lines(&ds),
        vec![
            "Fail: OS/2.usWinAscent value should be in the range [1000, 2000], but got 3000",
            "Fail: OS/2.usWinDescent value should be in the range [200, 400], but got 401",
        ]
    );
}

#[test]
fn tables_are_read_from_the_file() {
    let data = font(1234, -321, 2000, 555);
    assert_eq!(
        read_os2(&data),
        Some(Os2WinMetrics { win_ascent: 2000, win_descent: 555 })
    );
    assert_eq!(read_head(&data), Some(HeadExtents { y_max: 1234, y_min: -321 }));
    assert_eq!(read_os2(&[0, 1]), None);
    assert_eq!(read_head(&font_file(&[(b"OS/2", os2_table(1, 2))])), None);
}

#[test]
fn ascent_range_bounds_are_inclusive() {
    let head = HeadExtents { y_max: 1000, y_min: -200 };
    for (a, ok) in [(999u16, false), (1000, true), (2000, true), (2001, false)] {
        let os2 = Os2WinMetrics { win_ascent: a, win_descent: 300 };
        assert_eq!(check_win_ascent(head, os2).is_none(), ok);
    }
}

#[test]
fn descent_range_bounds_are_inclusive() {
    let head = HeadExtents { y_max: 1000, y_min: -200 };
    for (d, ok) in [(199u16, false), (200, true), (400, true), (401, false)] {
        let os2 = Os2WinMetrics { win_ascent: 1500, win_descent: d };
        assert_eq!(check_win_descent(head, os2).is_none(), ok);
    }
}

#[test]
fn zero_extents_accept_only_zero() {
    let head = HeadExtents { y_max: 0, y_min: 0 };
    let ok = Os2WinMetrics { win_ascent: 0, win_descent: 0 };
    assert!(check_tables(Some(ok), Some(head)).is_empty());
    let bad = Os2WinMetrics { win_ascent: 1, win_descent: 1 };
    assert_eq!(
        check_tables(Some(bad), Some(head)),
        vec![out_of_range("usWinAscent", 0, 0, 1), out_of_range("usWinDescent", 0, 0, 1)]
    );
}

#[test]
fn extreme_extents_widen_without_overflow() {
    assert_eq!(expected_win_ascent(i16::MAX), MetricRange { lower: 32767, upper: 65534 });
    assert_eq!(expected_win_descent(i16::MIN), MetricRange { lower: 32768, upper: 65536 });
    let head = HeadExtents { y_max: i16::MAX, y_min: i16::MIN };
    let os2 = Os2WinMetrics { win_ascent: 65534, win_descent: u16::MAX };
    assert!(check_tables(Some(os2), Some(head)).is_empty());
}

#[test]
fn positive_y_min_uses_its_absolute_value() {
    assert_eq!(expected_win_descent(150), MetricRange { lower: 150, upper: 300 });
    assert_eq!(expected_win_descent(-150), MetricRange { lower: 150, upper: 300 });
}

#[test]
fn negative_y_max_accepts_no_ascent() {
    assert_eq!(expected_win_ascent(-100), MetricRange { lower: -100, upper: -200 });
    let head = HeadExtents { y_max: -100, y_min: -200 };
    let os2 = Os2WinMetrics { win_ascent: 0, win_descent: 300 };
    let ds = check_tables(Some(os2), Some(head));
    assert_eq!(
        lines(&ds),
        vec!["Fail: OS/2.usWinAscent value should be in the range [-100, -200], but got 0"]
    );
}

#[test]
fn missing_either_table_alone() {
    let os2 = Os2WinMetrics { win_ascent: 0, win_descent: 0 };
    let head = HeadExtents { y_max: 1000, y_min: -200 };
    for ds in [check_tables(None, Some(head)), check_tables(Some(os2), None), check_tables(None, None)] {
        assert_eq!(lines(&ds), vec!["Fail: Cannot read OS/2 or head table"]);
    }
}

#[test]
fn rule_is_idempotent() {
    let data = font(1000, -200, 3000, 10);
    let first = check_win_ascent_and_descent(&data);
    let second = check_win_ascent_and_descent(&data);
    assert_eq!(first, second);
    assert_eq!(first.len(), 2);
}

#[test]
fn runner_concatenates_in_rule_order() {
    let data = font(1000, -200, 500, 300);
    assert!(run_checks(&data, &[]).is_empty());
    assert_eq!(run_checks(&data, &[Check::WinAscentAndDescent]), check_win_ascent_and_descent(&data));
    let twice = run_checks(&data, &[Check::WinAscentAndDescent, Check::WinAscentAndDescent]);
    assert_eq!(twice, vec![out_of_range("usWinAscent", 1000, 2000, 500), out_of_range("usWinAscent", 1000, 2000, 500)]);
}

#[test]
fn runner_continues_after_missing_tables() {
    let ds = run_checks(&[9, 9], &[Check::WinAscentAndDescent, Check::WinAscentAndDescent]);
    assert_eq!(
        lines(&ds),
        vec!["Fail: Cannot read OS/2 or head table", "Fail: Cannot read OS/2 or head table"]
    );
}

#[test]
fn check_run_matches_rule() {
    let data = font(1000, -200, 1500, 50);
    assert_eq!(Check::WinAscentAndDescent.run(&data), check_win_ascent_and_descent(&data));
}

#[test]
fn levels_are_ordered_by_severity() {
    assert!(Level::Skip < Level::Info);
    assert!(Level::Info < Level::Warning);
    assert!(Level::Warning < Level::Fail);
    let names: Vec<String> = [Level::Skip, Level::Info, Level::Warning, Level::Fail]
        .iter()
        .map(|l| l.name())
        .collect();
    assert_eq!(names, vec!["Skip", "Info", "Warning", "Fail"]);
}

#[test]
fn render_writes_level_and_message() {
    let d = Diagnostic {
        level: Level::Warning,
        message: CheckError::MissingTable { name: "hhea".to_string() },
    };
    assert_eq!(d.render(), "Warning: Cannot read hhea table");
    let d = out_of_range("usWinDescent", -7, 0, -32768);
    assert_eq!(d.message.message(), "OS/2.usWinDescent value should be in the range [-7, 0], but got -32768");
}

#[test]
fn metric_range_contains_its_ends() {
    let r = MetricRange { lower: 3, upper: 5 };
    assert!(r.contains(3) && r.contains(5));
    assert!(!r.contains(2) && !r.contains(6));
    assert!(!MetricRange { lower: 5, upper: 3 }.contains(4));
}
