use cpu_monitor::render::{fmt_tenths, fmt_u64, render, render_row, ViewKind};
use cpu_monitor::snapshot::{CoreSample, Snapshot};

#[test]
fn fmt_u64_exact_values() {
    assert_eq!(fmt_u64(0), "0");
    assert_eq!(fmt_u64(7), "7");
    assert_eq!(fmt_u64(10), "10");
    assert_eq!(fmt_u64(42), "42");
    assert_eq!(fmt_u64(305), "305");
    assert_eq!(fmt_u64(u64::MAX), "18446744073709551615");
}

#[test]
fn fmt_tenths_exact_values() {
    assert_eq!(fmt_tenths(0), "0.0");
    assert_eq!(fmt_tenths(5), "0.5");
    assert_eq!(fmt_tenths(123), "12.3");
    assert_eq!(fmt_tenths(1000), "100.0");
}

#[test]
fn row_holds_id_and_usage_to_one_decimal() {
    let c = CoreSample {
        id: 12,
        usage_tenths: 987,
    };
    assert_eq!(render_row(&c), "Core 12: 98.7%\n");
}

#[test]
fn fragment_has_one_row_per_core() {
    let snap = Snapshot::from_usage_tenths(&vec![125, 1000, 0]);
    let text = render(ViewKind::Fragment, &snap);
    assert_eq!(text, "Core 1: 12.5%\nCore 2: 100.0%\nCore 3: 0.0%\n");
    assert_eq!(text.matches('\n').count(), 3);
}

#[test]
fn render_is_deterministic() {
    let a = Snapshot::from_usage_tenths(&vec![17, 400, 999, 1000]);
    let b = Snapshot::from_usage_tenths(&vec![17, 400, 999, 1000]);
    assert_eq!(
        render(ViewKind::Fragment, &a).into_bytes(),
        render(ViewKind::Fragment, &b).into_bytes()
    );
    assert_eq!(
        render(ViewKind::FullPage, &a).into_bytes(),
        render(ViewKind::FullPage, &b).into_bytes()
    );
}

#[test]
fn zero_core_fragment_is_empty() {
    let snap = Snapshot::empty();
    assert_eq!(render(ViewKind::Fragment, &snap), "");
}

#[test]
fn full_page_wraps_rows_in_scaffolding() {
    let snap = Snapshot::from_usage_tenths(&vec![250]);
    let page = render(ViewKind::FullPage, &snap);
    let expected = "<!DOCTYPE html>\n<html>\n<head><title>CPU Usage</title></head>\n<body>\n<h1>CPU Usage</h1>\n<pre>\nCore 1: 25.0%\n</pre>\n</body>\n</html>\n";
    assert_eq!(page, expected);
}

#[test]
fn usage_above_maximum_is_clamped() {
    let snap = Snapshot::from_usage_tenths(&vec![1500]);
    assert_eq!(render(ViewKind::Fragment, &snap), "Core 1: 100.0%\n");
}
