use regex_bench::{benchmark_patterns, header_line, result_row, rounded_quotient, separator_line};

fn float_header(bytes: usize) -> String {
    format!("Rust regex (input: {:.2} MB)", bytes as f64 / 1024.0 / 1024.0)
}

fn float_row(name: &str, nanos: u64, count: usize) -> String {
    let ms = std::time::Duration::from_nanos(nanos).as_secs_f64() * 1000.0;
    format!("{:<15}  {:>10.2} ms  {:>6} matches", name, ms, count)
}

#[test]
fn header_of_empty_corpus() {
    assert_eq!(header_line(0), "Rust regex (input: 0.00 MB)");
}

#[test]
fn header_of_one_mebibyte() {
    assert_eq!(header_line(1048576), "Rust regex (input: 1.00 MB)");
    assert_eq!(header_line(1572864), "Rust regex (input: 1.50 MB)");
    assert_eq!(header_line(10 * 1048576 + 10486), "Rust regex (input: 10.01 MB)");
}

#[test]
fn header_agrees_with_float_formatting() {
    // 5243 bytes is 0.005000305... MB; 5242.88 bytes would be an exact tie.
    let sizes: Vec<usize> = vec![
        0, 1, 5242, 5243, 10485, 10486, 524288, 1048575, 1048576, 3 * 1048576 + 5243,
        123456789, 655360, 1966080,
    ];
    for n in sizes {
        assert_eq!(header_line(n), float_header(n), "size {}", n);
    }
}

#[test]
fn header_ties_round_to_even() {
    // 131072 * 25 bytes is exactly 3.125 MB; 393216 * 25 is 9.375 MB.
    assert_eq!(header_line(131072 * 25), "Rust regex (input: 3.12 MB)");
    assert_eq!(header_line(131072 * 25), float_header(131072 * 25));
    assert_eq!(header_line(393216 * 25), "Rust regex (input: 9.38 MB)");
    assert_eq!(header_line(393216 * 25), float_header(393216 * 25));
}

#[test]
fn separator_is_a_box_rule() {
    let s = separator_line();
    assert_eq!(s.chars().count(), 41);
    assert!(s.chars().all(|c| c == '─'));
    assert_eq!(s, "─────────────────────────────────────────");
}

#[test]
fn row_layout() {
    assert_eq!(
        result_row("literal_alt", 1_234_567, 42),
        "literal_alt            1.23 ms      42 matches"
    );
    assert_eq!(
        result_row("ip", 0, 0),
        "ip                     0.00 ms       0 matches"
    );
}

#[test]
fn row_wide_values_are_not_truncated() {
    assert_eq!(
        result_row("a_very_long_pattern_name", 123_456_789_012_345, 12_345_678),
        "a_very_long_pattern_name  123456789.01 ms  12345678 matches"
    );
}

#[test]
fn row_agrees_with_float_formatting() {
    let cases: Vec<(&str, u64, usize)> = vec![
        ("literal_alt", 1_234_567, 42),
        ("anchored", 999, 1),
        ("uri", 12_340_000, 100_000),
        ("email", 5_999_999, 7),
        ("char_class", 1_000_000_000, 1_000_000),
    ];
    for (name, nanos, count) in cases {
        assert_eq!(result_row(name, nanos, count), float_row(name, nanos, count));
    }
}

#[test]
fn rounding_half_to_even() {
    assert_eq!(rounded_quotient(5, 2), 2);
    assert_eq!(rounded_quotient(7, 2), 4);
    assert_eq!(rounded_quotient(7, 3), 2);
    assert_eq!(rounded_quotient(8, 3), 3);
    assert_eq!(rounded_quotient(0, 9), 0);
    assert_eq!(rounded_quotient(u128::MAX, 1), u128::MAX);
    assert_eq!(rounded_quotient(u128::MAX, 2), u128::MAX / 2 + 1);
}

#[test]
fn every_report_line_is_one_line() {
    let mut lines = vec![header_line(123_456), separator_line()];
    for p in benchmark_patterns() {
        lines.push(result_row(p.name, 987_654_321, 31_337));
    }
    assert_eq!(lines.len(), 10);
    for l in lines {
        assert!(!l.contains('\n'));
    }
}
