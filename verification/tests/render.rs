use fst::{draw_line, time_axis};

fn values(v: &[(u64, &str)]) -> Vec<(u64, String)> {
    v.iter().map(|(t, s)| (*t, s.to_string())).collect()
}

#[test]
fn axis_marks_times_before_the_last() {
    assert_eq!(time_axis(&vec![0, 5, 10]).unwrap(), "|0   |5");
    assert_eq!(time_axis(&vec![0, 3, 4, 20]).unwrap(), "|0 |3");
    assert_eq!(time_axis(&vec![7]).unwrap(), "");
    assert_eq!(time_axis(&vec![]), None);
}

#[test]
fn axis_overflow_is_refused() {
    assert_eq!(time_axis(&vec![u64::MAX - 3, u64::MAX]), None);
}

#[test]
fn rows_of_a_bit() {
    let d = values(&[(0, "0"), (4, "1")]);
    assert_eq!(draw_line(&d, 0, 8, true).unwrap(), "    ___ ");
    assert_eq!(draw_line(&d, 0, 8, false).unwrap(), "_0_/ 1 \\");
    let d = values(&[(0, "0"), (4, "1"), (6, "0")]);
    assert_eq!(draw_line(&d, 0, 10, true).unwrap(), "    _     ");
    assert_eq!(draw_line(&d, 0, 10, false).unwrap(), "_0_/1\\_0_/");
}

#[test]
fn rows_of_a_bus() {
    let d = values(&[(0, "1010"), (8, "0011")]);
    assert_eq!(draw_line(&d, 0, 12, true).unwrap(), "_______ ___ ");
    assert_eq!(draw_line(&d, 0, 12, false).unwrap(), "__1010_X0011");
    let d = values(&[(2, "x")]);
    assert_eq!(draw_line(&d, 0, 6, true).unwrap(), "_____ ");
    assert_eq!(draw_line(&d, 0, 6, false).unwrap(), "___x_X");
}

#[test]
fn empty_trace_is_a_line() {
    assert_eq!(draw_line(&vec![], 0, 4, true).unwrap(), "____");
    assert_eq!(draw_line(&vec![], 0, 4, false).unwrap(), "____");
    assert_eq!(draw_line(&vec![], 5, 5, false).unwrap(), "");
}

#[test]
fn label_wider_than_its_time_is_refused() {
    let d = values(&[(0, "1010"), (2, "0")]);
    assert_eq!(draw_line(&d, 0, 10, true), None);
    assert_eq!(draw_line(&d, 0, 10, false), None);
    let d = values(&[(0, "10101")]);
    assert_eq!(draw_line(&d, 0, 3, false), None);
}

#[test]
fn upper_row_spans_the_window() {
    let d = values(&[(0, "0"), (3, "1"), (7, "0"), (9, "1")]);
    let row = draw_line(&d, 0, 12, true).unwrap();
    assert_eq!(row.chars().count(), 12);
    assert!(row.chars().all(|c| c == ' ' || c == '_'));
}
