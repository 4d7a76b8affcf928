use niri_columns::layout::{column_sizes, num_columns, windows_per_column};

fn ceil_sqrt(n: usize) -> usize {
    let mut r: usize = 0;
    while r * r < n {
        r += 1;
    }
    r
}

#[test]
fn one_window_makes_one_column() {
    assert_eq!(num_columns(1), 1);
    assert_eq!(windows_per_column(1, 1), 1);
    assert_eq!(column_sizes(1), vec![1]);
}

#[test]
fn four_windows_make_two_full_columns() {
    assert_eq!(num_columns(4), 2);
    assert_eq!(windows_per_column(4, 2), 2);
    assert_eq!(column_sizes(4), vec![2, 2]);
}

#[test]
fn five_windows_leave_the_last_column_short() {
    assert_eq!(num_columns(5), 3);
    assert_eq!(windows_per_column(5, 3), 2);
    assert_eq!(column_sizes(5), vec![2, 2, 1]);
}

#[test]
fn nine_windows_make_a_square() {
    assert_eq!(num_columns(9), 3);
    assert_eq!(windows_per_column(9, 3), 3);
    assert_eq!(column_sizes(9), vec![3, 3, 3]);
}

#[test]
fn no_windows_count_as_one_column() {
    assert_eq!(num_columns(0), 1);
}

#[test]
fn column_count_is_ceiling_square_root_within_bounds() {
    for n in 1..=2000usize {
        let c = num_columns(n);
        assert_eq!(c, ceil_sqrt(n).min(n));
        assert!(c >= 1);
        assert!(c <= n);
    }
}

#[test]
fn column_count_at_square_boundaries() {
    assert_eq!(num_columns(2), 2);
    assert_eq!(num_columns(3), 2);
    assert_eq!(num_columns(10), 4);
    assert_eq!(num_columns(16), 4);
    assert_eq!(num_columns(17), 5);
}

#[test]
fn column_count_of_the_largest_input() {
    let n = usize::MAX;
    let c = num_columns(n);
    assert!(c >= 1);
    assert!((c as u128) * (c as u128) >= n as u128);
    assert!(((c - 1) as u128) * ((c - 1) as u128) < n as u128);
}

#[test]
fn column_sizes_add_up_and_none_is_empty() {
    for n in 1..=2000usize {
        let sizes = column_sizes(n);
        let c = num_columns(n);
        let w = windows_per_column(n, c);
        assert_eq!(sizes.len(), c);
        assert_eq!(sizes.iter().sum::<usize>(), n);
        for (i, s) in sizes.iter().enumerate() {
            assert!(*s >= 1);
            assert_eq!(*s, ((i + 1) * w).min(n) - i * w);
        }
    }
}

#[test]
fn column_count_under_self_application() {
    for n in 0..=2000usize {
        let c = num_columns(n);
        assert!(num_columns(c) <= c);
        if n > 1 {
            assert!(num_columns(c) <= num_columns(n));
        }
    }
}

#[test]
fn windows_per_column_is_ceiling_division() {
    assert_eq!(windows_per_column(0, 1), 0);
    assert_eq!(windows_per_column(7, 3), 3);
    assert_eq!(windows_per_column(6, 3), 2);
    assert_eq!(windows_per_column(usize::MAX, 2), usize::MAX / 2 + 1);
    assert_eq!(windows_per_column(usize::MAX, 1), usize::MAX);
}
