use pathtracer::scheduler::{reassemble, RowBuffer};

#[test]
fn reassemble_rows_in_order() {
    let pairs: Vec<(usize, String)> = vec![
        (0, String::from("row zero\n")),
        (1, String::from("row one\n")),
        (2, String::from("row two\n")),
    ];
    let rows = reassemble(&pairs, 3).expect("all rows present");
    assert_eq!(rows, vec!["row zero\n", "row one\n", "row two\n"]);
}

#[test]
fn reassemble_restores_order_of_late_rows() {
    // The workers finish out of order; the collected sequence is reordered
    // by row index all the same.
    let pairs: Vec<(usize, String)> = vec![
        (2, String::from("row two\n")),
        (0, String::from("row zero\n")),
        (3, String::from("row three\n")),
        (1, String::from("row one\n")),
    ];
    let rows = reassemble(&pairs, 4).expect("all rows present");
    assert_eq!(rows, vec!["row zero\n", "row one\n", "row two\n", "row three\n"]);
}

#[test]
fn reassemble_agrees_across_arrival_orders() {
    let forward: Vec<(usize, String)> =
        (0..16).map(|i| (i, format!("line {}\n", i))).collect();
    let mut backward = forward.clone();
    backward.reverse();
    let a = reassemble(&forward, 16).expect("complete");
    let b = reassemble(&backward, 16).expect("complete");
    assert_eq!(a, b);
    for (i, row) in a.iter().enumerate() {
        assert_eq!(row, &format!("line {}\n", i));
    }
}

#[test]
fn reassemble_missing_row_fails() {
    let pairs: Vec<(usize, String)> = vec![
        (0, String::from("a")),
        (2, String::from("c")),
    ];
    assert!(reassemble(&pairs, 3).is_none());
}

#[test]
fn reassemble_out_of_range_row_fails() {
    let pairs: Vec<(usize, String)> = vec![
        (0, String::from("a")),
        (3, String::from("too far")),
    ];
    assert!(reassemble(&pairs, 3).is_none());
}

#[test]
fn reassemble_keeps_last_duplicate() {
    let pairs: Vec<(usize, String)> = vec![
        (0, String::from("first")),
        (0, String::from("second")),
    ];
    let rows = reassemble(&pairs, 1).expect("row covered");
    assert_eq!(rows, vec!["second"]);
}

#[test]
fn row_buffer_tracks_completion() {
    let mut buffer = RowBuffer::new(2);
    assert!(!buffer.is_complete());
    buffer.insert(1, String::from("bottom"));
    assert!(!buffer.is_complete());
    buffer.insert(0, String::from("top"));
    assert!(buffer.is_complete());
    assert_eq!(buffer.into_rows(), vec!["top", "bottom"]);
}
