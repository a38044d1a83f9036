use grid_rotate::records::{records_from_rows, rows_of};
use grid_rotate::rotate::Rotate;
use papergrid::records::vec_records::VecRecords;

fn texts(rows: &[&[&str]]) -> Vec<Vec<String>> {
    rows.iter()
        .map(|row| row.iter().map(|cell| cell.to_string()).collect())
        .collect()
}

fn grid(rows: &[&[&str]], count_columns: usize) -> VecRecords<String> {
    records_from_rows(texts(rows), count_columns).expect("rows of the stated width")
}

fn turned(mut how: Rotate, rows: &[&[&str]], count_columns: usize) -> VecRecords<String> {
    let mut records = grid(rows, count_columns);
    how.change(&mut records);
    records
}

const SQUARE: &[&[&str]] = &[&["0", "1", "2"], &["1", "2", "3"], &["4", "5", "6"]];
const WIDE: &[&[&str]] = &[&["1", "2", "3"], &["4", "5", "6"]];
const TALL: &[&[&str]] = &[&["a", "b"], &["c", "d"], &["e", "f"], &["g", "h"]];

#[test]
fn square_left() {
    let out = turned(Rotate::Left, SQUARE, 3);
    assert_eq!(out.size(), (3, 3));
    assert_eq!(
        rows_of(&out),
        texts(&[&["2", "3", "6"], &["1", "2", "5"], &["0", "1", "4"]])
    );
}

#[test]
fn square_right() {
    let out = turned(Rotate::Right, SQUARE, 3);
    assert_eq!(out.size(), (3, 3));
    assert_eq!(
        rows_of(&out),
        texts(&[&["4", "1", "0"], &["5", "2", "1"], &["6", "3", "2"]])
    );
}

#[test]
fn square_bottom() {
    let out = turned(Rotate::Bottom, SQUARE, 3);
    assert_eq!(out.size(), (3, 3));
    assert_eq!(
        rows_of(&out),
        texts(&[&["4", "5", "6"], &["1", "2", "3"], &["0", "1", "2"]])
    );
}

#[test]
fn square_top() {
    let out = turned(Rotate::Top, SQUARE, 3);
    assert_eq!(out.size(), (3, 3));
    assert_eq!(
        rows_of(&out),
        texts(&[&["4", "5", "6"], &["1", "2", "3"], &["0", "1", "2"]])
    );
}

#[test]
fn wide_left() {
    let out = turned(Rotate::Left, WIDE, 3);
    assert_eq!(out.size(), (3, 2));
    assert_eq!(rows_of(&out), texts(&[&["3", "6"], &["2", "5"], &["1", "4"]]));
}

#[test]
fn wide_right() {
    let out = turned(Rotate::Right, WIDE, 3);
    assert_eq!(out.size(), (3, 2));
    assert_eq!(rows_of(&out), texts(&[&["4", "1"], &["5", "2"], &["6", "3"]]));
}

#[test]
fn tall_left() {
    let out = turned(Rotate::Left, TALL, 2);
    assert_eq!(out.size(), (2, 4));
    assert_eq!(
        rows_of(&out),
        texts(&[&["b", "d", "f", "h"], &["a", "c", "e", "g"]])
    );
}

#[test]
fn tall_right() {
    let out = turned(Rotate::Right, TALL, 2);
    assert_eq!(out.size(), (2, 4));
    assert_eq!(
        rows_of(&out),
        texts(&[&["g", "e", "c", "a"], &["h", "f", "d", "b"]])
    );
}

#[test]
fn single_row_left_and_right() {
    let row: &[&[&str]] = &[&["a", "b"]];
    let left = turned(Rotate::Left, row, 2);
    assert_eq!(left.size(), (2, 1));
    assert_eq!(rows_of(&left), texts(&[&["b"], &["a"]]));
    let right = turned(Rotate::Right, row, 2);
    assert_eq!(right.size(), (2, 1));
    assert_eq!(rows_of(&right), texts(&[&["a"], &["b"]]));
}

#[test]
fn single_column_left_and_right() {
    let column: &[&[&str]] = &[&["a"], &["b"]];
    let left = turned(Rotate::Left, column, 1);
    assert_eq!(left.size(), (1, 2));
    assert_eq!(rows_of(&left), texts(&[&["a", "b"]]));
    let right = turned(Rotate::Right, column, 1);
    assert_eq!(right.size(), (1, 2));
    assert_eq!(rows_of(&right), texts(&[&["b", "a"]]));
}

#[test]
fn tall_bottom() {
    let out = turned(Rotate::Bottom, TALL, 2);
    assert_eq!(out.size(), (4, 2));
    assert_eq!(
        rows_of(&out),
        texts(&[&["g", "h"], &["e", "f"], &["c", "d"], &["a", "b"]])
    );
}

#[test]
fn shapes_after_each_direction() {
    assert_eq!(turned(Rotate::Left, WIDE, 3).size(), (3, 2));
    assert_eq!(turned(Rotate::Right, WIDE, 3).size(), (3, 2));
    assert_eq!(turned(Rotate::Top, WIDE, 3).size(), (2, 3));
    assert_eq!(turned(Rotate::Bottom, WIDE, 3).size(), (2, 3));
}

#[test]
fn left_then_right_restores() {
    for (rows, width) in [(WIDE, 3), (TALL, 2), (SQUARE, 3)] {
        let mut records = grid(rows, width);
        Rotate::Left.change(&mut records);
        Rotate::Right.change(&mut records);
        assert_eq!(records.size(), (rows.len(), width));
        assert_eq!(rows_of(&records), texts(rows));
    }
}

#[test]
fn right_then_left_restores() {
    for (rows, width) in [(WIDE, 3), (TALL, 2), (SQUARE, 3)] {
        let mut records = grid(rows, width);
        Rotate::Right.change(&mut records);
        Rotate::Left.change(&mut records);
        assert_eq!(records.size(), (rows.len(), width));
        assert_eq!(rows_of(&records), texts(rows));
    }
}

#[test]
fn bottom_twice_restores() {
    for (rows, width) in [(WIDE, 3), (TALL, 2), (SQUARE, 3)] {
        let mut records = grid(rows, width);
        Rotate::Bottom.change(&mut records);
        Rotate::Bottom.change(&mut records);
        assert_eq!(records.size(), (rows.len(), width));
        assert_eq!(rows_of(&records), texts(rows));
    }
}

#[test]
fn top_equals_bottom() {
    for (rows, width) in [(WIDE, 3), (TALL, 2), (SQUARE, 3)] {
        let top = turned(Rotate::Top, rows, width);
        let bottom = turned(Rotate::Bottom, rows, width);
        assert_eq!(top.size(), bottom.size());
        assert_eq!(rows_of(&top), rows_of(&bottom));
    }
}

#[test]
fn four_left_turns_restore() {
    let mut records = grid(WIDE, 3);
    for _ in 0..4 {
        Rotate::Left.change(&mut records);
    }
    assert_eq!(records.size(), (2, 3));
    assert_eq!(rows_of(&records), texts(WIDE));
}

#[test]
fn no_rows() {
    let none: &[&[&str]] = &[];
    let left = turned(Rotate::Left, none, 3);
    assert_eq!(left.size(), (3, 0));
    assert_eq!(rows_of(&left), vec![Vec::<String>::new(); 3]);
    let right = turned(Rotate::Right, none, 3);
    assert_eq!(right.size(), (3, 0));
    assert_eq!(rows_of(&right), vec![Vec::<String>::new(); 3]);
    assert_eq!(turned(Rotate::Top, none, 3).size(), (0, 3));
    let bottom = turned(Rotate::Bottom, none, 3);
    assert_eq!(bottom.size(), (0, 3));
    assert!(rows_of(&bottom).is_empty());
}

#[test]
fn no_columns() {
    let blank: &[&[&str]] = &[&[], &[]];
    let left = turned(Rotate::Left, blank, 0);
    assert_eq!(left.size(), (0, 2));
    assert!(rows_of(&left).is_empty());
    let right = turned(Rotate::Right, blank, 0);
    assert_eq!(right.size(), (0, 2));
    assert!(rows_of(&right).is_empty());
    let top = turned(Rotate::Top, blank, 0);
    assert_eq!(top.size(), (2, 0));
    assert_eq!(rows_of(&top), vec![Vec::<String>::new(); 2]);
    assert_eq!(turned(Rotate::Bottom, blank, 0).size(), (2, 0));
}

#[test]
fn nothing_at_all() {
    let none: &[&[&str]] = &[];
    for how in [Rotate::Left, Rotate::Right, Rotate::Top, Rotate::Bottom] {
        let out = turned(how, none, 0);
        assert_eq!(out.size(), (0, 0));
        assert!(rows_of(&out).is_empty());
    }
}

#[test]
fn single_cell() {
    let one: &[&[&str]] = &[&["x"]];
    for how in [Rotate::Left, Rotate::Right, Rotate::Top, Rotate::Bottom] {
        let out = turned(how, one, 1);
        assert_eq!(out.size(), (1, 1));
        assert_eq!(rows_of(&out), texts(one));
    }
}

#[test]
fn odd_flip_keeps_middle_row() {
    let rows: &[&[&str]] = &[&["a", "b"], &["m", "n"], &["y", "z"]];
    let out = rows_of(&turned(Rotate::Bottom, rows, 2));
    assert_eq!(out[1], vec!["m".to_string(), "n".to_string()]);
    assert_eq!(out, texts(&[&["y", "z"], &["m", "n"], &["a", "b"]]));
}

#[test]
fn change_keeps_the_direction() {
    let mut how = Rotate::Left;
    let mut records = grid(WIDE, 3);
    how.change(&mut records);
    assert!(matches!(how, Rotate::Left));
}

#[test]
fn cells_keep_their_whole_text() {
    let rows: &[&[&str]] = &[&["first line\nsecond", ""], &["  padded  ", "\u{1F600}"]];
    let out = turned(Rotate::Right, rows, 2);
    assert_eq!(
        rows_of(&out),
        texts(&[&["  padded  ", "first line\nsecond"], &["\u{1F600}", ""]])
    );
}

#[test]
fn rows_round_trip() {
    let records = grid(TALL, 2);
    assert_eq!(records.size(), (4, 2));
    assert_eq!(rows_of(&records), texts(TALL));
}

#[test]
fn ragged_rows_are_refused() {
    let ragged: &[&[&str]] = &[&["a", "b"], &["c"]];
    assert!(records_from_rows(texts(ragged), 2).is_none());
    assert!(records_from_rows(texts(WIDE), 2).is_none());
    assert!(records_from_rows(texts(WIDE), 4).is_none());
    assert!(records_from_rows(texts(WIDE), 3).is_some());
    assert!(records_from_rows(Vec::new(), 7).is_some());
}
