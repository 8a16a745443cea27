use codespan_wasm::{FileError, FileRegistry};

fn sample() -> (FileRegistry, usize) {
    let mut reg = FileRegistry::new();
    let h = reg.register("t.txt".to_string(), "foo\nbar\r\n\nbaz".to_string());
    (reg, h)
}

#[test]
fn handles_follow_registration_order() {
    let mut reg = FileRegistry::new();
    assert_eq!(reg.register("a".to_string(), "x".to_string()), 0);
    assert_eq!(reg.register("b".to_string(), "y".to_string()), 1);
    assert_eq!(reg.register("a".to_string(), "z".to_string()), 2);
    assert_eq!(reg.file_count(), 3);
    assert_eq!(reg.text(0).unwrap().as_str(), "x");
    assert_eq!(reg.text(2).unwrap().as_str(), "z");
    assert_eq!(reg.name(2).unwrap().as_str(), "a");
}

#[test]
fn line_col_of_each_offset_round_trips() {
    let (reg, h) = sample();
    let len = "foo\nbar\r\n\nbaz".len();
    for o in 0..=len {
        let (line, col) = reg.offset_to_line_col(h, o).unwrap();
        let (start, _) = reg.line_range(h, line).unwrap();
        assert_eq!(start + col, o);
    }
}

#[test]
fn line_col_exact_values() {
    let (reg, h) = sample();
    assert_eq!(reg.offset_to_line_col(h, 0), Ok((0, 0)));
    assert_eq!(reg.offset_to_line_col(h, 3), Ok((0, 3)));
    assert_eq!(reg.offset_to_line_col(h, 4), Ok((1, 0)));
    assert_eq!(reg.offset_to_line_col(h, 5), Ok((1, 1)));
    assert_eq!(reg.offset_to_line_col(h, 9), Ok((2, 0)));
    assert_eq!(reg.offset_to_line_col(h, 10), Ok((3, 0)));
    assert_eq!(reg.offset_to_line_col(h, 13), Ok((3, 3)));
}

#[test]
fn offsets_past_the_end_clamp() {
    let (reg, h) = sample();
    assert_eq!(reg.offset_to_line_col(h, 100), Ok((3, 3)));
}

#[test]
fn empty_text_has_one_line() {
    let mut reg = FileRegistry::new();
    let h = reg.register("e".to_string(), String::new());
    assert_eq!(reg.line_count(h), Ok(1));
    assert_eq!(reg.offset_to_line_col(h, 0), Ok((0, 0)));
    assert_eq!(reg.line_range(h, 0), Ok((0, 0)));
}

#[test]
fn columns_count_bytes() {
    let mut reg = FileRegistry::new();
    let h = reg.register("u".to_string(), "é\tx\n".to_string());
    assert_eq!(reg.offset_to_line_col(h, 3), Ok((0, 3)));
    assert_eq!(reg.offset_to_line_col(h, 5), Ok((1, 0)));
}

#[test]
fn line_ranges_and_texts() {
    let (reg, h) = sample();
    assert_eq!(reg.line_count(h), Ok(4));
    assert_eq!(reg.line_range(h, 0), Ok((0, 4)));
    assert_eq!(reg.line_range(h, 1), Ok((4, 9)));
    assert_eq!(reg.line_range(h, 3), Ok((10, 13)));
    assert_eq!(reg.line_text(h, 1), Ok(b"bar\r\n".to_vec()));
    assert_eq!(reg.line_text(h, 2), Ok(b"\n".to_vec()));
    assert_eq!(reg.line_text(h, 3), Ok(b"baz".to_vec()));
}

#[test]
fn unknown_handle_is_reported() {
    let (reg, _) = sample();
    assert_eq!(reg.offset_to_line_col(7, 0), Err(FileError::UnknownFile { handle: 7 }));
    assert_eq!(reg.line_range(7, 0), Err(FileError::UnknownFile { handle: 7 }));
    assert_eq!(reg.line_text(7, 0), Err(FileError::UnknownFile { handle: 7 }));
    assert_eq!(reg.line_count(7), Err(FileError::UnknownFile { handle: 7 }));
    assert!(reg.name(7).is_err());
    assert!(reg.text(7).is_err());
}

#[test]
fn line_out_of_range_is_reported() {
    let (reg, h) = sample();
    assert_eq!(reg.line_range(h, 4), Err(FileError::LineOutOfRange { given: 4, count: 4 }));
    assert_eq!(reg.line_text(h, 9), Err(FileError::LineOutOfRange { given: 9, count: 4 }));
}
