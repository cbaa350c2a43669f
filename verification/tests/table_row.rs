use docx_core::documents::elements::{TableCell, TableCellProperty, TableRow};
use docx_core::documents::BuildXML;
use std::str;

#[test]
fn test_row() {
    let b = TableRow::new(vec![TableCell::new()]).build();
    assert_eq!(
        str::from_utf8(&b).unwrap(),
        r#"<w:tr><w:trPr /><w:tc><w:tcPr /></w:tc></w:tr>"#
    );
}

#[test]
fn test_row_without_cells() {
    let b = TableRow::new(vec![]).build();
    assert_eq!(str::from_utf8(&b).unwrap(), r#"<w:tr><w:trPr /></w:tr>"#);
}

#[test]
fn test_row_two_cells_keep_order() {
    let b = TableRow::new(vec![TableCell::new(), TableCell::new()]).build();
    assert_eq!(
        str::from_utf8(&b).unwrap(),
        r#"<w:tr><w:trPr /><w:tc><w:tcPr /></w:tc><w:tc><w:tcPr /></w:tc></w:tr>"#
    );
}

#[test]
fn test_row_numbering_flag_folds_over_cells() {
    let numbered = TableCell {
        property: TableCellProperty::new(),
        has_numbering: true,
    };
    let row = TableRow::new(vec![TableCell::new(), numbered, TableCell::new()]);
    assert!(row.has_numbering);
}

#[test]
fn test_row_numbering_flag_false_without_numbered_cell() {
    let row = TableRow::new(vec![TableCell::new(), TableCell::new()]);
    assert!(!row.has_numbering);
}

#[test]
fn test_row_build_twice_identical() {
    let row = TableRow::new(vec![TableCell::new()]);
    let b1 = row.build();
    let b2 = row.build();
    assert_eq!(b1, b2);
}
