use docx_core::documents::elements::{TableCell, TableRow};
use docx_core::documents::history_id::{HistoryId, IdGenerator};

#[test]
fn test_ids_start_at_one_and_increase() {
    let mut ids = IdGenerator::new();
    assert_eq!(ids.next_id(), "1");
    assert_eq!(ids.next_id(), "2");
    assert_eq!(ids.next_id(), "3");
}

#[test]
fn test_reset_starts_a_new_epoch() {
    let mut ids = IdGenerator::new();
    assert_eq!(ids.next_id(), "1");
    assert_eq!(ids.next_id(), "2");
    ids.reset();
    assert_eq!(ids.next_id(), "1");
}

#[test]
fn test_deterministic_generator_returns_placeholder() {
    let mut ids = IdGenerator::deterministic();
    assert_eq!(ids.next_id(), "123");
    assert_eq!(ids.next_id(), "123");
}

#[test]
fn test_generate_through_element() {
    let mut ids = IdGenerator::new();
    let row = TableRow::new(vec![TableCell::new()]);
    assert_eq!(row.generate(&mut ids), "1");
    assert_eq!(row.generate(&mut ids), "2");
    row.clear_history_id(&mut ids);
    assert_eq!(row.generate(&mut ids), "1");
}

#[test]
fn test_multi_digit_ids() {
    let mut ids = IdGenerator::new();
    let mut last = String::new();
    for _ in 0..12 {
        last = ids.next_id();
    }
    assert_eq!(last, "12");
}
