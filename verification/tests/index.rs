use vector_store::cuvs::index::{CuvsIndex, Rows};
use vector_store::types::{Dimensions, PrimaryId};

fn dimensions(value: usize) -> Dimensions {
    Dimensions::new(value).unwrap()
}

#[test]
fn upsert_appends_new_rows() {
    let mut rows: Rows<f32> = Rows::new(dimensions(2));
    rows.upsert(1.into(), &[1.0, 2.0]);
    rows.upsert(2.into(), &[3.0, 4.0]);

    assert_eq!(rows.ids().len(), 2);
    assert_eq!(rows.values(), &vec![1.0, 2.0, 3.0, 4.0]);
    assert_eq!(rows.ids(), &vec![1.into(), 2.into()]);
}

#[test]
fn upsert_replaces_existing_row_in_place() {
    let mut rows: Rows<f32> = Rows::new(dimensions(2));
    rows.upsert(1.into(), &[1.0, 2.0]);
    rows.upsert(2.into(), &[3.0, 4.0]);
    rows.upsert(1.into(), &[9.0, 9.0]);

    assert_eq!(rows.ids().len(), 2, "replacing must not append a row");
    assert_eq!(rows.values(), &vec![9.0, 9.0, 3.0, 4.0]);
}

#[test]
fn the_last_upsert_wins() {
    let mut twice: Rows<f32> = Rows::new(dimensions(2));
    twice.upsert(7.into(), &[1.0, 2.0]);
    twice.upsert(7.into(), &[3.0, 4.0]);
    let mut once: Rows<f32> = Rows::new(dimensions(2));
    once.upsert(7.into(), &[3.0, 4.0]);

    assert_eq!(twice.values(), once.values());
    assert_eq!(twice.ids(), once.ids());
}

#[test]
fn a_new_row_takes_any_width() {
    let mut rows: Rows<f32> = Rows::new(dimensions(2));
    rows.upsert(1.into(), &[1.0]);
    assert_eq!(rows.ids().len(), 1);
    assert_eq!(rows.values(), &vec![1.0]);
}

#[test]
fn an_existing_row_takes_its_own_width_only() {
    let mut rows: Rows<f32> = Rows::new(dimensions(2));
    assert!(rows.is_aligned());
    assert!(rows.accepts(1.into(), 5));
    rows.upsert(1.into(), &[1.0, 2.0]);
    assert!(rows.is_aligned());
    assert!(rows.accepts(1.into(), 2));
    assert!(!rows.accepts(1.into(), 3));
    // A short row leaves the index out of step.
    rows.upsert(2.into(), &[3.0]);
    assert!(!rows.is_aligned());
    assert!(!rows.accepts(2.into(), 2));
    assert!(rows.accepts(1.into(), 2));
}

#[test]
fn remove_moves_the_last_row_into_the_gap() {
    let mut rows: Rows<f32> = Rows::new(dimensions(2));
    rows.upsert(1.into(), &[1.0, 1.5]);
    rows.upsert(2.into(), &[2.0, 2.5]);
    rows.upsert(3.into(), &[3.0, 3.5]);

    assert!(rows.remove(1.into()));
    assert_eq!(rows.ids(), &vec![3.into(), 2.into()]);
    assert_eq!(rows.values(), &vec![3.0, 3.5, 2.0, 2.5]);

    // The moved row is still found under its identifier.
    rows.upsert(3.into(), &[4.0, 4.5]);
    assert_eq!(rows.values(), &vec![4.0, 4.5, 2.0, 2.5]);

    assert!(!rows.remove(1.into()));
    assert!(rows.remove(2.into()));
    assert!(rows.remove(3.into()));
    assert!(rows.ids().is_empty());
    assert!(rows.values().is_empty());
}

#[test]
fn there_is_one_row_per_identifier() {
    let mut rows: Rows<f32> = Rows::new(dimensions(1));
    for round in 0..3 {
        for id in 0..50u64 {
            rows.upsert(PrimaryId::from(id), &[round as f32]);
        }
    }
    assert_eq!(rows.ids().len(), 50);
    assert_eq!(rows.values(), &vec![2.0; 50]);
    assert_eq!(rows.dimensions(), 1);
}

#[test]
fn dimensions_are_never_zero() {
    assert!(Dimensions::new(0).is_none());
    assert_eq!(dimensions(3).get(), 3);
}

#[test]
fn tokens_are_released_by_a_successful_build_only() {
    let mut index: CuvsIndex<f32, u32> = CuvsIndex::new(dimensions(1));
    assert_eq!(index.pending(), 0);
    index.add(1.into(), &[1.0], 10);
    index.remove(5.into(), 11);
    assert_eq!(index.pending(), 2);
    assert_eq!(index.count(), 0);

    assert_eq!(index.build(Err("no device")), Err("no device"));
    assert_eq!(index.pending(), 2);
    assert_eq!(index.count(), 0);

    index.add(2.into(), &[2.0], 12);
    assert_eq!(index.build::<String>(Ok(())), Ok(vec![10, 11, 12]));
    assert_eq!(index.pending(), 0);
    assert_eq!(index.count(), 2);
    assert_eq!(index.rows().ids().len(), 2);

    // Nothing is released twice.
    assert_eq!(index.build::<String>(Ok(())), Ok(vec![]));
}

#[test]
fn the_rows_hold_what_was_written_and_not_taken_out() {
    let mut index: CuvsIndex<f32, u32> = CuvsIndex::new(dimensions(2));
    index.add(1.into(), &[1.0, 1.5], 0);
    index.add(2.into(), &[2.0, 2.5], 1);
    assert!(index.build(Err(())).is_err());
    index.remove(1.into(), 2);
    index.add(3.into(), &[3.0, 3.5], 3);
    index.add(2.into(), &[4.0, 4.5], 4);
    assert!(index.build::<()>(Ok(())).is_ok());

    assert_eq!(index.rows().ids(), &vec![2.into(), 3.into()]);
    assert_eq!(index.rows().values(), &vec![4.0, 4.5, 3.0, 3.5]);
    assert!(index.rows().is_aligned());
}
