use records::criteria::{Criteria, Gender};
use records::store::{CriteriaPatch, RecordStore, StoreError};

fn indian(age: i32) -> Criteria {
    Criteria::new(age, Gender::Others, "Indian".to_string())
}

#[test]
fn create_then_read_gives_the_record() {
    let mut store = RecordStore::new();
    let id = store.create(indian(65)).unwrap();
    assert_eq!(id, 1);
    let c = store.read(id).unwrap();
    assert_eq!(c.age(), 65);
    assert_eq!(c.gender(), Gender::Others);
    assert_eq!(c.nationality(), "Indian");
}

#[test]
fn update_replaces_only_given_fields() {
    let mut store = RecordStore::new();
    let id = store.create(indian(65)).unwrap();
    let mut p = CriteriaPatch::empty();
    p.age = Some(98);
    let c = store.update(id, p).unwrap();
    assert_eq!(c.age(), 98);
    assert_eq!(c.gender(), Gender::Others);
    assert_eq!(c.nationality(), "Indian");
    let again = store.read(id).unwrap();
    assert_eq!(again.age(), 98);
    assert_eq!(again.nationality(), "Indian");
}

#[test]
fn delete_then_read_is_not_found() {
    let mut store = RecordStore::new();
    let id = store.create(indian(65)).unwrap();
    assert_eq!(store.delete(id), Ok(()));
    assert_eq!(store.read(id).unwrap_err(), StoreError::NotFound);
    assert_eq!(store.len(), 0);
}

#[test]
fn negative_age_is_rejected_and_nothing_stored() {
    let mut store = RecordStore::new();
    assert_eq!(store.create(indian(-1)), Err(StoreError::ValidationError));
    assert_eq!(store.len(), 0);
    assert_eq!(store.read(1).unwrap_err(), StoreError::NotFound);
}

#[test]
fn empty_nationality_is_rejected() {
    let mut store = RecordStore::new();
    let c = Criteria::new(30, Gender::Male, String::new());
    assert_eq!(store.create(c), Err(StoreError::ValidationError));
    assert_eq!(store.len(), 0);
}

#[test]
fn unknown_ids_are_not_found() {
    let mut store = RecordStore::new();
    store.create(indian(65)).unwrap();
    for id in [0u64, 2, 7, u64::MAX] {
        assert_eq!(store.read(id).unwrap_err(), StoreError::NotFound);
        assert_eq!(store.update(id, CriteriaPatch::empty()).unwrap_err(), StoreError::NotFound);
        assert_eq!(store.delete(id), Err(StoreError::NotFound));
    }
    assert_eq!(store.len(), 1);
}

#[test]
fn update_of_unknown_id_with_bad_fields_is_not_found() {
    let mut store = RecordStore::new();
    let mut p = CriteriaPatch::empty();
    p.age = Some(-5);
    assert_eq!(store.update(3, p).unwrap_err(), StoreError::NotFound);
}

#[test]
fn invalid_update_keeps_the_record() {
    let mut store = RecordStore::new();
    let id = store.create(indian(65)).unwrap();
    let mut p = CriteriaPatch::empty();
    p.nationality = Some(String::new());
    assert_eq!(store.update(id, p).unwrap_err(), StoreError::ValidationError);
    assert_eq!(store.read(id).unwrap().nationality(), "Indian");
}

#[test]
fn delete_twice_succeeds_then_not_found() {
    let mut store = RecordStore::new();
    let id = store.create(indian(40)).unwrap();
    assert_eq!(store.delete(id), Ok(()));
    assert_eq!(store.delete(id), Err(StoreError::NotFound));
}

#[test]
fn ids_are_distinct_and_never_reused() {
    let mut store = RecordStore::new();
    let a = store.create(indian(1)).unwrap();
    let b = store.create(indian(2)).unwrap();
    assert_ne!(a, b);
    store.delete(b).unwrap();
    let c = store.create(indian(3)).unwrap();
    assert_eq!((a, b, c), (1, 2, 3));
    assert_eq!(store.len(), 2);
    assert_eq!(store.read(a).unwrap().age(), 1);
    assert_eq!(store.read(c).unwrap().age(), 3);
}

#[test]
fn mutable_opt_sets_gender_to_others() {
    let mut c = Criteria::new(65, Gender::Female, "Indian".to_string());
    c.mutable_opt();
    assert_eq!(c.gender(), Gender::Others);
    assert_eq!(c.age(), 65);
    assert_eq!(c.nationality(), "Indian");
}

#[test]
fn stats_line_describes_the_record() {
    let c = Criteria::new(65, Gender::Others, "Indian".to_string());
    assert_eq!(c.stats_line(), "Your age is 65, nationality Indian, And you are a Others!!");
    let d = Criteria::new(-7, Gender::Male, "French".to_string());
    assert_eq!(d.stats_line(), "Your age is -7, nationality French, And you are a Male!!");
}

#[test]
fn clone_keeps_the_fields() {
    let c = Criteria::new(12, Gender::Female, "Kenyan".to_string());
    let d = c.clone();
    assert_eq!(d.age(), 12);
    assert_eq!(d.gender(), Gender::Female);
    assert_eq!(d.nationality(), "Kenyan");
    assert!(d.is_valid());
}
