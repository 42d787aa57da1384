use key_registry::directory::{Directory, InsertOutcome};

#[test]
fn new_directory_is_empty() {
    let directory = Directory::new();
    assert_eq!(directory.len(), 0);
    assert_eq!(directory.lookup("alice"), None);
    assert_eq!(directory.lookup(""), None);
}

#[test]
fn insert_then_lookup() {
    let mut directory = Directory::new();
    assert_eq!(
        directory.insert("alice".to_string(), vec![1, 2, 3]),
        InsertOutcome::Inserted
    );
    assert_eq!(directory.lookup("alice"), Some(vec![1, 2, 3]));
    assert_eq!(directory.lookup("bob"), None);
    assert_eq!(directory.lookup("Alice"), None);
    assert_eq!(directory.lookup("alice "), None);
    assert_eq!(directory.len(), 1);
}

#[test]
fn insert_under_a_taken_name_changes_nothing() {
    let mut directory = Directory::new();
    assert_eq!(
        directory.insert("alice".to_string(), vec![1, 2, 3]),
        InsertOutcome::Inserted
    );
    assert_eq!(
        directory.insert("alice".to_string(), vec![4, 5, 6]),
        InsertOutcome::ConstraintViolation
    );
    assert_eq!(
        directory.insert("alice".to_string(), vec![1, 2, 3]),
        InsertOutcome::ConstraintViolation
    );
    assert_eq!(directory.lookup("alice"), Some(vec![1, 2, 3]));
    assert_eq!(directory.len(), 1);
}

#[test]
fn names_are_independent() {
    let mut directory = Directory::new();
    assert_eq!(directory.insert("alice".to_string(), vec![1]), InsertOutcome::Inserted);
    assert_eq!(directory.insert("bob".to_string(), vec![2]), InsertOutcome::Inserted);
    assert_eq!(directory.insert("".to_string(), vec![3]), InsertOutcome::Inserted);
    assert_eq!(directory.insert("carol".to_string(), vec![1]), InsertOutcome::Inserted);
    assert_eq!(directory.lookup("alice"), Some(vec![1]));
    assert_eq!(directory.lookup("bob"), Some(vec![2]));
    assert_eq!(directory.lookup(""), Some(vec![3]));
    assert_eq!(directory.lookup("carol"), Some(vec![1]));
    assert_eq!(directory.len(), 4);
    assert_eq!(
        directory.insert("bob".to_string(), vec![9]),
        InsertOutcome::ConstraintViolation
    );
    assert_eq!(directory.lookup("bob"), Some(vec![2]));
    assert_eq!(directory.len(), 4);
}

#[test]
fn an_empty_key_can_be_stored() {
    let mut directory = Directory::new();
    assert_eq!(directory.insert("alice".to_string(), vec![]), InsertOutcome::Inserted);
    assert_eq!(directory.lookup("alice"), Some(vec![]));
}
