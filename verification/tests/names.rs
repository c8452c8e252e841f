use skull::names::NameSet;

#[test]
fn names_are_kept_once() {
    let mut names = NameSet::new();
    assert_eq!(names.len(), 0);
    names.insert("ann".to_string());
    names.insert("bob".to_string());
    names.insert("ann".to_string());
    assert_eq!(names.len(), 2);
    assert!(names.contains(&"ann".to_string()));
    assert!(!names.contains(&"Ann".to_string()));
}

#[test]
fn names_are_given_back() {
    let mut names = NameSet::new();
    names.insert("ann".to_string());
    names.insert("bob".to_string());
    names.insert("cid".to_string());
    names.remove(&"bob".to_string());
    names.remove(&"dan".to_string());
    assert_eq!(names.len(), 2);
    assert!(!names.contains(&"bob".to_string()));
    assert!(names.contains(&"ann".to_string()));
    assert!(names.contains(&"cid".to_string()));
}
