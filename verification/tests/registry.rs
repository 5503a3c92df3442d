use healthcheck::registry::{CheckRegistry, DuplicateNameError};

#[test]
fn registers_in_order() {
    let mut reg = CheckRegistry::new();
    assert!(reg.register("db".to_owned(), 100, true).is_ok());
    assert!(reg.register("cache".to_owned(), 50, false).is_ok());
    assert!(reg.register("disk".to_owned(), 200, true).is_ok());
    assert_eq!(reg.len(), 3);
    let names: Vec<&str> = reg.list().iter().map(|c| c.name.as_str()).collect();
    assert_eq!(names, vec!["db", "cache", "disk"]);
}

#[test]
fn duplicate_name_is_rejected_and_first_kept() {
    let mut reg = CheckRegistry::new();
    assert!(reg.register("db".to_owned(), 100, true).is_ok());
    let second = reg.register("db".to_owned(), 999, false);
    assert_eq!(second, Err(DuplicateNameError));
    assert_eq!(reg.len(), 1);
    let kept = &reg.list()[0];
    assert_eq!(kept.name, "db");
    assert_eq!(kept.timeout_ms, 100);
    assert!(kept.critical);
}

#[test]
fn empty_registry_has_no_checks() {
    let reg = CheckRegistry::new();
    assert_eq!(reg.len(), 0);
    assert!(reg.list().is_empty());
    assert!(!reg.has_name(&"db".to_owned()));
}

#[test]
fn has_name_finds_registered_checks() {
    let mut reg = CheckRegistry::new();
    reg.register("db".to_owned(), 100, true).unwrap();
    assert!(reg.has_name(&"db".to_owned()));
    assert!(!reg.has_name(&"cache".to_owned()));
}
