use lazy_shortcut::db::{
    create_db_plan, is_existing_file, provision_decision, DatabaseError, ProvisionPlan,
};

#[test]
fn test_empty_path_is_invalid() {
    let plan = create_db_plan("");
    assert!(matches!(
        plan,
        ProvisionPlan::Refuse { error: DatabaseError::InvalidPath }
    ));
}

#[test]
fn test_edge_case_other_file_exists() {
    let file = tempfile::NamedTempFile::new().unwrap();
    let path = file.path().to_str().unwrap();
    assert!(is_existing_file(path));

    let plan = create_db_plan(path);
    assert!(matches!(
        plan,
        ProvisionPlan::Refuse { error: DatabaseError::AlreadyExists }
    ));
    // The refused plan carries no action, so the file is untouched.
    assert!(is_existing_file(path));
}

#[test]
fn test_plan_creates_missing_parent() {
    let dir = tempfile::TempDir::new().unwrap();
    let parent = dir.path().join("sub").join("nested");
    let db_path = parent.join("db.db");
    let plan = create_db_plan(db_path.to_str().unwrap());
    match plan {
        ProvisionPlan::CreateAt { parent: planned } => {
            assert_eq!(planned, parent.to_str().unwrap());
        }
        ProvisionPlan::Refuse { .. } => panic!("a fresh path must be provisioned"),
    }
}

#[test]
fn test_decision_table() {
    assert!(matches!(
        provision_decision("", false, None),
        ProvisionPlan::Refuse { error: DatabaseError::InvalidPath }
    ));
    assert!(matches!(
        provision_decision("x/db.db", true, Some("x".to_string())),
        ProvisionPlan::Refuse { error: DatabaseError::AlreadyExists }
    ));
    assert!(matches!(
        provision_decision("/", false, None),
        ProvisionPlan::Refuse { error: DatabaseError::InvalidPath }
    ));
    match provision_decision("x/db.db", false, Some("x".to_string())) {
        ProvisionPlan::CreateAt { parent } => assert_eq!(parent, "x"),
        ProvisionPlan::Refuse { .. } => panic!("a usable path must be provisioned"),
    }
}

#[test]
fn test_is_existing_file_false_cases() {
    let dir = tempfile::TempDir::new().unwrap();
    // A directory is not a regular file.
    assert!(!is_existing_file(dir.path().to_str().unwrap()));
    // A missing path is not a regular file.
    let missing = dir.path().join("teemo.txt");
    assert!(!is_existing_file(missing.to_str().unwrap()));
    // The empty path names nothing.
    assert!(!is_existing_file(""));
}
