use lazy_shortcut::command::{CommandBuilder, ValidationError};

fn check_built(name: &str, statement: &str, description: Option<&str>) {
    let mut builder = CommandBuilder::new()
        .name(name.to_string())
        .statement(statement.to_string());
    if let Some(desc) = description {
        builder = builder.description(desc.to_string());
    }
    let command = builder.build().unwrap();

    assert_eq!(command.name.as_str(), name);
    assert_eq!(command.statement.as_str(), statement);
    let actual: Option<&str> = command.description.as_deref();
    assert_eq!(actual, description);
}

#[test]
fn test_command_builder() {
    check_built("list", "ls -l", Some("List items in directory"));
    check_built("save", "save something", None);
}

fn check_build_fails(name: Option<&str>, statement: Option<&str>) {
    let mut builder = CommandBuilder::new();
    if let Some(n) = name {
        builder = builder.name(n.to_string());
    }
    if let Some(s) = statement {
        builder = builder.statement(s.to_string());
    }
    let result = builder.build();
    if let Ok(_) = result {
        panic!("build() must fail when a required field is missing");
    }
}

#[test]
fn test_command_builder_failure() {
    check_build_fails(None, None);
    check_build_fails(Some("teemo"), None);
    check_build_fails(None, Some(""));
}

#[test]
fn test_build_error_names_missing_fields() {
    let mut none_set = CommandBuilder::new();
    assert!(matches!(
        none_set.build(),
        Err(ValidationError::MissingNameAndStatement)
    ));

    let mut only_name = CommandBuilder::new().name("teemo".to_string());
    assert!(matches!(
        only_name.build(),
        Err(ValidationError::MissingStatement)
    ));

    let mut only_statement = CommandBuilder::new().statement("echo hi".to_string());
    assert!(matches!(only_statement.build(), Err(ValidationError::MissingName)));
}

#[test]
fn test_builder_fresh_state() {
    let mut builder = CommandBuilder::new()
        .name("n".to_string())
        .statement("s".to_string());
    let command = builder.build().unwrap();
    assert_eq!(command.id, 0);
    assert_eq!(command.created_at, command.updated_at);
    assert!(command.description.is_none());
}

#[test]
fn test_builder_setters_overwrite() {
    let mut builder = CommandBuilder::new()
        .name("first".to_string())
        .name("second".to_string())
        .statement("echo 1".to_string())
        .statement("echo 2".to_string());
    let command = builder.build().unwrap();
    assert_eq!(command.name.as_str(), "second");
    assert_eq!(command.statement.as_str(), "echo 2");
}

#[test]
fn test_build_empty_strings_allowed() {
    let mut builder = CommandBuilder::new()
        .name(String::new())
        .statement(String::new());
    let command = builder.build().unwrap();
    assert_eq!(command.name.as_str(), "");
    assert_eq!(command.statement.as_str(), "");
}

#[test]
fn test_as_statement() {
    let mut builder = CommandBuilder::new()
        .name("count".to_string())
        .statement("ls -l | wc -l".to_string());
    let command = builder.build().unwrap();
    assert_eq!(command.as_statement(), "ls -l | wc -l");
}

#[test]
fn test_default_command_is_blank() {
    let command = lazy_shortcut::command::Command::default();
    assert_eq!(command.id, 0);
    assert_eq!(command.name, "");
    assert_eq!(command.statement, "");
    assert!(command.description.is_none());
    assert_eq!(command.created_at, 0);
    assert_eq!(command.updated_at, 0);
}

#[test]
fn test_default_builder_is_fresh() {
    let mut builder = CommandBuilder::default();
    assert!(builder.build().is_err());
}
