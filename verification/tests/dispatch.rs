use lazy_shortcut::cli::{plan_run, Cli, Commands, RunAction};

#[test]
fn test_plan_exec() {
    let action = plan_run(Some(Commands::Exec { name: "ls".to_string() }));
    assert!(matches!(action, RunAction::FetchAndShow { name } if name == "ls"));
}

#[test]
fn test_plan_list_one() {
    let action = plan_run(Some(Commands::List { name: Some("ls".to_string()) }));
    assert!(matches!(action, RunAction::ShowOne { name } if name == "ls"));
}

#[test]
fn test_plan_list_all() {
    let action = plan_run(Some(Commands::List { name: None }));
    assert!(matches!(action, RunAction::ShowAll));
}

#[test]
fn test_plan_add_builds_command() {
    let action = plan_run(Some(Commands::Add {
        name: "grep-me".to_string(),
        statement: "grep -r TODO .".to_string(),
        description: Some("find todos".to_string()),
    }));
    match action {
        RunAction::Insert { command } => {
            assert_eq!(command.name, "grep-me");
            assert_eq!(command.statement, "grep -r TODO .");
            assert_eq!(command.description.as_deref(), Some("find todos"));
            assert_eq!(command.id, 0);
            assert_eq!(command.created_at, command.updated_at);
        }
        _ => panic!("an add subcommand must plan an insert"),
    }
}

#[test]
fn test_plan_add_without_description() {
    let action = plan_run(Some(Commands::Add {
        name: "ls".to_string(),
        statement: "ls -la".to_string(),
        description: None,
    }));
    match action {
        RunAction::Insert { command } => {
            assert_eq!(command.description, None);
        }
        _ => panic!("an add subcommand must plan an insert"),
    }
}

#[test]
fn test_plan_update_and_default_do_nothing() {
    assert!(matches!(plan_run(Some(Commands::Update)), RunAction::DoNothing));
    assert!(matches!(plan_run(None), RunAction::DoNothing));
}

#[test]
fn test_cli_carries_path_and_subcommand() {
    let cli = Cli {
        db_path: "teemo.db".to_string(),
        command: Some(Commands::List { name: None }),
    };
    assert_eq!(cli.db_path, "teemo.db");
    assert!(matches!(cli.command, Some(Commands::List { name: None })));
}
