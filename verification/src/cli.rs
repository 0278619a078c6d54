//! The parsed command line and the dispatch decision: which store operation
//! a parsed subcommand asks for. Parsing the process arguments and running
//! the chosen operation against a live store are a caller's work; the
//! mapping from subcommand to operation is the logic here, and it is exact.

use vstd::prelude::*;

use crate::command::{Command, CommandBuilder};

verus! {

/// The parsed command line: the database location and the subcommand.
#[derive(Debug)]
pub struct Cli {
    /// Location of the database file.
    pub db_path: String,
    /// The subcommand, if one was given.
    pub command: Option<Commands>,
}

/// The subcommands the tool understands.
#[derive(Debug)]
pub enum Commands {
    /// List every stored command, or search one by name.
    List { name: Option<String> },
    /// Store a new command under a name, with an optional description.
    Add { name: String, statement: String, description: Option<String> },
    /// Update a stored command (not wired to the store yet).
    Update,
    /// Look a command up by name in order to execute it.
    Exec { name: String },
}

/// The store operation a subcommand asks for.
#[derive(Debug)]
pub enum RunAction {
    /// Fetch the named command and show it; its absence is a failure.
    FetchAndShow { name: String },
    /// Fetch the named command and show it, or say it was not found.
    ShowOne { name: String },
    /// Show every stored command.
    ShowAll,
    /// Insert the already-built command as a new row.
    Insert { command: Command },
    /// Nothing to do against the store.
    DoNothing,
}

/// Decide which store operation a parsed subcommand asks for. An `add`
/// subcommand has its required fields by construction, so building its
/// command cannot fail: the built command carries exactly the given name,
/// statement and description, identity zero, and equal fresh timestamps.
pub fn plan_run(command: Option<Commands>) -> (r: RunAction)
    ensures
        match command {
            Some(cmd) => match cmd {
                Commands::Exec { name } => r matches RunAction::FetchAndShow { name: n } && n@
                    == name@,
                Commands::List { name: maybe_name } => match maybe_name {
                    Some(nm) => r matches RunAction::ShowOne { name: n } && n@ == nm@,
                    None => r is ShowAll,
                },
                Commands::Add { name, statement, description } => r matches RunAction::Insert {
                    command: c,
                } && c@.name == name@ && c@.statement == statement@ && c@.description
                    == description.deep_view() && c@.id == 0 && c@.created_at == c@.updated_at,
                Commands::Update => r is DoNothing,
            },
            None => r is DoNothing,
        },
{
    match command {
        Some(Commands::Exec { name }) => RunAction::FetchAndShow { name },
        Some(Commands::List { name }) => match name {
            Some(nm) => RunAction::ShowOne { name: nm },
            None => RunAction::ShowAll,
        },
        Some(Commands::Add { name, statement, description }) => {
            let builder = CommandBuilder::new().name(name).statement(statement);
            let mut builder = match description {
                Some(d) => builder.description(d),
                None => builder,
            };
            match builder.build() {
                Ok(c) => RunAction::Insert { command: c },
                Err(_) => {
                    proof {
                        assert(false);
                    }
                    RunAction::DoNothing
                },
            }
        },
        Some(Commands::Update) => RunAction::DoNothing,
        None => RunAction::DoNothing,
    }
}

} // verus!
