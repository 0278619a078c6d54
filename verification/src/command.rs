//! The `Command` entity — a named shell statement with an optional
//! description and advisory timestamps — and its validating builder.

use vstd::prelude::*;

verus! {

/// Something that can be executed, yielding a result record.
pub trait Executable {
    /// Execute the command.
    fn execute(&self) -> CommandResult;

    /// Inspect the command before execution; by default nothing is checked.
    fn parse(&self) {
    }
}

/// Ways executing a command can fail.
#[derive(Debug)]
pub enum CommandError {
    OTHERS,
}

/// The outcome of executing a command.
pub struct CommandResult {
}

/// A named, persisted shell statement with optional description and
/// timestamps. Timestamps are UTC, in microseconds since the Unix epoch.
#[derive(Debug)]
pub struct Command {
    /// Identity assigned by the store on creation (auto-increment);
    /// zero before persistence.
    pub id: i64,
    /// The lookup key used by callers.
    pub name: String,
    /// The shell text to be recalled or executed.
    pub statement: String,
    /// Optional free-text description of what the statement does.
    pub description: Option<String>,
    /// When this command was created (UTC microseconds).
    pub created_at: i64,
    /// When this command was last modified (UTC microseconds).
    pub updated_at: i64,
}

/// The mathematical value of a `Command`.
pub ghost struct CommandView {
    pub id: int,
    pub name: Seq<char>,
    pub statement: Seq<char>,
    pub description: Option<Seq<char>>,
    pub created_at: int,
    pub updated_at: int,
}

impl View for Command {
    type V = CommandView;

    open spec fn view(&self) -> CommandView {
        CommandView {
            id: self.id as int,
            name: self.name@,
            statement: self.statement@,
            description: self.description.deep_view(),
            created_at: self.created_at as int,
            updated_at: self.updated_at as int,
        }
    }
}

impl Command {
    /// The text a consumer sees when a command is shown: its statement.
    pub fn as_statement(&self) -> (r: &str)
        ensures
            r@ == self@.statement,
    {
        self.statement.as_str()
    }
}

impl Default for Command {
    /// A blank command: identity zero, empty name and statement, no
    /// description, both timestamps at the epoch.
    fn default() -> (r: Self)
        ensures
            r@.id == 0,
            r@.name == Seq::<char>::empty(),
            r@.statement == Seq::<char>::empty(),
            r@.description is None,
            r@.created_at == 0,
            r@.updated_at == 0,
    {
        Command {
            id: 0,
            name: String::new(),
            statement: String::new(),
            description: None,
            created_at: 0,
            updated_at: 0,
        }
    }
}

/// The current UTC wall-clock time, in microseconds since the Unix epoch.
///
/// Relies on sqlx::types::chrono::Utc::now (chrono's UTC clock): the result
/// depends on the wall clock, so nothing is promised of its value. The call
/// panics if the system clock is set before the Unix epoch.
#[verifier::external_body]
pub(crate) fn now_utc_micros() -> (r: i64)
{
    sqlx::types::chrono::Utc::now().timestamp_micros()
}

/// A required field of a `Command` was absent at `build` time.
#[derive(Debug)]
pub enum ValidationError {
    MissingName,
    MissingStatement,
    MissingNameAndStatement,
}

/// Staged construction of a `Command`: required fields are checked once,
/// at `build`.
#[derive(Debug, Clone)]
pub struct CommandBuilder {
    id: i64,
    name: Option<String>,
    statement: Option<String>,
    description: Option<String>,
    created_at: i64,
    updated_at: i64,
}

/// The mathematical value of a `CommandBuilder`.
pub ghost struct BuilderView {
    pub id: int,
    pub name: Option<Seq<char>>,
    pub statement: Option<Seq<char>>,
    pub description: Option<Seq<char>>,
    pub created_at: int,
    pub updated_at: int,
}

impl View for CommandBuilder {
    type V = BuilderView;

    closed spec fn view(&self) -> BuilderView {
        BuilderView {
            id: self.id as int,
            name: self.name.deep_view(),
            statement: self.statement.deep_view(),
            description: self.description.deep_view(),
            created_at: self.created_at as int,
            updated_at: self.updated_at as int,
        }
    }
}

/// A fresh builder: no field set, identity zero.
pub open spec fn fresh_builder(b: BuilderView) -> bool {
    &&& b.id == 0
    &&& b.name is None
    &&& b.statement is None
    &&& b.description is None
    &&& b.created_at == b.updated_at
}

/// The builder after its name is set.
pub open spec fn with_name(b: BuilderView, n: Seq<char>) -> BuilderView {
    BuilderView { name: Some(n), ..b }
}

/// The builder after its statement is set.
pub open spec fn with_statement(b: BuilderView, s: Seq<char>) -> BuilderView {
    BuilderView { statement: Some(s), ..b }
}

/// The builder after its description is set.
pub open spec fn with_description(b: BuilderView, d: Seq<char>) -> BuilderView {
    BuilderView { description: Some(d), ..b }
}

/// What `build` returns for a builder in a given state: a command carrying
/// the builder's fields when both required fields are present, and otherwise
/// an error naming every missing field.
pub open spec fn build_spec(b: BuilderView) -> Result<CommandView, ValidationError> {
    match (b.name, b.statement) {
        (Some(n), Some(s)) => Ok(
            CommandView {
                id: b.id,
                name: n,
                statement: s,
                description: b.description,
                created_at: b.created_at,
                updated_at: b.updated_at,
            },
        ),
        (None, Some(_)) => Err(ValidationError::MissingName),
        (Some(_), None) => Err(ValidationError::MissingStatement),
        (None, None) => Err(ValidationError::MissingNameAndStatement),
    }
}

impl CommandBuilder {
    /// A fresh builder: identity zero, no name, statement or description,
    /// and both timestamps set to the same current UTC time.
    pub fn new() -> (r: Self)
        ensures
            fresh_builder(r@),
    {
        let utc_now: i64 = now_utc_micros();
        Self {
            id: 0,
            name: None,
            statement: None,
            description: None,
            created_at: utc_now,
            updated_at: utc_now,
        }
    }

    /// Set the name this command is recalled by, overwriting any prior value.
    pub fn name(self, name: String) -> (r: Self)
        ensures
            r@ == with_name(self@, name@),
    {
        Self { name: Some(name), ..self }
    }

    /// Set the statement to run when this command is called, overwriting any
    /// prior value.
    pub fn statement(self, statement: String) -> (r: Self)
        ensures
            r@ == with_statement(self@, statement@),
    {
        Self { statement: Some(statement), ..self }
    }

    /// Set the free-text description, overwriting any prior value.
    pub fn description(self, description: String) -> (r: Self)
        ensures
            r@ == with_description(self@, description@),
    {
        Self { description: Some(description), ..self }
    }

    /// Produce the command if both required fields are present; otherwise
    /// report every missing field. On success the description is moved out
    /// of the builder; on failure the builder is unchanged.
    pub fn build(&mut self) -> (r: Result<Command, ValidationError>)
        ensures
            match r {
                Ok(c) => build_spec(old(self)@) == Ok::<CommandView, ValidationError>(c@)
                    && final(self)@ == (BuilderView { description: None, ..old(self)@ }),
                Err(e) => build_spec(old(self)@) == Err::<CommandView, ValidationError>(e)
                    && final(self)@ == old(self)@,
            },
    {
        let name = match &self.name {
            Some(n) => n.clone(),
            None => {
                if self.statement.is_some() {
                    return Err(ValidationError::MissingName);
                } else {
                    return Err(ValidationError::MissingNameAndStatement);
                }
            },
        };
        let statement = match &self.statement {
            Some(s) => s.clone(),
            None => {
                return Err(ValidationError::MissingStatement);
            },
        };
        Ok(
            Command {
                id: self.id,
                name,
                statement,
                description: self.description.take(),
                created_at: self.created_at,
                updated_at: self.updated_at,
            },
        )
    }
}

impl Default for CommandBuilder {
    /// Same as `CommandBuilder::new`.
    fn default() -> (r: Self)
        ensures
            fresh_builder(r@),
    {
        CommandBuilder::new()
    }
}

/// Building after setting both required fields on a fresh builder succeeds,
/// and the command carries exactly the name and statement that were set, no
/// description, and the builder's identity and timestamps.
pub proof fn lemma_build_succeeds_when_complete(b: BuilderView, n: Seq<char>, s: Seq<char>)
    requires
        fresh_builder(b),
    ensures
        build_spec(with_statement(with_name(b, n), s)) == Ok::<CommandView, ValidationError>(
            CommandView {
                id: b.id,
                name: n,
                statement: s,
                description: None,
                created_at: b.created_at,
                updated_at: b.updated_at,
            },
        ),
{
}

/// Building a builder that misses a required field fails with the error
/// naming exactly the missing fields; no command comes out.
pub proof fn lemma_build_fails_when_incomplete(b: BuilderView)
    requires
        b.name is None || b.statement is None,
    ensures
        build_spec(b) is Err,
        b.name is None && b.statement is Some ==> build_spec(b) == Err::<
            CommandView,
            ValidationError,
        >(ValidationError::MissingName),
        b.name is Some && b.statement is None ==> build_spec(b) == Err::<
            CommandView,
            ValidationError,
        >(ValidationError::MissingStatement),
        b.name is None && b.statement is None ==> build_spec(b) == Err::<
            CommandView,
            ValidationError,
        >(ValidationError::MissingNameAndStatement),
{
}

} // verus!
