//! The CRUD store over `Command` records: an in-memory table that carries
//! the store contract (create / get / get-all / update / delete), plus the
//! pure decision steps a relational engine adapter needs.
//!
//! The table assigns identities by auto-increment, so every stored row has
//! a distinct identity; `name` is not constrained to be unique, and a lookup
//! by a shared name may return any matching row.

use vstd::prelude::*;
use vstd::pervasive::VecAdditionalExecFns;
use vstd::string::StringExecFns;

use crate::command::{Command, CommandView};

verus! {

/// How a store operation fails.
#[derive(Debug)]
pub enum StoreError {
    /// No row matches the lookup key; carries that key.
    NotFound { name: String },
    /// An engine-level failure: connectivity, a malformed statement, or an
    /// exhausted resource.
    Storage { detail: String },
}

/// The rendered text of a failed lookup: the name between the two literal
/// pieces.
fn render_not_found(name: &str) -> (r: String)
    ensures
        r@ == "Command: `"@ + name@ + "` is not defined"@,
{
    let mut r: String = "Command: `".to_owned();
    r.append(name);
    r.append("` is not defined");
    r
}

impl StoreError {
    /// The text a consumer sees for this failure.
    pub fn message(&self) -> (r: String)
        ensures
            match self {
                StoreError::NotFound { name } => r@ == "Command: `"@ + name@
                    + "` is not defined"@,
                StoreError::Storage { detail } => r@ == detail@,
            },
    {
        match self {
            StoreError::NotFound { name } => render_not_found(name.as_str()),
            StoreError::Storage { detail } => detail.clone(),
        }
    }
}

/// Some row in `rows` carries `name`.
pub open spec fn has_name(rows: Seq<CommandView>, name: Seq<char>) -> bool {
    exists|i: int| 0 <= i < rows.len() && rows[i].name == name
}

/// Some row in `rows` carries the identity `id`.
pub open spec fn has_id(rows: Seq<CommandView>, id: int) -> bool {
    exists|i: int| 0 <= i < rows.len() && rows[i].id == id
}

/// No two rows share an identity.
pub open spec fn ids_distinct(rows: Seq<CommandView>) -> bool {
    forall|i: int, j: int| 0 <= i < j < rows.len() ==> rows[i].id != rows[j].id
}

/// An exact copy of an optional description.
fn clone_description(d: &Option<String>) -> (r: Option<String>)
    ensures
        r.deep_view() == d.deep_view(),
{
    match d {
        Some(s) => Some(s.clone()),
        None => None,
    }
}

/// An exact copy of a command record.
pub fn clone_command(c: &Command) -> (r: Command)
    ensures
        r@ == c@,
{
    Command {
        id: c.id,
        name: c.name.clone(),
        statement: c.statement.clone(),
        description: clone_description(&c.description),
        created_at: c.created_at,
        updated_at: c.updated_at,
    }
}

/// The index of the first row whose name equals `key`, if any.
fn index_of_name(rows: &Vec<Command>, key: &String) -> (r: Option<usize>)
    ensures
        match r {
            Some(i) => i < rows@.len() && rows@[i as int]@.name == key@ && (forall|j: int|
                0 <= j < i ==> (#[trigger] rows@[j])@.name != key@),
            None => forall|j: int| 0 <= j < rows@.len() ==> (#[trigger] rows@[j])@.name != key@,
        },
{
    let n: usize = rows.len();
    let mut i: usize = 0;
    while i < n
        invariant
            n == rows@.len(),
            i <= n,
            forall|j: int| 0 <= j < i ==> (#[trigger] rows@[j])@.name != key@,
        decreases n - i,
    {
        if rows[i].name == *key {
            return Some(i);
        }
        i = i + 1;
    }
    None
}

/// The index of the first row whose identity equals `id`, if any.
fn index_of_id(rows: &Vec<Command>, id: i64) -> (r: Option<usize>)
    ensures
        match r {
            Some(i) => i < rows@.len() && rows@[i as int]@.id == id as int,
            None => forall|j: int| 0 <= j < rows@.len() ==> (#[trigger] rows@[j])@.id != id as int,
        },
{
    let n: usize = rows.len();
    let mut i: usize = 0;
    while i < n
        invariant
            n == rows@.len(),
            i <= n,
            forall|j: int| 0 <= j < i ==> (#[trigger] rows@[j])@.id != id as int,
        decreases n - i,
    {
        if rows[i].id == id {
            return Some(i);
        }
        i = i + 1;
    }
    None
}

/// An in-memory table of commands with the store's CRUD contract. Identities
/// are assigned by auto-increment on creation and never reused, so they are
/// unique across the table's life.
pub struct MemoryCommandStore {
    rows: Vec<Command>,
    next_id: i64,
}

impl View for MemoryCommandStore {
    type V = Seq<CommandView>;

    closed spec fn view(&self) -> Seq<CommandView> {
        self.rows@.map_values(|c: Command| c@)
    }
}

impl MemoryCommandStore {
    #[verifier::type_invariant]
    closed spec fn inv(&self) -> bool {
        &&& 1 <= self.next_id <= i64::MAX
        &&& forall|i: int|
            0 <= i < self.rows@.len() ==> 0 <= (#[trigger] self.rows@[i])@.id
                < self.next_id
        &&& forall|i: int, j: int|
            #![trigger self.rows@[i], self.rows@[j]]
            0 <= i < j < self.rows@.len() ==> self.rows@[i]@.id < self.rows@[j]@.id
    }

    /// The identity the next created row will receive.
    pub closed spec fn spec_next_id(&self) -> int {
        self.next_id as int
    }

    /// An empty table whose first assigned identity is one.
    pub fn new() -> (r: Self)
        ensures
            r@ == Seq::<CommandView>::empty(),
            r.spec_next_id() == 1,
    {
        let r = MemoryCommandStore { rows: Vec::new(), next_id: 1 };
        proof {
            assert(r.rows@.map_values(|c: Command| c@) =~= Seq::<CommandView>::empty());
        }
        r
    }

    /// Insert the command's name, statement and description as a new row.
    /// The table assigns the identity and both timestamps itself; whatever
    /// the caller set on the in-memory value is not transmitted. Fails only
    /// when the identity space is exhausted.
    pub fn create(&mut self, command: &Command) -> (r: Result<(), StoreError>)
        ensures
            old(self).spec_next_id() < i64::MAX ==> r is Ok,
            match r {
                Ok(()) => {
                    &&& final(self)@.len() == old(self)@.len() + 1
                    &&& final(self)@.drop_last() == old(self)@
                    &&& final(self)@.last().id == old(self).spec_next_id()
                    &&& final(self)@.last().name == command@.name
                    &&& final(self)@.last().statement == command@.statement
                    &&& final(self)@.last().description == command@.description
                    &&& final(self)@.last().created_at == final(self)@.last().updated_at
                    &&& final(self).spec_next_id() == old(self).spec_next_id() + 1
                },
                Err(e) => {
                    &&& final(self)@ == old(self)@
                    &&& e is Storage
                    &&& final(self).spec_next_id() == old(self).spec_next_id()
                },
            },
    {
        proof {
            use_type_invariant(&*self);
        }
        if self.next_id == i64::MAX {
            return Err(StoreError::Storage { detail: "identity space exhausted".to_owned() });
        }
        let ts: i64 = crate::command::now_utc_micros();
        let row = Command {
            id: self.next_id,
            name: command.name.clone(),
            statement: command.statement.clone(),
            description: clone_description(&command.description),
            created_at: ts,
            updated_at: ts,
        };
        let ghost prior = self.rows@;
        let mut rows: Vec<Command> = Vec::new();
        core::mem::swap(&mut rows, &mut self.rows);
        rows.push(row);
        self.next_id = self.next_id + 1;
        core::mem::swap(&mut rows, &mut self.rows);
        proof {
            assert(self.rows@ == prior.push(row));
            assert(self@ =~= prior.map_values(|c: Command| c@).push(row@));
            assert(self@.drop_last() =~= prior.map_values(|c: Command| c@));
        }
        Ok(())
    }

    /// Look one row up by exact-match name. Succeeds if and only if some row
    /// carries the name; the returned command is one of the matching rows.
    pub fn get(&self, name: &str) -> (r: Result<Command, StoreError>)
        ensures
            has_name(self@, name@) <==> r is Ok,
            match r {
                Ok(c) => self@.contains(c@) && c@.name == name@,
                Err(e) => (e matches StoreError::NotFound { name: m } && m@ == name@),
            },
    {
        let key: String = name.to_owned();
        match index_of_name(&self.rows, &key) {
            Some(i) => {
                let found = clone_command(&self.rows[i]);
                proof {
                    assert(self@[i as int] == found@);
                    assert(self@.contains(found@));
                    assert(has_name(self@, name@));
                }
                Ok(found)
            },
            None => {
                proof {
                    assert(forall|j: int|
                        0 <= j < self@.len() ==> (#[trigger] self@[j]).name == self.rows@[j]@.name);
                    assert(!has_name(self@, name@));
                }
                Err(StoreError::NotFound { name: key })
            },
        }
    }

    /// Every stored row, in storage order; never fails.
    pub fn get_all(&self) -> (r: Result<Vec<Command>, StoreError>)
        ensures
            r matches Ok(v) && v@.map_values(|c: Command| c@) == self@,
    {
        let mut out: Vec<Command> = Vec::new();
        let mut i: usize = 0;
        while i < self.rows.len()
            invariant
                i <= self.rows@.len(),
                out@.len() == i,
                forall|j: int| 0 <= j < i ==> (#[trigger] out@[j])@ == self.rows@[j]@,
            decreases self.rows@.len() - i,
        {
            out.push(clone_command(&self.rows[i]));
            i = i + 1;
        }
        proof {
            assert(out@.map_values(|c: Command| c@) =~= self@);
        }
        Ok(out)
    }

    /// Remove the row whose identity matches the given command's identity.
    /// Succeeds if and only if such a row exists; fails with the not-found
    /// error carrying the command's name otherwise.
    pub fn delete(&mut self, command: Command) -> (r: Result<(), StoreError>)
        ensures
            has_id(old(self)@, command@.id) <==> r is Ok,
            match r {
                Ok(()) => exists|i: int|
                    0 <= i < old(self)@.len() && #[trigger] old(self)@[i].id == command@.id
                        && final(self)@ == old(self)@.remove(i),
                Err(e) => final(self)@ == old(self)@ && (e matches StoreError::NotFound {
                    name: m,
                } && m@ == command@.name),
            },
    {
        proof {
            use_type_invariant(&*self);
        }
        let ghost prior = *self;
        match index_of_id(&self.rows, command.id) {
            Some(i) => {
                let mut rows: Vec<Command> = Vec::new();
                core::mem::swap(&mut rows, &mut self.rows);
                rows.remove(i);
                proof {
                    prior.rows@.remove_ensures(i as int);
                    assert forall|a: int| 0 <= a < rows@.len() implies 0 <= (
                    #[trigger] rows@[a])@.id < self.next_id by {
                        if a < i {
                            assert(rows@[a] == prior.rows@[a]);
                        } else {
                            assert(rows@[a] == prior.rows@[a + 1]);
                        }
                    }
                    assert forall|a: int, b: int|
                        #![trigger rows@[a], rows@[b]]
                        0 <= a < b < rows@.len() implies rows@[a]@.id < rows@[b]@.id by {
                        if b < i {
                        } else if a < i {
                            assert(rows@[b] == prior.rows@[b + 1]);
                        } else {
                            assert(rows@[a] == prior.rows@[a + 1]);
                            assert(rows@[b] == prior.rows@[b + 1]);
                        }
                    }
                }
                core::mem::swap(&mut rows, &mut self.rows);
                proof {
                    prior@.remove_ensures(i as int);
                    assert(prior@[i as int].id == command@.id);
                    assert(has_id(prior@, command@.id));
                    assert(self@ =~= prior@.remove(i as int));
                }
                Ok(())
            },
            None => {
                proof {
                    assert(forall|j: int|
                        0 <= j < self@.len() ==> (#[trigger] self@[j]).id == self.rows@[j]@.id);
                    assert(!has_id(self@, command@.id));
                }
                Err(StoreError::NotFound { name: command.name })
            },
        }
    }

    /// Replace the first row whose name matches `name` with the given
    /// command's name, statement and description, keeping the row's identity
    /// and creation time and refreshing its modification time. Succeeds if
    /// and only if some row carries `name`.
    pub fn update(&mut self, name: &str, command: Command) -> (r: Result<(), StoreError>)
        ensures
            has_name(old(self)@, name@) <==> r is Ok,
            match r {
                Ok(()) => exists|i: int|
                    {
                        &&& 0 <= i < old(self)@.len()
                        &&& (#[trigger] old(self)@[i]).name == name@
                        &&& (forall|j: int| 0 <= j < i ==> (#[trigger] old(self)@[j]).name != name@)
                        &&& final(self)@ == old(self)@.update(
                            i,
                            (CommandView {
                                id: old(self)@[i].id,
                                name: command@.name,
                                statement: command@.statement,
                                description: command@.description,
                                created_at: old(self)@[i].created_at,
                                updated_at: final(self)@[i].updated_at,
                            }),
                        )
                    },
                Err(e) => final(self)@ == old(self)@ && (e matches StoreError::NotFound {
                    name: m,
                } && m@ == name@),
            },
    {
        proof {
            use_type_invariant(&*self);
        }
        let ghost prior = *self;
        let key: String = name.to_owned();
        match index_of_name(&self.rows, &key) {
            Some(i) => {
                let ts: i64 = crate::command::now_utc_micros();
                let replacement = Command {
                    id: self.rows[i].id,
                    name: command.name.clone(),
                    statement: command.statement.clone(),
                    description: clone_description(&command.description),
                    created_at: self.rows[i].created_at,
                    updated_at: ts,
                };
                let ghost replg = replacement;
                let mut rows: Vec<Command> = Vec::new();
                core::mem::swap(&mut rows, &mut self.rows);
                rows.set(i, replacement);
                proof {
                    assert(rows@ == prior.rows@.update(i as int, replg));
                    assert forall|a: int| 0 <= a < rows@.len() implies 0 <= (
                    #[trigger] rows@[a])@.id < self.next_id by {
                        if a != i {
                            assert(rows@[a] == prior.rows@[a]);
                        }
                    }
                    assert forall|a: int, b: int|
                        #![trigger rows@[a], rows@[b]]
                        0 <= a < b < rows@.len() implies rows@[a]@.id < rows@[b]@.id by {
                        if a != i {
                            assert(rows@[a] == prior.rows@[a]);
                        }
                        if b != i {
                            assert(rows@[b] == prior.rows@[b]);
                        }
                    }
                }
                core::mem::swap(&mut rows, &mut self.rows);
                proof {
                    assert(prior@[i as int].name == name@);
                    assert(has_name(prior@, name@));
                    assert(self@ =~= prior@.update(i as int, replg@));
                    assert(self@[i as int].updated_at == replg@.updated_at);
                }
                Ok(())
            },
            None => {
                proof {
                    assert(forall|j: int|
                        0 <= j < self@.len() ==> (#[trigger] self@[j]).name == self.rows@[j]@.name);
                    assert(!has_name(self@, name@));
                }
                Err(StoreError::NotFound { name: key })
            },
        }
    }

    /// Identities are unique: no two rows of a reachable table share one.
    /// Nothing is computed; the call only makes the fact available to the
    /// caller's proofs.
    pub fn ids_are_distinct(&self)
        ensures
            ids_distinct(self@),
    {
        proof {
            use_type_invariant(self);
            assert forall|i: int, j: int|
                0 <= i < j < self@.len() implies self@[i].id != self@[j].id by {
                assert(self@[i] == self.rows@[i]@);
                assert(self@[j] == self.rows@[j]@);
            }
        }
    }
}

/// Turn the one optional row a relational engine returned for a name lookup
/// into the store's result: the row when there is one, and otherwise the
/// not-found error carrying the name.
pub fn resolve_lookup(name: &str, row: Option<Command>) -> (r: Result<Command, StoreError>)
    ensures
        row is Some <==> r is Ok,
        match r {
            Ok(c) => row matches Some(rc) && c@ == rc@,
            Err(e) => (e matches StoreError::NotFound { name: m } && m@ == name@),
        },
{
    match row {
        Some(c) => Ok(c),
        None => Err(StoreError::NotFound { name: name.to_owned() }),
    }
}

/// Turn the count of rows a relational engine's delete or update statement
/// touched into the store's result: not-found when the count is zero, and
/// success otherwise.
pub fn rows_affected_outcome(name: &str, rows_affected: u64) -> (r: Result<(), StoreError>)
    ensures
        rows_affected == 0 <==> r is Err,
        match r {
            Ok(()) => rows_affected > 0,
            Err(e) => (e matches StoreError::NotFound { name: m } && m@ == name@),
        },
{
    if rows_affected == 0 {
        Err(StoreError::NotFound { name: name.to_owned() })
    } else {
        Ok(())
    }
}

/// The engine-agnostic CRUD contract over `Command` rows. An engine holds a
/// sequence of rows; creation appends one row carrying the given command's
/// name, statement and description (the engine assigns identity and
/// timestamps itself), lookup by name succeeds exactly when a row carries
/// the name, listing returns every row, deletion removes by identity and
/// update replaces by name. An engine with partial-failure modes may fail
/// any operation with a `Storage` error, leaving the rows unchanged.
pub trait CommandStore {
    /// The rows the store currently holds, in storage order.
    spec fn rows(&self) -> Seq<CommandView>;

    /// Insert the command's name, statement and description as a new row.
    fn create(&mut self, command: &Command) -> (r: Result<(), StoreError>)
        ensures
            r is Ok ==> {
                &&& final(self).rows().len() == old(self).rows().len() + 1
                &&& final(self).rows().drop_last() == old(self).rows()
                &&& final(self).rows().last().name == command@.name
                &&& final(self).rows().last().statement == command@.statement
                &&& final(self).rows().last().description == command@.description
            },
            r matches Err(e) ==> final(self).rows() == old(self).rows() && e is Storage,
    ;

    /// Look one row up by exact-match name.
    fn get(&self, name: &str) -> (r: Result<Command, StoreError>)
        ensures
            match r {
                Ok(c) => self.rows().contains(c@) && c@.name == name@,
                Err(e) => !has_name(self.rows(), name@) && (e matches StoreError::NotFound {
                    name: m,
                } && m@ == name@),
            },
    ;

    /// Every stored row.
    fn get_all(&self) -> (r: Result<Vec<Command>, StoreError>)
        ensures
            r matches Ok(v) ==> v@.map_values(|c: Command| c@) == self.rows(),
    ;

    /// Remove the row whose identity matches the given command's identity.
    fn delete(&mut self, command: Command) -> (r: Result<(), StoreError>)
        ensures
            match r {
                Ok(()) => exists|i: int|
                    0 <= i < old(self).rows().len() && #[trigger] old(self).rows()[i].id
                        == command@.id && final(self).rows() == old(self).rows().remove(i),
                Err(e) => final(self).rows() == old(self).rows() && (e matches
                StoreError::NotFound { name: m } ==> (m@ == command@.name && !has_id(
                    old(self).rows(),
                    command@.id,
                ))),
            },
    ;

    /// Replace the row matched by name with the command's fields, keeping
    /// the row's identity and creation time.
    fn update(&mut self, name: &str, command: Command) -> (r: Result<(), StoreError>)
        ensures
            match r {
                Ok(()) => exists|i: int|
                    {
                        &&& 0 <= i < old(self).rows().len()
                        &&& (#[trigger] old(self).rows()[i]).name == name@
                        &&& final(self).rows() == old(self).rows().update(
                            i,
                            (CommandView {
                                id: old(self).rows()[i].id,
                                name: command@.name,
                                statement: command@.statement,
                                description: command@.description,
                                created_at: old(self).rows()[i].created_at,
                                updated_at: final(self).rows()[i].updated_at,
                            }),
                        )
                    },
                Err(e) => final(self).rows() == old(self).rows() && (e matches
                StoreError::NotFound { name: m } ==> (m@ == name@ && !has_name(
                    old(self).rows(),
                    name@,
                ))),
            },
    ;
}

impl CommandStore for MemoryCommandStore {
    open spec fn rows(&self) -> Seq<CommandView> {
        self@
    }

    fn create(&mut self, command: &Command) -> (r: Result<(), StoreError>) {
        MemoryCommandStore::create(self, command)
    }

    fn get(&self, name: &str) -> (r: Result<Command, StoreError>) {
        MemoryCommandStore::get(self, name)
    }

    fn get_all(&self) -> (r: Result<Vec<Command>, StoreError>) {
        MemoryCommandStore::get_all(self)
    }

    fn delete(&mut self, command: Command) -> (r: Result<(), StoreError>) {
        let ghost cmd = command;
        let r = MemoryCommandStore::delete(self, command);
        proof {
            if r is Ok {
                let i = choose|i: int|
                    0 <= i < old(self)@.len() && #[trigger] old(self)@[i].id == cmd@.id && self@
                        == old(self)@.remove(i);
                assert(0 <= i < old(self).rows().len() && old(self).rows()[i].id == cmd@.id
                    && self.rows() == old(self).rows().remove(i));
            }
        }
        r
    }

    fn update(&mut self, name: &str, command: Command) -> (r: Result<(), StoreError>) {
        let ghost cmd = command;
        let r = MemoryCommandStore::update(self, name, command);
        proof {
            if r is Ok {
                let i = choose|i: int|
                    {
                        &&& 0 <= i < old(self)@.len()
                        &&& (#[trigger] old(self)@[i]).name == name@
                        &&& (forall|j: int| 0 <= j < i ==> (#[trigger] old(self)@[j]).name != name@)
                        &&& self@ == old(self)@.update(
                            i,
                            (CommandView {
                                id: old(self)@[i].id,
                                name: cmd@.name,
                                statement: cmd@.statement,
                                description: cmd@.description,
                                created_at: old(self)@[i].created_at,
                                updated_at: self@[i].updated_at,
                            }),
                        )
                    };
                assert({
                    &&& 0 <= i < old(self).rows().len()
                    &&& old(self).rows()[i].name == name@
                    &&& self.rows() == old(self).rows().update(
                        i,
                        (CommandView {
                            id: old(self).rows()[i].id,
                            name: cmd@.name,
                            statement: cmd@.statement,
                            description: cmd@.description,
                            created_at: old(self).rows()[i].created_at,
                            updated_at: self.rows()[i].updated_at,
                        }),
                    )
                });
            }
        }
        r
    }
}

/// Round trip: creating a command in a store with an empty table appends the
/// one row carrying its name, statement and description, so a following
/// lookup of that name must succeed, and every row it may return carries
/// exactly those values.
pub proof fn lemma_create_then_get(cmd: CommandView, row: CommandView)
    requires
        row.name == cmd.name,
        row.statement == cmd.statement,
        row.description == cmd.description,
    ensures
        has_name(Seq::<CommandView>::empty().push(row), cmd.name),
        forall|c: CommandView|
            #[trigger] Seq::<CommandView>::empty().push(row).contains(c) ==> c.name == cmd.name
                && c.statement == cmd.statement && c.description == cmd.description,
{
    let rows = Seq::<CommandView>::empty().push(row);
    assert(rows[0] == row);
    assert(has_name(rows, cmd.name));
    assert forall|c: CommandView| #[trigger] rows.contains(c) implies c.name == cmd.name
        && c.statement == cmd.statement && c.description == cmd.description by {
        let i = choose|i: int| 0 <= i < rows.len() && rows[i] == c;
        assert(i == 0);
    }
}

/// A lookup against a table in which no row carries the name cannot find
/// one: the store's `get` then returns the not-found error.
pub proof fn lemma_get_missing(rows: Seq<CommandView>, name: Seq<char>)
    requires
        forall|i: int| 0 <= i < rows.len() ==> (#[trigger] rows[i]).name != name,
    ensures
        !has_name(rows, name),
{
}

/// Listing an empty table yields nothing; after two creations the table
/// holds exactly the two appended rows, in creation order, so `get_all`
/// returns both.
pub proof fn lemma_get_all_contents(first: CommandView, second: CommandView)
    ensures
        Seq::<CommandView>::empty().len() == 0,
        ({
            let rows = Seq::<CommandView>::empty().push(first).push(second);
            rows.len() == 2 && rows[0] == first && rows[1] == second && rows.contains(first)
                && rows.contains(second)
        }),
{
    let rows = Seq::<CommandView>::empty().push(first).push(second);
    assert(rows[0] == first);
    assert(rows[1] == second);
    assert(rows.contains(first));
    assert(rows.contains(second));
}

} // verus!
