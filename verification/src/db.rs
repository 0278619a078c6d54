//! Database bootstrap: the decision logic behind idempotent on-disk database
//! provisioning. Probing the disk and creating directories or the database
//! file are engine work done by a caller; deciding what to do — refuse an
//! empty path, refuse to overwrite an existing file, otherwise name the
//! parent directory to create — is the logic here, and it is exact.

use vstd::prelude::*;

verus! {

/// Whether the path points at something on disk.
///
/// Relies on std::path::Path::exists: true iff the path can be resolved and
/// points at an existing entity. The result depends on the state of the
/// disk, so nothing is promised of it.
#[verifier::external_body]
fn path_exists(path: &str) -> (r: bool) {
    std::path::Path::new(path).exists()
}

/// Whether the path points at a regular file.
///
/// Relies on std::path::Path::is_file: true iff the path exists and is a
/// regular file. The result depends on the state of the disk, so nothing is
/// promised of it.
#[verifier::external_body]
fn path_is_file(path: &str) -> (r: bool) {
    std::path::Path::new(path).is_file()
}

/// What std::path::Path::parent returns for a path's text: None for an empty
/// path, a bare root or a bare prefix, and otherwise the path without its
/// final component. It depends on the path's characters alone.
pub uninterp spec fn parent_of(path: Seq<char>) -> Option<Seq<char>>;

/// The path without its final component, if there is one.
///
/// Relies on std::path::Path::parent: it returns None for an empty path, a
/// bare root or a bare prefix, and otherwise the path without its final
/// component (which is the empty path for a single relative component). The
/// parent is a slice of the given path, so it is valid text and converting
/// it back to an owned string cannot fail.
#[verifier::external_body]
fn path_parent(path: &str) -> (r: Option<String>)
    ensures
        r.deep_view() == parent_of(path@),
        path@.len() == 0 ==> r is None,
{
    match std::path::Path::new(path).parent() {
        Some(p) => match p.to_str() {
            Some(s) => Some(s.to_owned()),
            None => None,
        },
        None => None,
    }
}

/// True iff `path` resolves to an existing regular file on disk;
/// directories and missing paths give false. The result depends on the
/// state of the disk.
pub fn is_existing_file(path: &str) -> bool {
    path_exists(path) && path_is_file(path)
}

/// Why a database path was refused at provisioning time.
#[derive(Debug)]
pub enum DatabaseError {
    /// The path already names an existing regular file; it is not
    /// overwritten.
    AlreadyExists,
    /// The path does not point at a possible database location: it is empty
    /// or has no resolvable parent.
    InvalidPath,
}

/// What provisioning should do for a database path.
#[derive(Debug)]
pub enum ProvisionPlan {
    /// Do nothing; report the error.
    Refuse { error: DatabaseError },
    /// Create the directory `parent` (and its missing ancestors), then
    /// create the database file at the given path.
    CreateAt { parent: String },
}

/// The provisioning decision, given what the disk probe and the parent
/// resolution returned: an empty path is refused as invalid, a path naming
/// an existing regular file is refused so that the file is not touched, a
/// path without a resolvable parent is refused as invalid, and any other
/// path is provisioned under its parent directory.
pub fn provision_decision(db_path: &str, file_exists: bool, parent: Option<String>) -> (r:
    ProvisionPlan)
    ensures
        db_path@.len() == 0 ==> r == (ProvisionPlan::Refuse { error: DatabaseError::InvalidPath }),
        db_path@.len() > 0 && file_exists ==> r == (ProvisionPlan::Refuse {
            error: DatabaseError::AlreadyExists,
        }),
        db_path@.len() > 0 && !file_exists && parent is None ==> r == (ProvisionPlan::Refuse {
            error: DatabaseError::InvalidPath,
        }),
        db_path@.len() > 0 && !file_exists ==> (parent matches Some(d) ==> r
            == (ProvisionPlan::CreateAt { parent: d })),
{
    if db_path.is_empty() {
        return ProvisionPlan::Refuse { error: DatabaseError::InvalidPath };
    }
    if file_exists {
        return ProvisionPlan::Refuse { error: DatabaseError::AlreadyExists };
    }
    match parent {
        Some(d) => ProvisionPlan::CreateAt { parent: d },
        None => ProvisionPlan::Refuse { error: DatabaseError::InvalidPath },
    }
}

/// Probe the disk and decide how to provision the database at `db_path`.
/// An empty path is always refused as invalid; a path is refused as invalid
/// only when it is empty or has no resolvable parent; a plan to create is
/// only made for a non-empty path that is not an existing regular file, and
/// it carries exactly the path's own parent directory.
pub fn create_db_plan(db_path: &str) -> (r: ProvisionPlan)
    ensures
        db_path@.len() == 0 ==> r == (ProvisionPlan::Refuse { error: DatabaseError::InvalidPath }),
        r is CreateAt ==> db_path@.len() > 0,
        r matches ProvisionPlan::CreateAt { parent } ==> Some(parent@) == parent_of(db_path@),
        r == (ProvisionPlan::Refuse { error: DatabaseError::InvalidPath }) ==> db_path@.len() == 0
            || parent_of(db_path@) is None,
        r == (ProvisionPlan::Refuse { error: DatabaseError::AlreadyExists }) ==> db_path@.len()
            > 0,
{
    if db_path.is_empty() {
        return ProvisionPlan::Refuse { error: DatabaseError::InvalidPath };
    }
    let file_exists = is_existing_file(db_path);
    let parent = path_parent(db_path);
    provision_decision(db_path, file_exists, parent)
}

} // verus!
