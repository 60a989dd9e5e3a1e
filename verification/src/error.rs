use vstd::prelude::*;
use crate::entity::EntityType;
use crate::text::{push_str, string_of};

verus! {

/// An error from `git2`, carried through unread.
#[verifier::external_type_specification]
#[verifier::external_body]
pub struct ExGitError(git2::Error);

/// An error from `serde_json`, carried through unread.
#[verifier::external_type_specification]
#[verifier::external_body]
pub struct ExJsonError(serde_json::Error);

/// What can go wrong in the world layer, apart from I/O and JSON.
#[derive(Debug)]
pub enum WorldError {
    /// An error reported by `git2`.
    Git(git2::Error),
    /// An error reported by `serde_json`.
    Json(serde_json::Error),
    /// The repository's HEAD does not point at a commit.
    NoHead,
    /// The branch to merge does not point at a commit.
    BranchHasNoTarget,
    /// Merging left conflicts in the index.
    MergeConflict,
    /// No file at this path in the HEAD commit.
    FileNotFound(String),
    /// The repository holds another kind of entity than the one asked for.
    WrongEntityType(EntityType),
}

/// The text that describes an error that no outside crate reported.
pub open spec fn error_text(e: WorldError) -> Seq<char> {
    match e {
        WorldError::Git(_) => Seq::empty(),
        WorldError::Json(_) => Seq::empty(),
        WorldError::NoHead => "no HEAD"@,
        WorldError::BranchHasNoTarget => "branch has no target"@,
        WorldError::MergeConflict => "merge conflict"@,
        WorldError::FileNotFound(path) => "file not found in repo: "@ + path@,
        WorldError::WrongEntityType(t) => "not a "@ + t.spec_kind_word() + " repo"@,
    }
}

impl WorldError {
    /// The message of an error that no outside crate reported.
    pub fn text(&self) -> (s: String)
        requires
            !(self is Git),
            !(self is Json),
        ensures
            s@ == error_text(*self),
    {
        match self {
            WorldError::Git(_) => String::new(),
            WorldError::Json(_) => String::new(),
            WorldError::NoHead => string_of("no HEAD"),
            WorldError::BranchHasNoTarget => string_of("branch has no target"),
            WorldError::MergeConflict => string_of("merge conflict"),
            WorldError::FileNotFound(path) => {
                let mut s = string_of("file not found in repo: ");
                push_str(&mut s, path.as_str());
                s
            },
            WorldError::WrongEntityType(t) => {
                let mut s = string_of("not a ");
                push_str(&mut s, t.kind_word());
                push_str(&mut s, " repo");
                s
            },
        }
    }
}

/// Opening a repository as a given kind of entity: accepted exactly when the
/// repository holds that kind, refused with `WrongEntityType` otherwise.
pub fn expect_entity_type(found: EntityType, expected: EntityType) -> (r: Result<(), WorldError>)
    ensures
        found == expected ==> r is Ok,
        found != expected ==> r == Err::<(), WorldError>(WorldError::WrongEntityType(expected)),
{
    if found == expected {
        Ok(())
    } else {
        Err(WorldError::WrongEntityType(expected))
    }
}

} // verus!
