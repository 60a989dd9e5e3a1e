use vstd::prelude::*;
use crate::entity::{entity_type_named, EntityType};
use crate::error::WorldError;
use crate::text::{push_str, string_of};

verus! {

/// The message of the first commit of every repository.
pub const INIT_MESSAGE: &'static str = "lau: init world repo";

/// The message of the commit that starts a fork.
pub const FORK_MESSAGE: &'static str = "lau: fork";

/// The file in each repository's work tree that records its kind, name and
/// owner.
pub const META_FILE: &'static str = "lau-entity.json";

/// The name and owner that a new repository starts with.
pub const INITIAL_NAME: &'static str = "untitled";

/// The owner of a repository nobody has claimed yet.
pub const INITIAL_OWNER: &'static str = "unknown";

/// The message of the commit that saves a file.
pub open spec fn update_message(path: Seq<char>) -> Seq<char> {
    "lau: update "@ + path
}

/// The message of a merge commit.
pub open spec fn merge_message(branch: Seq<char>) -> Seq<char> {
    "lau: merge branch '"@ + branch + "'"@
}

/// The message of the commit that creates an entity of a kind.
pub open spec fn creation_message(kind: EntityType, name: Seq<char>) -> Seq<char> {
    "lau: create "@ + kind.spec_kind_word() + " '"@ + name + "'"@
}

/// The e-mail address that signs an owner's commits.
pub open spec fn author_email(owner: Seq<char>) -> Seq<char> {
    owner + "@lau.world"@
}

/// The message of the commit that saves the file at `path`.
pub fn update_commit_message(path: &str) -> (m: String)
    ensures
        m@ == update_message(path@),
{
    let mut m = string_of("lau: update ");
    push_str(&mut m, path);
    m
}

/// The message of the commit that creates an entity of kind `kind` named
/// `name`.
pub fn creation_commit_message(kind: EntityType, name: &str) -> (m: String)
    ensures
        m@ == creation_message(kind, name@),
{
    let mut m = string_of("lau: create ");
    push_str(&mut m, kind.kind_word());
    push_str(&mut m, " '");
    push_str(&mut m, name);
    push_str(&mut m, "'");
    m
}

/// The e-mail address that signs the commits of `owner`.
pub fn signature_email(owner: &str) -> (e: String)
    ensures
        e@ == author_email(owner@),
{
    let mut e = string_of(owner);
    push_str(&mut e, "@lau.world");
    e
}

/// What a merge ends in once git has merged the index: refused with
/// `MergeConflict` when the index holds conflicts, else a merge commit with
/// this message.
pub fn merge_outcome(has_conflicts: bool, branch: &str) -> (r: Result<String, WorldError>)
    ensures
        has_conflicts ==> r matches Err(WorldError::MergeConflict),
        !has_conflicts ==> (r matches Ok(m) && m@ == merge_message(branch@)),
{
    if has_conflicts {
        Err(WorldError::MergeConflict)
    } else {
        let mut m = string_of("lau: merge branch '");
        push_str(&mut m, branch);
        push_str(&mut m, "'");
        Ok(m)
    }
}

/// What copying a work tree does with one entry of a directory.
#[derive(Clone, Copy, Debug, PartialEq, Eq, Structural)]
pub enum CopyStep {
    /// Copy the directory's contents, recursively.
    Descend,
    /// Leave the entry out.
    Skip,
    /// Copy the file.
    CopyFile,
}

/// The name of git's own directory, which a fork does not copy.
pub open spec fn is_git_dir_name(name: Seq<char>) -> bool {
    name == ".git"@
}

/// The directory that a fork leaves out is exactly git's own, `.git`.
pub proof fn lemma_git_dir_is_dot_git(name: Seq<char>)
    ensures
        is_git_dir_name(name) <==> name == seq!['.', 'g', 'i', 't'],
{
    reveal_strlit(".git");
    assert(".git"@ =~= seq!['.', 'g', 'i', 't']);
}

/// What a fork does with a directory entry: git's own directory is left out,
/// other directories are copied recursively and files are copied.
pub fn copy_step(name: &str, is_dir: bool) -> (s: CopyStep)
    ensures
        !is_dir ==> s == CopyStep::CopyFile,
        is_dir && is_git_dir_name(name@) ==> s == CopyStep::Skip,
        is_dir && !is_git_dir_name(name@) ==> s == CopyStep::Descend,
{
    if !is_dir {
        CopyStep::CopyFile
    } else if string_of(name) == string_of(".git") {
        CopyStep::Skip
    } else {
        CopyStep::Descend
    }
}

/// What `serde_json` finds in JSON text for a key: `None` where the text
/// does not parse as JSON; `Some(None)` where it holds no string under the
/// key at its top level; `Some(Some(s))` where it holds the string `s` there.
pub uninterp spec fn json_string_member(text: Seq<char>, key: Seq<char>) -> Option<Option<Seq<char>>>;

/// Parses JSON text with `serde_json::from_str` into a `serde_json::Value`
/// and looks up `key` in it with `Value::get` and `Value::as_str`. Parsing
/// JSON is left to the name `json_string_member`.
#[verifier::external_body]
fn json_member(text: &str, key: &str) -> (r: Result<Option<String>, serde_json::Error>)
    ensures
        r is Ok <==> json_string_member(text@, key@) is Some,
        r matches Ok(m) ==> m.deep_view() == json_string_member(text@, key@).unwrap(),
{
    match serde_json::from_str::<serde_json::Value>(text) {
        Ok(v) => match v.get(key).and_then(serde_json::Value::as_str) {
            Some(s) => Ok(Some(s.to_string())),
            None => Ok(None),
        },
        Err(e) => Err(e),
    }
}

/// The text of a metadata field as found: the string itself, or empty where
/// there was none.
pub fn field_text(found: Option<String>) -> (s: String)
    ensures
        s@ == match found {
            Some(v) => v@,
            None => Seq::<char>::empty(),
        },
{
    match found {
        Some(v) => v,
        None => String::new(),
    }
}

/// The string under `field` in the metadata file's text: empty where the
/// file holds no string there, `Json` where the text is not JSON.
pub fn meta_field(text: &str, field: &str) -> (r: Result<String, WorldError>)
    ensures
        r is Ok <==> json_string_member(text@, field@) is Some,
        r matches Ok(s) ==> s@ == match json_string_member(text@, field@).unwrap() {
            Some(v) => v,
            None => Seq::<char>::empty(),
        },
        r matches Err(e) ==> e is Json,
{
    match json_member(text, field) {
        Ok(found) => Ok(field_text(found)),
        Err(e) => Err(WorldError::Json(e)),
    }
}

/// Makes a `serde_json` error that carries `message`
/// (`serde::de::Error::custom`). Nothing is promised of the error it makes.
#[verifier::external_body]
fn json_error(message: &str) -> serde_json::Error {
    <serde_json::Error as serde::de::Error>::custom(message)
}

/// The error that reading the kind of entity gives when the metadata holds
/// no kind's name under `entity_type`, worded as `serde_json` words it.
fn entity_type_error(found: &Option<String>) -> serde_json::Error {
    let expected = "`character`, `place`, `tool`, `quest`, `world`, `inventory`";
    let mut message = String::new();
    match found {
        Some(word) => {
            push_str(&mut message, "unknown variant `");
            push_str(&mut message, word.as_str());
            push_str(&mut message, "`, expected one of ");
            push_str(&mut message, expected);
        },
        None => {
            push_str(&mut message, "invalid type: not a string, expected one of ");
            push_str(&mut message, expected);
        },
    }
    json_error(message.as_str())
}

/// The kind of entity named under `entity_type` in the metadata file's text:
/// a `Json` error where the text is not JSON, or where no kind has the name
/// found there (or no name is there).
pub fn meta_entity_type(text: &str) -> (r: Result<EntityType, WorldError>)
    ensures
        r is Ok <==> (json_string_member(text@, "entity_type"@) matches Some(Some(w))
            && entity_type_named(w) is Some),
        r matches Ok(t) ==> json_string_member(text@, "entity_type"@) == Some(
            Some(t.spec_kind_word()),
        ),
        r matches Err(e) ==> e is Json,
{
    match json_member(text, "entity_type") {
        Ok(found) => {
            proof {
                crate::entity::lemma_kind_word_roundtrip(EntityType::World, Seq::empty());
            }
            let named = match &found {
                Some(word) => EntityType::from_name(word.as_str()),
                None => None,
            };
            match named {
                Some(t) => {
                    proof {
                        crate::entity::lemma_kind_word_roundtrip(t, found->0@);
                    }
                    Ok(t)
                },
                None => Err(WorldError::Json(entity_type_error(&found))),
            }
        },
        Err(e) => Err(WorldError::Json(e)),
    }
}

} // verus!
