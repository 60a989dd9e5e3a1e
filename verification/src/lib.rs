//! Game entities kept in git repositories: the data that each entity holds,
//! the edits that game actions make to it, and the text that the repository
//! layer records for them (commit messages, hashes, the log, patches).

pub mod entity;
pub mod text;
pub mod error;
pub mod commit_id;
pub mod history;
pub mod world;
pub mod character;
pub mod place;
pub mod manifest;
pub mod diff;

pub use entity::EntityType;
pub use error::WorldError;
pub use commit_id::CommitId;
pub use history::{HistoryEntry, RawCommit};
pub use character::CharacterData;
pub use place::{PlaceData, Room};
pub use manifest::WorldManifest;
pub use diff::DiffLineKind;
