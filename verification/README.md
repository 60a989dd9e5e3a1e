# lau_git_world

Game worlds kept in git: every character, place and world is a git
repository, and game actions become commits.

- `src/` is the verified library. It holds the entity data (`CharacterData`,
  `PlaceData`, `WorldManifest`, `HistoryEntry`), the edits that game actions
  make to it, and everything the repository layer computes on the way: commit
  messages, commit ids and their hexadecimal text, the log built from a walk
  over commits, patch text, metadata fields, and the decisions of opening,
  merging and forking. Each public function states its result over a model of
  the data; `proof fn`s state the laws (learning a skill twice is learning it
  once, commit hashes read back to the same id, saved text loads back, and so
  on).
- `app/` is the unverified layer around it: the git and file work
  (`WorldRepo`, `CharacterRepo`, `PlaceRepo`, storing the manifest), the
  crate's `Error` type, and JSON forms of the data types for serde.
- `tests/` runs the library on concrete values.
