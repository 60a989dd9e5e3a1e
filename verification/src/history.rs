use vstd::prelude::*;
use crate::commit_id::{hex_of, CommitId};
use crate::text::string_of;

verus! {

/// A single entry from git log.
#[derive(Debug, Clone, PartialEq, Eq)]
pub struct HistoryEntry {
    pub hash: String,
    pub message: String,
    pub timestamp: u64,
    pub author: String,
}

/// What the log shows of a commit as git stores it: its id, its message and
/// author name where they are valid UTF-8, and its time in seconds since the
/// epoch, which may be negative.
pub struct RawCommit {
    pub id: CommitId,
    pub message: Option<String>,
    pub seconds: i64,
    pub author: Option<String>,
}

/// The model of a history entry.
pub struct HistoryEntryView {
    pub hash: Seq<char>,
    pub message: Seq<char>,
    pub timestamp: u64,
    pub author: Seq<char>,
}

impl View for HistoryEntry {
    type V = HistoryEntryView;

    open spec fn view(&self) -> HistoryEntryView {
        HistoryEntryView {
            hash: self.hash@,
            message: self.message@,
            timestamp: self.timestamp,
            author: self.author@,
        }
    }
}

/// Text that may be missing, read as empty when it is.
pub open spec fn text_or_empty(t: Option<String>) -> Seq<char> {
    match t {
        Some(s) => s@,
        None => Seq::empty(),
    }
}

/// The log of a walk restricted to one path: the entries of the commits that
/// could be read and that change the path (`touches[i]` for the `i`-th step),
/// in the order of the walk.
pub open spec fn log_touching(walk: Seq<Option<RawCommit>>, touches: Seq<bool>) -> Seq<HistoryEntryView>
    decreases walk.len(),
{
    if walk.len() == 0 {
        Seq::empty()
    } else {
        let rest = log_touching(walk.drop_last(), touches.drop_last());
        match walk.last() {
            Some(c) => if touches.last() {
                rest.push(entry_of(c))
            } else {
                rest
            },
            None => rest,
        }
    }
}

/// A commit time before the epoch counts as the epoch.
pub open spec fn clamp_time(seconds: i64) -> u64 {
    if seconds < 0 {
        0
    } else {
        seconds as u64
    }
}

/// The entry that the log shows for a commit.
pub open spec fn entry_of(c: RawCommit) -> HistoryEntryView {
    HistoryEntryView {
        hash: hex_of(c.id@),
        message: text_or_empty(c.message),
        timestamp: clamp_time(c.seconds),
        author: text_or_empty(c.author),
    }
}

/// The log of a walk: the entries of the commits that could be read, in the
/// order of the walk.
pub open spec fn log_of(walk: Seq<Option<RawCommit>>) -> Seq<HistoryEntryView>
    decreases walk.len(),
{
    if walk.len() == 0 {
        Seq::empty()
    } else {
        let rest = log_of(walk.drop_last());
        match walk.last() {
            Some(c) => rest.push(entry_of(c)),
            None => rest,
        }
    }
}

fn text_or_default(t: &Option<String>) -> (s: String)
    ensures
        s@ == text_or_empty(*t),
{
    match t {
        Some(s) => s.clone(),
        None => String::new(),
    }
}

impl HistoryEntry {
    /// The log entry of a commit: its hash in hexadecimal, its message and
    /// author (empty where missing) and its time, no earlier than the epoch.
    pub fn from_commit(c: &RawCommit) -> (e: HistoryEntry)
        ensures
            e@ == entry_of(*c),
            e.hash@.len() == 40,
            e.hash@ == hex_of(c.id@),
            c.seconds >= 0 ==> e.timestamp == c.seconds,
            c.seconds < 0 ==> e.timestamp == 0,
            c.message matches Some(m) ==> e.message@ == m@,
            c.message is None ==> e.message@.len() == 0,
            c.author matches Some(a) ==> e.author@ == a@,
            c.author is None ==> e.author@.len() == 0,
    {
        let timestamp: u64 = if c.seconds < 0 {
            0
        } else {
            c.seconds as u64
        };
        HistoryEntry {
            hash: c.id.to_hex(),
            message: text_or_default(&c.message),
            timestamp,
            author: text_or_default(&c.author),
        }
    }
}

/// The history of a repository from a walk over its commits, newest first as
/// git walks them; a commit that could not be read (`None`) is left out.
pub fn history_from_walk(walk: &Vec<Option<RawCommit>>) -> (log: Vec<HistoryEntry>)
    ensures
        log@.map_values(|e: HistoryEntry| e@) == log_of(walk@),
{
    let mut log: Vec<HistoryEntry> = Vec::new();
    for i in 0..walk.len()
        invariant
            log@.map_values(|e: HistoryEntry| e@) == log_of(walk@.take(i as int)),
    {
        assert(walk@.take(i + 1).drop_last() =~= walk@.take(i as int));
        match &walk[i] {
            Some(c) => {
                let e = HistoryEntry::from_commit(c);
                log.push(e);
                assert(log@.map_values(|e: HistoryEntry| e@) =~= log_of(walk@.take(i + 1)));
            },
            None => {},
        }
    }
    assert(walk@.take(walk.len() as int) =~= walk@);
    log
}

/// Whether a commit changes what stands at a path: the object there (`None`
/// where nothing is) differs from the one in its first parent (`None` also
/// for a commit without parents).
pub fn path_changed(here: &Option<Vec<u8>>, before: &Option<Vec<u8>>) -> (b: bool)
    ensures
        b == (here.deep_view() != before.deep_view()),
{
    match (here, before) {
        (None, None) => false,
        (Some(_), None) => true,
        (None, Some(_)) => true,
        (Some(x), Some(y)) => {
            if x.len() != y.len() {
                assert(x.deep_view().len() != y.deep_view().len());
                assert(here.deep_view() != before.deep_view());
                return true;
            }
            for i in 0..x.len()
                invariant
                    x.len() == y.len(),
                    here.deep_view() == Some(x.deep_view()),
                    before.deep_view() == Some(y.deep_view()),
                    forall|j: int| 0 <= j < i ==> x@[j] == y@[j],
            {
                if x[i] != y[i] {
                    assert(x.deep_view()[i as int] == x@[i as int]);
                    assert(y.deep_view()[i as int] == y@[i as int]);
                    assert(x.deep_view() != y.deep_view());
                    assert(here.deep_view() != before.deep_view());
                    return true;
                }
            }
            assert(x.deep_view() =~= y.deep_view());
            false
        },
    }
}

/// The history of one path (the whole repository where the path is empty)
/// from a walk over the commits: `touches[i]` says whether the `i`-th commit
/// of the walk changes the path. Commits that could not be read, and commits
/// that leave the path alone, are left out; the walk's order is kept.
pub fn history_for_path(path: &str, walk: &Vec<Option<RawCommit>>, touches: &Vec<bool>) -> (log: Vec<HistoryEntry>)
    requires
        touches.len() == walk.len(),
    ensures
        log@.map_values(|e: HistoryEntry| e@) == if path@.len() == 0 {
            log_of(walk@)
        } else {
            log_touching(walk@, touches@)
        },
{
    if path.is_empty() {
        return history_from_walk(walk);
    }
    let mut log: Vec<HistoryEntry> = Vec::new();
    for i in 0..walk.len()
        invariant
            touches.len() == walk.len(),
            log@.map_values(|e: HistoryEntry| e@) == log_touching(walk@.take(i as int), touches@.take(i as int)),
    {
        assert(walk@.take(i + 1).drop_last() =~= walk@.take(i as int));
        assert(touches@.take(i + 1).drop_last() =~= touches@.take(i as int));
        match &walk[i] {
            Some(c) => {
                if touches[i] {
                    let e = HistoryEntry::from_commit(c);
                    log.push(e);
                    assert(log@.map_values(|e: HistoryEntry| e@) =~= log_touching(
                        walk@.take(i + 1),
                        touches@.take(i + 1),
                    ));
                }
            },
            None => {},
        }
    }
    assert(walk@.take(walk.len() as int) =~= walk@);
    assert(touches@.take(touches.len() as int) =~= touches@);
    log
}

/// A walk over commits that could all be read gives one entry per commit, in
/// the walk's order, each the entry of its commit.
pub proof fn lemma_log_one_entry_per_commit(walk: Seq<Option<RawCommit>>)
    requires
        forall|i: int| 0 <= i < walk.len() ==> (#[trigger] walk[i]) is Some,
    ensures
        log_of(walk).len() == walk.len(),
        forall|i: int| 0 <= i < walk.len() ==> #[trigger] log_of(walk)[i] == entry_of(walk[i]->0),
    decreases walk.len(),
{
    if walk.len() > 0 {
        let w = walk.drop_last();
        assert forall|i: int| 0 <= i < w.len() implies (#[trigger] w[i]) is Some by {
            assert(w[i] == walk[i]);
        }
        lemma_log_one_entry_per_commit(w);
        assert(walk[walk.len() - 1] is Some);
        assert forall|i: int| 0 <= i < walk.len() implies #[trigger] log_of(walk)[i] == entry_of(walk[i]->0) by {
            if i < walk.len() - 1 {
                assert(w[i] == walk[i]);
            }
        }
    }
}

/// Commits that cannot be read add nothing to the log, wherever they stand
/// in the walk, and no entry is made up: the log is never longer than the
/// walk.
pub proof fn lemma_unreadable_commits_add_nothing(walk: Seq<Option<RawCommit>>)
    ensures
        log_of(walk.push(None)) == log_of(walk),
        log_of(walk).len() <= walk.len(),
    decreases walk.len(),
{
    assert(walk.push(None).drop_last() =~= walk);
    if walk.len() > 0 {
        lemma_unreadable_commits_add_nothing(walk.drop_last());
    }
}

/// Restricting the log to a path keeps a part of the whole log: never more
/// entries, and where every commit touches the path, exactly the whole log.
pub proof fn lemma_path_log_within_whole(walk: Seq<Option<RawCommit>>, touches: Seq<bool>)
    requires
        touches.len() == walk.len(),
    ensures
        log_touching(walk, touches).len() <= log_of(walk).len(),
        (forall|i: int| 0 <= i < touches.len() ==> #[trigger] touches[i]) ==> log_touching(walk, touches)
            == log_of(walk),
    decreases walk.len(),
{
    if walk.len() > 0 {
        let t = touches.drop_last();
        lemma_path_log_within_whole(walk.drop_last(), t);
        if forall|i: int| 0 <= i < touches.len() ==> #[trigger] touches[i] {
            assert forall|i: int| 0 <= i < t.len() implies #[trigger] t[i] by {
                assert(touches[i]);
            }
            assert(touches[touches.len() - 1]);
        }
    }
}

} // verus!
