//! The transcription history kept in `history.json`: the most recent
//! `MAX_HISTORY_ENTRIES` pairs of raw and corrected text, oldest first.
use vstd::prelude::*;
use crate::llm::HistoryEntry;
use crate::paths::{join_path, path_join};
use crate::store::most_recent;
use crate::text::{is_blank, is_blank_str, lemma_not_blank_when_starting_with};

verus! {

/// Name of the history file inside the configuration directory.
pub const HISTORY_FILENAME: &'static str = "history.json";

/// Name of the temporary file a save writes before renaming it into place.
pub const HISTORY_TMP_FILENAME: &'static str = ".history.json.tmp";

/// How many entries are kept; a save keeps the most recent ones.
pub const MAX_HISTORY_ENTRIES: usize = 10;

/// What reading the history file produced.
pub enum HistoryFile {
    /// The file does not exist.
    Missing,
    /// The file exists but could not be read as text.
    Unreadable,
    /// The text of the file and the entries it decodes to (`None` when it is
    /// not a valid history document).
    Read { text: String, entries: Option<Vec<HistoryEntry>> },
}

/// The entries a read of the history file yields: none when the file is
/// missing, unreadable, blank or corrupt.
pub open spec fn history_in_file(file: HistoryFile) -> Seq<HistoryEntry> {
    match file {
        HistoryFile::Read { text, entries } => if is_blank(text@) {
            Seq::empty()
        } else {
            match entries {
                Some(v) => v@,
                None => Seq::empty(),
            }
        },
        _ => Seq::empty(),
    }
}

impl HistoryEntry {
    /// A copy of the entry with equal texts.
    pub fn duplicate(&self) -> (r: HistoryEntry)
        ensures
            r == *self,
    {
        HistoryEntry { original: self.original.clone(), corrected: self.corrected.clone() }
    }
}

/// Path of the history file in the configuration directory `dir`.
pub fn history_path(dir: &str) -> (r: String)
    ensures
        r@ == path_join(dir@, HISTORY_FILENAME@),
{
    join_path(dir, HISTORY_FILENAME)
}

/// Path of the temporary file used while saving into `dir`.
pub fn history_tmp_path(dir: &str) -> (r: String)
    ensures
        r@ == path_join(dir@, HISTORY_TMP_FILENAME@),
{
    join_path(dir, HISTORY_TMP_FILENAME)
}

/// The history held by a read of its file. Never fails: a missing,
/// unreadable, blank or corrupt file yields no entries.
pub fn load_history(file: HistoryFile) -> (r: Vec<HistoryEntry>)
    ensures
        r@ == history_in_file(file),
{
    match file {
        HistoryFile::Read { text, entries } => {
            if is_blank_str(text.as_str()) {
                return Vec::new();
            }
            match entries {
                Some(v) => v,
                None => Vec::new(),
            }
        },
        _ => Vec::new(),
    }
}

/// The entries a save writes: the most recent `MAX_HISTORY_ENTRIES` of `entries`.
pub fn save_history(entries: &[HistoryEntry]) -> (r: Vec<HistoryEntry>)
    ensures
        r@ == most_recent(entries@, MAX_HISTORY_ENTRIES as nat),
{
    let n = entries.len();
    let start: usize = if n > MAX_HISTORY_ENTRIES { n - MAX_HISTORY_ENTRIES } else { 0 };
    let mut out: Vec<HistoryEntry> = Vec::new();
    let mut i = start;
    while i < n
        invariant
            n == entries@.len(),
            start <= i <= n,
            out@ == entries@.subrange(start as int, i as int),
        decreases n - i,
    {
        out.push(entries[i].duplicate());
        assert(out@ =~= entries@.subrange(start as int, i + 1));
        i = i + 1;
    }
    assert(entries@.subrange(start as int, n as int) =~= most_recent(entries@, MAX_HISTORY_ENTRIES as nat));
    out
}

/// Append one entry and keep what a save would keep: the history becomes the
/// most recent `MAX_HISTORY_ENTRIES` of the old entries followed by `entry`.
pub fn append_entry(entries: &mut Vec<HistoryEntry>, entry: HistoryEntry)
    ensures
        final(entries)@ == most_recent(old(entries)@.push(entry), MAX_HISTORY_ENTRIES as nat),
{
    entries.push(entry);
    let kept = save_history(entries.as_slice());
    *entries = kept;
}

/// Appending keeps at most `MAX_HISTORY_ENTRIES` entries, ends with the new
/// entry, and what precedes it are the most recent of the old entries, in order.
pub proof fn law_append_keeps_latest(old: Seq<HistoryEntry>, entry: HistoryEntry)
    ensures
        most_recent(old.push(entry), MAX_HISTORY_ENTRIES as nat).len() <= MAX_HISTORY_ENTRIES,
        most_recent(old.push(entry), MAX_HISTORY_ENTRIES as nat).last() == entry,
        most_recent(old.push(entry), MAX_HISTORY_ENTRIES as nat).drop_last()
            == most_recent(old, (MAX_HISTORY_ENTRIES - 1) as nat),
{
    let w = old.push(entry);
    let c = most_recent(w, MAX_HISTORY_ENTRIES as nat);
    assert(c.last() == entry);
    assert(c.drop_last() =~= most_recent(old, (MAX_HISTORY_ENTRIES - 1) as nat));
}

/// A save never grows the history and keeps every entry when there are at
/// most `MAX_HISTORY_ENTRIES`.
pub proof fn law_save_caps(entries: Seq<HistoryEntry>)
    ensures
        most_recent(entries, MAX_HISTORY_ENTRIES as nat).len() <= MAX_HISTORY_ENTRIES,
        entries.len() <= MAX_HISTORY_ENTRIES ==> most_recent(entries, MAX_HISTORY_ENTRIES as nat) == entries,
        most_recent(most_recent(entries, MAX_HISTORY_ENTRIES as nat), MAX_HISTORY_ENTRIES as nat)
            == most_recent(entries, MAX_HISTORY_ENTRIES as nat),
{
}

/// A load returns what a save kept: when the history file holds the text
/// the save wrote (a JSON array, so it starts with `[`) and that text decodes
/// to the entries the save kept, loading gives back the most recent
/// `MAX_HISTORY_ENTRIES` of the saved entries, in order.
pub proof fn law_saved_history_loads_back(entries: Seq<HistoryEntry>, text: String, decoded: Vec<HistoryEntry>)
    requires
        text@.len() > 0,
        text@[0] == '[',
        decoded@ == most_recent(entries, MAX_HISTORY_ENTRIES as nat),
    ensures
        history_in_file(HistoryFile::Read { text, entries: Some(decoded) })
            == most_recent(entries, MAX_HISTORY_ENTRIES as nat),
{
    lemma_not_blank_when_starting_with(text@);
}

/// Appending an entry, saving and loading again gives the old history with
/// the entry added, cut to the most recent `MAX_HISTORY_ENTRIES`, when the
/// file gives back what the save wrote (as in `law_saved_history_loads_back`).
pub proof fn law_appended_history_loads_back(
    old: Seq<HistoryEntry>,
    entry: HistoryEntry,
    text: String,
    decoded: Vec<HistoryEntry>,
)
    requires
        text@.len() > 0,
        text@[0] == '[',
        decoded@ == most_recent(most_recent(old.push(entry), MAX_HISTORY_ENTRIES as nat), MAX_HISTORY_ENTRIES as nat),
    ensures
        history_in_file(HistoryFile::Read { text, entries: Some(decoded) })
            == most_recent(old.push(entry), MAX_HISTORY_ENTRIES as nat),
        history_in_file(HistoryFile::Read { text, entries: Some(decoded) }).last() == entry,
{
    lemma_not_blank_when_starting_with(text@);
    law_save_caps(old.push(entry));
    law_append_keeps_latest(old, entry);
}

} // verus!
