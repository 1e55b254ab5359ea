//! The user's custom vocabulary: a list of terms kept in `vocabulary.json`,
//! without duplicates, at most `MAX_VOCABULARY_ENTRIES` of them.
use vstd::prelude::*;
use crate::errors::AppError;
use crate::paths::{join_path, path_join};
use crate::store::{most_recent, StoreFile};
use crate::text::{is_blank, is_blank_str, lemma_not_blank_when_starting_with, string_views};

verus! {

/// Name of the vocabulary file inside the configuration directory.
pub const VOCABULARY_FILENAME: &'static str = "vocabulary.json";

/// Name of the temporary file a save writes before renaming it into place.
pub const VOCABULARY_TMP_FILENAME: &'static str = ".vocabulary.json.tmp";

/// How many terms are kept; a save keeps the most recent ones.
pub const MAX_VOCABULARY_ENTRIES: usize = 500;

/// The list of strings that `text` decodes to as a JSON array of strings
/// (`serde_json::from_str::<Vec<String>>`), if it is one.
pub uninterp spec fn json_string_list(text: Seq<char>) -> Option<Seq<Seq<char>>>;

/// The pretty-printed JSON text of a list of strings (`serde_json::to_string_pretty`).
pub uninterp spec fn json_pretty_string_list(list: Seq<Seq<char>>) -> Seq<char>;

/// Declares `serde_json::Error`.
#[verifier::external_type_specification]
#[verifier::external_body]
pub struct ExJsonError(serde_json::Error);

/// The view of an optional list of strings.
pub open spec fn opt_list_view(v: Option<Vec<String>>) -> Option<Seq<Seq<char>>> {
    match v {
        Some(l) => Some(string_views(l@)),
        None => None,
    }
}

/// `serde_json::from_str::<Vec<String>>`, with its error dropped.
#[verifier::external_body]
pub(crate) fn parse_string_list(text: &str) -> (r: Option<Vec<String>>)
    ensures
        opt_list_view(r) == json_string_list(text@),
{
    serde_json::from_str::<Vec<String>>(text).ok()
}

/// `serde_json::to_string_pretty` on a list of strings. Serializing strings
/// cannot fail (serde_json fails only on failing `Serialize` impls and maps
/// with non-string keys); the text is a JSON array, so it starts with `[`,
/// and decoding it gives the list back.
#[verifier::external_body]
fn render_string_list(list: &[String]) -> (r: Result<String, serde_json::Error>)
    ensures
        r is Ok,
        r matches Ok(t) ==> t@ == json_pretty_string_list(string_views(list@)),
        r matches Ok(t) ==> json_string_list(t@) == Some(string_views(list@)),
        r matches Ok(t) ==> t@.len() > 0 && t@[0] == '[',
{
    serde_json::to_string_pretty(list)
}

/// The terms recorded in a vocabulary file with the text `text`: none when
/// it is blank or not a JSON array of strings.
pub open spec fn vocabulary_in_text(text: Seq<char>) -> Seq<Seq<char>> {
    if is_blank(text) {
        Seq::empty()
    } else {
        match json_string_list(text) {
            Some(l) => l,
            None => Seq::empty(),
        }
    }
}

/// The terms a read of the vocabulary file yields: none when it is missing or unreadable.
pub open spec fn vocabulary_in_file(file: StoreFile) -> Seq<Seq<char>> {
    match file {
        StoreFile::Text(t) => vocabulary_in_text(t@),
        _ => Seq::empty(),
    }
}

/// `v` with `term` appended unless it is already there.
pub open spec fn with_term(v: Seq<Seq<char>>, term: Seq<char>) -> Seq<Seq<char>> {
    if v.contains(term) { v } else { v.push(term) }
}

/// `v` without any occurrence of `term`, order kept.
pub open spec fn without_term(v: Seq<Seq<char>>, term: Seq<char>) -> Seq<Seq<char>>
    decreases v.len(),
{
    if v.len() == 0 {
        v
    } else if v.last() == term {
        without_term(v.drop_last(), term)
    } else {
        without_term(v.drop_last(), term).push(v.last())
    }
}

/// Path of the vocabulary file in the configuration directory `dir`.
pub fn vocabulary_path(dir: &str) -> (r: String)
    ensures
        r@ == path_join(dir@, VOCABULARY_FILENAME@),
{
    join_path(dir, VOCABULARY_FILENAME)
}

/// Path of the temporary file used while saving into `dir`.
pub fn vocabulary_tmp_path(dir: &str) -> (r: String)
    ensures
        r@ == path_join(dir@, VOCABULARY_TMP_FILENAME@),
{
    join_path(dir, VOCABULARY_TMP_FILENAME)
}

/// The vocabulary held by a read of its file. Never fails: a missing,
/// unreadable, blank or corrupt file yields an empty list.
pub fn load_vocabulary(file: StoreFile) -> (r: Vec<String>)
    ensures
        string_views(r@) == vocabulary_in_file(file),
{
    match file {
        StoreFile::Text(t) => {
            if is_blank_str(t.as_str()) {
                return Vec::new();
            }
            match parse_string_list(t.as_str()) {
                Some(l) => l,
                None => Vec::new(),
            }
        },
        _ => Vec::new(),
    }
}

/// The last `max` strings of `entries`, copied.
pub fn most_recent_strings(entries: &[String], max: usize) -> (r: Vec<String>)
    ensures
        r@ == most_recent(entries@, max as nat),
{
    let n = entries.len();
    let start: usize = if n > max { n - max } else { 0 };
    let mut out: Vec<String> = Vec::new();
    let mut i = start;
    while i < n
        invariant
            n == entries@.len(),
            start <= i <= n,
            out@ == entries@.subrange(start as int, i as int),
        decreases n - i,
    {
        out.push(entries[i].clone());
        assert(out@ =~= entries@.subrange(start as int, i + 1));
        i = i + 1;
    }
    assert(entries@.subrange(start as int, n as int) =~= most_recent(entries@, max as nat));
    out
}

/// The text to store for `entries`: the most recent `MAX_VOCABULARY_ENTRIES`
/// terms as a pretty-printed JSON array. Loading that text gives exactly
/// those terms back.
pub fn save_vocabulary(entries: &[String]) -> (r: Result<String, AppError>)
    ensures
        r matches Ok(t) && t@ == json_pretty_string_list(
            most_recent(string_views(entries@), MAX_VOCABULARY_ENTRIES as nat),
        ) && vocabulary_in_text(t@) == most_recent(string_views(entries@), MAX_VOCABULARY_ENTRIES as nat),
{
    let capped = most_recent_strings(entries, MAX_VOCABULARY_ENTRIES);
    assert(string_views(capped@) =~= most_recent(string_views(entries@), MAX_VOCABULARY_ENTRIES as nat));
    match render_string_list(capped.as_slice()) {
        Ok(t) => {
            proof {
                lemma_not_blank_when_starting_with(t@);
            }
            Ok(t)
        },
        Err(_) => {
            assert(false);
            Err(AppError::Config(String::new()))
        },
    }
}

/// Add `term` unless it is already present (exact, case-sensitive match).
/// Returns whether it was added.
pub fn add_entry(entries: &mut Vec<String>, term: String) -> (r: bool)
    ensures
        r == !string_views(old(entries)@).contains(term@),
        string_views(final(entries)@) == with_term(string_views(old(entries)@), term@),
        !r ==> final(entries)@ == old(entries)@,
        r ==> final(entries)@ == old(entries)@.push(term),
{
    let ghost views = string_views(entries@);
    let n = entries.len();
    let mut i: usize = 0;
    while i < n
        invariant
            n == entries@.len(),
            entries@ == old(entries)@,
            views == string_views(entries@),
            i <= n,
            forall|k: int| 0 <= k < i ==> views[k] != term@,
        decreases n - i,
    {
        if entries[i] == term {
            assert(views[i as int] == term@);
            assert(views.contains(term@));
            return false;
        }
        i = i + 1;
    }
    assert(!views.contains(term@));
    entries.push(term);
    assert(string_views(entries@) =~= views.push(term@));
    true
}

/// Remove every occurrence of `term` (exact match). Returns whether any was removed.
pub fn remove_entry(entries: &mut Vec<String>, term: &str) -> (r: bool)
    ensures
        r == string_views(old(entries)@).contains(term@),
        string_views(final(entries)@) == without_term(string_views(old(entries)@), term@),
{
    let ghost views = string_views(entries@);
    let target = String::from_str(term);
    let n = entries.len();
    let mut kept: Vec<String> = Vec::new();
    let mut found = false;
    let mut i: usize = 0;
    while i < n
        invariant
            n == entries@.len(),
            views == string_views(entries@),
            target@ == term@,
            i <= n,
            string_views(kept@) == without_term(views.take(i as int), term@),
            found == views.take(i as int).contains(term@),
        decreases n - i,
    {
        assert(views.take(i + 1).drop_last() =~= views.take(i as int));
        assert(views.take(i + 1).last() == views[i as int]);
        if entries[i] == target {
            found = true;
            assert(views.take(i + 1)[i as int] == term@);
        } else {
            kept.push(entries[i].clone());
            assert(string_views(kept@) =~= without_term(views.take(i as int), term@).push(views[i as int]));
        }
        i = i + 1;
    }
    assert(views.take(n as int) =~= views);
    *entries = kept;
    found
}

/// Removing a term that does not occur leaves the list as it is.
proof fn lemma_without_absent(v: Seq<Seq<char>>, term: Seq<char>)
    requires
        !v.contains(term),
    ensures
        without_term(v, term) == v,
    decreases v.len(),
{
    if v.len() > 0 {
        assert(!v.drop_last().contains(term)) by {
            if v.drop_last().contains(term) {
                let k = choose|k: int| 0 <= k < v.drop_last().len() && v.drop_last()[k] == term;
                assert(v[k] == term);
            }
        }
        lemma_without_absent(v.drop_last(), term);
        assert(v.last() != term) by {
            assert(v[v.len() - 1] == v.last());
        }
        assert(v.drop_last().push(v.last()) =~= v);
    }
}

/// After a removal the term no longer occurs.
proof fn lemma_without_removes(v: Seq<Seq<char>>, term: Seq<char>)
    ensures
        !without_term(v, term).contains(term),
    decreases v.len(),
{
    if v.len() > 0 {
        lemma_without_removes(v.drop_last(), term);
        let w = without_term(v.drop_last(), term);
        if v.last() != term {
            assert(!w.push(v.last()).contains(term)) by {
                if w.push(v.last()).contains(term) {
                    let k = choose|k: int| 0 <= k < w.push(v.last()).len() && w.push(v.last())[k] == term;
                    if k < w.len() {
                        assert(w[k] == term);
                    }
                }
            }
        }
    }
}

/// Adding a term twice is the same as adding it once, and the term is then present.
pub proof fn law_add_is_idempotent(v: Seq<Seq<char>>, term: Seq<char>)
    ensures
        with_term(v, term).contains(term),
        with_term(with_term(v, term), term) == with_term(v, term),
{
    if !v.contains(term) {
        assert(v.push(term)[v.len() as int] == term);
    }
}

/// Adding a term that is already present leaves the list exactly as it was;
/// adding one that is absent appends it at the end, after the others in order.
pub proof fn law_add_keeps_present_and_appends_absent(v: Seq<Seq<char>>, term: Seq<char>)
    ensures
        v.contains(term) ==> with_term(v, term) == v,
        !v.contains(term) ==> with_term(v, term).len() == v.len() + 1
            && with_term(v, term).last() == term
            && with_term(v, term).drop_last() == v,
{
    if !v.contains(term) {
        assert(v.push(term).drop_last() =~= v);
    }
}

/// Removing a term that was just added to a list that lacked it gives the list back.
pub proof fn law_remove_undoes_add(v: Seq<Seq<char>>, term: Seq<char>)
    requires
        !v.contains(term),
    ensures
        without_term(with_term(v, term), term) == v,
{
    lemma_without_absent(v, term);
    assert(v.push(term).drop_last() =~= v);
}

/// After a removal the term is gone, whatever the list held.
pub proof fn law_removed_term_is_absent(v: Seq<Seq<char>>, term: Seq<char>)
    ensures
        !without_term(v, term).contains(term),
{
    lemma_without_removes(v, term);
}

/// A newly added term survives the cap that a save applies, since it is the most recent one.
pub proof fn law_new_term_survives_save(v: Seq<Seq<char>>, term: Seq<char>)
    requires
        !v.contains(term),
    ensures
        most_recent(with_term(v, term), MAX_VOCABULARY_ENTRIES as nat).contains(term),
{
    let w = v.push(term);
    let c = most_recent(w, MAX_VOCABULARY_ENTRIES as nat);
    assert(c[c.len() - 1] == term);
}

} // verus!
