//! What the two small JSON stores (history and vocabulary) have in common.
use vstd::prelude::*;

verus! {

/// The last `max` items of `v` (all of them when there are fewer).
pub open spec fn most_recent<T>(v: Seq<T>, max: nat) -> Seq<T> {
    if v.len() > max {
        v.subrange(v.len() - max, v.len() as int)
    } else {
        v
    }
}

/// What reading a store file produced.
pub enum StoreFile {
    /// The file does not exist.
    Missing,
    /// The file exists but could not be read as text.
    Unreadable,
    /// The text of the file.
    Text(String),
}

} // verus!
