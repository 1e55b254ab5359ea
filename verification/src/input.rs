//! The active-application signal given to the post-processor.
use vstd::prelude::*;

verus! {

/// The name of the frontmost application on a platform that offers no way to
/// ask, which is every platform but macOS: `None`, which every consumer treats
/// as "no signal". On macOS the application asks the workspace itself and
/// does not use this function.
pub fn get_frontmost_app() -> (r: Option<String>)
    ensures
        r is None,
{
    None
}

} // verus!
