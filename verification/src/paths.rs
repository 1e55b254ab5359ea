//! File-system paths as text, joined the way `PathBuf::push` joins Unix paths.
use vstd::prelude::*;
use vstd::string::*;

verus! {

/// `dir` joined with `name`: an absolute `name` replaces `dir`, an empty
/// `dir` yields `name`, and otherwise one `/` separates them.
pub open spec fn path_join(dir: Seq<char>, name: Seq<char>) -> Seq<char> {
    if name.len() > 0 && name[0] == '/' {
        name
    } else if dir.len() == 0 {
        name
    } else if dir.last() == '/' {
        dir + name
    } else {
        dir + "/"@ + name
    }
}

/// `dir` joined with `name`.
pub fn join_path(dir: &str, name: &str) -> (r: String)
    ensures
        r@ == path_join(dir@, name@),
{
    proof { reveal_strlit("/"); }
    let nl = name.unicode_len();
    if nl > 0 && name.get_char(0) == '/' {
        return String::from_str(name);
    }
    let dl = dir.unicode_len();
    if dl == 0 {
        return String::from_str(name);
    }
    let mut out = String::from_str(dir);
    if dir.get_char(dl - 1) != '/' {
        out.append("/");
    }
    out.append(name);
    out
}

} // verus!
