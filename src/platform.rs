//! Finding the launcher: its executable from the registry's open command,
//! and its data directory beside it.

use vstd::prelude::*;
use vstd::string::*;
use crate::text::to_chars;

verus! {

/// The first position at or after `from` that holds `c`, or the end.
fn find_char(cs: &Vec<char>, from: usize, c: char) -> (r: usize)
    requires
        from <= cs@.len(),
    ensures
        from <= r <= cs@.len(),
        forall|j: int| from <= j < r ==> cs@[j] != c,
        r < cs@.len() ==> cs@[r as int] == c,
{
    let mut i = from;
    while i < cs.len() && cs[i] != c
        invariant
            from <= i <= cs@.len(),
            forall|j: int| from <= j < i ==> cs@[j] != c,
        decreases cs@.len() - i,
    {
        i = i + 1;
    }
    i
}

/// `p` is the executable in an open command `cmd`: the text after the first
/// `"`, up to the next `"` or the end, and not empty.
pub open spec fn quoted_exec(cmd: Seq<char>, p: Seq<char>) -> bool {
    exists|q: int| {
        &&& 0 <= q
        &&& q + 1 + p.len() <= cmd.len()
        &&& #[trigger] cmd[q] == '"'
        &&& (forall|j: int| 0 <= j < q ==> cmd[j] != '"')
        &&& p == cmd.subrange(q + 1, q + 1 + p.len())
        &&& (forall|j: int| 0 <= j < p.len() ==> p[j] != '"')
        &&& (q + 1 + p.len() == cmd.len() || cmd[q + 1 + p.len()] == '"')
        &&& p.len() > 0
    }
}

/// The command holds no executable: no `"`, or nothing between the first
/// `"` and the next one (or the end).
pub open spec fn no_quoted_exec(cmd: Seq<char>) -> bool {
    (forall|j: int| 0 <= j < cmd.len() ==> cmd[j] != '"') || exists|q: int| {
        &&& 0 <= q < cmd.len()
        &&& #[trigger] cmd[q] == '"'
        &&& (forall|j: int| 0 <= j < q ==> cmd[j] != '"')
        &&& (q + 1 == cmd.len() || cmd[q + 1] == '"')
    }
}

/// The launcher's executable from the open command it registered for its
/// URL scheme (`None` where there is none, as on platforms without such a
/// registry): the first quoted path of the command.
pub fn get_prism_launcher_exec(open_command: Option<String>) -> (r: Result<Option<String>, String>)
    ensures
        r is Ok,
        match open_command {
            None => r == Ok::<Option<String>, String>(None),
            Some(cmd) => match r->Ok_0 {
                Some(p) => quoted_exec(cmd@, p@),
                None => no_quoted_exec(cmd@),
            },
        },
{
    match open_command {
        None => Ok(None),
        Some(cmd) => {
            let cs = to_chars(cmd.as_str());
            let q = find_char(&cs, 0, '"');
            if q == cs.len() {
                return Ok(None);
            }
            let end = find_char(&cs, q + 1, '"');
            if end == q + 1 {
                return Ok(None);
            }
            let p = cmd.as_str().substring_char(q + 1, end);
            proof {
                assert(p@ == cmd@.subrange(q + 1, q + 1 + p@.len()));
                assert(cmd@[q as int] == '"');
            }
            Ok(Some(String::from_str(p)))
        },
    }
}

/// The directory that `std::path::Path::parent` gives for a path, with the
/// build target's separators and prefixes: `None` for the empty path and for
/// a root.
pub uninterp spec fn path_parent_of(path: Seq<char>) -> Option<Seq<char>>;

/// Relies on `std::path::Path::parent`: the result depends on the text alone,
/// for one build target. The parent of a text path is a piece of it, so the
/// conversion back to text loses nothing.
#[verifier::external_body]
fn path_parent(path: &str) -> (r: Option<String>)
    ensures
        match path_parent_of(path@) {
            Some(p) => r is Some && r->0@ == p,
            None => r is None,
        },
{
    std::path::Path::new(path).parent().map(|d| d.to_string_lossy().into_owned())
}

/// The launcher's data directory: the directory of its executable. A
/// missing executable is an error; an error finding it is passed on.
pub fn get_prism_launcher_data(exec: Result<Option<String>, String>) -> (r: Result<
    Option<String>,
    String,
>)
    ensures
        match exec {
            Err(e) => r == Err::<Option<String>, String>(e),
            Ok(None) => r is Err && r->Err_0@ == "PrismLauncher executable not found"@,
            Ok(Some(p)) => r is Ok && match path_parent_of(p@) {
                Some(d) => r->Ok_0 is Some && r->Ok_0->0@ == d,
                None => r->Ok_0 is None,
            },
        },
{
    match exec {
        Err(e) => Err(e),
        Ok(None) => Err(String::from_str("PrismLauncher executable not found")),
        Ok(Some(p)) => Ok(path_parent(p.as_str())),
    }
}

} // verus!
