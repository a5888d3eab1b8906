//! A temporary file with a process-unique name, and what its cleanup does.

use vstd::prelude::*;
use vstd::string::*;

verus! {

/// Relies on `uuid::Uuid::new_v4` and its hyphenated text form, which is 36
/// characters long. The value is random.
#[verifier::external_body]
pub(crate) fn new_unique_id() -> (r: String)
    ensures
        r@.len() == 36,
{
    uuid::Uuid::new_v4().to_string()
}

/// `dir` and `name` joined by one separator; a directory that already ends
/// in a separator (`/` or `\`), or an empty one, gets none added. The
/// separator added is always `/`, which Windows accepts as well as `\`, so
/// the path is the same text on every platform.
pub open spec fn join_spec(dir: Seq<char>, name: Seq<char>) -> Seq<char> {
    if dir.len() == 0 {
        name
    } else if dir.last() == '/' || dir.last() == '\\' {
        dir + name
    } else {
        dir + "/"@ + name
    }
}

/// Joins a directory and a file name.
pub fn join_path(dir: &str, name: &str) -> (r: String)
    ensures
        r@ == join_spec(dir@, name@),
{
    let n = dir.unicode_len();
    if n == 0 {
        return String::from_str(name);
    }
    let last = dir.get_char(n - 1);
    let mut r = String::from_str(dir);
    if last != '/' && last != '\\' {
        r.append("/");
    }
    r.append(name);
    r
}

/// The name of a temporary file: `tempfile-{id}.{extension}`.
pub open spec fn temp_file_name(id: Seq<char>, extension: Seq<char>) -> Seq<char> {
    "tempfile-"@ + id + "."@ + extension
}

/// Owns one temporary file path. Whoever holds it deletes the file when done
/// with it; see `cleanup_step` and `cleanup_log_level`.
pub struct TemporaryFileCleaner {
    file: String,
}

/// Whether cleanup deletes the file: only one that exists.
#[derive(Clone, Copy, PartialEq, Eq, Structural, Debug)]
pub enum CleanupStep {
    Skip,
    Remove,
}

/// The level at which an event is logged.
#[derive(Clone, Copy, PartialEq, Eq, Structural, Debug)]
pub enum LogLevel {
    Trace,
    Debug,
    Info,
    Warn,
    Error,
}

impl TemporaryFileCleaner {
    pub closed spec fn path_spec(&self) -> Seq<char> {
        self.file@
    }

    /// A fresh path in `temp_dir` for a file with the given extension, named
    /// after a random unique id.
    pub fn new_with_extension(temp_dir: &str, extension: &str) -> (r: Self)
        ensures
            exists|id: Seq<char>| id.len() == 36 && r.path_spec() == join_spec(temp_dir@, #[trigger] temp_file_name(id, extension@)),
    {
        let id = new_unique_id();
        let mut name = String::from_str("tempfile-");
        name.append(id.as_str());
        name.append(".");
        name.append(extension);
        assert(name@ == temp_file_name(id@, extension@));
        TemporaryFileCleaner { file: join_path(temp_dir, name.as_str()) }
    }

    /// A fresh path in `temp_dir` with the extension `tmp`.
    pub fn new(temp_dir: &str) -> (r: Self)
        ensures
            exists|id: Seq<char>| id.len() == 36 && r.path_spec() == join_spec(temp_dir@, #[trigger] temp_file_name(id, "tmp"@)),
    {
        Self::new_with_extension(temp_dir, "tmp")
    }

    /// The path this guard owns.
    pub fn file_path(&self) -> (r: &String)
        ensures
            r@ == self.path_spec(),
    {
        &self.file
    }

    /// What cleanup does, given whether the file exists now: a missing file
    /// is left alone.
    pub fn cleanup_step(&self, exists: bool) -> (r: CleanupStep)
        ensures
            r == (if exists { CleanupStep::Remove } else { CleanupStep::Skip }),
    {
        if exists {
            CleanupStep::Remove
        } else {
            CleanupStep::Skip
        }
    }
}

/// The level at which cleanup reports itself: a deleted file at trace, a
/// missing file or a failed deletion at debug. Cleanup never reports an
/// error: it is best effort.
pub fn cleanup_log_level(exists: bool, removed: bool) -> (r: LogLevel)
    ensures
        r == (if exists && removed { LogLevel::Trace } else { LogLevel::Debug }),
        r != LogLevel::Error,
        r != LogLevel::Warn,
{
    if exists && removed {
        LogLevel::Trace
    } else {
        LogLevel::Debug
    }
}

} // verus!
