//! Where saved jobs go: the file and the temporary file written before it.
use vstd::prelude::*;
use vstd::string::*;

verus! {

/// Saves jobs to `jobs.json`, appending to the jobs already there.
pub struct FileSaver {}

impl FileSaver {
    /// A saver.
    pub fn new() -> (r: FileSaver)
        ensures
            r == (FileSaver {  }),
    {
        FileSaver {  }
    }
}

impl Default for FileSaver {
    fn default() -> (r: FileSaver)
        ensures
            r == (FileSaver {  }),
    {
        FileSaver::new()
    }
}

/// The final component of a path, as `std::path::Path::file_name` reads it
/// under the target's path rules; `None` where the path ends in `..` or has
/// no component.
pub uninterp spec fn path_file_name(path: Seq<char>) -> Option<Seq<char>>;

/// The path with its final component replaced, as
/// `std::path::Path::with_file_name` writes it under the target's path rules.
pub uninterp spec fn path_with_file_name(path: Seq<char>, name: Seq<char>) -> Seq<char>;

/// `Path::file_name`: the contract says that the name read is the one that
/// `path_file_name` gives for the path; the path is UTF-8 text, so its final
/// component converts to text unchanged.
#[verifier::external_body]
fn file_name_of(path: &str) -> (r: Option<String>)
    ensures
        match r {
            Some(n) => path_file_name(path@) == Some(n@),
            None => path_file_name(path@) is None,
        },
{
    match std::path::Path::new(path).file_name() {
        Some(n) => Some(n.to_string_lossy().into_owned()),
        None => None,
    }
}

/// `Path::with_file_name`: the contract says that the path written is the
/// one that `path_with_file_name` gives; both parts are UTF-8 text, so the
/// result converts to text unchanged.
#[verifier::external_body]
fn with_file_name(path: &str, name: &str) -> (r: String)
    ensures
        r@ == path_with_file_name(path@, name@),
{
    std::path::Path::new(path).with_file_name(name).to_string_lossy().into_owned()
}

/// The temporary file written before `path`: the same directory, the file
/// name followed by `.tmp`; `jobs.json.tmp` where the path has no file name.
pub open spec fn tmp_path(path: Seq<char>) -> Seq<char> {
    match path_file_name(path) {
        Some(name) => path_with_file_name(path, name + ".tmp"@),
        None => "jobs.json.tmp"@,
    }
}

/// The temporary file written before `path`.
pub fn tmp_path_for(path: &str) -> (r: String)
    ensures
        r@ == tmp_path(path@),
{
    match file_name_of(path) {
        Some(name) => {
            let mut tmp_name = name;
            tmp_name.append(".tmp");
            with_file_name(path, tmp_name.as_str())
        },
        None => String::from_str("jobs.json.tmp"),
    }
}

/// Where the jobs are saved.
pub fn jobs_path() -> (r: String)
    ensures
        r@ == "jobs.json"@,
{
    String::from_str("jobs.json")
}

} // verus!
