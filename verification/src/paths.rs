//! The destination path of a download: the configured temporary directory,
//! a separator, and the file name, used verbatim as a single path segment.

use vstd::prelude::*;
use vstd::string::StringExecFns;

verus! {

/// The path the downloaded file is written to: `<temp_dir>/<file_name>`.
pub open spec fn dest_path_spec(temp_dir: Seq<char>, file_name: Seq<char>) -> Seq<char> {
    temp_dir + "/"@ + file_name
}

/// Builds `<temp_dir>/<file_name>`. The file name is not sanitized: it is
/// appended verbatim, so calls that share a name share a destination.
pub fn dest_path(temp_dir: &str, file_name: &str) -> (r: String)
    ensures
        r@ == dest_path_spec(temp_dir@, file_name@),
{
    let mut r = temp_dir.to_owned();
    r.append("/");
    r.append(file_name);
    r
}

} // verus!
