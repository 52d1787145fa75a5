//! Naming for crash-safe file replacement.
//!
//! Every local file is rewritten whole rather than edited in place: the new
//! contents go to a sibling temporary file, which is then renamed over the
//! target. `rename` within a directory is atomic on Linux, and it has to be
//! within one directory: renaming across filesystems fails with `EXDEV`.

use vstd::prelude::*;
use crate::storage::paths::{file_name_of, path_file_name, path_with_file_name, with_file_name};
use crate::text::{join2, owned};

verus! {

/// Name of the temporary beside a file called `name`.
pub open spec fn temp_name(name: Option<Seq<char>>) -> Seq<char> {
    match name {
        Some(n) => n + ".new"@,
        None => ".new"@,
    }
}

/// Sibling path used while the new contents of `path` are being written:
/// the same directory, the file name with `.new` appended.
///
/// The suffix keeps it out of the way of any real file: the loaders look
/// for exact names (`config.json`, `registry.json`), so a leftover `.new`
/// from a killed process is ignored rather than read.
pub fn temp_path(path: &str) -> (r: String)
    ensures
        r@ == path_with_file_name(path@, temp_name(path_file_name(path@))),
{
    let name = match file_name_of(path) {
        Some(n) => join2(n.as_str(), ".new"),
        None => owned(".new"),
    };
    with_file_name(path, name.as_str())
}

} // verus!
