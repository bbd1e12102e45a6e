use vstd::prelude::*;
use vstd::string::*;

use crate::error::Error;
use crate::license::{add_licenses_now, license_files};
use crate::pick;
use crate::plan::{FileModel, OutFile};
use crate::value_or_default;

verus! {

/// Adds useful content to an existing Rust project: for now the license
/// pair. The CI flags are declared, but that part of the subcommand is
/// not written yet.
#[derive(Debug, Clone)]
pub struct Add {
    /// Where to add the content; the caller resolves it into the working
    /// directory handed to `run`.
    pub path: Option<String>,
    pub licenses: bool,
    pub full_name: Option<String>,
    pub ci: bool,
    pub lib: bool,
    pub no_windows: bool,
    pub no_osx: bool,
}

impl Add {
    /// Lays out the files to add under `working_dir`: the licenses when
    /// asked for, and nothing otherwise. The full name is resolved first,
    /// so a missing `full_name` is reported even when nothing is added.
    /// Generating CI files alone is not written yet: that flag pair is
    /// admitted only as far as the name resolution that precedes it.
    pub fn run(self, default_full_name: Option<String>, working_dir: String) -> (r: Result<
        Vec<OutFile>,
        Error,
    >)
        requires
            self.ci && !self.licenses ==> pick(self.full_name, default_full_name) is None,
        ensures
            pick(self.full_name, default_full_name) is None ==> (r matches Err(e)
                && e.is_missing_config("full_name"@)),
            pick(self.full_name, default_full_name) matches Some(n) ==> (r matches Ok(files) && {
                &&& self.licenses ==> (exists|year: int|
                    files.deep_view() == license_files(working_dir@, year, n@))
                &&& !self.licenses ==> files.deep_view() == Seq::<FileModel>::empty()
            }),
    {
        let full_name = match value_or_default(self.full_name, default_full_name, "full_name") {
            Ok(name) => name,
            Err(e) => return Err(e),
        };

        if self.licenses {
            Ok(add_licenses_now(working_dir.as_str(), Some(full_name)))
        } else {
            let files: Vec<OutFile> = Vec::new();
            proof {
                assert(files.deep_view() =~= Seq::<FileModel>::empty());
            }
            Ok(files)
        }
    }
}

} // verus!
