//! The executable locator: where an installed tool's executable lies, and
//! which files pin a version of it.

use crate::download::Tool;
use crate::platform::Platform;
use vstd::prelude::*;
use vstd::string::*;

verus! {

/// Where the executable of an installed tool is found.
#[derive(Debug, PartialEq, Eq)]
pub struct ExecutableLocation {
    /// The executable's path below the installation directory.
    pub exe_path: String,
    /// The directories, in the order in which they are to be probed, where
    /// the tool puts the executables that it installs itself.
    pub globals_lookup_dirs: Vec<String>,
    /// Whether the last of these directories is to be used where none of
    /// them exists.
    pub fallback_last_globals_dir: bool,
}

/// The mathematical value of an [`ExecutableLocation`].
pub ghost struct ExecutableLocationView {
    pub exe_path: Seq<char>,
    pub globals_lookup_dirs: Seq<Seq<char>>,
    pub fallback_last_globals_dir: bool,
}

impl View for ExecutableLocation {
    type V = ExecutableLocationView;

    open spec fn view(&self) -> ExecutableLocationView {
        ExecutableLocationView {
            exe_path: self.exe_path@,
            globals_lookup_dirs: self.globals_lookup_dirs@.map_values(|d: String| d@),
            fallback_last_globals_dir: self.fallback_last_globals_dir,
        }
    }
}

/// The directories of the tool's own installer, the same on every
/// platform.
pub open spec fn globals_dirs() -> Seq<Seq<char>> {
    seq!["$DENO_INSTALL_ROOT/bin"@, "$DENO_HOME/bin"@, "$HOME/.deno/bin"@]
}

/// The files by which a directory pins a version of the tool.
pub open spec fn version_files() -> Seq<Seq<char>> {
    seq![".dvmrc"@]
}

/// Lists the files that pin a version of the tool.
pub fn detect_version_files() -> (r: Vec<String>)
    ensures
        r@.map_values(|f: String| f@) == version_files(),
{
    let mut files: Vec<String> = Vec::new();
    files.push(String::from_str(".dvmrc"));
    assert(files@.map_values(|f: String| f@) =~= version_files());
    files
}

/// Says where the executable of `tool` lies on `platform`: under the name
/// of the executable, with the suffix that the operating system puts on
/// executables, and nowhere else by default.
pub fn locate_executables(tool: &Tool, platform: Platform) -> (r: ExecutableLocation)
    ensures
        r@.exe_path == tool@.bin + platform.os.exe_suffix(),
        r@.globals_lookup_dirs == globals_dirs(),
        !r@.fallback_last_globals_dir,
{
    let mut dirs: Vec<String> = Vec::new();
    dirs.push(String::from_str("$DENO_INSTALL_ROOT/bin"));
    dirs.push(String::from_str("$DENO_HOME/bin"));
    dirs.push(String::from_str("$HOME/.deno/bin"));
    assert(dirs@.map_values(|d: String| d@) =~= globals_dirs());
    ExecutableLocation {
        exe_path: platform.os.exe_name(tool.bin.as_str()),
        globals_lookup_dirs: dirs,
        fallback_last_globals_dir: false,
    }
}

} // verus!
