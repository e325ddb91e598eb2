//! The script module: where it is expected, and how a loaded one is named.

use vstd::prelude::*;

verus! {

/// An opaque reference to a script module that was loaded into the process.
///
/// The host mints the handle when the load succeeds and keeps the module
/// loaded for the rest of the process: entry points resolved from it stay
/// callable exactly as long as it is loaded, so it is never unloaded.
#[derive(Clone, Copy, Debug, PartialEq, Eq, Structural)]
pub struct ModuleHandle {
    pub id: u64,
}

/// Why a module that exists could not be loaded.
#[derive(Debug, PartialEq, Eq)]
pub enum LoadError {
    /// Opening the module failed (bad format, failed relocation or linking);
    /// the text is the platform's own account of it.
    Open(String),
}

/// The configured location of the script module, as text.
pub open spec fn script_path_spec() -> Seq<char> {
    "../scripts/zig-script/libscript.so"@
}

/// The single configured location at which the script module is looked for.
pub fn get_script_path() -> (path: &'static str)
    ensures
        path@ == script_path_spec(),
{
    "../scripts/zig-script/libscript.so"
}

} // verus!
