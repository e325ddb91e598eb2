//! Entry points: the exports a script module has to provide.

use crate::module::ModuleHandle;
use vstd::prelude::*;

verus! {

/// The calling convention the bridge asserts for an export. It is never checked
/// against the module: the module carries no metadata to check it against.
#[derive(Clone, Copy, Debug, PartialEq, Eq, Structural)]
pub enum Signature {
    /// No argument, no result.
    Nullary,
    /// One single-precision argument (elapsed seconds), no result.
    Seconds,
}

/// One of the exports that the bridge and every script module agree on.
/// Each stands for a fixed pair of an exported name and a signature.
#[derive(Clone, Copy, Debug, PartialEq, Eq, Structural)]
pub enum EntryPoint {
    /// The one-time initializer.
    Init,
    /// The per-tick update.
    Update,
}

impl EntryPoint {
    /// The exported symbol name, as text.
    pub open spec fn name_spec(self) -> Seq<char> {
        match self {
            EntryPoint::Init => "zig_init"@,
            EntryPoint::Update => "zig_update"@,
        }
    }

    /// The signature the export is called with.
    pub open spec fn signature_spec(self) -> Signature {
        match self {
            EntryPoint::Init => Signature::Nullary,
            EntryPoint::Update => Signature::Seconds,
        }
    }

    /// The name under which the module exports this entry point.
    pub fn name(self) -> (name: &'static str)
        ensures
            name@ == self.name_spec(),
    {
        match self {
            EntryPoint::Init => "zig_init",
            EntryPoint::Update => "zig_update",
        }
    }

    /// The signature this entry point is bound to when it is resolved.
    pub fn signature(self) -> (signature: Signature)
        ensures
            signature == self.signature_spec(),
    {
        match self {
            EntryPoint::Init => Signature::Nullary,
            EntryPoint::Update => Signature::Seconds,
        }
    }
}

/// A callable handle: one entry point bound within one loaded module.
///
/// It names the module it was resolved from, so that its validity stays tied
/// to that module being loaded.
#[derive(Clone, Copy, Debug, PartialEq, Eq, Structural)]
pub struct ResolvedEntryPoint {
    pub module: ModuleHandle,
    pub entry: EntryPoint,
}

/// Why an entry point could not be resolved.
#[derive(Clone, Copy, Debug, PartialEq, Eq, Structural)]
pub enum ResolveError {
    /// The module does not export the entry point's name.
    SymbolNotFound(EntryPoint),
}

/// The two exports have different names, so resolving one can never yield the
/// other.
pub proof fn law_names_differ()
    ensures
        EntryPoint::Init.name_spec() != EntryPoint::Update.name_spec(),
{
    reveal_strlit("zig_init");
    reveal_strlit("zig_update");
    assert("zig_init"@.len() == 8);
    assert("zig_update"@.len() == 10);
}

} // verus!
