//! What can go wrong, and what the operator is told about it.

use crate::entry::EntryPoint;
use vstd::prelude::*;
use vstd::string::*;

verus! {

/// The kinds of failure at the boundary to native code.
#[derive(Clone, Copy, Debug, PartialEq, Eq, Structural)]
pub enum FailureKind {
    /// Nothing exists at the configured location.
    ModuleNotFound,
    /// The module exists but could not be loaded.
    LoadFailed,
    /// A loaded module lacks a required export.
    SymbolNotFound,
    /// A crash, a hang or undefined behaviour inside the module. The bridge can
    /// neither see nor survive it; it takes the host down.
    NativeFault,
}

impl FailureKind {
    /// Whether the bridge detects this kind and degrades to running without
    /// scripting. Everything but a fault inside native code is.
    pub open spec fn recoverable_spec(self) -> bool {
        self != FailureKind::NativeFault
    }

    /// Whether the bridge detects this kind of failure and carries on.
    pub fn recoverable(self) -> (r: bool)
        ensures
            r == self.recoverable_spec(),
    {
        match self {
            FailureKind::NativeFault => false,
            _ => true,
        }
    }
}

/// A failure the bridge has detected, with what the diagnostic needs.
#[derive(Debug, PartialEq, Eq)]
pub enum Failure {
    /// Nothing exists at the configured location.
    ModuleNotFound,
    /// The module could not be loaded; the text is the loader's reason.
    LoadFailed(String),
    /// The module does not export this entry point.
    SymbolNotFound(EntryPoint),
}

/// The remedy offered when the module has not been built.
pub open spec fn build_hint() -> Seq<char> {
    "cd scripts/zig-script && sh build.sh"@
}

impl Failure {
    /// The kind a failure belongs to.
    pub open spec fn kind_spec(self) -> FailureKind {
        match self {
            Failure::ModuleNotFound => FailureKind::ModuleNotFound,
            Failure::LoadFailed(_) => FailureKind::LoadFailed,
            Failure::SymbolNotFound(_) => FailureKind::SymbolNotFound,
        }
    }

    /// The diagnostic for a failure, given the module's location: it names
    /// the missing artifact and, for a missing module, how to build it.
    pub open spec fn diagnostic_spec(self, path: Seq<char>) -> Seq<char> {
        match self {
            Failure::ModuleNotFound => "Script library not found at "@ + path
                + ". Build the script first: "@ + build_hint(),
            Failure::LoadFailed(reason) => "Failed to load library "@ + path + ": "@ + reason@,
            Failure::SymbolNotFound(entry) => "Failed to find symbol "@ + entry.name_spec()
                + " in "@ + path,
        }
    }

    /// The kind of this failure. It is never [`FailureKind::NativeFault`]:
    /// a detected failure is one the host survives.
    pub fn kind(&self) -> (kind: FailureKind)
        ensures
            kind == self.kind_spec(),
            kind.recoverable_spec(),
    {
        match self {
            Failure::ModuleNotFound => FailureKind::ModuleNotFound,
            Failure::LoadFailed(_) => FailureKind::LoadFailed,
            Failure::SymbolNotFound(_) => FailureKind::SymbolNotFound,
        }
    }

    /// The text shown to the operator for this failure.
    pub fn diagnostic(&self, path: &str) -> (text: String)
        ensures
            text@ == self.diagnostic_spec(path@),
    {
        match self {
            Failure::ModuleNotFound => {
                let mut text = String::from_str("Script library not found at ");
                text.append(path);
                text.append(". Build the script first: ");
                text.append("cd scripts/zig-script && sh build.sh");
                text
            },
            Failure::LoadFailed(reason) => {
                let mut text = String::from_str("Failed to load library ");
                text.append(path);
                text.append(": ");
                text.append(reason.as_str());
                text
            },
            Failure::SymbolNotFound(entry) => {
                let mut text = String::from_str("Failed to find symbol ");
                text.append(entry.name());
                text.append(" in ");
                text.append(path);
                text
            },
        }
    }
}

} // verus!
