//! The host operations that scripts can call, and how each is called.
use vstd::prelude::*;

verus! {

/// A host operation exposed to scripts.
#[derive(Clone, Copy, Debug, PartialEq, Eq, Structural)]
pub enum Capability {
    ReadFile,
    WriteFile,
    RemoveFile,
    FetchUrl,
}

/// How a script calls a host operation.
#[derive(Clone, Copy, Debug, PartialEq, Eq, Structural)]
pub enum Convention {
    /// Completes within the calling turn; local metadata work only.
    BlockingFast,
    /// Hands back a deferred value, settled once the native work is done.
    DeferredAsync,
}

/// Only removing a file is quick enough to run within the calling turn.
pub open spec fn convention_of(c: Capability) -> Convention {
    match c {
        Capability::RemoveFile => Convention::BlockingFast,
        _ => Convention::DeferredAsync,
    }
}

/// The name under which the operation is registered with the engine.
pub open spec fn op_name_of(c: Capability) -> Seq<char> {
    match c {
        Capability::ReadFile => "op_read_file"@,
        Capability::WriteFile => "op_write_file"@,
        Capability::RemoveFile => "op_remove_file"@,
        Capability::FetchUrl => "op_fetch"@,
    }
}

impl Capability {
    /// How a script calls this operation.
    pub fn convention(&self) -> (r: Convention)
        ensures
            r == convention_of(*self),
    {
        match self {
            Capability::RemoveFile => Convention::BlockingFast,
            _ => Convention::DeferredAsync,
        }
    }

    /// The name under which this operation is registered.
    pub fn op_name(&self) -> (r: &'static str)
        ensures
            r@ == op_name_of(*self),
    {
        match self {
            Capability::ReadFile => "op_read_file",
            Capability::WriteFile => "op_write_file",
            Capability::RemoveFile => "op_remove_file",
            Capability::FetchUrl => "op_fetch",
        }
    }

    /// Every operation of the registry, in the order it is installed.
    pub fn all() -> (r: Vec<Capability>)
        ensures
            r@ == seq![Capability::ReadFile, Capability::WriteFile, Capability::RemoveFile, Capability::FetchUrl],
    {
        vec![Capability::ReadFile, Capability::WriteFile, Capability::RemoveFile, Capability::FetchUrl]
    }
}

} // verus!
