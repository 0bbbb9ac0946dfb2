//! Source dialects and how each one is handed to the engine.
use vstd::prelude::*;

use deno_ast::MediaType;

verus! {

/// The media type of a source file, with its variants visible to proofs.
#[verifier::external_type_specification]
pub struct ExMediaType(MediaType);

/// The kind of module that the engine is handed for a loaded source.
#[derive(Clone, Copy, Debug, PartialEq, Eq, Structural)]
pub enum ModuleKind {
    /// Executable code, run by the engine as an ES module.
    Code,
    /// Structured data, exposed to importers as a JSON value.
    Data,
}

/// What the loader does with a source of a supported dialect.
#[derive(Clone, Copy, Debug, PartialEq, Eq, Structural)]
pub struct Treatment {
    pub kind: ModuleKind,
    /// Whether the source must be lowered to plain JavaScript first.
    pub transpile: bool,
}

/// The treatment of each dialect; `None` for a dialect the loader refuses.
pub open spec fn treatment_of(m: MediaType) -> Option<Treatment> {
    match m {
        MediaType::JavaScript | MediaType::Mjs | MediaType::Cjs => Some(
            Treatment { kind: ModuleKind::Code, transpile: false },
        ),
        MediaType::Jsx => Some(Treatment { kind: ModuleKind::Code, transpile: true }),
        MediaType::Json => Some(Treatment { kind: ModuleKind::Data, transpile: false }),
        MediaType::TypeScript | MediaType::Mts | MediaType::Cts | MediaType::Dts
        | MediaType::Dmts | MediaType::Dcts | MediaType::Tsx => Some(
            Treatment { kind: ModuleKind::Code, transpile: true },
        ),
        _ => None,
    }
}

/// The media type that a file path's name gives.
pub uninterp spec fn media_type_of_path(path: Seq<char>) -> MediaType;

/// Relies on deno_ast::MediaType::from_path: the dialect is read off the
/// path's file name alone, without touching the file.
#[verifier::external_body]
pub(crate) fn media_type_from_path(path: &str) -> (r: MediaType)
    ensures
        r == media_type_of_path(path@),
{
    MediaType::from_path(std::path::Path::new(path))
}

/// Tells how a source of media type `m` is to be loaded.
pub fn classify(m: MediaType) -> (r: Option<Treatment>)
    ensures
        r == treatment_of(m),
{
    match m {
        MediaType::JavaScript | MediaType::Mjs | MediaType::Cjs => Some(
            Treatment { kind: ModuleKind::Code, transpile: false },
        ),
        MediaType::Jsx => Some(Treatment { kind: ModuleKind::Code, transpile: true }),
        MediaType::Json => Some(Treatment { kind: ModuleKind::Data, transpile: false }),
        MediaType::TypeScript | MediaType::Mts | MediaType::Cts | MediaType::Dts
        | MediaType::Dmts | MediaType::Dcts | MediaType::Tsx => Some(
            Treatment { kind: ModuleKind::Code, transpile: true },
        ),
        _ => None,
    }
}

} // verus!
