//! Turning a canonical module specifier into engine-ready source.
use vstd::prelude::*;

use deno_ast::MediaType;

use crate::dialect::{media_type_from_path, media_type_of_path, classify, treatment_of, ModuleKind, Treatment};

verus! {

/// The stage of loading at which a module failed.
#[derive(Clone, Copy, Debug, PartialEq, Eq, Structural)]
pub enum LoadErrorKind {
    /// The specifier names no local file.
    NotFound,
    /// The file's name gives a dialect that the loader does not accept.
    UnsupportedDialect,
    /// The file could not be read.
    Io,
    /// The source did not parse as its dialect.
    Syntax,
    /// The parsed source could not be lowered to plain JavaScript.
    Transpile,
}

/// A failed load: its stage and a description.
#[derive(Debug)]
pub struct LoadError {
    pub kind: LoadErrorKind,
    pub message: String,
}

/// Why lowering a source to plain JavaScript failed.
#[derive(Debug)]
pub enum TranspileFailure {
    Syntax(String),
    Lowering(String),
}

/// What lowering a source gives, as a value.
pub enum Lowered {
    Emitted(Seq<char>),
    SyntaxError(Seq<char>),
    LoweringError(Seq<char>),
}

/// A module that has been located and classified, but not read yet.
#[derive(Debug)]
pub struct LoadPlan {
    pub specifier: String,
    pub path: String,
    pub media_type: MediaType,
    pub treatment: Treatment,
}

/// A loaded module, ready to be handed to the engine.
#[derive(Debug)]
pub struct ModuleRecord {
    pub specifier: String,
    pub kind: ModuleKind,
    pub source: String,
    /// Whether `source` is the lowered form of the file's text.
    pub transpiled: bool,
}

impl LoadPlan {
    /// The treatment is the one that the media type calls for.
    pub open spec fn wf(&self) -> bool {
        treatment_of(self.media_type) == Some(self.treatment)
    }
}

/// The local file path that a specifier names, if it names one.
pub uninterp spec fn file_path_of_specifier(specifier: Seq<char>) -> Option<Seq<char>>;

/// What lowering `code`, of the given media type, to plain JavaScript gives.
pub uninterp spec fn lowering_of(specifier: Seq<char>, code: Seq<char>, media_type: MediaType) -> Lowered;

/// Relies on url::Url::parse and Url::to_file_path (as deno_ast::ModuleSpecifier):
/// the path of a `file:` URL, and nothing for another URL or a malformed one.
#[verifier::external_body]
fn specifier_to_file_path(specifier: &str) -> (r: Option<String>)
    ensures
        r matches Some(p) ==> file_path_of_specifier(specifier@) == Some(p@),
        r is None ==> file_path_of_specifier(specifier@) is None,
{
    let url = deno_ast::ModuleSpecifier::parse(specifier).ok()?;
    let path = url.to_file_path().ok()?;
    path.to_str().map(|p| p.to_string())
}

/// Relies on deno_ast::parse_module and ParsedSource::transpile with default
/// options: the source is parsed as its dialect and lowered to plain JavaScript.
#[verifier::external_body]
fn lower_to_javascript(specifier: &str, code: &str, media_type: MediaType) -> (r: Result<String, TranspileFailure>)
    ensures
        r matches Ok(t) ==> lowering_of(specifier@, code@, media_type) == Lowered::Emitted(t@),
        r matches Err(TranspileFailure::Syntax(m)) ==> lowering_of(specifier@, code@, media_type) == Lowered::SyntaxError(m@),
        r matches Err(TranspileFailure::Lowering(m)) ==> lowering_of(specifier@, code@, media_type) == Lowered::LoweringError(m@),
{
    let specifier = deno_ast::ModuleSpecifier::parse(specifier).map_err(|e| TranspileFailure::Syntax(e.to_string()))?;
    let parsed = deno_ast::parse_module(deno_ast::ParseParams {
        specifier,
        text_info: deno_ast::SourceTextInfo::from_string(code.to_string()),
        media_type,
        capture_tokens: false,
        scope_analysis: false,
        maybe_syntax: None,
    }).map_err(|e| TranspileFailure::Syntax(e.to_string()))?;
    let emitted = parsed.transpile(&Default::default(), &Default::default());
    emitted.map(|e| e.into_source().text).map_err(|e| TranspileFailure::Lowering(e.to_string()))
}

/// `r` is what planning the load of `specifier` gives: the file it names, or
/// `NotFound`; then the file's treatment, or `UnsupportedDialect`.
pub open spec fn planned(specifier: Seq<char>, r: Result<LoadPlan, LoadError>) -> bool {
    match file_path_of_specifier(specifier) {
        None => r matches Err(e) && e.kind == LoadErrorKind::NotFound && e.message@ == specifier,
        Some(path) => match treatment_of(media_type_of_path(path)) {
            None => r matches Err(e) && e.kind == LoadErrorKind::UnsupportedDialect
                && e.message@ == path,
            Some(t) => r matches Ok(plan) && plan.specifier@ == specifier && plan.path@ == path
                && plan.media_type == media_type_of_path(path) && plan.treatment == t,
        },
    }
}

/// `r` is what finishing the load of `plan` gives once its file was read
/// (`read` holds its text or the read error): the text itself where no
/// lowering is called for, else what lowering it gives.
pub open spec fn loaded(plan: LoadPlan, read: Result<String, String>, r: Result<ModuleRecord, LoadError>) -> bool {
    match read {
        Err(e) => r matches Err(err) && err.kind == LoadErrorKind::Io && err.message@ == e@,
        Ok(code) => if !plan.treatment.transpile {
            r matches Ok(m) && m.specifier@ == plan.specifier@ && m.kind == plan.treatment.kind
                && m.source@ == code@ && !m.transpiled
        } else {
            match lowering_of(plan.specifier@, code@, plan.media_type) {
                Lowered::Emitted(t) => r matches Ok(m) && m.specifier@ == plan.specifier@
                    && m.kind == plan.treatment.kind && m.source@ == t && m.transpiled,
                Lowered::SyntaxError(msg) => r matches Err(err) && err.kind == LoadErrorKind::Syntax
                    && err.message@ == msg,
                Lowered::LoweringError(msg) => r matches Err(err) && err.kind
                    == LoadErrorKind::Transpile && err.message@ == msg,
            }
        },
    }
}

/// Locates and classifies the module named by `specifier`, before any read.
pub fn plan_load(specifier: &str) -> (r: Result<LoadPlan, LoadError>)
    ensures
        planned(specifier@, r),
        r matches Ok(plan) ==> plan.wf(),
{
    let path = match specifier_to_file_path(specifier) {
        Some(p) => p,
        None => {
            return Err(LoadError { kind: LoadErrorKind::NotFound, message: specifier.to_owned() });
        },
    };
    let media_type = media_type_from_path(path.as_str());
    match classify(media_type) {
        Some(treatment) => Ok(LoadPlan { specifier: specifier.to_owned(), path, media_type, treatment }),
        None => Err(LoadError { kind: LoadErrorKind::UnsupportedDialect, message: path }),
    }
}

/// Finishes the load of `plan` from the outcome of reading its file.
pub fn finish_load(plan: LoadPlan, read: Result<String, String>) -> (r: Result<ModuleRecord, LoadError>)
    requires
        plan.wf(),
    ensures
        loaded(plan, read, r),
{
    let code = match read {
        Ok(code) => code,
        Err(e) => {
            return Err(LoadError { kind: LoadErrorKind::Io, message: e });
        },
    };
    if !plan.treatment.transpile {
        return Ok(
            ModuleRecord { specifier: plan.specifier, kind: plan.treatment.kind, source: code, transpiled: false },
        );
    }
    match lower_to_javascript(plan.specifier.as_str(), code.as_str(), plan.media_type) {
        Ok(text) => Ok(
            ModuleRecord { specifier: plan.specifier, kind: plan.treatment.kind, source: text, transpiled: true },
        ),
        Err(TranspileFailure::Syntax(m)) => Err(LoadError { kind: LoadErrorKind::Syntax, message: m }),
        Err(TranspileFailure::Lowering(m)) => Err(LoadError { kind: LoadErrorKind::Transpile, message: m }),
    }
}

} // verus!
