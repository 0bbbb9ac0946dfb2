use deno_ast::MediaType;
use runjs::dialect::{classify, ModuleKind, Treatment};
use runjs::loader::{finish_load, plan_load, LoadErrorKind};

fn code(transpile: bool) -> Option<Treatment> {
    Some(Treatment { kind: ModuleKind::Code, transpile })
}

#[test]
fn classify_plain_javascript_needs_no_lowering() {
    assert_eq!(classify(MediaType::JavaScript), code(false));
    assert_eq!(classify(MediaType::Mjs), code(false));
    assert_eq!(classify(MediaType::Cjs), code(false));
}

#[test]
fn classify_jsx_and_typescript_family_are_lowered() {
    for m in [
        MediaType::Jsx,
        MediaType::TypeScript,
        MediaType::Mts,
        MediaType::Cts,
        MediaType::Dts,
        MediaType::Dmts,
        MediaType::Dcts,
        MediaType::Tsx,
    ] {
        assert_eq!(classify(m), code(true));
    }
}

#[test]
fn classify_json_is_data() {
    assert_eq!(classify(MediaType::Json), Some(Treatment { kind: ModuleKind::Data, transpile: false }));
}

#[test]
fn classify_other_media_types_is_refused() {
    for m in [MediaType::Wasm, MediaType::TsBuildInfo, MediaType::SourceMap, MediaType::Unknown] {
        assert_eq!(classify(m), None);
    }
}

#[test]
fn plan_python_file_is_unsupported_dialect() {
    let e = plan_load("file:///tmp/app.py").unwrap_err();
    assert_eq!(e.kind, LoadErrorKind::UnsupportedDialect);
    assert_eq!(e.message, "/tmp/app.py");
}

#[test]
fn plan_non_file_specifier_is_not_found() {
    let e = plan_load("https://example.com/mod.ts").unwrap_err();
    assert_eq!(e.kind, LoadErrorKind::NotFound);
    assert_eq!(e.message, "https://example.com/mod.ts");
}

#[test]
fn plan_malformed_specifier_is_not_found() {
    let e = plan_load("not a url").unwrap_err();
    assert_eq!(e.kind, LoadErrorKind::NotFound);
}

#[test]
fn plan_typescript_file() {
    let plan = plan_load("file:///tmp/app.ts").unwrap();
    assert_eq!(plan.path, "/tmp/app.ts");
    assert_eq!(plan.specifier, "file:///tmp/app.ts");
    assert_eq!(plan.media_type, MediaType::TypeScript);
    assert_eq!(plan.treatment, code(true).unwrap());
}

#[test]
fn plan_declaration_file() {
    let plan = plan_load("file:///tmp/types.d.ts").unwrap();
    assert_eq!(plan.media_type, MediaType::Dts);
    assert_eq!(plan.treatment, code(true).unwrap());
}

#[test]
fn plan_json_file_is_data() {
    let plan = plan_load("file:///tmp/data.json").unwrap();
    assert_eq!(plan.treatment, Treatment { kind: ModuleKind::Data, transpile: false });
}

#[test]
fn typescript_entry_is_lowered_without_annotations() {
    let plan = plan_load("file:///tmp/app.ts").unwrap();
    let m = finish_load(plan, Ok("const x: number = 1; console.log(x)".to_string())).unwrap();
    assert!(m.transpiled);
    assert_eq!(m.kind, ModuleKind::Code);
    assert_eq!(m.specifier, "file:///tmp/app.ts");
    assert!(!m.source.contains(": number"));
    assert!(m.source.contains("const x = 1"));
    assert!(m.source.contains("console.log(x)"));
}

#[test]
fn jsx_is_lowered_to_calls() {
    let plan = plan_load("file:///tmp/view.jsx").unwrap();
    let m = finish_load(plan, Ok("const v = <div>hi</div>;".to_string())).unwrap();
    assert!(m.transpiled);
    assert!(!m.source.contains("<div>"));
}

#[test]
fn plain_javascript_is_handed_over_unchanged() {
    let text = "const x  =  1 ;console.log( x )".to_string();
    let plan = plan_load("file:///tmp/app.js").unwrap();
    let m = finish_load(plan, Ok(text.clone())).unwrap();
    assert!(!m.transpiled);
    assert_eq!(m.source, text);
    assert_eq!(m.kind, ModuleKind::Code);
}

#[test]
fn json_is_handed_over_as_data() {
    let plan = plan_load("file:///tmp/data.json").unwrap();
    let m = finish_load(plan, Ok("{\"a\": 1}".to_string())).unwrap();
    assert_eq!(m.kind, ModuleKind::Data);
    assert_eq!(m.source, "{\"a\": 1}");
    assert!(!m.transpiled);
}

#[test]
fn read_failure_is_io_error() {
    let plan = plan_load("file:///tmp/missing.ts").unwrap();
    let e = finish_load(plan, Err("No such file or directory".to_string())).unwrap_err();
    assert_eq!(e.kind, LoadErrorKind::Io);
    assert_eq!(e.message, "No such file or directory");
}

#[test]
fn unparsable_typescript_is_syntax_error() {
    let plan = plan_load("file:///tmp/bad.ts").unwrap();
    let e = finish_load(plan, Ok("const = ;".to_string())).unwrap_err();
    assert_eq!(e.kind, LoadErrorKind::Syntax);
}

#[test]
fn same_extension_same_kind_whatever_the_content() {
    let a = finish_load(plan_load("file:///tmp/a.ts").unwrap(), Ok("export const a = 1;".to_string())).unwrap();
    let b = finish_load(plan_load("file:///tmp/b.ts").unwrap(), Ok("let s: string = 'x';".to_string())).unwrap();
    assert_eq!(a.kind, b.kind);
    assert_eq!(a.transpiled, b.transpiled);
}

#[test]
fn repeated_load_keeps_module_kind() {
    let first = finish_load(plan_load("file:///tmp/data.json").unwrap(), Ok("1".to_string())).unwrap();
    let second = finish_load(plan_load("file:///tmp/data.json").unwrap(), Ok("2".to_string())).unwrap();
    assert_eq!(first.kind, ModuleKind::Data);
    assert_eq!(first.kind, second.kind);
}
