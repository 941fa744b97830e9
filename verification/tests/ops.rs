use deno_typescript::assets::{find_asset, get_asset, Asset, ASSET_COUNT};
use deno_typescript::ops::{
    op_kind, op_response, read_file, read_file_accepted, read_module, record_exit,
    resolve_module_names, set_emit_result, write_file, Exit, ModuleRead, OpKind, ReadFile,
    ReadStep, Reply, WriteFile,
};
use deno_typescript::resolution::Resolution;
use deno_typescript::ops::ResolveModuleNames;
use deno_typescript::state::{EmitResult, TSState};
use serde_json::Value;

fn resolution(specifier: &str, base: Option<&str>, result: Result<&str, &str>) -> Resolution {
    Resolution {
        specifier: specifier.to_string(),
        base: base.map(|b| b.to_string()),
        result: result.map(|s| s.to_string()).map_err(|e| e.to_string()),
    }
}

fn ok(v: Value) -> String {
    let mut m = serde_json::Map::new();
    m.insert("ok".to_string(), v);
    serde_json::to_string(&Value::Object(m)).unwrap()
}

fn read(name: &str) -> ReadStep {
    let s = TSState::new(false);
    let v = ReadFile { file_name: name.to_string(), language_version: None, should_create_new_source_file: false };
    read_file(&s, &v)
}

#[test]
fn op_ids_select_the_operations() {
    assert_eq!(op_kind(49), Some(OpKind::ReadFile));
    assert_eq!(op_kind(50), Some(OpKind::Exit));
    assert_eq!(op_kind(51), Some(OpKind::WriteFile));
    assert_eq!(op_kind(52), Some(OpKind::ResolveModuleNames));
    assert_eq!(op_kind(53), Some(OpKind::SetEmitResult));
    assert_eq!(op_kind(48), None);
    assert_eq!(op_kind(54), None);
}

#[test]
fn every_asset_is_found_under_its_own_name() {
    for i in 0..ASSET_COUNT {
        let a = Asset::at(i);
        assert_eq!(find_asset(a.file_name()), Some(a));
        assert_eq!(get_asset(a.file_name()), a);
    }
    assert_eq!(get_asset("lib.deno_core.d.ts"), Asset::LibDenoCore);
    assert_eq!(find_asset("lib.es2020.d.ts"), None);
    assert_eq!(find_asset(""), None);
}

#[test]
fn responses_are_compact_json() {
    assert_eq!(op_response(&Ok(Reply::Done)), "{\"ok\":true}");
    assert_eq!(op_response(&Err("bad \"thing\"".to_string())), "{\"err\":\"bad \\\"thing\\\"\"}");
    assert_eq!(op_response(&Ok(Reply::Text("x\ny".to_string()))), "{\"ok\":\"x\\ny\"}");
    assert_eq!(op_response(&Ok(Reply::Names(vec![]))), "{\"ok\":[]}");
    assert_eq!(
        op_response(&Ok(Reply::Names(vec!["a".to_string(), "b\"".to_string()]))),
        "{\"ok\":[\"a\",\"b\\\"\"]}"
    );
    let source = Reply::Source { module_name: "m".to_string(), source_code: "let x = \"1\";".to_string() };
    assert_eq!(op_response(&Ok(source)), "{\"ok\":{\"moduleName\":\"m\",\"sourceCode\":\"let x = \\\"1\\\";\"}}");
}

#[test]
fn responses_match_serde_json() {
    let reply = Reply::Names(vec!["a\u{2}".to_string(), "ü".to_string()]);
    let expected = ok(Value::Array(vec![Value::String("a\u{2}".to_string()), Value::String("ü".to_string())]));
    assert_eq!(op_response(&Ok(reply)), expected);
    let source = Reply::Source { module_name: "file:///a.ts".to_string(), source_code: "\t//\r".to_string() };
    let mut m = serde_json::Map::new();
    m.insert("moduleName".to_string(), Value::String("file:///a.ts".to_string()));
    m.insert("sourceCode".to_string(), Value::String("\t//\r".to_string()));
    let expected = ok(Value::Object(m));
    assert_eq!(op_response(&Ok(source)), expected);
}

#[test]
fn read_file_serves_assets_under_their_bare_name() {
    match read("$asset$/lib.es2015.core.d.ts") {
        ReadStep::Asset { module_name, asset } => {
            assert_eq!(module_name, "lib.es2015.core.d.ts");
            assert_eq!(asset, Asset::LibEs2015Core);
        }
        _ => panic!("expected an asset"),
    }
}

#[test]
fn read_file_resolves_other_names_first() {
    assert!(matches!(read("file:///src/main.ts"), ReadStep::Resolve));
    assert!(matches!(read("src/main.ts"), ReadStep::Resolve));
    let v = ReadFile { file_name: "file:///src/main.ts".to_string(), language_version: Some(99), should_create_new_source_file: false };
    match read_module(&v, resolution("file:///src/main.ts", None, Ok("file:///src/main.ts"))) {
        ModuleRead::File { url, path } => {
            assert_eq!(url, "file:///src/main.ts");
            assert_eq!(path, "/src/main.ts");
        }
        _ => panic!("expected a file"),
    }
    let v = ReadFile { file_name: "http://".to_string(), language_version: None, should_create_new_source_file: false };
    match read_module(&v, resolution("http://", None, Err("invalid URL: empty host"))) {
        ModuleRead::Failed { message } => assert_eq!(message, "invalid URL: empty host"),
        _ => panic!("expected a failure"),
    }
}

#[test]
fn read_module_decodes_the_file_path() {
    let v = ReadFile { file_name: "a b.ts".to_string(), language_version: None, should_create_new_source_file: false };
    match read_module(&v, resolution("a b.ts", None, Ok("file:///home/u/a%20b.ts"))) {
        ModuleRead::File { url, path } => {
            assert_eq!(url, "file:///home/u/a%20b.ts");
            assert_eq!(path, "/home/u/a b.ts");
        }
        _ => panic!("expected a file"),
    }
}

#[test]
fn read_module_refuses_a_url_that_names_no_local_file() {
    let v = ReadFile { file_name: "https://example.com/m.ts".to_string(), language_version: None, should_create_new_source_file: false };
    match read_module(&v, resolution("https://example.com/m.ts", None, Ok("https://example.com/m.ts"))) {
        ModuleRead::NotAFile { url } => assert_eq!(url, "https://example.com/m.ts"),
        _ => panic!("expected no local file"),
    }
}

#[test]
fn read_file_refuses_misspelled_and_unknown_assets() {
    assert!(!read_file_accepted("$assets$/lib.es5.d.ts"));
    assert!(!read_file_accepted("$asset$/lib.unknown.d.ts"));
    assert!(read_file_accepted("$asset$/lib.es5.d.ts"));
    assert!(read_file_accepted("file:///x.ts"));
}

#[test]
fn write_file_records_the_resolved_url() {
    let mut s = TSState::new(false);
    let v = WriteFile {
        file_name: "out/main.js".to_string(),
        data: "console.log(1)".to_string(),
        module_name: "file:///src/main.ts".to_string(),
    };
    let r = write_file(&mut s, resolution("out/main.js", None, Ok("file:///work/out/main.js")), v);
    assert!(matches!(r, Ok(Reply::Done)));
    assert_eq!(op_response(&r), "{\"ok\":true}");
    assert_eq!(s.written_files().len(), 1);
    let f = &s.written_files()[0];
    assert_eq!(f.url, "file:///work/out/main.js");
    assert_eq!(f.module_name, "file:///src/main.ts");
    assert_eq!(f.source_code, "console.log(1)");
    assert_eq!(s.main_module_name(), "file:///src/main.ts");
}

#[test]
fn write_file_with_a_bad_url_records_nothing() {
    let mut s = TSState::new(false);
    let v = WriteFile { file_name: "http://[oops".to_string(), data: String::new(), module_name: "m".to_string() };
    let res = resolution("http://[oops", None, Err("invalid URL: invalid IPv6 address"));
    match write_file(&mut s, res, v) {
        Err(message) => assert_eq!(message, "invalid URL: invalid IPv6 address"),
        Ok(_) => panic!("expected an error"),
    }
    assert!(s.written_files().is_empty());
}

fn names_request(names: &[&str], containing_file: &str) -> ResolveModuleNames {
    ResolveModuleNames {
        module_names: names.iter().map(|n| n.to_string()).collect(),
        containing_file: containing_file.to_string(),
    }
}

#[test]
fn resolve_module_names_lists_the_resolved_urls() {
    let v = names_request(&["./b.ts", "https://x.org/e.ts"], "/p/q/a.ts");
    let referrer = resolution("/p/q/a.ts", None, Ok("file:///p/q/a.ts"));
    let imports = vec![
        resolution("./b.ts", Some("file:///p/q/a.ts"), Ok("file:///p/q/b.ts")),
        resolution("https://x.org/e.ts", Some("file:///p/q/a.ts"), Ok("https://x.org/e.ts")),
    ];
    match resolve_module_names(&v, referrer, imports) {
        Ok(Reply::Names(names)) => assert_eq!(names, vec!["file:///p/q/b.ts", "https://x.org/e.ts"]),
        _ => panic!("expected names"),
    }
    let empty = names_request(&[], "file:///a.ts");
    let r = resolve_module_names(&empty, resolution("file:///a.ts", None, Ok("file:///a.ts")), vec![]);
    assert!(matches!(r, Ok(Reply::Names(n)) if n.is_empty()));
}

#[test]
fn resolve_module_names_answers_the_first_error() {
    let v = names_request(&["./ok.ts", "bare", "other"], "file:///p/a.ts");
    let base = "file:///p/a.ts";
    let imports = vec![
        resolution("./ok.ts", Some(base), Ok("file:///p/ok.ts")),
        resolution("bare", Some(base), Err("first")),
        resolution("other", Some(base), Err("second")),
    ];
    let r = resolve_module_names(&v, resolution("file:///p/a.ts", None, Ok(base)), imports);
    assert!(matches!(r, Err(m) if m == "first"));
    let r = resolve_module_names(&v, resolution("file:///p/a.ts", None, Err("bad referrer")), vec![]);
    assert!(matches!(r, Err(m) if m == "bad referrer"));
}

#[test]
fn emit_result_and_exit_code_are_recorded() {
    let mut s = TSState::new(true);
    assert!(s.bundle());
    assert_eq!(s.exit_code(), 0);
    assert!(s.emit_result().is_none());
    let e = EmitResult { emit_skipped: false, diagnostics: vec!["d".to_string()], emitted_files: vec![] };
    assert!(matches!(set_emit_result(&mut s, e), Ok(Reply::Done)));
    let e2 = EmitResult { emit_skipped: true, diagnostics: vec![], emitted_files: vec!["f.js".to_string()] };
    set_emit_result(&mut s, e2);
    let recorded = s.emit_result().as_ref().unwrap();
    assert!(recorded.emit_skipped);
    assert_eq!(recorded.emitted_files, vec!["f.js"]);
    assert_eq!(record_exit(&mut s, &Exit { code: 3 }), 3);
    assert_eq!(s.exit_code(), 3);
}

#[test]
fn text_reply_decodes_back_to_the_text() {
    for text in ["", "plain", "q\"b\\s/", "\u{0}\u{1f}\t\n\r\u{8}\u{c}", "ünïcødé €", "\u{7f}"] {
        let reply = op_response(&Ok(Reply::Text(text.to_string())));
        let decoded: Value = serde_json::from_str(&reply).unwrap();
        let mut m = serde_json::Map::new();
        m.insert("ok".to_string(), Value::String(text.to_string()));
        assert_eq!(decoded, Value::Object(m));
    }
}
