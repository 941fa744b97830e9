use serde_json::Value;
use deno_typescript::compiler::{
    compile_file_source, compile_root_names, compile_source, compiler_config, require_source,
};

#[test]
fn root_names_end_with_the_core_declarations() {
    let roots = compile_root_names(vec!["/a/main.ts".to_string(), "/a/b.ts".to_string()]);
    assert_eq!(roots, vec!["/a/main.ts", "/a/b.ts", "$asset$/lib.deno_core.d.ts"]);
    assert_eq!(compile_root_names(vec![]), vec!["$asset$/lib.deno_core.d.ts"]);
}

fn options(module: &str, out_file: Option<&str>) -> String {
    let mut o = serde_json::Map::new();
    o.insert("declaration".to_string(), Value::Bool(true));
    o.insert("lib".to_string(), Value::Array(vec![Value::String("esnext".to_string())]));
    o.insert("module".to_string(), Value::String(module.to_string()));
    o.insert("target".to_string(), Value::String("esnext".to_string()));
    o.insert("listFiles".to_string(), Value::Bool(true));
    o.insert("listEmittedFiles".to_string(), Value::Bool(true));
    o.insert("sourceMap".to_string(), Value::Bool(true));
    if let Some(f) = out_file {
        o.insert("outFile".to_string(), Value::String(f.to_string()));
    }
    let mut top = serde_json::Map::new();
    top.insert("compilerOptions".to_string(), Value::Object(o));
    Value::Object(top).to_string()
}

#[test]
fn module_build_config_matches_serde_json() {
    assert_eq!(compiler_config(None), options("esnext", None));
    assert_eq!(
        compiler_config(None),
        "{\"compilerOptions\":{\"declaration\":true,\"lib\":[\"esnext\"],\"listEmittedFiles\":true,\"listFiles\":true,\"module\":\"esnext\",\"sourceMap\":true,\"target\":\"esnext\"}}"
    );
}

#[test]
fn bundle_config_matches_serde_json() {
    let bundle = "/out/CLI \"SNAPSHOT\".js";
    assert_eq!(compiler_config(Some(bundle)), options("amd", Some(bundle)));
}

#[test]
fn compile_source_quotes_the_config_and_lists_the_roots() {
    let config = "{\"a\":1}";
    let roots = vec!["x.ts".to_string(), "$asset$/lib.deno_core.d.ts".to_string()];
    let expected = format!("main({:?}, {})", config, serde_json::to_string(&roots).unwrap());
    assert_eq!(compile_source(config, &roots), expected);
    assert_eq!(compile_source(config, &roots), "main(\"{\\\"a\\\":1}\", [\"x.ts\",\"$asset$/lib.deno_core.d.ts\"])");
}

#[test]
fn compile_file_source_quotes_the_file_name() {
    assert_eq!(compile_file_source("src/bundle.ts"), "main(\"src/bundle.ts\")");
    assert_eq!(compile_file_source("a\"b\\c"), format!("main({:?})", "a\"b\\c"));
}

#[test]
fn require_source_names_the_main_module() {
    assert_eq!(require_source("file:///js/main.ts"), "require('file:///js/main.ts')");
}
