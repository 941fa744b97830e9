use deno_typescript::ops::{write_file, WriteFile};
use deno_typescript::resolution::Resolution;
use deno_typescript::snapshot::{modules_to_load, ModuleRegistry, Unresolved};
use deno_typescript::state::TSState;

fn written(files: &[(&str, &str)]) -> TSState {
    let mut s = TSState::new(false);
    for (url, name) in files {
        let v = WriteFile { file_name: url.to_string(), data: format!("// {}", name), module_name: name.to_string() };
        let res = Resolution { specifier: url.to_string(), base: None, result: Ok(url.to_string()) };
        assert!(write_file(&mut s, res, v).is_ok());
    }
    s
}

#[test]
fn only_js_files_become_modules_and_the_last_written_is_main() {
    let s = written(&[
        ("file:///o/a.js", "file:///s/a.ts"),
        ("file:///o/a.js.map", "file:///s/a.ts"),
        ("file:///o/a.d.ts", "file:///s/a.ts"),
        ("file:///o/flatbuffers/flatbuffers.js", "file:///s/flatbuffers/flatbuffers.ts"),
        ("file:///o/main.js", "file:///s/main.ts"),
    ]);
    let loads = modules_to_load(&s);
    let seen: Vec<(usize, bool, bool)> = loads.iter().map(|m| (m.index, m.is_main, m.print_source)).collect();
    assert_eq!(seen, vec![(0, false, false), (3, false, true), (4, true, false)]);
}

#[test]
fn registry_reads_back_what_was_registered() {
    let mut r = ModuleRegistry::new();
    assert_eq!(r.id_of("file:///s/a.ts"), None);
    assert_eq!(r.name_of(7), None);
    r.register("file:///s/a.ts".to_string(), 7);
    r.register("file:///s/main.ts".to_string(), 9);
    assert_eq!(r.id_of("file:///s/a.ts"), Some(7));
    assert_eq!(r.id_of("file:///s/main.ts"), Some(9));
    assert_eq!(r.name_of(9).map(|s| s.as_str()), Some("file:///s/main.ts"));
    r.register("file:///s/a.ts".to_string(), 11);
    assert_eq!(r.id_of("file:///s/a.ts"), Some(11));
    let mut ids = r.module_ids();
    ids.sort();
    assert_eq!(ids, vec![9, 11]);
}

fn import(specifier: &str, base: &str, result: Result<&str, &str>) -> Resolution {
    Resolution {
        specifier: specifier.to_string(),
        base: Some(base.to_string()),
        result: result.map(|s| s.to_string()).map_err(|e| e.to_string()),
    }
}

#[test]
fn imports_resolve_to_registered_modules() {
    let mut r = ModuleRegistry::new();
    r.register("file:///s/main.ts".to_string(), 1);
    r.register("file:///s/lib/util.ts".to_string(), 2);
    let main = "file:///s/main.ts";
    let util = "file:///s/lib/util.ts";
    assert!(matches!(r.resolve("./lib/util.ts", 1, import("./lib/util.ts", main, Ok(util))), Ok(2)));
    assert!(matches!(r.resolve("../main.ts", 2, import("../main.ts", util, Ok(main))), Ok(1)));
    let missing = r.resolve("./missing.ts", 1, import("./missing.ts", main, Ok("file:///s/missing.ts")));
    assert!(matches!(missing, Err(Unresolved::NotLoaded(u)) if u == "file:///s/missing.ts"));
    let bad = r.resolve("util.ts", 1, import("util.ts", main, Err("no prefix")));
    assert!(matches!(bad, Err(Unresolved::Import(m)) if m == "no prefix"));
}
