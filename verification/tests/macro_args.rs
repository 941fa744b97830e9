use deno_typescript::macro_args::{parse_snapshot_args, MacroToken};

fn ident(s: &str) -> MacroToken {
    MacroToken::Ident(s.to_string())
}

fn lit(s: &str) -> MacroToken {
    MacroToken::Str(s.to_string())
}

#[test]
fn parses_a_name_and_file_names() {
    let tokens = vec![ident("TS_SNAPSHOT"), MacroToken::Comma, lit("src/typescript.js"), MacroToken::Comma, lit("src/main.js")];
    let args = parse_snapshot_args(&tokens).ok().unwrap();
    assert_eq!(args.ident, "TS_SNAPSHOT");
    assert_eq!(args.filenames, vec!["src/typescript.js", "src/main.js"]);
    let one = vec![ident("SNAPSHOT"), MacroToken::Comma, lit("src/bundle.ts")];
    assert_eq!(parse_snapshot_args(&one).ok().unwrap().filenames, vec!["src/bundle.ts"]);
}

#[test]
fn reports_where_the_arguments_go_wrong() {
    assert_eq!(parse_snapshot_args(&vec![]).err(), Some(0));
    assert_eq!(parse_snapshot_args(&vec![lit("x")]).err(), Some(0));
    assert_eq!(parse_snapshot_args(&vec![ident("A")]).err(), Some(1));
    assert_eq!(parse_snapshot_args(&vec![ident("A"), MacroToken::Comma]).err(), Some(2));
    assert_eq!(parse_snapshot_args(&vec![ident("A"), MacroToken::Comma, ident("b")]).err(), Some(2));
    let trailing = vec![ident("A"), MacroToken::Comma, lit("a.js"), MacroToken::Comma];
    assert_eq!(parse_snapshot_args(&trailing).err(), Some(4));
    let extra = vec![ident("A"), MacroToken::Comma, lit("a.js"), MacroToken::Other];
    assert_eq!(parse_snapshot_args(&extra).err(), Some(3));
}
