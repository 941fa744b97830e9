use deno_typescript::assets::Asset;
use deno_typescript::ops::op_response;
use deno_typescript::ops::Reply;
use deno_typescript::source_file::{source_file_plan, source_op, SourceOp, SourcePlan};

#[test]
fn single_file_compilers_route_their_ops() {
    assert_eq!(source_op(49, false), Some(SourceOp::GetSourceFile));
    assert_eq!(source_op(50, false), None);
    assert_eq!(source_op(49, true), Some(SourceOp::GetSourceFile));
    assert_eq!(source_op(50, true), Some(SourceOp::Exit));
    assert_eq!(source_op(51, true), None);
}

#[test]
fn source_files_come_from_assets_or_disk() {
    match source_file_plan("$asset$/lib.esnext.d.ts") {
        SourcePlan::Asset { name, asset } => {
            assert_eq!(name, "lib.esnext.d.ts");
            assert_eq!(asset, Asset::LibEsnext);
        }
        _ => panic!("expected an asset"),
    }
    match source_file_plan("src/bundle.ts") {
        SourcePlan::File { path } => assert_eq!(path, "src/bundle.ts"),
        _ => panic!("expected a file"),
    }
}

#[test]
fn source_file_reply_is_the_text_under_ok() {
    assert_eq!(op_response(&Ok(Reply::Text("export {};\n".to_string()))), "{\"ok\":\"export {};\\n\"}");
}
