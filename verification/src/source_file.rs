//! The operations of the single-file snapshot compilers: reading a source file,
//! either a bundled ES library declaration or a file on disk, and exiting.
use vstd::prelude::*;

use crate::assets::{asset_file_name, find_asset, is_asset_name, Asset};
use crate::ops::{asset_module_name, asset_module_name_of, asset_prefix, is_asset_request};
use crate::text::has_prefix;

verus! {

/// The operations a single-file snapshot compiler calls.
#[derive(Clone, Copy, Debug, PartialEq, Eq, Structural)]
pub enum SourceOp {
    GetSourceFile,
    Exit,
}

/// The operation called with `op_id`; the exit operation only where the compiler
/// has one.
pub open spec fn source_op_of(op_id: u32, with_exit: bool) -> Option<SourceOp> {
    if op_id == 49 {
        Some(SourceOp::GetSourceFile)
    } else if op_id == 50 && with_exit {
        Some(SourceOp::Exit)
    } else {
        None
    }
}

/// The operation called with `op_id`; no other id is ever sent.
pub fn source_op(op_id: u32, with_exit: bool) -> (r: Option<SourceOp>)
    ensures
        r == source_op_of(op_id, with_exit),
{
    if op_id == 49 {
        Some(SourceOp::GetSourceFile)
    } else if op_id == 50 && with_exit {
        Some(SourceOp::Exit)
    } else {
        None
    }
}

/// Arguments of the get-source-file operation.
pub struct GetSourceFile {
    pub file_name: String,
    pub language_version: i32,
    pub should_create_new_source_file: bool,
}

/// The ES library declarations the single-file compiler carries: every bundled
/// asset but the deno core declarations.
pub open spec fn is_es_library_name(name: Seq<char>) -> bool {
    is_asset_name(name) && name != "lib.deno_core.d.ts"@
}

/// File names the single-file compiler can serve: an asset request must name one of
/// its ES library declarations.
pub open spec fn source_file_accepts(file_name: Seq<char>) -> bool {
    has_prefix(file_name, asset_prefix()) ==> is_es_library_name(asset_module_name(file_name))
}

/// Whether the single-file compiler can serve `file_name` (see
/// `source_file_accepts`).
pub fn source_file_accepted(file_name: &str) -> (r: bool)
    ensures
        r == source_file_accepts(file_name@),
{
    if is_asset_request(file_name) {
        let name = asset_module_name_of(file_name);
        match find_asset(name.as_str()) {
            Some(asset) => {
                proof {
                    crate::assets::lemma_asset_names_distinct(asset, Asset::LibDenoCore);
                }
                match asset {
                    Asset::LibDenoCore => false,
                    _ => true,
                }
            },
            None => false,
        }
    } else {
        true
    }
}

/// The single-file compiler serves every bundled declaration file but the deno core
/// declarations: a request `$asset$/` and an asset's file name is accepted exactly
/// when the asset is not `lib.deno_core.d.ts`.
pub proof fn lemma_es_libraries_served(a: Asset)
    ensures
        source_file_accepts("$asset$/"@ + asset_file_name(a)) <==> a != Asset::LibDenoCore,
{
    crate::ops::lemma_every_asset_readable(a);
    crate::assets::lemma_asset_names_distinct(a, Asset::LibDenoCore);
    assert(is_asset_name(asset_file_name(a)));
}

/// Where the source of a requested file comes from.
pub enum SourcePlan {
    /// The bundled declaration file `asset`, requested under `name`.
    Asset { name: String, asset: Asset },
    /// The file on disk at `path`.
    File { path: String },
}

/// Where the source of `file_name` comes from: an asset request names a bundled
/// declaration (the name with the asset prefix removed); anything else is a path.
pub fn source_file_plan(file_name: &str) -> (r: SourcePlan)
    requires
        source_file_accepts(file_name@),
    ensures
        has_prefix(file_name@, asset_prefix()) ==> (r matches SourcePlan::Asset { name, asset }
            && name@ == asset_module_name(file_name@) && asset_file_name(asset) == name@ && asset
            != Asset::LibDenoCore),
        !has_prefix(file_name@, asset_prefix()) ==> (r matches SourcePlan::File { path } && path@
            == file_name@),
{
    if is_asset_request(file_name) {
        let name = asset_module_name_of(file_name);
        match find_asset(name.as_str()) {
            Some(asset) => {
                proof {
                    if asset == Asset::LibDenoCore {
                        assert(asset_file_name(asset) == "lib.deno_core.d.ts"@);
                    }
                }
                SourcePlan::Asset { name, asset }
            },
            None => {
                proof {
                    assert(false);
                }
                SourcePlan::File { path: name }
            },
        }
    } else {
        SourcePlan::File { path: String::from_str(file_name) }
    }
}

} // verus!
