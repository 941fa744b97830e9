//! The text the host hands to the TypeScript compiler and to the runtime: compiler
//! options, the root file list, the calls that start them, and source listings.
use vstd::prelude::*;

use crate::json::{json_string, json_string_array, push_json_string, push_json_string_array};
use crate::text::{
    chars_of, lines, numbered_line, pad_left, decimal, push_all, push_decimal, push_str,
    split_lines, string_of,
};

verus! {

/// The root file the compiler always gets besides those it is asked to compile: the
/// declarations of the deno core.
pub open spec fn core_declarations_root() -> Seq<char> {
    "$asset$/lib.deno_core.d.ts"@
}

/// The root files handed to the compiler: those given, in order, then the core
/// declarations.
pub fn compile_root_names(root_names: Vec<String>) -> (r: Vec<String>)
    ensures
        r.deep_view() == root_names.deep_view().push(core_declarations_root()),
{
    let mut r = root_names;
    let ghost before = r.deep_view();
    let core = String::from_str("$asset$/lib.deno_core.d.ts");
    r.push(core);
    assert(r.deep_view() =~= before.push(core_declarations_root()));
    r
}

/// The compiler options, as serde_json writes them (keys in sorted order): an ES
/// module build, or an AMD build into the single file `out_file`.
pub open spec fn compiler_config_json(out_file: Option<Seq<char>>) -> Seq<char> {
    "{\"compilerOptions\":{\"declaration\":true,\"lib\":[\"esnext\"],\"listEmittedFiles\":true,\"listFiles\":true,\"module\":"@
        + match out_file {
        None => "\"esnext\""@,
        Some(path) => "\"amd\",\"outFile\":"@ + json_string(path),
    } + ",\"sourceMap\":true,\"target\":\"esnext\"}}"@
}

/// The compiler options for an ES module build (`out_file` absent) or for an AMD
/// bundle written to `out_file`.
pub fn compiler_config(out_file: Option<&str>) -> (r: String)
    ensures
        r@ == compiler_config_json(
            match out_file {
                None => None,
                Some(p) => Some(p@),
            },
        ),
{
    let mut out: Vec<char> = Vec::new();
    push_str(
        &mut out,
        "{\"compilerOptions\":{\"declaration\":true,\"lib\":[\"esnext\"],\"listEmittedFiles\":true,\"listFiles\":true,\"module\":",
    );
    match out_file {
        None => {
            push_str(&mut out, "\"esnext\"");
        },
        Some(path) => {
            push_str(&mut out, "\"amd\",\"outFile\":");
            push_json_string(&mut out, path);
        },
    }
    push_str(&mut out, ",\"sourceMap\":true,\"target\":\"esnext\"}}");
    proof {
        let spec_out = match out_file {
            None => None,
            Some(p) => Some(p@),
        };
        assert(out@ =~= compiler_config_json(spec_out));
    }
    string_of(out.as_slice())
}

/// How Rust's `Debug` formatting writes a string slice: quoted, with escapes.
pub uninterp spec fn debug_quoted(s: Seq<char>) -> Seq<char>;

/// std's `Debug` formatting of a string slice, as `format!("{:?}", s)` gives it.
#[verifier::external_body]
fn debug_str(s: &str) -> (r: String)
    ensures
        r@ == debug_quoted(s@),
{
    format!("{:?}", s)
}

/// The script that starts the compiler on a configuration and a list of root files:
/// the configuration text as a quoted string, the roots as a JSON array.
pub open spec fn compile_script(config_json: Seq<char>, root_names: Seq<Seq<char>>) -> Seq<char> {
    "main("@ + debug_quoted(config_json) + ", "@ + json_string_array(root_names) + ")"@
}

/// The script that starts the compiler on a configuration and a list of root files.
pub fn compile_source(config_json: &str, root_names: &Vec<String>) -> (r: String)
    ensures
        r@ == compile_script(config_json@, root_names.deep_view()),
{
    let mut out: Vec<char> = Vec::new();
    push_str(&mut out, "main(");
    let quoted = debug_str(config_json);
    push_str(&mut out, quoted.as_str());
    push_str(&mut out, ", ");
    push_json_string_array(&mut out, root_names);
    push_str(&mut out, ")");
    assert(out@ =~= compile_script(config_json@, root_names.deep_view()));
    string_of(out.as_slice())
}

/// The script that starts the snapshot compiler on one file.
pub open spec fn compile_file_script(filename: Seq<char>) -> Seq<char> {
    "main("@ + debug_quoted(filename) + ")"@
}

/// The script that starts the snapshot compiler on one file.
pub fn compile_file_source(filename: &str) -> (r: String)
    ensures
        r@ == compile_file_script(filename@),
{
    let mut out: Vec<char> = Vec::new();
    push_str(&mut out, "main(");
    let quoted = debug_str(filename);
    push_str(&mut out, quoted.as_str());
    push_str(&mut out, ")");
    assert(out@ =~= compile_file_script(filename@));
    string_of(out.as_slice())
}

/// The script that loads the main module of a bundle.
pub open spec fn require_script(main: Seq<char>) -> Seq<char> {
    "require('"@ + main + "')"@
}

/// The script that loads the main module `main` of a bundle.
pub fn require_source(main: &str) -> (r: String)
    ensures
        r@ == require_script(main@),
{
    let mut out: Vec<char> = Vec::new();
    push_str(&mut out, "require('");
    push_str(&mut out, main);
    push_str(&mut out, "')");
    assert(out@ =~= require_script(main@));
    string_of(out.as_slice())
}

/// A source listing: each line of `code` with its number, counting from 1.
pub fn numbered_listing(code: &str) -> (r: Vec<String>)
    ensures
        r@.len() == lines(code@).len(),
        forall|i: int| 0 <= i < r@.len() ==> #[trigger] r@[i]@ == numbered_line((i + 1) as nat, lines(code@)[i]),
{
    let cs = chars_of(code);
    let ls = split_lines(cs.as_slice());
    let mut out: Vec<String> = Vec::new();
    let mut i: usize = 0;
    while i < ls.len()
        invariant
            i <= ls@.len(),
            ls.deep_view() == lines(code@),
            out@.len() == i,
            forall|j: int| 0 <= j < i ==> #[trigger] out@[j]@ == numbered_line((j + 1) as nat, lines(code@)[j]),
        decreases ls@.len() - i,
    {
        let mut line: Vec<char> = Vec::new();
        let mut number: Vec<char> = Vec::new();
        push_decimal(&mut number, i + 1);
        let mut pad: usize = number.len();
        while pad < 3
            invariant
                number@ == decimal((i + 1) as nat),
                number@.len() <= pad <= 3 || pad == number@.len(),
                line@ == Seq::new((pad - number@.len()) as nat, |k: int| ' '),
            decreases 3 - pad,
        {
            line.push(' ');
            pad = pad + 1;
            assert(line@ =~= Seq::new((pad - number@.len()) as nat, |k: int| ' '));
        }
        push_all(&mut line, number.as_slice());
        proof {
            assert(line@ =~= pad_left(decimal((i + 1) as nat), 3));
        }
        line.push(' ');
        line.push(' ');
        push_all(&mut line, ls[i].as_slice());
        proof {
            assert(ls.deep_view()[i as int] == ls@[i as int]@);
            assert(line@ =~= numbered_line((i + 1) as nat, lines(code@)[i as int]));
        }
        out.push(string_of(line.as_slice()));
        i = i + 1;
    }
    out
}

} // verus!
