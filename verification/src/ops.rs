//! The operations the TypeScript compiler calls on its host, and the JSON text of
//! the host's replies.
use vstd::prelude::*;

use crate::assets::{asset_file_name, find_asset, is_asset_name, Asset};
use crate::json::{json_string, json_string_array, push_json_string, push_json_string_array};
use crate::resolution::{file_path_of, resolution_of, resolved, url_file_path, Resolution};
use crate::state::{EmitResult, TSState, TSStateView, WrittenFile, WrittenFileView};
use crate::text::{chars_of, has_prefix, matches_at, push_str, replace_all, replace_all_chars, string_of};

verus! {

/// The operations the compiler calls, by the id it calls them with.
#[derive(Clone, Copy, Debug, PartialEq, Eq, Structural)]
pub enum OpKind {
    ReadFile,
    Exit,
    WriteFile,
    ResolveModuleNames,
    SetEmitResult,
}

/// The operation the compiler calls with `op_id`, if any.
pub open spec fn op_kind_of(op_id: u32) -> Option<OpKind> {
    if op_id == 49 {
        Some(OpKind::ReadFile)
    } else if op_id == 50 {
        Some(OpKind::Exit)
    } else if op_id == 51 {
        Some(OpKind::WriteFile)
    } else if op_id == 52 {
        Some(OpKind::ResolveModuleNames)
    } else if op_id == 53 {
        Some(OpKind::SetEmitResult)
    } else {
        None
    }
}

/// The operation the compiler calls with `op_id`; no other id is ever sent.
pub fn op_kind(op_id: u32) -> (r: Option<OpKind>)
    ensures
        r == op_kind_of(op_id),
{
    if op_id == 49 {
        Some(OpKind::ReadFile)
    } else if op_id == 50 {
        Some(OpKind::Exit)
    } else if op_id == 51 {
        Some(OpKind::WriteFile)
    } else if op_id == 52 {
        Some(OpKind::ResolveModuleNames)
    } else if op_id == 53 {
        Some(OpKind::SetEmitResult)
    } else {
        None
    }
}

/// Arguments of the read-file operation.
pub struct ReadFile {
    pub file_name: String,
    pub language_version: Option<i32>,
    pub should_create_new_source_file: bool,
}

/// Arguments of the write-file operation.
pub struct WriteFile {
    pub file_name: String,
    pub data: String,
    pub module_name: String,
}

/// Arguments of the resolve-module-names operation.
pub struct ResolveModuleNames {
    pub module_names: Vec<String>,
    pub containing_file: String,
}

/// Arguments of the exit operation.
pub struct Exit {
    pub code: i32,
}

/// What an operation answers when it succeeds.
pub enum Reply {
    /// `true`.
    Done,
    /// A JSON string.
    Text(String),
    /// A JSON array of strings.
    Names(Vec<String>),
    /// The module name and source code of a file that was read.
    Source { module_name: String, source_code: String },
}

/// The JSON text of a reply.
pub open spec fn reply_json(r: Reply) -> Seq<char> {
    match r {
        Reply::Done => "true"@,
        Reply::Text(t) => json_string(t@),
        Reply::Names(v) => json_string_array(v.deep_view()),
        Reply::Source { module_name, source_code } => "{\"moduleName\":"@ + json_string(
            module_name@,
        ) + ",\"sourceCode\":"@ + json_string(source_code@) + "}"@,
    }
}

/// The JSON text of the answer to an operation: its reply under `ok`, or its error
/// message under `err`.
pub open spec fn response_json(result: Result<Reply, String>) -> Seq<char> {
    match result {
        Ok(v) => "{\"ok\":"@ + reply_json(v) + "}"@,
        Err(e) => "{\"err\":"@ + json_string(e@) + "}"@,
    }
}

/// Appends the JSON text of `reply` to `out`.
fn push_reply(out: &mut Vec<char>, reply: &Reply)
    ensures
        final(out)@ == old(out)@ + reply_json(*reply),
{
    match reply {
        Reply::Done => {
            push_str(out, "true");
        },
        Reply::Text(t) => {
            push_json_string(out, t.as_str());
        },
        Reply::Names(v) => {
            push_json_string_array(out, v);
        },
        Reply::Source { module_name, source_code } => {
            push_str(out, "{\"moduleName\":");
            push_json_string(out, module_name.as_str());
            push_str(out, ",\"sourceCode\":");
            push_json_string(out, source_code.as_str());
            push_str(out, "}");
            assert(out@ =~= old(out)@ + reply_json(*reply));
        },
    }
}

/// The JSON text of the answer to an operation.
pub fn op_response(result: &Result<Reply, String>) -> (r: String)
    ensures
        r@ == response_json(*result),
{
    let mut out: Vec<char> = Vec::new();
    match result {
        Ok(v) => {
            push_str(&mut out, "{\"ok\":");
            push_reply(&mut out, v);
            push_str(&mut out, "}");
        },
        Err(e) => {
            push_str(&mut out, "{\"err\":");
            push_json_string(&mut out, e.as_str());
            push_str(&mut out, "}");
        },
    }
    assert(out@ =~= response_json(*result));
    string_of(out.as_slice())
}

/// The shape of every answer: a success is its reply under `ok` (`true`, a JSON
/// string, or the module name and source code as an object), a failure is its
/// message as a JSON string under `err`.
pub proof fn lemma_response_shapes(t: String, m: String, c: String, e: String)
    ensures
        response_json(Ok(Reply::Done)) == "{\"ok\":true}"@,
        response_json(Ok(Reply::Text(t))) == "{\"ok\":"@ + json_string(t@) + "}"@,
        response_json(Ok(Reply::Source { module_name: m, source_code: c })) == "{\"ok\":{\"moduleName\":"@
            + json_string(m@) + ",\"sourceCode\":"@ + json_string(c@) + "}}"@,
        response_json(Err(e)) == "{\"err\":"@ + json_string(e@) + "}"@,
{
    reveal_strlit("{\"ok\":true}");
    reveal_strlit("{\"ok\":");
    reveal_strlit("true");
    reveal_strlit("}");
    reveal_strlit("}}");
    assert("{\"ok\":"@ + "true"@ + "}"@ =~= "{\"ok\":true}"@);
    reveal_strlit("{\"ok\":{\"moduleName\":");
    reveal_strlit("{\"moduleName\":");
    assert("{\"ok\":"@ + ("{\"moduleName\":"@ + json_string(m@) + ",\"sourceCode\":"@ + json_string(c@)
        + "}"@) + "}"@ =~= "{\"ok\":{\"moduleName\":"@ + json_string(m@) + ",\"sourceCode\":"@
        + json_string(c@) + "}}"@);
}

/// A list of names is always answered as a JSON array under `ok`, whatever its
/// length: the reply opens with `{"ok":[`, then each name as a JSON string, commas
/// between them, then `]}`.
pub proof fn lemma_names_reply_is_array(v: Vec<String>)
    ensures
        response_json(Ok(Reply::Names(v))) == "{\"ok\":"@ + json_string_array(v.deep_view()) + "}"@,
        response_json(Ok(Reply::Names(v))) == "{\"ok\":["@ + crate::json::json_string_items(v.deep_view())
            + "]}"@,
        v.len() == 1 ==> response_json(Ok(Reply::Names(v))) == "{\"ok\":["@ + json_string(v[0]@) + "]}"@,
{
    reveal_strlit("{\"ok\":");
    reveal_strlit("{\"ok\":[");
    reveal_strlit("]}");
    reveal_strlit("}");
    let items = crate::json::json_string_items(v.deep_view());
    assert(json_string_array(v.deep_view()) == seq!['['] + items + seq![']']);
    assert("{\"ok\":"@ + (seq!['['] + items + seq![']']) + "}"@ =~= "{\"ok\":["@ + items + "]}"@);
    if v.len() == 1 {
        assert(v.deep_view()[0] == v[0]@);
    }
}

/// The prefix that marks a request for a bundled asset.
pub open spec fn asset_prefix() -> Seq<char> {
    "$asset$/"@
}

/// A misspelling of the asset prefix that the host refuses.
pub open spec fn misspelled_asset_prefix() -> Seq<char> {
    "$assets$"@
}

/// The module name of an asset request: the file name with every occurrence of the
/// asset prefix removed.
pub open spec fn asset_module_name(file_name: Seq<char>) -> Seq<char> {
    replace_all(file_name, asset_prefix(), seq![])
}

/// File names the host can read: an asset request must name a bundled asset, and
/// any other name must not start with the misspelled asset prefix.
pub open spec fn read_file_accepts(file_name: Seq<char>) -> bool {
    if has_prefix(file_name, asset_prefix()) {
        is_asset_name(asset_module_name(file_name))
    } else {
        !has_prefix(file_name, misspelled_asset_prefix())
    }
}

/// What reading a file takes.
pub enum ReadStep {
    /// Answer with the bundled `asset`, under `module_name`.
    Asset { module_name: String, asset: Asset },
    /// Resolve the file name as a URL or path, then go on with `read_module`.
    Resolve,
}

/// Where a module that is not an asset is read from.
pub enum ModuleRead {
    /// The local file at `path`, which `url` names, answered under that URL.
    File { url: String, path: String },
    /// The resolved `url` names no local file.
    NotAFile { url: String },
    /// Nowhere: the answer is this error.
    Failed { message: String },
}

/// Whether `file_name` starts with the asset prefix.
pub fn is_asset_request(file_name: &str) -> (r: bool)
    ensures
        r == has_prefix(file_name@, asset_prefix()),
{
    let cs = chars_of(file_name);
    let p = chars_of("$asset$/");
    let r = matches_at(cs.as_slice(), p.as_slice(), 0);
    assert(cs@.skip(0) =~= cs@);
    r
}

/// Whether the host can read `file_name` (see `read_file_accepts`).
pub fn read_file_accepted(file_name: &str) -> (r: bool)
    ensures
        r == read_file_accepts(file_name@),
{
    let cs = chars_of(file_name);
    if is_asset_request(file_name) {
        let module_name = asset_module_name_of(file_name);
        find_asset(module_name.as_str()).is_some()
    } else {
        let p = chars_of("$assets$");
        let m = matches_at(cs.as_slice(), p.as_slice(), 0);
        assert(cs@.skip(0) =~= cs@);
        !m
    }
}

/// The module name of an asset request (see `asset_module_name`).
pub fn asset_module_name_of(file_name: &str) -> (r: String)
    ensures
        r@ == asset_module_name(file_name@),
{
    let cs = chars_of(file_name);
    let p = chars_of("$asset$/");
    proof {
        reveal_strlit("$asset$/");
    }
    let empty: Vec<char> = Vec::new();
    let out = replace_all_chars(cs.as_slice(), p.as_slice(), empty.as_slice());
    assert(empty@ =~= Seq::<char>::empty());
    string_of(out.as_slice())
}

/// The read-file operation. An asset request is answered from the bundled assets,
/// under the file name stripped of the asset prefix; any other name must first be
/// resolved as a URL or path.
pub fn read_file(_s: &TSState, v: &ReadFile) -> (r: ReadStep)
    requires
        read_file_accepts(v.file_name@),
    ensures
        has_prefix(v.file_name@, asset_prefix()) ==> (r matches ReadStep::Asset { module_name, asset }
            && module_name@ == asset_module_name(v.file_name@) && asset_file_name(asset)
            == module_name@),
        !has_prefix(v.file_name@, asset_prefix()) ==> r is Resolve,
{
    if is_asset_request(v.file_name.as_str()) {
        let module_name = asset_module_name_of(v.file_name.as_str());
        match find_asset(module_name.as_str()) {
            Some(asset) => ReadStep::Asset { module_name, asset },
            None => {
                proof {
                    assert(false);
                }
                ReadStep::Resolve
            },
        }
    } else {
        ReadStep::Resolve
    }
}

/// Where a module is read from once its file name has been resolved as a URL or
/// path: the local file that the resolved URL names, or nowhere, with the
/// resolution's error.
pub fn read_module(v: &ReadFile, resolution: Resolution) -> (r: ModuleRead)
    requires
        resolution_of(resolution, v.file_name@, None),
    ensures
        match resolved(resolution) {
            Ok(u) => match url_file_path(u) {
                Some(p) => r matches ModuleRead::File { url, path } && url@ == u && path@ == p,
                None => r matches ModuleRead::NotAFile { url } && url@ == u,
            },
            Err(e) => r matches ModuleRead::Failed { message } && message@ == e,
        },
{
    match resolution.result {
        Ok(url) => match file_path_of(url.as_str()) {
            Some(path) => ModuleRead::File { url, path },
            None => ModuleRead::NotAFile { url },
        },
        Err(message) => ModuleRead::Failed { message },
    }
}

/// The state after recording a written file with the given URL.
pub open spec fn with_written_file(
    s: TSStateView,
    url: Seq<char>,
    module_name: Seq<char>,
    data: Seq<char>,
) -> TSStateView {
    TSStateView {
        written_files: s.written_files.push(
            WrittenFileView { url, module_name, source_code: data },
        ),
        ..s
    }
}

/// The write-file operation, given what its file name resolved to as a URL or path:
/// on success the file is recorded under the resolved URL and the answer is `true`;
/// on failure nothing is recorded and the answer is the resolution's error.
pub fn write_file(s: &mut TSState, resolution: Resolution, v: WriteFile) -> (r: Result<
    Reply,
    String,
>)
    requires
        resolution_of(resolution, v.file_name@, None),
    ensures
        match resolved(resolution) {
            Ok(u) => r matches Ok(Reply::Done) && final(s)@ == with_written_file(
                old(s)@,
                u,
                v.module_name@,
                v.data@,
            ),
            Err(e) => r matches Err(m) && m@ == e && final(s)@ == old(s)@,
        },
{
    match resolution.result {
        Ok(url) => {
            s.push_written_file(WrittenFile { url, module_name: v.module_name, source_code: v.data });
            Ok(Reply::Done)
        },
        Err(message) => Err(message),
    }
}

/// The outcome of resolving a list of imports, one result each, in order: every
/// resolved URL, or the error of the first import that did not resolve.
pub open spec fn first_error_or_all(results: Seq<Result<Seq<char>, Seq<char>>>) -> Result<Seq<Seq<char>>, Seq<char>>
    decreases results.len(),
{
    if results.len() == 0 {
        Ok(seq![])
    } else {
        match first_error_or_all(results.drop_last()) {
            Err(e) => Err(e),
            Ok(prefix) => match results.last() {
                Ok(u) => Ok(prefix.push(u)),
                Err(e) => Err(e),
            },
        }
    }
}

/// Once a prefix of the results holds an error, every longer prefix has the same
/// first error.
pub proof fn lemma_first_error_sticks(results: Seq<Result<Seq<char>, Seq<char>>>, i: int, j: int)
    requires
        0 <= i <= j <= results.len(),
        first_error_or_all(results.take(i)) is Err,
    ensures
        first_error_or_all(results.take(j)) == first_error_or_all(results.take(i)),
    decreases j - i,
{
    if j > i {
        lemma_first_error_sticks(results, i, j - 1);
        assert(results.take(j).drop_last() =~= results.take(j - 1));
    }
}

/// What each of a list of resolutions gave, as text.
pub open spec fn resolved_all(v: Seq<Resolution>) -> Seq<Result<Seq<char>, Seq<char>>> {
    v.map_values(|r: Resolution| resolved(r))
}

/// `imports` are the resolutions of `names`, in order, each as an import from the
/// module at `base`.
pub open spec fn imports_of(imports: Seq<Resolution>, names: Seq<Seq<char>>, base: Seq<char>) -> bool {
    imports.len() == names.len() && forall|i: int|
        0 <= i < imports.len() ==> resolution_of(#[trigger] imports[i], names[i], Some(base))
}

/// The answer of resolve-module-names as text: the resolved URLs, or an error.
pub open spec fn names_outcome(r: Result<Reply, String>) -> Option<Result<Seq<Seq<char>>, Seq<char>>> {
    match r {
        Ok(Reply::Names(v)) => Some(Ok(v.deep_view())),
        Err(e) => Some(Err(e@)),
        _ => None,
    }
}

/// The resolve-module-names operation, given what the containing file resolved to
/// as a URL or path and, when it resolved, what each module name resolved to as an
/// import from it: the resolved URLs in order, or the first error.
pub fn resolve_module_names(
    v: &ResolveModuleNames,
    referrer: Resolution,
    imports: Vec<Resolution>,
) -> (r: Result<Reply, String>)
    requires
        resolution_of(referrer, v.containing_file@, None),
        referrer.result matches Ok(base) ==> imports_of(imports@, v.module_names.deep_view(), base@),
    ensures
        names_outcome(r) == Some(
            match resolved(referrer) {
                Err(e) => Err(e),
                Ok(_) => first_error_or_all(resolved_all(imports@)),
            },
        ),
{
    match &referrer.result {
        Err(message) => {
            return Err(message.clone());
        },
        Ok(_) => {},
    }
    let ghost results = resolved_all(imports@);
    let mut urls: Vec<String> = Vec::new();
    let mut i: usize = 0;
    assert(results.take(0) =~= Seq::<Result<Seq<char>, Seq<char>>>::empty());
    assert(urls.deep_view() =~= Seq::<Seq<char>>::empty());
    while i < imports.len()
        invariant
            i <= imports@.len(),
            referrer.result is Ok,
            results == resolved_all(imports@),
            first_error_or_all(results.take(i as int)) == Ok::<Seq<Seq<char>>, Seq<char>>(urls.deep_view()),
        decreases imports@.len() - i,
    {
        proof {
            assert(results.take(i + 1).drop_last() =~= results.take(i as int));
            assert(results.take(i + 1).last() == results[i as int]);
        }
        match &imports[i].result {
            Ok(url) => {
                assert(results[i as int] == Ok::<Seq<char>, Seq<char>>(url@));
                let ghost before = urls.deep_view();
                let u = url.clone();
                urls.push(u);
                assert(urls.deep_view() =~= before.push(url@));
            },
            Err(message) => {
                proof {
                    assert(results[i as int] == Err::<Seq<char>, Seq<char>>(message@));
                    assert(first_error_or_all(results.take(i + 1)) == Err::<Seq<Seq<char>>, Seq<char>>(message@));
                    lemma_first_error_sticks(results, i + 1, results.len() as int);
                    assert(results.take(results.len() as int) =~= results);
                }
                let m = message.clone();
                return Err(m);
            },
        }
        i = i + 1;
    }
    assert(results.take(i as int) =~= results);
    Ok(Reply::Names(urls))
}

/// The set-emit-result operation: records the compiler's emit result and answers
/// `true`.
pub fn set_emit_result(s: &mut TSState, v: EmitResult) -> (r: Result<Reply, String>)
    ensures
        r matches Ok(Reply::Done),
        final(s)@ == (TSStateView { emit_result: Some(v@), ..old(s)@ }),
{
    s.set_emit_result(v);
    Ok(Reply::Done)
}

/// The exit operation: records the compiler's exit code and gives it back for the
/// process to exit with.
pub fn record_exit(s: &mut TSState, v: &Exit) -> (code: i32)
    ensures
        code == v.code,
        final(s)@ == (TSStateView { exit_code: v.code, ..old(s)@ }),
{
    s.set_exit_code(v.code);
    v.code
}

/// The module name of an asset request is the name after the asset prefix, when that
/// name has no further occurrence of the prefix.
pub proof fn lemma_asset_request_name(name: Seq<char>)
    requires
        crate::text::occurs_nowhere(name, asset_prefix()),
    ensures
        has_prefix(asset_prefix() + name, asset_prefix()),
        asset_module_name(asset_prefix() + name) == name,
{
    reveal_strlit("$asset$/");
    assert((asset_prefix() + name).subrange(0, asset_prefix().len() as int) =~= asset_prefix());
    crate::text::lemma_replace_leading(name, asset_prefix(), seq![]);
    assert(Seq::<char>::empty() + name =~= name);
}

/// The file name of a bundled asset never holds the asset prefix.
pub proof fn lemma_asset_name_without_prefix(a: Asset)
    ensures
        crate::text::occurs_nowhere(asset_file_name(a), asset_prefix()),
{
    reveal_strlit("$asset$/");
    crate::assets::lemma_asset_name_has_no_dollar(a);
    let n = asset_file_name(a);
    assert forall|i: int| 0 <= i <= n.len() implies !has_prefix(#[trigger] n.skip(i), asset_prefix()) by {
        if has_prefix(n.skip(i), asset_prefix()) {
            assert(n.skip(i).subrange(0, 8)[0] == asset_prefix()[0]);
            assert(n[i] == '$');
        }
    }
}

/// Every bundled asset can be read under `$asset$/` and its file name, and that
/// request is answered with that asset, under that file name.
pub proof fn lemma_every_asset_readable(a: Asset)
    ensures
        read_file_accepts("$asset$/"@ + asset_file_name(a)),
        asset_module_name("$asset$/"@ + asset_file_name(a)) == asset_file_name(a),
        has_prefix("$asset$/"@ + asset_file_name(a), asset_prefix()),
{
    lemma_asset_name_without_prefix(a);
    lemma_asset_request_name(asset_file_name(a));
}

/// When every result is a success, resolving gives every URL, in order.
pub proof fn lemma_all_resolved(results: Seq<Result<Seq<char>, Seq<char>>>)
    requires
        forall|i: int| 0 <= i < results.len() ==> #[trigger] results[i] is Ok,
    ensures
        first_error_or_all(results) is Ok,
        first_error_or_all(results)->Ok_0.len() == results.len(),
        forall|i: int| 0 <= i < results.len() ==> #[trigger] first_error_or_all(results)->Ok_0[i] == results[i]->Ok_0,
    decreases results.len(),
{
    if results.len() > 0 {
        let p = results.drop_last();
        assert forall|i: int| 0 <= i < p.len() implies #[trigger] p[i] is Ok by {
            assert(p[i] == results[i]);
        }
        lemma_all_resolved(p);
        assert(results.last() == results[results.len() - 1]);
        let out = first_error_or_all(results)->Ok_0;
        assert forall|i: int| 0 <= i < results.len() implies #[trigger] first_error_or_all(results)->Ok_0[i] == results[i]->Ok_0 by {
            if i < p.len() {
                assert(p[i] == results[i]);
            }
        }
    }
}

/// When the results before place `k` are successes and the one at `k` is an error,
/// resolving fails with that error, whatever follows.
pub proof fn lemma_first_failure(results: Seq<Result<Seq<char>, Seq<char>>>, k: int)
    requires
        0 <= k < results.len(),
        forall|i: int| 0 <= i < k ==> #[trigger] results[i] is Ok,
        results[k] is Err,
    ensures
        first_error_or_all(results) == Err::<Seq<Seq<char>>, Seq<char>>(results[k]->Err_0),
{
    let before = results.take(k);
    assert forall|i: int| 0 <= i < before.len() implies #[trigger] before[i] is Ok by {
        assert(before[i] == results[i]);
    }
    lemma_all_resolved(before);
    assert(results.take(k + 1).drop_last() =~= before);
    assert(results.take(k + 1).last() == results[k]);
    lemma_first_error_sticks(results, k + 1, results.len() as int);
    assert(results.take(results.len() as int) =~= results);
}

/// A written file becomes the main module: after a successful write, the state holds
/// one more file, the files before it unchanged, and the last one is the file written.
pub proof fn lemma_last_written_is_main(s: TSStateView, url: Seq<char>, module_name: Seq<char>, data: Seq<char>)
    ensures
        with_written_file(s, url, module_name, data).written_files.len() == s.written_files.len() + 1,
        with_written_file(s, url, module_name, data).written_files.last().module_name == module_name,
        with_written_file(s, url, module_name, data).written_files.last().source_code == data,
        with_written_file(s, url, module_name, data).written_files.take(s.written_files.len() as int) == s.written_files,
        with_written_file(s, url, module_name, data).bundle == s.bundle,
        with_written_file(s, url, module_name, data).exit_code == s.exit_code,
        with_written_file(s, url, module_name, data).emit_result == s.emit_result,
{
    assert(with_written_file(s, url, module_name, data).written_files.take(s.written_files.len() as int) =~= s.written_files);
}

/// The reply that serves a text gives the text back: it is the text as a JSON string
/// under `ok`, and the characters between that string's quotes decode to the text.
pub proof fn lemma_text_reply_decodes(t: String)
    ensures
        response_json(Ok(Reply::Text(t))) == "{\"ok\":"@ + seq!['"'] + crate::json::escaped(t@)
            + seq!['"'] + "}"@,
        crate::json::unescaped(crate::json::escaped(t@)) == Some(t@),
{
    crate::json::lemma_escaped_decodes(t@);
}

} // verus!
