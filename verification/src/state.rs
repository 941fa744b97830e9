//! What the compiler host keeps while the TypeScript compiler runs: the files it
//! wrote, the result of its emit, and the code it exited with.
use vstd::prelude::*;

verus! {

/// A file the compiler asked the host to write.
#[derive(Debug)]
pub struct WrittenFile {
    pub url: String,
    pub module_name: String,
    pub source_code: String,
}

/// A written file, taken by the characters of its fields.
pub struct WrittenFileView {
    pub url: Seq<char>,
    pub module_name: Seq<char>,
    pub source_code: Seq<char>,
}

impl View for WrittenFile {
    type V = WrittenFileView;

    open spec fn view(&self) -> WrittenFileView {
        WrittenFileView { url: self.url@, module_name: self.module_name@, source_code: self.source_code@ }
    }
}

/// The outcome of the compiler's emit, as it reports it.
#[derive(Debug)]
pub struct EmitResult {
    pub emit_skipped: bool,
    pub diagnostics: Vec<String>,
    pub emitted_files: Vec<String>,
}

/// An emit result, taken by the characters of its fields.
pub struct EmitResultView {
    pub emit_skipped: bool,
    pub diagnostics: Seq<Seq<char>>,
    pub emitted_files: Seq<Seq<char>>,
}

impl View for EmitResult {
    type V = EmitResultView;

    open spec fn view(&self) -> EmitResultView {
        EmitResultView {
            emit_skipped: self.emit_skipped,
            diagnostics: self.diagnostics.deep_view(),
            emitted_files: self.emitted_files.deep_view(),
        }
    }
}

/// The host's state during a compilation.
#[derive(Debug)]
pub struct TSState {
    bundle: bool,
    exit_code: i32,
    emit_result: Option<EmitResult>,
    written_files: Vec<WrittenFile>,
}

/// The host's state, taken by the views of its parts.
pub struct TSStateView {
    pub bundle: bool,
    pub exit_code: i32,
    pub emit_result: Option<EmitResultView>,
    pub written_files: Seq<WrittenFileView>,
}

/// An optional emit result, taken by its view.
pub open spec fn emit_view(e: Option<EmitResult>) -> Option<EmitResultView> {
    match e {
        Some(r) => Some(r@),
        None => None,
    }
}

impl View for TSState {
    type V = TSStateView;

    closed spec fn view(&self) -> TSStateView {
        TSStateView {
            bundle: self.bundle,
            exit_code: self.exit_code,
            emit_result: emit_view(self.emit_result),
            written_files: self.written_files@.map_values(|f: WrittenFile| f@),
        }
    }
}

impl TSState {
    /// The state at the start of a compilation: nothing written, no emit result,
    /// exit code 0.
    pub fn new(bundle: bool) -> (s: TSState)
        ensures
            s@.bundle == bundle,
            s@.exit_code == 0,
            s@.emit_result is None,
            s@.written_files == Seq::<WrittenFileView>::empty(),
    {
        let s = TSState { bundle, exit_code: 0, emit_result: None, written_files: Vec::new() };
        assert(s@.written_files =~= Seq::<WrittenFileView>::empty());
        s
    }

    /// Records a file the compiler wrote, after those written before.
    pub fn push_written_file(&mut self, file: WrittenFile)
        ensures
            final(self)@ == (TSStateView {
                written_files: old(self)@.written_files.push(file@),
                ..old(self)@
            }),
    {
        self.written_files.push(file);
        assert(self@.written_files =~= old(self)@.written_files.push(file@));
    }

    /// Records the compiler's emit result, in place of any reported before.
    pub fn set_emit_result(&mut self, emit_result: EmitResult)
        ensures
            final(self)@ == (TSStateView { emit_result: Some(emit_result@), ..old(self)@ }),
    {
        self.emit_result = Some(emit_result);
    }

    /// Records the exit code the compiler reported.
    pub fn set_exit_code(&mut self, code: i32)
        ensures
            final(self)@ == (TSStateView { exit_code: code, ..old(self)@ }),
    {
        self.exit_code = code;
    }

    /// The module name of the file written last: the program's main module.
    pub fn main_module_name(&self) -> (r: &String)
        requires
            self@.written_files.len() > 0,
        ensures
            r@ == self@.written_files.last().module_name,
    {
        let n = self.written_files.len();
        &self.written_files[n - 1].module_name
    }

    /// Whether the compilation writes a single bundle.
    pub fn bundle(&self) -> (r: bool)
        ensures
            r == self@.bundle,
    {
        self.bundle
    }

    /// The exit code the compiler reported, 0 until it reports one.
    pub fn exit_code(&self) -> (r: i32)
        ensures
            r == self@.exit_code,
    {
        self.exit_code
    }

    /// The emit result the compiler reported, if it reported one.
    pub fn emit_result(&self) -> (r: &Option<EmitResult>)
        ensures
            emit_view(*r) == self@.emit_result,
    {
        &self.emit_result
    }

    /// The files written so far, in the order they were written.
    pub fn written_files(&self) -> (r: &Vec<WrittenFile>)
        ensures
            r@.map_values(|f: WrittenFile| f@) == self@.written_files,
    {
        &self.written_files
    }
}

} // verus!
