//! The compilation supervisor: plans one run of the external typesetting
//! engine and validates and diagnoses what the run produced.
//!
//! The supervisor is split around its filesystem and process work, which
//! the caller performs. `plan_compile` rejects empty input before anything
//! touches a disk and fixes the workspace file names and the engine's
//! argument list; `evaluate_compile_outcome` turns the captured exit
//! status, output streams and artifact bytes into either a validated
//! artifact or a diagnosis.

use vstd::prelude::*;
use vstd::string::StrSliceExecFns;
use vstd::string::StringExecFns;

use crate::json::append_json_escaped;
use crate::json::spec_json_escape;
use crate::text::is_blank;
use crate::text::push_char;
use crate::text::spec_is_blank;

verus! {

/// Why a compile request never reached the engine.
#[derive(Clone, Copy, PartialEq, Eq, Structural, Debug)]
pub enum WorkspaceErrorKind {
    /// The document source trimmed to nothing; no file was written, no
    /// process spawned.
    EmptyInput,
    /// The workspace directory or source file could not be set up.
    Filesystem,
}

/// A supervisor failure, each variant carrying the message shown to the
/// user.
#[derive(Debug)]
pub enum CompileError {
    /// The request was rejected before or while preparing the workspace.
    Workspace(WorkspaceErrorKind, String),
    /// The engine process could not be started.
    ProcessSpawn(String),
    /// The engine exited nonzero; the message is its full transcript.
    NonZeroExit(String),
    /// The engine exited zero but produced no output file.
    MissingOutput(String),
    /// The engine exited zero but its output lacks the format signature.
    InvalidOutput(String),
}

/// The display text an error carries.
pub open spec fn spec_compile_message(e: CompileError) -> Seq<char> {
    match e {
        CompileError::Workspace(_, m) => m@,
        CompileError::ProcessSpawn(m) => m@,
        CompileError::NonZeroExit(m) => m@,
        CompileError::MissingOutput(m) => m@,
        CompileError::InvalidOutput(m) => m@,
    }
}

impl CompileError {
    /// The human-readable message, whichever variant this is.
    pub fn message(&self) -> (r: &String)
        ensures
            r@ == spec_compile_message(*self),
    {
        match self {
            CompileError::Workspace(_, m) => m,
            CompileError::ProcessSpawn(m) => m,
            CompileError::NonZeroExit(m) => m,
            CompileError::MissingOutput(m) => m,
            CompileError::InvalidOutput(m) => m,
        }
    }
}

/// The message rejecting an empty document.
pub open spec fn spec_empty_input_message() -> Seq<char> {
    "Latex content is empty. Please add some code and try again."@
}

/// Everything the caller needs to run the engine once: the fixed source
/// and output file names inside the workspace, the engine's argument list,
/// and the text to write.
pub struct CompilePlan {
    pub source_name: String,
    pub output_name: String,
    pub args: Vec<String>,
    pub source: String,
}

/// Checks a compile request and fixes the one engine invocation that
/// serves it. A blank document fails here, before any workspace exists;
/// otherwise the plan names the fixed source and output files and the
/// engine's exact argument list, and carries the source text unchanged.
pub fn plan_compile(content: &str) -> (r: Result<CompilePlan, CompileError>)
    ensures
        spec_is_blank(content@) ==> (r matches Err(CompileError::Workspace(k, m))
            && k == WorkspaceErrorKind::EmptyInput && m@ == spec_empty_input_message()),
        !spec_is_blank(content@) ==> (r matches Ok(plan) && {
            &&& plan.source_name@ == "main.tex"@
            &&& plan.output_name@ == "main.pdf"@
            &&& plan.args@.len() == 4
            &&& plan.args@[0]@ == "-X"@
            &&& plan.args@[1]@ == "compile"@
            &&& plan.args@[2]@ == "main.tex"@
            &&& plan.args@[3]@ == "--synctex"@
            &&& plan.source@ == content@
        }),
{
    if is_blank(content) {
        return Err(
            CompileError::Workspace(
                WorkspaceErrorKind::EmptyInput,
                String::from_str("Latex content is empty. Please add some code and try again."),
            ),
        );
    }
    let mut args: Vec<String> = Vec::new();
    args.push(String::from_str("-X"));
    args.push(String::from_str("compile"));
    args.push(String::from_str("main.tex"));
    args.push(String::from_str("--synctex"));
    Ok(
        CompilePlan {
            source_name: String::from_str("main.tex"),
            output_name: String::from_str("main.pdf"),
            args,
            source: String::from_str(content),
        },
    )
}

/// The characters that a byte stream decodes to, read as UTF-8 with every
/// invalid sequence replaced. The decoding depends on the bytes alone; the
/// exact relation is left uninterpreted.
pub uninterp spec fn lossy_decoded(bytes: Seq<u8>) -> Seq<char>;

/// Relies on `String::from_utf8_lossy`: decodes the bytes as UTF-8,
/// replacing each invalid sequence with the replacement character, losing
/// nothing else.
#[verifier::external_body]
fn lossy_utf8(bytes: &Vec<u8>) -> (r: String)
    ensures
        r@ == lossy_decoded(bytes@),
{
    String::from_utf8_lossy(bytes.as_slice()).into_owned()
}

/// The engine transcript reported after a nonzero exit: both captured
/// streams, in full.
pub open spec fn spec_transcript_message(out: Seq<u8>, err: Seq<u8>) -> Seq<char> {
    "STDOUT: "@ + lossy_decoded(out) + "\nSTDERR: "@ + lossy_decoded(err)
}

/// A file name as it appears in a workspace listing: quoted, with quotes
/// and backslashes (and control characters) escaped.
pub open spec fn spec_quoted(name: Seq<char>) -> Seq<char> {
    seq!['"'] + spec_json_escape(name) + seq!['"']
}

/// The comma-separated quoted names from index `i` on.
pub open spec fn spec_listing_join(names: Seq<Seq<char>>, i: int) -> Seq<char>
    decreases names.len() - i,
{
    if i < 0 || i >= names.len() {
        Seq::empty()
    } else if i == names.len() - 1 {
        spec_quoted(names[i])
    } else {
        spec_quoted(names[i]) + ", "@ + spec_listing_join(names, i + 1)
    }
}

/// A bracketed listing of the workspace's file names.
pub open spec fn spec_file_listing(names: Seq<Seq<char>>) -> Seq<char> {
    "["@ + spec_listing_join(names, 0) + "]"@
}

/// The message reported when the engine exited zero but wrote no output
/// file: it enumerates what the workspace actually holds.
pub open spec fn spec_missing_output_message(names: Seq<Seq<char>>) -> Seq<char> {
    "PDF not generated. Files in temp: "@ + spec_file_listing(names)
}

/// The required leading bytes of a valid output file.
pub open spec fn spec_pdf_signature() -> Seq<u8> {
    seq![0x25u8, 0x50u8, 0x44u8, 0x46u8]
}

/// Whether the bytes begin with the output format's magic signature.
pub open spec fn spec_valid_pdf(bytes: Seq<u8>) -> bool {
    bytes.len() >= 4 && bytes.subrange(0, 4) == spec_pdf_signature()
}

/// At most the first fifty bytes of the output, previewed in a diagnostic.
pub open spec fn spec_preview(bytes: Seq<u8>) -> Seq<u8> {
    if bytes.len() <= 50 {
        bytes
    } else {
        bytes.take(50)
    }
}

/// The message reported when the output file lacks the signature.
pub open spec fn spec_invalid_output_message(bytes: Seq<u8>) -> Seq<char> {
    "Generated file is not a valid PDF. Output starts with: "@ + lossy_decoded(
        spec_preview(bytes),
    )
}

fn byte_prefix(b: &Vec<u8>, k: usize) -> (r: Vec<u8>)
    requires
        k <= b@.len(),
    ensures
        r@ == b@.take(k as int),
{
    let mut r: Vec<u8> = Vec::new();
    let mut i: usize = 0;
    while i < k
        invariant
            0 <= i <= k <= b@.len(),
            r@ =~= b@.take(i as int),
        decreases k - i,
    {
        r.push(b[i]);
        assert(r@ =~= b@.take(i + 1));
        i += 1;
    }
    assert(r@ =~= b@.take(k as int));
    r
}

fn transcript_message(stdout: &Vec<u8>, stderr: &Vec<u8>) -> (r: String)
    ensures
        r@ == spec_transcript_message(stdout@, stderr@),
{
    let mut m = String::from_str("STDOUT: ");
    let out_text = lossy_utf8(stdout);
    m.append(out_text.as_str());
    m.append("\nSTDERR: ");
    let err_text = lossy_utf8(stderr);
    m.append(err_text.as_str());
    assert(m@ =~= spec_transcript_message(stdout@, stderr@));
    m
}

/// The views of a list of file names.
pub open spec fn spec_name_views(names: Seq<String>) -> Seq<Seq<char>> {
    names.map_values(|n: String| n@)
}

fn missing_output_message(files: &Vec<String>) -> (r: String)
    ensures
        r@ == spec_missing_output_message(spec_name_views(files@)),
{
    let ghost views = spec_name_views(files@);
    let mut m = String::from_str("PDF not generated. Files in temp: ");
    m.append("[");
    let n = files.len();
    let mut i: usize = 0;
    while i < n
        invariant
            0 <= i <= n,
            n == files@.len(),
            views == spec_name_views(files@),
            m@ + spec_listing_join(views, i as int) == "PDF not generated. Files in temp: "@ + "["@
                + spec_listing_join(views, 0),
        decreases n - i,
    {
        let ghost prev = m@;
        push_char(&mut m, '"');
        append_json_escaped(&mut m, files[i].as_str());
        push_char(&mut m, '"');
        if i + 1 < n {
            m.append(", ");
        }
        proof {
            assert(views[i as int] == files@[i as int]@);
            assert(m@ + spec_listing_join(views, i + 1) =~= prev + spec_listing_join(
                views,
                i as int,
            ));
        }
        i += 1;
    }
    assert(m@ =~= m@ + spec_listing_join(views, n as int));
    m.append("]");
    assert(m@ =~= spec_missing_output_message(views));
    m
}

fn invalid_output_message(bytes: &Vec<u8>) -> (r: String)
    ensures
        r@ == spec_invalid_output_message(bytes@),
{
    let k = if bytes.len() <= 50 {
        bytes.len()
    } else {
        50
    };
    let preview = byte_prefix(bytes, k);
    assert(preview@ =~= spec_preview(bytes@));
    let mut m = String::from_str("Generated file is not a valid PDF. Output starts with: ");
    let text = lossy_utf8(&preview);
    m.append(text.as_str());
    assert(m@ =~= spec_invalid_output_message(bytes@));
    m
}

fn is_valid_pdf(bytes: &Vec<u8>) -> (r: bool)
    ensures
        r == spec_valid_pdf(bytes@),
{
    if bytes.len() < 4 {
        return false;
    }
    let r = bytes[0] == 0x25 && bytes[1] == 0x50 && bytes[2] == 0x44 && bytes[3] == 0x46;
    proof {
        if r {
            assert(bytes@.subrange(0, 4) =~= spec_pdf_signature());
        } else {
            assert(bytes@.subrange(0, 4) != spec_pdf_signature()) by {
                assert(spec_pdf_signature()[0] == 0x25);
                assert(spec_pdf_signature()[1] == 0x50);
                assert(spec_pdf_signature()[2] == 0x44);
                assert(spec_pdf_signature()[3] == 0x46);
                assert(bytes@.subrange(0, 4)[0] == bytes@[0]);
                assert(bytes@.subrange(0, 4)[1] == bytes@[1]);
                assert(bytes@.subrange(0, 4)[2] == bytes@[2]);
                assert(bytes@.subrange(0, 4)[3] == bytes@[3]);
            }
        }
    }
    r
}

/// Judges what one engine run produced. A nonzero exit reports the full
/// transcript; a zero exit with no output file reports the workspace's
/// contents; an output file without the format signature reports a short
/// preview of it; and only an output file carrying the signature is
/// returned, byte for byte as it was read.
pub fn evaluate_compile_outcome(
    exit_success: bool,
    stdout: &Vec<u8>,
    stderr: &Vec<u8>,
    output: Option<Vec<u8>>,
    files: &Vec<String>,
) -> (r: Result<Vec<u8>, CompileError>)
    ensures
        !exit_success ==> (r matches Err(CompileError::NonZeroExit(m)) && m@
            == spec_transcript_message(stdout@, stderr@)),
        exit_success ==> (match output {
            None => r matches Err(CompileError::MissingOutput(m)) && m@
                == spec_missing_output_message(spec_name_views(files@)),
            Some(b) => if spec_valid_pdf(b@) {
                r matches Ok(a) && a@ == b@
            } else {
                r matches Err(CompileError::InvalidOutput(m)) && m@ == spec_invalid_output_message(
                    b@,
                )
            },
        }),
{
    if !exit_success {
        return Err(CompileError::NonZeroExit(transcript_message(stdout, stderr)));
    }
    match output {
        None => Err(CompileError::MissingOutput(missing_output_message(files))),
        Some(b) => {
            if is_valid_pdf(&b) {
                Ok(b)
            } else {
                Err(CompileError::InvalidOutput(invalid_output_message(&b)))
            }
        },
    }
}

} // verus!
