//! The errors that running git can end in, and the text shown for them.
use vstd::prelude::*;
use vstd::utf8::{decode_utf8, valid_utf8};

verus! {

/// The kinds of I/O failure the library tells apart.
#[derive(Debug, Clone, Copy, PartialEq, Eq)]
pub enum IoErrorKind {
    NotFound,
    InvalidData,
    Other,
}

/// An I/O failure: its kind and the text that describes it.
#[derive(Debug, PartialEq, Eq)]
pub struct IoError {
    pub kind: IoErrorKind,
    pub message: String,
}

/// What a finished process left behind.
#[derive(Debug, PartialEq, Eq)]
pub struct ProcessOutput {
    /// The process exited successfully.
    pub success: bool,
    /// How the exit status reads as text.
    pub status: String,
    pub stdout: Vec<u8>,
    pub stderr: Vec<u8>,
}

/// A git process that ran and failed, with the command line that started it.
#[derive(Debug, PartialEq, Eq)]
pub struct ProcessError {
    pub output: ProcessOutput,
    pub command: Vec<String>,
}

/// The errors of running git.
#[derive(Debug, PartialEq, Eq)]
pub enum Error {
    Io(IoError),
    Process(ProcessError),
}

impl From<IoError> for Error {
    fn from(e: IoError) -> (res: Self)
        ensures
            res == Error::Io(e),
    {
        Error::Io(e)
    }
}

impl vstd::std_specs::convert::FromSpecImpl<IoError> for Error {
    open spec fn obeys_from_spec() -> bool {
        true
    }

    open spec fn from_spec(v: IoError) -> Self {
        Error::Io(v)
    }
}

/// The text of each string of a list.
pub open spec fn views(v: Seq<String>) -> Seq<Seq<char>> {
    v.map_values(|s: String| s@)
}

/// What `{:?}` prints for a list of strings.
pub uninterp spec fn debug_string_list(items: Seq<Seq<char>>) -> Seq<char>;

/// What `String::from_utf8_lossy` gives for some bytes.
pub uninterp spec fn utf8_lossy(bytes: Seq<u8>) -> Seq<char>;

/// The text of an error.
pub open spec fn error_text(e: Error) -> Seq<char> {
    match e {
        Error::Io(io) => io.message@,
        Error::Process(p) => "process exited with exit code "@ + p.output.status@
            + "\nCommand: "@ + debug_string_list(views(p.command@)) + "\nStdout: "@
            + utf8_lossy(p.output.stdout@) + "\nStderr: "@ + utf8_lossy(p.output.stderr@)
            + "\n"@,
    }
}

/// `format!("{:?}", items)` for a list of strings: the result is a function
/// of the strings alone.
#[verifier::external_body]
fn debug_format_list(items: &Vec<String>) -> (res: String)
    ensures
        res@ == debug_string_list(views(items@)),
{
    format!("{:?}", items)
}

/// `String::from_utf8_lossy`: a function of the bytes alone, which on valid
/// UTF-8 is the decoding of the bytes (what it puts in place of invalid
/// sequences is left to the name).
#[verifier::external_body]
fn from_utf8_lossy(bytes: &[u8]) -> (res: String)
    ensures
        res@ == utf8_lossy(bytes@),
        valid_utf8(bytes@) ==> res@ == decode_utf8(bytes@),
{
    String::from_utf8_lossy(bytes).into_owned()
}

/// A copy of a string.
pub fn copy_string(s: &String) -> (res: String)
    ensures
        res@ == s@,
{
    s.clone()
}

impl Error {
    /// The text shown for the error.
    pub fn message(&self) -> (text: String)
        ensures
            text@ == error_text(*self),
    {
        match self {
            Error::Io(io) => copy_string(&io.message),
            Error::Process(p) => {
                let mut t = String::from_str("process exited with exit code ");
                t.append(p.output.status.as_str());
                t.append("\nCommand: ");
                let cmd = debug_format_list(&p.command);
                t.append(cmd.as_str());
                t.append("\nStdout: ");
                let out = from_utf8_lossy(p.output.stdout.as_slice());
                t.append(out.as_str());
                t.append("\nStderr: ");
                let err = from_utf8_lossy(p.output.stderr.as_slice());
                t.append(err.as_str());
                t.append("\n");
                t
            },
        }
    }

    /// The error is an I/O failure (not a failed git process).
    pub fn is_io(&self) -> (res: bool)
        ensures
            res == (*self is Io),
    {
        match self {
            Error::Io(_) => true,
            Error::Process(_) => false,
        }
    }
}

/// An I/O error of the given kind with a fixed text.
pub fn io_error(kind: IoErrorKind, message: &str) -> (e: Error)
    ensures
        e is Io,
        e->Io_0.kind == kind,
        e->Io_0.message@ == message@,
{
    Error::Io(IoError { kind, message: String::from_str(message) })
}

} // verus!
