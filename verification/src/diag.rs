//! Error codes and diagnostics, with the exit status each code stands for.
use vstd::prelude::*;
use crate::text::push_str;

verus! {

/// The class of an error, which also fixes the program's exit status.
#[derive(Clone, Copy, Debug, PartialEq, Eq, Structural)]
pub enum ErrorCode {
    NoError,
    OutOfMemory,
    Syntax,
    Usage,
    File,
    System,
    CpuLimit,
    ResourceOut,
    IncompleteProofState,
    Other,
    InputSemantic,
    Interface,
}

impl ErrorCode {
    pub const NO_ERROR: ErrorCode = ErrorCode::NoError;
    pub const OUT_OF_MEMORY: ErrorCode = ErrorCode::OutOfMemory;
    pub const SYNTAX_ERROR: ErrorCode = ErrorCode::Syntax;
    pub const USAGE_ERROR: ErrorCode = ErrorCode::Usage;
    pub const FILE_ERROR: ErrorCode = ErrorCode::File;
    pub const SYSTEM_ERROR: ErrorCode = ErrorCode::System;
    pub const CPU_LIMIT_ERROR: ErrorCode = ErrorCode::CpuLimit;
    pub const RESOURCE_OUT: ErrorCode = ErrorCode::ResourceOut;
    pub const INCOMPLETE_PROOFSTATE: ErrorCode = ErrorCode::IncompleteProofState;
    pub const OTHER_ERROR: ErrorCode = ErrorCode::Other;
    pub const INPUT_SEMANTIC_ERROR: ErrorCode = ErrorCode::InputSemantic;
    pub const INTERFACE_ERROR: ErrorCode = ErrorCode::Interface;

    /// The process exit status of this code.
    pub open spec fn status_of(self) -> u8 {
        match self {
            ErrorCode::NoError => 0,
            ErrorCode::OutOfMemory => 1,
            ErrorCode::Syntax => 2,
            ErrorCode::Usage => 3,
            ErrorCode::File => 4,
            ErrorCode::System => 5,
            ErrorCode::CpuLimit => 6,
            ErrorCode::ResourceOut => 7,
            ErrorCode::IncompleteProofState => 8,
            ErrorCode::Other => 9,
            ErrorCode::InputSemantic => 10,
            ErrorCode::Interface => 11,
        }
    }

    /// The process exit status of this code.
    pub fn exit_status(self) -> (s: u8)
        ensures
            s == self.status_of(),
    {
        match self {
            ErrorCode::NoError => 0,
            ErrorCode::OutOfMemory => 1,
            ErrorCode::Syntax => 2,
            ErrorCode::Usage => 3,
            ErrorCode::File => 4,
            ErrorCode::System => 5,
            ErrorCode::CpuLimit => 6,
            ErrorCode::ResourceOut => 7,
            ErrorCode::IncompleteProofState => 8,
            ErrorCode::Other => 9,
            ErrorCode::InputSemantic => 10,
            ErrorCode::Interface => 11,
        }
    }
}

/// An error: its class and the message shown to the user.
#[derive(Debug)]
pub struct Diagnostic {
    pub code: ErrorCode,
    pub message: String,
}

impl Diagnostic {
    /// A diagnostic with the given code and message.
    pub fn new(code: ErrorCode, message: String) -> (d: Diagnostic)
        ensures
            d.code == code,
            d.message@ == message@,
    {
        Diagnostic { code, message }
    }

    /// The diagnostic's code.
    pub fn code(&self) -> (c: ErrorCode)
        ensures
            c == self.code,
    {
        self.code
    }

    /// The diagnostic's message.
    pub fn message(&self) -> (m: &str)
        ensures
            m@ == self.message@,
    {
        self.message.as_str()
    }

    /// The warning line that a program prints for this diagnostic:
    /// `<program>: Warning: <message>` and a newline.
    pub fn render_warning(&self, program: &str) -> (s: String)
        ensures
            s@ == warning_text(program@, self.message@),
    {
        let mut s = String::new();
        push_str(&mut s, program);
        push_str(&mut s, ": Warning: ");
        push_str(&mut s, self.message.as_str());
        push_str(&mut s, "\n");
        s
    }
}

/// The text of a warning line.
pub open spec fn warning_text(program: Seq<char>, message: Seq<char>) -> Seq<char> {
    program + ": Warning: "@ + message + "\n"@
}

/// A diagnostic with the given code and a message taken from a string slice.
pub fn diag(code: ErrorCode, message: &str) -> (d: Diagnostic)
    ensures
        d.code == code,
        d.message@ == message@,
{
    Diagnostic { code, message: String::from_str(message) }
}

} // verus!
