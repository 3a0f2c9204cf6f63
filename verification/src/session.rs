//! What a run of a tool reads and produces: the standard streams as text,
//! the verbosity and output levels that the options set, and the final
//! close of the output stream.
use vstd::prelude::*;
use crate::diag::{Diagnostic, ErrorCode};
use crate::text::{copy_string, push_str};

verus! {

/// The message for an output stream that reports an error when closed.
pub const OUTPUT_CLOSE_ERROR: &'static str = "Output stream to be closed reports error (probably broken pipe, file system full or quota exceeded)";

/// The settings and streams that a run shares between its stages: the
/// verbosity (technical remarks on stderr), the output level, and the text
/// written to standard output and standard error so far.
pub struct Session {
    pub verbose: i64,
    pub output_level: i64,
    pub stdout: String,
    pub stderr: String,
}

/// The view of a session.
pub struct SessionView {
    pub verbose: i64,
    pub output_level: i64,
    pub stdout: Seq<char>,
    pub stderr: Seq<char>,
}

impl Session {
    pub open spec fn view(&self) -> SessionView {
        SessionView {
            verbose: self.verbose,
            output_level: self.output_level,
            stdout: self.stdout@,
            stderr: self.stderr@,
        }
    }

    /// A session with the given levels and empty streams.
    pub fn new(verbose: i64, output_level: i64) -> (s: Session)
        ensures
            s.view() == (SessionView { verbose, output_level, stdout: Seq::empty(), stderr: Seq::empty() }),
    {
        Session { verbose, output_level, stdout: String::new(), stderr: String::new() }
    }
}

/// A level given as a C `long`, stored in an `int` the way C converts it:
/// saturated at the bounds of a 32-bit integer.
pub open spec fn saturate_i32(v: i64) -> i64 {
    if v < i32::MIN {
        i32::MIN as i64
    } else if v > i32::MAX {
        i32::MAX as i64
    } else {
        v
    }
}

/// See `saturate_i32`.
pub fn saturating_i32(v: i64) -> (r: i64)
    ensures
        r == saturate_i32(v),
{
    if v < i32::MIN as i64 {
        i32::MIN as i64
    } else if v > i32::MAX as i64 {
        i32::MAX as i64
    } else {
        v
    }
}

/// The contents of an input file as the application read it, or the text
/// of the error that reading it gave.
pub struct InputFile {
    pub name: String,
    pub content: Result<String, String>,
}

/// What a run produced: its result, the text of its output stream, the
/// file that stream goes to (`None` for standard output), what it wrote to
/// standard error, and its levels.
pub struct RunReport {
    pub result: Result<u8, Diagnostic>,
    pub stdout: String,
    pub output: String,
    pub output_file: Option<String>,
    pub stderr: String,
    pub verbose: i64,
    pub output_level: i64,
    pub close_output: bool,
}

/// A copy of a diagnostic.
pub fn copy_diag(d: &Diagnostic) -> (r: Diagnostic)
    ensures
        r.code == d.code,
        r.message@ == d.message@,
{
    Diagnostic { code: d.code, message: copy_string(&d.message) }
}

/// The final status of a run once its output stream has been closed: where
/// the run succeeded and ends by closing its output stream, a failed close
/// turns the result into a file error.
pub fn finish(report: &RunReport, close_ok: bool) -> (r: Result<u8, Diagnostic>)
    ensures
        match report.result {
            Ok(s) => if report.close_output && !close_ok {
                r matches Err(d) && d.code == ErrorCode::File && d.message@ == OUTPUT_CLOSE_ERROR@
            } else {
                r == Ok::<u8, Diagnostic>(s)
            },
            Err(e) => r matches Err(d) && d.code == e.code && d.message@ == e.message@,
        },
{
    match &report.result {
        Ok(s) => {
            if report.close_output && !close_ok {
                Err(Diagnostic::new(ErrorCode::File, String::from_str(OUTPUT_CLOSE_ERROR)))
            } else {
                Ok(*s)
            }
        },
        Err(e) => Err(copy_diag(e)),
    }
}

/// The input named `name` among the files from index `from` on: the first
/// file of that name, or `None`.
pub open spec fn find_input(name: Seq<char>, files: Seq<InputFile>, from: int) -> Option<Result<Seq<char>, Seq<char>>>
    decreases files.len() - from,
{
    if from < 0 || from >= files.len() {
        None
    } else if files[from].name@ == name {
        Some(
            match files[from].content {
                Ok(c) => Ok(c@),
                Err(e) => Err(e@),
            },
        )
    } else {
        find_input(name, files, from + 1)
    }
}

/// The input named `name`: standard input for "-", else the first file of
/// that name: its text, or the error text where reading it failed; `None`
/// where the application supplied nothing under that name.
pub open spec fn lookup_input(name: Seq<char>, stdin: Seq<char>, files: Seq<InputFile>) -> Option<Result<Seq<char>, Seq<char>>> {
    if name == seq!['-'] {
        Some(Ok(stdin))
    } else {
        find_input(name, files, 0)
    }
}

pub open spec fn input_ref_view(r: Option<Result<&String, &String>>) -> Option<Result<Seq<char>, Seq<char>>> {
    match r {
        Some(Ok(t)) => Some(Ok(t@)),
        Some(Err(e)) => Some(Err(e@)),
        None => None,
    }
}

/// The text of a file given by name (see `lookup_input`).
pub fn input_text<'a>(name: &str, stdin: &'a String, files: &'a Vec<InputFile>) -> (r: Option<
    Result<&'a String, &'a String>,
>)
    ensures
        name@ == seq!['-'] ==> r == Some(Ok::<&String, &String>(stdin)),
        input_ref_view(r) == lookup_input(name@, stdin@, files@),
{
    proof {
        reveal_strlit("-");
        assert("-"@ =~= seq!['-']);
    }
    let dash = crate::text::same_text(name, "-");
    if dash {
        return Some(Ok(stdin));
    }
    assert(name@ != seq!['-']);
    let mut i: usize = 0;
    while i < files.len()
        invariant
            i <= files.len(),
            name@ != seq!['-'],
            find_input(name@, files@, 0) == find_input(name@, files@, i as int),
        decreases files.len() - i,
    {
        if crate::text::same_text(files[i].name.as_str(), name) {
            return match &files[i].content {
                Ok(c) => Some(Ok(c)),
                Err(e) => Some(Err(e)),
            };
        }
        i = i + 1;
    }
    None
}

/// What setting a memory limit gave: set, refused, or set lower than asked.
#[derive(Clone, Copy, Debug, PartialEq, Eq, Structural)]
pub enum RLimResult {
    Success,
    Failed,
    Reduced,
}

/// What a run shows on standard output: what it wrote there itself, then
/// its output stream where that is standard output.
pub fn stdout_text(report: &RunReport) -> (s: String)
    ensures
        s@ == report.stdout@ + (if report.output_file is None {
            report.output@
        } else {
            Seq::empty()
        }),
{
    let mut s = copy_string(&report.stdout);
    if report.output_file.is_none() {
        push_str(&mut s, report.output.as_str());
    }
    s
}

/// The inputs of a run: the named files, or standard input (`-`) where none
/// is named.
pub open spec fn input_files(rest: Seq<Seq<char>>) -> Seq<Seq<char>> {
    if rest.len() == 0 {
        seq!["-"@]
    } else {
        rest
    }
}

/// The output file that an option names: `None` for standard output, which
/// "-" also names.
pub open spec fn output_target_view(name: Option<Seq<char>>) -> Option<Seq<char>> {
    match name {
        Some(n) => if n == seq!['-'] {
            None
        } else {
            Some(n)
        },
        None => None,
    }
}

/// The output file named by an option: `None` for standard output, which
/// "-" also names.
pub fn output_target(name: &Option<String>) -> (r: Option<String>)
    ensures
        match name {
            Some(n) => if n@ == seq!['-'] {
                r is None
            } else {
                r matches Some(x) && x@ == n@
            },
            None => r is None,
        },
{
    proof {
        reveal_strlit("-");
        assert("-"@ =~= seq!['-']);
    }
    match name {
        Some(n) => {
            if crate::text::same_text(n.as_str(), "-") {
                None
            } else {
                Some(copy_string(n))
            }
        },
        None => None,
    }
}

/// Appends a line to a string.
pub fn push_line(s: &mut String, line: &str)
    ensures
        final(s)@ == old(s)@ + line@ + "\n"@,
{
    push_str(s, line);
    push_str(s, "\n");
}

} // verus!
