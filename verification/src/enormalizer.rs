//! Normalizing terms, clauses and formulas with rewrite rules: the options
//! and settings of a run.
use vstd::prelude::*;
use crate::cmdline::{OptCell, OptArgType, CommandLineState, scan_from, step, args_view, opt_view, lemma_step_progress, scan_measure};
use crate::diag::{Diagnostic, ErrorCode, diag};
use crate::help::{get_int_arg, int_arg_value, int_arg_error, print_options, options_text};
use crate::session::{Session, SessionView, RunReport, saturate_i32, saturating_i32, output_target, output_target_view, input_files};
use crate::resources::{MEGA, four_fifths, limit_bytes, limit_order_error, limits_ordered, check_hard_soft_limits, auto_memory_mb};
use crate::text::{push_str, copy_string, owned, same_text};
use crate::version::{VERSION, FOOTER};
use crate::e_deduction_server::IoFormat;

verus! {

/// The name under which the program reports.
pub const PROGRAM_NAME: &'static str = "enormalizer";

/// The message where "Auto" asks for a memory limit and the physical memory
/// is unknown.
pub const AUTO_MEMORY_ERROR: &'static str = "Cannot find physical memory automatically. Give explicit value to --memory-limit";

/// The options of the program.
#[derive(Clone, Copy, Debug, PartialEq, Eq, Structural)]
pub enum OptionCode {
    Help,
    Version,
    Verbose,
    Terms,
    Clauses,
    Formulas,
    Output,
    Silent,
    OutputLevel,
    PrintStatistics,
    ResourcesInfo,
    LopIn,
    TptpIn,
    TptpOut,
    TptpFormat,
    TstpIn,
    TstpOut,
    TstpFormat,
    MemoryLimit,
    CpuLimit,
    SoftCpuLimit,
}

/// The option table.
pub open spec fn option_table() -> Seq<OptCell<OptionCode>> {
    seq![
        OptCell {
            option_code: OptionCode::Help,
            short: Some('h'),
            long: "help",
            arg_type: OptArgType::NoArg,
            default: None,
            desc: "Print a short description of program usage and options.",
        },
        OptCell {
            option_code: OptionCode::Version,
            short: None,
            long: "version",
            arg_type: OptArgType::NoArg,
            default: None,
            desc: "Print the version number of the program.",
        },
        OptCell {
            option_code: OptionCode::Verbose,
            short: Some('v'),
            long: "verbose",
            arg_type: OptArgType::OptArg,
            default: Some("1"),
            desc: "Verbose comments on the progress of the program by printing technical information to stderr.",
        },
        OptCell {
            option_code: OptionCode::Terms,
            short: Some('t'),
            long: "terms",
            arg_type: OptArgType::ReqArg,
            default: None,
            desc: "Name of the files containing terms to be normalized. If '-' is used as the argument, terms are read from standard input.",
        },
        OptCell {
            option_code: OptionCode::Clauses,
            short: Some('c'),
            long: "clauses",
            arg_type: OptArgType::ReqArg,
            default: None,
            desc: "Name of the files containing clauses to be normalized. If '-' is used as the argument, clauses are read from standard input.",
        },
        OptCell {
            option_code: OptionCode::Formulas,
            short: Some('f'),
            long: "formulas",
            arg_type: OptArgType::ReqArg,
            default: None,
            desc: "Name of the files containing fomulas to be normalized. If '-' is used as the argument, formulas are read from standard input. Note that formula-syntax is not supported in LOP syntax, but requires --tptp2-format or --tptp3-format",
        },
        OptCell {
            option_code: OptionCode::Output,
            short: Some('o'),
            long: "output-file",
            arg_type: OptArgType::ReqArg,
            default: None,
            desc: "Redirect output into the named file.",
        },
        OptCell {
            option_code: OptionCode::Silent,
            short: Some('s'),
            long: "silent",
            arg_type: OptArgType::NoArg,
            default: None,
            desc: "Equivalent to --output-level=0.",
        },
        OptCell {
            option_code: OptionCode::OutputLevel,
            short: Some('l'),
            long: "output-level",
            arg_type: OptArgType::ReqArg,
            default: None,
            desc: "Select an output level, greater values imply more verbose output. Level 0 produces nearly no output except for the final clauses, level 1 produces minimal additional output. Higher levels are without meaning in enormalizer (I think).",
        },
        OptCell {
            option_code: OptionCode::PrintStatistics,
            short: None,
            long: "print-statistics",
            arg_type: OptArgType::NoArg,
            default: None,
            desc: "Print a short statistical summary of clauses read and generated.",
        },
        OptCell {
            option_code: OptionCode::ResourcesInfo,
            short: Some('R'),
            long: "resources-info",
            arg_type: OptArgType::NoArg,
            default: None,
            desc: "Give some information about the resources used by the system. You will usually get CPU time information. On systems returning more information with the rusage() system call, you will also get information about memory consumption.",
        },
        OptCell {
            option_code: OptionCode::LopIn,
            short: None,
            long: "lop-in",
            arg_type: OptArgType::NoArg,
            default: None,
            desc: "Set E-LOP as the input format. If no input format is selected by this or one of the following options, E will guess the input format based on the first token. It will almost always correctly recognize TPTP-3, but it may misidentify E-LOP files that use TPTP meta-identifiers as logical symbols.",
        },
        OptCell {
            option_code: OptionCode::TptpIn,
            short: None,
            long: "tptp-in",
            arg_type: OptArgType::NoArg,
            default: None,
            desc: "Parse TPTP-2 format instead of E-LOP (except includes, which are handles as in TPTP-3, as TPTP-2 include syntax is considered harmful).",
        },
        OptCell {
            option_code: OptionCode::TptpOut,
            short: None,
            long: "tptp-out",
            arg_type: OptArgType::NoArg,
            default: None,
            desc: "Print TPTP-2 format instead of E-LOP.",
        },
        OptCell {
            option_code: OptionCode::TptpFormat,
            short: None,
            long: "tptp-format",
            arg_type: OptArgType::NoArg,
            default: None,
            desc: "Equivalent to --tptp-in and --tptp-out.",
        },
        OptCell {
            option_code: OptionCode::TptpIn,
            short: None,
            long: "tptp2-in",
            arg_type: OptArgType::NoArg,
            default: None,
            desc: "Synonymous with --tptp-in.",
        },
        OptCell {
            option_code: OptionCode::TptpOut,
            short: None,
            long: "tptp2-out",
            arg_type: OptArgType::NoArg,
            default: None,
            desc: "Synonymous with --tptp-out.",
        },
        OptCell {
            option_code: OptionCode::TptpFormat,
            short: None,
            long: "tptp2-format",
            arg_type: OptArgType::NoArg,
            default: None,
            desc: "Synonymous with --tptp-format.",
        },
        OptCell {
            option_code: OptionCode::TstpIn,
            short: None,
            long: "tstp-in",
            arg_type: OptArgType::NoArg,
            default: None,
            desc: "Parse TPTP-3 format instead of E-LOP (Note that TPTP-3 syntax is still under development, and the version implemented may not be fully conformant at all times. It works on all TPTP 3.0.1 input files (including includes).",
        },
        OptCell {
            option_code: OptionCode::TstpOut,
            short: None,
            long: "tstp-out",
            arg_type: OptArgType::NoArg,
            default: None,
            desc: "Print output clauses in TPTP-3 syntax.",
        },
        OptCell {
            option_code: OptionCode::TstpFormat,
            short: None,
            long: "tstp-format",
            arg_type: OptArgType::NoArg,
            default: None,
            desc: "Equivalent to --tstp-in and --tstp-out.",
        },
        OptCell {
            option_code: OptionCode::TstpIn,
            short: None,
            long: "tptp3-in",
            arg_type: OptArgType::NoArg,
            default: None,
            desc: "Synonymous with --tstp-in.",
        },
        OptCell {
            option_code: OptionCode::TstpOut,
            short: None,
            long: "tptp3-out",
            arg_type: OptArgType::NoArg,
            default: None,
            desc: "Synonymous with --tstp-out.",
        },
        OptCell {
            option_code: OptionCode::TstpFormat,
            short: None,
            long: "tptp3-format",
            arg_type: OptArgType::NoArg,
            default: None,
            desc: "Synonymous with --tstp-format.",
        },
        OptCell {
            option_code: OptionCode::MemoryLimit,
            short: Some('m'),
            long: "memory-limit",
            arg_type: OptArgType::ReqArg,
            default: None,
            desc: "Limit the memory the system may use. The argument is the allowed amount of memory in MB. This option may not work everywhere, due to broken and/or strange behaviour of setrlimit() in some UNIX implementations. It does work under all tested versions of Solaris and GNU/Linux.",
        },
        OptCell {
            option_code: OptionCode::CpuLimit,
            short: None,
            long: "cpu-limit",
            arg_type: OptArgType::OptArg,
            default: Some("300"),
            desc: "Limit the cpu time the program should run. The optional argument is the CPU time in seconds. The program will terminate immediately after reaching the time limit, regardless of internal state. This option may not work everywhere, due to broken and/or strange behaviour of setrlimit() in some UNIX implementations. It does work under all tested versions of Solaris, HP-UX and GNU/Linux. As a side effect, this option will inhibit core file writing.",
        },
        OptCell {
            option_code: OptionCode::SoftCpuLimit,
            short: None,
            long: "soft-cpu-limit",
            arg_type: OptArgType::OptArg,
            default: Some("310"),
            desc: "Limit the cpu time spend in grounding. After the time expires, the prover will print an partial system.",
        },
    ]
}

/// The option table.
pub fn options() -> (v: Vec<OptCell<OptionCode>>)
    ensures
        v@ == option_table(),
{
    let v = vec![
        OptCell {
            option_code: OptionCode::Help,
            short: Some('h'),
            long: "help",
            arg_type: OptArgType::NoArg,
            default: None,
            desc: "Print a short description of program usage and options.",
        },
        OptCell {
            option_code: OptionCode::Version,
            short: None,
            long: "version",
            arg_type: OptArgType::NoArg,
            default: None,
            desc: "Print the version number of the program.",
        },
        OptCell {
            option_code: OptionCode::Verbose,
            short: Some('v'),
            long: "verbose",
            arg_type: OptArgType::OptArg,
            default: Some("1"),
            desc: "Verbose comments on the progress of the program by printing technical information to stderr.",
        },
        OptCell {
            option_code: OptionCode::Terms,
            short: Some('t'),
            long: "terms",
            arg_type: OptArgType::ReqArg,
            default: None,
            desc: "Name of the files containing terms to be normalized. If '-' is used as the argument, terms are read from standard input.",
        },
        OptCell {
            option_code: OptionCode::Clauses,
            short: Some('c'),
            long: "clauses",
            arg_type: OptArgType::ReqArg,
            default: None,
            desc: "Name of the files containing clauses to be normalized. If '-' is used as the argument, clauses are read from standard input.",
        },
        OptCell {
            option_code: OptionCode::Formulas,
            short: Some('f'),
            long: "formulas",
            arg_type: OptArgType::ReqArg,
            default: None,
            desc: "Name of the files containing fomulas to be normalized. If '-' is used as the argument, formulas are read from standard input. Note that formula-syntax is not supported in LOP syntax, but requires --tptp2-format or --tptp3-format",
        },
        OptCell {
            option_code: OptionCode::Output,
            short: Some('o'),
            long: "output-file",
            arg_type: OptArgType::ReqArg,
            default: None,
            desc: "Redirect output into the named file.",
        },
        OptCell {
            option_code: OptionCode::Silent,
            short: Some('s'),
            long: "silent",
            arg_type: OptArgType::NoArg,
            default: None,
            desc: "Equivalent to --output-level=0.",
        },
        OptCell {
            option_code: OptionCode::OutputLevel,
            short: Some('l'),
            long: "output-level",
            arg_type: OptArgType::ReqArg,
            default: None,
            desc: "Select an output level, greater values imply more verbose output. Level 0 produces nearly no output except for the final clauses, level 1 produces minimal additional output. Higher levels are without meaning in enormalizer (I think).",
        },
        OptCell {
            option_code: OptionCode::PrintStatistics,
            short: None,
            long: "print-statistics",
            arg_type: OptArgType::NoArg,
            default: None,
            desc: "Print a short statistical summary of clauses read and generated.",
        },
        OptCell {
            option_code: OptionCode::ResourcesInfo,
            short: Some('R'),
            long: "resources-info",
            arg_type: OptArgType::NoArg,
            default: None,
            desc: "Give some information about the resources used by the system. You will usually get CPU time information. On systems returning more information with the rusage() system call, you will also get information about memory consumption.",
        },
        OptCell {
            option_code: OptionCode::LopIn,
            short: None,
            long: "lop-in",
            arg_type: OptArgType::NoArg,
            default: None,
            desc: "Set E-LOP as the input format. If no input format is selected by this or one of the following options, E will guess the input format based on the first token. It will almost always correctly recognize TPTP-3, but it may misidentify E-LOP files that use TPTP meta-identifiers as logical symbols.",
        },
        OptCell {
            option_code: OptionCode::TptpIn,
            short: None,
            long: "tptp-in",
            arg_type: OptArgType::NoArg,
            default: None,
            desc: "Parse TPTP-2 format instead of E-LOP (except includes, which are handles as in TPTP-3, as TPTP-2 include syntax is considered harmful).",
        },
        OptCell {
            option_code: OptionCode::TptpOut,
            short: None,
            long: "tptp-out",
            arg_type: OptArgType::NoArg,
            default: None,
            desc: "Print TPTP-2 format instead of E-LOP.",
        },
        OptCell {
            option_code: OptionCode::TptpFormat,
            short: None,
            long: "tptp-format",
            arg_type: OptArgType::NoArg,
            default: None,
            desc: "Equivalent to --tptp-in and --tptp-out.",
        },
        OptCell {
            option_code: OptionCode::TptpIn,
            short: None,
            long: "tptp2-in",
            arg_type: OptArgType::NoArg,
            default: None,
            desc: "Synonymous with --tptp-in.",
        },
        OptCell {
            option_code: OptionCode::TptpOut,
            short: None,
            long: "tptp2-out",
            arg_type: OptArgType::NoArg,
            default: None,
            desc: "Synonymous with --tptp-out.",
        },
        OptCell {
            option_code: OptionCode::TptpFormat,
            short: None,
            long: "tptp2-format",
            arg_type: OptArgType::NoArg,
            default: None,
            desc: "Synonymous with --tptp-format.",
        },
        OptCell {
            option_code: OptionCode::TstpIn,
            short: None,
            long: "tstp-in",
            arg_type: OptArgType::NoArg,
            default: None,
            desc: "Parse TPTP-3 format instead of E-LOP (Note that TPTP-3 syntax is still under development, and the version implemented may not be fully conformant at all times. It works on all TPTP 3.0.1 input files (including includes).",
        },
        OptCell {
            option_code: OptionCode::TstpOut,
            short: None,
            long: "tstp-out",
            arg_type: OptArgType::NoArg,
            default: None,
            desc: "Print output clauses in TPTP-3 syntax.",
        },
        OptCell {
            option_code: OptionCode::TstpFormat,
            short: None,
            long: "tstp-format",
            arg_type: OptArgType::NoArg,
            default: None,
            desc: "Equivalent to --tstp-in and --tstp-out.",
        },
        OptCell {
            option_code: OptionCode::TstpIn,
            short: None,
            long: "tptp3-in",
            arg_type: OptArgType::NoArg,
            default: None,
            desc: "Synonymous with --tstp-in.",
        },
        OptCell {
            option_code: OptionCode::TstpOut,
            short: None,
            long: "tptp3-out",
            arg_type: OptArgType::NoArg,
            default: None,
            desc: "Synonymous with --tstp-out.",
        },
        OptCell {
            option_code: OptionCode::TstpFormat,
            short: None,
            long: "tptp3-format",
            arg_type: OptArgType::NoArg,
            default: None,
            desc: "Synonymous with --tstp-format.",
        },
        OptCell {
            option_code: OptionCode::MemoryLimit,
            short: Some('m'),
            long: "memory-limit",
            arg_type: OptArgType::ReqArg,
            default: None,
            desc: "Limit the memory the system may use. The argument is the allowed amount of memory in MB. This option may not work everywhere, due to broken and/or strange behaviour of setrlimit() in some UNIX implementations. It does work under all tested versions of Solaris and GNU/Linux.",
        },
        OptCell {
            option_code: OptionCode::CpuLimit,
            short: None,
            long: "cpu-limit",
            arg_type: OptArgType::OptArg,
            default: Some("300"),
            desc: "Limit the cpu time the program should run. The optional argument is the CPU time in seconds. The program will terminate immediately after reaching the time limit, regardless of internal state. This option may not work everywhere, due to broken and/or strange behaviour of setrlimit() in some UNIX implementations. It does work under all tested versions of Solaris, HP-UX and GNU/Linux. As a side effect, this option will inhibit core file writing.",
        },
        OptCell {
            option_code: OptionCode::SoftCpuLimit,
            short: None,
            long: "soft-cpu-limit",
            arg_type: OptArgType::OptArg,
            default: Some("310"),
            desc: "Limit the cpu time spend in grounding. After the time expires, the prover will print an partial system.",
        },
    ];
    proof {
        assert(v@ =~= option_table());
    }
    v
}

/// The settings of a run.
pub struct Config {
    pub term_file: Option<String>,
    pub clause_file: Option<String>,
    pub formula_file: Option<String>,
    pub output_file: Option<String>,
    pub parse_format: IoFormat,
    pub output_format: IoFormat,
    pub verbose_level: i64,
    pub output_level: i64,
    pub print_statistics: bool,
    pub print_rusage: bool,
    pub memory_limit: u64,
    pub hard_cpu_limit: Option<i64>,
    pub soft_cpu_limit: Option<i64>,
    pub rule_files: Vec<String>,
}

/// The view of the settings of a run.
pub struct ConfigView {
    pub term_file: Option<Seq<char>>,
    pub clause_file: Option<Seq<char>>,
    pub formula_file: Option<Seq<char>>,
    pub output_file: Option<Seq<char>>,
    pub parse_format: IoFormat,
    pub output_format: IoFormat,
    pub verbose_level: i64,
    pub output_level: i64,
    pub print_statistics: bool,
    pub print_rusage: bool,
    pub memory_limit: u64,
    pub hard_cpu_limit: Option<i64>,
    pub soft_cpu_limit: Option<i64>,
    pub rule_files: Seq<Seq<char>>,
}

impl Config {
    pub open spec fn view(&self) -> ConfigView {
        ConfigView {
            term_file: opt_view(self.term_file),
            clause_file: opt_view(self.clause_file),
            formula_file: opt_view(self.formula_file),
            output_file: opt_view(self.output_file),
            parse_format: self.parse_format,
            output_format: self.output_format,
            verbose_level: self.verbose_level,
            output_level: self.output_level,
            print_statistics: self.print_statistics,
            print_rusage: self.print_rusage,
            memory_limit: self.memory_limit,
            hard_cpu_limit: self.hard_cpu_limit,
            soft_cpu_limit: self.soft_cpu_limit,
            rule_files: args_view(self.rule_files@),
        }
    }
}

/// The settings before any option.
pub open spec fn default_config() -> ConfigView {
    ConfigView {
        term_file: None,
        clause_file: None,
        formula_file: None,
        output_file: None,
        parse_format: IoFormat::Auto,
        output_format: IoFormat::Lop,
        verbose_level: 0,
        output_level: 1,
        print_statistics: false,
        print_rusage: false,
        memory_limit: 0,
        hard_cpu_limit: None,
        soft_cpu_limit: None,
        rule_files: Seq::empty(),
    }
}

/// What the options ask for: leave with a status (after help or version
/// text), or go on with the given settings.
pub enum Command {
    Exit(u8),
    Execute(Config),
}

pub enum CommandView {
    Exit(u8),
    Execute(ConfigView),
}

pub open spec fn command_view(r: Result<Command, Diagnostic>) -> Result<CommandView, (ErrorCode, Seq<char>)> {
    match r {
        Ok(Command::Exit(s)) => Ok(CommandView::Exit(s)),
        Ok(Command::Execute(c)) => Ok(CommandView::Execute(c.view())),
        Err(d) => Err((d.code, d.message@)),
    }
}

/// The outcome of one option: go on with the new session and settings, or
/// stop with a result.
pub enum OptStep {
    Go(SessionView, ConfigView),
    Stop(SessionView, Result<CommandView, (ErrorCode, Seq<char>)>),
}

/// The argument of an option, empty where it has none.
pub open spec fn arg_or_empty(a: Option<Seq<char>>) -> Seq<char> {
    match a {
        Some(x) => x,
        None => Seq::empty(),
    }
}


/// What one option does.
#[verifier::opaque]
pub open spec fn apply_option(s: SessionView, c: ConfigView, cell: OptCell<OptionCode>, arg: Seq<char>, sysmem: i64) -> OptStep {
    match cell.option_code {
        OptionCode::Help => OptStep::Stop(SessionView { stdout: s.stdout + help_text(), ..s }, Ok(CommandView::Exit(0))),
        OptionCode::Version => OptStep::Stop(SessionView { stdout: s.stdout + PROGRAM_NAME@ + " "@ + VERSION@ + "\n"@, ..s }, Ok(CommandView::Exit(0))),
        OptionCode::Verbose => match int_arg_value(arg) {
            Some(v) => OptStep::Go(s, ConfigView { verbose_level: v as i64, ..c }),
            None => OptStep::Stop(s, Err((ErrorCode::Usage, int_arg_error(cell)))),
        },
        OptionCode::Terms => OptStep::Go(s, ConfigView { term_file: Some(arg), ..c }),
        OptionCode::Clauses => OptStep::Go(s, ConfigView { clause_file: Some(arg), ..c }),
        OptionCode::Formulas => OptStep::Go(s, ConfigView { formula_file: Some(arg), ..c }),
        OptionCode::Output => OptStep::Go(s, ConfigView { output_file: Some(arg), ..c }),
        OptionCode::Silent => OptStep::Go(s, ConfigView { output_level: 0, ..c }),
        OptionCode::OutputLevel => match int_arg_value(arg) {
            Some(v) => OptStep::Go(s, ConfigView { output_level: v as i64, ..c }),
            None => OptStep::Stop(s, Err((ErrorCode::Usage, int_arg_error(cell)))),
        },
        OptionCode::PrintStatistics => OptStep::Go(s, ConfigView { print_statistics: true, ..c }),
        OptionCode::ResourcesInfo => OptStep::Go(s, ConfigView { print_rusage: true, ..c }),
        OptionCode::LopIn => OptStep::Go(s, ConfigView { parse_format: IoFormat::Lop, ..c }),
        OptionCode::TptpIn => OptStep::Go(s, ConfigView { parse_format: IoFormat::Tptp, ..c }),
        OptionCode::TptpOut => OptStep::Go(s, ConfigView { output_format: IoFormat::Tptp, ..c }),
        OptionCode::TptpFormat => OptStep::Go(s, ConfigView { parse_format: IoFormat::Tptp, output_format: IoFormat::Tptp, ..c }),
        OptionCode::TstpIn => OptStep::Go(s, ConfigView { parse_format: IoFormat::Tstp, ..c }),
        OptionCode::TstpOut => OptStep::Go(s, ConfigView { output_format: IoFormat::Tstp, ..c }),
        OptionCode::TstpFormat => OptStep::Go(s, ConfigView { parse_format: IoFormat::Tstp, output_format: IoFormat::Tstp, ..c }),
        OptionCode::MemoryLimit => if arg == "Auto"@ {
            if sysmem == -1 {
                OptStep::Stop(s, Err((ErrorCode::Other, AUTO_MEMORY_ERROR@)))
            } else {
                OptStep::Go(s, ConfigView { memory_limit: limit_bytes(four_fifths(sysmem as int) as i64), ..c })
            }
        } else {
            match int_arg_value(arg) {
                Some(v) => OptStep::Go(s, ConfigView { memory_limit: limit_bytes(v as i64), ..c }),
                None => OptStep::Stop(s, Err((ErrorCode::Usage, int_arg_error(cell)))),
            }
        },
        OptionCode::CpuLimit => match int_arg_value(arg) {
            Some(v) => match c.soft_cpu_limit {
                Some(soft) if !limits_ordered(v as i64, soft) => OptStep::Stop(s, Err((ErrorCode::Usage, limit_order_error(true)))),
                _ => OptStep::Go(s, ConfigView { hard_cpu_limit: Some(v as i64), ..c }),
            },
            None => OptStep::Stop(s, Err((ErrorCode::Usage, int_arg_error(cell)))),
        },
        OptionCode::SoftCpuLimit => match int_arg_value(arg) {
            Some(v) => match c.hard_cpu_limit {
                Some(hard) if !limits_ordered(hard, v as i64) => OptStep::Stop(s, Err((ErrorCode::Usage, limit_order_error(false)))),
                _ => OptStep::Go(s, ConfigView { soft_cpu_limit: Some(v as i64), ..c }),
            },
            None => OptStep::Stop(s, Err((ErrorCode::Usage, int_arg_error(cell)))),
        },
    }
}


/// The options applied in order, then the positional arguments.
pub open spec fn options_fold(
    s: SessionView,
    c: ConfigView,
    opts: Seq<(int, Option<Seq<char>>)>,
    end: Result<Seq<Seq<char>>, Seq<char>>,
    sysmem: i64,
) -> (SessionView, Result<CommandView, (ErrorCode, Seq<char>)>)
    decreases opts.len(),
{
    if opts.len() == 0 {
        match end {
            Ok(rest) => (s, Ok(CommandView::Execute(ConfigView { rule_files: input_files(rest), ..c }))),
            Err(m) => (s, Err((ErrorCode::Usage, m))),
        }
    } else {
        match apply_option(s, c, option_table()[opts[0].0], arg_or_empty(opts[0].1), sysmem) {
            OptStep::Go(s2, c2) => options_fold(s2, c2, opts.drop_first(), end, sysmem),
            OptStep::Stop(s2, r) => (s2, r),
        }
    }
}

/// What the command line asks for, and the session after it.
pub open spec fn options_outcome(args: Seq<Seq<char>>, s: SessionView, sysmem: i64) -> (SessionView, Result<CommandView, (ErrorCode, Seq<char>)>) {
    let sc = crate::cmdline::scan(args, option_table());
    options_fold(s, default_config(), sc.opts, sc.end, sysmem)
}


/// The help text.
pub open spec fn help_text() -> Seq<char> {
    "\n\n"@ + PROGRAM_NAME@ + " "@ + VERSION@ + "\n\nUsage: "@ + PROGRAM_NAME@ + " [options] [rulefiles]\n\nRead a set of rewrite rules (in the form of unit clauses and/or\nformulas) with a single positive literal) and sets of terms, clauses,\nand/or formulas (the \"normalization targets\", from files specified\nwith the proper options - see below) to rewrite. Rewrite rules are read\nfrom the left to right as specified in the input, without regard to any\nterm ordering.\n\nThe normalization targets are rewritten using these rewrite rules until\na normal form is reached. If the rule system is not confluent, the\nresults are deterministic but unspecified. If the rule system is not\nterminating, rewriting might get stuck into an infinite loop. \n\nThe rewrite strategy is leftmost-innermost. The order of rewrite rules\ntried at each subterm is deterministic, but unspecified and\nindependent of input order (it depends on the order in which rules are\nreturned from the perfect discrimination tree index).\n\nThe normalized terms/clauses/formulas are printed.\n\n"@ + "Options\n\n"@ + options_text(option_table()) + "\n\n"@ + FOOTER@
}


/// The help text.
pub fn print_help() -> (s: String)
    ensures
        s@ == help_text(),
{
    let mut s = String::new();
    push_str(&mut s, "\n\n");
    push_str(&mut s, PROGRAM_NAME);
    push_str(&mut s, " ");
    push_str(&mut s, VERSION);
    push_str(&mut s, "\n\nUsage: ");
    push_str(&mut s, PROGRAM_NAME);
    push_str(&mut s, " [options] [rulefiles]\n\nRead a set of rewrite rules (in the form of unit clauses and/or\nformulas) with a single positive literal) and sets of terms, clauses,\nand/or formulas (the \"normalization targets\", from files specified\nwith the proper options - see below) to rewrite. Rewrite rules are read\nfrom the left to right as specified in the input, without regard to any\nterm ordering.\n\nThe normalization targets are rewritten using these rewrite rules until\na normal form is reached. If the rule system is not confluent, the\nresults are deterministic but unspecified. If the rule system is not\nterminating, rewriting might get stuck into an infinite loop. \n\nThe rewrite strategy is leftmost-innermost. The order of rewrite rules\ntried at each subterm is deterministic, but unspecified and\nindependent of input order (it depends on the order in which rules are\nreturned from the perfect discrimination tree index).\n\nThe normalized terms/clauses/formulas are printed.\n\n");
    let opts = options();
    let o = print_options(&opts, Some("Options\n\n"));
    push_str(&mut s, o.as_str());
    push_str(&mut s, "\n\n");
    push_str(&mut s, FOOTER);
    s
}


/// Applies one option to the session and the settings; `None` where the
/// run goes on with the next.
#[verifier::rlimit(50)]
fn apply_option_exec(cell: &OptCell<OptionCode>, arg: String, sess: &mut Session, cfg: &mut Config, sysmem: i64) -> (r: Option<Result<Command, Diagnostic>>)
    requires
        sysmem >= -1,
    ensures
        match apply_option(old(sess).view(), old(cfg).view(), *cell, arg@, sysmem) {
            OptStep::Go(s2, c2) => r is None && final(sess).view() == s2 && final(cfg).view() == c2,
            OptStep::Stop(s2, res) => (r matches Some(x) && command_view(x) == res) && final(sess).view() == s2,
        },
{
    proof {
        reveal(apply_option);
    }
    match cell.option_code {
        OptionCode::Help => {
            let h = print_help();
            push_str(&mut sess.stdout, h.as_str());
            return Some(Ok(Command::Exit(0)));
        },
        OptionCode::Version => {
            push_str(&mut sess.stdout, PROGRAM_NAME);
            push_str(&mut sess.stdout, " ");
            push_str(&mut sess.stdout, VERSION);
            push_str(&mut sess.stdout, "\n");
            return Some(Ok(Command::Exit(0)));
        },
        OptionCode::Verbose => {
            match get_int_arg(cell, arg.as_str()) {
                Ok(v) => {
                    cfg.verbose_level = v;
                },
                Err(d) => {
                    return Some(Err(d));
                },
            }
        },
        OptionCode::Terms => {
            cfg.term_file = Some(arg);
        },
        OptionCode::Clauses => {
            cfg.clause_file = Some(arg);
        },
        OptionCode::Formulas => {
            cfg.formula_file = Some(arg);
        },
        OptionCode::Output => {
            cfg.output_file = Some(arg);
        },
        OptionCode::Silent => {
            cfg.output_level = 0;
        },
        OptionCode::OutputLevel => {
            match get_int_arg(cell, arg.as_str()) {
                Ok(v) => {
                    cfg.output_level = v;
                },
                Err(d) => {
                    return Some(Err(d));
                },
            }
        },
        OptionCode::PrintStatistics => {
            cfg.print_statistics = true;
        },
        OptionCode::ResourcesInfo => {
            cfg.print_rusage = true;
        },
        OptionCode::LopIn => {
            cfg.parse_format = IoFormat::Lop;
        },
        OptionCode::TptpIn => {
            cfg.parse_format = IoFormat::Tptp;
        },
        OptionCode::TptpOut => {
            cfg.output_format = IoFormat::Tptp;
        },
        OptionCode::TptpFormat => {
            cfg.parse_format = IoFormat::Tptp;
            cfg.output_format = IoFormat::Tptp;
        },
        OptionCode::TstpIn => {
            cfg.parse_format = IoFormat::Tstp;
        },
        OptionCode::TstpOut => {
            cfg.output_format = IoFormat::Tstp;
        },
        OptionCode::TstpFormat => {
            cfg.parse_format = IoFormat::Tstp;
            cfg.output_format = IoFormat::Tstp;
        },
        OptionCode::MemoryLimit => {
            proof {
                reveal_strlit("Auto");
            }
            if same_text(arg.as_str(), "Auto") {
                if sysmem == -1 {
                    return Some(Err(diag(ErrorCode::Other, AUTO_MEMORY_ERROR)));
                }
                let auto = auto_memory_mb(sysmem);
                cfg.memory_limit = (auto as u64).wrapping_mul(MEGA);
            } else {
                match get_int_arg(cell, arg.as_str()) {
                    Ok(v) => {
                        cfg.memory_limit = (v as u64).wrapping_mul(MEGA);
                    },
                    Err(d) => {
                        return Some(Err(d));
                    },
                }
            }
        },
        OptionCode::CpuLimit => {
            match get_int_arg(cell, arg.as_str()) {
                Ok(v) => {
                    match cfg.soft_cpu_limit {
                        Some(soft) => {
                            match check_hard_soft_limits(v, soft, true) {
                                Ok(()) => {},
                                Err(d) => {
                                    return Some(Err(d));
                                },
                            }
                        },
                        None => {},
                    }
                    cfg.hard_cpu_limit = Some(v);
                },
                Err(d) => {
                    return Some(Err(d));
                },
            }
        },
        OptionCode::SoftCpuLimit => {
            match get_int_arg(cell, arg.as_str()) {
                Ok(v) => {
                    match cfg.hard_cpu_limit {
                        Some(hard) => {
                            match check_hard_soft_limits(hard, v, false) {
                                Ok(()) => {},
                                Err(d) => {
                                    return Some(Err(d));
                                },
                            }
                        },
                        None => {},
                    }
                    cfg.soft_cpu_limit = Some(v);
                },
                Err(d) => {
                    return Some(Err(d));
                },
            }
        },
    }
    None
}


/// Reads the command line.
pub fn process_options(args: &Vec<String>, sess: &mut Session, sysmem: i64) -> (r: Result<Command, Diagnostic>)
    requires
        sysmem >= -1,
    ensures
        (final(sess).view(), command_view(r)) == options_outcome(args_view(args@), old(sess).view(), sysmem),
{
    let opts = options();
    let mut state = CommandLineState::new(args);
    let mut cfg = Config {
        term_file: None,
        clause_file: None,
        formula_file: None,
        output_file: None,
        parse_format: IoFormat::Auto,
        output_format: IoFormat::Lop,
        verbose_level: 0,
        output_level: 1,
        print_statistics: false,
        print_rusage: false,
        memory_limit: 0,
        hard_cpu_limit: None,
        soft_cpu_limit: None,
        rule_files: Vec::new(),
    };
    let ghost goal = options_outcome(args_view(args@), old(sess).view(), sysmem);
    proof {
        assert(args_view(cfg.rule_files@) =~= Seq::<Seq<char>>::empty());
    }
    loop
        invariant
            sysmem >= -1,
            state.wf(),
            state.args_seq() == args_view(args@),
            opts@ == option_table(),
            goal == options_outcome(args_view(args@), old(sess).view(), sysmem),
            ({
                let sc = scan_from(args_view(args@), option_table(), state.state());
                options_fold(sess.view(), cfg.view(), sc.opts, sc.end, sysmem) == goal
            }),
        decreases args.len() - state.state().argi, scan_measure(args_view(args@), state.state()),
    {
        let ghost st = state.state();
        proof {
            if !st.done {
                let (st2, ev) = step(args_view(args@), option_table(), st);
                if ev is Opt {
                    lemma_step_progress(args_view(args@), option_table(), st);
                }
            }
        }
        match state.next_opt(&opts) {
            Err(d) => {
                return Err(d);
            },
            Ok(None) => {
                let rest = state.remaining_args();
                if rest.len() == 0 {
                    let mut v: Vec<String> = Vec::new();
                    v.push(owned("-"));
                    proof {
                        assert(args_view(v@) =~= seq!["-"@]);
                    }
                    cfg.rule_files = v;
                } else {
                    cfg.rule_files = rest;
                }
                return Ok(Command::Execute(cfg));
            },
            Ok(Some(p)) => {
                proof {
                    crate::cmdline::lemma_step_opt_index(args_view(args@), option_table(), st);
                }
                let cell = &opts[p.index];
                let arg: String = match &p.arg {
                    Some(a) => copy_string(a),
                    None => String::new(),
                };
                proof {
                    assert(arg@ == arg_or_empty(opt_view(p.arg)));
                }
                match apply_option_exec(cell, arg, sess, &mut cfg, sysmem) {
                    Some(res) => {
                        return res;
                    },
                    None => {},
                }
                proof {
                    let sc = scan_from(args_view(args@), option_table(), st);
                    let tail = scan_from(args_view(args@), option_table(), state.state());
                    assert(sc.opts == seq![(p.index as int, opt_view(p.arg))].add(tail.opts));
                    assert(sc.opts.drop_first() =~= tail.opts);
                }
            },
        }
    }
}


/// A run up to reading the rules: the options, then the levels that the
/// settings give the session; where the run goes on, its settings (the
/// application sets the resource limits, reads the rules and rewrites the
/// targets). `sysmem` is the physical memory in megabytes, -1 where unknown.
pub fn run(args: &Vec<String>, sysmem: i64) -> (r: (RunReport, Option<Config>))
    requires
        sysmem >= -1,
    ensures
        ({
            let (s, cmd) = options_outcome(args_view(args@), SessionView { verbose: 0, output_level: 1, stdout: Seq::empty(), stderr: Seq::empty() }, sysmem);
            &&& r.0.stdout@ == s.stdout
            &&& match cmd {
                Err((code, m)) => (r.0.result matches Err(d) && d.code == code && d.message@ == m) && r.1 is None,
                Ok(CommandView::Exit(st)) => (r.0.result matches Ok(x) && x == st) && r.1 is None,
                Ok(CommandView::Execute(cv)) => (r.0.result matches Ok(x) && x == 0) && (r.1 matches Some(c) && c.view() == cv)
                    && r.0.verbose == saturate_i32(cv.verbose_level) && r.0.output_level == cv.output_level
                    && opt_view(r.0.output_file) == output_target_view(cv.output_file),
            }
        }),
{
    let mut sess = Session::new(0, 1);
    let cmd = process_options(args, &mut sess, sysmem);
    let (result, cfg, target) = match cmd {
        Err(d) => (Err(d), None, None),
        Ok(Command::Exit(st)) => (Ok(st), None, None),
        Ok(Command::Execute(c)) => {
            sess.verbose = saturating_i32(c.verbose_level);
            sess.output_level = c.output_level;
            let t = output_target(&c.output_file);
            (Ok(0), Some(c), t)
        },
    };
    (RunReport { result, stdout: sess.stdout, output: String::new(), output_file: target, stderr: sess.stderr, verbose: sess.verbose, output_level: sess.output_level, close_output: true }, cfg)
}


} // verus!
