//! Grounding clause sets: the options and settings of a run.
use vstd::prelude::*;
use crate::cmdline::{OptCell, OptArgType, CommandLineState, scan_from, step, args_view, opt_view, lemma_step_progress, scan_measure};
use crate::diag::{Diagnostic, ErrorCode, diag};
use crate::help::{get_int_arg, int_arg_value, int_arg_error, print_options, options_text};
use crate::session::{Session, SessionView, RunReport, saturate_i32, saturating_i32, output_target, output_target_view, input_files};
use crate::resources::{MEGA, four_fifths, limit_bytes, limit_order_error, limits_ordered, check_hard_soft_limits, auto_memory_mb};
use crate::text::{push_str, push_i64, copy_string, owned, same_text, signed_decimal};
use crate::version::{VERSION, FOOTER};
use crate::e_deduction_server::IoFormat;

verus! {

/// The name under which the program reports.
pub const PROGRAM_NAME: &'static str = "eground";

/// The message for a negative number of split tries.
pub const SPLIT_TRIES_ERROR: &'static str = "Argument to option --split-tries has to be value greater than or equal to 0 ";

/// The definitional CNF limit unless another is given.
pub const DEFAULT_FORMULA_DEF_LIMIT: i64 = 24;

/// The message where "Auto" asks for a memory limit and the physical memory
/// is unknown.
pub const AUTO_MEMORY_ERROR: &'static str = "Cannot find physical memory automatically. Give explicit value to --memory-limit";

/// The options of the program.
#[derive(Clone, Copy, Debug, PartialEq, Eq, Structural)]
pub enum OptionCode {
    Help,
    Version,
    Verbose,
    Output,
    Silent,
    OutputLevel,
    PrintStatistics,
    ResourcesInfo,
    SuppressResult,
    LopParse,
    TptpParse,
    TptpPrint,
    TptpFormat,
    TstpParse,
    TstpPrint,
    TstpFormat,
    DimacsPrint,
    DefinitionalCnf,
    MiniscopeLimit,
    SplitTries,
    DisableUnitSubsumption,
    DisableUnitResolution,
    DisableTautologyDetection,
    MemoryLimit,
    CpuLimit,
    SoftCpuLimit,
    PartComplete,
    GiveUp,
    Constraints,
    LocalConstraints,
    FixMinisat,
}

/// The option table.
#[verifier::opaque]
pub open spec fn option_table() -> Seq<OptCell<OptionCode>> {
    seq![
        OptCell {
            option_code: OptionCode::Help,
            short: Some('h'),
            long: "help",
            arg_type: OptArgType::NoArg,
            default: None,
            desc: "Print a short description of program usage and options.",
        },
        OptCell {
            option_code: OptionCode::Version,
            short: None,
            long: "version",
            arg_type: OptArgType::NoArg,
            default: None,
            desc: "Print the version number of the program.",
        },
        OptCell {
            option_code: OptionCode::Verbose,
            short: Some('v'),
            long: "verbose",
            arg_type: OptArgType::OptArg,
            default: Some("1"),
            desc: "Verbose comments on the progress of the program by printing technical information to stderr.",
        },
        OptCell {
            option_code: OptionCode::Output,
            short: Some('o'),
            long: "output-file",
            arg_type: OptArgType::ReqArg,
            default: None,
            desc: "Redirect output into the named file.",
        },
        OptCell {
            option_code: OptionCode::Silent,
            short: Some('s'),
            long: "silent",
            arg_type: OptArgType::NoArg,
            default: None,
            desc: "Equivalent to --output-level=0.",
        },
        OptCell {
            option_code: OptionCode::OutputLevel,
            short: Some('l'),
            long: "output-level",
            arg_type: OptArgType::ReqArg,
            default: None,
            desc: "Select an output level, greater values imply more verbose output.",
        },
        OptCell {
            option_code: OptionCode::PrintStatistics,
            short: None,
            long: "print-statistics",
            arg_type: OptArgType::NoArg,
            default: None,
            desc: "Print a short statistical summary of clauses read and generated.",
        },
        OptCell {
            option_code: OptionCode::ResourcesInfo,
            short: Some('R'),
            long: "resources-info",
            arg_type: OptArgType::NoArg,
            default: None,
            desc: "Give some information about the resources used by the system.",
        },
        OptCell {
            option_code: OptionCode::SuppressResult,
            short: None,
            long: "suppress-result",
            arg_type: OptArgType::NoArg,
            default: None,
            desc: "Suppress actual printing of the result, just give a short message about success.",
        },
        OptCell {
            option_code: OptionCode::LopParse,
            short: None,
            long: "lop-in",
            arg_type: OptArgType::NoArg,
            default: None,
            desc: "Set E-LOP as the input format.",
        },
        OptCell {
            option_code: OptionCode::TptpParse,
            short: None,
            long: "tptp-in",
            arg_type: OptArgType::NoArg,
            default: None,
            desc: "Parse TPTP-2 format instead of E-LOP.",
        },
        OptCell {
            option_code: OptionCode::TptpPrint,
            short: None,
            long: "tptp-out",
            arg_type: OptArgType::NoArg,
            default: None,
            desc: "Print TPTP-2 format instead of E-LOP.",
        },
        OptCell {
            option_code: OptionCode::TptpFormat,
            short: None,
            long: "tptp-format",
            arg_type: OptArgType::NoArg,
            default: None,
            desc: "Equivalent to --tptp-in and --tptp-out.",
        },
        OptCell {
            option_code: OptionCode::TptpParse,
            short: None,
            long: "tptp2-in",
            arg_type: OptArgType::NoArg,
            default: None,
            desc: "Synonymous with --tptp-in.",
        },
        OptCell {
            option_code: OptionCode::TptpPrint,
            short: None,
            long: "tptp2-out",
            arg_type: OptArgType::NoArg,
            default: None,
            desc: "Synonymous with --tptp-out.",
        },
        OptCell {
            option_code: OptionCode::TptpFormat,
            short: None,
            long: "tptp2-format",
            arg_type: OptArgType::NoArg,
            default: None,
            desc: "Synonymous with --tptp-format.",
        },
        OptCell {
            option_code: OptionCode::TstpParse,
            short: None,
            long: "tstp-in",
            arg_type: OptArgType::NoArg,
            default: None,
            desc: "Parse TPTP-3 format instead of E-LOP.",
        },
        OptCell {
            option_code: OptionCode::TstpPrint,
            short: None,
            long: "tstp-out",
            arg_type: OptArgType::NoArg,
            default: None,
            desc: "Print output clauses in TPTP-3 syntax.",
        },
        OptCell {
            option_code: OptionCode::TstpFormat,
            short: None,
            long: "tstp-format",
            arg_type: OptArgType::NoArg,
            default: None,
            desc: "Equivalent to --tstp-in and --tstp-out.",
        },
        OptCell {
            option_code: OptionCode::TstpParse,
            short: None,
            long: "tptp3-in",
            arg_type: OptArgType::NoArg,
            default: None,
            desc: "Synonymous with --tstp-in.",
        },
        OptCell {
            option_code: OptionCode::TstpPrint,
            short: None,
            long: "tptp3-out",
            arg_type: OptArgType::NoArg,
            default: None,
            desc: "Synonymous with --tstp-out.",
        },
        OptCell {
            option_code: OptionCode::TstpFormat,
            short: None,
            long: "tptp3-format",
            arg_type: OptArgType::NoArg,
            default: None,
            desc: "Synonymous with --tstp-format.",
        },
        OptCell {
            option_code: OptionCode::DimacsPrint,
            short: Some('d'),
            long: "dimacs",
            arg_type: OptArgType::NoArg,
            default: None,
            desc: "Print output in the DIMACS format suitable for many propositional provers.",
        },
        OptCell {
            option_code: OptionCode::DefinitionalCnf,
            short: None,
            long: "definitional-cnf",
            arg_type: OptArgType::OptArg,
            default: Some("24"),
            desc: "Tune the clausification algorithm to introduce definitions for subformulae.",
        },
        OptCell {
            option_code: OptionCode::MiniscopeLimit,
            short: None,
            long: "miniscope-limit",
            arg_type: OptArgType::OptArg,
            default: Some("1000"),
            desc: "Set the limit of variables to miniscope per input formula.",
        },
        OptCell {
            option_code: OptionCode::SplitTries,
            short: None,
            long: "split-tries",
            arg_type: OptArgType::OptArg,
            default: Some("1"),
            desc: "Determine the number of tries for splitting.",
        },
        OptCell {
            option_code: OptionCode::DisableUnitSubsumption,
            short: Some('U'),
            long: "no-unit-subsumption",
            arg_type: OptArgType::NoArg,
            default: None,
            desc: "Do not check if clauses are subsumed by previously encountered unit clauses.",
        },
        OptCell {
            option_code: OptionCode::DisableUnitResolution,
            short: Some('r'),
            long: "no-unit-resolution",
            arg_type: OptArgType::NoArg,
            default: None,
            desc: "Do not perform forward-unit-resolution on new clauses.",
        },
        OptCell {
            option_code: OptionCode::DisableTautologyDetection,
            short: Some('t'),
            long: "no-tautology-detection",
            arg_type: OptArgType::NoArg,
            default: None,
            desc: "Do not perform tautology deletion on new clauses.",
        },
        OptCell {
            option_code: OptionCode::MemoryLimit,
            short: Some('m'),
            long: "memory-limit",
            arg_type: OptArgType::ReqArg,
            default: None,
            desc: "Limit the memory the system may use. The argument is the allowed amount of memory in MB.",
        },
        OptCell {
            option_code: OptionCode::CpuLimit,
            short: None,
            long: "cpu-limit",
            arg_type: OptArgType::OptArg,
            default: Some("300"),
            desc: "Limit the cpu time the program should run.",
        },
        OptCell {
            option_code: OptionCode::SoftCpuLimit,
            short: None,
            long: "soft-cpu-limit",
            arg_type: OptArgType::OptArg,
            default: Some("310"),
            desc: "Limit the cpu time spent in grounding.",
        },
        OptCell {
            option_code: OptionCode::PartComplete,
            short: Some('i'),
            long: "add-one-instance",
            arg_type: OptArgType::NoArg,
            default: None,
            desc: "If grounding runs out of time or memory, try to add at least one instance of each clause.",
        },
        OptCell {
            option_code: OptionCode::GiveUp,
            short: Some('g'),
            long: "give-up",
            arg_type: OptArgType::ReqArg,
            default: None,
            desc: "Give up early if the problem is unlikely to be reasonably small.",
        },
        OptCell {
            option_code: OptionCode::Constraints,
            short: Some('c'),
            long: "constraints",
            arg_type: OptArgType::NoArg,
            default: None,
            desc: "Use global purity constraints to restrict the number of instantiations done.",
        },
        OptCell {
            option_code: OptionCode::LocalConstraints,
            short: Some('C'),
            long: "local-constraints",
            arg_type: OptArgType::NoArg,
            default: None,
            desc: "Use local purity constraints to further restrict the number of instantiations done.",
        },
        OptCell {
            option_code: OptionCode::FixMinisat,
            short: Some('M'),
            long: "fix-minisat",
            arg_type: OptArgType::NoArg,
            default: None,
            desc: "Fix the preamble to include only the maximum variable index.",
        },
    ]
}

/// The option table.
pub fn options() -> (v: Vec<OptCell<OptionCode>>)
    ensures
        v@ == option_table(),
{
    let v = vec![
        OptCell {
            option_code: OptionCode::Help,
            short: Some('h'),
            long: "help",
            arg_type: OptArgType::NoArg,
            default: None,
            desc: "Print a short description of program usage and options.",
        },
        OptCell {
            option_code: OptionCode::Version,
            short: None,
            long: "version",
            arg_type: OptArgType::NoArg,
            default: None,
            desc: "Print the version number of the program.",
        },
        OptCell {
            option_code: OptionCode::Verbose,
            short: Some('v'),
            long: "verbose",
            arg_type: OptArgType::OptArg,
            default: Some("1"),
            desc: "Verbose comments on the progress of the program by printing technical information to stderr.",
        },
        OptCell {
            option_code: OptionCode::Output,
            short: Some('o'),
            long: "output-file",
            arg_type: OptArgType::ReqArg,
            default: None,
            desc: "Redirect output into the named file.",
        },
        OptCell {
            option_code: OptionCode::Silent,
            short: Some('s'),
            long: "silent",
            arg_type: OptArgType::NoArg,
            default: None,
            desc: "Equivalent to --output-level=0.",
        },
        OptCell {
            option_code: OptionCode::OutputLevel,
            short: Some('l'),
            long: "output-level",
            arg_type: OptArgType::ReqArg,
            default: None,
            desc: "Select an output level, greater values imply more verbose output.",
        },
        OptCell {
            option_code: OptionCode::PrintStatistics,
            short: None,
            long: "print-statistics",
            arg_type: OptArgType::NoArg,
            default: None,
            desc: "Print a short statistical summary of clauses read and generated.",
        },
        OptCell {
            option_code: OptionCode::ResourcesInfo,
            short: Some('R'),
            long: "resources-info",
            arg_type: OptArgType::NoArg,
            default: None,
            desc: "Give some information about the resources used by the system.",
        },
        OptCell {
            option_code: OptionCode::SuppressResult,
            short: None,
            long: "suppress-result",
            arg_type: OptArgType::NoArg,
            default: None,
            desc: "Suppress actual printing of the result, just give a short message about success.",
        },
        OptCell {
            option_code: OptionCode::LopParse,
            short: None,
            long: "lop-in",
            arg_type: OptArgType::NoArg,
            default: None,
            desc: "Set E-LOP as the input format.",
        },
        OptCell {
            option_code: OptionCode::TptpParse,
            short: None,
            long: "tptp-in",
            arg_type: OptArgType::NoArg,
            default: None,
            desc: "Parse TPTP-2 format instead of E-LOP.",
        },
        OptCell {
            option_code: OptionCode::TptpPrint,
            short: None,
            long: "tptp-out",
            arg_type: OptArgType::NoArg,
            default: None,
            desc: "Print TPTP-2 format instead of E-LOP.",
        },
        OptCell {
            option_code: OptionCode::TptpFormat,
            short: None,
            long: "tptp-format",
            arg_type: OptArgType::NoArg,
            default: None,
            desc: "Equivalent to --tptp-in and --tptp-out.",
        },
        OptCell {
            option_code: OptionCode::TptpParse,
            short: None,
            long: "tptp2-in",
            arg_type: OptArgType::NoArg,
            default: None,
            desc: "Synonymous with --tptp-in.",
        },
        OptCell {
            option_code: OptionCode::TptpPrint,
            short: None,
            long: "tptp2-out",
            arg_type: OptArgType::NoArg,
            default: None,
            desc: "Synonymous with --tptp-out.",
        },
        OptCell {
            option_code: OptionCode::TptpFormat,
            short: None,
            long: "tptp2-format",
            arg_type: OptArgType::NoArg,
            default: None,
            desc: "Synonymous with --tptp-format.",
        },
        OptCell {
            option_code: OptionCode::TstpParse,
            short: None,
            long: "tstp-in",
            arg_type: OptArgType::NoArg,
            default: None,
            desc: "Parse TPTP-3 format instead of E-LOP.",
        },
        OptCell {
            option_code: OptionCode::TstpPrint,
            short: None,
            long: "tstp-out",
            arg_type: OptArgType::NoArg,
            default: None,
            desc: "Print output clauses in TPTP-3 syntax.",
        },
        OptCell {
            option_code: OptionCode::TstpFormat,
            short: None,
            long: "tstp-format",
            arg_type: OptArgType::NoArg,
            default: None,
            desc: "Equivalent to --tstp-in and --tstp-out.",
        },
        OptCell {
            option_code: OptionCode::TstpParse,
            short: None,
            long: "tptp3-in",
            arg_type: OptArgType::NoArg,
            default: None,
            desc: "Synonymous with --tstp-in.",
        },
        OptCell {
            option_code: OptionCode::TstpPrint,
            short: None,
            long: "tptp3-out",
            arg_type: OptArgType::NoArg,
            default: None,
            desc: "Synonymous with --tstp-out.",
        },
        OptCell {
            option_code: OptionCode::TstpFormat,
            short: None,
            long: "tptp3-format",
            arg_type: OptArgType::NoArg,
            default: None,
            desc: "Synonymous with --tstp-format.",
        },
        OptCell {
            option_code: OptionCode::DimacsPrint,
            short: Some('d'),
            long: "dimacs",
            arg_type: OptArgType::NoArg,
            default: None,
            desc: "Print output in the DIMACS format suitable for many propositional provers.",
        },
        OptCell {
            option_code: OptionCode::DefinitionalCnf,
            short: None,
            long: "definitional-cnf",
            arg_type: OptArgType::OptArg,
            default: Some("24"),
            desc: "Tune the clausification algorithm to introduce definitions for subformulae.",
        },
        OptCell {
            option_code: OptionCode::MiniscopeLimit,
            short: None,
            long: "miniscope-limit",
            arg_type: OptArgType::OptArg,
            default: Some("1000"),
            desc: "Set the limit of variables to miniscope per input formula.",
        },
        OptCell {
            option_code: OptionCode::SplitTries,
            short: None,
            long: "split-tries",
            arg_type: OptArgType::OptArg,
            default: Some("1"),
            desc: "Determine the number of tries for splitting.",
        },
        OptCell {
            option_code: OptionCode::DisableUnitSubsumption,
            short: Some('U'),
            long: "no-unit-subsumption",
            arg_type: OptArgType::NoArg,
            default: None,
            desc: "Do not check if clauses are subsumed by previously encountered unit clauses.",
        },
        OptCell {
            option_code: OptionCode::DisableUnitResolution,
            short: Some('r'),
            long: "no-unit-resolution",
            arg_type: OptArgType::NoArg,
            default: None,
            desc: "Do not perform forward-unit-resolution on new clauses.",
        },
        OptCell {
            option_code: OptionCode::DisableTautologyDetection,
            short: Some('t'),
            long: "no-tautology-detection",
            arg_type: OptArgType::NoArg,
            default: None,
            desc: "Do not perform tautology deletion on new clauses.",
        },
        OptCell {
            option_code: OptionCode::MemoryLimit,
            short: Some('m'),
            long: "memory-limit",
            arg_type: OptArgType::ReqArg,
            default: None,
            desc: "Limit the memory the system may use. The argument is the allowed amount of memory in MB.",
        },
        OptCell {
            option_code: OptionCode::CpuLimit,
            short: None,
            long: "cpu-limit",
            arg_type: OptArgType::OptArg,
            default: Some("300"),
            desc: "Limit the cpu time the program should run.",
        },
        OptCell {
            option_code: OptionCode::SoftCpuLimit,
            short: None,
            long: "soft-cpu-limit",
            arg_type: OptArgType::OptArg,
            default: Some("310"),
            desc: "Limit the cpu time spent in grounding.",
        },
        OptCell {
            option_code: OptionCode::PartComplete,
            short: Some('i'),
            long: "add-one-instance",
            arg_type: OptArgType::NoArg,
            default: None,
            desc: "If grounding runs out of time or memory, try to add at least one instance of each clause.",
        },
        OptCell {
            option_code: OptionCode::GiveUp,
            short: Some('g'),
            long: "give-up",
            arg_type: OptArgType::ReqArg,
            default: None,
            desc: "Give up early if the problem is unlikely to be reasonably small.",
        },
        OptCell {
            option_code: OptionCode::Constraints,
            short: Some('c'),
            long: "constraints",
            arg_type: OptArgType::NoArg,
            default: None,
            desc: "Use global purity constraints to restrict the number of instantiations done.",
        },
        OptCell {
            option_code: OptionCode::LocalConstraints,
            short: Some('C'),
            long: "local-constraints",
            arg_type: OptArgType::NoArg,
            default: None,
            desc: "Use local purity constraints to further restrict the number of instantiations done.",
        },
        OptCell {
            option_code: OptionCode::FixMinisat,
            short: Some('M'),
            long: "fix-minisat",
            arg_type: OptArgType::NoArg,
            default: None,
            desc: "Fix the preamble to include only the maximum variable index.",
        },
    ];
    proof {
        reveal(option_table);
        assert(v@ =~= option_table());
    }
    v
}

/// The settings of a run.
pub struct Config {
    pub output_file: Option<String>,
    pub parse_format: IoFormat,
    pub output_format: IoFormat,
    pub verbose_level: i64,
    pub output_level: i64,
    pub print_statistics: bool,
    pub print_rusage: bool,
    pub print_result: bool,
    pub dimacs_format: bool,
    pub grounding: Grounding,
    pub memory_limit: u64,
    pub hard_cpu_limit: Option<i64>,
    pub soft_cpu_limit: Option<i64>,
    pub files: Vec<String>,
}

/// The view of the settings of a run.
pub struct ConfigView {
    pub output_file: Option<Seq<char>>,
    pub parse_format: IoFormat,
    pub output_format: IoFormat,
    pub verbose_level: i64,
    pub output_level: i64,
    pub print_statistics: bool,
    pub print_rusage: bool,
    pub print_result: bool,
    pub dimacs_format: bool,
    pub grounding: GroundingView,
    pub memory_limit: u64,
    pub hard_cpu_limit: Option<i64>,
    pub soft_cpu_limit: Option<i64>,
    pub files: Seq<Seq<char>>,
}

impl Config {
    pub open spec fn view(&self) -> ConfigView {
        ConfigView {
            output_file: opt_view(self.output_file),
            parse_format: self.parse_format,
            output_format: self.output_format,
            verbose_level: self.verbose_level,
            output_level: self.output_level,
            print_statistics: self.print_statistics,
            print_rusage: self.print_rusage,
            print_result: self.print_result,
            dimacs_format: self.dimacs_format,
            grounding: self.grounding.view(),
            memory_limit: self.memory_limit,
            hard_cpu_limit: self.hard_cpu_limit,
            soft_cpu_limit: self.soft_cpu_limit,
            files: args_view(self.files@),
        }
    }
}

/// The settings before any option.
pub open spec fn default_config() -> ConfigView {
    ConfigView {
        output_file: None,
        parse_format: IoFormat::Auto,
        output_format: IoFormat::Lop,
        verbose_level: 0,
        output_level: 1,
        print_statistics: false,
        print_rusage: false,
        print_result: true,
        dimacs_format: false,
        grounding: default_grounding(),
        memory_limit: 0,
        hard_cpu_limit: None,
        soft_cpu_limit: None,
        files: Seq::empty(),
    }
}

/// What the options ask for: leave with a status (after help or version
/// text), or go on with the given settings.
pub enum Command {
    Exit(u8),
    Execute(Config),
}

pub enum CommandView {
    Exit(u8),
    Execute(ConfigView),
}

pub open spec fn command_view(r: Result<Command, Diagnostic>) -> Result<CommandView, (ErrorCode, Seq<char>)> {
    match r {
        Ok(Command::Exit(s)) => Ok(CommandView::Exit(s)),
        Ok(Command::Execute(c)) => Ok(CommandView::Execute(c.view())),
        Err(d) => Err((d.code, d.message@)),
    }
}

/// The outcome of one option: go on with the new session and settings, or
/// stop with a result.
pub enum OptStep {
    Go(SessionView, ConfigView),
    Stop(SessionView, Result<CommandView, (ErrorCode, Seq<char>)>),
}

/// The argument of an option, empty where it has none.
pub open spec fn arg_or_empty(a: Option<Seq<char>>) -> Seq<char> {
    match a {
        Some(x) => x,
        None => Seq::empty(),
    }
}


/// What one option does.
#[verifier::opaque]
pub open spec fn apply_option(s: SessionView, c: ConfigView, cell: OptCell<OptionCode>, arg: Seq<char>, sysmem: i64) -> OptStep {
    match cell.option_code {
        OptionCode::Help => OptStep::Stop(SessionView { stdout: s.stdout + help_text(), ..s }, Ok(CommandView::Exit(0))),
        OptionCode::Version => OptStep::Stop(SessionView { stdout: s.stdout + PROGRAM_NAME@ + " "@ + VERSION@ + "\n"@, ..s }, Ok(CommandView::Exit(0))),
        OptionCode::Verbose => match int_arg_value(arg) {
            Some(v) => OptStep::Go(s, ConfigView { verbose_level: v as i64, ..c }),
            None => OptStep::Stop(s, Err((ErrorCode::Usage, int_arg_error(cell)))),
        },
        OptionCode::Output => OptStep::Go(s, ConfigView { output_file: Some(arg), ..c }),
        OptionCode::Silent => OptStep::Go(s, ConfigView { output_level: 0, ..c }),
        OptionCode::OutputLevel => match int_arg_value(arg) {
            Some(v) => OptStep::Go(s, ConfigView { output_level: v as i64, ..c }),
            None => OptStep::Stop(s, Err((ErrorCode::Usage, int_arg_error(cell)))),
        },
        OptionCode::PrintStatistics => OptStep::Go(s, ConfigView { print_statistics: true, ..c }),
        OptionCode::ResourcesInfo => OptStep::Go(s, ConfigView { print_rusage: true, ..c }),
        OptionCode::SuppressResult => OptStep::Go(s, ConfigView { print_result: false, ..c }),
        OptionCode::LopParse => OptStep::Go(s, ConfigView { parse_format: IoFormat::Lop, ..c }),
        OptionCode::TptpParse => OptStep::Go(s, ConfigView { parse_format: IoFormat::Tptp, ..c }),
        OptionCode::TptpPrint => OptStep::Go(s, ConfigView { output_format: IoFormat::Tptp, ..c }),
        OptionCode::TptpFormat => OptStep::Go(s, ConfigView { parse_format: IoFormat::Tptp, output_format: IoFormat::Tptp, ..c }),
        OptionCode::TstpParse => OptStep::Go(s, ConfigView { parse_format: IoFormat::Tstp, ..c }),
        OptionCode::TstpPrint => OptStep::Go(s, ConfigView { output_format: IoFormat::Tstp, ..c }),
        OptionCode::TstpFormat => OptStep::Go(s, ConfigView { parse_format: IoFormat::Tstp, output_format: IoFormat::Tstp, ..c }),
        OptionCode::DimacsPrint => OptStep::Go(s, ConfigView { dimacs_format: true, ..c }),
        OptionCode::DefinitionalCnf => match int_arg_value(arg) {
            Some(v) => OptStep::Go(s, ConfigView { grounding: GroundingView { formula_def_limit: v as i64, ..c.grounding }, ..c }),
            None => OptStep::Stop(s, Err((ErrorCode::Usage, int_arg_error(cell)))),
        },
        OptionCode::MiniscopeLimit => match int_arg_value(arg) {
            Some(v) => OptStep::Go(s, c),
            None => OptStep::Stop(s, Err((ErrorCode::Usage, int_arg_error(cell)))),
        },
        OptionCode::SplitTries => match int_arg_value(arg) {
            Some(v) => if v < 0 {
                OptStep::Stop(s, Err((ErrorCode::Usage, SPLIT_TRIES_ERROR@)))
            } else {
                OptStep::Go(s, ConfigView { grounding: GroundingView { split_tries: v as i64, ..c.grounding }, ..c })
            },
            None => OptStep::Stop(s, Err((ErrorCode::Usage, int_arg_error(cell)))),
        },
        OptionCode::DisableUnitSubsumption => OptStep::Go(s, ConfigView { grounding: GroundingView { unit_subsumption: false, ..c.grounding }, ..c }),
        OptionCode::DisableUnitResolution => OptStep::Go(s, ConfigView { grounding: GroundingView { unit_resolution: false, ..c.grounding }, ..c }),
        OptionCode::DisableTautologyDetection => OptStep::Go(s, ConfigView { grounding: GroundingView { tautology_detection: false, ..c.grounding }, ..c }),
        OptionCode::MemoryLimit => if arg == "Auto"@ {
            if sysmem == -1 {
                OptStep::Stop(s, Err((ErrorCode::Other, AUTO_MEMORY_ERROR@)))
            } else {
                OptStep::Go(s, ConfigView { memory_limit: limit_bytes(four_fifths(sysmem as int) as i64), ..c })
            }
        } else {
            match int_arg_value(arg) {
                Some(v) => OptStep::Go(s, ConfigView { memory_limit: limit_bytes(v as i64), ..c }),
                None => OptStep::Stop(s, Err((ErrorCode::Usage, int_arg_error(cell)))),
            }
        },
        OptionCode::CpuLimit => match int_arg_value(arg) {
            Some(v) => match c.soft_cpu_limit {
                Some(soft) if !limits_ordered(v as i64, soft) => OptStep::Stop(s, Err((ErrorCode::Usage, limit_order_error(true)))),
                _ => OptStep::Go(s, ConfigView { hard_cpu_limit: Some(v as i64), ..c }),
            },
            None => OptStep::Stop(s, Err((ErrorCode::Usage, int_arg_error(cell)))),
        },
        OptionCode::SoftCpuLimit => match int_arg_value(arg) {
            Some(v) => match c.hard_cpu_limit {
                Some(hard) if !limits_ordered(hard, v as i64) => OptStep::Stop(s, Err((ErrorCode::Usage, limit_order_error(false)))),
                _ => OptStep::Go(s, ConfigView { soft_cpu_limit: Some(v as i64), ..c }),
            },
            None => OptStep::Stop(s, Err((ErrorCode::Usage, int_arg_error(cell)))),
        },
        OptionCode::PartComplete => OptStep::Go(s, ConfigView { grounding: GroundingView { add_single_instance: true, ..c.grounding }, ..c }),
        OptionCode::GiveUp => match int_arg_value(arg) {
            Some(v) => OptStep::Go(s, ConfigView { grounding: GroundingView { give_up: v as i64, ..c.grounding }, ..c }),
            None => OptStep::Stop(s, Err((ErrorCode::Usage, int_arg_error(cell)))),
        },
        OptionCode::Constraints => OptStep::Go(s, ConfigView { grounding: GroundingView { constraints: true, ..c.grounding }, ..c }),
        OptionCode::LocalConstraints => OptStep::Go(s, ConfigView { grounding: GroundingView { constraints: true, local_constraints: true, ..c.grounding }, ..c }),
        OptionCode::FixMinisat => OptStep::Go(s, ConfigView { grounding: GroundingView { fix_minisat: true, ..c.grounding }, ..c }),
    }
}


/// The options applied in order, then the positional arguments.
pub open spec fn options_fold(
    s: SessionView,
    c: ConfigView,
    opts: Seq<(int, Option<Seq<char>>)>,
    end: Result<Seq<Seq<char>>, Seq<char>>,
    sysmem: i64,
) -> (SessionView, Result<CommandView, (ErrorCode, Seq<char>)>)
    decreases opts.len(),
{
    if opts.len() == 0 {
        match end {
            Ok(rest) => (s, Ok(CommandView::Execute(ConfigView { files: input_files(rest), ..c }))),
            Err(m) => (s, Err((ErrorCode::Usage, m))),
        }
    } else {
        match apply_option(s, c, option_table()[opts[0].0], arg_or_empty(opts[0].1), sysmem) {
            OptStep::Go(s2, c2) => options_fold(s2, c2, opts.drop_first(), end, sysmem),
            OptStep::Stop(s2, r) => (s2, r),
        }
    }
}

/// What the command line asks for, and the session after it.
pub open spec fn options_outcome(args: Seq<Seq<char>>, s: SessionView, sysmem: i64) -> (SessionView, Result<CommandView, (ErrorCode, Seq<char>)>) {
    let sc = crate::cmdline::scan(args, option_table());
    options_fold(s, default_config(), sc.opts, sc.end, sysmem)
}


/// The help text.
pub open spec fn help_text() -> Seq<char> {
    "\n\n"@ + PROGRAM_NAME@ + " "@ + VERSION@ + "\n\nUsage: "@ + PROGRAM_NAME@ + " [options] [files]\n\nRead a set of clauses and determine if it can be grounded (i.e. is\neither already ground or has no non-constant function symbols). If\nthis is the case, print sufficiently many ground instances of the\nclauses to guarantee that a ground refutation can be found for\nunsatisfiable clause sets.\n\n"@ + "Options\n\n"@ + options_text(option_table()) + "\n\n"@ + FOOTER@
}


/// The help text.
pub fn print_help() -> (s: String)
    ensures
        s@ == help_text(),
{
    let mut s = String::new();
    push_str(&mut s, "\n\n");
    push_str(&mut s, PROGRAM_NAME);
    push_str(&mut s, " ");
    push_str(&mut s, VERSION);
    push_str(&mut s, "\n\nUsage: ");
    push_str(&mut s, PROGRAM_NAME);
    push_str(&mut s, " [options] [files]\n\nRead a set of clauses and determine if it can be grounded (i.e. is\neither already ground or has no non-constant function symbols). If\nthis is the case, print sufficiently many ground instances of the\nclauses to guarantee that a ground refutation can be found for\nunsatisfiable clause sets.\n\n");
    let opts = options();
    let o = print_options(&opts, Some("Options\n\n"));
    push_str(&mut s, o.as_str());
    push_str(&mut s, "\n\n");
    push_str(&mut s, FOOTER);
    s
}


/// Applies one option to the session and the settings; `None` where the
/// run goes on with the next.
#[verifier::rlimit(60)]
fn apply_option_part1(cell: &OptCell<OptionCode>, arg: String, sess: &mut Session, cfg: &mut Config, sysmem: i64) -> (r: Option<Result<Command, Diagnostic>>)
    requires
        sysmem >= -1,
        cell.option_code == OptionCode::Help || cell.option_code == OptionCode::Version || cell.option_code == OptionCode::Verbose || cell.option_code == OptionCode::Output || cell.option_code == OptionCode::Silent || cell.option_code == OptionCode::OutputLevel || cell.option_code == OptionCode::PrintStatistics || cell.option_code == OptionCode::ResourcesInfo || cell.option_code == OptionCode::SuppressResult || cell.option_code == OptionCode::LopParse || cell.option_code == OptionCode::TptpParse,
    ensures
        match apply_option(old(sess).view(), old(cfg).view(), *cell, arg@, sysmem) {
            OptStep::Go(s2, c2) => r is None && final(sess).view() == s2 && final(cfg).view() == c2,
            OptStep::Stop(s2, res) => (r matches Some(x) && command_view(x) == res) && final(sess).view() == s2,
        },
{
    proof {
        reveal(apply_option);
    }
    match cell.option_code {
        OptionCode::Help => {
            let h = print_help();
            push_str(&mut sess.stdout, h.as_str());
            return Some(Ok(Command::Exit(0)));
        },
        OptionCode::Version => {
            push_str(&mut sess.stdout, PROGRAM_NAME);
            push_str(&mut sess.stdout, " ");
            push_str(&mut sess.stdout, VERSION);
            push_str(&mut sess.stdout, "\n");
            return Some(Ok(Command::Exit(0)));
        },
        OptionCode::Verbose => {
            match get_int_arg(cell, arg.as_str()) {
                Ok(v) => {
                    cfg.verbose_level = v;
                },
                Err(d) => {
                    return Some(Err(d));
                },
            }
        },
        OptionCode::Output => {
            cfg.output_file = Some(arg);
        },
        OptionCode::Silent => {
            cfg.output_level = 0;
        },
        OptionCode::OutputLevel => {
            match get_int_arg(cell, arg.as_str()) {
                Ok(v) => {
                    cfg.output_level = v;
                },
                Err(d) => {
                    return Some(Err(d));
                },
            }
        },
        OptionCode::PrintStatistics => {
            cfg.print_statistics = true;
        },
        OptionCode::ResourcesInfo => {
            cfg.print_rusage = true;
        },
        OptionCode::SuppressResult => {
            cfg.print_result = false;
        },
        OptionCode::LopParse => {
            cfg.parse_format = IoFormat::Lop;
        },
        OptionCode::TptpParse => {
            cfg.parse_format = IoFormat::Tptp;
        },
        _ => {},
    }
    None
}


/// Applies one option to the session and the settings; `None` where the
/// run goes on with the next.
#[verifier::rlimit(60)]
fn apply_option_part2(cell: &OptCell<OptionCode>, arg: String, sess: &mut Session, cfg: &mut Config, sysmem: i64) -> (r: Option<Result<Command, Diagnostic>>)
    requires
        sysmem >= -1,
        cell.option_code == OptionCode::TptpPrint || cell.option_code == OptionCode::TptpFormat || cell.option_code == OptionCode::TstpParse || cell.option_code == OptionCode::TstpPrint || cell.option_code == OptionCode::TstpFormat || cell.option_code == OptionCode::DimacsPrint || cell.option_code == OptionCode::DefinitionalCnf || cell.option_code == OptionCode::MiniscopeLimit || cell.option_code == OptionCode::SplitTries || cell.option_code == OptionCode::DisableUnitSubsumption || cell.option_code == OptionCode::DisableUnitResolution,
    ensures
        match apply_option(old(sess).view(), old(cfg).view(), *cell, arg@, sysmem) {
            OptStep::Go(s2, c2) => r is None && final(sess).view() == s2 && final(cfg).view() == c2,
            OptStep::Stop(s2, res) => (r matches Some(x) && command_view(x) == res) && final(sess).view() == s2,
        },
{
    proof {
        reveal(apply_option);
    }
    match cell.option_code {
        OptionCode::TptpPrint => {
            cfg.output_format = IoFormat::Tptp;
        },
        OptionCode::TptpFormat => {
            cfg.parse_format = IoFormat::Tptp;
            cfg.output_format = IoFormat::Tptp;
        },
        OptionCode::TstpParse => {
            cfg.parse_format = IoFormat::Tstp;
        },
        OptionCode::TstpPrint => {
            cfg.output_format = IoFormat::Tstp;
        },
        OptionCode::TstpFormat => {
            cfg.parse_format = IoFormat::Tstp;
            cfg.output_format = IoFormat::Tstp;
        },
        OptionCode::DimacsPrint => {
            cfg.dimacs_format = true;
        },
        OptionCode::DefinitionalCnf => {
            match get_int_arg(cell, arg.as_str()) {
                Ok(v) => {
                    cfg.grounding.formula_def_limit = v;
                },
                Err(d) => {
                    return Some(Err(d));
                },
            }
        },
        OptionCode::MiniscopeLimit => {
            match get_int_arg(cell, arg.as_str()) {
                Ok(_) => {},
                Err(d) => {
                    return Some(Err(d));
                },
            }
        },
        OptionCode::SplitTries => {
            match get_int_arg(cell, arg.as_str()) {
                Ok(v) => {
                    if v < 0 {
                        return Some(Err(diag(ErrorCode::Usage, SPLIT_TRIES_ERROR)));
                    }
                    cfg.grounding.split_tries = v;
                },
                Err(d) => {
                    return Some(Err(d));
                },
            }
        },
        OptionCode::DisableUnitSubsumption => {
            cfg.grounding.unit_subsumption = false;
        },
        OptionCode::DisableUnitResolution => {
            cfg.grounding.unit_resolution = false;
        },
        _ => {},
    }
    None
}


/// Applies one option to the session and the settings; `None` where the
/// run goes on with the next.
#[verifier::rlimit(60)]
fn apply_option_part3(cell: &OptCell<OptionCode>, arg: String, sess: &mut Session, cfg: &mut Config, sysmem: i64) -> (r: Option<Result<Command, Diagnostic>>)
    requires
        sysmem >= -1,
        cell.option_code == OptionCode::DisableTautologyDetection || cell.option_code == OptionCode::MemoryLimit || cell.option_code == OptionCode::CpuLimit || cell.option_code == OptionCode::SoftCpuLimit || cell.option_code == OptionCode::PartComplete || cell.option_code == OptionCode::GiveUp || cell.option_code == OptionCode::Constraints || cell.option_code == OptionCode::LocalConstraints || cell.option_code == OptionCode::FixMinisat,
    ensures
        match apply_option(old(sess).view(), old(cfg).view(), *cell, arg@, sysmem) {
            OptStep::Go(s2, c2) => r is None && final(sess).view() == s2 && final(cfg).view() == c2,
            OptStep::Stop(s2, res) => (r matches Some(x) && command_view(x) == res) && final(sess).view() == s2,
        },
{
    proof {
        reveal(apply_option);
    }
    match cell.option_code {
        OptionCode::DisableTautologyDetection => {
            cfg.grounding.tautology_detection = false;
        },
        OptionCode::MemoryLimit => {
            proof {
                reveal_strlit("Auto");
            }
            if same_text(arg.as_str(), "Auto") {
                if sysmem == -1 {
                    return Some(Err(diag(ErrorCode::Other, AUTO_MEMORY_ERROR)));
                }
                let auto = auto_memory_mb(sysmem);
                cfg.memory_limit = (auto as u64).wrapping_mul(MEGA);
            } else {
                match get_int_arg(cell, arg.as_str()) {
                    Ok(v) => {
                        cfg.memory_limit = (v as u64).wrapping_mul(MEGA);
                    },
                    Err(d) => {
                        return Some(Err(d));
                    },
                }
            }
        },
        OptionCode::CpuLimit => {
            match get_int_arg(cell, arg.as_str()) {
                Ok(v) => {
                    match cfg.soft_cpu_limit {
                        Some(soft) => {
                            match check_hard_soft_limits(v, soft, true) {
                                Ok(()) => {},
                                Err(d) => {
                                    return Some(Err(d));
                                },
                            }
                        },
                        None => {},
                    }
                    cfg.hard_cpu_limit = Some(v);
                },
                Err(d) => {
                    return Some(Err(d));
                },
            }
        },
        OptionCode::SoftCpuLimit => {
            match get_int_arg(cell, arg.as_str()) {
                Ok(v) => {
                    match cfg.hard_cpu_limit {
                        Some(hard) => {
                            match check_hard_soft_limits(hard, v, false) {
                                Ok(()) => {},
                                Err(d) => {
                                    return Some(Err(d));
                                },
                            }
                        },
                        None => {},
                    }
                    cfg.soft_cpu_limit = Some(v);
                },
                Err(d) => {
                    return Some(Err(d));
                },
            }
        },
        OptionCode::PartComplete => {
            cfg.grounding.add_single_instance = true;
        },
        OptionCode::GiveUp => {
            match get_int_arg(cell, arg.as_str()) {
                Ok(v) => {
                    cfg.grounding.give_up = v;
                },
                Err(d) => {
                    return Some(Err(d));
                },
            }
        },
        OptionCode::Constraints => {
            cfg.grounding.constraints = true;
        },
        OptionCode::LocalConstraints => {
            cfg.grounding.constraints = true;
            cfg.grounding.local_constraints = true;
        },
        OptionCode::FixMinisat => {
            cfg.grounding.fix_minisat = true;
        },
        _ => {},
    }
    None
}


/// Applies one option to the session and the settings; `None` where the
/// run goes on with the next.
fn apply_option_exec(cell: &OptCell<OptionCode>, arg: String, sess: &mut Session, cfg: &mut Config, sysmem: i64) -> (r: Option<Result<Command, Diagnostic>>)
    requires
        sysmem >= -1,
    ensures
        match apply_option(old(sess).view(), old(cfg).view(), *cell, arg@, sysmem) {
            OptStep::Go(s2, c2) => r is None && final(sess).view() == s2 && final(cfg).view() == c2,
            OptStep::Stop(s2, res) => (r matches Some(x) && command_view(x) == res) && final(sess).view() == s2,
        },
{
    match cell.option_code {
        OptionCode::Help | OptionCode::Version | OptionCode::Verbose | OptionCode::Output | OptionCode::Silent | OptionCode::OutputLevel | OptionCode::PrintStatistics | OptionCode::ResourcesInfo | OptionCode::SuppressResult | OptionCode::LopParse | OptionCode::TptpParse => apply_option_part1(cell, arg, sess, cfg, sysmem),
        OptionCode::TptpPrint | OptionCode::TptpFormat | OptionCode::TstpParse | OptionCode::TstpPrint | OptionCode::TstpFormat | OptionCode::DimacsPrint | OptionCode::DefinitionalCnf | OptionCode::MiniscopeLimit | OptionCode::SplitTries | OptionCode::DisableUnitSubsumption | OptionCode::DisableUnitResolution => apply_option_part2(cell, arg, sess, cfg, sysmem),
        OptionCode::DisableTautologyDetection | OptionCode::MemoryLimit | OptionCode::CpuLimit | OptionCode::SoftCpuLimit | OptionCode::PartComplete | OptionCode::GiveUp | OptionCode::Constraints | OptionCode::LocalConstraints | OptionCode::FixMinisat => apply_option_part3(cell, arg, sess, cfg, sysmem),
    }
}


/// Reads the command line.
#[verifier::rlimit(100)]
pub fn process_options(args: &Vec<String>, sess: &mut Session, sysmem: i64) -> (r: Result<Command, Diagnostic>)
    requires
        sysmem >= -1,
    ensures
        (final(sess).view(), command_view(r)) == options_outcome(args_view(args@), old(sess).view(), sysmem),
{
    let opts = options();
    let mut state = CommandLineState::new(args);
    let mut cfg = Config {
        output_file: None,
        parse_format: IoFormat::Auto,
        output_format: IoFormat::Lop,
        verbose_level: 0,
        output_level: 1,
        print_statistics: false,
        print_rusage: false,
        print_result: true,
        dimacs_format: false,
        grounding: no_grounding_changes(),
        memory_limit: 0,
        hard_cpu_limit: None,
        soft_cpu_limit: None,
        files: Vec::new(),
    };
    let ghost goal = options_outcome(args_view(args@), old(sess).view(), sysmem);
    proof {
        assert(args_view(cfg.files@) =~= Seq::<Seq<char>>::empty());
    }
    loop
        invariant
            sysmem >= -1,
            state.wf(),
            state.args_seq() == args_view(args@),
            opts@ == option_table(),
            goal == options_outcome(args_view(args@), old(sess).view(), sysmem),
            ({
                let sc = scan_from(args_view(args@), option_table(), state.state());
                options_fold(sess.view(), cfg.view(), sc.opts, sc.end, sysmem) == goal
            }),
        decreases args.len() - state.state().argi, scan_measure(args_view(args@), state.state()),
    {
        let ghost st = state.state();
        proof {
            if !st.done {
                let (st2, ev) = step(args_view(args@), option_table(), st);
                if ev is Opt {
                    lemma_step_progress(args_view(args@), option_table(), st);
                }
            }
        }
        match state.next_opt(&opts) {
            Err(d) => {
                return Err(d);
            },
            Ok(None) => {
                let rest = state.remaining_args();
                if rest.len() == 0 {
                    let mut v: Vec<String> = Vec::new();
                    v.push(owned("-"));
                    proof {
                        assert(args_view(v@) =~= seq!["-"@]);
                    }
                    cfg.files = v;
                } else {
                    cfg.files = rest;
                }
                return Ok(Command::Execute(cfg));
            },
            Ok(Some(p)) => {
                proof {
                    crate::cmdline::lemma_step_opt_index(args_view(args@), option_table(), st);
                }
                let cell = &opts[p.index];
                let arg: String = match &p.arg {
                    Some(a) => copy_string(a),
                    None => String::new(),
                };
                proof {
                    assert(arg@ == arg_or_empty(opt_view(p.arg)));
                }
                match apply_option_exec(cell, arg, sess, &mut cfg, sysmem) {
                    Some(res) => {
                        return res;
                    },
                    None => {},
                }
                proof {
                    let sc = scan_from(args_view(args@), option_table(), st);
                    let tail = scan_from(args_view(args@), option_table(), state.state());
                    assert(sc.opts == seq![(p.index as int, opt_view(p.arg))].add(tail.opts));
                    assert(sc.opts.drop_first() =~= tail.opts);
                }
            },
        }
    }
}


/// The settings of the grounding procedure.
pub struct Grounding {
    pub split_tries: i64,
    pub unit_subsumption: bool,
    pub unit_resolution: bool,
    pub tautology_detection: bool,
    pub add_single_instance: bool,
    pub constraints: bool,
    pub local_constraints: bool,
    pub fix_minisat: bool,
    pub give_up: i64,
    pub formula_def_limit: i64,
}

pub struct GroundingView {
    pub split_tries: i64,
    pub unit_subsumption: bool,
    pub unit_resolution: bool,
    pub tautology_detection: bool,
    pub add_single_instance: bool,
    pub constraints: bool,
    pub local_constraints: bool,
    pub fix_minisat: bool,
    pub give_up: i64,
    pub formula_def_limit: i64,
}

impl Grounding {
    pub open spec fn view(&self) -> GroundingView {
        GroundingView {
            split_tries: self.split_tries,
            unit_subsumption: self.unit_subsumption,
            unit_resolution: self.unit_resolution,
            tautology_detection: self.tautology_detection,
            add_single_instance: self.add_single_instance,
            constraints: self.constraints,
            local_constraints: self.local_constraints,
            fix_minisat: self.fix_minisat,
            give_up: self.give_up,
            formula_def_limit: self.formula_def_limit,
        }
    }
}

/// The grounding settings before any option.
pub open spec fn default_grounding() -> GroundingView {
    GroundingView {
        split_tries: 0,
        unit_subsumption: true,
        unit_resolution: true,
        tautology_detection: true,
        add_single_instance: false,
        constraints: false,
        local_constraints: false,
        fix_minisat: false,
        give_up: 0,
        formula_def_limit: DEFAULT_FORMULA_DEF_LIMIT,
    }
}

/// How clauses are read: whether each clause has variables of its own, and
/// whether the variables of different clauses are kept apart.
#[derive(Clone, Copy, Debug, PartialEq, Eq, Structural)]
pub struct ClauseParseOptions {
    pub clauses_have_local_variables: bool,
    pub clauses_have_disjoint_variables: bool,
}

impl Default for ClauseParseOptions {
    /// The usual reading: each clause has variables of its own.
    fn default() -> (o: Self)
        ensures
            o.clauses_have_local_variables,
            !o.clauses_have_disjoint_variables,
    {
        ClauseParseOptions { clauses_have_local_variables: true, clauses_have_disjoint_variables: false }
    }
}

/// How the clauses to ground are read: with local constraints the variables
/// of all clauses are kept apart rather than local to each clause; otherwise
/// the usual reading.
pub fn clause_parse_options(cfg: &Config) -> (o: ClauseParseOptions)
    ensures
        o.clauses_have_local_variables == !cfg.grounding.local_constraints,
        o.clauses_have_disjoint_variables == cfg.grounding.local_constraints,
{
    if cfg.grounding.local_constraints {
        ClauseParseOptions { clauses_have_local_variables: false, clauses_have_disjoint_variables: true }
    } else {
        ClauseParseOptions::default()
    }
}

/// See `default_grounding`.
pub fn no_grounding_changes() -> (g: Grounding)
    ensures
        g.view() == default_grounding(),
{
    Grounding {
        split_tries: 0,
        unit_subsumption: true,
        unit_resolution: true,
        tautology_detection: true,
        add_single_instance: false,
        constraints: false,
        local_constraints: false,
        fix_minisat: false,
        give_up: 0,
        formula_def_limit: DEFAULT_FORMULA_DEF_LIMIT,
    }
}

/// A run up to reading the clauses: the options, then the levels that the
/// settings give the session; where the run goes on, its settings (the
/// application sets the resource limits, reads the clauses and grounds
/// them). `sysmem` is the physical memory in megabytes, -1 where unknown.
pub fn run(args: &Vec<String>, sysmem: i64) -> (r: (RunReport, Option<Config>))
    requires
        sysmem >= -1,
    ensures
        ({
            let (s, cmd) = options_outcome(args_view(args@), SessionView { verbose: 0, output_level: 1, stdout: Seq::empty(), stderr: Seq::empty() }, sysmem);
            &&& r.0.stdout@ == s.stdout
            &&& match cmd {
                Err((code, m)) => (r.0.result matches Err(d) && d.code == code && d.message@ == m) && r.1 is None,
                Ok(CommandView::Exit(st)) => (r.0.result matches Ok(x) && x == st) && r.1 is None,
                Ok(CommandView::Execute(cv)) => (r.0.result matches Ok(x) && x == 0) && (r.1 matches Some(c) && c.view() == cv)
                    && r.0.verbose == saturate_i32(cv.verbose_level) && r.0.output_level == cv.output_level
                    && opt_view(r.0.output_file) == output_target_view(cv.output_file),
            }
        }),
{
    let mut sess = Session::new(0, 1);
    let cmd = process_options(args, &mut sess, sysmem);
    let (result, cfg, target) = match cmd {
        Err(d) => (Err(d), None, None),
        Ok(Command::Exit(st)) => (Ok(st), None, None),
        Ok(Command::Execute(c)) => {
            sess.verbose = saturating_i32(c.verbose_level);
            sess.output_level = c.output_level;
            let t = output_target(&c.output_file);
            (Ok(0), Some(c), t)
        },
    };
    (RunReport { result, stdout: sess.stdout, output: String::new(), output_file: target, stderr: sess.stderr, verbose: sess.verbose, output_level: sess.output_level, close_output: true }, cfg)
}


/// How complete the ground instances written are.
#[derive(Clone, Copy, Debug, PartialEq, Eq, Structural)]
pub enum GroundSetState {
    Complete,
    LowMemory,
    Timeout,
    Unknown,
}

/// The line that tells how complete the written instances are.
pub open spec fn completion_line(state: GroundSetState) -> Seq<char> {
    "% "@ + match state {
        GroundSetState::Complete => "Full and complete proof state written!"@,
        GroundSetState::LowMemory => "Out of memory: Proof state incomplete!"@,
        GroundSetState::Timeout => "Timeout: Proof state incomplete!"@,
        GroundSetState::Unknown => "Proof state incomplete!"@,
    } + "\n"@
}

/// The text written where the estimated number of instances exceeds the
/// limit given with --give-up.
pub const GIVE_UP_FAILURE: &'static str = "\n% Failure: User resource limit exceeded (estimated number of instances)!\n";

/// The sizes of the input and of the ground instances.
pub struct GroundingStats {
    pub initial_clauses: i64,
    pub initial_literals: i64,
    pub generated_clauses: i64,
    pub generated_literals: i64,
}

/// The statistics block.
pub open spec fn statistics_text(st: GroundingStats) -> Seq<char> {
    "\n"@ + "% Initial clauses                      : "@ + signed_decimal(st.initial_clauses as int) + "\n"@
        + "% Initial literals                     : "@ + signed_decimal(st.initial_literals as int) + "\n"@
        + "% Generated clauses                    : "@ + signed_decimal(st.generated_clauses as int) + "\n"@
        + "% Generated literals                   : "@ + signed_decimal(st.generated_literals as int) + "\n"@
}

/// What a successful run writes: a blank line at output level 1; the
/// ground instances as printed (`ground_text`) and how complete they are,
/// or only "% Success!" where results are suppressed; and the statistics
/// where they are asked for.
pub open spec fn result_text(c: ConfigView, ground_text: Seq<char>, state: GroundSetState, st: GroundingStats) -> Seq<char> {
    (if c.output_level == 1 {
        "\n"@
    } else {
        Seq::empty()
    }) + (if c.print_result {
        ground_text + completion_line(state)
    } else {
        "% Success!\n"@
    }) + (if c.print_statistics {
        statistics_text(st)
    } else {
        Seq::empty()
    })
}

fn push_completion(out: &mut String, state: GroundSetState)
    ensures
        final(out)@ == old(out)@ + completion_line(state),
{
    let ghost start = out@;
    push_str(out, "% ");
    match state {
        GroundSetState::Complete => push_str(out, "Full and complete proof state written!"),
        GroundSetState::LowMemory => push_str(out, "Out of memory: Proof state incomplete!"),
        GroundSetState::Timeout => push_str(out, "Timeout: Proof state incomplete!"),
        GroundSetState::Unknown => push_str(out, "Proof state incomplete!"),
    }
    push_str(out, "\n");
    proof {
        assert(out@ =~= start + completion_line(state));
    }
}

fn push_statistics(out: &mut String, st: &GroundingStats)
    ensures
        final(out)@ == old(out)@ + statistics_text(*st),
{
    let ghost start = out@;
    push_str(out, "\n");
    push_str(out, "% Initial clauses                      : ");
    push_i64(out, st.initial_clauses);
    push_str(out, "\n");
    push_str(out, "% Initial literals                     : ");
    push_i64(out, st.initial_literals);
    push_str(out, "\n");
    push_str(out, "% Generated clauses                    : ");
    push_i64(out, st.generated_clauses);
    push_str(out, "\n");
    push_str(out, "% Generated literals                   : ");
    push_i64(out, st.generated_literals);
    push_str(out, "\n");
    proof {
        assert(out@ =~= start + statistics_text(*st));
    }
}

/// Writes the result of a successful run (see `result_text`).
pub fn write_eground_result(cfg: &Config, ground_text: &str, state: GroundSetState, st: &GroundingStats, out: &mut String)
    ensures
        final(out)@ == old(out)@ + result_text(cfg.view(), ground_text@, state, *st),
{
    let ghost start = out@;
    if cfg.output_level == 1 {
        push_str(out, "\n");
    }
    let ghost mid = out@;
    if cfg.print_result {
        push_str(out, ground_text);
        push_completion(out, state);
    } else {
        push_str(out, "% Success!\n");
    }
    let ghost after = out@;
    if cfg.print_statistics {
        push_statistics(out, st);
    }
    proof {
        let a: Seq<char> = if cfg.output_level == 1 { "\n"@ } else { Seq::<char>::empty() };
        let b: Seq<char> = if cfg.print_result { ground_text@ + completion_line(state) } else { "% Success!\n"@ };
        let c: Seq<char> = if cfg.print_statistics { statistics_text(*st) } else { Seq::<char>::empty() };
        assert(mid =~= start + a);
        assert(after =~= mid + b);
        assert(out@ =~= start + (a + b + c));
    }
}


/// The warning for a clause set with equational literals, which are recoded.
pub const RECODING_WARNING: &'static str = "Warning: Recoding equational literals. Be sure to include equality axioms!\n";

/// The error for a clause set that cannot be grounded.
pub const NOT_NEAR_PROPOSITIONAL: &'static str = "Grounding not possible: Specification is not near-propositional. There is an infinite Herbrand universe and there are non-ground clauses in the specification!";

/// What the clause set shows before grounding: the number of equational
/// clauses, the greatest arity of a function symbol, and whether every
/// clause is ground.
pub struct ClauseSetFeatures {
    pub eq_clauses: i64,
    pub max_function_arity: i64,
    pub all_ground: bool,
}

/// A clause set can be grounded when its Herbrand universe is finite (no
/// function symbol of positive arity) or every clause is ground.
pub open spec fn near_propositional(f: ClauseSetFeatures) -> bool {
    f.max_function_arity == 0 || f.all_ground
}

/// The outcome of one grounding pass: the ground set and how complete it
/// is, or the estimated number of instances over the --give-up limit.
#[derive(Clone, Copy, Debug, PartialEq, Eq, Structural)]
pub enum GroundingPass {
    Grounded(GroundSetState),
    EstimateLimitExceeded,
}

/// A second, constrained pass with the most frequent symbol follows a
/// first pass that grounded incompletely, where single instances are asked
/// for.
pub open spec fn needs_retry(c: ConfigView, first: GroundingPass) -> bool {
    match first {
        GroundingPass::Grounded(st) => st != GroundSetState::Complete && c.grounding.add_single_instance,
        GroundingPass::EstimateLimitExceeded => false,
    }
}

/// How complete the result of a run is: `None` where a pass gave up on its
/// estimate; else the state of the first pass, which a second pass keeps.
pub open spec fn grounding_state(c: ConfigView, first: GroundingPass, retry: Option<GroundingPass>) -> Option<GroundSetState> {
    match first {
        GroundingPass::EstimateLimitExceeded => None,
        GroundingPass::Grounded(st) => if needs_retry(c, first) && retry == Some(GroundingPass::EstimateLimitExceeded) {
            None
        } else {
            Some(st)
        },
    }
}

/// Whether a second pass is needed (see `needs_retry`).
pub fn grounding_retry_needed(cfg: &Config, first: GroundingPass) -> (b: bool)
    ensures
        b == needs_retry(cfg.view(), first),
{
    match first {
        GroundingPass::Grounded(st) => st != GroundSetState::Complete && cfg.grounding.add_single_instance,
        GroundingPass::EstimateLimitExceeded => false,
    }
}

/// A run from the clause set's features and the outcomes of the grounding
/// passes: the recoding warning where there are equational clauses; the
/// error for a clause set that is not near-propositional; else status 0,
/// with the give-up failure where a pass gave up, or the result (see
/// `result_text`). The second pass is read only where it is needed.
pub fn execute_eground(
    cfg: &Config,
    f: &ClauseSetFeatures,
    first: GroundingPass,
    retry: Option<GroundingPass>,
    ground_text: &str,
    st: &GroundingStats,
    out: &mut String,
    err: &mut String,
) -> (r: Result<u8, Diagnostic>)
    requires
        needs_retry(cfg.view(), first) ==> retry is Some,
    ensures
        final(err)@ == old(err)@ + (if f.eq_clauses != 0 { RECODING_WARNING@ } else { Seq::<char>::empty() }),
        !near_propositional(*f) ==> (r matches Err(d) && d.code == ErrorCode::InputSemantic && d.message@
            == NOT_NEAR_PROPOSITIONAL@) && final(out)@ == old(out)@,
        near_propositional(*f) ==> r == Ok::<u8, Diagnostic>(0) && final(out)@ == old(out)@ + match grounding_state(
            cfg.view(),
            first,
            retry,
        ) {
            None => GIVE_UP_FAILURE@,
            Some(state) => result_text(cfg.view(), ground_text@, state, *st),
        },
{
    if f.eq_clauses != 0 {
        push_str(err, RECODING_WARNING);
    }
    if f.max_function_arity != 0 && !f.all_ground {
        return Err(diag(ErrorCode::InputSemantic, NOT_NEAR_PROPOSITIONAL));
    }
    let state = match first {
        GroundingPass::EstimateLimitExceeded => None,
        GroundingPass::Grounded(s) => {
            if grounding_retry_needed(cfg, first) {
                match retry {
                    Some(GroundingPass::EstimateLimitExceeded) => None,
                    _ => Some(s),
                }
            } else {
                Some(s)
            }
        },
    };
    match state {
        None => push_str(out, GIVE_UP_FAILURE),
        Some(s) => write_eground_result(cfg, ground_text, s, st, out),
    }
    Ok(0)
}

} // verus!
