//! The DPLL front end: reads ground clauses in LOP or TPTP syntax and
//! reports, for each clause, whether it enters the clause set or is
//! discarded as a tautology.
use vstd::prelude::*;
use crate::cmdline::{OptCell, OptArgType, CommandLineState, scan_from, step, args_view, opt_view, lemma_step_progress, scan_measure};
use crate::diag::{Diagnostic, ErrorCode, diag};
use crate::help::{get_int_arg, int_arg_value, int_arg_error, print_options, options_text};
use crate::session::{Session, SessionView, saturating_i32, saturate_i32, RunReport, InputFile, RLimResult, input_text, output_target, output_target_view, lookup_input};
use crate::clause::{Reader, reader_ok, moved_on, error_is, lex_error_text, lop_clause_err, tptp_clause_err, Literal, LitView, lits_view, lop_text, is_tautology, clause_is_tautology, push_lop_clause, parse_lop_clause, parse_tptp_clause, lop_clause_starts, at_identifier, ident_at, starts_term, lop_clause_spec, tptp_clause_spec};
use crate::scanner::{Token, TokenKind, lex_from, position_prefix};
use crate::text::{push_str, push_u64, push_i64, copy_string, decimal, signed_decimal};
use crate::version::{VERSION};
use crate::resources::{MEGA, four_fifths, limit_bytes, limit_order_error, limits_ordered, check_hard_soft_limits, auto_memory_mb};

verus! {

/// The name under which the program reports.
pub const PROGRAM_NAME: &'static str = "umlaut-dpll";

/// The options of the program.
#[derive(Clone, Copy, Debug, PartialEq, Eq, Structural)]
pub enum OptionCode {
    Help,
    Version,
    Verbose,
    Output,
    Silent,
    OutputLevel,
    TptpParse,
    DimacsPrint,
    MemoryLimit,
    CpuLimit,
    SoftCpuLimit,
}

/// The option table.
pub open spec fn option_table() -> Seq<OptCell<OptionCode>> {
    seq![
        OptCell {
            option_code: OptionCode::Help,
            short: Some('h'),
            long: "help",
            arg_type: OptArgType::NoArg,
            default: None,
            desc: "Print a short description of program usage and options.",
        },
        OptCell {
            option_code: OptionCode::Version,
            short: None,
            long: "version",
            arg_type: OptArgType::NoArg,
            default: None,
            desc: "Print the version number of the program.",
        },
        OptCell {
            option_code: OptionCode::Verbose,
            short: Some('v'),
            long: "verbose",
            arg_type: OptArgType::OptArg,
            default: Some("1"),
            desc: "Verbose comments on the progress of the program by printing technical information to stderr.",
        },
        OptCell {
            option_code: OptionCode::Output,
            short: Some('o'),
            long: "output-file",
            arg_type: OptArgType::ReqArg,
            default: None,
            desc: "Redirect output into the named file.",
        },
        OptCell {
            option_code: OptionCode::Silent,
            short: Some('s'),
            long: "silent",
            arg_type: OptArgType::NoArg,
            default: None,
            desc: "Equivalent to --output-level=0.",
        },
        OptCell {
            option_code: OptionCode::OutputLevel,
            short: Some('l'),
            long: "output-level",
            arg_type: OptArgType::ReqArg,
            default: None,
            desc: "Select an output level, greater values imply more verbose output. Level 0 produces nearly no output, level 1 produces minimal additional output.Higher levels are without meaning in umlaut-dpll (I think).",
        },
        OptCell {
            option_code: OptionCode::TptpParse,
            short: None,
            long: "tptp-in",
            arg_type: OptArgType::NoArg,
            default: None,
            desc: "Parse TPTP format instead of lop (does not understand includes, as TPTP include syntax is considered harmful).",
        },
        OptCell {
            option_code: OptionCode::DimacsPrint,
            short: Some('d'),
            long: "dimacs",
            arg_type: OptArgType::NoArg,
            default: None,
            desc: "Print output in the DIMACS format suitable for many propositional provers.",
        },
        OptCell {
            option_code: OptionCode::MemoryLimit,
            short: Some('m'),
            long: "memory-limit",
            arg_type: OptArgType::ReqArg,
            default: None,
            desc: "Limit the memory the system may use. The argument is the allowed amount of memory in MB. This option may not work everywhere, due to broken and/or strange behaviour of setrlimit() in some UNIX implementations. It does work under all tested versions of Solaris and GNU/Linux.",
        },
        OptCell {
            option_code: OptionCode::CpuLimit,
            short: None,
            long: "cpu-limit",
            arg_type: OptArgType::OptArg,
            default: Some("300"),
            desc: "Limit the cpu time the program should run. The optional argument is the CPU time in seconds. The program will terminate immediately after reaching the time limit, regardless of internal state. This option may not work everywhere, due to broken and/or strange behaviour of setrlimit() in some UNIX implementations. It does work under all tested versions of Solaris, HP-UX and GNU/Linux. As a side effect, this option will inhibit core file writing.",
        },
        OptCell {
            option_code: OptionCode::SoftCpuLimit,
            short: None,
            long: "soft-cpu-limit",
            arg_type: OptArgType::OptArg,
            default: Some("310"),
            desc: "Limit the cpu time spend in grounding. After the time expires, the prover will print an partial system.",
        },
    ]
}

/// The option table.
pub fn options() -> (v: Vec<OptCell<OptionCode>>)
    ensures
        v@ == option_table(),
{
    let v = vec![
        OptCell {
            option_code: OptionCode::Help,
            short: Some('h'),
            long: "help",
            arg_type: OptArgType::NoArg,
            default: None,
            desc: "Print a short description of program usage and options.",
        },
        OptCell {
            option_code: OptionCode::Version,
            short: None,
            long: "version",
            arg_type: OptArgType::NoArg,
            default: None,
            desc: "Print the version number of the program.",
        },
        OptCell {
            option_code: OptionCode::Verbose,
            short: Some('v'),
            long: "verbose",
            arg_type: OptArgType::OptArg,
            default: Some("1"),
            desc: "Verbose comments on the progress of the program by printing technical information to stderr.",
        },
        OptCell {
            option_code: OptionCode::Output,
            short: Some('o'),
            long: "output-file",
            arg_type: OptArgType::ReqArg,
            default: None,
            desc: "Redirect output into the named file.",
        },
        OptCell {
            option_code: OptionCode::Silent,
            short: Some('s'),
            long: "silent",
            arg_type: OptArgType::NoArg,
            default: None,
            desc: "Equivalent to --output-level=0.",
        },
        OptCell {
            option_code: OptionCode::OutputLevel,
            short: Some('l'),
            long: "output-level",
            arg_type: OptArgType::ReqArg,
            default: None,
            desc: "Select an output level, greater values imply more verbose output. Level 0 produces nearly no output, level 1 produces minimal additional output.Higher levels are without meaning in umlaut-dpll (I think).",
        },
        OptCell {
            option_code: OptionCode::TptpParse,
            short: None,
            long: "tptp-in",
            arg_type: OptArgType::NoArg,
            default: None,
            desc: "Parse TPTP format instead of lop (does not understand includes, as TPTP include syntax is considered harmful).",
        },
        OptCell {
            option_code: OptionCode::DimacsPrint,
            short: Some('d'),
            long: "dimacs",
            arg_type: OptArgType::NoArg,
            default: None,
            desc: "Print output in the DIMACS format suitable for many propositional provers.",
        },
        OptCell {
            option_code: OptionCode::MemoryLimit,
            short: Some('m'),
            long: "memory-limit",
            arg_type: OptArgType::ReqArg,
            default: None,
            desc: "Limit the memory the system may use. The argument is the allowed amount of memory in MB. This option may not work everywhere, due to broken and/or strange behaviour of setrlimit() in some UNIX implementations. It does work under all tested versions of Solaris and GNU/Linux.",
        },
        OptCell {
            option_code: OptionCode::CpuLimit,
            short: None,
            long: "cpu-limit",
            arg_type: OptArgType::OptArg,
            default: Some("300"),
            desc: "Limit the cpu time the program should run. The optional argument is the CPU time in seconds. The program will terminate immediately after reaching the time limit, regardless of internal state. This option may not work everywhere, due to broken and/or strange behaviour of setrlimit() in some UNIX implementations. It does work under all tested versions of Solaris, HP-UX and GNU/Linux. As a side effect, this option will inhibit core file writing.",
        },
        OptCell {
            option_code: OptionCode::SoftCpuLimit,
            short: None,
            long: "soft-cpu-limit",
            arg_type: OptArgType::OptArg,
            default: Some("310"),
            desc: "Limit the cpu time spend in grounding. After the time expires, the prover will print an partial system.",
        },
    ];
    proof {
        assert(v@ =~= option_table());
    }
    v
}


/// The settings of a run.
pub struct Config {
    pub output_file: Option<String>,
    pub tptp: bool,
    pub memory_limit: u64,
    pub hard_cpu_limit: Option<i64>,
    pub soft_cpu_limit: Option<i64>,
    pub files: Vec<String>,
}

/// The view of the settings of a run.
pub struct ConfigView {
    pub output_file: Option<Seq<char>>,
    pub tptp: bool,
    pub memory_limit: u64,
    pub hard_cpu_limit: Option<i64>,
    pub soft_cpu_limit: Option<i64>,
    pub files: Seq<Seq<char>>,
}

impl Config {
    pub open spec fn view(&self) -> ConfigView {
        ConfigView {
            output_file: opt_view(self.output_file),
            tptp: self.tptp,
            memory_limit: self.memory_limit,
            hard_cpu_limit: self.hard_cpu_limit,
            soft_cpu_limit: self.soft_cpu_limit,
            files: args_view(self.files@),
        }
    }
}

/// The settings before any option: LOP input, no limits.
pub open spec fn default_config() -> ConfigView {
    ConfigView {
        output_file: None,
        tptp: false,
        memory_limit: 0,
        hard_cpu_limit: None,
        soft_cpu_limit: None,
        files: Seq::empty(),
    }
}

/// What the options ask for: leave with a status (after help or version
/// text), or process the input with the given settings.
pub enum Command {
    Exit(u8),
    Execute(Config),
}

pub enum CommandView {
    Exit(u8),
    Execute(ConfigView),
}

pub open spec fn command_view(r: Result<Command, Diagnostic>) -> Result<CommandView, (ErrorCode, Seq<char>)> {
    match r {
        Ok(Command::Exit(s)) => Ok(CommandView::Exit(s)),
        Ok(Command::Execute(c)) => Ok(CommandView::Execute(c.view())),
        Err(d) => Err((d.code, d.message@)),
    }
}

/// The outcome of one option: go on with the new session and settings, or
/// stop with a result.
pub enum OptStep {
    Go(SessionView, ConfigView),
    Stop(SessionView, Result<CommandView, (ErrorCode, Seq<char>)>),
}

/// What one option does, for a machine with `sysmem` megabytes of
/// physical memory (-1 where that is not known).
pub open spec fn apply_option(
    s: SessionView,
    c: ConfigView,
    cell: OptCell<OptionCode>,
    arg: Seq<char>,
    sysmem: i64,
) -> OptStep {
    match cell.option_code {
        OptionCode::Verbose => match int_arg_value(arg) {
            Some(v) => OptStep::Go(SessionView { verbose: saturate_i32(v as i64), ..s }, c),
            None => OptStep::Stop(s, Err((ErrorCode::Usage, int_arg_error(cell)))),
        },
        OptionCode::Help => OptStep::Stop(
            SessionView { stdout: s.stdout + help_text(), ..s },
            Ok(CommandView::Exit(0)),
        ),
        OptionCode::Version => OptStep::Stop(
            SessionView { stdout: s.stdout + PROGRAM_NAME@ + " "@ + VERSION@ + "\n"@, ..s },
            Ok(CommandView::Exit(0)),
        ),
        OptionCode::Output => OptStep::Go(s, ConfigView { output_file: Some(arg), ..c }),
        OptionCode::Silent => OptStep::Go(SessionView { output_level: 0, ..s }, c),
        OptionCode::OutputLevel => match int_arg_value(arg) {
            Some(v) => OptStep::Go(SessionView { output_level: v as i64, ..s }, c),
            None => OptStep::Stop(s, Err((ErrorCode::Usage, int_arg_error(cell)))),
        },
        OptionCode::TptpParse => OptStep::Go(s, ConfigView { tptp: true, ..c }),
        OptionCode::DimacsPrint => OptStep::Go(s, c),
        OptionCode::MemoryLimit => if arg == "Auto"@ {
            if sysmem == -1 {
                OptStep::Stop(
                    s,
                    Err((ErrorCode::Other, "Cannot find physical memory automatically. Give explicit value to --memory-limit"@)),
                )
            } else {
                let limit = limit_bytes(four_fifths(sysmem as int) as i64);
                let s2 = if s.verbose > 0 {
                    SessionView {
                        stderr: s.stderr + "Physical memory determined as "@ + signed_decimal(
                            sysmem as int,
                        ) + " MB"@ + "\n"@ + "Memory limit set to "@ + decimal(limit as nat)
                            + " MB"@ + "\n"@,
                        ..s
                    }
                } else {
                    s
                };
                OptStep::Go(s2, ConfigView { memory_limit: limit, ..c })
            }
        } else {
            match int_arg_value(arg) {
                Some(v) => OptStep::Go(s, ConfigView { memory_limit: limit_bytes(v as i64), ..c }),
                None => OptStep::Stop(s, Err((ErrorCode::Usage, int_arg_error(cell)))),
            }
        },
        OptionCode::CpuLimit => match int_arg_value(arg) {
            Some(v) => match c.soft_cpu_limit {
                Some(soft) if !limits_ordered(v as i64, soft) => OptStep::Stop(
                    s,
                    Err((ErrorCode::Usage, limit_order_error(true))),
                ),
                _ => OptStep::Go(s, ConfigView { hard_cpu_limit: Some(v as i64), ..c }),
            },
            None => OptStep::Stop(s, Err((ErrorCode::Usage, int_arg_error(cell)))),
        },
        OptionCode::SoftCpuLimit => match int_arg_value(arg) {
            Some(v) => match c.hard_cpu_limit {
                Some(hard) if !limits_ordered(hard, v as i64) => OptStep::Stop(
                    s,
                    Err((ErrorCode::Usage, limit_order_error(false))),
                ),
                _ => OptStep::Go(s, ConfigView { soft_cpu_limit: Some(v as i64), ..c }),
            },
            None => OptStep::Stop(s, Err((ErrorCode::Usage, int_arg_error(cell)))),
        },
    }
}

/// The argument of an option, empty where it has none.
pub open spec fn arg_or_empty(a: Option<Seq<char>>) -> Seq<char> {
    match a {
        Some(x) => x,
        None => Seq::empty(),
    }
}

/// The input files: the positional arguments, or standard input ("-")
/// where there are none.
pub open spec fn input_files(rest: Seq<Seq<char>>) -> Seq<Seq<char>> {
    if rest.len() == 0 {
        seq![seq!['-']]
    } else {
        rest
    }
}

/// The options applied in order, from a session and settings on.
pub open spec fn options_fold(
    s: SessionView,
    c: ConfigView,
    opts: Seq<(int, Option<Seq<char>>)>,
    end: Result<Seq<Seq<char>>, Seq<char>>,
    sysmem: i64,
) -> (SessionView, Result<CommandView, (ErrorCode, Seq<char>)>)
    decreases opts.len(),
{
    if opts.len() == 0 {
        match end {
            Ok(rest) => (s, Ok(CommandView::Execute(ConfigView { files: input_files(rest), ..c }))),
            Err(m) => (s, Err((ErrorCode::Usage, m))),
        }
    } else {
        match apply_option(s, c, option_table()[opts[0].0], arg_or_empty(opts[0].1), sysmem) {
            OptStep::Go(s2, c2) => options_fold(s2, c2, opts.drop_first(), end, sysmem),
            OptStep::Stop(s2, r) => (s2, r),
        }
    }
}

/// What the command line asks for, and the session after it.
pub open spec fn options_outcome(args: Seq<Seq<char>>, s: SessionView, sysmem: i64) -> (
    SessionView,
    Result<CommandView, (ErrorCode, Seq<char>)>,
) {
    let sc = crate::cmdline::scan(args, option_table());
    options_fold(s, default_config(), sc.opts, sc.end, sysmem)
}

/// The help text.
pub open spec fn help_text() -> Seq<char> {
    "\n\n"@ + PROGRAM_NAME@ + " "@ + VERSION@ + "\n\nUsage: "@ + PROGRAM_NAME@
        + " [options] [files]\n\nRead a set of ground clauses and try to refute (or satisfy) it.\nNot completed yet!\n\n"@
        + "Options\n\n"@ + options_text(option_table()) + "\n"@ + LEGACY_FOOTER@
}

/// The footer of this program's help text.
pub const LEGACY_FOOTER: &'static str = "Copyright (C) 2003 by Stephan Schulz, schulz@eprover.org \n\nThis program is a part of the support structure for the E equational\ntheorem prover. You can find the latest version of the E distribution\nas well as additional information at\nhttp://www.eprover.org\n\nThis program is free software; you can redistribute it and/or modify\nit under the terms of the GNU General Public License as published by\nthe Free Software Foundation; either version 2 of the License, or\n(at your option) any later version.\n\nThis program is distributed in the hope that it will be useful,\nbut WITHOUT ANY WARRANTY; without even the implied warranty of\nMERCHANTABILITY or FITNESS FOR A PARTICULAR PURPOSE.  See the\nGNU General Public License for more details.\n\nYou should have received a copy of the GNU General Public License\nalong with this program (it should be contained in the top level\ndirectory of the distribution in the file COPYING); if not, write to\nthe Free Software Foundation, Inc., 59 Temple Place, Suite 330,\nBoston, MA  02111-1307 USA\n\nThe original copyright holder can be contacted as\n\nStephan Schulz\nDHBW Stuttgart\nFakultaet Technik\nInformatik\nLerchenstrasse 1\n70174 Stuttgart\nGermany\n\n";

/// The help text.
pub fn print_help() -> (s: String)
    ensures
        s@ == help_text(),
{
    let mut s = String::new();
    push_str(&mut s, "\n\n");
    push_str(&mut s, PROGRAM_NAME);
    push_str(&mut s, " ");
    push_str(&mut s, VERSION);
    push_str(&mut s, "\n\nUsage: ");
    push_str(&mut s, PROGRAM_NAME);
    push_str(
        &mut s,
        " [options] [files]\n\nRead a set of ground clauses and try to refute (or satisfy) it.\nNot completed yet!\n\n",
    );
    let opts = options();
    let o = print_options(&opts, Some("Options\n\n"));
    push_str(&mut s, o.as_str());
    push_str(&mut s, "\n");
    push_str(&mut s, LEGACY_FOOTER);
    s
}

/// The argument of `--memory-limit` in bytes: a number of megabytes, or
/// "Auto" for four fifths of the physical memory.
pub fn parse_memory_limit(
    cell: &OptCell<OptionCode>,
    arg: &str,
    sess: &mut Session,
    sysmem: i64,
) -> (r: Result<u64, Diagnostic>)
    requires
        cell.option_code == OptionCode::MemoryLimit,
        sysmem >= -1,
    ensures
        match apply_option(old(sess).view(), default_config(), *cell, arg@, sysmem) {
            OptStep::Go(s2, c2) => r == Ok::<u64, Diagnostic>(c2.memory_limit) && final(sess).view() == s2,
            OptStep::Stop(s2, res) => r matches Err(d) && res == Err::<CommandView, (ErrorCode, Seq<char>)>(
                (d.code, d.message@),
            ) && final(sess).view() == s2,
        },
{
    proof {
        reveal_strlit("Auto");
    }
    if crate::text::same_text(arg, "Auto") {
        if sysmem == -1 {
            return Err(diag(
                ErrorCode::Other,
                "Cannot find physical memory automatically. Give explicit value to --memory-limit",
            ));
        }
        let auto = auto_memory_mb(sysmem);
        let limit = (auto as u64).wrapping_mul(MEGA);
        if sess.verbose > 0 {
            push_str(&mut sess.stderr, "Physical memory determined as ");
            push_i64(&mut sess.stderr, sysmem);
            push_str(&mut sess.stderr, " MB");
            push_str(&mut sess.stderr, "\n");
            push_str(&mut sess.stderr, "Memory limit set to ");
            push_u64(&mut sess.stderr, limit);
            push_str(&mut sess.stderr, " MB");
            push_str(&mut sess.stderr, "\n");
        }
        return Ok(limit);
    }
    match get_int_arg(cell, arg) {
        Ok(v) => Ok((v as u64).wrapping_mul(MEGA)),
        Err(d) => Err(d),
    }
}

/// Reads the command line: applies the verbosity and output level to the
/// session, prints help or version text, and gathers the settings.
/// `sysmem` is the physical memory in megabytes, -1 where unknown.
pub fn process_options(args: &Vec<String>, sess: &mut Session, sysmem: i64) -> (r: Result<Command, Diagnostic>)
    requires
        sysmem >= -1,
    ensures
        (final(sess).view(), command_view(r)) == options_outcome(args_view(args@), old(sess).view(), sysmem),
{
    let opts = options();
    let mut state = CommandLineState::new(args);
    let mut cfg = Config {
        output_file: None,
        tptp: false,
        memory_limit: 0,
        hard_cpu_limit: None,
        soft_cpu_limit: None,
        files: Vec::new(),
    };
    let ghost goal = options_outcome(args_view(args@), old(sess).view(), sysmem);
    proof {
        assert(args_view(cfg.files@) =~= Seq::<Seq<char>>::empty());
    }
    loop
        invariant
            state.wf(),
            state.args_seq() == args_view(args@),
            opts@ == option_table(),
            sysmem >= -1,
            goal == options_outcome(args_view(args@), old(sess).view(), sysmem),
            ({
                let sc = scan_from(args_view(args@), option_table(), state.state());
                options_fold(sess.view(), cfg.view(), sc.opts, sc.end, sysmem) == goal
            }),
        decreases args.len() - state.state().argi, scan_measure(args_view(args@), state.state()),
    {
        let ghost st = state.state();
        let ghost s0 = sess.view();
        let ghost c0 = cfg.view();
        proof {
            if !st.done {
                let (st2, ev) = step(args_view(args@), option_table(), st);
                if ev is Opt {
                    lemma_step_progress(args_view(args@), option_table(), st);
                }
            }
        }
        match state.next_opt(&opts) {
            Err(d) => {
                return Err(d);
            },
            Ok(None) => {
                let rest = state.remaining_args();
                if rest.len() == 0 {
                    let mut files: Vec<String> = Vec::new();
                    files.push(String::from_str("-"));
                    cfg.files = files;
                    proof {
                        reveal_strlit("-");
                        assert("-"@ =~= seq!['-']);
                        assert(args_view(cfg.files@) =~= seq![seq!['-']]);
                    }
                } else {
                    cfg.files = rest;
                }
                return Ok(Command::Execute(cfg));
            },
            Ok(Some(p)) => {
                proof {
                    crate::cmdline::lemma_step_opt_index(args_view(args@), option_table(), st);
                }
                let cell = &opts[p.index];
                let arg: String = match &p.arg {
                    Some(a) => copy_string(a),
                    None => String::new(),
                };
                proof {
                    assert(arg@ == arg_or_empty(opt_view(p.arg)));
                }
                match cell.option_code {
                    OptionCode::Verbose => {
                        match get_int_arg(cell, arg.as_str()) {
                            Ok(v) => {
                                sess.verbose = saturating_i32(v);
                            },
                            Err(d) => {
                                return Err(d);
                            },
                        }
                    },
                    OptionCode::Help => {
                        let h = print_help();
                        push_str(&mut sess.stdout, h.as_str());
                        return Ok(Command::Exit(0));
                    },
                    OptionCode::Version => {
                        push_str(&mut sess.stdout, PROGRAM_NAME);
                        push_str(&mut sess.stdout, " ");
                        push_str(&mut sess.stdout, VERSION);
                        push_str(&mut sess.stdout, "\n");
                        return Ok(Command::Exit(0));
                    },
                    OptionCode::Output => {
                        cfg.output_file = Some(arg);
                    },
                    OptionCode::Silent => {
                        sess.output_level = 0;
                    },
                    OptionCode::OutputLevel => {
                        match get_int_arg(cell, arg.as_str()) {
                            Ok(v) => {
                                sess.output_level = v;
                            },
                            Err(d) => {
                                return Err(d);
                            },
                        }
                    },
                    OptionCode::TptpParse => {
                        cfg.tptp = true;
                    },
                    OptionCode::DimacsPrint => {},
                    OptionCode::MemoryLimit => {
                        match parse_memory_limit(cell, arg.as_str(), sess, sysmem) {
                            Ok(v) => {
                                cfg.memory_limit = v;
                            },
                            Err(d) => {
                                return Err(d);
                            },
                        }
                    },
                    OptionCode::CpuLimit => {
                        match get_int_arg(cell, arg.as_str()) {
                            Ok(v) => {
                                match cfg.soft_cpu_limit {
                                    Some(soft) => {
                                        match check_hard_soft_limits(v, soft, true) {
                                            Ok(()) => {},
                                            Err(d) => {
                                                return Err(d);
                                            },
                                        }
                                    },
                                    None => {},
                                }
                                cfg.hard_cpu_limit = Some(v);
                            },
                            Err(d) => {
                                return Err(d);
                            },
                        }
                    },
                    OptionCode::SoftCpuLimit => {
                        match get_int_arg(cell, arg.as_str()) {
                            Ok(v) => {
                                match cfg.hard_cpu_limit {
                                    Some(hard) => {
                                        match check_hard_soft_limits(hard, v, false) {
                                            Ok(()) => {},
                                            Err(d) => {
                                                return Err(d);
                                            },
                                        }
                                    },
                                    None => {},
                                }
                                cfg.soft_cpu_limit = Some(v);
                            },
                            Err(d) => {
                                return Err(d);
                            },
                        }
                    },
                }
                proof {
                    let sc = scan_from(args_view(args@), option_table(), st);
                    let tail = scan_from(args_view(args@), option_table(), state.state());
                    assert(sc.opts == seq![(p.index as int, opt_view(p.arg))].add(tail.opts));
                    assert(sc.opts.drop_first() =~= tail.opts);
                    assert(apply_option(s0, c0, option_table()[p.index as int], arg@, sysmem)
                        == OptStep::Go(sess.view(), cfg.view()));
                }
            },
        }
    }
}

/// The warnings for a memory limit that had to be set lower than asked:
/// one for the data segment and one for the address space.
pub fn memory_limit_warnings(result: RLimResult) -> (v: Vec<Diagnostic>)
    ensures
        result != RLimResult::Reduced ==> v@.len() == 0,
        result == RLimResult::Reduced ==> v@.len() == 2 && v@[0].code == ErrorCode::System
            && v@[0].message@ == "Had to reduce limit RLIMIT_DATA"@ && v@[1].code == ErrorCode::System
            && v@[1].message@ == "Had to reduce limit RLIMIT_AS"@,
{
    let mut v: Vec<Diagnostic> = Vec::new();
    if result == RLimResult::Reduced {
        v.push(diag(ErrorCode::System, "Had to reduce limit RLIMIT_DATA"));
        v.push(diag(ErrorCode::System, "Had to reduce limit RLIMIT_AS"));
    }
    v
}

/// The trace line of one clause: the clause in LOP syntax and whether it is
/// accepted or discarded as a tautology.
pub open spec fn clause_line(ls: Seq<LitView>) -> Seq<char> {
    "New clause: "@ + lop_text(ls) + "..."@ + (if is_tautology(ls) {
        "discarded (tautology)"@
    } else {
        "accepted"@
    }) + "\n"@
}

/// The trace lines of a sequence of clauses.
pub open spec fn trace_text(cs: Seq<Seq<LitView>>) -> Seq<char>
    decreases cs.len(),
{
    if cs.len() == 0 {
        Seq::empty()
    } else {
        trace_text(cs.drop_last()) + clause_line(cs.last())
    }
}

/// The views of a sequence of clauses.
pub open spec fn clauses_view(cs: Seq<Vec<Literal>>) -> Seq<Seq<LitView>> {
    cs.map_values(|c: Vec<Literal>| lits_view(c@))
}

/// Whether a clause starts at token `p`: `input_clause` in TPTP syntax, in
/// LOP syntax a term, "<-" or ":-".
#[verifier::opaque]
pub open spec fn clause_starts(src: Seq<char>, toks: Seq<Token>, p: int, tptp: bool) -> bool {
    if tptp {
        ident_at(src, toks, p, "input_clause"@)
    } else {
        0 <= p < toks.len() && (starts_term(toks[p].kind) || toks[p].kind == TokenKind::LesserSign
            || toks[p].kind == TokenKind::Colon)
    }
}

/// The clause at token `p` in the chosen syntax and the token after it.
#[verifier::opaque]
pub open spec fn clause_at(src: Seq<char>, toks: Seq<Token>, p: int, tptp: bool) -> Option<(Seq<LitView>, int)> {
    if tptp {
        tptp_clause_spec(src, toks, p)
    } else {
        lop_clause_spec(src, toks, p)
    }
}

/// The syntax error of the clause at token `p` in the chosen syntax, where
/// it is malformed.
#[verifier::opaque]
pub open spec fn clause_err(src: Seq<char>, toks: Seq<Token>, p: int, tptp: bool) -> (int, Seq<char>) {
    if tptp {
        tptp_clause_err(src, toks, p)
    } else {
        lop_clause_err(src, toks, p)
    }
}

/// The clauses read from token `p` on, one after the other while a clause
/// starts, and the syntax error that ended the reading, if any.
pub open spec fn clauses_from(src: Seq<char>, toks: Seq<Token>, p: int, tptp: bool) -> (
    Seq<Seq<LitView>>,
    Option<(int, Seq<char>)>,
)
    decreases toks.len() - p,
{
    if !(0 <= p < toks.len()) || !clause_starts(src, toks, p, tptp) {
        (Seq::empty(), None)
    } else {
        match clause_at(src, toks, p, tptp) {
            None => (Seq::empty(), Some(clause_err(src, toks, p, tptp))),
            Some((v, e)) => if p < e <= toks.len() {
                let rest = clauses_from(src, toks, e, tptp);
                (seq![v] + rest.0, rest.1)
            } else {
                (seq![v], None)
            },
        }
    }
}

proof fn lemma_clauses_step(src: Seq<char>, toks: Seq<Token>, p: int, tptp: bool, v: Seq<LitView>, e: int)
    requires
        0 <= p < e < toks.len(),
        clause_starts(src, toks, p, tptp),
        clause_at(src, toks, p, tptp) == Some((v, e)),
    ensures
        clauses_from(src, toks, p, tptp).0 == seq![v] + clauses_from(src, toks, e, tptp).0,
        clauses_from(src, toks, p, tptp).1 == clauses_from(src, toks, e, tptp).1,
{
}

fn push_clause_line(out: &mut String, ls: &Vec<Literal>)
    ensures
        final(out)@ == old(out)@ + clause_line(lits_view(ls@)),
{
    push_str(out, "New clause: ");
    push_lop_clause(out, ls);
    push_str(out, "...");
    if clause_is_tautology(ls) {
        push_str(out, "discarded (tautology)");
    } else {
        push_str(out, "accepted");
    }
    push_str(out, "\n");
}

fn clause_starts_here(r: &Reader, tptp: bool) -> (b: bool)
    requires
        reader_ok(r),
    ensures
        b == clause_starts(r.src@, r.toks@, r.pos as int, tptp),
{
    reveal(clause_starts);
    if tptp {
        at_identifier(r, "input_clause")
    } else {
        lop_clause_starts(r)
    }
}

fn parse_clause(r: &mut Reader, tptp: bool) -> (res: Result<Vec<Literal>, Diagnostic>)
    requires
        reader_ok(old(r)),
    ensures
        moved_on(old(r), final(r)),
        res is Ok ==> old(r).pos < final(r).pos,
        res matches Err(d) ==> d.code == ErrorCode::Syntax,
        match clause_at(old(r).src@, old(r).toks@, old(r).pos as int, tptp) {
            Some((v, e)) => (res matches Ok(x) && lits_view(x@) == v) && final(r).pos == e,
            None => res is Err,
        },
        res matches Err(d) ==> error_is(d, old(r), clause_err(old(r).src@, old(r).toks@, old(r).pos as int, tptp)),
{
    reveal(clause_at);
    reveal(clause_err);
    if tptp {
        parse_tptp_clause(r)
    } else {
        parse_lop_clause(r)
    }
}

proof fn lemma_views_split(cs: Seq<Vec<Literal>>, n: int)
    requires
        0 <= n <= cs.len(),
    ensures
        clauses_view(cs) == clauses_view(cs.take(n)) + clauses_view(cs).skip(n),
{
    assert(clauses_view(cs) =~= clauses_view(cs.take(n)) + clauses_view(cs).skip(n));
}

/// Reads clauses while the input shows the start of one (see
/// `clauses_from`), appends the trace line of each clause read (also of
/// those read before an error) and adds the clauses to `clauses`.
pub fn trace_clauses(r: &mut Reader, tptp: bool, out: &mut String, clauses: &mut Vec<Vec<Literal>>) -> (res: Result<(), Diagnostic>)
    requires
        reader_ok(old(r)),
    ensures
        ({
            let (cs, err) = clauses_from(old(r).src@, old(r).toks@, old(r).pos as int, tptp);
            &&& final(out)@ == old(out)@ + trace_text(cs)
            &&& clauses_view(final(clauses)@) == clauses_view(old(clauses)@) + cs
            &&& (res is Ok <==> err is None)
            &&& (res matches Err(d) ==> err matches Some(e) && error_is(d, old(r), e))
        }),
        res matches Err(d) ==> d.code == ErrorCode::Syntax,
{
    let ghost n0 = clauses@.len();
    let ghost src = r.src@;
    let ghost toks = r.toks@;
    let ghost p0 = r.pos as int;
    proof {
        assert(clauses_view(clauses@).skip(n0 as int) =~= Seq::<Seq<LitView>>::empty());
        assert(Seq::<Seq<LitView>>::empty() + clauses_from(src, toks, p0, tptp).0 =~= clauses_from(src, toks, p0, tptp).0);
    }
    loop
        invariant
            reader_ok(r),
            r.src@ == src,
            r.toks@ == toks,
            src == old(r).src@,
            toks == old(r).toks@,
            p0 == old(r).pos,
            n0 <= clauses@.len(),
            n0 == old(clauses)@.len(),
            clauses@.take(n0 as int) == old(clauses)@,
            out@ == old(out)@ + trace_text(clauses_view(clauses@).skip(n0 as int)),
            clauses_from(src, toks, p0, tptp).0 == clauses_view(clauses@).skip(n0 as int) + clauses_from(
                src,
                toks,
                r.pos as int,
                tptp,
            ).0,
            clauses_from(src, toks, p0, tptp).1 == clauses_from(src, toks, r.pos as int, tptp).1,
            r.source@ == old(r).source@,
        decreases r.toks.len() - r.pos,
    {
        let ghost p = r.pos as int;
        if !clause_starts_here(r, tptp) {
            proof {
                let d = clauses_view(clauses@).skip(n0 as int);
                assert(d + Seq::<Seq<LitView>>::empty() =~= d);
                lemma_views_split(clauses@, n0 as int);
            }
            return Ok(());
        }
        match parse_clause(r, tptp) {
            Err(d) => {
                proof {
                    let dn = clauses_view(clauses@).skip(n0 as int);
                    assert(dn + Seq::<Seq<LitView>>::empty() =~= dn);
                    lemma_views_split(clauses@, n0 as int);
                }
                return Err(d);
            },
            Ok(ls) => {
                push_clause_line(out, &ls);
                let ghost old_cs = clauses@;
                clauses.push(ls);
                proof {
                    let v = clauses_view(clauses@).skip(n0 as int);
                    let dn = clauses_view(old_cs).skip(n0 as int);
                    assert(v.drop_last() =~= dn);
                    assert(v.last() == lits_view(ls@));
                    assert(v =~= dn.push(lits_view(ls@)));
                    assert(clauses@.take(n0 as int) =~= old_cs.take(n0 as int));
                    let rest = clauses_from(src, toks, r.pos as int, tptp).0;
                    lemma_clauses_step(src, toks, p, tptp, lits_view(ls@), r.pos as int);
                    assert(dn + (seq![lits_view(ls@)] + rest) =~= v + rest);
                }
            },
        }
    }
}

/// The message for an input file that cannot be read.
pub open spec fn file_error_text(name: Seq<char>, err: Seq<char>) -> Seq<char> {
    "Cannot stat file "@ + name + "\n"@ + PROGRAM_NAME@ + ": "@ + err
}

fn file_error(name: &str, err: &str) -> (d: Diagnostic)
    ensures
        d.code == ErrorCode::File,
        d.message@ == file_error_text(name@, err@),
{
    let mut m = String::new();
    push_str(&mut m, "Cannot stat file ");
    push_str(&mut m, name);
    push_str(&mut m, "\n");
    push_str(&mut m, PROGRAM_NAME);
    push_str(&mut m, ": ");
    push_str(&mut m, err);
    Diagnostic::new(ErrorCode::File, m)
}

/// The name under which the syntax errors of an input are reported.
pub open spec fn source_name(name: Seq<char>) -> Seq<char> {
    if name == seq!['-'] {
        "<stdin>"@
    } else {
        name
    }
}

/// What reading one input file gives: its trace lines, and the error that
/// ends the run, if any (its kind and its message).
pub open spec fn file_outcome(name: Seq<char>, stdin: Seq<char>, files: Seq<InputFile>, tptp: bool) -> (
    Seq<char>,
    Option<(ErrorCode, Seq<char>)>,
) {
    match lookup_input(name, stdin, files) {
        None => (Seq::empty(), Some((ErrorCode::File, file_error_text(name, "No such file or directory"@)))),
        Some(Err(e)) => (Seq::empty(), Some((ErrorCode::File, file_error_text(name, e)))),
        Some(Ok(text)) => if text.len() > isize::MAX {
            (Seq::empty(), Some((ErrorCode::ResourceOut, "Input file too large"@)))
        } else {
            match lex_from(text, 0) {
                Err(p) => (Seq::empty(), Some((ErrorCode::Syntax, lex_error_text(source_name(name), text, p)))),
                Ok(toks) => {
                    let (cs, err) = clauses_from(text, toks, 0, tptp);
                    (trace_text(cs), match err {
                        None => None,
                        Some(e) => Some(
                            (ErrorCode::Syntax, position_prefix(source_name(name), text, toks[e.0]) + e.1),
                        ),
                    })
                },
            }
        },
    }
}

/// What reading the input files in turn gives: the trace lines of all of
/// them up to the first error, and that error, if any.
pub open spec fn files_outcome(names: Seq<Seq<char>>, stdin: Seq<char>, files: Seq<InputFile>, tptp: bool) -> (
    Seq<char>,
    Option<(ErrorCode, Seq<char>)>,
)
    decreases names.len(),
{
    if names.len() == 0 {
        (Seq::empty(), None)
    } else {
        let before = files_outcome(names.drop_last(), stdin, files, tptp);
        if before.1 is Some {
            before
        } else {
            let f = file_outcome(names.last(), stdin, files, tptp);
            (before.0 + f.0, f.1)
        }
    }
}

/// Whether a result is the one that an outcome calls for: status 0, or the
/// error of the given kind and message.
pub open spec fn result_matches(res: Result<u8, Diagnostic>, e: Option<(ErrorCode, Seq<char>)>) -> bool {
    match e {
        None => res == Ok::<u8, Diagnostic>(0),
        Some((code, m)) => res matches Err(d) && d.code == code && d.message@ == m,
    }
}

/// Reads one input file and traces its clauses.
fn trace_file(name: &str, tptp: bool, stdin: &String, files: &Vec<InputFile>, out: &mut String, clauses: &mut Vec<Vec<Literal>>) -> (res: Result<(), Diagnostic>)
    ensures
        ({
            let (t, e) = file_outcome(name@, stdin@, files@, tptp);
            &&& final(out)@ == old(out)@ + t
            &&& (res is Ok <==> e is None)
            &&& (res matches Err(d) ==> result_matches(Err(d), e))
        }),
{
    let text = match input_text(name, stdin, files) {
        Some(Ok(t)) => t,
        Some(Err(e)) => {
            proof {
                assert(out@ =~= old(out)@ + Seq::<char>::empty());
            }
            return Err(file_error(name, e.as_str()));
        },
        None => {
            proof {
                assert(out@ =~= old(out)@ + Seq::<char>::empty());
            }
            return Err(file_error(name, "No such file or directory"));
        },
    };
    let is_stdin = crate::text::same_text(name, "-");
    proof {
        reveal_strlit("-");
        assert("-"@ =~= seq!['-']);
    }
    let source = if is_stdin {
        "<stdin>"
    } else {
        name
    };
    assert(source@ == source_name(name@));
    if text.as_str().unicode_len() > isize::MAX as usize {
        proof {
            assert(out@ =~= old(out)@ + Seq::<char>::empty());
        }
        return Err(diag(ErrorCode::ResourceOut, "Input file too large"));
    }
    let mut r = match Reader::new(source, text.as_str()) {
        Ok(r) => r,
        Err(d) => {
            proof {
                assert(out@ =~= old(out)@ + Seq::<char>::empty());
            }
            return Err(d);
        },
    };
    trace_clauses(&mut r, tptp, out, clauses)
}

/// Processes the input files after the options: reports the memory-limit
/// warnings (`rlimit` is what setting the limit gave), then traces the
/// clauses of each file in turn, stopping at the first error (see
/// `files_outcome`).
pub fn execute(cfg: &Config, sess: &mut Session, rlimit: RLimResult, stdin: &String, files: &Vec<InputFile>, out: &mut String) -> (res: Result<u8, Diagnostic>)
    ensures
        final(sess).verbose == old(sess).verbose,
        final(sess).output_level == old(sess).output_level,
        final(sess).stdout@ == old(sess).stdout@,
        rlimit == RLimResult::Reduced ==> final(sess).stderr@ == old(sess).stderr@
            + crate::diag::warning_text(PROGRAM_NAME@, "Had to reduce limit RLIMIT_DATA"@)
            + crate::diag::warning_text(PROGRAM_NAME@, "Had to reduce limit RLIMIT_AS"@),
        rlimit != RLimResult::Reduced ==> final(sess).stderr@ == old(sess).stderr@,
        ({
            let (t, e) = files_outcome(cfg@.files, stdin@, files@, cfg.tptp);
            &&& final(out)@ == old(out)@ + t
            &&& result_matches(res, e)
        }),
{
    let warnings = memory_limit_warnings(rlimit);
    if warnings.len() == 2 {
        let w0 = warnings[0].render_warning(PROGRAM_NAME);
        push_str(&mut sess.stderr, w0.as_str());
        let w1 = warnings[1].render_warning(PROGRAM_NAME);
        push_str(&mut sess.stderr, w1.as_str());
    }
    let ghost names = cfg@.files;
    let mut clauses: Vec<Vec<Literal>> = Vec::new();
    let mut i: usize = 0;
    proof {
        assert(names.take(0) =~= Seq::<Seq<char>>::empty());
        assert(out@ =~= old(out)@ + Seq::<char>::empty());
    }
    while i < cfg.files.len()
        invariant
            sess.verbose == old(sess).verbose,
            sess.output_level == old(sess).output_level,
            sess.stdout@ == old(sess).stdout@,
            rlimit == RLimResult::Reduced ==> sess.stderr@ == old(sess).stderr@
                + crate::diag::warning_text(PROGRAM_NAME@, "Had to reduce limit RLIMIT_DATA"@)
                + crate::diag::warning_text(PROGRAM_NAME@, "Had to reduce limit RLIMIT_AS"@),
            rlimit != RLimResult::Reduced ==> sess.stderr@ == old(sess).stderr@,
            names == cfg@.files,
            names.len() == cfg.files.len(),
            i <= cfg.files.len(),
            out@ == old(out)@ + files_outcome(names.take(i as int), stdin@, files@, cfg.tptp).0,
            files_outcome(names.take(i as int), stdin@, files@, cfg.tptp).1 is None,
        decreases cfg.files.len() - i,
    {
        let name = cfg.files[i].as_str();
        let ghost before = out@;
        let r = trace_file(name, cfg.tptp, stdin, files, out, &mut clauses);
        proof {
            assert(names.take(i + 1).drop_last() =~= names.take(i as int));
            assert(names.take(i + 1).last() == name@);
            let p = files_outcome(names.take(i as int), stdin@, files@, cfg.tptp).0;
            let f = file_outcome(name@, stdin@, files@, cfg.tptp).0;
            assert(old(out)@ + p + f =~= old(out)@ + (p + f));
        }
        match r {
            Ok(()) => {},
            Err(d) => {
                proof {
                    lemma_outcome_stops(names, (i + 1) as int, stdin@, files@, cfg.tptp);
                }
                return Err(d);
            },
        }
        i = i + 1;
    }
    proof {
        assert(names.take(cfg.files.len() as int) =~= names);
    }
    Ok(0)
}

/// Once a file has failed, the files after it change nothing.
proof fn lemma_outcome_stops(names: Seq<Seq<char>>, k: int, stdin: Seq<char>, files: Seq<InputFile>, tptp: bool)
    requires
        0 <= k <= names.len(),
        files_outcome(names.take(k), stdin, files, tptp).1 is Some,
    ensures
        files_outcome(names, stdin, files, tptp) == files_outcome(names.take(k), stdin, files, tptp),
    decreases names.len() - k,
{
    if k < names.len() {
        assert(names.take(k + 1).drop_last() =~= names.take(k));
        lemma_outcome_stops(names, k + 1, stdin, files, tptp);
    } else {
        assert(names.take(k) =~= names);
    }
}

/// A whole run: the options, then the input. `sysmem` is the physical
/// memory in megabytes (-1 where unknown) and `rlimit` what setting the
/// memory limit gave.
pub fn run(args: &Vec<String>, stdin: &String, files: &Vec<InputFile>, sysmem: i64, rlimit: RLimResult) -> (rep: RunReport)
    requires
        sysmem >= -1,
    ensures
        ({
            let (s, c) = options_outcome(args_view(args@), SessionView { verbose: 0, output_level: 1, stdout: Seq::empty(), stderr: Seq::empty() }, sysmem);
            &&& rep.stdout@ == s.stdout
            &&& rep.verbose == s.verbose
            &&& rep.output_level == s.output_level
            &&& match c {
                Err((code, m)) => rep.result matches Err(d) && d.code == code && d.message@ == m && !rep.close_output
                    && rep.stderr@ == s.stderr && rep.output@.len() == 0,
                Ok(CommandView::Exit(st)) => rep.result matches Ok(x) && x == st && !rep.close_output
                    && rep.stderr@ == s.stderr && rep.output@.len() == 0,
                Ok(CommandView::Execute(cfg)) => {
                    let (t, e) = files_outcome(cfg.files, stdin@, files@, cfg.tptp);
                    &&& rep.output@ == t
                    &&& result_matches(rep.result, e)
                    &&& rep.close_output == (e is None)
                    &&& opt_view(rep.output_file) == output_target_view(cfg.output_file)
                    &&& rlimit == RLimResult::Reduced ==> rep.stderr@ == s.stderr
                        + crate::diag::warning_text(PROGRAM_NAME@, "Had to reduce limit RLIMIT_DATA"@)
                        + crate::diag::warning_text(PROGRAM_NAME@, "Had to reduce limit RLIMIT_AS"@)
                    &&& rlimit != RLimResult::Reduced ==> rep.stderr@ == s.stderr
                },
            }
        }),
{
    let mut sess = Session::new(0, 1);
    let cmd = process_options(args, &mut sess, sysmem);
    let mut out = String::new();
    match cmd {
        Err(d) => RunReport {
            result: Err(d),
            stdout: sess.stdout,
            output: out,
            output_file: None,
            stderr: sess.stderr,
            verbose: sess.verbose,
            output_level: sess.output_level,
            close_output: false,
        },
        Ok(Command::Exit(st)) => RunReport {
            result: Ok(st),
            stdout: sess.stdout,
            output: out,
            output_file: None,
            stderr: sess.stderr,
            verbose: sess.verbose,
            output_level: sess.output_level,
            close_output: false,
        },
        Ok(Command::Execute(cfg)) => {
            let res = execute(&cfg, &mut sess, rlimit, stdin, files, &mut out);
            let ok = res.is_ok();
            RunReport {
                result: res,
                stdout: sess.stdout,
                output: out,
                output_file: output_target(&cfg.output_file),
                stderr: sess.stderr,
                verbose: sess.verbose,
                output_level: sess.output_level,
                close_output: ok,
            }
        },
    }
}

} // verus!
