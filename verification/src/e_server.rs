//! The legacy E server: its options and settings, and its answers on a
//! client connection.
use vstd::prelude::*;
use crate::cmdline::{OptCell, OptArgType, CommandLineState, scan_from, step, args_view, opt_view, lemma_step_progress, scan_measure};
use crate::diag::{Diagnostic, ErrorCode, diag, warning_text};
use crate::help::{get_int_arg, int_arg_value, int_arg_error, print_options, options_text};
use crate::session::{Session, SessionView, RunReport, saturate_i32, saturating_i32, output_target, output_target_view};
use crate::text::{push_str, push_u64, push_i64, copy_string, owned, signed_decimal};
use crate::version::{VERSION, E_NICKNAME, STS_MAIL, E_URL};
use crate::e_deduction_server::IoFormat;
use crate::e_client::LEGACY_FOOTER_TAIL;

verus! {

/// The name under which the program reports.
pub const PROGRAM_NAME: &'static str = "e_server";

/// The prover used unless another is named.
pub const DEFAULT_PROVER: &'static str = "eprover";

/// The port used unless another is given.
pub const DEFAULT_PORT: u16 = 3666;

/// The usage message.
pub const C_USAGE_ERROR: &'static str = "Usage: e_server <domain-spec> [<options>]\n";

/// The options of the program.
#[derive(Clone, Copy, Debug, PartialEq, Eq, Structural)]
pub enum OptionCode {
    Help,
    Version,
    Verbose,
    Output,
    Silent,
    OutputLevel,
    Filter,
    Prover,
    ServicePort,
    LopParse,
    LopFormat,
    TptpParse,
    TptpFormat,
    TstpParse,
    TstpFormat,
}

/// The option table.
pub open spec fn option_table() -> Seq<OptCell<OptionCode>> {
    seq![
        OptCell {
            option_code: OptionCode::Help,
            short: Some('h'),
            long: "help",
            arg_type: OptArgType::NoArg,
            default: None,
            desc: "Print a short description of program usage and options.",
        },
        OptCell {
            option_code: OptionCode::Version,
            short: Some('V'),
            long: "version",
            arg_type: OptArgType::NoArg,
            default: None,
            desc: "Print the version number of the prover. Please include this with all bug reports (if any).",
        },
        OptCell {
            option_code: OptionCode::Verbose,
            short: Some('v'),
            long: "verbose",
            arg_type: OptArgType::OptArg,
            default: Some("1"),
            desc: "Verbose comments on the progress of the program. This differs from the output level (below) in that technical information is printed to stderr, while the output level determines which logical manipulations of the clauses are printed to stdout.",
        },
        OptCell {
            option_code: OptionCode::Output,
            short: Some('o'),
            long: "output-file",
            arg_type: OptArgType::ReqArg,
            default: None,
            desc: "Redirect output into the named file (this affects only some output, as most is written to automatically generated files based on the input and filter names.",
        },
        OptCell {
            option_code: OptionCode::Silent,
            short: Some('s'),
            long: "silent",
            arg_type: OptArgType::NoArg,
            default: None,
            desc: "Equivalent to --output-level=0.",
        },
        OptCell {
            option_code: OptionCode::OutputLevel,
            short: Some('l'),
            long: "output-level",
            arg_type: OptArgType::ReqArg,
            default: None,
            desc: "Select an output level, greater values imply more verbose output.",
        },
        OptCell {
            option_code: OptionCode::Filter,
            short: Some('f'),
            long: "filter",
            arg_type: OptArgType::ReqArg,
            default: None,
            desc: "Specify the filter definition file. If not set, the system will uses the built-in default.",
        },
        OptCell {
            option_code: OptionCode::Prover,
            short: Some('p'),
            long: "prover",
            arg_type: OptArgType::ReqArg,
            default: None,
            desc: "Specify the prover binary to use. The default is 'eprover', and initially, only E is supported. This option does accept absolute and relative paths.",
        },
        OptCell {
            option_code: OptionCode::ServicePort,
            short: Some('P'),
            long: "service-port",
            arg_type: OptArgType::ReqArg,
            default: None,
            desc: "Specify the port to use for the deduction service.",
        },
        OptCell {
            option_code: OptionCode::LopParse,
            short: None,
            long: "lop-in",
            arg_type: OptArgType::NoArg,
            default: None,
            desc: "Parse input in E-LOP, not the default TPTP-3 format.",
        },
        OptCell {
            option_code: OptionCode::LopFormat,
            short: None,
            long: "lop-format",
            arg_type: OptArgType::NoArg,
            default: None,
            desc: "Equivalent to --lop-in.",
        },
        OptCell {
            option_code: OptionCode::TptpParse,
            short: None,
            long: "tptp-in",
            arg_type: OptArgType::NoArg,
            default: None,
            desc: "Parse TPTP-2 format instead of E-LOP (but note that includes are handled according to TPTP-3 semantics).",
        },
        OptCell {
            option_code: OptionCode::TptpFormat,
            short: None,
            long: "tptp-format",
            arg_type: OptArgType::NoArg,
            default: None,
            desc: "Equivalent to --tptp-in.",
        },
        OptCell {
            option_code: OptionCode::TptpParse,
            short: None,
            long: "tptp2-in",
            arg_type: OptArgType::NoArg,
            default: None,
            desc: "Synonymous with --tptp-in.",
        },
        OptCell {
            option_code: OptionCode::TptpFormat,
            short: None,
            long: "tptp2-format",
            arg_type: OptArgType::NoArg,
            default: None,
            desc: "Synonymous with --tptp-in.",
        },
        OptCell {
            option_code: OptionCode::TstpParse,
            short: None,
            long: "tstp-in",
            arg_type: OptArgType::NoArg,
            default: None,
            desc: "Parse TPTP-3 format instead of E-LOP (Note that TPTP-3 syntax is still under development, and the version in E may not be fully conforming at all times. E works on all TPTP 4.1.0 input files (including includes).",
        },
        OptCell {
            option_code: OptionCode::TstpFormat,
            short: None,
            long: "tstp-format",
            arg_type: OptArgType::NoArg,
            default: None,
            desc: "Equivalent to --tstp-in.",
        },
        OptCell {
            option_code: OptionCode::TstpParse,
            short: None,
            long: "tptp3-in",
            arg_type: OptArgType::NoArg,
            default: None,
            desc: "Synonymous with --tstp-in.",
        },
        OptCell {
            option_code: OptionCode::TstpFormat,
            short: None,
            long: "tptp3-format",
            arg_type: OptArgType::NoArg,
            default: None,
            desc: "Synonymous with --tstp-in.",
        },
    ]
}

/// The option table.
pub fn options() -> (v: Vec<OptCell<OptionCode>>)
    ensures
        v@ == option_table(),
{
    let v = vec![
        OptCell {
            option_code: OptionCode::Help,
            short: Some('h'),
            long: "help",
            arg_type: OptArgType::NoArg,
            default: None,
            desc: "Print a short description of program usage and options.",
        },
        OptCell {
            option_code: OptionCode::Version,
            short: Some('V'),
            long: "version",
            arg_type: OptArgType::NoArg,
            default: None,
            desc: "Print the version number of the prover. Please include this with all bug reports (if any).",
        },
        OptCell {
            option_code: OptionCode::Verbose,
            short: Some('v'),
            long: "verbose",
            arg_type: OptArgType::OptArg,
            default: Some("1"),
            desc: "Verbose comments on the progress of the program. This differs from the output level (below) in that technical information is printed to stderr, while the output level determines which logical manipulations of the clauses are printed to stdout.",
        },
        OptCell {
            option_code: OptionCode::Output,
            short: Some('o'),
            long: "output-file",
            arg_type: OptArgType::ReqArg,
            default: None,
            desc: "Redirect output into the named file (this affects only some output, as most is written to automatically generated files based on the input and filter names.",
        },
        OptCell {
            option_code: OptionCode::Silent,
            short: Some('s'),
            long: "silent",
            arg_type: OptArgType::NoArg,
            default: None,
            desc: "Equivalent to --output-level=0.",
        },
        OptCell {
            option_code: OptionCode::OutputLevel,
            short: Some('l'),
            long: "output-level",
            arg_type: OptArgType::ReqArg,
            default: None,
            desc: "Select an output level, greater values imply more verbose output.",
        },
        OptCell {
            option_code: OptionCode::Filter,
            short: Some('f'),
            long: "filter",
            arg_type: OptArgType::ReqArg,
            default: None,
            desc: "Specify the filter definition file. If not set, the system will uses the built-in default.",
        },
        OptCell {
            option_code: OptionCode::Prover,
            short: Some('p'),
            long: "prover",
            arg_type: OptArgType::ReqArg,
            default: None,
            desc: "Specify the prover binary to use. The default is 'eprover', and initially, only E is supported. This option does accept absolute and relative paths.",
        },
        OptCell {
            option_code: OptionCode::ServicePort,
            short: Some('P'),
            long: "service-port",
            arg_type: OptArgType::ReqArg,
            default: None,
            desc: "Specify the port to use for the deduction service.",
        },
        OptCell {
            option_code: OptionCode::LopParse,
            short: None,
            long: "lop-in",
            arg_type: OptArgType::NoArg,
            default: None,
            desc: "Parse input in E-LOP, not the default TPTP-3 format.",
        },
        OptCell {
            option_code: OptionCode::LopFormat,
            short: None,
            long: "lop-format",
            arg_type: OptArgType::NoArg,
            default: None,
            desc: "Equivalent to --lop-in.",
        },
        OptCell {
            option_code: OptionCode::TptpParse,
            short: None,
            long: "tptp-in",
            arg_type: OptArgType::NoArg,
            default: None,
            desc: "Parse TPTP-2 format instead of E-LOP (but note that includes are handled according to TPTP-3 semantics).",
        },
        OptCell {
            option_code: OptionCode::TptpFormat,
            short: None,
            long: "tptp-format",
            arg_type: OptArgType::NoArg,
            default: None,
            desc: "Equivalent to --tptp-in.",
        },
        OptCell {
            option_code: OptionCode::TptpParse,
            short: None,
            long: "tptp2-in",
            arg_type: OptArgType::NoArg,
            default: None,
            desc: "Synonymous with --tptp-in.",
        },
        OptCell {
            option_code: OptionCode::TptpFormat,
            short: None,
            long: "tptp2-format",
            arg_type: OptArgType::NoArg,
            default: None,
            desc: "Synonymous with --tptp-in.",
        },
        OptCell {
            option_code: OptionCode::TstpParse,
            short: None,
            long: "tstp-in",
            arg_type: OptArgType::NoArg,
            default: None,
            desc: "Parse TPTP-3 format instead of E-LOP (Note that TPTP-3 syntax is still under development, and the version in E may not be fully conforming at all times. E works on all TPTP 4.1.0 input files (including includes).",
        },
        OptCell {
            option_code: OptionCode::TstpFormat,
            short: None,
            long: "tstp-format",
            arg_type: OptArgType::NoArg,
            default: None,
            desc: "Equivalent to --tstp-in.",
        },
        OptCell {
            option_code: OptionCode::TstpParse,
            short: None,
            long: "tptp3-in",
            arg_type: OptArgType::NoArg,
            default: None,
            desc: "Synonymous with --tstp-in.",
        },
        OptCell {
            option_code: OptionCode::TstpFormat,
            short: None,
            long: "tptp3-format",
            arg_type: OptArgType::NoArg,
            default: None,
            desc: "Synonymous with --tstp-in.",
        },
    ];
    proof {
        assert(v@ =~= option_table());
    }
    v
}

/// The settings of a run.
pub struct Config {
    pub output_file: Option<String>,
    pub filter_file: Option<String>,
    pub prover: String,
    pub port: u16,
    pub parse_format: IoFormat,
    pub verbose_level: i64,
    pub output_level: i64,
    pub files: Vec<String>,
}

/// The view of the settings of a run.
pub struct ConfigView {
    pub output_file: Option<Seq<char>>,
    pub filter_file: Option<Seq<char>>,
    pub prover: Seq<char>,
    pub port: u16,
    pub parse_format: IoFormat,
    pub verbose_level: i64,
    pub output_level: i64,
    pub files: Seq<Seq<char>>,
}

impl Config {
    pub open spec fn view(&self) -> ConfigView {
        ConfigView {
            output_file: opt_view(self.output_file),
            filter_file: opt_view(self.filter_file),
            prover: self.prover@,
            port: self.port,
            parse_format: self.parse_format,
            verbose_level: self.verbose_level,
            output_level: self.output_level,
            files: args_view(self.files@),
        }
    }
}

/// The settings before any option.
pub open spec fn default_config() -> ConfigView {
    ConfigView {
        output_file: None,
        filter_file: None,
        prover: DEFAULT_PROVER@,
        port: DEFAULT_PORT,
        parse_format: IoFormat::Tstp,
        verbose_level: 0,
        output_level: 1,
        files: Seq::empty(),
    }
}

/// What the options ask for: leave with a status (after help or version
/// text), or go on with the given settings.
pub enum Command {
    Exit(u8),
    Execute(Config),
}

pub enum CommandView {
    Exit(u8),
    Execute(ConfigView),
}

pub open spec fn command_view(r: Result<Command, Diagnostic>) -> Result<CommandView, (ErrorCode, Seq<char>)> {
    match r {
        Ok(Command::Exit(s)) => Ok(CommandView::Exit(s)),
        Ok(Command::Execute(c)) => Ok(CommandView::Execute(c.view())),
        Err(d) => Err((d.code, d.message@)),
    }
}

/// The outcome of one option: go on with the new session and settings, or
/// stop with a result.
pub enum OptStep {
    Go(SessionView, ConfigView),
    Stop(SessionView, Result<CommandView, (ErrorCode, Seq<char>)>),
}

/// The argument of an option, empty where it has none.
pub open spec fn arg_or_empty(a: Option<Seq<char>>) -> Seq<char> {
    match a {
        Some(x) => x,
        None => Seq::empty(),
    }
}


/// What one option does.
pub open spec fn apply_option(s: SessionView, c: ConfigView, cell: OptCell<OptionCode>, arg: Seq<char>) -> OptStep {
    match cell.option_code {
        OptionCode::Help => OptStep::Stop(SessionView { stdout: s.stdout + help_text(), ..s }, Ok(CommandView::Exit(0))),
        OptionCode::Version => OptStep::Stop(SessionView { stdout: s.stdout + "E "@ + VERSION@ + " "@ + E_NICKNAME@ + "\n"@, ..s }, Ok(CommandView::Exit(0))),
        OptionCode::Verbose => match int_arg_value(arg) {
            Some(v) => OptStep::Go(s, ConfigView { verbose_level: v as i64, ..c }),
            None => OptStep::Stop(s, Err((ErrorCode::Usage, int_arg_error(cell)))),
        },
        OptionCode::Output => OptStep::Go(s, ConfigView { output_file: Some(arg), ..c }),
        OptionCode::Silent => OptStep::Go(s, ConfigView { output_level: 0, ..c }),
        OptionCode::OutputLevel => match int_arg_value(arg) {
            Some(v) => OptStep::Go(s, ConfigView { output_level: v as i64, ..c }),
            None => OptStep::Stop(s, Err((ErrorCode::Usage, int_arg_error(cell)))),
        },
        OptionCode::Filter => OptStep::Go(s, ConfigView { filter_file: Some(arg), ..c }),
        OptionCode::Prover => OptStep::Go(s, ConfigView { prover: arg, ..c }),
        OptionCode::ServicePort => match port_step(s, cell, arg) {
            Ok((s2, p)) => OptStep::Go(s2, ConfigView { port: p, ..c }),
            Err(e) => OptStep::Stop(s, Err(e)),
        },
        OptionCode::LopParse => OptStep::Go(s, ConfigView { parse_format: IoFormat::Lop, ..c }),
        OptionCode::LopFormat => OptStep::Go(s, ConfigView { parse_format: IoFormat::Lop, ..c }),
        OptionCode::TptpParse => OptStep::Go(s, c),
        OptionCode::TptpFormat => OptStep::Go(s, c),
        OptionCode::TstpParse => OptStep::Go(s, ConfigView { parse_format: IoFormat::Tstp, ..c }),
        OptionCode::TstpFormat => OptStep::Go(s, ConfigView { parse_format: IoFormat::Tstp, ..c }),
    }
}


/// The options applied in order, then the positional arguments.
pub open spec fn options_fold(
    s: SessionView,
    c: ConfigView,
    opts: Seq<(int, Option<Seq<char>>)>,
    end: Result<Seq<Seq<char>>, Seq<char>>,
) -> (SessionView, Result<CommandView, (ErrorCode, Seq<char>)>)
    decreases opts.len(),
{
    if opts.len() == 0 {
        match end {
            Ok(rest) => (s, Ok(CommandView::Execute(ConfigView { files: rest, ..c }))),
            Err(m) => (s, Err((ErrorCode::Usage, m))),
        }
    } else {
        match apply_option(s, c, option_table()[opts[0].0], arg_or_empty(opts[0].1)) {
            OptStep::Go(s2, c2) => options_fold(s2, c2, opts.drop_first(), end),
            OptStep::Stop(s2, r) => (s2, r),
        }
    }
}

/// What the command line asks for, and the session after it.
pub open spec fn options_outcome(args: Seq<Seq<char>>, s: SessionView) -> (SessionView, Result<CommandView, (ErrorCode, Seq<char>)>) {
    let sc = crate::cmdline::scan(args, option_table());
    options_fold(s, default_config(), sc.opts, sc.end)
}


/// The help text.
pub open spec fn help_text() -> Seq<char> {
    "\nE "@ + VERSION@ + " \""@ + E_NICKNAME@ + "\"\n\nUsage: "@ + PROGRAM_NAME@ + " [options] [files]\n\nRead an problem specification and offer deduction in the the structure\ndescribed by the specification as a service.  All input formats (LOP,\nTPTP-2 and TPTP-3 are supported for the original specification, \nhowever, only TPTP-3 is used for the service. TPTP-3 is also the \ndefault format. Important options allow specificatio of the filters\nto use for proof attemtps, the dervice port, and the binary of the\nprover to use.\n\n"@ + "Options:\n\n"@ + options_text(option_table()) + "\n"@ + "Copyright (C) 2011 by Stephan Schulz, "@ + STS_MAIL@ + "\n\nYou can find the latest version of E and additional information at\n"@ + E_URL@ + LEGACY_FOOTER_TAIL@
}


/// The help text.
pub fn print_help() -> (s: String)
    ensures
        s@ == help_text(),
{
    let mut s = String::new();
    push_str(&mut s, "\nE ");
    push_str(&mut s, VERSION);
    push_str(&mut s, " \"");
    push_str(&mut s, E_NICKNAME);
    push_str(&mut s, "\"\n\nUsage: ");
    push_str(&mut s, PROGRAM_NAME);
    push_str(&mut s, " [options] [files]\n\nRead an problem specification and offer deduction in the the structure\ndescribed by the specification as a service.  All input formats (LOP,\nTPTP-2 and TPTP-3 are supported for the original specification, \nhowever, only TPTP-3 is used for the service. TPTP-3 is also the \ndefault format. Important options allow specificatio of the filters\nto use for proof attemtps, the dervice port, and the binary of the\nprover to use.\n\n");
    let opts = options();
    let o = print_options(&opts, Some("Options:\n\n"));
    push_str(&mut s, o.as_str());
    push_str(&mut s, "\n");
    push_str(&mut s, "Copyright (C) 2011 by Stephan Schulz, ");
    push_str(&mut s, STS_MAIL);
    push_str(&mut s, "\n\nYou can find the latest version of E and additional information at\n");
    push_str(&mut s, E_URL);
    push_str(&mut s, LEGACY_FOOTER_TAIL);
    s
}


/// Reads the command line.
pub fn process_options(args: &Vec<String>, sess: &mut Session) -> (r: Result<Command, Diagnostic>)
    ensures
        (final(sess).view(), command_view(r)) == options_outcome(args_view(args@), old(sess).view()),
{
    let opts = options();
    let mut state = CommandLineState::new(args);
    let mut cfg = Config {
        output_file: None,
        filter_file: None,
        prover: owned(DEFAULT_PROVER),
        port: DEFAULT_PORT,
        parse_format: IoFormat::Tstp,
        verbose_level: 0,
        output_level: 1,
        files: Vec::new(),
    };
    let ghost goal = options_outcome(args_view(args@), old(sess).view());
    proof {
        assert(args_view(cfg.files@) =~= Seq::<Seq<char>>::empty());
    }
    loop
        invariant
            state.wf(),
            state.args_seq() == args_view(args@),
            opts@ == option_table(),
            goal == options_outcome(args_view(args@), old(sess).view()),
            ({
                let sc = scan_from(args_view(args@), option_table(), state.state());
                options_fold(sess.view(), cfg.view(), sc.opts, sc.end) == goal
            }),
        decreases args.len() - state.state().argi, scan_measure(args_view(args@), state.state()),
    {
        let ghost st = state.state();
        proof {
            if !st.done {
                let (st2, ev) = step(args_view(args@), option_table(), st);
                if ev is Opt {
                    lemma_step_progress(args_view(args@), option_table(), st);
                }
            }
        }
        match state.next_opt(&opts) {
            Err(d) => {
                return Err(d);
            },
            Ok(None) => {
                let rest = state.remaining_args();
                cfg.files = rest;
                return Ok(Command::Execute(cfg));
            },
            Ok(Some(p)) => {
                proof {
                    crate::cmdline::lemma_step_opt_index(args_view(args@), option_table(), st);
                }
                let cell = &opts[p.index];
                let arg: String = match &p.arg {
                    Some(a) => copy_string(a),
                    None => String::new(),
                };
                proof {
                    assert(arg@ == arg_or_empty(opt_view(p.arg)));
                }
                match cell.option_code {
                    OptionCode::Help => {
                        let h = print_help();
                        push_str(&mut sess.stdout, h.as_str());
                        return Ok(Command::Exit(0));
                    },
                    OptionCode::Version => {
                        push_str(&mut sess.stdout, "E ");
                        push_str(&mut sess.stdout, VERSION);
                        push_str(&mut sess.stdout, " ");
                        push_str(&mut sess.stdout, E_NICKNAME);
                        push_str(&mut sess.stdout, "\n");
                        return Ok(Command::Exit(0));
                    },
                    OptionCode::Verbose => {
                        match get_int_arg(cell, arg.as_str()) {
                            Ok(v) => {
                                cfg.verbose_level = v;
                            },
                            Err(d) => {
                                return Err(d);
                            },
                        }
                    },
                    OptionCode::Output => {
                        cfg.output_file = Some(arg);
                    },
                    OptionCode::Silent => {
                        cfg.output_level = 0;
                    },
                    OptionCode::OutputLevel => {
                        match get_int_arg(cell, arg.as_str()) {
                            Ok(v) => {
                                cfg.output_level = v;
                            },
                            Err(d) => {
                                return Err(d);
                            },
                        }
                    },
                    OptionCode::Filter => {
                        cfg.filter_file = Some(arg);
                    },
                    OptionCode::Prover => {
                        cfg.prover = arg;
                    },
                    OptionCode::ServicePort => {
                        match parse_port(cell, arg.as_str(), &mut sess.stderr) {
                            Ok(v) => {
                                cfg.port = v;
                            },
                            Err(d) => {
                                return Err(d);
                            },
                        }
                    },
                    OptionCode::LopParse => {
                        cfg.parse_format = IoFormat::Lop;
                    },
                    OptionCode::LopFormat => {
                        cfg.parse_format = IoFormat::Lop;
                    },
                    OptionCode::TptpParse => {

                    },
                    OptionCode::TptpFormat => {

                    },
                    OptionCode::TstpParse => {
                        cfg.parse_format = IoFormat::Tstp;
                    },
                    OptionCode::TstpFormat => {
                        cfg.parse_format = IoFormat::Tstp;
                    },
                }
                proof {
                    let sc = scan_from(args_view(args@), option_table(), st);
                    let tail = scan_from(args_view(args@), option_table(), state.state());
                    assert(sc.opts == seq![(p.index as int, opt_view(p.arg))].add(tail.opts));
                    assert(sc.opts.drop_first() =~= tail.opts);
                }
            },
        }
    }
}


/// The warning for a port that needs root privileges.
pub open spec fn reserved_port_warning() -> Seq<char> {
    warning_text(PROGRAM_NAME@, "Port numbers less than "@ + crate::text::decimal(1024) + " require root level access"@)
}

/// A port number (with a warning on standard error below 1024), or a
/// usage error.
pub open spec fn port_step(s: SessionView, cell: OptCell<OptionCode>, arg: Seq<char>) -> Result<(SessionView, u16), (ErrorCode, Seq<char>)> {
    match int_arg_value(arg) {
        None => Err((ErrorCode::Usage, int_arg_error(cell))),
        Some(v) => if 0 <= v <= 65535 {
            if v < 1024 {
                Ok((SessionView { stderr: s.stderr + reserved_port_warning(), ..s }, v as u16))
            } else {
                Ok((s, v as u16))
            }
        } else {
            Err((ErrorCode::Usage, "Port numbers must be between 0 and 65535"@))
        },
    }
}

/// The port argument: an integer between 0 and 65535; a warning goes to
/// standard error for one below 1024.
pub fn parse_port(cell: &OptCell<OptionCode>, arg: &str, stderr: &mut String) -> (r: Result<u16, Diagnostic>)
    ensures
        ({
            let s0 = SessionView { verbose: 0, output_level: 0, stdout: Seq::empty(), stderr: old(stderr)@ };
            match port_step(s0, *cell, arg@) {
                Ok((s2, p)) => r == Ok::<u16, Diagnostic>(p) && final(stderr)@ == s2.stderr,
                Err((code, m)) => r matches Err(d) && d.code == code && d.message@ == m && final(stderr)@ == old(stderr)@,
            }
        }),
{
    match get_int_arg(cell, arg) {
        Err(d) => Err(d),
        Ok(v) => {
            if 0 <= v && v <= 65535 {
                if v < 1024 {
                    let mut m = String::new();
                    push_str(&mut m, "Port numbers less than ");
                    push_u64(&mut m, 1024);
                    push_str(&mut m, " require root level access");
                    let w = Diagnostic::new(ErrorCode::Other, m).render_warning(PROGRAM_NAME);
                    push_str(stderr, w.as_str());
                }
                Ok(v as u16)
            } else {
                Err(diag(ErrorCode::Usage, "Port numbers must be between 0 and 65535"))
            }
        },
    }
}

/// The checks that precede serving: the levels become the session's, and
/// a domain specification must be given.
pub fn execute_checks(cfg: &Config, sess: &mut Session) -> (r: Result<(), Diagnostic>)
    ensures
        final(sess).verbose == saturate_i32(cfg.verbose_level),
        final(sess).output_level == cfg.output_level,
        final(sess).stdout@ == old(sess).stdout@,
        final(sess).stderr@ == old(sess).stderr@,
        cfg.files@.len() == 0 ==> (r matches Err(d) && d.code == ErrorCode::Usage && d.message@ == C_USAGE_ERROR@),
        cfg.files@.len() > 0 ==> r is Ok,
{
    sess.verbose = saturating_i32(cfg.verbose_level);
    sess.output_level = cfg.output_level;
    if cfg.files.len() == 0 {
        return Err(diag(ErrorCode::Usage, C_USAGE_ERROR));
    }
    Ok(())
}

/// How a client's stream ended: closed, with a read error, or with nothing
/// complete to read yet.
#[derive(Clone, Copy, Debug, PartialEq, Eq, Structural)]
pub enum StreamEnd {
    Closed,
    ReadError,
    Pending,
}

/// What a legacy connection saw: the messages received and how it ended.
#[derive(Clone, Copy, Debug, PartialEq, Eq, Structural)]
pub struct LegacyServerReport {
    pub received: usize,
    pub closed: bool,
    pub read_error: bool,
}

/// A legacy connection: its report, the lines for the server's output and
/// the messages sent back.
pub struct LegacySession {
    pub report: LegacyServerReport,
    pub output: String,
    pub sent: Vec<String>,
}

/// The lines for a sequence of received messages.
pub open spec fn received_text(msgs: Seq<Seq<char>>) -> Seq<char>
    decreases msgs.len(),
{
    if msgs.len() == 0 {
        Seq::empty()
    } else {
        received_text(msgs.drop_last()) + "Received: "@ + msgs.last() + "\n"@
    }
}

/// The replies to `n` messages: "wait" and "ready" for each.
pub open spec fn replies(n: nat) -> Seq<Seq<char>>
    decreases n,
{
    if n == 0 {
        Seq::empty()
    } else {
        replies((n - 1) as nat) + seq!["wait"@, "ready"@]
    }
}

/// A legacy connection: each message received is shown as "Received: <msg>"
/// and answered with "wait" and "ready"; the end of the stream is shown as
/// "Connection closed" or "Read error".
pub fn process_legacy_connection(received: &Vec<String>, end: StreamEnd) -> (s: LegacySession)
    ensures
        s.report.received == received@.len(),
        s.report.closed == (end == StreamEnd::Closed),
        s.report.read_error == (end == StreamEnd::ReadError),
        s.output@ == received_text(args_view(received@)) + match end {
            StreamEnd::Closed => "Connection closed"@ + "\n"@,
            StreamEnd::ReadError => "Read error"@ + "\n"@,
            StreamEnd::Pending => Seq::empty(),
        },
        args_view(s.sent@) == replies(received@.len()),
{
    let mut output = String::new();
    let mut sent: Vec<String> = Vec::new();
    let mut i: usize = 0;
    while i < received.len()
        invariant
            i <= received.len(),
            output@ == received_text(args_view(received@).take(i as int)),
            args_view(sent@) == replies(i as nat),
        decreases received.len() - i,
    {
        push_str(&mut output, "Received: ");
        push_str(&mut output, received[i].as_str());
        push_str(&mut output, "\n");
        let ghost s0 = sent@;
        sent.push(owned("wait"));
        sent.push(owned("ready"));
        proof {
            let v = args_view(received@);
            assert(v.take(i + 1).drop_last() == v.take(i as int));
            assert(v.take(i + 1).last() == received@[i as int]@);
            assert(args_view(sent@) =~= args_view(s0) + seq!["wait"@, "ready"@]);
        }
        i = i + 1;
    }
    proof {
        assert(args_view(received@).take(received.len() as int) == args_view(received@));
    }
    match end {
        StreamEnd::Closed => {
            push_str(&mut output, "Connection closed");
            push_str(&mut output, "\n");
        },
        StreamEnd::ReadError => {
            push_str(&mut output, "Read error");
            push_str(&mut output, "\n");
        },
        StreamEnd::Pending => {},
    }
    LegacySession {
        report: LegacyServerReport { received: i, closed: end == StreamEnd::Closed, read_error: end == StreamEnd::ReadError },
        output,
        sent,
    }
}

/// What the active connection yielded since the last round.
pub enum ActiveRead {
    Idle,
    Message(String),
    ReadError,
    Closed,
}

pub enum ActiveReadView {
    Idle,
    Message(Seq<char>),
    ReadError,
    Closed,
}

pub open spec fn active_read_view(r: ActiveRead) -> ActiveReadView {
    match r {
        ActiveRead::Idle => ActiveReadView::Idle,
        ActiveRead::Message(m) => ActiveReadView::Message(m@),
        ActiveRead::ReadError => ActiveReadView::ReadError,
        ActiveRead::Closed => ActiveReadView::Closed,
    }
}

/// One round of the legacy server: whether a connection is active after
/// it, the lines for the server's output, the replies to the active client,
/// whether a waiting client was accepted or turned away, and whether the
/// round did anything.
pub struct LegacyPoll {
    pub active: bool,
    pub output: String,
    pub replies: Vec<String>,
    pub accepted: bool,
    pub rejected: bool,
    pub active_read: bool,
    pub progress: bool,
}

/// Whether the connection stays active after what was read from it.
pub open spec fn stays_active(active: bool, read: ActiveReadView) -> bool {
    active && !(read is ReadError || read is Closed)
}

/// The lines that a round writes for what was read from the active
/// connection.
pub open spec fn read_lines(active: bool, read: ActiveReadView) -> Seq<char> {
    if !active {
        Seq::empty()
    } else {
        match read {
            ActiveReadView::Idle => Seq::empty(),
            ActiveReadView::Message(m) => "Received: "@ + m + "\n"@,
            ActiveReadView::ReadError => "Read error\n"@,
            ActiveReadView::Closed => "Connection closed\n"@,
        }
    }
}

/// One round of the legacy server. The active connection (if any) is read
/// first: a message is shown and answered with "wait" and "ready", a read
/// error or a close ends the connection. Then a waiting client (`incoming`,
/// with its descriptor) is accepted where no connection is active, and
/// turned away otherwise: the server keeps one client at a time.
pub fn legacy_poll_step(active: bool, read: ActiveRead, incoming: bool, descriptor: i64) -> (p: LegacyPoll)
    ensures
        ({
            let rv = active_read_view(read);
            let kept = stays_active(active, rv);
            &&& p.accepted == (incoming && !kept)
            &&& p.rejected == (incoming && kept)
            &&& p.active == (kept || p.accepted)
            &&& p.output@ == read_lines(active, rv) + (if p.accepted {
                "Accepted "@ + signed_decimal(descriptor as int) + "\n"@
            } else {
                Seq::empty()
            })
            &&& args_view(p.replies@) == (if active && rv is Message {
                seq!["wait"@, "ready"@]
            } else {
                Seq::<Seq<char>>::empty()
            })
            &&& p.active_read == (active && !(rv is Idle))
            &&& p.progress == (p.active_read || incoming)
        }),
{
    let mut output = String::new();
    let mut replies: Vec<String> = Vec::new();
    let mut kept = active;
    let mut read_something = false;
    if active {
        match &read {
            ActiveRead::Idle => {},
            ActiveRead::Message(m) => {
                push_str(&mut output, "Received: ");
                push_str(&mut output, m.as_str());
                push_str(&mut output, "\n");
                replies.push(owned("wait"));
                replies.push(owned("ready"));
                proof {
                    assert(args_view(replies@) =~= seq!["wait"@, "ready"@]);
                }
                read_something = true;
            },
            ActiveRead::ReadError => {
                push_str(&mut output, "Read error\n");
                kept = false;
                read_something = true;
            },
            ActiveRead::Closed => {
                push_str(&mut output, "Connection closed\n");
                kept = false;
                read_something = true;
            },
        }
    }
    proof {
        if !(active && active_read_view(read) is Message) {
            assert(args_view(replies@) =~= Seq::<Seq<char>>::empty());
        }
    }
    let accepted = incoming && !kept;
    let rejected = incoming && kept;
    if accepted {
        push_str(&mut output, "Accepted ");
        push_i64(&mut output, descriptor);
        push_str(&mut output, "\n");
    }
    LegacyPoll {
        active: kept || accepted,
        output,
        replies,
        accepted,
        rejected,
        active_read: read_something,
        progress: read_something || incoming,
    }
}

/// A run up to serving: the options and the checks that precede serving;
/// where the run goes on, its settings (the application reads the domain
/// specification and serves).
pub fn run(args: &Vec<String>) -> (r: (RunReport, Option<Config>))
    ensures
        ({
            let (s, cmd) = options_outcome(args_view(args@), SessionView { verbose: 0, output_level: 1, stdout: Seq::empty(), stderr: Seq::empty() });
            &&& r.0.stdout@ == s.stdout
            &&& match cmd {
                Err((code, m)) => (r.0.result matches Err(d) && d.code == code && d.message@ == m) && r.1 is None,
                Ok(CommandView::Exit(st)) => (r.0.result matches Ok(x) && x == st) && r.1 is None,
                Ok(CommandView::Execute(cv)) => r.0.verbose == saturate_i32(cv.verbose_level) && r.0.output_level
                    == cv.output_level && opt_view(r.0.output_file) == output_target_view(cv.output_file) && if cv.files.len()
                    == 0 {
                    (r.0.result matches Err(d) && d.code == ErrorCode::Usage && d.message@ == C_USAGE_ERROR@) && r.1 is None
                } else {
                    r.0.result == Ok::<u8, Diagnostic>(0) && (r.1 matches Some(c) && c.view() == cv)
                },
            }
        }),
{
    let mut sess = Session::new(0, 1);
    let cmd = process_options(args, &mut sess);
    let (result, cfg, target) = match cmd {
        Err(d) => (Err(d), None, None),
        Ok(Command::Exit(st)) => (Ok(st), None, None),
        Ok(Command::Execute(c)) => {
            let t = output_target(&c.output_file);
            match execute_checks(&c, &mut sess) {
                Err(d) => (Err(d), None, t),
                Ok(()) => (Ok(0), Some(c), t),
            }
        },
    };
    (RunReport { result, stdout: sess.stdout, output: String::new(), output_file: target, stderr: sess.stderr, verbose: sess.verbose, output_level: sess.output_level, close_output: false }, cfg)
}


} // verus!
