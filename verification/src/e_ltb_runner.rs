//! The CASC LTB runner: its options and settings, the variant setups of
//! past competitions, the shape of the command line of a variant child,
//! and the bookkeeping of batch time limits.
use vstd::prelude::*;
use crate::cmdline::{OptCell, OptArgType, CommandLineState, scan_from, step, args_view, opt_view, lemma_step_progress, scan_measure};
use crate::diag::{Diagnostic, ErrorCode, diag};
use crate::help::{get_int_arg, int_arg_value, int_arg_error, print_options, options_text};
use crate::session::{Session, SessionView, RunReport};
use crate::text::{push_str, push_i64, push_padded, fmt_i64, copy_string, owned, parse_rust_int, parse_rust_usize, rust_int_value, rust_int_error, signed_decimal, pad_left};
use crate::version::{VERSION, E_NICKNAME, FOOTER};

verus! {

/// The name under which the program reports.
pub const PROGRAM_NAME: &'static str = "e_ltb_runner";

/// The prover used unless another is named.
pub const DEFAULT_PROVER: &'static str = "eprover";

/// The usage message.
pub const C_USAGE_ERROR: &'static str = "Usage: e_ltb_runner <spec> [<path-to-eprover>]";

/// The first argument by which the runner starts itself as a variant child.
pub const INTERNAL_VARIANT_CHILD_ARG: &'static str = "--internal-ltb-variant-child";

/// The competition setups that run several variants of each problem.
#[derive(Clone, Copy, Debug, PartialEq, Eq, Structural)]
pub enum LtbVariantMode {
    Variants27,
    Variants28,
    Variants28Ho,
    Variants28_25,
    VariantsJ11,
}

/// The options of the program.
#[derive(Clone, Copy, Debug, PartialEq, Eq, Structural)]
pub enum OptionCode {
    Help,
    Version,
    Verbose,
    OutputFile,
    OutputDir,
    Variants27,
    Variants28,
    Variants28Ho,
    Variants28_25,
    VariantsJ11,
    Interactive,
    Silent,
    OutputLevel,
    GlobalWtcLimit,
}

/// The option table.
pub open spec fn option_table() -> Seq<OptCell<OptionCode>> {
    seq![
        OptCell {
            option_code: OptionCode::Help,
            short: Some('h'),
            long: "help",
            arg_type: OptArgType::NoArg,
            default: None,
            desc: "Print a short description of program usage and options.",
        },
        OptCell {
            option_code: OptionCode::Version,
            short: Some('V'),
            long: "version",
            arg_type: OptArgType::NoArg,
            default: None,
            desc: "Print the version number of the prover. Please include this with all bug reports (if any).",
        },
        OptCell {
            option_code: OptionCode::Verbose,
            short: Some('v'),
            long: "verbose",
            arg_type: OptArgType::OptArg,
            default: Some("1"),
            desc: "Verbose comments on the progress of the program.",
        },
        OptCell {
            option_code: OptionCode::OutputFile,
            short: Some('o'),
            long: "output-file",
            arg_type: OptArgType::ReqArg,
            default: None,
            desc: "Redirect output into the named file.",
        },
        OptCell {
            option_code: OptionCode::OutputDir,
            short: Some('d'),
            long: "output-dir",
            arg_type: OptArgType::ReqArg,
            default: None,
            desc: "Prefix generated per-problem output files with the named directory.",
        },
        OptCell {
            option_code: OptionCode::Variants27,
            short: None,
            long: "variants27",
            arg_type: OptArgType::NoArg,
            default: None,
            desc: "Use the CASC-27 variant problem setup.",
        },
        OptCell {
            option_code: OptionCode::Variants28,
            short: None,
            long: "variants28",
            arg_type: OptArgType::NoArg,
            default: None,
            desc: "Use the CASC-28 variant problem setup.",
        },
        OptCell {
            option_code: OptionCode::Variants28Ho,
            short: None,
            long: "variants28-ho",
            arg_type: OptArgType::NoArg,
            default: None,
            desc: "Use the CASC-28 higher-order variant problem setup.",
        },
        OptCell {
            option_code: OptionCode::Variants28_25,
            short: None,
            long: "variants28-25",
            arg_type: OptArgType::NoArg,
            default: None,
            desc: "Use the CASC-28 25-variant problem setup.",
        },
        OptCell {
            option_code: OptionCode::VariantsJ11,
            short: None,
            long: "variantsj11",
            arg_type: OptArgType::NoArg,
            default: None,
            desc: "Use the CASC-J11 variant problem setup.",
        },
        OptCell {
            option_code: OptionCode::Interactive,
            short: Some('i'),
            long: "interactive",
            arg_type: OptArgType::NoArg,
            default: None,
            desc: "Enter interactive mode after each batch.",
        },
        OptCell {
            option_code: OptionCode::Silent,
            short: Some('s'),
            long: "silent",
            arg_type: OptArgType::NoArg,
            default: None,
            desc: "Suppress nonessential output.",
        },
        OptCell {
            option_code: OptionCode::OutputLevel,
            short: Some('l'),
            long: "output-level",
            arg_type: OptArgType::ReqArg,
            default: None,
            desc: "Set the output level.",
        },
        OptCell {
            option_code: OptionCode::GlobalWtcLimit,
            short: Some('w'),
            long: "wtc-limit",
            arg_type: OptArgType::ReqArg,
            default: None,
            desc: "Set a global wall-clock limit for specs that omit one.",
        },
    ]
}

/// The option table.
pub fn options() -> (v: Vec<OptCell<OptionCode>>)
    ensures
        v@ == option_table(),
{
    let v = vec![
        OptCell {
            option_code: OptionCode::Help,
            short: Some('h'),
            long: "help",
            arg_type: OptArgType::NoArg,
            default: None,
            desc: "Print a short description of program usage and options.",
        },
        OptCell {
            option_code: OptionCode::Version,
            short: Some('V'),
            long: "version",
            arg_type: OptArgType::NoArg,
            default: None,
            desc: "Print the version number of the prover. Please include this with all bug reports (if any).",
        },
        OptCell {
            option_code: OptionCode::Verbose,
            short: Some('v'),
            long: "verbose",
            arg_type: OptArgType::OptArg,
            default: Some("1"),
            desc: "Verbose comments on the progress of the program.",
        },
        OptCell {
            option_code: OptionCode::OutputFile,
            short: Some('o'),
            long: "output-file",
            arg_type: OptArgType::ReqArg,
            default: None,
            desc: "Redirect output into the named file.",
        },
        OptCell {
            option_code: OptionCode::OutputDir,
            short: Some('d'),
            long: "output-dir",
            arg_type: OptArgType::ReqArg,
            default: None,
            desc: "Prefix generated per-problem output files with the named directory.",
        },
        OptCell {
            option_code: OptionCode::Variants27,
            short: None,
            long: "variants27",
            arg_type: OptArgType::NoArg,
            default: None,
            desc: "Use the CASC-27 variant problem setup.",
        },
        OptCell {
            option_code: OptionCode::Variants28,
            short: None,
            long: "variants28",
            arg_type: OptArgType::NoArg,
            default: None,
            desc: "Use the CASC-28 variant problem setup.",
        },
        OptCell {
            option_code: OptionCode::Variants28Ho,
            short: None,
            long: "variants28-ho",
            arg_type: OptArgType::NoArg,
            default: None,
            desc: "Use the CASC-28 higher-order variant problem setup.",
        },
        OptCell {
            option_code: OptionCode::Variants28_25,
            short: None,
            long: "variants28-25",
            arg_type: OptArgType::NoArg,
            default: None,
            desc: "Use the CASC-28 25-variant problem setup.",
        },
        OptCell {
            option_code: OptionCode::VariantsJ11,
            short: None,
            long: "variantsj11",
            arg_type: OptArgType::NoArg,
            default: None,
            desc: "Use the CASC-J11 variant problem setup.",
        },
        OptCell {
            option_code: OptionCode::Interactive,
            short: Some('i'),
            long: "interactive",
            arg_type: OptArgType::NoArg,
            default: None,
            desc: "Enter interactive mode after each batch.",
        },
        OptCell {
            option_code: OptionCode::Silent,
            short: Some('s'),
            long: "silent",
            arg_type: OptArgType::NoArg,
            default: None,
            desc: "Suppress nonessential output.",
        },
        OptCell {
            option_code: OptionCode::OutputLevel,
            short: Some('l'),
            long: "output-level",
            arg_type: OptArgType::ReqArg,
            default: None,
            desc: "Set the output level.",
        },
        OptCell {
            option_code: OptionCode::GlobalWtcLimit,
            short: Some('w'),
            long: "wtc-limit",
            arg_type: OptArgType::ReqArg,
            default: None,
            desc: "Set a global wall-clock limit for specs that omit one.",
        },
    ];
    proof {
        assert(v@ =~= option_table());
    }
    v
}

/// The settings of a run.
pub struct Config {
    pub spec_file: String,
    pub prover: String,
    pub output_file: Option<String>,
    pub output_dir: Option<String>,
    pub total_wtc_limit: i64,
    pub verbose_level: i64,
    pub output_level: i64,
    pub interactive: bool,
    pub variant_mode: Option<LtbVariantMode>,
}

/// The view of the settings of a run.
pub struct ConfigView {
    pub spec_file: Seq<char>,
    pub prover: Seq<char>,
    pub output_file: Option<Seq<char>>,
    pub output_dir: Option<Seq<char>>,
    pub total_wtc_limit: i64,
    pub verbose_level: i64,
    pub output_level: i64,
    pub interactive: bool,
    pub variant_mode: Option<LtbVariantMode>,
}

impl Config {
    pub open spec fn view(&self) -> ConfigView {
        ConfigView {
            spec_file: self.spec_file@,
            prover: self.prover@,
            output_file: opt_view(self.output_file),
            output_dir: opt_view(self.output_dir),
            total_wtc_limit: self.total_wtc_limit,
            verbose_level: self.verbose_level,
            output_level: self.output_level,
            interactive: self.interactive,
            variant_mode: self.variant_mode,
        }
    }
}

/// The settings before any option.
pub open spec fn default_config() -> ConfigView {
    ConfigView {
        spec_file: Seq::empty(),
        prover: DEFAULT_PROVER@,
        output_file: None,
        output_dir: None,
        total_wtc_limit: 0,
        verbose_level: 0,
        output_level: 1,
        interactive: false,
        variant_mode: None,
    }
}

/// What the options ask for: leave with a status (after help or version
/// text), or go on with the given settings.
pub enum Command {
    Exit(u8),
    Execute(Config),
}

pub enum CommandView {
    Exit(u8),
    Execute(ConfigView),
}

pub open spec fn command_view(r: Result<Command, Diagnostic>) -> Result<CommandView, (ErrorCode, Seq<char>)> {
    match r {
        Ok(Command::Exit(s)) => Ok(CommandView::Exit(s)),
        Ok(Command::Execute(c)) => Ok(CommandView::Execute(c.view())),
        Err(d) => Err((d.code, d.message@)),
    }
}

/// The outcome of one option: go on with the new session and settings, or
/// stop with a result.
pub enum OptStep {
    Go(SessionView, ConfigView),
    Stop(SessionView, Result<CommandView, (ErrorCode, Seq<char>)>),
}

/// The argument of an option, empty where it has none.
pub open spec fn arg_or_empty(a: Option<Seq<char>>) -> Seq<char> {
    match a {
        Some(x) => x,
        None => Seq::empty(),
    }
}


/// What one option does.
pub open spec fn apply_option(s: SessionView, c: ConfigView, cell: OptCell<OptionCode>, arg: Seq<char>) -> OptStep {
    match cell.option_code {
        OptionCode::Help => OptStep::Stop(SessionView { stdout: s.stdout + help_text(), ..s }, Ok(CommandView::Exit(0))),
        OptionCode::Version => OptStep::Stop(SessionView { stdout: s.stdout + PROGRAM_NAME@ + " "@ + VERSION@ + " "@ + E_NICKNAME@ + "\n"@, ..s }, Ok(CommandView::Exit(0))),
        OptionCode::Verbose => match int_arg_value(arg) {
            Some(v) => OptStep::Go(s, ConfigView { verbose_level: v as i64, ..c }),
            None => OptStep::Stop(s, Err((ErrorCode::Usage, int_arg_error(cell)))),
        },
        OptionCode::OutputFile => OptStep::Go(s, ConfigView { output_file: Some(arg), ..c }),
        OptionCode::OutputDir => OptStep::Go(s, ConfigView { output_dir: Some(arg), ..c }),
        OptionCode::Variants27 => OptStep::Go(s, ConfigView { variant_mode: Some(LtbVariantMode::Variants27), ..c }),
        OptionCode::Variants28 => OptStep::Go(s, ConfigView { variant_mode: Some(LtbVariantMode::Variants28), ..c }),
        OptionCode::Variants28Ho => OptStep::Go(s, ConfigView { variant_mode: Some(LtbVariantMode::Variants28Ho), ..c }),
        OptionCode::Variants28_25 => OptStep::Go(s, ConfigView { variant_mode: Some(LtbVariantMode::Variants28_25), ..c }),
        OptionCode::VariantsJ11 => OptStep::Go(s, ConfigView { variant_mode: Some(LtbVariantMode::VariantsJ11), ..c }),
        OptionCode::Interactive => OptStep::Go(s, ConfigView { interactive: true, ..c }),
        OptionCode::Silent => OptStep::Go(s, ConfigView { output_level: 0, ..c }),
        OptionCode::OutputLevel => match int_arg_value(arg) {
            Some(v) => OptStep::Go(s, ConfigView { output_level: v as i64, ..c }),
            None => OptStep::Stop(s, Err((ErrorCode::Usage, int_arg_error(cell)))),
        },
        OptionCode::GlobalWtcLimit => match int_arg_value(arg) {
            Some(v) => OptStep::Go(s, ConfigView { total_wtc_limit: v as i64, ..c }),
            None => OptStep::Stop(s, Err((ErrorCode::Usage, int_arg_error(cell)))),
        },
    }
}


/// The options applied in order, then the positional arguments.
pub open spec fn options_fold(
    s: SessionView,
    c: ConfigView,
    opts: Seq<(int, Option<Seq<char>>)>,
    end: Result<Seq<Seq<char>>, Seq<char>>,
) -> (SessionView, Result<CommandView, (ErrorCode, Seq<char>)>)
    decreases opts.len(),
{
    if opts.len() == 0 {
        match end {
            Ok(rest) => (s, if rest.len() == 0 || rest.len() > 2 {
                Err((ErrorCode::Usage, C_USAGE_ERROR@))
            } else {
                Ok(CommandView::Execute(ConfigView { spec_file: rest[0], prover: if rest.len() > 1 { rest[1] } else { c.prover }, ..c }))
            }),
            Err(m) => (s, Err((ErrorCode::Usage, m))),
        }
    } else {
        match apply_option(s, c, option_table()[opts[0].0], arg_or_empty(opts[0].1)) {
            OptStep::Go(s2, c2) => options_fold(s2, c2, opts.drop_first(), end),
            OptStep::Stop(s2, r) => (s2, r),
        }
    }
}

/// What the command line asks for, and the session after it.
pub open spec fn options_outcome(args: Seq<Seq<char>>, s: SessionView) -> (SessionView, Result<CommandView, (ErrorCode, Seq<char>)>) {
    let sc = crate::cmdline::scan(args, option_table());
    options_fold(s, default_config(), sc.opts, sc.end)
}


/// The help text.
pub open spec fn help_text() -> Seq<char> {
    "\n"@ + PROGRAM_NAME@ + " "@ + VERSION@ + " \""@ + E_NICKNAME@ + "\"\n\nUsage: "@ + PROGRAM_NAME@ + " [options] <spec> [<path-to-eprover>]\n\nRun E on a CASC LTB batch specification.\n\n"@ + "Options:\n\n"@ + options_text(option_table()) + "\n\n"@ + FOOTER@
}


/// The help text.
pub fn print_help() -> (s: String)
    ensures
        s@ == help_text(),
{
    let mut s = String::new();
    push_str(&mut s, "\n");
    push_str(&mut s, PROGRAM_NAME);
    push_str(&mut s, " ");
    push_str(&mut s, VERSION);
    push_str(&mut s, " \"");
    push_str(&mut s, E_NICKNAME);
    push_str(&mut s, "\"\n\nUsage: ");
    push_str(&mut s, PROGRAM_NAME);
    push_str(&mut s, " [options] <spec> [<path-to-eprover>]\n\nRun E on a CASC LTB batch specification.\n\n");
    let opts = options();
    let o = print_options(&opts, Some("Options:\n\n"));
    push_str(&mut s, o.as_str());
    push_str(&mut s, "\n\n");
    push_str(&mut s, FOOTER);
    s
}


/// Reads the command line.
pub fn process_options(args: &Vec<String>, sess: &mut Session) -> (r: Result<Command, Diagnostic>)
    ensures
        (final(sess).view(), command_view(r)) == options_outcome(args_view(args@), old(sess).view()),
{
    let opts = options();
    let mut state = CommandLineState::new(args);
    let mut cfg = Config {
        spec_file: String::new(),
        prover: owned(DEFAULT_PROVER),
        output_file: None,
        output_dir: None,
        total_wtc_limit: 0,
        verbose_level: 0,
        output_level: 1,
        interactive: false,
        variant_mode: None,
    };
    let ghost goal = options_outcome(args_view(args@), old(sess).view());
    proof {
        
    }
    loop
        invariant
            state.wf(),
            state.args_seq() == args_view(args@),
            opts@ == option_table(),
            goal == options_outcome(args_view(args@), old(sess).view()),
            ({
                let sc = scan_from(args_view(args@), option_table(), state.state());
                options_fold(sess.view(), cfg.view(), sc.opts, sc.end) == goal
            }),
        decreases args.len() - state.state().argi, scan_measure(args_view(args@), state.state()),
    {
        let ghost st = state.state();
        proof {
            if !st.done {
                let (st2, ev) = step(args_view(args@), option_table(), st);
                if ev is Opt {
                    lemma_step_progress(args_view(args@), option_table(), st);
                }
            }
        }
        match state.next_opt(&opts) {
            Err(d) => {
                return Err(d);
            },
            Ok(None) => {
                let rest = state.remaining_args();
                if rest.len() == 0 || rest.len() > 2 {
                    return Err(diag(ErrorCode::Usage, C_USAGE_ERROR));
                }
                cfg.spec_file = copy_string(&rest[0]);
                if rest.len() > 1 {
                    cfg.prover = copy_string(&rest[1]);
                }
                return Ok(Command::Execute(cfg));
            },
            Ok(Some(p)) => {
                proof {
                    crate::cmdline::lemma_step_opt_index(args_view(args@), option_table(), st);
                }
                let cell = &opts[p.index];
                let arg: String = match &p.arg {
                    Some(a) => copy_string(a),
                    None => String::new(),
                };
                proof {
                    assert(arg@ == arg_or_empty(opt_view(p.arg)));
                }
                match cell.option_code {
                    OptionCode::Help => {
                        let h = print_help();
                        push_str(&mut sess.stdout, h.as_str());
                        return Ok(Command::Exit(0));
                    },
                    OptionCode::Version => {
                        push_str(&mut sess.stdout, PROGRAM_NAME);
                        push_str(&mut sess.stdout, " ");
                        push_str(&mut sess.stdout, VERSION);
                        push_str(&mut sess.stdout, " ");
                        push_str(&mut sess.stdout, E_NICKNAME);
                        push_str(&mut sess.stdout, "\n");
                        return Ok(Command::Exit(0));
                    },
                    OptionCode::Verbose => {
                        match get_int_arg(cell, arg.as_str()) {
                            Ok(v) => {
                                cfg.verbose_level = v;
                            },
                            Err(d) => {
                                return Err(d);
                            },
                        }
                    },
                    OptionCode::OutputFile => {
                        cfg.output_file = Some(arg);
                    },
                    OptionCode::OutputDir => {
                        cfg.output_dir = Some(arg);
                    },
                    OptionCode::Variants27 => {
                        cfg.variant_mode = Some(LtbVariantMode::Variants27);
                    },
                    OptionCode::Variants28 => {
                        cfg.variant_mode = Some(LtbVariantMode::Variants28);
                    },
                    OptionCode::Variants28Ho => {
                        cfg.variant_mode = Some(LtbVariantMode::Variants28Ho);
                    },
                    OptionCode::Variants28_25 => {
                        cfg.variant_mode = Some(LtbVariantMode::Variants28_25);
                    },
                    OptionCode::VariantsJ11 => {
                        cfg.variant_mode = Some(LtbVariantMode::VariantsJ11);
                    },
                    OptionCode::Interactive => {
                        cfg.interactive = true;
                    },
                    OptionCode::Silent => {
                        cfg.output_level = 0;
                    },
                    OptionCode::OutputLevel => {
                        match get_int_arg(cell, arg.as_str()) {
                            Ok(v) => {
                                cfg.output_level = v;
                            },
                            Err(d) => {
                                return Err(d);
                            },
                        }
                    },
                    OptionCode::GlobalWtcLimit => {
                        match get_int_arg(cell, arg.as_str()) {
                            Ok(v) => {
                                cfg.total_wtc_limit = v;
                            },
                            Err(d) => {
                                return Err(d);
                            },
                        }
                    },
                }
                proof {
                    let sc = scan_from(args_view(args@), option_table(), st);
                    let tail = scan_from(args_view(args@), option_table(), state.state());
                    assert(sc.opts == seq![(p.index as int, opt_view(p.arg))].add(tail.opts));
                    assert(sc.opts.drop_first() =~= tail.opts);
                }
            },
        }
    }
}


/// The variant suffixes of a setup.
pub open spec fn variants_of(m: LtbVariantMode) -> Seq<Seq<char>> {
    match m {
        LtbVariantMode::Variants27 => seq!["+4"@, "+5"@, "_4"@, "_5"@],
        LtbVariantMode::Variants28 => seq!["+1"@, "_1"@],
        LtbVariantMode::Variants28Ho => seq!["+1"@, "_1"@, "^1"@],
        LtbVariantMode::Variants28_25 => seq!["+1"@, "_1"@],
        LtbVariantMode::VariantsJ11 => seq!["_1"@, "_3"@, "^1"@],
    }
}

/// The prover binaries of a setup, one per variant.
pub open spec fn provers_of(m: LtbVariantMode) -> Seq<Seq<char>> {
    match m {
        LtbVariantMode::Variants27 => seq!["./eprover"@, "./eprover"@, "./eprover"@, "./eprover"@],
        LtbVariantMode::Variants28 => seq!["./eprover"@, "./eprover"@],
        LtbVariantMode::Variants28Ho => seq!["./eprover"@, "./eprover"@, "./eprover-ho"@],
        LtbVariantMode::Variants28_25 => seq!["./eprover-25"@, "./eprover-25"@],
        LtbVariantMode::VariantsJ11 => seq!["./eprover-ho"@, "./eprover-ho"@, "./eprover-ho"@],
    }
}

fn strs(v: Vec<&'static str>) -> (out: Vec<String>)
    ensures
        out@.len() == v@.len(),
        forall|k: int| 0 <= k < v@.len() ==> (#[trigger] out@[k])@ == v@[k]@,
{
    let mut out: Vec<String> = Vec::new();
    let mut i: usize = 0;
    while i < v.len()
        invariant
            i <= v.len(),
            out@.len() == i,
            forall|k: int| 0 <= k < i ==> (#[trigger] out@[k])@ == v@[k]@,
        decreases v.len() - i,
    {
        out.push(owned(v[i]));
        i = i + 1;
    }
    out
}

impl LtbVariantMode {
    /// The variant suffixes of the setup.
    pub fn variants(self) -> (v: Vec<String>)
        ensures
            args_view(v@) == variants_of(self),
    {
        let r = match self {
            LtbVariantMode::Variants27 => strs(vec!["+4", "+5", "_4", "_5"]),
            LtbVariantMode::Variants28 => strs(vec!["+1", "_1"]),
            LtbVariantMode::Variants28Ho => strs(vec!["+1", "_1", "^1"]),
            LtbVariantMode::Variants28_25 => strs(vec!["+1", "_1"]),
            LtbVariantMode::VariantsJ11 => strs(vec!["_1", "_3", "^1"]),
        };
        proof {
            assert(args_view(r@) =~= variants_of(self));
        }
        r
    }

    /// The prover binaries of the setup, one per variant.
    pub fn provers(self) -> (v: Vec<String>)
        ensures
            args_view(v@) == provers_of(self),
    {
        let r = match self {
            LtbVariantMode::Variants27 => strs(vec!["./eprover", "./eprover", "./eprover", "./eprover"]),
            LtbVariantMode::Variants28 => strs(vec!["./eprover", "./eprover"]),
            LtbVariantMode::Variants28Ho => strs(vec!["./eprover", "./eprover", "./eprover-ho"]),
            LtbVariantMode::Variants28_25 => strs(vec!["./eprover-25", "./eprover-25"]),
            LtbVariantMode::VariantsJ11 => strs(vec!["./eprover-ho", "./eprover-ho", "./eprover-ho"]),
        };
        proof {
            assert(args_view(r@) =~= provers_of(self));
        }
        r
    }
}

/// Each setup names one prover per variant.
pub proof fn lemma_variants_match_provers(m: LtbVariantMode)
    ensures
        variants_of(m).len() == provers_of(m).len(),
{
}

/// The settings of a variant child: the batch specification and batch, the
/// variant, the prover, the problem and result files, and the wall-clock
/// limit.
#[derive(Debug)]
pub struct LtbVariantChildConfig {
    pub spec_file: String,
    pub batch_index: usize,
    pub variant: String,
    pub prover: String,
    pub source: String,
    pub dest: String,
    pub wct_limit: i64,
}

/// The usage message of a variant child.
pub open spec fn child_usage() -> Seq<char> {
    "Usage: "@ + PROGRAM_NAME@ + " "@ + INTERNAL_VARIANT_CHILD_ARG@
        + " <spec> <batch-index> <variant> <prover> <source> <dest> <wct-limit>"@
}

/// The message for a batch index that does not read.
pub open spec fn batch_index_error(arg: Seq<char>, why: Seq<char>) -> Seq<char> {
    "Invalid LTB variant child batch index '"@ + arg + "': "@ + why
}

/// The message for a wall-clock limit that does not read.
pub open spec fn wct_limit_error(arg: Seq<char>, why: Seq<char>) -> Seq<char> {
    "Invalid LTB variant child wall-clock limit '"@ + arg + "': "@ + why
}

/// The error that the arguments of a variant child give, if any.
pub open spec fn child_args_error(args: Seq<Seq<char>>) -> Option<Seq<char>> {
    if args.len() != 7 {
        Some(child_usage())
    } else if !(rust_int_value(args[1], false) matches Some(b) && b <= usize::MAX) {
        Some(batch_index_error(args[1], rust_int_error(args[1], false, 0, usize::MAX as int)))
    } else if !(rust_int_value(args[6], true) matches Some(w) && i64::MIN <= w <= i64::MAX) {
        Some(wct_limit_error(args[6], rust_int_error(args[6], true, i64::MIN as int, i64::MAX as int)))
    } else {
        None
    }
}

/// The arguments of a variant child: exactly seven, the batch index an
/// unsigned number and the wall-clock limit a signed one (see
/// `child_args_error`).
pub fn parse_variant_child_args(args: &Vec<String>) -> (r: Result<LtbVariantChildConfig, Diagnostic>)
    ensures
        match child_args_error(args_view(args@)) {
            Some(m) => r matches Err(d) && d.code == ErrorCode::Usage && d.message@ == m,
            None => r matches Ok(c) && c.spec_file@ == args@[0]@ && rust_int_value(args@[1]@, false) == Some(
                c.batch_index as int,
            ) && c.variant@ == args@[2]@ && c.prover@ == args@[3]@ && c.source@ == args@[4]@ && c.dest@
                == args@[5]@ && rust_int_value(args@[6]@, true) == Some(c.wct_limit as int),
        },
{
    if args.len() != 7 {
        let mut m = String::new();
        push_str(&mut m, "Usage: ");
        push_str(&mut m, PROGRAM_NAME);
        push_str(&mut m, " ");
        push_str(&mut m, INTERNAL_VARIANT_CHILD_ARG);
        push_str(&mut m, " <spec> <batch-index> <variant> <prover> <source> <dest> <wct-limit>");
        return Err(Diagnostic::new(ErrorCode::Usage, m));
    }
    let batch_index = match parse_rust_usize(args[1].as_str()) {
        Ok(v) => v,
        Err(e) => {
            let mut m = String::new();
            push_str(&mut m, "Invalid LTB variant child batch index '");
            push_str(&mut m, args[1].as_str());
            push_str(&mut m, "': ");
            push_str(&mut m, e);
            return Err(Diagnostic::new(ErrorCode::Usage, m));
        },
    };
    let wct_limit = match parse_rust_int(args[6].as_str(), true, i64::MIN, i64::MAX) {
        Ok(v) => v,
        Err(e) => {
            let mut m = String::new();
            push_str(&mut m, "Invalid LTB variant child wall-clock limit '");
            push_str(&mut m, args[6].as_str());
            push_str(&mut m, "': ");
            push_str(&mut m, e);
            return Err(Diagnostic::new(ErrorCode::Usage, m));
        },
    };
    Ok(LtbVariantChildConfig {
        spec_file: copy_string(&args[0]),
        batch_index,
        variant: copy_string(&args[2]),
        prover: copy_string(&args[3]),
        source: copy_string(&args[4]),
        dest: copy_string(&args[5]),
        wct_limit,
    })
}

/// The wall-clock time left of a total limit, never below zero.
pub open spec fn remaining_limit(total: int, start: int, now: int) -> int {
    let r = total - (now - start);
    if r < 0 {
        0
    } else {
        r
    }
}

/// The wall-clock time left of a total limit `total` for a batch started at
/// `start`, at time `now`, never below zero.
pub fn remaining_total_wtc_limit(total: i64, start: i64, now: i64) -> (r: i64)
    requires
        i64::MIN <= now - start <= i64::MAX,
        i64::MIN <= total - (now - start) <= i64::MAX,
    ensures
        r == remaining_limit(total as int, start as int, now as int),
{
    let remaining = total - (now - start);
    if remaining < 0 {
        0
    } else {
        remaining
    }
}

/// The message for a verbosity that does not fit a C `int`.
pub open spec fn verbose_range_error(v: i64) -> Seq<char> {
    "--verbose argument "@ + signed_decimal(v as int) + " is out of int range"@
}

/// The checks that precede the batches: the verbosity must fit a C `int`
/// (it and the output level then become the session's), and the
/// interactive mode is refused.
pub fn execute_checks(cfg: &Config, sess: &mut Session) -> (r: Result<(), Diagnostic>)
    ensures
        !(i32::MIN <= cfg.verbose_level <= i32::MAX) ==> (r matches Err(d) && d.code == ErrorCode::Usage
            && d.message@ == verbose_range_error(cfg.verbose_level)) && final(sess).view() == old(sess).view(),
        i32::MIN <= cfg.verbose_level <= i32::MAX ==> final(sess).verbose == cfg.verbose_level
            && final(sess).output_level == cfg.output_level && final(sess).stdout@ == old(sess).stdout@
            && final(sess).stderr@ == old(sess).stderr@,
        i32::MIN <= cfg.verbose_level <= i32::MAX && cfg.interactive ==> (r matches Err(d) && d.code
            == ErrorCode::Interface && d.message@ == "e_ltb_runner interactive mode is not wired yet"@),
        i32::MIN <= cfg.verbose_level <= i32::MAX && !cfg.interactive ==> r is Ok,
{
    if cfg.verbose_level < i32::MIN as i64 || cfg.verbose_level > i32::MAX as i64 {
        let mut m = String::new();
        push_str(&mut m, "--verbose argument ");
        push_i64(&mut m, cfg.verbose_level);
        push_str(&mut m, " is out of int range");
        return Err(Diagnostic::new(ErrorCode::Usage, m));
    }
    sess.verbose = cfg.verbose_level;
    sess.output_level = cfg.output_level;
    if cfg.interactive {
        return Err(diag(ErrorCode::Interface, "e_ltb_runner interactive mode is not wired yet"));
    }
    Ok(())
}

/// The summary after a batch: its wall-clock time and the problems solved
/// out of all, each number right-aligned in four columns.
pub open spec fn batch_done_text(elapsed: i64, solved: i64, count: i64) -> Seq<char> {
    "\n\n% == WCT: "@ + pad_left(signed_decimal(elapsed as int), 4) + "s, Solved: "@ + pad_left(
        signed_decimal(solved as int),
        4,
    ) + "/"@ + pad_left(signed_decimal(count as int), 4) + "    =="@ + "\n"@
        + "% =============== Batch done ===========\n"@ + "\n"@
}

/// The summary after a batch (see `batch_done_text`).
pub fn write_batch_done(out: &mut String, elapsed: i64, solved: i64, count: i64)
    ensures
        final(out)@ == old(out)@ + batch_done_text(elapsed, solved, count),
{
    push_str(out, "\n\n% == WCT: ");
    let e = fmt_i64(elapsed);
    push_padded(out, e.as_str(), 4);
    push_str(out, "s, Solved: ");
    let s = fmt_i64(solved);
    push_padded(out, s.as_str(), 4);
    push_str(out, "/");
    let c = fmt_i64(count);
    push_padded(out, c.as_str(), 4);
    push_str(out, "    ==");
    push_str(out, "\n");
    push_str(out, "% =============== Batch done ===========\n");
    push_str(out, "\n");
}

/// The message for a batch that sets no wall-clock limit.
pub const MISSING_LIMIT_ERROR: &'static str = "Batch specification must set either a per-problem or total wall-clock limit";

/// The line after each batch run in variant mode.
pub const VARIANT_BATCH_DONE: &'static str = "% =============== Variant batch done ===========\n\n";

/// The limits and the size of one batch, as its specification gives them.
pub struct BatchLimits {
    pub per_prob_limit: i64,
    pub total_wtc_limit: i64,
    pub problem_count: i64,
}

/// What running one batch gave: the clock when it started and when it
/// ended, the number of problems solved, and what the batch's processing
/// wrote.
pub struct BatchAnswer {
    pub start: i64,
    pub end: i64,
    pub solved: i64,
    pub report: String,
}

/// The overall limit a batch runs with: its own, or the command line's where
/// the batch sets none.
pub open spec fn batch_total(cfg_total: i64, spec_total: i64) -> i64 {
    if cfg_total != 0 && spec_total == 0 {
        cfg_total
    } else {
        spec_total
    }
}

/// A batch can run when it has a per-problem or an overall limit.
pub open spec fn batch_runnable(cfg_total: i64, b: BatchLimits) -> bool {
    b.per_prob_limit > 0 || batch_total(cfg_total, b.total_wtc_limit) > 0
}

/// The overall limit of a batch (see `batch_total`), or the usage error for
/// a batch without any limit.
pub fn batch_total_limit(cfg: &Config, b: &BatchLimits) -> (r: Result<i64, Diagnostic>)
    ensures
        batch_runnable(cfg.total_wtc_limit, *b) ==> r == Ok::<i64, Diagnostic>(batch_total(cfg.total_wtc_limit, b.total_wtc_limit)),
        !batch_runnable(cfg.total_wtc_limit, *b) ==> (r matches Err(d) && d.code == ErrorCode::Usage && d.message@ == MISSING_LIMIT_ERROR@),
{
    let total = if cfg.total_wtc_limit != 0 && b.total_wtc_limit == 0 {
        cfg.total_wtc_limit
    } else {
        b.total_wtc_limit
    };
    if b.per_prob_limit <= 0 && total <= 0 {
        return Err(diag(ErrorCode::Usage, MISSING_LIMIT_ERROR));
    }
    Ok(total)
}

/// What one batch is run with: the prover, the specification and the
/// batch's place in it, the batch's per-problem limit, its overall limit
/// (see `batch_total`), the output directory, and the clock when it started.
#[derive(Debug)]
pub struct BatchRun {
    pub executable: String,
    pub spec_file: String,
    pub batch_index: usize,
    pub per_prob_limit: i64,
    pub total_wtc_limit: i64,
    pub output_dir: Option<String>,
    pub start: i64,
}

/// What batch `index` of the specification, started at `start`, is run with,
/// or the usage error for a batch without any limit.
pub fn batch_run(cfg: &Config, b: &BatchLimits, index: usize, start: i64) -> (r: Result<BatchRun, Diagnostic>)
    ensures
        !batch_runnable(cfg.total_wtc_limit, *b) ==> (r matches Err(d) && d.code == ErrorCode::Usage && d.message@ == MISSING_LIMIT_ERROR@),
        batch_runnable(cfg.total_wtc_limit, *b) ==> (r matches Ok(run) && run.executable@ == cfg.prover@
            && run.spec_file@ == cfg.spec_file@ && run.batch_index == index && run.per_prob_limit == b.per_prob_limit
            && run.total_wtc_limit == batch_total(cfg.total_wtc_limit, b.total_wtc_limit)
            && opt_view(run.output_dir) == opt_view(cfg.output_dir) && run.start == start),
{
    let total = match batch_total_limit(cfg, b) {
        Ok(t) => t,
        Err(d) => return Err(d),
    };
    let output_dir = match &cfg.output_dir {
        Some(d) => Some(copy_string(d)),
        None => None,
    };
    Ok(BatchRun {
        executable: copy_string(&cfg.prover),
        spec_file: copy_string(&cfg.spec_file),
        batch_index: index,
        per_prob_limit: b.per_prob_limit,
        total_wtc_limit: total,
        output_dir,
        start,
    })
}

/// The clock readings of an answer fit a wall-clock time.
pub open spec fn answer_fits(a: BatchAnswer) -> bool {
    i64::MIN <= a.end - a.start <= i64::MAX
}

/// What is written for one batch once it has run: what its processing wrote,
/// then the variant line in variant mode, else the summary of its time and
/// solved problems.
pub open spec fn batch_text(variant: bool, b: BatchLimits, a: BatchAnswer) -> Seq<char> {
    a.report@ + if variant {
        VARIANT_BATCH_DONE@
    } else {
        batch_done_text((a.end - a.start) as i64, a.solved, b.problem_count)
    }
}

/// What is written for the first `n` batches.
pub open spec fn batches_text(variant: bool, bs: Seq<BatchLimits>, ans: Seq<BatchAnswer>, n: int) -> Seq<char>
    decreases n,
{
    if n <= 0 {
        Seq::empty()
    } else {
        batches_text(variant, bs, ans, n - 1) + batch_text(variant, bs[n - 1], ans[n - 1])
    }
}

/// What is written after each batch, over every list of batches and
/// answers: the batch's own report, then, out of variant mode, the summary
/// with the wall-clock time of its run, the number of problems that run
/// solved (the answer's count, whatever the batch's size) and the batch's
/// number of problems; in variant mode, the variant line.
pub proof fn lemma_batch_summary(bs: Seq<BatchLimits>, ans: Seq<BatchAnswer>, k: int)
    requires
        0 <= k < bs.len(),
        ans.len() == bs.len(),
        answer_fits(ans[k]),
    ensures
        batches_text(false, bs, ans, k + 1) == batches_text(false, bs, ans, k) + ans[k].report@ + ("\n\n% == WCT: "@
            + pad_left(signed_decimal(ans[k].end - ans[k].start), 4) + "s, Solved: "@ + pad_left(signed_decimal(ans[k].solved as int), 4)
            + "/"@ + pad_left(signed_decimal(bs[k].problem_count as int), 4) + "    =="@ + "\n"@
            + "% =============== Batch done ===========\n"@ + "\n"@),
        batches_text(true, bs, ans, k + 1) == batches_text(true, bs, ans, k) + ans[k].report@
            + "% =============== Variant batch done ===========\n\n"@,
{
    let a = ans[k];
    assert(((a.end - a.start) as i64) as int == a.end - a.start);
    assert(batches_text(false, bs, ans, k + 1) == batches_text(false, bs, ans, k) + batch_text(false, bs[k], a));
    assert(batches_text(true, bs, ans, k + 1) == batches_text(true, bs, ans, k) + batch_text(true, bs[k], a));
}

/// The overall limit of a batch, over every pair of limits: a batch that
/// sets its own overall limit keeps it; one that sets none gets the command
/// line's. A batch can run exactly when its per-problem limit or that
/// overall limit is positive.
pub proof fn lemma_batch_limit(cfg_total: i64, b: BatchLimits)
    ensures
        b.total_wtc_limit != 0 ==> batch_total(cfg_total, b.total_wtc_limit) == b.total_wtc_limit,
        b.total_wtc_limit == 0 ==> batch_total(cfg_total, b.total_wtc_limit) == cfg_total,
        batch_runnable(cfg_total, b) <==> (b.per_prob_limit > 0 || (if b.total_wtc_limit == 0 { cfg_total } else { b.total_wtc_limit }) > 0),
{
}

/// What is left of an overall limit, over every limit and clock reading:
/// never negative, and the limit less the time passed wherever that is not.
pub proof fn lemma_remaining_limit(total: int, start: int, now: int)
    ensures
        remaining_limit(total, start, now) >= 0,
        total - (now - start) >= 0 ==> remaining_limit(total, start, now) == total - (now - start),
        total - (now - start) < 0 ==> remaining_limit(total, start, now) == 0,
{
}

/// Every batch before `n` can run.
pub open spec fn runnable_upto(cfg_total: i64, bs: Seq<BatchLimits>, n: int) -> bool {
    forall|i: int| 0 <= i < n ==> #[trigger] batch_runnable(cfg_total, bs[i])
}

/// The batches of a specification in order, each with the answer of its run:
/// a batch without any limit stops the run with the usage error, after what
/// the batches before it wrote; else every batch's text is written and the
/// run ends with status 0. The answers of batches after a refused one are
/// not read.
pub fn run_batches(cfg: &Config, batches: &Vec<BatchLimits>, answers: &Vec<BatchAnswer>, out: &mut String) -> (r: Result<u8, Diagnostic>)
    requires
        answers.len() == batches.len(),
        forall|i: int| 0 <= i < answers.len() ==> answer_fits(#[trigger] answers[i]),
    ensures
        runnable_upto(cfg.total_wtc_limit, batches@, batches.len() as int) ==> r == Ok::<u8, Diagnostic>(0)
            && final(out)@ == old(out)@ + batches_text(cfg.variant_mode is Some, batches@, answers@, batches.len() as int),
        forall|k: int| 0 <= k < batches.len() && runnable_upto(cfg.total_wtc_limit, batches@, k)
            && !batch_runnable(cfg.total_wtc_limit, #[trigger] batches@[k]) ==> (r matches Err(d) && d.code
            == ErrorCode::Usage && d.message@ == MISSING_LIMIT_ERROR@)
            && final(out)@ == old(out)@ + batches_text(cfg.variant_mode is Some, batches@, answers@, k),
{
    let variant = cfg.variant_mode.is_some();
    let mut i: usize = 0;
    while i < batches.len()
        invariant
            i <= batches.len(),
            answers.len() == batches.len(),
            forall|j: int| 0 <= j < answers.len() ==> answer_fits(#[trigger] answers[j]),
            variant == cfg.variant_mode is Some,
            runnable_upto(cfg.total_wtc_limit, batches@, i as int),
            out@ == old(out)@ + batches_text(variant, batches@, answers@, i as int),
        decreases batches.len() - i,
    {
        let b = &batches[i];
        match batch_total_limit(cfg, b) {
            Err(d) => {
                return Err(d);
            },
            Ok(_) => {},
        }
        let a = &answers[i];
        assert(answer_fits(answers[i as int]));
        push_str(out, a.report.as_str());
        if variant {
            push_str(out, VARIANT_BATCH_DONE);
        } else {
            write_batch_done(out, a.end - a.start, a.solved, b.problem_count);
        }
        proof {
            assert(out@ =~= old(out)@ + batches_text(variant, batches@, answers@, i + 1));
        }
        i = i + 1;
    }
    Ok(0)
}

/// A run up to the batches: the options and the checks that precede the
/// batches; where the run goes on, its settings (the application reads the
/// batch specification and runs the provers).
pub fn run(args: &Vec<String>) -> (r: (RunReport, Option<Config>))
    ensures
        ({
            let (s, cmd) = options_outcome(args_view(args@), SessionView { verbose: 0, output_level: 1, stdout: Seq::empty(), stderr: Seq::empty() });
            &&& r.0.stdout@ == s.stdout
            &&& r.0.stderr@ == s.stderr
            &&& match cmd {
                Err((code, m)) => (r.0.result matches Err(d) && d.code == code && d.message@ == m) && r.1 is None
                    && r.0.verbose == s.verbose,
                Ok(CommandView::Exit(st)) => (r.0.result matches Ok(x) && x == st) && r.1 is None
                    && r.0.verbose == s.verbose,
                Ok(CommandView::Execute(cv)) => if !(i32::MIN <= cv.verbose_level <= i32::MAX) {
                    (r.0.result matches Err(d) && d.code == ErrorCode::Usage && d.message@ == verbose_range_error(
                        cv.verbose_level,
                    )) && r.1 is None && r.0.verbose == s.verbose && r.0.output_level == s.output_level
                } else if cv.interactive {
                    (r.0.result matches Err(d) && d.code == ErrorCode::Interface && d.message@
                        == "e_ltb_runner interactive mode is not wired yet"@) && r.1 is None
                } else {
                    r.0.result == Ok::<u8, Diagnostic>(0) && (r.1 matches Some(k) && k@ == cv) && r.0.verbose
                        == cv.verbose_level && r.0.output_level == cv.output_level
                },
            }
        }),
{
    let mut sess = Session::new(0, 1);
    let cmd = process_options(args, &mut sess);
    let (result, cfg) = match cmd {
        Err(d) => (Err(d), None),
        Ok(Command::Exit(st)) => (Ok(st), None),
        Ok(Command::Execute(c)) => {
            match execute_checks(&c, &mut sess) {
                Err(d) => (Err(d), None),
                Ok(()) => (Ok(0), Some(c)),
            }
        },
    };
    (RunReport { result, stdout: sess.stdout, output: String::new(), output_file: None, stderr: sess.stderr, verbose: sess.verbose, output_level: sess.output_level, close_output: false }, cfg)
}


} // verus!
