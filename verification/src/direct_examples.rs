//! Training examples from a PCL proof listing: the options and settings of
//! a run.
use vstd::prelude::*;
use crate::cmdline::{OptCell, OptArgType, CommandLineState, scan_from, step, args_view, opt_view, lemma_step_progress, scan_measure};
use crate::diag::{Diagnostic, ErrorCode};
use crate::help::{get_real_arg, real_text, real_arg_error, get_int_arg, int_arg_value, int_arg_error, print_options, options_text};
use crate::session::{Session, SessionView, RunReport, saturate_i32, saturating_i32, output_target, output_target_view, input_files};
use crate::text::{push_str, copy_string, owned};
use crate::version::{VERSION, FOOTER};

verus! {

/// The name under which the program reports.
pub const PROGRAM_NAME: &'static str = "umlaut-direct-examples";

/// The number of negative examples unless another is given.
pub const DEFAULT_NEG_EXAMPLES: i64 = 200;

/// The message for a negative proportion below zero.
pub const NEG_PROPORTION_ERROR: &'static str = "Option -p (--negative-example-proportion)requires positive argument.}";

/// The options of the program.
#[derive(Clone, Copy, Debug, PartialEq, Eq, Structural)]
pub enum OptionCode {
    Help,
    Version,
    Verbose,
    Output,
    NegativeNumber,
    NegativeProportion,
}

/// The option table.
pub open spec fn option_table() -> Seq<OptCell<OptionCode>> {
    seq![
        OptCell {
            option_code: OptionCode::Help,
            short: Some('h'),
            long: "help",
            arg_type: OptArgType::NoArg,
            default: None,
            desc: "Print a short description of program usage and options.",
        },
        OptCell {
            option_code: OptionCode::Version,
            short: Some('V'),
            long: "version",
            arg_type: OptArgType::NoArg,
            default: None,
            desc: "Print the version number of the program.",
        },
        OptCell {
            option_code: OptionCode::Verbose,
            short: Some('v'),
            long: "verbose",
            arg_type: OptArgType::OptArg,
            default: Some("1"),
            desc: "Verbose comments on the progress of the program.",
        },
        OptCell {
            option_code: OptionCode::Output,
            short: Some('o'),
            long: "output-file",
            arg_type: OptArgType::ReqArg,
            default: None,
            desc: "Redirect output into the named file.",
        },
        OptCell {
            option_code: OptionCode::NegativeNumber,
            short: Some('n'),
            long: "negative-example-number",
            arg_type: OptArgType::ReqArg,
            default: None,
            desc: "Set the (maximum) number of negative examples to pick if the proof listing does not describe a successful proof.",
        },
        OptCell {
            option_code: OptionCode::NegativeProportion,
            short: Some('p'),
            long: "negative-example-proportion",
            arg_type: OptArgType::ReqArg,
            default: None,
            desc: "Set the maximum number of negative examples (expressed as a proportion of the positive examples) to pick if the proof listing does describe a successful proof",
        },
    ]
}

/// The option table.
pub fn options() -> (v: Vec<OptCell<OptionCode>>)
    ensures
        v@ == option_table(),
{
    let v = vec![
        OptCell {
            option_code: OptionCode::Help,
            short: Some('h'),
            long: "help",
            arg_type: OptArgType::NoArg,
            default: None,
            desc: "Print a short description of program usage and options.",
        },
        OptCell {
            option_code: OptionCode::Version,
            short: Some('V'),
            long: "version",
            arg_type: OptArgType::NoArg,
            default: None,
            desc: "Print the version number of the program.",
        },
        OptCell {
            option_code: OptionCode::Verbose,
            short: Some('v'),
            long: "verbose",
            arg_type: OptArgType::OptArg,
            default: Some("1"),
            desc: "Verbose comments on the progress of the program.",
        },
        OptCell {
            option_code: OptionCode::Output,
            short: Some('o'),
            long: "output-file",
            arg_type: OptArgType::ReqArg,
            default: None,
            desc: "Redirect output into the named file.",
        },
        OptCell {
            option_code: OptionCode::NegativeNumber,
            short: Some('n'),
            long: "negative-example-number",
            arg_type: OptArgType::ReqArg,
            default: None,
            desc: "Set the (maximum) number of negative examples to pick if the proof listing does not describe a successful proof.",
        },
        OptCell {
            option_code: OptionCode::NegativeProportion,
            short: Some('p'),
            long: "negative-example-proportion",
            arg_type: OptArgType::ReqArg,
            default: None,
            desc: "Set the maximum number of negative examples (expressed as a proportion of the positive examples) to pick if the proof listing does describe a successful proof",
        },
    ];
    proof {
        assert(v@ =~= option_table());
    }
    v
}

/// The settings of a run.
pub struct Config {
    pub output_file: Option<String>,
    pub neg_proportion: Option<String>,
    pub neg_examples: i64,
    pub files: Vec<String>,
}

/// The view of the settings of a run.
pub struct ConfigView {
    pub output_file: Option<Seq<char>>,
    pub neg_proportion: Option<Seq<char>>,
    pub neg_examples: i64,
    pub files: Seq<Seq<char>>,
}

impl Config {
    pub open spec fn view(&self) -> ConfigView {
        ConfigView {
            output_file: opt_view(self.output_file),
            neg_proportion: opt_view(self.neg_proportion),
            neg_examples: self.neg_examples,
            files: args_view(self.files@),
        }
    }
}

/// The settings before any option.
pub open spec fn default_config() -> ConfigView {
    ConfigView {
        output_file: None,
        neg_proportion: None,
        neg_examples: DEFAULT_NEG_EXAMPLES,
        files: Seq::empty(),
    }
}

/// What the options ask for: leave with a status (after help or version
/// text), or go on with the given settings.
pub enum Command {
    Exit(u8),
    Execute(Config),
}

pub enum CommandView {
    Exit(u8),
    Execute(ConfigView),
}

pub open spec fn command_view(r: Result<Command, Diagnostic>) -> Result<CommandView, (ErrorCode, Seq<char>)> {
    match r {
        Ok(Command::Exit(s)) => Ok(CommandView::Exit(s)),
        Ok(Command::Execute(c)) => Ok(CommandView::Execute(c.view())),
        Err(d) => Err((d.code, d.message@)),
    }
}

/// The outcome of one option: go on with the new session and settings, or
/// stop with a result.
pub enum OptStep {
    Go(SessionView, ConfigView),
    Stop(SessionView, Result<CommandView, (ErrorCode, Seq<char>)>),
}

/// The argument of an option, empty where it has none.
pub open spec fn arg_or_empty(a: Option<Seq<char>>) -> Seq<char> {
    match a {
        Some(x) => x,
        None => Seq::empty(),
    }
}


/// What one option does.
pub open spec fn apply_option(s: SessionView, c: ConfigView, cell: OptCell<OptionCode>, arg: Seq<char>) -> OptStep {
    match cell.option_code {
        OptionCode::Help => OptStep::Stop(SessionView { stdout: s.stdout + help_text(), ..s }, Ok(CommandView::Exit(0))),
        OptionCode::Version => OptStep::Stop(SessionView { stdout: s.stdout + PROGRAM_NAME@ + " "@ + VERSION@ + "\n"@, ..s }, Ok(CommandView::Exit(0))),
        OptionCode::Verbose => match int_arg_value(arg) {
            Some(v) => OptStep::Go(SessionView { verbose: saturate_i32(v as i64), ..s }, c),
            None => OptStep::Stop(s, Err((ErrorCode::Usage, int_arg_error(cell)))),
        },
        OptionCode::Output => OptStep::Go(s, ConfigView { output_file: Some(arg), ..c }),
        OptionCode::NegativeNumber => match int_arg_value(arg) {
            Some(v) => OptStep::Go(s, ConfigView { neg_examples: v as i64, ..c }),
            None => OptStep::Stop(s, Err((ErrorCode::Usage, int_arg_error(cell)))),
        },
        OptionCode::NegativeProportion => if real_text(arg) {
            OptStep::Go(s, ConfigView { neg_proportion: Some(arg), ..c })
        } else {
            OptStep::Stop(s, Err((ErrorCode::Usage, real_arg_error(cell))))
        },
    }
}


/// The options applied in order, then the positional arguments.
pub open spec fn options_fold(
    s: SessionView,
    c: ConfigView,
    opts: Seq<(int, Option<Seq<char>>)>,
    end: Result<Seq<Seq<char>>, Seq<char>>,
) -> (SessionView, Result<CommandView, (ErrorCode, Seq<char>)>)
    decreases opts.len(),
{
    if opts.len() == 0 {
        match end {
            Ok(rest) => (s, Ok(CommandView::Execute(ConfigView { files: input_files(rest), ..c }))),
            Err(m) => (s, Err((ErrorCode::Usage, m))),
        }
    } else {
        match apply_option(s, c, option_table()[opts[0].0], arg_or_empty(opts[0].1)) {
            OptStep::Go(s2, c2) => options_fold(s2, c2, opts.drop_first(), end),
            OptStep::Stop(s2, r) => (s2, r),
        }
    }
}

/// What the command line asks for, and the session after it.
pub open spec fn options_outcome(args: Seq<Seq<char>>, s: SessionView) -> (SessionView, Result<CommandView, (ErrorCode, Seq<char>)>) {
    let sc = crate::cmdline::scan(args, option_table());
    options_fold(s, default_config(), sc.opts, sc.end)
}


/// The help text.
pub open spec fn help_text() -> Seq<char> {
    "\n\n"@ + PROGRAM_NAME@ + " "@ + VERSION@ + "\n\nUsage: "@ + PROGRAM_NAME@ + " [options] [files]\n\nParse a full PCL listing (possibly\nspread over multiple files), and generate training examples\ncorresponding to the selected clauses.\n"@ + "Options\n\n"@ + options_text(option_table()) + "\n\n"@ + FOOTER@
}


/// The help text.
pub fn print_help() -> (s: String)
    ensures
        s@ == help_text(),
{
    let mut s = String::new();
    push_str(&mut s, "\n\n");
    push_str(&mut s, PROGRAM_NAME);
    push_str(&mut s, " ");
    push_str(&mut s, VERSION);
    push_str(&mut s, "\n\nUsage: ");
    push_str(&mut s, PROGRAM_NAME);
    push_str(&mut s, " [options] [files]\n\nParse a full PCL listing (possibly\nspread over multiple files), and generate training examples\ncorresponding to the selected clauses.\n");
    let opts = options();
    let o = print_options(&opts, Some("Options\n\n"));
    push_str(&mut s, o.as_str());
    push_str(&mut s, "\n\n");
    push_str(&mut s, FOOTER);
    s
}


/// Reads the command line.
pub fn process_options(args: &Vec<String>, sess: &mut Session) -> (r: Result<Command, Diagnostic>)
    ensures
        (final(sess).view(), command_view(r)) == options_outcome(args_view(args@), old(sess).view()),
{
    let opts = options();
    let mut state = CommandLineState::new(args);
    let mut cfg = Config {
        output_file: None,
        neg_proportion: None,
        neg_examples: DEFAULT_NEG_EXAMPLES,
        files: Vec::new(),
    };
    let ghost goal = options_outcome(args_view(args@), old(sess).view());
    proof {
        assert(args_view(cfg.files@) =~= Seq::<Seq<char>>::empty());
    }
    loop
        invariant
            state.wf(),
            state.args_seq() == args_view(args@),
            opts@ == option_table(),
            goal == options_outcome(args_view(args@), old(sess).view()),
            ({
                let sc = scan_from(args_view(args@), option_table(), state.state());
                options_fold(sess.view(), cfg.view(), sc.opts, sc.end) == goal
            }),
        decreases args.len() - state.state().argi, scan_measure(args_view(args@), state.state()),
    {
        let ghost st = state.state();
        proof {
            if !st.done {
                let (st2, ev) = step(args_view(args@), option_table(), st);
                if ev is Opt {
                    lemma_step_progress(args_view(args@), option_table(), st);
                }
            }
        }
        match state.next_opt(&opts) {
            Err(d) => {
                return Err(d);
            },
            Ok(None) => {
                let rest = state.remaining_args();
                if rest.len() == 0 {
                    let mut v: Vec<String> = Vec::new();
                    v.push(owned("-"));
                    proof {
                        assert(args_view(v@) =~= seq!["-"@]);
                    }
                    cfg.files = v;
                } else {
                    cfg.files = rest;
                }
                return Ok(Command::Execute(cfg));
            },
            Ok(Some(p)) => {
                proof {
                    crate::cmdline::lemma_step_opt_index(args_view(args@), option_table(), st);
                }
                let cell = &opts[p.index];
                let arg: String = match &p.arg {
                    Some(a) => copy_string(a),
                    None => String::new(),
                };
                proof {
                    assert(arg@ == arg_or_empty(opt_view(p.arg)));
                }
                match cell.option_code {
                    OptionCode::Help => {
                        let h = print_help();
                        push_str(&mut sess.stdout, h.as_str());
                        return Ok(Command::Exit(0));
                    },
                    OptionCode::Version => {
                        push_str(&mut sess.stdout, PROGRAM_NAME);
                        push_str(&mut sess.stdout, " ");
                        push_str(&mut sess.stdout, VERSION);
                        push_str(&mut sess.stdout, "\n");
                        return Ok(Command::Exit(0));
                    },
                    OptionCode::Verbose => {
                        match get_int_arg(cell, arg.as_str()) {
                            Ok(v) => {
                                sess.verbose = saturating_i32(v);
                            },
                            Err(d) => {
                                return Err(d);
                            },
                        }
                    },
                    OptionCode::Output => {
                        cfg.output_file = Some(arg);
                    },
                    OptionCode::NegativeNumber => {
                        match get_int_arg(cell, arg.as_str()) {
                            Ok(v) => {
                                cfg.neg_examples = v;
                            },
                            Err(d) => {
                                return Err(d);
                            },
                        }
                    },
                    OptionCode::NegativeProportion => {
                        if let Err(d) = get_real_arg(cell, arg.as_str()) {
                            return Err(d);
                        }
                        cfg.neg_proportion = Some(arg);
                    },
                }
                proof {
                    let sc = scan_from(args_view(args@), option_table(), st);
                    let tail = scan_from(args_view(args@), option_table(), state.state());
                    assert(sc.opts == seq![(p.index as int, opt_view(p.arg))].add(tail.opts));
                    assert(sc.opts.drop_first() =~= tail.opts);
                }
            },
        }
    }
}


/// A run up to reading the listing: the options; where the run goes on, its
/// settings (the application reads the listing and selects the examples).
pub fn run(args: &Vec<String>) -> (r: (RunReport, Option<Config>))
    ensures
        ({
            let (s, cmd) = options_outcome(args_view(args@), SessionView { verbose: 0, output_level: 1, stdout: Seq::empty(), stderr: Seq::empty() });
            &&& r.0.stdout@ == s.stdout
            &&& r.0.verbose == s.verbose
            &&& match cmd {
                Err((code, m)) => (r.0.result matches Err(d) && d.code == code && d.message@ == m) && r.1 is None,
                Ok(CommandView::Exit(st)) => (r.0.result matches Ok(x) && x == st) && r.1 is None,
                Ok(CommandView::Execute(cv)) => (r.0.result matches Ok(x) && x == 0) && (r.1 matches Some(c) && c.view() == cv)
                    && opt_view(r.0.output_file) == output_target_view(cv.output_file),
            }
        }),
{
    let mut sess = Session::new(0, 1);
    let cmd = process_options(args, &mut sess);
    let (result, cfg, target) = match cmd {
        Err(d) => (Err(d), None, None),
        Ok(Command::Exit(st)) => (Ok(st), None, None),
        Ok(Command::Execute(c)) => {
            let t = output_target(&c.output_file);
            (Ok(0), Some(c), t)
        },
    };
    (RunReport { result, stdout: sess.stdout, output: String::new(), output_file: target, stderr: sess.stderr, verbose: sess.verbose, output_level: sess.output_level, close_output: true }, cfg)
}


} // verus!
