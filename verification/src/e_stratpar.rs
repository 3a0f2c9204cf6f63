//! Runs eight instances of E with different strategies on one problem and
//! reports the first proof found.
use vstd::prelude::*;
use crate::cmdline::{OptCell, OptArgType, CommandLineState, scan_from, step, args_view, opt_view, lemma_step_progress, scan_measure};
use crate::diag::{Diagnostic, ErrorCode, diag};
use crate::help::{get_int_arg, int_arg_value, int_arg_error, print_options, options_text};
use crate::session::{Session, SessionView, RunReport};
use crate::text::{push_str, push_u64, copy_string, owned, decimal};
use crate::version::{VERSION, E_NICKNAME, FOOTER};

verus! {

/// The name under which the program reports.
pub const PROGRAM_NAME: &'static str = "e_stratpar";

/// The prover that the strategies run.
pub const DEFAULT_PROVER: &'static str = "eprover";

/// The CPU limit unless another is given.
pub const DEFAULT_HARD_TIME_LIMIT: i64 = 3600;

/// The usage message (the one the LTB runner shares).
pub const C_USAGE_ERROR: &'static str = "Usage: e_ltb_runner <spec> [<path-to-eprover>]";

/// The number of strategies run in parallel.
pub const MAX_CORES: usize = 8;

/// The options of the program.
#[derive(Clone, Copy, Debug, PartialEq, Eq, Structural)]
pub enum OptionCode {
    Help,
    Version,
    CpuLimit,
}

/// The option table.
pub open spec fn option_table() -> Seq<OptCell<OptionCode>> {
    seq![
        OptCell {
            option_code: OptionCode::Help,
            short: Some('h'),
            long: "help",
            arg_type: OptArgType::NoArg,
            default: None,
            desc: "Print a short description of program usage and options.",
        },
        OptCell {
            option_code: OptionCode::Version,
            short: Some('V'),
            long: "version",
            arg_type: OptArgType::NoArg,
            default: None,
            desc: "Print the version number of the prover. Please include this with all bug reports (if any).",
        },
        OptCell {
            option_code: OptionCode::CpuLimit,
            short: None,
            long: "cpu-limit",
            arg_type: OptArgType::OptArg,
            default: Some("300"),
            desc: "Limit the cpu time the prover should run. The optional argument is the CPU time in seconds.",
        },
    ]
}

/// The option table.
pub fn options() -> (v: Vec<OptCell<OptionCode>>)
    ensures
        v@ == option_table(),
{
    let v = vec![
        OptCell {
            option_code: OptionCode::Help,
            short: Some('h'),
            long: "help",
            arg_type: OptArgType::NoArg,
            default: None,
            desc: "Print a short description of program usage and options.",
        },
        OptCell {
            option_code: OptionCode::Version,
            short: Some('V'),
            long: "version",
            arg_type: OptArgType::NoArg,
            default: None,
            desc: "Print the version number of the prover. Please include this with all bug reports (if any).",
        },
        OptCell {
            option_code: OptionCode::CpuLimit,
            short: None,
            long: "cpu-limit",
            arg_type: OptArgType::OptArg,
            default: Some("300"),
            desc: "Limit the cpu time the prover should run. The optional argument is the CPU time in seconds.",
        },
    ];
    proof {
        assert(v@ =~= option_table());
    }
    v
}

/// The settings of a run.
pub struct Config {
    pub cpu_limit: i64,
    pub problem_file: String,
}

/// The view of the settings of a run.
pub struct ConfigView {
    pub cpu_limit: i64,
    pub problem_file: Seq<char>,
}

impl Config {
    pub open spec fn view(&self) -> ConfigView {
        ConfigView {
            cpu_limit: self.cpu_limit,
            problem_file: self.problem_file@,
        }
    }
}

/// The settings before any option.
pub open spec fn default_config() -> ConfigView {
    ConfigView {
        cpu_limit: DEFAULT_HARD_TIME_LIMIT,
        problem_file: Seq::empty(),
    }
}

/// What the options ask for: leave with a status (after help or version
/// text), or go on with the given settings.
pub enum Command {
    Exit(u8),
    Execute(Config),
}

pub enum CommandView {
    Exit(u8),
    Execute(ConfigView),
}

pub open spec fn command_view(r: Result<Command, Diagnostic>) -> Result<CommandView, (ErrorCode, Seq<char>)> {
    match r {
        Ok(Command::Exit(s)) => Ok(CommandView::Exit(s)),
        Ok(Command::Execute(c)) => Ok(CommandView::Execute(c.view())),
        Err(d) => Err((d.code, d.message@)),
    }
}

/// The outcome of one option: go on with the new session and settings, or
/// stop with a result.
pub enum OptStep {
    Go(SessionView, ConfigView),
    Stop(SessionView, Result<CommandView, (ErrorCode, Seq<char>)>),
}

/// The argument of an option, empty where it has none.
pub open spec fn arg_or_empty(a: Option<Seq<char>>) -> Seq<char> {
    match a {
        Some(x) => x,
        None => Seq::empty(),
    }
}


/// What one option does.
pub open spec fn apply_option(s: SessionView, c: ConfigView, cell: OptCell<OptionCode>, arg: Seq<char>) -> OptStep {
    match cell.option_code {
        OptionCode::Help => OptStep::Stop(SessionView { stdout: s.stdout + help_text(), ..s }, Ok(CommandView::Exit(0))),
        OptionCode::Version => OptStep::Stop(SessionView { stdout: s.stdout + PROGRAM_NAME@ + " "@ + VERSION@ + " "@ + E_NICKNAME@ + "\n"@, ..s }, Ok(CommandView::Exit(0))),
        OptionCode::CpuLimit => match int_arg_value(arg) {
            Some(v) => OptStep::Go(s, ConfigView { cpu_limit: v as i64, ..c }),
            None => OptStep::Stop(s, Err((ErrorCode::Usage, int_arg_error(cell)))),
        },
    }
}


/// The options applied in order, then the positional arguments.
pub open spec fn options_fold(
    s: SessionView,
    c: ConfigView,
    opts: Seq<(int, Option<Seq<char>>)>,
    end: Result<Seq<Seq<char>>, Seq<char>>,
) -> (SessionView, Result<CommandView, (ErrorCode, Seq<char>)>)
    decreases opts.len(),
{
    if opts.len() == 0 {
        match end {
            Ok(rest) => (s, if rest.len() == 0 || rest.len() > 2 {
                Err((ErrorCode::Usage, C_USAGE_ERROR@))
            } else {
                Ok(CommandView::Execute(ConfigView { problem_file: rest[0], ..c }))
            }),
            Err(m) => (s, Err((ErrorCode::Usage, m))),
        }
    } else {
        match apply_option(s, c, option_table()[opts[0].0], arg_or_empty(opts[0].1)) {
            OptStep::Go(s2, c2) => options_fold(s2, c2, opts.drop_first(), end),
            OptStep::Stop(s2, r) => (s2, r),
        }
    }
}

/// What the command line asks for, and the session after it.
pub open spec fn options_outcome(args: Seq<Seq<char>>, s: SessionView) -> (SessionView, Result<CommandView, (ErrorCode, Seq<char>)>) {
    let sc = crate::cmdline::scan(args, option_table());
    options_fold(s, default_config(), sc.opts, sc.end)
}


/// A command line of plain words: the first is the problem file and a
/// second (the prover's path) is allowed and ignored; none, or more than
/// two, is a usage error. The settings are otherwise the defaults.
pub proof fn lemma_positional_words(args: Seq<Seq<char>>, s: SessionView)
    requires
        args.len() >= 1,
        forall|i: int| 1 <= i < args.len() ==> crate::cmdline::is_positional(#[trigger] args[i]),
    ensures
        (args.len() == 1 || args.len() > 3) ==> options_outcome(args, s) == (s, Err::<CommandView, (ErrorCode, Seq<char>)>(
            (ErrorCode::Usage, C_USAGE_ERROR@),
        )),
        (2 <= args.len() <= 3) ==> options_outcome(args, s) == (s, Ok::<CommandView, (ErrorCode, Seq<char>)>(
            CommandView::Execute(ConfigView { problem_file: args[1], cpu_limit: 3600 }),
        )),
{
    crate::cmdline::lemma_scan_plain_words(args, option_table(), args.len() as int);
}

/// The help text.
pub open spec fn help_text() -> Seq<char> {
    "\n"@ + PROGRAM_NAME@ + " "@ + VERSION@ + " \""@ + E_NICKNAME@ + "\"\n\nUsage: "@ + PROGRAM_NAME@ + " [options] [file]\n\nRun 8 instances of E with different strategies in parallel.\n\n"@ + "Options:\n\n"@ + options_text(option_table()) + "\n\n"@ + FOOTER@
}


/// The help text.
pub fn print_help() -> (s: String)
    ensures
        s@ == help_text(),
{
    let mut s = String::new();
    push_str(&mut s, "\n");
    push_str(&mut s, PROGRAM_NAME);
    push_str(&mut s, " ");
    push_str(&mut s, VERSION);
    push_str(&mut s, " \"");
    push_str(&mut s, E_NICKNAME);
    push_str(&mut s, "\"\n\nUsage: ");
    push_str(&mut s, PROGRAM_NAME);
    push_str(&mut s, " [options] [file]\n\nRun 8 instances of E with different strategies in parallel.\n\n");
    let opts = options();
    let o = print_options(&opts, Some("Options:\n\n"));
    push_str(&mut s, o.as_str());
    push_str(&mut s, "\n\n");
    push_str(&mut s, FOOTER);
    s
}


/// Reads the command line.
pub fn process_options(args: &Vec<String>, sess: &mut Session) -> (r: Result<Command, Diagnostic>)
    ensures
        (final(sess).view(), command_view(r)) == options_outcome(args_view(args@), old(sess).view()),
{
    let opts = options();
    let mut state = CommandLineState::new(args);
    let mut cfg = Config {
        cpu_limit: DEFAULT_HARD_TIME_LIMIT,
        problem_file: String::new(),
    };
    let ghost goal = options_outcome(args_view(args@), old(sess).view());
    proof {
        
    }
    loop
        invariant
            state.wf(),
            state.args_seq() == args_view(args@),
            opts@ == option_table(),
            goal == options_outcome(args_view(args@), old(sess).view()),
            ({
                let sc = scan_from(args_view(args@), option_table(), state.state());
                options_fold(sess.view(), cfg.view(), sc.opts, sc.end) == goal
            }),
        decreases args.len() - state.state().argi, scan_measure(args_view(args@), state.state()),
    {
        let ghost st = state.state();
        proof {
            if !st.done {
                let (st2, ev) = step(args_view(args@), option_table(), st);
                if ev is Opt {
                    lemma_step_progress(args_view(args@), option_table(), st);
                }
            }
        }
        match state.next_opt(&opts) {
            Err(d) => {
                return Err(d);
            },
            Ok(None) => {
                let rest = state.remaining_args();
                if rest.len() == 0 || rest.len() > 2 {
                    return Err(diag(ErrorCode::Usage, C_USAGE_ERROR));
                }
                cfg.problem_file = copy_string(&rest[0]);
                return Ok(Command::Execute(cfg));
            },
            Ok(Some(p)) => {
                proof {
                    crate::cmdline::lemma_step_opt_index(args_view(args@), option_table(), st);
                }
                let cell = &opts[p.index];
                let arg: String = match &p.arg {
                    Some(a) => copy_string(a),
                    None => String::new(),
                };
                proof {
                    assert(arg@ == arg_or_empty(opt_view(p.arg)));
                }
                match cell.option_code {
                    OptionCode::Help => {
                        let h = print_help();
                        push_str(&mut sess.stdout, h.as_str());
                        return Ok(Command::Exit(0));
                    },
                    OptionCode::Version => {
                        push_str(&mut sess.stdout, PROGRAM_NAME);
                        push_str(&mut sess.stdout, " ");
                        push_str(&mut sess.stdout, VERSION);
                        push_str(&mut sess.stdout, " ");
                        push_str(&mut sess.stdout, E_NICKNAME);
                        push_str(&mut sess.stdout, "\n");
                        return Ok(Command::Exit(0));
                    },
                    OptionCode::CpuLimit => {
                        match get_int_arg(cell, arg.as_str()) {
                            Ok(v) => {
                                cfg.cpu_limit = v;
                            },
                            Err(d) => {
                                return Err(d);
                            },
                        }
                    },
                }
                proof {
                    let sc = scan_from(args_view(args@), option_table(), st);
                    let tail = scan_from(args_view(args@), option_table(), state.state());
                    assert(sc.opts == seq![(p.index as int, opt_view(p.arg))].add(tail.opts));
                    assert(sc.opts.drop_first() =~= tail.opts);
                }
            },
        }
    }
}


/// Half a limit, rounded toward zero.
pub open spec fn half(c: i64) -> int {
    if c >= 0 {
        c / 2
    } else {
        -((-c) / 2)
    }
}

fn half_exec(c: i64) -> (h: i64)
    ensures
        h == half(c),
{
    if c >= 0 {
        c / 2
    } else {
        let m: i64 = -(c + 1);
        -(m / 2 + m % 2)
    }
}

/// One strategy: its name, the options of its prover run, its CPU limit
/// and the problem.
pub struct StratparStrategy {
    pub name: String,
    pub options: String,
    pub cpu_limit: i64,
    pub problem_file: String,
}

/// The name of strategy `i`.
pub open spec fn strategy_name(i: nat) -> Seq<char> {
    "AutoSched"@ + decimal(i)
}

/// The prover options of strategy `i`.
pub open spec fn strategy_options(i: nat) -> Seq<char> {
    "-xAutoSched"@ + decimal(i) + " -tAutoSched"@ + decimal(i) + " --sine"@
}

/// The strategies: "AutoSched0" to "AutoSched7", each with half the CPU
/// limit.
pub fn strategy_specs(cfg: &Config) -> (v: Vec<StratparStrategy>)
    ensures
        v@.len() == MAX_CORES,
        forall|i: int| 0 <= i < v@.len() ==> (#[trigger] v@[i]).name@ == strategy_name(i as nat) && v@[i].options@
            == strategy_options(i as nat) && v@[i].cpu_limit == half(cfg.cpu_limit) && v@[i].problem_file@
            == cfg.problem_file@,
{
    let mut v: Vec<StratparStrategy> = Vec::new();
    let mut i: usize = 0;
    while i < MAX_CORES
        invariant
            i <= MAX_CORES,
            v@.len() == i,
            forall|k: int| 0 <= k < i ==> (#[trigger] v@[k]).name@ == strategy_name(k as nat) && v@[k].options@
                == strategy_options(k as nat) && v@[k].cpu_limit == half(cfg.cpu_limit) && v@[k].problem_file@
                == cfg.problem_file@,
        decreases MAX_CORES - i,
    {
        let mut name = String::new();
        push_str(&mut name, "AutoSched");
        push_u64(&mut name, i as u64);
        let mut opts = String::new();
        push_str(&mut opts, "-xAutoSched");
        push_u64(&mut opts, i as u64);
        push_str(&mut opts, " -tAutoSched");
        push_u64(&mut opts, i as u64);
        push_str(&mut opts, " --sine");
        v.push(StratparStrategy { name, options: opts, cpu_limit: half_exec(cfg.cpu_limit), problem_file: copy_string(&cfg.problem_file) });
        i = i + 1;
    }
    v
}

/// What the program prints once the strategies have run: the output of the
/// run that found a proof, or that it gave up.
pub fn result_text(proof_output: Option<&str>) -> (s: String)
    ensures
        s@ == match proof_output {
            Some(o) => o@,
            None => "% SZS status GaveUp"@ + "\n"@,
        },
{
    match proof_output {
        Some(o) => owned(o),
        None => {
            let mut s = String::new();
            push_str(&mut s, "% SZS status GaveUp");
            push_str(&mut s, "\n");
            s
        },
    }
}

/// A run up to the start of the provers: the options and, where the run
/// goes on, its settings (the application runs the strategies).
pub fn run(args: &Vec<String>) -> (r: (RunReport, Option<Config>))
    ensures
        ({
            let (s, cmd) = options_outcome(args_view(args@), SessionView { verbose: 0, output_level: 1, stdout: Seq::empty(), stderr: Seq::empty() });
            &&& r.0.stdout@ == s.stdout
            &&& match cmd {
                Err((code, m)) => r.0.result matches Err(d) && d.code == code && d.message@ == m && r.1 is None,
                Ok(CommandView::Exit(st)) => r.0.result matches Ok(x) && x == st && r.1 is None,
                Ok(CommandView::Execute(cv)) => (r.0.result matches Ok(x) && x == 0) && (r.1 matches Some(c) && c.view() == cv),
            }
        }),
{
    let mut sess = Session::new(0, 1);
    let cmd = process_options(args, &mut sess);
    let (result, cfg) = match cmd {
        Err(d) => (Err(d), None),
        Ok(Command::Exit(st)) => (Ok(st), None),
        Ok(Command::Execute(c)) => (Ok(0), Some(c)),
    };
    (RunReport { result, stdout: sess.stdout, output: String::new(), output_file: None, stderr: sess.stderr, verbose: sess.verbose, output_level: sess.output_level, close_output: false }, cfg)
}


} // verus!
