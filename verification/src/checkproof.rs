//! The proof checker: reads PCL protocols and checks their inferences;
//! assumptions are checked by assumption, and with the scheme-setheo
//! setting the other steps are taken as true.
use vstd::prelude::*;
use crate::cmdline::{OptCell, OptArgType, CommandLineState, scan_from, step, args_view, opt_view, lemma_step_progress, scan_measure};
use crate::diag::{Diagnostic, ErrorCode, diag};
use crate::help::{get_int_arg, int_arg_value, int_arg_error, print_options, options_text};
use crate::session::{Session, SessionView, RunReport, InputFile, saturate_i32, saturating_i32, input_text, output_target, output_target_view, lookup_input};
use crate::text::{push_char, chars_of, push_str, push_u64, push_i64, copy_string, owned, same_text, decimal, signed_decimal};
use crate::version::{VERSION, FOOTER};
use crate::clause::{Reader, lex_error_text, Literal, LitView, lits_view, lop_text, push_lop_clause};
use crate::pcl::{PclStep, StepView, steps_view, protocol_spec, parse_protocol, push_step, step_text, is_initial};
use crate::scanner::{lex_from, position_prefix};

verus! {

/// The name under which the program reports.
pub const PROGRAM_NAME: &'static str = "checkproof";

/// The provers that can check inferences.
#[derive(Clone, Copy, Debug, PartialEq, Eq, Structural)]
pub enum ProverType {
    EProver,
    Otter,
    Spass,
    Setheo,
}

/// The prover named by the argument of `--prover-type`.
pub open spec fn prover_of(arg: Seq<char>) -> Option<ProverType> {
    if arg == "E"@ {
        Some(ProverType::EProver)
    } else if arg == "Otter"@ {
        Some(ProverType::Otter)
    } else if arg == "SPASS"@ {
        Some(ProverType::Spass)
    } else if arg == "scheme-setheo"@ {
        Some(ProverType::Setheo)
    } else {
        None
    }
}

/// The message for an unknown prover.
pub const PROVER_TYPE_ERROR: &'static str = "Option -p (--prover-type) requires E, Otter, SPASS or scheme-setheo as an argument";

/// The prover named by the argument of `--prover-type`, or a usage error.
pub fn parse_prover_type(arg: &str) -> (r: Result<ProverType, Diagnostic>)
    ensures
        match prover_of(arg@) {
            Some(p) => r == Ok::<ProverType, Diagnostic>(p),
            None => r matches Err(d) && d.code == ErrorCode::Usage && d.message@ == PROVER_TYPE_ERROR@,
        },
{
    if same_text(arg, "E") {
        Ok(ProverType::EProver)
    } else if same_text(arg, "Otter") {
        Ok(ProverType::Otter)
    } else if same_text(arg, "SPASS") {
        Ok(ProverType::Spass)
    } else if same_text(arg, "scheme-setheo") {
        Ok(ProverType::Setheo)
    } else {
        Err(diag(ErrorCode::Usage, PROVER_TYPE_ERROR))
    }
}

/// The options of the program.
#[derive(Clone, Copy, Debug, PartialEq, Eq, Structural)]
pub enum OptionCode {
    Help,
    Version,
    Verbose,
    Output,
    Silent,
    OutputLevel,
    ProverType,
    Executable,
    TimeLimit,
}

/// The option table.
pub open spec fn option_table() -> Seq<OptCell<OptionCode>> {
    seq![
        OptCell {
            option_code: OptionCode::Help,
            short: Some('h'),
            long: "help",
            arg_type: OptArgType::NoArg,
            default: None,
            desc: "Print a short description of program usage and options.",
        },
        OptCell {
            option_code: OptionCode::Version,
            short: None,
            long: "version",
            arg_type: OptArgType::NoArg,
            default: None,
            desc: "Print the version number of the program.",
        },
        OptCell {
            option_code: OptionCode::Verbose,
            short: Some('v'),
            long: "verbose",
            arg_type: OptArgType::OptArg,
            default: Some("1"),
            desc: "Verbose comments on the progress of the program.",
        },
        OptCell {
            option_code: OptionCode::Output,
            short: Some('o'),
            long: "output-file",
            arg_type: OptArgType::ReqArg,
            default: None,
            desc: "Redirect output into the named file.",
        },
        OptCell {
            option_code: OptionCode::Silent,
            short: Some('s'),
            long: "silent",
            arg_type: OptArgType::NoArg,
            default: None,
            desc: "Equivalent to --output-level=0.",
        },
        OptCell {
            option_code: OptionCode::OutputLevel,
            short: Some('l'),
            long: "output-level",
            arg_type: OptArgType::ReqArg,
            default: None,
            desc: "Select an output level, greater values imply more verbose output. At the moment, level 0 only prints the result, level 1 prints inference steps as they are verified, level 2 prints prover commands issued, and level 3 prints all prover output (which may be very little)",
        },
        OptCell {
            option_code: OptionCode::ProverType,
            short: Some('p'),
            long: "prover-type",
            arg_type: OptArgType::ReqArg,
            default: None,
            desc: "Set the type of the prover to use for proof verification. Determines problem syntax, options, and check for success. Supported options at are  'E' (the default),'Otter' 'SPASS', and 'scheme-setheo' (not yet implemented). SPASS support is only tested with SPASS 0.55 and may fail if the problem contains identifiers reserved by SPASS. There have been some supple syntax changes, so more recent SPASS versions will probably fail as well.",
        },
        OptCell {
            option_code: OptionCode::Executable,
            short: Some('x'),
            long: "executable",
            arg_type: OptArgType::ReqArg,
            default: None,
            desc: "Give the name under which the prover can be called. If no executable is given, checkproof will guess a name based on the type of the prover. This guess may be way off!",
        },
        OptCell {
            option_code: OptionCode::TimeLimit,
            short: Some('t'),
            long: "prover-cpu-limit",
            arg_type: OptArgType::ReqArg,
            default: None,
            desc: "Limit the CPU time prover may spend on a single step. Default is 10 seconds.",
        },
    ]
}

/// The option table.
pub fn options() -> (v: Vec<OptCell<OptionCode>>)
    ensures
        v@ == option_table(),
{
    let v = vec![
        OptCell {
            option_code: OptionCode::Help,
            short: Some('h'),
            long: "help",
            arg_type: OptArgType::NoArg,
            default: None,
            desc: "Print a short description of program usage and options.",
        },
        OptCell {
            option_code: OptionCode::Version,
            short: None,
            long: "version",
            arg_type: OptArgType::NoArg,
            default: None,
            desc: "Print the version number of the program.",
        },
        OptCell {
            option_code: OptionCode::Verbose,
            short: Some('v'),
            long: "verbose",
            arg_type: OptArgType::OptArg,
            default: Some("1"),
            desc: "Verbose comments on the progress of the program.",
        },
        OptCell {
            option_code: OptionCode::Output,
            short: Some('o'),
            long: "output-file",
            arg_type: OptArgType::ReqArg,
            default: None,
            desc: "Redirect output into the named file.",
        },
        OptCell {
            option_code: OptionCode::Silent,
            short: Some('s'),
            long: "silent",
            arg_type: OptArgType::NoArg,
            default: None,
            desc: "Equivalent to --output-level=0.",
        },
        OptCell {
            option_code: OptionCode::OutputLevel,
            short: Some('l'),
            long: "output-level",
            arg_type: OptArgType::ReqArg,
            default: None,
            desc: "Select an output level, greater values imply more verbose output. At the moment, level 0 only prints the result, level 1 prints inference steps as they are verified, level 2 prints prover commands issued, and level 3 prints all prover output (which may be very little)",
        },
        OptCell {
            option_code: OptionCode::ProverType,
            short: Some('p'),
            long: "prover-type",
            arg_type: OptArgType::ReqArg,
            default: None,
            desc: "Set the type of the prover to use for proof verification. Determines problem syntax, options, and check for success. Supported options at are  'E' (the default),'Otter' 'SPASS', and 'scheme-setheo' (not yet implemented). SPASS support is only tested with SPASS 0.55 and may fail if the problem contains identifiers reserved by SPASS. There have been some supple syntax changes, so more recent SPASS versions will probably fail as well.",
        },
        OptCell {
            option_code: OptionCode::Executable,
            short: Some('x'),
            long: "executable",
            arg_type: OptArgType::ReqArg,
            default: None,
            desc: "Give the name under which the prover can be called. If no executable is given, checkproof will guess a name based on the type of the prover. This guess may be way off!",
        },
        OptCell {
            option_code: OptionCode::TimeLimit,
            short: Some('t'),
            long: "prover-cpu-limit",
            arg_type: OptArgType::ReqArg,
            default: None,
            desc: "Limit the CPU time prover may spend on a single step. Default is 10 seconds.",
        },
    ];
    proof {
        assert(v@ =~= option_table());
    }
    v
}

/// The settings of a run.
pub struct Config {
    pub output_file: Option<String>,
    pub output_level: i64,
    pub prover: ProverType,
    pub executable: Option<String>,
    pub time_limit: i64,
    pub files: Vec<String>,
}

/// The view of the settings of a run.
pub struct ConfigView {
    pub output_file: Option<Seq<char>>,
    pub output_level: i64,
    pub prover: ProverType,
    pub executable: Option<Seq<char>>,
    pub time_limit: i64,
    pub files: Seq<Seq<char>>,
}

impl Config {
    pub open spec fn view(&self) -> ConfigView {
        ConfigView {
            output_file: opt_view(self.output_file),
            output_level: self.output_level,
            prover: self.prover,
            executable: opt_view(self.executable),
            time_limit: self.time_limit,
            files: args_view(self.files@),
        }
    }
}

/// The settings before any option.
pub open spec fn default_config() -> ConfigView {
    ConfigView {
        output_file: None,
        output_level: 1,
        prover: ProverType::EProver,
        executable: None,
        time_limit: 10,
        files: Seq::empty(),
    }
}

/// What the options ask for: leave with a status (after help or version
/// text), or go on with the given settings.
pub enum Command {
    Exit(u8),
    Execute(Config),
}

pub enum CommandView {
    Exit(u8),
    Execute(ConfigView),
}

pub open spec fn command_view(r: Result<Command, Diagnostic>) -> Result<CommandView, (ErrorCode, Seq<char>)> {
    match r {
        Ok(Command::Exit(s)) => Ok(CommandView::Exit(s)),
        Ok(Command::Execute(c)) => Ok(CommandView::Execute(c.view())),
        Err(d) => Err((d.code, d.message@)),
    }
}

/// The outcome of one option: go on with the new session and settings, or
/// stop with a result.
pub enum OptStep {
    Go(SessionView, ConfigView),
    Stop(SessionView, Result<CommandView, (ErrorCode, Seq<char>)>),
}

/// The argument of an option, empty where it has none.
pub open spec fn arg_or_empty(a: Option<Seq<char>>) -> Seq<char> {
    match a {
        Some(x) => x,
        None => Seq::empty(),
    }
}


/// What one option does.
pub open spec fn apply_option(s: SessionView, c: ConfigView, cell: OptCell<OptionCode>, arg: Seq<char>) -> OptStep {
    match cell.option_code {
        OptionCode::Help => OptStep::Stop(SessionView { stdout: s.stdout + help_text(), ..s }, Ok(CommandView::Exit(0))),
        OptionCode::Version => OptStep::Stop(SessionView { stdout: s.stdout + PROGRAM_NAME@ + " "@ + VERSION@ + "\n"@, ..s }, Ok(CommandView::Exit(0))),
        OptionCode::Verbose => match int_arg_value(arg) {
            Some(v) => OptStep::Go(SessionView { verbose: saturate_i32(v as i64), ..s }, c),
            None => OptStep::Stop(s, Err((ErrorCode::Usage, int_arg_error(cell)))),
        },
        OptionCode::Output => OptStep::Go(s, ConfigView { output_file: Some(arg), ..c }),
        OptionCode::Silent => OptStep::Go(SessionView { output_level: 0, ..s }, ConfigView { output_level: 0, ..c }),
        OptionCode::OutputLevel => match int_arg_value(arg) {
            Some(v) => OptStep::Go(SessionView { output_level: v as i64, ..s }, ConfigView { output_level: v as i64, ..c }),
            None => OptStep::Stop(s, Err((ErrorCode::Usage, int_arg_error(cell)))),
        },
        OptionCode::ProverType => match prover_of(arg) {
            Some(p) => OptStep::Go(s, ConfigView { prover: p, ..c }),
            None => OptStep::Stop(s, Err((ErrorCode::Usage, PROVER_TYPE_ERROR@))),
        },
        OptionCode::Executable => OptStep::Go(s, ConfigView { executable: Some(arg), ..c }),
        OptionCode::TimeLimit => match int_arg_value(arg) {
            Some(v) => OptStep::Go(s, ConfigView { time_limit: v as i64, ..c }),
            None => OptStep::Stop(s, Err((ErrorCode::Usage, int_arg_error(cell)))),
        },
    }
}


/// The options applied in order, then the positional arguments.
pub open spec fn options_fold(
    s: SessionView,
    c: ConfigView,
    opts: Seq<(int, Option<Seq<char>>)>,
    end: Result<Seq<Seq<char>>, Seq<char>>,
) -> (SessionView, Result<CommandView, (ErrorCode, Seq<char>)>)
    decreases opts.len(),
{
    if opts.len() == 0 {
        match end {
            Ok(rest) => (s, Ok(CommandView::Execute(ConfigView { files: if rest.len() == 0 { seq![seq!['-']] } else { rest }, ..c }))),
            Err(m) => (s, Err((ErrorCode::Usage, m))),
        }
    } else {
        match apply_option(s, c, option_table()[opts[0].0], arg_or_empty(opts[0].1)) {
            OptStep::Go(s2, c2) => options_fold(s2, c2, opts.drop_first(), end),
            OptStep::Stop(s2, r) => (s2, r),
        }
    }
}

/// What the command line asks for, and the session after it.
pub open spec fn options_outcome(args: Seq<Seq<char>>, s: SessionView) -> (SessionView, Result<CommandView, (ErrorCode, Seq<char>)>) {
    let sc = crate::cmdline::scan(args, option_table());
    options_fold(s, default_config(), sc.opts, sc.end)
}


/// The help text.
pub open spec fn help_text() -> Seq<char> {
    "\n\n"@ + PROGRAM_NAME@ + " "@ + VERSION@ + "\n\nUsage: checkproof [options] [files]\n\nRead an UPCL2 protocol and verify the inferences using one of a\nvarity of external provers.\n\nThis is a _very_ experimental program. Passing checkproof does\nindicate that all inferences in an UPCL2 protocol are correct\n(i.e. that the conclusion is logically implied by the premisses) -\nthat is, if you believe that the transformation process and the used\nprover are correct. However, checkproof will e.g. gladly show that the\nempty proof protocol does not contain any buggy steps.\n\nIf a proof protocol fails to pass this test, the proof may still be\ncorrect. Due to e.g. incomplete strategies (this applies in particular\nto Otter), build-in limits (Otter), and bugs in the prover (potentially\nall systems, but observed in SPASS 0.55), a prover might fail to\nverify a correct step. Moreover, due to the different strategies,\ncalculi, and in particular different term orderings chosen by the\nsystems, a single UPCL2 inference may result in a proof problem that\nis very hard to verify for other provers. However, if a proof step is\nrejected by more than one system, you should probably look at this\nstep in detail.\n\n"@ + "Options\n\n"@ + options_text(option_table()) + "\n\n"@ + FOOTER@
}


/// The help text.
pub fn print_help() -> (s: String)
    ensures
        s@ == help_text(),
{
    let mut s = String::new();
    push_str(&mut s, "\n\n");
    push_str(&mut s, PROGRAM_NAME);
    push_str(&mut s, " ");
    push_str(&mut s, VERSION);
    push_str(&mut s, "\n\nUsage: checkproof [options] [files]\n\nRead an UPCL2 protocol and verify the inferences using one of a\nvarity of external provers.\n\nThis is a _very_ experimental program. Passing checkproof does\nindicate that all inferences in an UPCL2 protocol are correct\n(i.e. that the conclusion is logically implied by the premisses) -\nthat is, if you believe that the transformation process and the used\nprover are correct. However, checkproof will e.g. gladly show that the\nempty proof protocol does not contain any buggy steps.\n\nIf a proof protocol fails to pass this test, the proof may still be\ncorrect. Due to e.g. incomplete strategies (this applies in particular\nto Otter), build-in limits (Otter), and bugs in the prover (potentially\nall systems, but observed in SPASS 0.55), a prover might fail to\nverify a correct step. Moreover, due to the different strategies,\ncalculi, and in particular different term orderings chosen by the\nsystems, a single UPCL2 inference may result in a proof problem that\nis very hard to verify for other provers. However, if a proof step is\nrejected by more than one system, you should probably look at this\nstep in detail.\n\n");
    let opts = options();
    let o = print_options(&opts, Some("Options\n\n"));
    push_str(&mut s, o.as_str());
    push_str(&mut s, "\n\n");
    push_str(&mut s, FOOTER);
    s
}


/// Reads the command line.
pub fn process_options(args: &Vec<String>, sess: &mut Session) -> (r: Result<Command, Diagnostic>)
    ensures
        (final(sess).view(), command_view(r)) == options_outcome(args_view(args@), old(sess).view()),
{
    let opts = options();
    let mut state = CommandLineState::new(args);
    let mut cfg = Config {
        output_file: None,
        output_level: 1,
        prover: ProverType::EProver,
        executable: None,
        time_limit: 10,
        files: Vec::new(),
    };
    let ghost goal = options_outcome(args_view(args@), old(sess).view());
    proof {
        assert(args_view(cfg.files@) =~= Seq::<Seq<char>>::empty());
    }
    loop
        invariant
            state.wf(),
            state.args_seq() == args_view(args@),
            opts@ == option_table(),
            goal == options_outcome(args_view(args@), old(sess).view()),
            ({
                let sc = scan_from(args_view(args@), option_table(), state.state());
                options_fold(sess.view(), cfg.view(), sc.opts, sc.end) == goal
            }),
        decreases args.len() - state.state().argi, scan_measure(args_view(args@), state.state()),
    {
        let ghost st = state.state();
        proof {
            if !st.done {
                let (st2, ev) = step(args_view(args@), option_table(), st);
                if ev is Opt {
                    lemma_step_progress(args_view(args@), option_table(), st);
                }
            }
        }
        match state.next_opt(&opts) {
            Err(d) => {
                return Err(d);
            },
            Ok(None) => {
                let rest = state.remaining_args();
                if rest.len() == 0 {
                    let mut files: Vec<String> = Vec::new();
                    files.push(String::from_str("-"));
                    cfg.files = files;
                    proof {
                        reveal_strlit("-");
                        assert("-"@ =~= seq!['-']);
                        assert(args_view(cfg.files@) =~= seq![seq!['-']]);
                    }
                } else {
                    cfg.files = rest;
                }
                return Ok(Command::Execute(cfg));
            },
            Ok(Some(p)) => {
                proof {
                    crate::cmdline::lemma_step_opt_index(args_view(args@), option_table(), st);
                }
                let cell = &opts[p.index];
                let arg: String = match &p.arg {
                    Some(a) => copy_string(a),
                    None => String::new(),
                };
                proof {
                    assert(arg@ == arg_or_empty(opt_view(p.arg)));
                }
                match cell.option_code {
                    OptionCode::Help => {
                        let h = print_help();
                        push_str(&mut sess.stdout, h.as_str());
                        return Ok(Command::Exit(0));
                    },
                    OptionCode::Version => {
                        push_str(&mut sess.stdout, PROGRAM_NAME);
                        push_str(&mut sess.stdout, " ");
                        push_str(&mut sess.stdout, VERSION);
                        push_str(&mut sess.stdout, "\n");
                        return Ok(Command::Exit(0));
                    },
                    OptionCode::Verbose => {
                        match get_int_arg(cell, arg.as_str()) {
                            Ok(v) => {
                                sess.verbose = saturating_i32(v);
                            },
                            Err(d) => {
                                return Err(d);
                            },
                        }
                    },
                    OptionCode::Output => {
                        cfg.output_file = Some(arg);
                    },
                    OptionCode::Silent => {
                        cfg.output_level = 0;
                        sess.output_level = 0;
                    },
                    OptionCode::OutputLevel => {
                        match get_int_arg(cell, arg.as_str()) {
                            Ok(v) => {
                                cfg.output_level = v;
                                sess.output_level = v;
                            },
                            Err(d) => {
                                return Err(d);
                            },
                        }
                    },
                    OptionCode::ProverType => {
                        match parse_prover_type(arg.as_str()) {
                            Ok(p) => {
                                cfg.prover = p;
                            },
                            Err(d) => {
                                return Err(d);
                            },
                        }
                    },
                    OptionCode::Executable => {
                        cfg.executable = Some(arg);
                    },
                    OptionCode::TimeLimit => {
                        match get_int_arg(cell, arg.as_str()) {
                            Ok(v) => {
                                cfg.time_limit = v;
                            },
                            Err(d) => {
                                return Err(d);
                            },
                        }
                    },
                }
                proof {
                    let sc = scan_from(args_view(args@), option_table(), st);
                    let tail = scan_from(args_view(args@), option_table(), state.state());
                    assert(sc.opts == seq![(p.index as int, opt_view(p.arg))].add(tail.opts));
                    assert(sc.opts.drop_first() =~= tail.opts);
                }
            },
        }
    }
}


/// How a step fares in the check: an assumption is checked by assumption;
/// with scheme-setheo the other steps are taken as true; with the other
/// provers each other step is proved by the external prover or fails.
#[derive(Clone, Copy, Debug, PartialEq, Eq, Structural)]
pub enum Verdict {
    Assumption,
    AssumedTrue,
    Proved,
    Failed,
}

/// Whether a step goes to the external prover.
pub open spec fn needs_prover(s: StepView, prover: ProverType) -> bool {
    s.just != "initial"@ && prover != ProverType::Setheo
}

/// The prover's answer for step `i`: whether it found a proof (no answer
/// counts as none found).
pub open spec fn answer_at(answers: Seq<bool>, i: int) -> bool {
    0 <= i < answers.len() && answers[i]
}

/// The verdict on a step, given whether the prover proved it.
pub open spec fn verdict_of(s: StepView, prover: ProverType, proved: bool) -> Verdict {
    if s.just == "initial"@ {
        Verdict::Assumption
    } else if prover == ProverType::Setheo {
        Verdict::AssumedTrue
    } else if proved {
        Verdict::Proved
    } else {
        Verdict::Failed
    }
}

/// The line that reports a verdict.
pub open spec fn verdict_text(v: Verdict) -> Seq<char> {
    match v {
        Verdict::Assumption => "% Checked (by assumption)\n\n"@,
        Verdict::AssumedTrue => "% Check not implemented, assuming true!\n\n"@,
        Verdict::Proved => "% Checked (by external prover)\n\n"@,
        Verdict::Failed => "% Check failed!\n\n"@,
    }
}

/// What checking a step prints at the given output level.
pub open spec fn step_check_text(s: StepView, v: Verdict, level: i64) -> Seq<char> {
    if level >= 1 {
        "% Checking "@ + step_text(s.id, s.props, s.lits, s.just) + "\n"@ + verdict_text(v)
    } else {
        Seq::empty()
    }
}

/// The verdict on step `i` of `steps`.
pub open spec fn verdict_at(steps: Seq<StepView>, prover: ProverType, answers: Seq<bool>, i: int) -> Verdict {
    verdict_of(steps[i], prover, answer_at(answers, i))
}

/// What checking the steps in turn prints.
pub open spec fn checks_text(steps: Seq<StepView>, prover: ProverType, level: i64, answers: Seq<bool>) -> Seq<char>
    decreases steps.len(),
{
    if steps.len() == 0 {
        Seq::empty()
    } else {
        checks_text(steps.drop_last(), prover, level, answers) + step_check_text(
            steps.last(),
            verdict_at(steps, prover, answers, steps.len() - 1),
            level,
        )
    }
}

/// How many of the steps get the verdict `v`.
pub open spec fn count_verdict(steps: Seq<StepView>, prover: ProverType, answers: Seq<bool>, v: Verdict) -> nat
    decreases steps.len(),
{
    if steps.len() == 0 {
        0
    } else {
        count_verdict(steps.drop_last(), prover, answers, v) + (if verdict_at(
            steps,
            prover,
            answers,
            steps.len() - 1,
        ) == v {
            1nat
        } else {
            0nat
        })
    }
}

/// How many steps are checked: assumptions and steps the prover proved.
pub open spec fn count_checked(steps: Seq<StepView>, prover: ProverType, answers: Seq<bool>) -> nat {
    count_verdict(steps, prover, answers, Verdict::Assumption) + count_verdict(steps, prover, answers, Verdict::Proved)
}

/// The closing line: steps checked, steps in all, steps taken as true, and
/// the verdict on the proof.
pub open spec fn summary_text(checked: nat, steps: nat, unchecked: nat) -> Seq<char> {
    "% Successfully checked "@ + decimal(checked) + " of "@ + decimal(steps) + " steps ("@ + decimal(
        unchecked,
    ) + " unchecked): "@ + (if checked == steps {
        " Proof verified!"@
    } else if checked + unchecked == steps {
        " Proof partially verified!"@
    } else {
        " Failed to verify proof!"@
    }) + "\n"@
}

/// What checking all steps prints: each step and its verdict, then the
/// closing line.
pub open spec fn check_text(steps: Seq<StepView>, prover: ProverType, level: i64, answers: Seq<bool>) -> Seq<char> {
    checks_text(steps, prover, level, answers) + summary_text(
        count_checked(steps, prover, answers),
        steps.len(),
        count_verdict(steps, prover, answers, Verdict::AssumedTrue),
    )
}

proof fn lemma_counts_add_up(v: Seq<StepView>, prover: ProverType, answers: Seq<bool>)
    ensures
        count_verdict(v, prover, answers, Verdict::Assumption) + count_verdict(v, prover, answers, Verdict::Proved)
            + count_verdict(v, prover, answers, Verdict::AssumedTrue) + count_verdict(v, prover, answers, Verdict::Failed)
            == v.len(),
    decreases v.len(),
{
    if v.len() > 0 {
        let w = v.drop_last();
        lemma_counts_add_up(w, prover, answers);
        assert forall|i: int| 0 <= i < w.len() implies verdict_at(w, prover, answers, i) == verdict_at(v, prover, answers, i) by {
            assert(w[i] == v[i]);
        }
        lemma_counts_prefix(v, prover, answers);
    }
}

proof fn lemma_counts_prefix(v: Seq<StepView>, prover: ProverType, answers: Seq<bool>)
    requires
        v.len() > 0,
    ensures
        forall|x: Verdict| count_verdict(v, prover, answers, x) == count_verdict(v.drop_last(), prover, answers, x) + (if verdict_at(v, prover, answers, v.len() - 1) == x { 1nat } else { 0nat }),
{
}

/// The verdict of the check on the whole proof: it is verified where every
/// step is checked, partially verified where no step failed but some were
/// only taken as true, and failed where some step failed.
pub proof fn lemma_verdict(v: Seq<StepView>, prover: ProverType, answers: Seq<bool>)
    ensures
        ({
            let checked = count_checked(v, prover, answers);
            let unchecked = count_verdict(v, prover, answers, Verdict::AssumedTrue);
            let failed = count_verdict(v, prover, answers, Verdict::Failed);
            summary_text(checked, v.len(), unchecked) == "% Successfully checked "@ + decimal(checked) + " of "@
                + decimal(v.len()) + " steps ("@ + decimal(unchecked) + " unchecked): "@ + (if unchecked == 0
                && failed == 0 {
                " Proof verified!"@
            } else if failed == 0 {
                " Proof partially verified!"@
            } else {
                " Failed to verify proof!"@
            }) + "\n"@
        }),
{
    lemma_counts_add_up(v, prover, answers);
}

fn push_step_check(out: &mut String, s: &PclStep, v: Verdict, level: i64)
    ensures
        final(out)@ == old(out)@ + step_check_text(s@, v, level),
{
    if level >= 1 {
        push_str(out, "% Checking ");
        push_step(out, s);
        push_str(out, "\n");
        match v {
            Verdict::Assumption => push_str(out, "% Checked (by assumption)\n\n"),
            Verdict::AssumedTrue => push_str(out, "% Check not implemented, assuming true!\n\n"),
            Verdict::Proved => push_str(out, "% Checked (by external prover)\n\n"),
            Verdict::Failed => push_str(out, "% Check failed!\n\n"),
        }
    } else {
        proof {
            assert(out@ =~= old(out)@ + Seq::<char>::empty());
        }
    }
}

/// Checks the steps read, with `answers[i]` the external prover's answer
/// for step `i` (whether it found a proof): prints each step and its verdict
/// (at output level 1 and above) and the closing line (see `check_text`).
pub fn check_steps(steps: &Vec<PclStep>, prover: ProverType, level: i64, answers: &Vec<bool>, out: &mut String)
    ensures
        final(out)@ == old(out)@ + check_text(steps_view(steps@), prover, level, answers@),
{
    let ghost v = steps_view(steps@);
    let mut checked: u64 = 0;
    let mut unchecked: u64 = 0;
    let mut i: usize = 0;
    proof {
        assert(v.take(0) =~= Seq::<StepView>::empty());
        assert(out@ =~= old(out)@ + Seq::<char>::empty());
    }
    while i < steps.len()
        invariant
            i <= steps.len(),
            v == steps_view(steps@),
            v.len() == steps@.len(),
            checked == count_checked(v.take(i as int), prover, answers@),
            unchecked == count_verdict(v.take(i as int), prover, answers@, Verdict::AssumedTrue),
            checked + unchecked <= i,
            out@ == old(out)@ + checks_text(v.take(i as int), prover, level, answers@),
        decreases steps.len() - i,
    {
        let s = &steps[i];
        let ghost w = v.take(i + 1);
        proof {
            assert(w.drop_last() =~= v.take(i as int));
            assert(w.last() == s@);
            assert(verdict_at(w, prover, answers@, i as int) == verdict_at(v, prover, answers@, i as int));
            lemma_counts_prefix(w, prover, answers@);
        }
        let proved = i < answers.len() && answers[i];
        let verdict = if is_initial(s) {
            Verdict::Assumption
        } else if prover == ProverType::Setheo {
            Verdict::AssumedTrue
        } else if proved {
            Verdict::Proved
        } else {
            Verdict::Failed
        };
        push_step_check(out, s, verdict, level);
        match verdict {
            Verdict::Assumption => {
                checked = checked + 1;
            },
            Verdict::Proved => {
                checked = checked + 1;
            },
            Verdict::AssumedTrue => {
                unchecked = unchecked + 1;
            },
            Verdict::Failed => {},
        }
        proof {
            let t = checks_text(v.take(i as int), prover, level, answers@);
            assert(old(out)@ + t + step_check_text(s@, verdict, level) =~= old(out)@ + (t + step_check_text(s@, verdict, level)));
        }
        i = i + 1;
    }
    proof {
        assert(v.take(steps.len() as int) =~= v);
    }
    let ghost body = out@;
    push_str(out, "% Successfully checked ");
    push_u64(out, checked);
    push_str(out, " of ");
    push_u64(out, steps.len() as u64);
    push_str(out, " steps (");
    push_u64(out, unchecked);
    push_str(out, " unchecked): ");
    if checked == steps.len() as u64 {
        push_str(out, " Proof verified!");
    } else if checked + unchecked == steps.len() as u64 {
        push_str(out, " Proof partially verified!");
    } else {
        push_str(out, " Failed to verify proof!");
    }
    push_str(out, "\n");
    proof {
        let t = checks_text(v, prover, level, answers@);
        let sm = summary_text(count_checked(v, prover, answers@), v.len(), count_verdict(v, prover, answers@, Verdict::AssumedTrue));
        assert(out@ =~= body + sm);
        assert(old(out)@ + t + sm =~= old(out)@ + (t + sm));
    }
}

/// The message for an input file that cannot be read.
pub open spec fn file_error_text(name: Seq<char>, err: Seq<char>) -> Seq<char> {
    "Cannot open file "@ + name + " for reading"@ + "\n"@ + PROGRAM_NAME@ + ": "@ + err
}

fn file_error(name: &str, err: &str) -> (d: Diagnostic)
    ensures
        d.code == ErrorCode::File,
        d.message@ == file_error_text(name@, err@),
{
    let mut m = String::new();
    push_str(&mut m, "Cannot open file ");
    push_str(&mut m, name);
    push_str(&mut m, " for reading");
    push_str(&mut m, "\n");
    push_str(&mut m, PROGRAM_NAME);
    push_str(&mut m, ": ");
    push_str(&mut m, err);
    Diagnostic::new(ErrorCode::File, m)
}

/// What reading one input file gives: its steps (also those read before a
/// syntax error), and the error, if any (its kind and its message).
pub open spec fn file_steps(name: Seq<char>, stdin: Seq<char>, files: Seq<InputFile>) -> (
    Seq<StepView>,
    Option<(ErrorCode, Seq<char>)>,
) {
    match lookup_input(name, stdin, files) {
        None => (Seq::empty(), Some((ErrorCode::File, file_error_text(name, "No such file or directory"@)))),
        Some(Err(e)) => (Seq::empty(), Some((ErrorCode::File, file_error_text(name, e)))),
        Some(Ok(text)) => if text.len() > isize::MAX {
            (Seq::empty(), Some((ErrorCode::ResourceOut, "Input file too large"@)))
        } else {
            match lex_from(text, 0) {
                Err(p) => (Seq::empty(), Some((ErrorCode::Syntax, lex_error_text(name, text, p)))),
                Ok(toks) => {
                    let (v, err) = protocol_spec(text, toks, 0);
                    (v, match err {
                        None => None,
                        Some(e) => Some((ErrorCode::Syntax, position_prefix(name, text, toks[e.0]) + e.1)),
                    })
                },
            }
        },
    }
}

/// What reading the input files in turn gives: the steps of all of them up
/// to the first error, and that error, if any.
pub open spec fn files_steps(names: Seq<Seq<char>>, stdin: Seq<char>, files: Seq<InputFile>) -> (
    Seq<StepView>,
    Option<(ErrorCode, Seq<char>)>,
)
    decreases names.len(),
{
    if names.len() == 0 {
        (Seq::empty(), None)
    } else {
        let before = files_steps(names.drop_last(), stdin, files);
        if before.1 is Some {
            before
        } else {
            let f = file_steps(names.last(), stdin, files);
            let all = before.0 + f.0;
            (all, f.1)
        }
    }
}

/// What a run does after the options, given the external prover's answer
/// for each step: the text written to the output and the error it ends
/// with, if any (its kind and its message).
pub open spec fn execute_outcome(
    names: Seq<Seq<char>>,
    stdin: Seq<char>,
    files: Seq<InputFile>,
    prover: ProverType,
    level: i64,
    answers: Seq<bool>,
) -> (Seq<char>, Option<(ErrorCode, Seq<char>)>) {
    let (v, e) = files_steps(names, stdin, files);
    match e {
        Some(err) => (Seq::empty(), Some(err)),
        None => (check_text(v, prover, level, answers), None),
    }
}

/// Whether a result is the one that an outcome calls for: status 0, or the
/// error of the given kind and message.
pub open spec fn result_matches(res: Result<u8, Diagnostic>, e: Option<(ErrorCode, Seq<char>)>) -> bool {
    match e {
        None => res == Ok::<u8, Diagnostic>(0),
        Some((code, m)) => res matches Err(d) && d.code == code && d.message@ == m,
    }
}

fn read_steps_file(name: &str, stdin: &String, files: &Vec<InputFile>, steps: &mut Vec<PclStep>) -> (res: Result<(), Diagnostic>)
    ensures
        ({
            let (v, e) = file_steps(name@, stdin@, files@);
            &&& steps_view(final(steps)@) == steps_view(old(steps)@) + v
            &&& (res is Ok <==> e is None)
            &&& (res matches Err(d) ==> result_matches(Err(d), e))
        }),
{
    proof {
        assert(steps_view(steps@) =~= steps_view(steps@) + Seq::<StepView>::empty());
    }
    let text = match input_text(name, stdin, files) {
        Some(Ok(t)) => t,
        Some(Err(e)) => {
            return Err(file_error(name, e.as_str()));
        },
        None => {
            return Err(file_error(name, "No such file or directory"));
        },
    };
    if text.as_str().unicode_len() > isize::MAX as usize {
        return Err(diag(ErrorCode::ResourceOut, "Input file too large"));
    }
    let mut r = match Reader::new(name, text.as_str()) {
        Ok(r) => r,
        Err(d) => {
            return Err(d);
        },
    };
    parse_protocol(&mut r, steps)
}

/// Reads the steps of all input files in turn, stopping at the first error
/// (see `files_steps`).
pub fn read_protocol(cfg: &Config, stdin: &String, files: &Vec<InputFile>) -> (r: Result<Vec<PclStep>, Diagnostic>)
    ensures
        match files_steps(cfg@.files, stdin@, files@) {
            (v, None) => r matches Ok(st) && steps_view(st@) == v,
            (v, Some((code, m))) => r matches Err(d) && d.code == code && d.message@ == m,
        },
{
    let ghost names = cfg@.files;
    let mut steps: Vec<PclStep> = Vec::new();
    let mut i: usize = 0;
    proof {
        assert(names.take(0) =~= Seq::<Seq<char>>::empty());
        assert(steps_view(steps@) =~= Seq::<StepView>::empty());
    }
    while i < cfg.files.len()
        invariant
            i <= cfg.files.len(),
            names == cfg@.files,
            names.len() == cfg.files.len(),
            steps_view(steps@) == files_steps(names.take(i as int), stdin@, files@).0,
            files_steps(names.take(i as int), stdin@, files@).1 is None,
        decreases cfg.files.len() - i,
    {
        let name = cfg.files[i].as_str();
        let r = read_steps_file(name, stdin, files, &mut steps);
        proof {
            assert(names.take(i + 1).drop_last() =~= names.take(i as int));
            assert(names.take(i + 1).last() == name@);
        }
        match r {
            Ok(()) => {},
            Err(d) => {
                proof {
                    lemma_steps_stop(names, (i + 1) as int, stdin@, files@);
                }
                return Err(d);
            },
        }
        i = i + 1;
    }
    proof {
        assert(names.take(cfg.files.len() as int) =~= names);
    }
    Ok(steps)
}

/// Processes the input after the options: reads the steps of all files,
/// then checks them with `answers[i]` the external prover's answer for step
/// `i` (see `execute_outcome`).
pub fn execute(cfg: &Config, stdin: &String, files: &Vec<InputFile>, answers: &Vec<bool>, out: &mut String) -> (res: Result<u8, Diagnostic>)
    ensures
        ({
            let (t, e) = execute_outcome(cfg@.files, stdin@, files@, cfg.prover, cfg.output_level, answers@);
            &&& final(out)@ == old(out)@ + t
            &&& result_matches(res, e)
        }),
{
    match read_protocol(cfg, stdin, files) {
        Err(d) => {
            proof {
                assert(out@ =~= old(out)@ + Seq::<char>::empty());
            }
            Err(d)
        },
        Ok(steps) => {
            check_steps(&steps, cfg.prover, cfg.output_level, answers, out);
            Ok(0)
        },
    }
}

/// Once a file has failed, the files after it change nothing.
proof fn lemma_steps_stop(names: Seq<Seq<char>>, k: int, stdin: Seq<char>, files: Seq<InputFile>)
    requires
        0 <= k <= names.len(),
        files_steps(names.take(k), stdin, files).1 is Some,
    ensures
        files_steps(names, stdin, files) == files_steps(names.take(k), stdin, files),
    decreases names.len() - k,
{
    if k < names.len() {
        assert(names.take(k + 1).drop_last() =~= names.take(k));
        lemma_steps_stop(names, k + 1, stdin, files);
    } else {
        assert(names.take(k) =~= names);
    }
}

/// Whether a character can continue a name.
pub open spec fn is_word_char(c: char) -> bool {
    ('a' <= c && c <= 'z') || ('A' <= c && c <= 'Z') || ('0' <= c && c <= '9') || c == '_'
}

/// Whether a character starts a variable where it starts a name.
pub open spec fn is_var_start(c: char) -> bool {
    ('A' <= c && c <= 'Z') || c == '_'
}

/// A term text with each variable `X` turned into the constant `skX`.
pub open spec fn ground_text(s: Seq<char>) -> Seq<char>
    decreases s.len(),
{
    if s.len() == 0 {
        Seq::empty()
    } else {
        let prev = s.drop_last();
        let c = s.last();
        ground_text(prev) + (if is_var_start(c) && (prev.len() == 0 || !is_word_char(prev.last())) {
            seq!['s', 'k', c]
        } else {
            seq![c]
        })
    }
}

/// The negation of a literal of the goal, its variables made constants.
pub open spec fn negated_ground(l: LitView) -> LitView {
    LitView {
        positive: !l.positive,
        lhs: ground_text(l.lhs),
        rhs: match l.rhs {
            Some(r) => Some(ground_text(r)),
            None => None,
        },
    }
}

/// The clauses of the steps before step `k`, one per line in LOP syntax.
pub open spec fn premises_text(v: Seq<StepView>, k: int) -> Seq<char>
    decreases k,
{
    if k <= 0 {
        Seq::empty()
    } else {
        premises_text(v, k - 1) + lop_text(v[k - 1].lits) + "\n"@
    }
}

/// The negation of a clause: one unit clause per literal, negated and made
/// ground, one per line in LOP syntax.
pub open spec fn goal_text(ls: Seq<LitView>) -> Seq<char>
    decreases ls.len(),
{
    if ls.len() == 0 {
        Seq::empty()
    } else {
        goal_text(ls.drop_last()) + lop_text(seq![negated_ground(ls.last())]) + "\n"@
    }
}

/// The problem that checks step `k` with an external prover: the clauses of
/// the steps before it and the negation of its clause; the step holds where
/// the prover finds this set contradictory.
pub open spec fn check_problem_text(v: Seq<StepView>, k: int) -> Seq<char> {
    premises_text(v, k) + goal_text(v[k].lits)
}

fn is_word_char_exec(c: char) -> (b: bool)
    ensures
        b == is_word_char(c),
{
    ('a' <= c && c <= 'z') || ('A' <= c && c <= 'Z') || ('0' <= c && c <= '9') || c == '_'
}

/// `ground_text` of a text.
fn ground_string(s: &str) -> (r: String)
    ensures
        r@ == ground_text(s@),
{
    let cs = chars_of(s);
    let mut r = String::new();
    let mut i: usize = 0;
    proof {
        assert(cs@.take(0) =~= Seq::<char>::empty());
    }
    while i < cs.len()
        invariant
            i <= cs.len(),
            cs@ == s@,
            r@ == ground_text(cs@.take(i as int)),
        decreases cs.len() - i,
    {
        let c = cs[i];
        let starts = (('A' <= c && c <= 'Z') || c == '_') && (i == 0 || !is_word_char_exec(cs[i - 1]));
        proof {
            let t = cs@.take(i + 1);
            assert(t.drop_last() =~= cs@.take(i as int));
            assert(t.last() == c);
            if i > 0 {
                assert(t.drop_last().last() == cs@[i - 1]);
            }
        }
        if starts {
            push_char(&mut r, 's');
            push_char(&mut r, 'k');
            push_char(&mut r, c);
            proof {
                assert(seq!['s', 'k'].push(c) =~= seq!['s', 'k', c]);
            }
        } else {
            push_char(&mut r, c);
        }
        proof {
            let t = cs@.take(i + 1);
            assert(r@ =~= ground_text(t.drop_last()) + (if starts { seq!['s', 'k', c] } else { seq![c] }));
        }
        i = i + 1;
    }
    proof {
        assert(cs@.take(cs.len() as int) =~= cs@);
    }
    r
}

/// The problem that checks step `k` with an external prover (see
/// `check_problem_text`).
pub fn check_problem(steps: &Vec<PclStep>, k: usize) -> (p: String)
    requires
        k < steps@.len(),
    ensures
        p@ == check_problem_text(steps_view(steps@), k as int),
{
    let ghost v = steps_view(steps@);
    let mut p = String::new();
    let mut j: usize = 0;
    while j < k
        invariant
            j <= k < steps@.len(),
            v == steps_view(steps@),
            p@ == premises_text(v, j as int),
        decreases k - j,
    {
        push_lop_clause(&mut p, &steps[j].lits);
        push_str(&mut p, "\n");
        proof {
            assert(v[j as int] == steps@[j as int]@);
        }
        j = j + 1;
    }
    let ls = &steps[k].lits;
    let ghost lv = lits_view(ls@);
    proof {
        assert(v[k as int].lits == lv);
        assert(lv.take(0) =~= Seq::<LitView>::empty());
    }
    let ghost base = p@;
    let mut i: usize = 0;
    while i < ls.len()
        invariant
            i <= ls.len(),
            lv == lits_view(ls@),
            p@ == base + goal_text(lv.take(i as int)),
        decreases ls.len() - i,
    {
        let l = &ls[i];
        let lhs = ground_string(l.lhs.as_str());
        let rhs = match &l.rhs {
            Some(x) => Some(ground_string(x.as_str())),
            None => None,
        };
        let g = vec![Literal { positive: !l.positive, lhs, rhs }];
        proof {
            assert(lits_view(g@) =~= seq![negated_ground(lv[i as int])]);
            let t = lv.take(i + 1);
            assert(t.drop_last() =~= lv.take(i as int));
            assert(t.last() == lv[i as int]);
        }
        let ghost before = p@;
        push_lop_clause(&mut p, &g);
        push_str(&mut p, "\n");
        proof {
            let t = lv.take(i + 1);
            let q = goal_text(lv.take(i as int));
            let add = lop_text(seq![negated_ground(lv[i as int])]) + "\n"@;
            assert(p@ =~= before + add);
            assert(base + q + add =~= base + (q + add));
        }
        i = i + 1;
    }
    proof {
        assert(lv.take(ls.len() as int) =~= lv);
    }
    p
}

/// The line by which a prover reports that it found a proof.
pub open spec fn proof_marker(p: ProverType) -> Seq<char> {
    match p {
        ProverType::EProver => "# Proof found!"@,
        ProverType::Otter => "-------- PROOF --------"@,
        ProverType::Spass => "SPASS beiseite: Proof found."@,
        ProverType::Setheo => Seq::empty(),
    }
}

/// Whether `m` occurs in `h` at index `i`.
pub open spec fn occurs_at(h: Seq<char>, m: Seq<char>, i: int) -> bool {
    0 <= i && i + m.len() <= h.len() && h.subrange(i, i + m.len()) == m
}

fn matches_at(h: &Vec<char>, m: &Vec<char>, i: usize) -> (b: bool)
    requires
        i + m.len() <= h.len(),
    ensures
        b == occurs_at(h@, m@, i as int),
{
    let mut j: usize = 0;
    while j < m.len()
        invariant
            j <= m.len(),
            i + m.len() <= h.len(),
            forall|q: int| 0 <= q < j ==> h@[i + q] == m@[q],
        decreases m.len() - j,
    {
        if h[i + j] != m[j] {
            proof {
                assert(h@.subrange(i as int, i + m.len())[j as int] != m@[j as int]);
            }
            return false;
        }
        j = j + 1;
    }
    proof {
        assert(h@.subrange(i as int, i + m.len()) =~= m@);
    }
    true
}

/// Whether the prover's output reports a proof: whether it holds the
/// prover's proof line (see `proof_marker`). Scheme-setheo is never asked.
pub fn proof_found(p: ProverType, output: &str) -> (b: bool)
    ensures
        b == (p != ProverType::Setheo && exists|i: int| occurs_at(output@, proof_marker(p), i)),
{
    let m = match p {
        ProverType::EProver => chars_of("# Proof found!"),
        ProverType::Otter => chars_of("-------- PROOF --------"),
        ProverType::Spass => chars_of("SPASS beiseite: Proof found."),
        ProverType::Setheo => {
            return false;
        },
    };
    let h = chars_of(output);
    if m.len() == 0 {
        proof {
            assert(output@.subrange(0, 0) =~= m@);
            assert(occurs_at(output@, proof_marker(p), 0));
        }
        return true;
    }
    if m.len() > h.len() {
        proof {
            assert forall|i: int| !occurs_at(output@, proof_marker(p), i) by {}
        }
        return false;
    }
    let count = h.len() - m.len() + 1;
    let mut i: usize = 0;
    while i < count
        invariant
            0 < m.len() <= h.len(),
            count == h.len() - m.len() + 1,
            m@ == proof_marker(p),
            h@ == output@,
            i <= count,
            forall|q: int| 0 <= q < i ==> !occurs_at(h@, m@, q),
        decreases count - i,
    {
        if matches_at(&h, &m, i) {
            return true;
        }
        i = i + 1;
    }
    proof {
        assert forall|q: int| !occurs_at(h@, m@, q) by {
            if 0 <= q && q + m@.len() <= h@.len() {
                assert(q < i);
            }
        }
    }
    false
}

/// The program that checks steps: the executable given, or the prover's
/// usual name.
pub fn prover_program(p: ProverType, executable: &Option<String>) -> (r: String)
    ensures
        r@ == match executable {
            Some(e) => e@,
            None => match p {
                ProverType::EProver => "eprover"@,
                ProverType::Otter => "otter"@,
                ProverType::Spass => "SPASS"@,
                ProverType::Setheo => "scheme-setheo"@,
            },
        },
{
    match executable {
        Some(e) => copy_string(e),
        None => match p {
            ProverType::EProver => owned("eprover"),
            ProverType::Otter => owned("otter"),
            ProverType::Spass => owned("SPASS"),
            ProverType::Setheo => owned("scheme-setheo"),
        },
    }
}

/// The arguments with which the prover reads a problem file: E reads it in
/// LOP syntax within the time limit; the others get the file alone.
pub fn prover_args(p: ProverType, time_limit: i64, file: &str) -> (r: Vec<String>)
    ensures
        args_view(r@) == if p == ProverType::EProver {
            seq!["--lop-in"@, "--cpu-limit="@ + signed_decimal(time_limit as int), file@]
        } else {
            seq![file@]
        },
{
    let mut r: Vec<String> = Vec::new();
    if p == ProverType::EProver {
        r.push(owned("--lop-in"));
        let mut l = owned("--cpu-limit=");
        push_i64(&mut l, time_limit);
        r.push(l);
    }
    r.push(owned(file));
    proof {
        if p == ProverType::EProver {
            assert(args_view(r@) =~= seq!["--lop-in"@, "--cpu-limit="@ + signed_decimal(time_limit as int), file@]);
        } else {
            assert(args_view(r@) =~= seq![file@]);
        }
    }
    r
}

/// The external checks a run asks for, before the prover runs: where the
/// options go on to reading and every file reads, the settings and, for
/// each step, the problem to give the prover (see `check_problem_text`), or
/// `None` where the step needs no prover. The application runs the prover
/// on each problem, reads its answer with `proof_found`, and hands the
/// answers to `run`.
pub fn external_checks(args: &Vec<String>, stdin: &String, files: &Vec<InputFile>) -> (r: Option<(Config, Vec<Option<String>>)>)
    ensures
        ({
            let (s, c) = options_outcome(args_view(args@), SessionView { verbose: 0, output_level: 1, stdout: Seq::empty(), stderr: Seq::empty() });
            match c {
                Ok(CommandView::Execute(cv)) => match files_steps(cv.files, stdin@, files@) {
                    (v, None) => r matches Some((k, ps)) && k@ == cv && ps@.len() == v.len() && forall|i: int|
                        0 <= i < v.len() ==> if needs_prover(v[i], cv.prover) {
                            (#[trigger] ps@[i]) matches Some(q) && q@ == check_problem_text(v, i)
                        } else {
                            ps@[i] is None
                        },
                    _ => r is None,
                },
                _ => r is None,
            }
        }),
{
    let mut sess = Session::new(0, 1);
    let cfg = match process_options(args, &mut sess) {
        Ok(Command::Execute(c)) => c,
        _ => {
            return None;
        },
    };
    let steps = match read_protocol(&cfg, stdin, files) {
        Ok(st) => st,
        Err(_) => {
            return None;
        },
    };
    let ghost v = steps_view(steps@);
    let mut ps: Vec<Option<String>> = Vec::new();
    let mut i: usize = 0;
    while i < steps.len()
        invariant
            i <= steps.len(),
            v == steps_view(steps@),
            ps@.len() == i,
            forall|q: int|
                0 <= q < i ==> if needs_prover(v[q], cfg.prover) {
                    (#[trigger] ps@[q]) matches Some(x) && x@ == check_problem_text(v, q)
                } else {
                    ps@[q] is None
                },
        decreases steps.len() - i,
    {
        proof {
            assert(v[i as int] == steps@[i as int]@);
        }
        if !is_initial(&steps[i]) && cfg.prover != ProverType::Setheo {
            ps.push(Some(check_problem(&steps, i)));
        } else {
            ps.push(None);
        }
        i = i + 1;
    }
    Some((cfg, ps))
}

/// A whole run: the options, then the protocol, with `answers[i]` the
/// external prover's answer for step `i` (see `external_checks`).
pub fn run(args: &Vec<String>, stdin: &String, files: &Vec<InputFile>, answers: &Vec<bool>) -> (rep: RunReport)
    ensures
        ({
            let (s, c) = options_outcome(args_view(args@), SessionView { verbose: 0, output_level: 1, stdout: Seq::empty(), stderr: Seq::empty() });
            &&& rep.stdout@ == s.stdout
            &&& rep.stderr@ == s.stderr
            &&& rep.verbose == s.verbose
            &&& rep.output_level == s.output_level
            &&& match c {
                Err((code, m)) => (rep.result matches Err(d) && d.code == code && d.message@ == m) && !rep.close_output
                    && rep.output@.len() == 0,
                Ok(CommandView::Exit(st)) => (rep.result matches Ok(x) && x == st) && !rep.close_output
                    && rep.output@.len() == 0,
                Ok(CommandView::Execute(cfg)) => {
                    let (t, e) = execute_outcome(cfg.files, stdin@, files@, cfg.prover, cfg.output_level, answers@);
                    &&& rep.output@ == t
                    &&& result_matches(rep.result, e)
                    &&& rep.close_output == (e is None)
                    &&& opt_view(rep.output_file) == output_target_view(cfg.output_file)
                },
            }
        }),
{
    let mut sess = Session::new(0, 1);
    let cmd = process_options(args, &mut sess);
    let mut out = String::new();
    match cmd {
        Err(d) => RunReport { result: Err(d), stdout: sess.stdout, output: out, output_file: None, stderr: sess.stderr, verbose: sess.verbose, output_level: sess.output_level, close_output: false },
        Ok(Command::Exit(st)) => RunReport { result: Ok(st), stdout: sess.stdout, output: out, output_file: None, stderr: sess.stderr, verbose: sess.verbose, output_level: sess.output_level, close_output: false },
        Ok(Command::Execute(cfg)) => {
            let res = execute(&cfg, stdin, files, answers, &mut out);
            let ok = res.is_ok();
            RunReport { result: res, stdout: sess.stdout, output: out, output_file: output_target(&cfg.output_file), stderr: sess.stderr, verbose: sess.verbose, output_level: sess.output_level, close_output: ok }
        },
    }
}


} // verus!
