//! The deduction server: its options, the settings of the batches it runs,
//! and the text protocol through which clients add axiom sets and run jobs.
use vstd::prelude::*;
use crate::cmdline::{OptCell, OptArgType, CommandLineState, scan_from, step, args_view, opt_view, lemma_step_progress, scan_measure};
use crate::diag::{Diagnostic, ErrorCode, diag};
use crate::help::{get_int_arg, int_arg_value, int_arg_error, print_options, options_text};
use crate::session::{Session, SessionView, saturating_i32, saturate_i32, RunReport};
use crate::text::{push_str, copy_string, owned};
use crate::version::{VERSION, E_NICKNAME, FOOTER};
use crate::interactive::{CommandOutput, TextSession, serve_text};

verus! {

/// The name under which the program reports.
pub const PROGRAM_NAME: &'static str = "e_deduction_server";

/// The prover that runs the jobs unless another is named.
pub const DEFAULT_PROVER: &'static str = "eprover";

/// The wall-clock limit of a batch unless another is given.
pub const DEFAULT_TOTAL_WTC_LIMIT: i64 = 30;

/// What the server prints where no port is given.
pub const STDOUT_SERVER_UNIMPLEMENTED_MESSAGE: &'static str = "e_deduction_server: Server mode not implemented yet for stdout\n";

/// The options of the program.
#[derive(Clone, Copy, Debug, PartialEq, Eq, Structural)]
pub enum OptionCode {
    Help,
    Version,
    Verbose,
    Port,
    Silent,
    OutputLevel,
    GlobalWtcLimit,
    ServerLib,
}

/// The option table.
pub open spec fn option_table() -> Seq<OptCell<OptionCode>> {
    seq![
        OptCell {
            option_code: OptionCode::Help,
            short: Some('h'),
            long: "help",
            arg_type: OptArgType::NoArg,
            default: None,
            desc: "Print a short description of program usage and options.",
        },
        OptCell {
            option_code: OptionCode::Version,
            short: Some('V'),
            long: "version",
            arg_type: OptArgType::NoArg,
            default: None,
            desc: "Print the version number of the prover. Please include this with all bug reports (if any).",
        },
        OptCell {
            option_code: OptionCode::Verbose,
            short: Some('v'),
            long: "verbose",
            arg_type: OptArgType::OptArg,
            default: Some("1"),
            desc: "Verbose comments on the progress of the program. This differs from the output level (below) in that technical information is printed to stderr, while the output level determines which logical manipulations of the clauses are printed to stdout.",
        },
        OptCell {
            option_code: OptionCode::Port,
            short: Some('p'),
            long: "port",
            arg_type: OptArgType::ReqArg,
            default: None,
            desc: "The port on which the server will receive connections. Only effective when interactive mode is on. If not given stdin/stdout will be used.",
        },
        OptCell {
            option_code: OptionCode::Silent,
            short: Some('s'),
            long: "silent",
            arg_type: OptArgType::NoArg,
            default: None,
            desc: "Equivalent to --output-level=0.",
        },
        OptCell {
            option_code: OptionCode::OutputLevel,
            short: Some('l'),
            long: "output-level",
            arg_type: OptArgType::ReqArg,
            default: None,
            desc: "Select an output level, greater values imply more verbose output. Level 0 produces nearly no output, level 1 will output each clause as it is processed, level 2 will output generating inferences, level 3 will give a full protocol including rewrite steps and level 4 will include some internal clause renamings. Levels >= 2 also imply PCL2 or TSTP formats (which can be post-processed with suitable tools).",
        },
        OptCell {
            option_code: OptionCode::GlobalWtcLimit,
            short: Some('w'),
            long: "wtc-limit",
            arg_type: OptArgType::ReqArg,
            default: None,
            desc: "Set the global wall-clock limit for each batch (if any).",
        },
        OptCell {
            option_code: OptionCode::ServerLib,
            short: Some('L'),
            long: "lib",
            arg_type: OptArgType::ReqArg,
            default: None,
            desc: "Set the axioms library directory of the server.",
        },
    ]
}

/// The option table.
pub fn options() -> (v: Vec<OptCell<OptionCode>>)
    ensures
        v@ == option_table(),
{
    let v = vec![
        OptCell {
            option_code: OptionCode::Help,
            short: Some('h'),
            long: "help",
            arg_type: OptArgType::NoArg,
            default: None,
            desc: "Print a short description of program usage and options.",
        },
        OptCell {
            option_code: OptionCode::Version,
            short: Some('V'),
            long: "version",
            arg_type: OptArgType::NoArg,
            default: None,
            desc: "Print the version number of the prover. Please include this with all bug reports (if any).",
        },
        OptCell {
            option_code: OptionCode::Verbose,
            short: Some('v'),
            long: "verbose",
            arg_type: OptArgType::OptArg,
            default: Some("1"),
            desc: "Verbose comments on the progress of the program. This differs from the output level (below) in that technical information is printed to stderr, while the output level determines which logical manipulations of the clauses are printed to stdout.",
        },
        OptCell {
            option_code: OptionCode::Port,
            short: Some('p'),
            long: "port",
            arg_type: OptArgType::ReqArg,
            default: None,
            desc: "The port on which the server will receive connections. Only effective when interactive mode is on. If not given stdin/stdout will be used.",
        },
        OptCell {
            option_code: OptionCode::Silent,
            short: Some('s'),
            long: "silent",
            arg_type: OptArgType::NoArg,
            default: None,
            desc: "Equivalent to --output-level=0.",
        },
        OptCell {
            option_code: OptionCode::OutputLevel,
            short: Some('l'),
            long: "output-level",
            arg_type: OptArgType::ReqArg,
            default: None,
            desc: "Select an output level, greater values imply more verbose output. Level 0 produces nearly no output, level 1 will output each clause as it is processed, level 2 will output generating inferences, level 3 will give a full protocol including rewrite steps and level 4 will include some internal clause renamings. Levels >= 2 also imply PCL2 or TSTP formats (which can be post-processed with suitable tools).",
        },
        OptCell {
            option_code: OptionCode::GlobalWtcLimit,
            short: Some('w'),
            long: "wtc-limit",
            arg_type: OptArgType::ReqArg,
            default: None,
            desc: "Set the global wall-clock limit for each batch (if any).",
        },
        OptCell {
            option_code: OptionCode::ServerLib,
            short: Some('L'),
            long: "lib",
            arg_type: OptArgType::ReqArg,
            default: None,
            desc: "Set the axioms library directory of the server.",
        },
    ];
    proof {
        assert(v@ =~= option_table());
    }
    v
}


/// The settings of a run.
pub struct Config {
    pub prover: String,
    pub port: Option<u16>,
    pub server_lib: String,
    pub total_wtc_limit: i64,
    pub verbose_level: i64,
    pub output_level: i64,
}

/// The view of the settings of a run.
pub struct ConfigView {
    pub prover: Seq<char>,
    pub port: Option<u16>,
    pub server_lib: Seq<char>,
    pub total_wtc_limit: i64,
    pub verbose_level: i64,
    pub output_level: i64,
}

impl Config {
    pub open spec fn view(&self) -> ConfigView {
        ConfigView {
            prover: self.prover@,
            port: self.port,
            server_lib: self.server_lib@,
            total_wtc_limit: self.total_wtc_limit,
            verbose_level: self.verbose_level,
            output_level: self.output_level,
        }
    }
}

/// The settings before any option.
pub open spec fn default_config() -> ConfigView {
    ConfigView {
        prover: DEFAULT_PROVER@,
        port: None,
        server_lib: Seq::empty(),
        total_wtc_limit: DEFAULT_TOTAL_WTC_LIMIT,
        verbose_level: 0,
        output_level: 1,
    }
}

/// What the options ask for.
pub enum Command {
    Exit(u8),
    Execute(Config),
}

pub enum CommandView {
    Exit(u8),
    Execute(ConfigView),
}

pub open spec fn command_view(r: Result<Command, Diagnostic>) -> Result<CommandView, (ErrorCode, Seq<char>)> {
    match r {
        Ok(Command::Exit(s)) => Ok(CommandView::Exit(s)),
        Ok(Command::Execute(c)) => Ok(CommandView::Execute(c.view())),
        Err(d) => Err((d.code, d.message@)),
    }
}

/// The message for a port outside 0..65535.
pub open spec fn port_error() -> Seq<char> {
    "Port numbers must be between 0 and 65535"@
}

/// A port number, or a usage error.
pub open spec fn port_value(cell: OptCell<OptionCode>, arg: Seq<char>) -> Result<u16, (ErrorCode, Seq<char>)> {
    match int_arg_value(arg) {
        None => Err((ErrorCode::Usage, int_arg_error(cell))),
        Some(v) => if 0 <= v <= 65535 {
            Ok(v as u16)
        } else {
            Err((ErrorCode::Usage, port_error()))
        },
    }
}

/// The outcome of one option.
pub enum OptStep {
    Go(SessionView, ConfigView),
    Stop(SessionView, Result<CommandView, (ErrorCode, Seq<char>)>),
}

/// What one option does.
pub open spec fn apply_option(s: SessionView, c: ConfigView, cell: OptCell<OptionCode>, arg: Seq<char>) -> OptStep {
    match cell.option_code {
        OptionCode::Verbose => match int_arg_value(arg) {
            Some(v) => OptStep::Go(s, ConfigView { verbose_level: v as i64, ..c }),
            None => OptStep::Stop(s, Err((ErrorCode::Usage, int_arg_error(cell)))),
        },
        OptionCode::Help => OptStep::Stop(
            SessionView { stdout: s.stdout + help_text(), ..s },
            Ok(CommandView::Exit(0)),
        ),
        OptionCode::Version => OptStep::Stop(
            SessionView { stdout: s.stdout + PROGRAM_NAME@ + " "@ + VERSION@ + " "@ + E_NICKNAME@ + "\n"@, ..s },
            Ok(CommandView::Exit(0)),
        ),
        OptionCode::Port => match port_value(cell, arg) {
            Ok(p) => OptStep::Go(s, ConfigView { port: Some(p), ..c }),
            Err(e) => OptStep::Stop(s, Err(e)),
        },
        OptionCode::Silent => OptStep::Go(s, ConfigView { output_level: 0, ..c }),
        OptionCode::OutputLevel => match int_arg_value(arg) {
            Some(v) => OptStep::Go(s, ConfigView { output_level: v as i64, ..c }),
            None => OptStep::Stop(s, Err((ErrorCode::Usage, int_arg_error(cell)))),
        },
        OptionCode::GlobalWtcLimit => match int_arg_value(arg) {
            Some(v) => OptStep::Go(s, ConfigView { total_wtc_limit: v as i64, ..c }),
            None => OptStep::Stop(s, Err((ErrorCode::Usage, int_arg_error(cell)))),
        },
        OptionCode::ServerLib => OptStep::Go(s, ConfigView { server_lib: arg, ..c }),
    }
}

pub open spec fn arg_or_empty(a: Option<Seq<char>>) -> Seq<char> {
    match a {
        Some(x) => x,
        None => Seq::empty(),
    }
}

/// The options applied in order; the first positional argument, if any,
/// names the prover.
pub open spec fn options_fold(
    s: SessionView,
    c: ConfigView,
    opts: Seq<(int, Option<Seq<char>>)>,
    end: Result<Seq<Seq<char>>, Seq<char>>,
) -> (SessionView, Result<CommandView, (ErrorCode, Seq<char>)>)
    decreases opts.len(),
{
    if opts.len() == 0 {
        match end {
            Ok(rest) => (s, Ok(CommandView::Execute(if rest.len() > 0 { ConfigView { prover: rest[0], ..c } } else { c }))),
            Err(m) => (s, Err((ErrorCode::Usage, m))),
        }
    } else {
        match apply_option(s, c, option_table()[opts[0].0], arg_or_empty(opts[0].1)) {
            OptStep::Go(s2, c2) => options_fold(s2, c2, opts.drop_first(), end),
            OptStep::Stop(s2, r) => (s2, r),
        }
    }
}

/// What the command line asks for, and the session after it.
pub open spec fn options_outcome(args: Seq<Seq<char>>, s: SessionView) -> (SessionView, Result<CommandView, (ErrorCode, Seq<char>)>) {
    let sc = crate::cmdline::scan(args, option_table());
    options_fold(s, default_config(), sc.opts, sc.end)
}

/// The help text.
pub open spec fn help_text() -> Seq<char> {
    "\n"@ + PROGRAM_NAME@ + " "@ + VERSION@ + " \""@ + E_NICKNAME@ + "\"\n\nUsage: "@ + PROGRAM_NAME@
        + " -p <port> [options] [files]\n\nThe E deduction server offers deduction services based on local or\nuploaded axiom sets via network. See README.server.\n\n"@
        + "Options:\n\n"@ + options_text(option_table()) + "\n\n"@ + FOOTER@
}

/// The help text.
pub fn print_help() -> (s: String)
    ensures
        s@ == help_text(),
{
    let mut s = String::new();
    push_str(&mut s, "\n");
    push_str(&mut s, PROGRAM_NAME);
    push_str(&mut s, " ");
    push_str(&mut s, VERSION);
    push_str(&mut s, " \"");
    push_str(&mut s, E_NICKNAME);
    push_str(&mut s, "\"\n\nUsage: ");
    push_str(&mut s, PROGRAM_NAME);
    push_str(
        &mut s,
        " -p <port> [options] [files]\n\nThe E deduction server offers deduction services based on local or\nuploaded axiom sets via network. See README.server.\n\n",
    );
    let opts = options();
    let o = print_options(&opts, Some("Options:\n\n"));
    push_str(&mut s, o.as_str());
    push_str(&mut s, "\n\n");
    push_str(&mut s, FOOTER);
    s
}

/// The port argument: an integer between 0 and 65535.
pub fn parse_port(cell: &OptCell<OptionCode>, arg: &str) -> (r: Result<u16, Diagnostic>)
    ensures
        match port_value(*cell, arg@) {
            Ok(p) => r == Ok::<u16, Diagnostic>(p),
            Err((code, m)) => r matches Err(d) && d.code == code && d.message@ == m,
        },
{
    match get_int_arg(cell, arg) {
        Err(d) => Err(d),
        Ok(v) => {
            if 0 <= v && v <= 65535 {
                Ok(v as u16)
            } else {
                Err(diag(ErrorCode::Usage, "Port numbers must be between 0 and 65535"))
            }
        },
    }
}

/// Reads the command line.
pub fn process_options(args: &Vec<String>, sess: &mut Session) -> (r: Result<Command, Diagnostic>)
    ensures
        (final(sess).view(), command_view(r)) == options_outcome(args_view(args@), old(sess).view()),
{
    let opts = options();
    let mut state = CommandLineState::new(args);
    let mut cfg = Config {
        prover: owned(DEFAULT_PROVER),
        port: None,
        server_lib: String::new(),
        total_wtc_limit: DEFAULT_TOTAL_WTC_LIMIT,
        verbose_level: 0,
        output_level: 1,
    };
    let ghost goal = options_outcome(args_view(args@), old(sess).view());
    loop
        invariant
            state.wf(),
            state.args_seq() == args_view(args@),
            opts@ == option_table(),
            goal == options_outcome(args_view(args@), old(sess).view()),
            ({
                let sc = scan_from(args_view(args@), option_table(), state.state());
                options_fold(sess.view(), cfg.view(), sc.opts, sc.end) == goal
            }),
        decreases args.len() - state.state().argi, scan_measure(args_view(args@), state.state()),
    {
        let ghost st = state.state();
        let ghost s0 = sess.view();
        let ghost c0 = cfg.view();
        proof {
            if !st.done {
                let (st2, ev) = step(args_view(args@), option_table(), st);
                if ev is Opt {
                    lemma_step_progress(args_view(args@), option_table(), st);
                }
            }
        }
        match state.next_opt(&opts) {
            Err(d) => {
                return Err(d);
            },
            Ok(None) => {
                let rest = state.remaining_args();
                if rest.len() > 0 {
                    cfg.prover = copy_string(&rest[0]);
                }
                return Ok(Command::Execute(cfg));
            },
            Ok(Some(p)) => {
                proof {
                    crate::cmdline::lemma_step_opt_index(args_view(args@), option_table(), st);
                }
                let cell = &opts[p.index];
                let arg: String = match &p.arg {
                    Some(a) => copy_string(a),
                    None => String::new(),
                };
                proof {
                    assert(arg@ == arg_or_empty(opt_view(p.arg)));
                }
                match cell.option_code {
                    OptionCode::Verbose => {
                        match get_int_arg(cell, arg.as_str()) {
                            Ok(v) => {
                                cfg.verbose_level = v;
                            },
                            Err(d) => {
                                return Err(d);
                            },
                        }
                    },
                    OptionCode::Help => {
                        let h = print_help();
                        push_str(&mut sess.stdout, h.as_str());
                        return Ok(Command::Exit(0));
                    },
                    OptionCode::Version => {
                        push_str(&mut sess.stdout, PROGRAM_NAME);
                        push_str(&mut sess.stdout, " ");
                        push_str(&mut sess.stdout, VERSION);
                        push_str(&mut sess.stdout, " ");
                        push_str(&mut sess.stdout, E_NICKNAME);
                        push_str(&mut sess.stdout, "\n");
                        return Ok(Command::Exit(0));
                    },
                    OptionCode::Port => {
                        match parse_port(cell, arg.as_str()) {
                            Ok(v) => {
                                cfg.port = Some(v);
                            },
                            Err(d) => {
                                return Err(d);
                            },
                        }
                    },
                    OptionCode::Silent => {
                        cfg.output_level = 0;
                    },
                    OptionCode::OutputLevel => {
                        match get_int_arg(cell, arg.as_str()) {
                            Ok(v) => {
                                cfg.output_level = v;
                            },
                            Err(d) => {
                                return Err(d);
                            },
                        }
                    },
                    OptionCode::GlobalWtcLimit => {
                        match get_int_arg(cell, arg.as_str()) {
                            Ok(v) => {
                                cfg.total_wtc_limit = v;
                            },
                            Err(d) => {
                                return Err(d);
                            },
                        }
                    },
                    OptionCode::ServerLib => {
                        cfg.server_lib = arg;
                    },
                }
                proof {
                    let sc = scan_from(args_view(args@), option_table(), st);
                    let tail = scan_from(args_view(args@), option_table(), state.state());
                    assert(sc.opts == seq![(p.index as int, opt_view(p.arg))].add(tail.opts));
                    assert(sc.opts.drop_first() =~= tail.opts);
                }
            },
        }
    }
}

/// How the results of a batch are wanted.
#[derive(Clone, Copy, Debug, PartialEq, Eq, Structural)]
pub enum BatchOutputType {
    Unspecified,
    Desired,
    Required,
}

/// The input syntax of a batch.
#[derive(Clone, Copy, Debug, PartialEq, Eq, Structural)]
pub enum IoFormat {
    Auto,
    Lop,
    Tptp,
    Tstp,
}

/// The settings of the batches that the server runs.
pub struct BatchSpec {
    pub executable: String,
    pub format: IoFormat,
    pub category: Option<String>,
    pub total_wtc_limit: i64,
    pub res_proof: BatchOutputType,
}

/// The batch settings of the server: the prover, TSTP syntax, the "dummy"
/// category, the wall-clock limit, and proofs wanted.
pub fn deduction_batch_spec(prover: &str, total_wtc_limit: i64) -> (spec: BatchSpec)
    ensures
        spec.executable@ == prover@,
        spec.format == IoFormat::Tstp,
        spec.category matches Some(c) && c@ == "dummy"@,
        spec.total_wtc_limit == total_wtc_limit,
        spec.res_proof == BatchOutputType::Desired,
{
    BatchSpec {
        executable: owned(prover),
        format: IoFormat::Tstp,
        category: Some(owned("dummy")),
        total_wtc_limit,
        res_proof: BatchOutputType::Desired,
    }
}

/// Processes a run after the options: sets the levels and, where no port is
/// given, reports that serving on the standard streams is not available.
/// Serving on a port is the application's part.
pub fn execute(cfg: &Config, sess: &mut Session) -> (res: Result<u8, Diagnostic>)
    ensures
        final(sess).verbose == saturate_i32(cfg.verbose_level),
        final(sess).output_level == cfg.output_level,
        final(sess).stdout@ == old(sess).stdout@ + (if cfg.port is None {
            STDOUT_SERVER_UNIMPLEMENTED_MESSAGE@
        } else {
            Seq::empty()
        }),
        final(sess).stderr@ == old(sess).stderr@,
        res == Ok::<u8, Diagnostic>(0),
{
    sess.verbose = saturating_i32(cfg.verbose_level);
    sess.output_level = cfg.output_level;
    if cfg.port.is_none() {
        push_str(&mut sess.stdout, STDOUT_SERVER_UNIMPLEMENTED_MESSAGE);
    }
    Ok(0)
}

/// A whole run. Help and version leave before the final close of the
/// output stream; a run that gets to the end closes it.
pub fn run(args: &Vec<String>) -> (rep: RunReport)
    ensures
        ({
            let (s, c) = options_outcome(args_view(args@), SessionView { verbose: 0, output_level: 1, stdout: Seq::empty(), stderr: Seq::empty() });
            match c {
                Err((code, m)) => rep.result matches Err(d) && d.code == code && d.message@ == m
                    && !rep.close_output && rep.stdout@ == s.stdout,
                Ok(CommandView::Exit(st)) => rep.result matches Ok(x) && x == st && !rep.close_output
                    && rep.stdout@ == s.stdout,
                Ok(CommandView::Execute(cfg)) => rep.result matches Ok(x) && x == 0 && rep.close_output
                    && rep.verbose == saturate_i32(cfg.verbose_level) && rep.output_level == cfg.output_level
                    && rep.stdout@ == s.stdout + (if cfg.port is None {
                        STDOUT_SERVER_UNIMPLEMENTED_MESSAGE@
                    } else {
                        Seq::empty()
                    }),
            }
        }),
        rep.output@ == Seq::<char>::empty(),
        rep.output_file is None,
{
    let mut sess = Session::new(0, 1);
    let cmd = process_options(args, &mut sess);
    match cmd {
        Err(d) => RunReport {
            result: Err(d),
            stdout: sess.stdout,
            output: String::new(),
            output_file: None,
            stderr: sess.stderr,
            verbose: sess.verbose,
            output_level: sess.output_level,
            close_output: false,
        },
        Ok(Command::Exit(st)) => RunReport {
            result: Ok(st),
            stdout: sess.stdout,
            output: String::new(),
            output_file: None,
            stderr: sess.stderr,
            verbose: sess.verbose,
            output_level: sess.output_level,
            close_output: false,
        },
        Ok(Command::Execute(cfg)) => {
            let res = execute(&cfg, &mut sess);
            RunReport {
                result: res,
                stdout: sess.stdout,
                output: String::new(),
                output_file: None,
                stderr: sess.stderr,
                verbose: sess.verbose,
                output_level: sess.output_level,
                close_output: true,
            }
        },
    }
}

/// Serves the line protocol over a text (see `serve_text`): `library` holds
/// the axiom sets found in the server's axiom library, and `results` the
/// prover's answers to the jobs, in order (the jobs are run by the caller,
/// with the server's batch settings).
pub fn run_text_server_with(
    input: &String,
    library: Vec<String>,
    results: &Vec<CommandOutput>,
) -> (s: TextSession)
    ensures
        s.jobs@.len() <= s.report.commands,
        ({
            let (st, out, jobs) = crate::interactive::serve_from(
                input@,
                0,
                crate::interactive::fresh_server(args_view(library@)),
                Seq::empty(),
                Seq::empty(),
                crate::interactive::answers_view(results@),
            );
            &&& s.report.commands == st.commands
            &&& s.report.done == st.done
            &&& s.output@ == out
            &&& crate::interactive::jobs_view(s.jobs@) == jobs
        }),
{
    serve_text(input, library, results)
}

/// What was left behind after a batch: axiom sets and formula sets removed
/// and the signature size it went back to.
pub struct StructFofSpecBacktrackReport {
    pub removed_clause_sets: u64,
    pub removed_formula_sets: u64,
    pub signature_backtrack_to: u64,
}

/// How a batch of problems went.
pub struct BatchProcessProblemReport {
    pub solved: bool,
    pub spawned: u64,
    pub completed: Option<u64>,
    pub backtrack: StructFofSpecBacktrackReport,
}

/// The result of a RUN command: what goes back to the client, how the batch
/// went, and the text for the server's own standard output.
pub struct InteractiveRunReport {
    pub command: CommandOutput,
    pub process: BatchProcessProblemReport,
    pub global_output: String,
}

/// Writes the part of a job's report meant for the server's standard
/// output, and gives back what goes to the client.
pub fn emit_run_report_global_output(report: InteractiveRunReport, stdout: &mut String) -> (c: CommandOutput)
    ensures
        final(stdout)@ == old(stdout)@ + report.global_output@,
        c.output@ == report.command.output@,
        c.status == report.command.status,
{
    push_str(stdout, report.global_output.as_str());
    report.command
}

} // verus!
