//! The client of the deduction server: reads a problem, sends it to the
//! server and echoes the server's messages until the result arrives.
use vstd::prelude::*;
use crate::cmdline::{OptCell, OptArgType, CommandLineState, scan_from, step, args_view, opt_view, lemma_step_progress, scan_measure};
use crate::diag::{Diagnostic, ErrorCode, diag, warning_text};
use crate::help::{get_int_arg, int_arg_value, int_arg_error, print_options, options_text};
use crate::session::{Session, SessionView, saturating_i32, saturate_i32, RunReport, InputFile, input_text, output_target, lookup_input};
use crate::text::{push_str, push_u64, copy_string, owned, same_text};
use crate::version::{VERSION, E_NICKNAME, STS_MAIL, E_URL};

verus! {

/// The name under which the program reports.
pub const PROGRAM_NAME: &'static str = "e_client";

/// The server contacted unless another is named.
pub const DEFAULT_SERVER: &'static str = "localhost";

/// The port used unless another is given.
pub const DEFAULT_PORT: u16 = 3666;

/// Ports below this one need root privileges.
pub const IPPORT_RESERVED: u16 = 1024;

/// The options of the program.
#[derive(Clone, Copy, Debug, PartialEq, Eq, Structural)]
pub enum OptionCode {
    Help,
    Version,
    Verbose,
    Output,
    Server,
    Port,
}

/// The option table.
pub open spec fn option_table() -> Seq<OptCell<OptionCode>> {
    seq![
        OptCell {
            option_code: OptionCode::Help,
            short: Some('h'),
            long: "help",
            arg_type: OptArgType::NoArg,
            default: None,
            desc: "Print a short description of program usage and options.",
        },
        OptCell {
            option_code: OptionCode::Version,
            short: Some('V'),
            long: "version",
            arg_type: OptArgType::NoArg,
            default: None,
            desc: "Print the version number of the prover. Please include this with all bug reports (if any).",
        },
        OptCell {
            option_code: OptionCode::Verbose,
            short: Some('v'),
            long: "verbose",
            arg_type: OptArgType::OptArg,
            default: Some("1"),
            desc: "Verbose comments on the progress of the program. This differs from the output level (below) in that technical information is printed to stderr, while the output level determines which logical manipulations of the clauses are printed to stdout.",
        },
        OptCell {
            option_code: OptionCode::Output,
            short: Some('o'),
            long: "output-file",
            arg_type: OptArgType::ReqArg,
            default: None,
            desc: "Redirect output into the named file (this affects only some output, as most is written to automatically generated files based on the input and filter names.",
        },
        OptCell {
            option_code: OptionCode::Server,
            short: Some('S'),
            long: "server",
            arg_type: OptArgType::ReqArg,
            default: None,
            desc: "Specify the address of the server. The default is 'localhost'.",
        },
        OptCell {
            option_code: OptionCode::Port,
            short: Some('P'),
            long: "service-port",
            arg_type: OptArgType::ReqArg,
            default: None,
            desc: "Specify the port to use for the deduction service. The default is to use 3666",
        },
        OptCell {
            option_code: OptionCode::Port,
            short: Some('P'),
            long: "port",
            arg_type: OptArgType::ReqArg,
            default: None,
            desc: "Specify the port to use for the deduction service.",
        },
    ]
}

/// The option table.
pub fn options() -> (v: Vec<OptCell<OptionCode>>)
    ensures
        v@ == option_table(),
{
    let v = vec![
        OptCell {
            option_code: OptionCode::Help,
            short: Some('h'),
            long: "help",
            arg_type: OptArgType::NoArg,
            default: None,
            desc: "Print a short description of program usage and options.",
        },
        OptCell {
            option_code: OptionCode::Version,
            short: Some('V'),
            long: "version",
            arg_type: OptArgType::NoArg,
            default: None,
            desc: "Print the version number of the prover. Please include this with all bug reports (if any).",
        },
        OptCell {
            option_code: OptionCode::Verbose,
            short: Some('v'),
            long: "verbose",
            arg_type: OptArgType::OptArg,
            default: Some("1"),
            desc: "Verbose comments on the progress of the program. This differs from the output level (below) in that technical information is printed to stderr, while the output level determines which logical manipulations of the clauses are printed to stdout.",
        },
        OptCell {
            option_code: OptionCode::Output,
            short: Some('o'),
            long: "output-file",
            arg_type: OptArgType::ReqArg,
            default: None,
            desc: "Redirect output into the named file (this affects only some output, as most is written to automatically generated files based on the input and filter names.",
        },
        OptCell {
            option_code: OptionCode::Server,
            short: Some('S'),
            long: "server",
            arg_type: OptArgType::ReqArg,
            default: None,
            desc: "Specify the address of the server. The default is 'localhost'.",
        },
        OptCell {
            option_code: OptionCode::Port,
            short: Some('P'),
            long: "service-port",
            arg_type: OptArgType::ReqArg,
            default: None,
            desc: "Specify the port to use for the deduction service. The default is to use 3666",
        },
        OptCell {
            option_code: OptionCode::Port,
            short: Some('P'),
            long: "port",
            arg_type: OptArgType::ReqArg,
            default: None,
            desc: "Specify the port to use for the deduction service.",
        },
    ];
    proof {
        assert(v@ =~= option_table());
    }
    v
}


/// The settings of a run.
pub struct Config {
    pub output_file: Option<String>,
    pub server: String,
    pub port: u16,
    pub files: Vec<String>,
}

pub struct ConfigView {
    pub output_file: Option<Seq<char>>,
    pub server: Seq<char>,
    pub port: u16,
    pub files: Seq<Seq<char>>,
}

impl Config {
    pub open spec fn view(&self) -> ConfigView {
        ConfigView {
            output_file: opt_view(self.output_file),
            server: self.server@,
            port: self.port,
            files: args_view(self.files@),
        }
    }
}

pub open spec fn default_config() -> ConfigView {
    ConfigView { output_file: None, server: DEFAULT_SERVER@, port: DEFAULT_PORT, files: Seq::empty() }
}

pub enum Command {
    Exit(u8),
    Execute(Config),
}

pub enum CommandView {
    Exit(u8),
    Execute(ConfigView),
}

pub open spec fn command_view(r: Result<Command, Diagnostic>) -> Result<CommandView, (ErrorCode, Seq<char>)> {
    match r {
        Ok(Command::Exit(s)) => Ok(CommandView::Exit(s)),
        Ok(Command::Execute(c)) => Ok(CommandView::Execute(c.view())),
        Err(d) => Err((d.code, d.message@)),
    }
}

/// The warning for a port that needs root privileges.
pub open spec fn reserved_port_warning() -> Seq<char> {
    warning_text(PROGRAM_NAME@, "Port numbers less than "@ + crate::text::decimal(1024) + " require root level access"@)
}

/// A port number (with a warning on standard error below 1024), or a
/// usage error.
pub open spec fn port_step(s: SessionView, cell: OptCell<OptionCode>, arg: Seq<char>) -> Result<(SessionView, u16), (ErrorCode, Seq<char>)> {
    match int_arg_value(arg) {
        None => Err((ErrorCode::Usage, int_arg_error(cell))),
        Some(v) => if 0 <= v <= 65535 {
            if v < 1024 {
                Ok((SessionView { stderr: s.stderr + reserved_port_warning(), ..s }, v as u16))
            } else {
                Ok((s, v as u16))
            }
        } else {
            Err((ErrorCode::Usage, "Port numbers must be between 0 and 65535"@))
        },
    }
}

pub enum OptStep {
    Go(SessionView, ConfigView),
    Stop(SessionView, Result<CommandView, (ErrorCode, Seq<char>)>),
}

/// What one option does.
pub open spec fn apply_option(s: SessionView, c: ConfigView, cell: OptCell<OptionCode>, arg: Seq<char>) -> OptStep {
    match cell.option_code {
        OptionCode::Verbose => match int_arg_value(arg) {
            Some(v) => OptStep::Go(SessionView { verbose: saturate_i32(v as i64), ..s }, c),
            None => OptStep::Stop(s, Err((ErrorCode::Usage, int_arg_error(cell)))),
        },
        OptionCode::Help => OptStep::Stop(SessionView { stdout: s.stdout + help_text(), ..s }, Ok(CommandView::Exit(0))),
        OptionCode::Version => OptStep::Stop(
            SessionView { stdout: s.stdout + "E "@ + VERSION@ + " "@ + E_NICKNAME@ + "\n"@, ..s },
            Ok(CommandView::Exit(0)),
        ),
        OptionCode::Output => OptStep::Go(s, ConfigView { output_file: Some(arg), ..c }),
        OptionCode::Server => OptStep::Go(s, ConfigView { server: arg, ..c }),
        OptionCode::Port => match port_step(s, cell, arg) {
            Ok((s2, p)) => OptStep::Go(s2, ConfigView { port: p, ..c }),
            Err(e) => OptStep::Stop(s, Err(e)),
        },
    }
}

pub open spec fn arg_or_empty(a: Option<Seq<char>>) -> Seq<char> {
    match a {
        Some(x) => x,
        None => Seq::empty(),
    }
}

pub open spec fn input_files(rest: Seq<Seq<char>>) -> Seq<Seq<char>> {
    if rest.len() == 0 {
        seq![seq!['-']]
    } else {
        rest
    }
}

pub open spec fn options_fold(
    s: SessionView,
    c: ConfigView,
    opts: Seq<(int, Option<Seq<char>>)>,
    end: Result<Seq<Seq<char>>, Seq<char>>,
) -> (SessionView, Result<CommandView, (ErrorCode, Seq<char>)>)
    decreases opts.len(),
{
    if opts.len() == 0 {
        match end {
            Ok(rest) => (s, Ok(CommandView::Execute(ConfigView { files: input_files(rest), ..c }))),
            Err(m) => (s, Err((ErrorCode::Usage, m))),
        }
    } else {
        match apply_option(s, c, option_table()[opts[0].0], arg_or_empty(opts[0].1)) {
            OptStep::Go(s2, c2) => options_fold(s2, c2, opts.drop_first(), end),
            OptStep::Stop(s2, r) => (s2, r),
        }
    }
}

pub open spec fn options_outcome(args: Seq<Seq<char>>, s: SessionView) -> (SessionView, Result<CommandView, (ErrorCode, Seq<char>)>) {
    let sc = crate::cmdline::scan(args, option_table());
    options_fold(s, default_config(), sc.opts, sc.end)
}

/// The footer of this program's help text.
pub open spec fn legacy_footer() -> Seq<char> {
    "Copyright (C) 2011 by Stephan Schulz, "@ + STS_MAIL@ + "\n\nYou can find the latest version of E and additional information at\n"@ + E_URL@ + LEGACY_FOOTER_TAIL@
}

pub const LEGACY_FOOTER_TAIL: &'static str = "\n\nThis program is free software; you can redistribute it and/or modify\nit under the terms of the GNU General Public License as published by\nthe Free Software Foundation; either version 2 of the License, or\n(at your option) any later version.\n\nThis program is distributed in the hope that it will be useful,\nbut WITHOUT ANY WARRANTY; without even the implied warranty of\nMERCHANTABILITY or FITNESS FOR A PARTICULAR PURPOSE.  See the\nGNU General Public License for more details.\n\nYou should have received a copy of the GNU General Public License\nalong with this program (it should be contained in the top level\ndirectory of the distribution in the file COPYING); if not, write to\nthe Free Software Foundation, Inc., 59 Temple Place, Suite 330,\nBoston, MA  02111-1307 USA\n\nThe original copyright holder can be contacted as\n\nStephan Schulz\nDHBW Stuttgart\nFakultaet Technik\nInformatik\nLerchenstrasse 1\n70174 Stuttgart\nGermany\n\n";

/// The help text.
pub open spec fn help_text() -> Seq<char> {
    "\nE "@ + VERSION@ + " \""@ + E_NICKNAME@ + "\"\n\nUsage: "@ + PROGRAM_NAME@
        + " [options] [files]\n\nRead an problem specification, connect to the E deduction server, \nand try to have the problem solved.\n\n"@
        + "Options:\n\n"@ + options_text(option_table()) + "\n"@ + legacy_footer()
}

/// The help text.
pub fn print_help() -> (s: String)
    ensures
        s@ == help_text(),
{
    let mut s = String::new();
    push_str(&mut s, "\nE ");
    push_str(&mut s, VERSION);
    push_str(&mut s, " \"");
    push_str(&mut s, E_NICKNAME);
    push_str(&mut s, "\"\n\nUsage: ");
    push_str(&mut s, PROGRAM_NAME);
    push_str(
        &mut s,
        " [options] [files]\n\nRead an problem specification, connect to the E deduction server, \nand try to have the problem solved.\n\n",
    );
    let opts = options();
    let o = print_options(&opts, Some("Options:\n\n"));
    push_str(&mut s, o.as_str());
    push_str(&mut s, "\n");
    push_str(&mut s, "Copyright (C) 2011 by Stephan Schulz, ");
    push_str(&mut s, STS_MAIL);
    push_str(&mut s, "\n\nYou can find the latest version of E and additional information at\n");
    push_str(&mut s, E_URL);
    push_str(&mut s, LEGACY_FOOTER_TAIL);
    s
}

/// The port argument: an integer between 0 and 65535; a warning goes to
/// standard error for one below 1024.
pub fn parse_port(cell: &OptCell<OptionCode>, arg: &str, stderr: &mut String) -> (r: Result<u16, Diagnostic>)
    ensures
        ({
            let s0 = SessionView { verbose: 0, output_level: 0, stdout: Seq::empty(), stderr: old(stderr)@ };
            match port_step(s0, *cell, arg@) {
                Ok((s2, p)) => r == Ok::<u16, Diagnostic>(p) && final(stderr)@ == s2.stderr,
                Err((code, m)) => r matches Err(d) && d.code == code && d.message@ == m && final(stderr)@ == old(stderr)@,
            }
        }),
{
    match get_int_arg(cell, arg) {
        Err(d) => Err(d),
        Ok(v) => {
            if 0 <= v && v <= 65535 {
                if v < 1024 {
                    let mut m = String::new();
                    push_str(&mut m, "Port numbers less than ");
                    push_u64(&mut m, 1024);
                    push_str(&mut m, " require root level access");
                    let w = Diagnostic::new(ErrorCode::Other, m).render_warning(PROGRAM_NAME);
                    push_str(stderr, w.as_str());
                }
                Ok(v as u16)
            } else {
                Err(diag(ErrorCode::Usage, "Port numbers must be between 0 and 65535"))
            }
        },
    }
}

/// Reads the command line.
pub fn process_options(args: &Vec<String>, sess: &mut Session) -> (r: Result<Command, Diagnostic>)
    ensures
        (final(sess).view(), command_view(r)) == options_outcome(args_view(args@), old(sess).view()),
{
    let opts = options();
    let mut state = CommandLineState::new(args);
    let mut cfg = Config { output_file: None, server: owned(DEFAULT_SERVER), port: DEFAULT_PORT, files: Vec::new() };
    let ghost goal = options_outcome(args_view(args@), old(sess).view());
    proof {
        assert(args_view(cfg.files@) =~= Seq::<Seq<char>>::empty());
    }
    loop
        invariant
            state.wf(),
            state.args_seq() == args_view(args@),
            opts@ == option_table(),
            goal == options_outcome(args_view(args@), old(sess).view()),
            ({
                let sc = scan_from(args_view(args@), option_table(), state.state());
                options_fold(sess.view(), cfg.view(), sc.opts, sc.end) == goal
            }),
        decreases args.len() - state.state().argi, scan_measure(args_view(args@), state.state()),
    {
        let ghost st = state.state();
        proof {
            if !st.done {
                let (st2, ev) = step(args_view(args@), option_table(), st);
                if ev is Opt {
                    lemma_step_progress(args_view(args@), option_table(), st);
                }
            }
        }
        match state.next_opt(&opts) {
            Err(d) => {
                return Err(d);
            },
            Ok(None) => {
                let rest = state.remaining_args();
                if rest.len() == 0 {
                    let mut files: Vec<String> = Vec::new();
                    files.push(String::from_str("-"));
                    cfg.files = files;
                    proof {
                        reveal_strlit("-");
                        assert("-"@ =~= seq!['-']);
                        assert(args_view(cfg.files@) =~= seq![seq!['-']]);
                    }
                } else {
                    cfg.files = rest;
                }
                return Ok(Command::Execute(cfg));
            },
            Ok(Some(p)) => {
                proof {
                    crate::cmdline::lemma_step_opt_index(args_view(args@), option_table(), st);
                }
                let cell = &opts[p.index];
                let arg: String = match &p.arg {
                    Some(a) => copy_string(a),
                    None => String::new(),
                };
                proof {
                    assert(arg@ == arg_or_empty(opt_view(p.arg)));
                }
                match cell.option_code {
                    OptionCode::Verbose => {
                        match get_int_arg(cell, arg.as_str()) {
                            Ok(v) => {
                                sess.verbose = saturating_i32(v);
                            },
                            Err(d) => {
                                return Err(d);
                            },
                        }
                    },
                    OptionCode::Help => {
                        let h = print_help();
                        push_str(&mut sess.stdout, h.as_str());
                        return Ok(Command::Exit(0));
                    },
                    OptionCode::Version => {
                        push_str(&mut sess.stdout, "E ");
                        push_str(&mut sess.stdout, VERSION);
                        push_str(&mut sess.stdout, " ");
                        push_str(&mut sess.stdout, E_NICKNAME);
                        push_str(&mut sess.stdout, "\n");
                        return Ok(Command::Exit(0));
                    },
                    OptionCode::Output => {
                        cfg.output_file = Some(arg);
                    },
                    OptionCode::Server => {
                        cfg.server = arg;
                    },
                    OptionCode::Port => {
                        match parse_port(cell, arg.as_str(), &mut sess.stderr) {
                            Ok(v) => {
                                cfg.port = v;
                            },
                            Err(d) => {
                                return Err(d);
                            },
                        }
                    },
                }
                proof {
                    let sc = scan_from(args_view(args@), option_table(), st);
                    let tail = scan_from(args_view(args@), option_table(), state.state());
                    assert(sc.opts == seq![(p.index as int, opt_view(p.arg))].add(tail.opts));
                    assert(sc.opts.drop_first() =~= tail.opts);
                }
            },
        }
    }
}

/// Where the client stands in its dialogue with the server.
#[derive(Clone, Copy, Debug, PartialEq, Eq, Structural)]
pub enum ClientPhase {
    WaitReady,
    WaitResult,
    Done,
}

/// One message from the server: the client echoes it as "% Server: <msg>";
/// on "ready" it sends "add", the problem and "prove"; "result" ends the
/// dialogue.
pub open spec fn client_step(phase: ClientPhase, msg: Seq<char>, problem: Seq<char>) -> (ClientPhase, Seq<char>, Seq<Seq<char>>) {
    match phase {
        ClientPhase::Done => (phase, Seq::empty(), Seq::empty()),
        ClientPhase::WaitReady => {
            let line = "% Server: "@ + msg + "\n"@;
            if msg == "ready"@ {
                (ClientPhase::WaitResult, line, seq!["add"@, problem, "prove"@])
            } else {
                (phase, line, Seq::empty())
            }
        },
        ClientPhase::WaitResult => {
            let line = "% Server: "@ + msg + "\n"@;
            if msg == "result"@ {
                (ClientPhase::Done, line, Seq::empty())
            } else {
                (phase, line, Seq::empty())
            }
        },
    }
}

/// The dialogue's steps over a sequence of server messages: the final
/// phase, what was echoed, and what was sent.
pub open spec fn client_fold(phase: ClientPhase, msgs: Seq<Seq<char>>, problem: Seq<char>) -> (ClientPhase, Seq<char>, Seq<Seq<char>>)
    decreases msgs.len(),
{
    if msgs.len() == 0 {
        (phase, Seq::empty(), Seq::empty())
    } else {
        let (p1, o1, s1) = client_fold(phase, msgs.drop_last(), problem);
        let (p2, o2, s2) = client_step(p1, msgs.last(), problem);
        (p2, o1 + o2, s1 + s2)
    }
}

/// Whatever the server sends, the client sends the problem at most once:
/// nothing until the server is ready, then "add", the problem and "prove",
/// and nothing after that.
pub proof fn lemma_problem_sent_once(msgs: Seq<Seq<char>>, problem: Seq<char>)
    ensures
        ({
            let (p, o, s) = client_fold(ClientPhase::WaitReady, msgs, problem);
            ||| p == ClientPhase::WaitReady && s == Seq::<Seq<char>>::empty()
            ||| p != ClientPhase::WaitReady && s == seq!["add"@, problem, "prove"@]
        }),
    decreases msgs.len(),
{
    if msgs.len() > 0 {
        lemma_problem_sent_once(msgs.drop_last(), problem);
        let (p1, o1, s1) = client_fold(ClientPhase::WaitReady, msgs.drop_last(), problem);
        let (p2, o2, s2) = client_step(p1, msgs.last(), problem);
        if p1 == ClientPhase::WaitReady {
            assert(s1 + s2 =~= s2);
        } else {
            assert(s2 =~= Seq::<Seq<char>>::empty());
            assert(s1 + s2 =~= s1);
        }
    }
}

/// One message from the server (see `client_step`); the echo is appended to
/// `output` and the messages to send to `sent`.
pub fn client_receive(phase: ClientPhase, msg: &str, problem: &str, output: &mut String, sent: &mut Vec<String>) -> (p: ClientPhase)
    ensures
        ({
            let (p2, o2, s2) = client_step(phase, msg@, problem@);
            &&& p == p2
            &&& final(output)@ == old(output)@ + o2
            &&& args_view(final(sent)@) == args_view(old(sent)@) + s2
        }),
{
    let ghost s0 = sent@;
    match phase {
        ClientPhase::Done => {
            proof {
                assert(args_view(sent@) =~= args_view(s0) + Seq::<Seq<char>>::empty());
            }
            phase
        },
        ClientPhase::WaitReady => {
            push_str(output, "% Server: ");
            push_str(output, msg);
            push_str(output, "\n");
            if same_text(msg, "ready") {
                sent.push(owned("add"));
                sent.push(owned(problem));
                sent.push(owned("prove"));
                proof {
                    assert(args_view(sent@) =~= args_view(s0) + seq!["add"@, problem@, "prove"@]);
                }
                ClientPhase::WaitResult
            } else {
                proof {
                    assert(args_view(sent@) =~= args_view(s0) + Seq::<Seq<char>>::empty());
                }
                phase
            }
        },
        ClientPhase::WaitResult => {
            push_str(output, "% Server: ");
            push_str(output, msg);
            push_str(output, "\n");
            proof {
                assert(args_view(sent@) =~= args_view(s0) + Seq::<Seq<char>>::empty());
            }
            if same_text(msg, "result") {
                ClientPhase::Done
            } else {
                phase
            }
        },
    }
}

/// The messages a client sends when it connects.
pub fn client_start() -> (v: Vec<String>)
    ensures
        args_view(v@) == seq!["hello"@],
{
    let mut v: Vec<String> = Vec::new();
    v.push(owned("hello"));
    proof {
        assert(args_view(v@) =~= seq!["hello"@]);
    }
    v
}

/// A whole dialogue over the messages the server sent.
pub struct ClientTranscript {
    pub sent: Vec<String>,
    pub output: String,
    pub finished: bool,
}

/// The dialogue of a client with the problem `problem` against the given
/// server messages: "hello" first, then each message in turn until the
/// result.
pub fn execute_client_protocol(received: &Vec<String>, problem: &str) -> (t: ClientTranscript)
    ensures
        ({
            let (p, o, s) = client_fold(ClientPhase::WaitReady, args_view(received@), problem@);
            &&& args_view(t.sent@) == seq!["hello"@] + s
            &&& t.output@ == o
            &&& t.finished == (p == ClientPhase::Done)
        }),
{
    let mut sent = client_start();
    let mut output = String::new();
    let mut phase = ClientPhase::WaitReady;
    let mut i: usize = 0;
    while i < received.len()
        invariant
            i <= received.len(),
            ({
                let (p, o, s) = client_fold(ClientPhase::WaitReady, args_view(received@).take(i as int), problem@);
                &&& args_view(sent@) == seq!["hello"@] + s
                &&& output@ == o
                &&& phase == p
            }),
        decreases received.len() - i,
    {
        proof {
            let v = args_view(received@);
            assert(v.take(i + 1).drop_last() == v.take(i as int));
            assert(v.take(i + 1).last() == received@[i as int]@);
        }
        phase = client_receive(phase, received[i].as_str(), problem, &mut output, &mut sent);
        proof {
            let v = args_view(received@);
            let (p1, o1, s1) = client_fold(ClientPhase::WaitReady, v.take(i as int), problem@);
            let (p2, o2, s2) = client_step(p1, v.take(i + 1).last(), problem@);
            assert(seq!["hello"@] + s1 + s2 =~= seq!["hello"@] + (s1 + s2));
        }
        i = i + 1;
    }
    proof {
        assert(args_view(received@).take(received.len() as int) == args_view(received@));
    }
    ClientTranscript { sent, output, finished: phase == ClientPhase::Done }
}

/// The message for an input that cannot be read.
pub open spec fn read_error_text(name: Seq<char>, err: Seq<char>) -> Seq<char> {
    "Cannot read file "@ + name + ": "@ + err
}

/// The problem that the inputs make: their texts concatenated in order
/// (standard input for "-"), or the message for the first that cannot be
/// read.
pub open spec fn problem_of(names: Seq<Seq<char>>, stdin: Seq<char>, files: Seq<InputFile>) -> Result<Seq<char>, Seq<char>>
    decreases names.len(),
{
    if names.len() == 0 {
        Ok(Seq::empty())
    } else {
        match problem_of(names.drop_last(), stdin, files) {
            Err(m) => Err(m),
            Ok(p) => match lookup_input(names.last(), stdin, files) {
                Some(Ok(t)) => Ok(p + t),
                Some(Err(e)) => Err(read_error_text(names.last(), e)),
                None => Err(read_error_text(names.last(), "No such file or directory"@)),
            },
        }
    }
}

proof fn lemma_problem_stops(names: Seq<Seq<char>>, k: int, stdin: Seq<char>, files: Seq<InputFile>)
    requires
        0 <= k <= names.len(),
        problem_of(names.take(k), stdin, files) is Err,
    ensures
        problem_of(names, stdin, files) == problem_of(names.take(k), stdin, files),
    decreases names.len() - k,
{
    if k < names.len() {
        assert(names.take(k + 1).drop_last() =~= names.take(k));
        lemma_problem_stops(names, k + 1, stdin, files);
    } else {
        assert(names.take(k) =~= names);
    }
}

/// The problem: the inputs concatenated in order, standard input for "-"
/// (see `problem_of`).
pub fn load_problem_files(names: &Vec<String>, stdin: &String, files: &Vec<InputFile>) -> (r: Result<String, Diagnostic>)
    ensures
        match problem_of(args_view(names@), stdin@, files@) {
            Ok(p) => r matches Ok(x) && x@ == p,
            Err(m) => r matches Err(d) && d.code == ErrorCode::File && d.message@ == m,
        },
{
    let ghost ns = args_view(names@);
    let mut s = String::new();
    let mut i: usize = 0;
    proof {
        assert(ns.take(0) =~= Seq::<Seq<char>>::empty());
    }
    while i < names.len()
        invariant
            i <= names.len(),
            ns == args_view(names@),
            ns.len() == names.len(),
            problem_of(ns.take(i as int), stdin@, files@) == Ok::<Seq<char>, Seq<char>>(s@),
        decreases names.len() - i,
    {
        let name = names[i].as_str();
        proof {
            assert(ns.take(i + 1).drop_last() =~= ns.take(i as int));
            assert(ns.take(i + 1).last() == name@);
        }
        match input_text(name, stdin, files) {
            Some(Ok(t)) => {
                push_str(&mut s, t.as_str());
            },
            Some(Err(e)) => {
                let mut m = String::new();
                push_str(&mut m, "Cannot read file ");
                push_str(&mut m, name);
                push_str(&mut m, ": ");
                push_str(&mut m, e.as_str());
                proof {
                    lemma_problem_stops(ns, i + 1, stdin@, files@);
                }
                return Err(Diagnostic::new(ErrorCode::File, m));
            },
            None => {
                let mut m = String::new();
                push_str(&mut m, "Cannot read file ");
                push_str(&mut m, name);
                push_str(&mut m, ": No such file or directory");
                proof {
                    lemma_problem_stops(ns, i + 1, stdin@, files@);
                    assert(m@ =~= read_error_text(name@, "No such file or directory"@)) by {
                        reveal_strlit(": No such file or directory");
                        reveal_strlit(": ");
                        reveal_strlit("No such file or directory");
                    }
                }
                return Err(Diagnostic::new(ErrorCode::File, m));
            },
        }
        i = i + 1;
    }
    proof {
        assert(ns.take(names.len() as int) =~= ns);
    }
    Ok(s)
}

/// A run up to the connection: the options, then the problem (and, with a
/// verbosity above 0, the remark that it was read). Where the run goes on,
/// `problem` holds what to send, and the application connects to the
/// server and carries out the dialogue.
pub struct ClientRun {
    pub report: RunReport,
    pub config: Option<Config>,
    pub problem: Option<String>,
}

pub fn run(args: &Vec<String>, stdin: &String, files: &Vec<InputFile>) -> (c: ClientRun)
    ensures
        ({
            let (s, cmd) = options_outcome(args_view(args@), SessionView { verbose: 0, output_level: 1, stdout: Seq::empty(), stderr: Seq::empty() });
            &&& c.report.stdout@ == s.stdout
            &&& c.report.verbose == s.verbose
            &&& match cmd {
                Err((code, m)) => c.report.result matches Err(d) && d.code == code && d.message@ == m && c.problem is None
                    && c.report.stderr@ == s.stderr,
                Ok(CommandView::Exit(st)) => c.report.result matches Ok(x) && x == st && c.problem is None
                    && c.report.stderr@ == s.stderr,
                Ok(CommandView::Execute(cfg)) => (c.config matches Some(k) && k@ == cfg) && match problem_of(
                    cfg.files,
                    stdin@,
                    files@,
                ) {
                    Err(m) => (c.report.result matches Err(d) && d.code == ErrorCode::File && d.message@ == m)
                        && c.problem is None && c.report.stderr@ == s.stderr && !c.report.close_output,
                    Ok(p) => c.report.result == Ok::<u8, Diagnostic>(0) && (c.problem matches Some(x) && x@ == p)
                        && c.report.close_output && c.report.stderr@ == s.stderr + (if s.verbose > 0 {
                        PROGRAM_NAME@ + ": "@ + "Problem input read\n"@
                    } else {
                        Seq::empty()
                    }),
                },
            }
        }),
{
    let mut sess = Session::new(0, 1);
    let cmd = process_options(args, &mut sess);
    match cmd {
        Err(d) => ClientRun {
            report: RunReport { result: Err(d), stdout: sess.stdout, output: String::new(), output_file: None, stderr: sess.stderr, verbose: sess.verbose, output_level: sess.output_level, close_output: false },
            config: None,
            problem: None,
        },
        Ok(Command::Exit(st)) => ClientRun {
            report: RunReport { result: Ok(st), stdout: sess.stdout, output: String::new(), output_file: None, stderr: sess.stderr, verbose: sess.verbose, output_level: sess.output_level, close_output: false },
            config: None,
            problem: None,
        },
        Ok(Command::Execute(cfg)) => {
            let target = output_target(&cfg.output_file);
            match load_problem_files(&cfg.files, stdin, files) {
                Err(d) => ClientRun {
                    report: RunReport { result: Err(d), stdout: sess.stdout, output: String::new(), output_file: target, stderr: sess.stderr, verbose: sess.verbose, output_level: sess.output_level, close_output: false },
                    config: Some(cfg),
                    problem: None,
                },
                Ok(problem) => {
                    if sess.verbose > 0 {
                        push_str(&mut sess.stderr, PROGRAM_NAME);
                        push_str(&mut sess.stderr, ": ");
                        push_str(&mut sess.stderr, "Problem input read\n");
                    }
                    ClientRun {
                        report: RunReport { result: Ok(0), stdout: sess.stdout, output: String::new(), output_file: target, stderr: sess.stderr, verbose: sess.verbose, output_level: sess.output_level, close_output: true },
                        config: Some(cfg),
                        problem: Some(problem),
                    }
                },
            }
        },
    }
}

} // verus!
