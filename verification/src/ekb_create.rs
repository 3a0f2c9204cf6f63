//! Creating an empty knowledge base: the options, and the steps that make
//! the directory and its files.
use vstd::prelude::*;
use crate::cmdline::{OptCell, OptArgType, CommandLineState, scan_from, step, args_view, opt_view, lemma_step_progress, scan_measure};
use crate::diag::{Diagnostic, ErrorCode, diag};
use crate::help::{get_real_arg, real_text, real_arg_error, get_int_arg, int_arg_value, int_arg_error, print_options, options_text};
use crate::session::{Session, SessionView, RunReport, saturate_i32, saturating_i32};
use crate::text::{push_str, push_char, push_padded, fmt_i64, chars_of, copy_string, owned, same_text, signed_decimal, pad_left};
use crate::version::{VERSION, FOOTER};

verus! {

/// The name under which the program reports.
pub const PROGRAM_NAME: &'static str = "ekb_create";

/// The name of the knowledge base unless another is given.
pub const DEFAULT_KB_NAME: &'static str = "E_KNOWLEDGE";

/// The message for a negative proportion below zero.
pub const NEG_PROPORTION_ERROR: &'static str = "Option -p (--negative-example-proportion)requires positive argument.}";

/// The message for more than one name.
pub const EXTRA_ARGS_ERROR: &'static str = "Only one non-option argument (name of the knowledge base) expected";

/// The initial contents of the signature file.
pub const SIGNATURE_TEXT: &'static str = "% Special function symbols that are not generalized.\n% You need to hand-hack this at the moment.\n";

/// The initial contents of the problems file.
pub const PROBLEMS_TEXT: &'static str = "% Example names and features. \n";

/// The initial contents of the clause patterns file.
pub const CLAUSEPATTERNS_TEXT: &'static str = "% Individual annotated patterns. \n";

/// The options of the program.
#[derive(Clone, Copy, Debug, PartialEq, Eq, Structural)]
pub enum OptionCode {
    Help,
    Version,
    Verbose,
    NegNo,
    NegProp,
}

/// The option table.
pub open spec fn option_table() -> Seq<OptCell<OptionCode>> {
    seq![
        OptCell {
            option_code: OptionCode::Help,
            short: Some('h'),
            long: "help",
            arg_type: OptArgType::NoArg,
            default: None,
            desc: "Print a short description of program usage and options.",
        },
        OptCell {
            option_code: OptionCode::Version,
            short: Some('V'),
            long: "version",
            arg_type: OptArgType::NoArg,
            default: None,
            desc: "Print the version number of the program.",
        },
        OptCell {
            option_code: OptionCode::Verbose,
            short: Some('v'),
            long: "verbose",
            arg_type: OptArgType::OptArg,
            default: Some("1"),
            desc: "Verbose comments on the progress of the program.",
        },
        OptCell {
            option_code: OptionCode::NegNo,
            short: Some('n'),
            long: "negative-example-number",
            arg_type: OptArgType::ReqArg,
            default: None,
            desc: "Set the (maximum) number of negative examples to pick if the proof listing does not describe a successful proof.",
        },
        OptCell {
            option_code: OptionCode::NegProp,
            short: Some('p'),
            long: "negative-example-proportion",
            arg_type: OptArgType::ReqArg,
            default: None,
            desc: "Set the maximum number of negative examples (expressed as a proportion of the positive examples) to pick if the proof listing does describe a successful proof",
        },
    ]
}

/// The option table.
pub fn options() -> (v: Vec<OptCell<OptionCode>>)
    ensures
        v@ == option_table(),
{
    let v = vec![
        OptCell {
            option_code: OptionCode::Help,
            short: Some('h'),
            long: "help",
            arg_type: OptArgType::NoArg,
            default: None,
            desc: "Print a short description of program usage and options.",
        },
        OptCell {
            option_code: OptionCode::Version,
            short: Some('V'),
            long: "version",
            arg_type: OptArgType::NoArg,
            default: None,
            desc: "Print the version number of the program.",
        },
        OptCell {
            option_code: OptionCode::Verbose,
            short: Some('v'),
            long: "verbose",
            arg_type: OptArgType::OptArg,
            default: Some("1"),
            desc: "Verbose comments on the progress of the program.",
        },
        OptCell {
            option_code: OptionCode::NegNo,
            short: Some('n'),
            long: "negative-example-number",
            arg_type: OptArgType::ReqArg,
            default: None,
            desc: "Set the (maximum) number of negative examples to pick if the proof listing does not describe a successful proof.",
        },
        OptCell {
            option_code: OptionCode::NegProp,
            short: Some('p'),
            long: "negative-example-proportion",
            arg_type: OptArgType::ReqArg,
            default: None,
            desc: "Set the maximum number of negative examples (expressed as a proportion of the positive examples) to pick if the proof listing does describe a successful proof",
        },
    ];
    proof {
        assert(v@ =~= option_table());
    }
    v
}

/// The settings of a run.
pub struct Config {
    pub basename: String,
    pub neg_proportion: Option<String>,
    pub neg_examples: i64,
}

/// The view of the settings of a run.
pub struct ConfigView {
    pub basename: Seq<char>,
    pub neg_proportion: Option<Seq<char>>,
    pub neg_examples: i64,
}

impl Config {
    pub open spec fn view(&self) -> ConfigView {
        ConfigView {
            basename: self.basename@,
            neg_proportion: opt_view(self.neg_proportion),
            neg_examples: self.neg_examples,
        }
    }
}

/// The settings before any option.
pub open spec fn default_config() -> ConfigView {
    ConfigView {
        basename: DEFAULT_KB_NAME@,
        neg_proportion: None,
        neg_examples: 0,
    }
}

/// What the options ask for: leave with a status (after help or version
/// text), or go on with the given settings.
pub enum Command {
    Exit(u8),
    Execute(Config),
}

pub enum CommandView {
    Exit(u8),
    Execute(ConfigView),
}

pub open spec fn command_view(r: Result<Command, Diagnostic>) -> Result<CommandView, (ErrorCode, Seq<char>)> {
    match r {
        Ok(Command::Exit(s)) => Ok(CommandView::Exit(s)),
        Ok(Command::Execute(c)) => Ok(CommandView::Execute(c.view())),
        Err(d) => Err((d.code, d.message@)),
    }
}

/// The outcome of one option: go on with the new session and settings, or
/// stop with a result.
pub enum OptStep {
    Go(SessionView, ConfigView),
    Stop(SessionView, Result<CommandView, (ErrorCode, Seq<char>)>),
}

/// The argument of an option, empty where it has none.
pub open spec fn arg_or_empty(a: Option<Seq<char>>) -> Seq<char> {
    match a {
        Some(x) => x,
        None => Seq::empty(),
    }
}


/// What one option does.
pub open spec fn apply_option(s: SessionView, c: ConfigView, cell: OptCell<OptionCode>, arg: Seq<char>) -> OptStep {
    match cell.option_code {
        OptionCode::Help => OptStep::Stop(SessionView { stdout: s.stdout + help_text(), ..s }, Ok(CommandView::Exit(0))),
        OptionCode::Version => OptStep::Stop(SessionView { stdout: s.stdout + PROGRAM_NAME@ + " "@ + VERSION@ + "\n"@, ..s }, Ok(CommandView::Exit(0))),
        OptionCode::Verbose => match int_arg_value(arg) {
            Some(v) => OptStep::Go(SessionView { verbose: saturate_i32(v as i64), ..s }, c),
            None => OptStep::Stop(s, Err((ErrorCode::Usage, int_arg_error(cell)))),
        },
        OptionCode::NegNo => match int_arg_value(arg) {
            Some(v) => OptStep::Go(s, ConfigView { neg_examples: v as i64, ..c }),
            None => OptStep::Stop(s, Err((ErrorCode::Usage, int_arg_error(cell)))),
        },
        OptionCode::NegProp => if real_text(arg) {
            OptStep::Go(s, ConfigView { neg_proportion: Some(arg), ..c })
        } else {
            OptStep::Stop(s, Err((ErrorCode::Usage, real_arg_error(cell))))
        },
    }
}


/// The options applied in order, then the positional arguments.
pub open spec fn options_fold(
    s: SessionView,
    c: ConfigView,
    opts: Seq<(int, Option<Seq<char>>)>,
    end: Result<Seq<Seq<char>>, Seq<char>>,
) -> (SessionView, Result<CommandView, (ErrorCode, Seq<char>)>)
    decreases opts.len(),
{
    if opts.len() == 0 {
        match end {
            Ok(rest) => (s, if rest.len() > 1 {
                Err((ErrorCode::Usage, EXTRA_ARGS_ERROR@))
            } else if rest.len() == 1 {
                Ok(CommandView::Execute(ConfigView { basename: rest[0], ..c }))
            } else {
                Ok(CommandView::Execute(c))
            }),
            Err(m) => (s, Err((ErrorCode::Usage, m))),
        }
    } else {
        match apply_option(s, c, option_table()[opts[0].0], arg_or_empty(opts[0].1)) {
            OptStep::Go(s2, c2) => options_fold(s2, c2, opts.drop_first(), end),
            OptStep::Stop(s2, r) => (s2, r),
        }
    }
}

/// What the command line asks for, and the session after it.
pub open spec fn options_outcome(args: Seq<Seq<char>>, s: SessionView) -> (SessionView, Result<CommandView, (ErrorCode, Seq<char>)>) {
    let sc = crate::cmdline::scan(args, option_table());
    options_fold(s, default_config(), sc.opts, sc.end)
}


/// The help text.
pub open spec fn help_text() -> Seq<char> {
    "\n\n"@ + PROGRAM_NAME@ + " "@ + VERSION@ + "\n\nUsage: "@ + PROGRAM_NAME@ + " [options] [<name>]\n\nCreate an empty knowledge base with name <name> for E.\n\n"@ + "Options\n\n"@ + options_text(option_table()) + "\n\n"@ + FOOTER@
}


/// The help text.
pub fn print_help() -> (s: String)
    ensures
        s@ == help_text(),
{
    let mut s = String::new();
    push_str(&mut s, "\n\n");
    push_str(&mut s, PROGRAM_NAME);
    push_str(&mut s, " ");
    push_str(&mut s, VERSION);
    push_str(&mut s, "\n\nUsage: ");
    push_str(&mut s, PROGRAM_NAME);
    push_str(&mut s, " [options] [<name>]\n\nCreate an empty knowledge base with name <name> for E.\n\n");
    let opts = options();
    let o = print_options(&opts, Some("Options\n\n"));
    push_str(&mut s, o.as_str());
    push_str(&mut s, "\n\n");
    push_str(&mut s, FOOTER);
    s
}


/// Reads the command line.
pub fn process_options(args: &Vec<String>, sess: &mut Session) -> (r: Result<Command, Diagnostic>)
    ensures
        (final(sess).view(), command_view(r)) == options_outcome(args_view(args@), old(sess).view()),
{
    let opts = options();
    let mut state = CommandLineState::new(args);
    let mut cfg = Config {
        basename: owned(DEFAULT_KB_NAME),
        neg_proportion: None,
        neg_examples: 0,
    };
    let ghost goal = options_outcome(args_view(args@), old(sess).view());
    proof {
        assert(cfg.basename@ == DEFAULT_KB_NAME@);
    }
    loop
        invariant
            state.wf(),
            state.args_seq() == args_view(args@),
            opts@ == option_table(),
            goal == options_outcome(args_view(args@), old(sess).view()),
            ({
                let sc = scan_from(args_view(args@), option_table(), state.state());
                options_fold(sess.view(), cfg.view(), sc.opts, sc.end) == goal
            }),
        decreases args.len() - state.state().argi, scan_measure(args_view(args@), state.state()),
    {
        let ghost st = state.state();
        proof {
            if !st.done {
                let (st2, ev) = step(args_view(args@), option_table(), st);
                if ev is Opt {
                    lemma_step_progress(args_view(args@), option_table(), st);
                }
            }
        }
        match state.next_opt(&opts) {
            Err(d) => {
                return Err(d);
            },
            Ok(None) => {
                let rest = state.remaining_args();
                if rest.len() > 1 {
                    return Err(diag(ErrorCode::Usage, EXTRA_ARGS_ERROR));
                }
                if rest.len() == 1 {
                    cfg.basename = copy_string(&rest[0]);
                }
                return Ok(Command::Execute(cfg));
            },
            Ok(Some(p)) => {
                proof {
                    crate::cmdline::lemma_step_opt_index(args_view(args@), option_table(), st);
                }
                let cell = &opts[p.index];
                let arg: String = match &p.arg {
                    Some(a) => copy_string(a),
                    None => String::new(),
                };
                proof {
                    assert(arg@ == arg_or_empty(opt_view(p.arg)));
                }
                match cell.option_code {
                    OptionCode::Help => {
                        let h = print_help();
                        push_str(&mut sess.stdout, h.as_str());
                        return Ok(Command::Exit(0));
                    },
                    OptionCode::Version => {
                        push_str(&mut sess.stdout, PROGRAM_NAME);
                        push_str(&mut sess.stdout, " ");
                        push_str(&mut sess.stdout, VERSION);
                        push_str(&mut sess.stdout, "\n");
                        return Ok(Command::Exit(0));
                    },
                    OptionCode::Verbose => {
                        match get_int_arg(cell, arg.as_str()) {
                            Ok(v) => {
                                sess.verbose = saturating_i32(v);
                            },
                            Err(d) => {
                                return Err(d);
                            },
                        }
                    },
                    OptionCode::NegNo => {
                        match get_int_arg(cell, arg.as_str()) {
                            Ok(v) => {
                                cfg.neg_examples = v;
                            },
                            Err(d) => {
                                return Err(d);
                            },
                        }
                    },
                    OptionCode::NegProp => {
                        if let Err(d) = get_real_arg(cell, arg.as_str()) {
                            return Err(d);
                        }
                        cfg.neg_proportion = Some(arg);
                    },
                }
                proof {
                    let sc = scan_from(args_view(args@), option_table(), st);
                    let tail = scan_from(args_view(args@), option_table(), state.state());
                    assert(sc.opts == seq![(p.index as int, opt_view(p.arg))].add(tail.opts));
                    assert(sc.opts.drop_first() =~= tail.opts);
                }
            },
        }
    }
}


/// A path inside the knowledge base directory: the directory's name, a
/// separator unless the name is empty or already ends in one, and the entry.
pub open spec fn kb_path(base: Seq<char>, entry: Seq<char>) -> Seq<char> {
    if base.len() == 0 {
        entry
    } else if base.last() == '/' {
        base + entry
    } else {
        base + seq!['/'] + entry
    }
}

/// See `kb_path`.
pub fn kb_path_exec(base: &str, entry: &str) -> (p: String)
    ensures
        p@ == kb_path(base@, entry@),
{
    let b = chars_of(base);
    let mut p = owned(base);
    if b.len() > 0 && b[b.len() - 1] != '/' {
        push_char(&mut p, '/');
    }
    push_str(&mut p, entry);
    p
}

/// The version of the knowledge-base layout, recorded in its description.
pub const KB_VERSION: &'static str = "0.1dev";

/// The description of a knowledge base: its layout version, the proportion
/// of negative examples as printed (`prop`), and the number of clauses taken
/// from a failed proof search, right-aligned in eight columns.
pub open spec fn description_text(prop: Seq<char>, neg_examples: i64) -> Seq<char> {
    "% E theorem prover knowledge base description\n"@ + "Version     : \""@ + KB_VERSION@ + "\"\n"@
        + "NegProp     : "@ + prop + "  % Negative example proportion (successful proof search)\n"@
        + "FailExamples: "@ + pad_left(signed_decimal(neg_examples as int), 8)
        + "  % Number of clauses from a failed proof search\n"@
}

/// The description of a knowledge base (see `description_text`).
pub fn kb_description(prop: &str, neg_examples: i64) -> (t: String)
    ensures
        t@ == description_text(prop@, neg_examples),
{
    let mut t = String::new();
    push_str(&mut t, "% E theorem prover knowledge base description\n");
    push_str(&mut t, "Version     : \"");
    push_str(&mut t, KB_VERSION);
    push_str(&mut t, "\"\n");
    push_str(&mut t, "NegProp     : ");
    push_str(&mut t, prop);
    push_str(&mut t, "  % Negative example proportion (successful proof search)\n");
    push_str(&mut t, "FailExamples: ");
    let n = fmt_i64(neg_examples);
    push_padded(&mut t, n.as_str(), 8);
    push_str(&mut t, "  % Number of clauses from a failed proof search\n");
    proof {
        assert(t@ =~= description_text(prop@, neg_examples));
    }
    t
}

/// One step of creating a knowledge base.
pub enum KbStep {
    /// A progress note, shown on standard error from verbose level 1 on.
    Note(String),
    /// Make a directory; a failure is reported with the given code.
    MakeDir(String, ErrorCode),
    /// Write a file with the given contents.
    WriteFile(String, String),
    /// Write the description of the knowledge base, which records the
    /// example settings.
    WriteDescription(String),
}

pub enum KbStepView {
    Note(Seq<char>),
    MakeDir(Seq<char>, ErrorCode),
    WriteFile(Seq<char>, Seq<char>),
    WriteDescription(Seq<char>),
}

impl KbStep {
    pub open spec fn view(&self) -> KbStepView {
        match self {
            KbStep::Note(m) => KbStepView::Note(m@),
            KbStep::MakeDir(p, c) => KbStepView::MakeDir(p@, *c),
            KbStep::WriteFile(p, t) => KbStepView::WriteFile(p@, t@),
            KbStep::WriteDescription(p) => KbStepView::WriteDescription(p@),
        }
    }
}

pub open spec fn steps_view(s: Seq<KbStep>) -> Seq<KbStepView> {
    s.map_values(|x: KbStep| x.view())
}

/// The steps that create the knowledge base `base`, in order.
pub open spec fn kb_steps(base: Seq<char>) -> Seq<KbStepView> {
    (if base == DEFAULT_KB_NAME@ {
        seq![KbStepView::Note("Using default name\n"@)]
    } else {
        Seq::empty()
    }) + seq![
        KbStepView::Note("Creating base directory...\n"@),
        KbStepView::MakeDir(base, ErrorCode::Syntax),
        KbStepView::Note("...successful.\nCreating files...\n"@),
        KbStepView::WriteDescription(kb_path(base, "description"@)),
        KbStepView::WriteFile(kb_path(base, "signature"@), SIGNATURE_TEXT@),
        KbStepView::WriteFile(kb_path(base, "problems"@), PROBLEMS_TEXT@),
        KbStepView::WriteFile(kb_path(base, "clausepatterns"@), CLAUSEPATTERNS_TEXT@),
        KbStepView::Note("...done.\nCreating subdirectory FILES...\n"@),
        KbStepView::MakeDir(kb_path(base, "FILES"@), ErrorCode::File),
        KbStepView::Note("...done.\nNew knowledge base complete.\n"@),
    ]
}

/// The steps that create the knowledge base `base`, in order.
pub fn creation_steps(base: &str) -> (v: Vec<KbStep>)
    ensures
        steps_view(v@) == kb_steps(base@),
{
    let mut v: Vec<KbStep> = Vec::new();
    let is_default = same_text(base, DEFAULT_KB_NAME);
    if is_default {
        v.push(KbStep::Note(owned("Using default name\n")));
    }
    let ghost start = v@;
    v.push(KbStep::Note(owned("Creating base directory...\n")));
    v.push(KbStep::MakeDir(owned(base), ErrorCode::Syntax));
    v.push(KbStep::Note(owned("...successful.\nCreating files...\n")));
    v.push(KbStep::WriteDescription(kb_path_exec(base, "description")));
    v.push(KbStep::WriteFile(kb_path_exec(base, "signature"), owned(SIGNATURE_TEXT)));
    v.push(KbStep::WriteFile(kb_path_exec(base, "problems"), owned(PROBLEMS_TEXT)));
    v.push(KbStep::WriteFile(kb_path_exec(base, "clausepatterns"), owned(CLAUSEPATTERNS_TEXT)));
    v.push(KbStep::Note(owned("...done.\nCreating subdirectory FILES...\n")));
    v.push(KbStep::MakeDir(kb_path_exec(base, "FILES"), ErrorCode::File));
    v.push(KbStep::Note(owned("...done.\nNew knowledge base complete.\n")));
    proof {
        let k = kb_steps(base@);
        let pre: Seq<KbStepView> = if base@ == DEFAULT_KB_NAME@ {
            seq![KbStepView::Note("Using default name\n"@)]
        } else {
            Seq::empty()
        };
        assert(steps_view(start) =~= pre);
        assert(steps_view(v@) =~= k);
    }
    v
}

/// The index in `kb_steps(base)` of the step that makes the base directory.
pub open spec fn base_dir_step(base: Seq<char>) -> int {
    if base == DEFAULT_KB_NAME@ {
        2
    } else {
        1
    }
}

/// Where a step writes or makes something: its path.
pub open spec fn step_path(step: KbStepView) -> Option<Seq<char>> {
    match step {
        KbStepView::Note(_) => None,
        KbStepView::MakeDir(p, _) => Some(p),
        KbStepView::WriteFile(p, _) => Some(p),
        KbStepView::WriteDescription(p) => Some(p),
    }
}

proof fn lemma_kb_path_prefix(base: Seq<char>, entry: Seq<char>)
    ensures
        base.is_prefix_of(kb_path(base, entry)),
{
    let p = kb_path(base, entry);
    assert(p.subrange(0, base.len() as int) =~= base);
}

/// Creating a knowledge base touches nothing outside it: every path that a
/// step makes or writes lies inside the base directory, and the base
/// directory is made before anything is written into it.
pub proof fn lemma_kb_steps_stay_inside(base: Seq<char>)
    ensures
        ({
            let st = kb_steps(base);
            let k = base_dir_step(base);
            &&& 0 <= k < st.len()
            &&& st[k] == KbStepView::MakeDir(base, ErrorCode::Syntax)
            &&& forall|i: int| 0 <= i < st.len() && (#[trigger] step_path(st[i])) is Some ==> base.is_prefix_of(
                step_path(st[i])->0,
            ) && k <= i
        }),
{
    lemma_kb_path_prefix(base, "description"@);
    lemma_kb_path_prefix(base, "signature"@);
    lemma_kb_path_prefix(base, "problems"@);
    lemma_kb_path_prefix(base, "clausepatterns"@);
    lemma_kb_path_prefix(base, "FILES"@);
    assert(base.is_prefix_of(base)) by {
        assert(base.subrange(0, base.len() as int) =~= base);
    }
}

/// A progress note as standard error shows it.
pub open spec fn note_text(msg: Seq<char>) -> Seq<char> {
    PROGRAM_NAME@ + ": "@ + msg
}

/// Shows a progress note on the session's standard error, from verbose
/// level 1 on.
pub fn show_note(sess: &mut Session, msg: &str)
    ensures
        final(sess).verbose == old(sess).verbose,
        final(sess).output_level == old(sess).output_level,
        final(sess).stdout@ == old(sess).stdout@,
        final(sess).stderr@ == if old(sess).verbose >= 1 {
            old(sess).stderr@ + note_text(msg@)
        } else {
            old(sess).stderr@
        },
{
    if sess.verbose >= 1 {
        push_str(&mut sess.stderr, PROGRAM_NAME);
        push_str(&mut sess.stderr, ": ");
        push_str(&mut sess.stderr, msg);
    }
}

/// How the failure of a step is reported, given the system's account of
/// the cause.
pub open spec fn step_error(step: KbStepView, base: Seq<char>, cause: Seq<char>) -> (ErrorCode, Seq<char>) {
    match step {
        KbStepView::MakeDir(_, code) => (code, "Cannot create base directory '"@ + base + "': "@ + cause),
        KbStepView::WriteFile(p, _) => (ErrorCode::File, "Cannot write file "@ + p + ": "@ + cause),
        KbStepView::WriteDescription(p) => (ErrorCode::File, "Cannot write file "@ + p + ": "@ + cause),
        KbStepView::Note(_) => (ErrorCode::File, cause),
    }
}

/// See `step_error`.
pub fn step_failure(step: &KbStep, base: &str, cause: &str) -> (d: Diagnostic)
    ensures
        (d.code, d.message@) == step_error(step.view(), base@, cause@),
{
    let mut m = String::new();
    match step {
        KbStep::MakeDir(_, code) => {
            push_str(&mut m, "Cannot create base directory '");
            push_str(&mut m, base);
            push_str(&mut m, "': ");
            push_str(&mut m, cause);
            Diagnostic { code: *code, message: m }
        },
        KbStep::WriteFile(p, _) => {
            push_str(&mut m, "Cannot write file ");
            push_str(&mut m, p.as_str());
            push_str(&mut m, ": ");
            push_str(&mut m, cause);
            Diagnostic { code: ErrorCode::File, message: m }
        },
        KbStep::WriteDescription(p) => {
            push_str(&mut m, "Cannot write file ");
            push_str(&mut m, p.as_str());
            push_str(&mut m, ": ");
            push_str(&mut m, cause);
            Diagnostic { code: ErrorCode::File, message: m }
        },
        KbStep::Note(_) => {
            push_str(&mut m, cause);
            Diagnostic { code: ErrorCode::File, message: m }
        },
    }
}

/// A run up to creating the knowledge base: the options; where the run goes
/// on, its settings and the steps that create the base.
pub fn run(args: &Vec<String>) -> (r: (RunReport, Option<(Config, Vec<KbStep>)>))
    ensures
        ({
            let (s, cmd) = options_outcome(args_view(args@), SessionView { verbose: 0, output_level: 1, stdout: Seq::empty(), stderr: Seq::empty() });
            &&& r.0.stdout@ == s.stdout
            &&& r.0.verbose == s.verbose
            &&& r.0.output_file is None
            &&& match cmd {
                Err((code, m)) => (r.0.result matches Err(d) && d.code == code && d.message@ == m) && r.1 is None,
                Ok(CommandView::Exit(st)) => (r.0.result matches Ok(x) && x == st) && r.1 is None,
                Ok(CommandView::Execute(cv)) => (r.0.result matches Ok(x) && x == 0) && (r.1 matches Some((c, st))
                    && c.view() == cv && steps_view(st@) == kb_steps(cv.basename)),
            }
        }),
{
    let mut sess = Session::new(0, 1);
    let cmd = process_options(args, &mut sess);
    let (result, plan) = match cmd {
        Err(d) => (Err(d), None),
        Ok(Command::Exit(st)) => (Ok(st), None),
        Ok(Command::Execute(c)) => {
            let st = creation_steps(c.basename.as_str());
            (Ok(0), Some((c, st)))
        },
    };
    (RunReport { result, stdout: sess.stdout, output: String::new(), output_file: None, stderr: sess.stderr, verbose: sess.verbose, output_level: sess.output_level, close_output: false }, plan)
}


} // verus!
