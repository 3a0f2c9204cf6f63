//! The line protocol of the deduction server: a client sends commands one
//! per line; a RUN command is followed by the job's problem text and a line
//! with the end-of-block token, after which the job runs and its result is
//! sent back.
use vstd::prelude::*;
use crate::text::{push_str, owned, same_text, chars_of, string_of_range};

verus! {

/// The line that ends a block of problem text.
pub const END_OF_BLOCK_TOKEN: &'static str = "GO\n";

/// The status line of a command that succeeded.
pub const OK_SUCCESS_MESSAGE: &'static str = "200 ok : success\n";

/// The status line of a command the server does not know.
pub const ERR_UNKNOWN_COMMAND_MESSAGE: &'static str = "400 err : unknown command\n";

/// The status line of a job for which no prover result came back.
pub const ERR_ERROR_MESSAGE: &'static str = "401 err : error\n";

/// The reply to HELP.
pub const HELP_MESSAGE: &'static str = "# Available commands:\n# HELP             - print this message\n# LIST             - list the axiom sets in memory and on disk\n# RUN <job>        - run a job; its problem follows, ended by a line GO\n# QUIT             - close the connection\n";

/// What a command produced: its output and its status line.
pub struct CommandOutput {
    pub output: String,
    pub status: &'static str,
}

/// How a session went: the commands read and whether QUIT ended it.
pub struct ServerReport {
    pub commands: u64,
    pub done: bool,
}

/// The first word of a line: up to the first blank or line end.
pub open spec fn word_end(line: Seq<char>, p: int) -> int
    decreases line.len() - p,
{
    if p < 0 || p >= line.len() || line[p] == ' ' || line[p] == '\n' || line[p] == '\r' {
        p
    } else {
        word_end(line, p + 1)
    }
}

/// The end of a line without its line break.
pub open spec fn text_end(line: Seq<char>) -> int {
    if line.len() > 0 && line.last() == '\n' {
        if line.len() > 1 && line[line.len() - 2] == '\r' {
            line.len() - 2
        } else {
            line.len() - 1
        }
    } else {
        line.len() as int
    }
}

/// The command word of a line.
pub open spec fn command_word(line: Seq<char>) -> Seq<char> {
    line.take(word_end(line, 0))
}

/// The argument of a command: after the first blank, without the line break.
pub open spec fn command_arg(line: Seq<char>) -> Seq<char> {
    let w = word_end(line, 0);
    let e = text_end(line);
    if w < e && line[w] == ' ' {
        line.subrange(w + 1, e)
    } else {
        Seq::empty()
    }
}

/// The reply to LIST: the axiom sets in memory (none), then those on disk.
pub open spec fn list_text(library: Seq<Seq<char>>) -> Seq<char> {
    "No Axiom Sets currently in memory.\n"@ + "On Disk :\n"@ + disk_text(library) + OK_SUCCESS_MESSAGE@
}

/// The axiom sets on disk, one per line.
pub open spec fn disk_text(library: Seq<Seq<char>>) -> Seq<char>
    decreases library.len(),
{
    if library.len() == 0 {
        Seq::empty()
    } else {
        disk_text(library.drop_last()) + library.last() + "\n"@
    }
}

/// Where the server stands: waiting for a command, or reading the problem
/// of a job.
pub enum Mode {
    Idle,
    ReadingJob(String, String),
}

pub enum ModeView {
    Idle,
    ReadingJob(Seq<char>, Seq<char>),
}

/// What the server does with a line: reply, run a job (its name and
/// problem text), or nothing.
pub enum Action {
    Reply(String),
    Run(String, String),
    Silent,
}

pub enum ActionView {
    Reply(Seq<char>),
    Run(Seq<char>, Seq<char>),
    Silent,
}

pub open spec fn action_view(a: Action) -> ActionView {
    match a {
        Action::Reply(s) => ActionView::Reply(s@),
        Action::Run(n, t) => ActionView::Run(n@, t@),
        Action::Silent => ActionView::Silent,
    }
}

/// The server's state.
pub struct TextServer {
    pub library: Vec<String>,
    pub mode: Mode,
    pub commands: u64,
    pub done: bool,
}

/// The view of the server's state.
pub struct ServerView {
    pub library: Seq<Seq<char>>,
    pub mode: ModeView,
    pub commands: int,
    pub done: bool,
}

impl TextServer {
    pub open spec fn view(&self) -> ServerView {
        ServerView {
            library: crate::cmdline::args_view(self.library@),
            mode: match self.mode {
                Mode::Idle => ModeView::Idle,
                Mode::ReadingJob(n, t) => ModeView::ReadingJob(n@, t@),
            },
            commands: self.commands as int,
            done: self.done,
        }
    }

    /// A server waiting for its first command; `library` names the axiom
    /// sets on disk.
    pub fn new(library: Vec<String>) -> (s: TextServer)
        ensures
            s.view() == (ServerView {
                library: crate::cmdline::args_view(library@),
                mode: ModeView::Idle,
                commands: 0,
                done: false,
            }),
    {
        TextServer { library, mode: Mode::Idle, commands: 0, done: false }
    }
}

/// One line of the session: the server's next state and what it does.
pub open spec fn server_step(st: ServerView, line: Seq<char>) -> (ServerView, ActionView) {
    if st.done {
        (st, ActionView::Silent)
    } else {
        match st.mode {
            ModeView::ReadingJob(name, text) => if line == END_OF_BLOCK_TOKEN@ {
                (ServerView { mode: ModeView::Idle, ..st }, ActionView::Run(name, text))
            } else {
                (ServerView { mode: ModeView::ReadingJob(name, text + line), ..st }, ActionView::Silent)
            },
            ModeView::Idle => {
                let w = command_word(line);
                let st1 = ServerView { commands: st.commands + 1, ..st };
                if w == "HELP"@ {
                    (st1, ActionView::Reply(HELP_MESSAGE@))
                } else if w == "LIST"@ {
                    (st1, ActionView::Reply(list_text(st.library)))
                } else if w == "QUIT"@ {
                    (ServerView { done: true, ..st1 }, ActionView::Silent)
                } else if w == "RUN"@ {
                    (ServerView { mode: ModeView::ReadingJob(command_arg(line), Seq::empty()), ..st1 }, ActionView::Silent)
                } else {
                    (st1, ActionView::Reply(ERR_UNKNOWN_COMMAND_MESSAGE@))
                }
            },
        }
    }
}

/// The server fed several lines in turn: its final state and what it did
/// for each line.
pub open spec fn feed_lines(st: ServerView, lines: Seq<Seq<char>>) -> (ServerView, Seq<ActionView>)
    decreases lines.len(),
{
    if lines.len() == 0 {
        (st, Seq::empty())
    } else {
        let (st2, a) = server_step(st, lines[0]);
        let (st3, rest) = feed_lines(st2, lines.drop_first());
        (st3, seq![a] + rest)
    }
}

/// The lines joined into one text.
pub open spec fn joined(lines: Seq<Seq<char>>) -> Seq<char>
    decreases lines.len(),
{
    if lines.len() == 0 {
        Seq::empty()
    } else {
        lines[0] + joined(lines.drop_first())
    }
}

/// `n` times nothing.
pub open spec fn silence(n: nat) -> Seq<ActionView> {
    Seq::new(n, |i: int| ActionView::Silent)
}

/// A job's problem is exactly the text between its RUN line and the first
/// GO line: while a job is read, the server answers nothing, and the GO line
/// runs the job with all lines read so far, in order, and makes the server
/// wait for the next command.
pub proof fn lemma_job_block(st: ServerView, lines: Seq<Seq<char>>)
    requires
        !st.done,
        st.mode is ReadingJob,
        forall|i: int| 0 <= i < lines.len() ==> #[trigger] lines[i] != END_OF_BLOCK_TOKEN@,
    ensures
        ({
            let (name, text) = (st.mode->ReadingJob_0, st.mode->ReadingJob_1);
            feed_lines(st, lines.push(END_OF_BLOCK_TOKEN@)) == (
                ServerView { mode: ModeView::Idle, ..st },
                silence(lines.len()).push(ActionView::Run(name, text + joined(lines))),
            )
        }),
    decreases lines.len(),
{
    let name = st.mode->ReadingJob_0;
    let text = st.mode->ReadingJob_1;
    let all = lines.push(END_OF_BLOCK_TOKEN@);
    if lines.len() == 0 {
        assert(all.drop_first() =~= Seq::<Seq<char>>::empty());
        assert(all[0] == END_OF_BLOCK_TOKEN@);
        let st1 = ServerView { mode: ModeView::Idle, ..st };
        assert(server_step(st, all[0]) == (st1, ActionView::Run(name, text)));
        assert(feed_lines(st1, all.drop_first()) == (st1, Seq::<ActionView>::empty()));
        assert(text + joined(lines) =~= text);
        assert(silence(0).push(ActionView::Run(name, text)) =~= seq![ActionView::Run(name, text)]);
        assert(seq![ActionView::Run(name, text)] + Seq::<ActionView>::empty() =~= seq![ActionView::Run(name, text)]);
    } else {
        let st2 = ServerView { mode: ModeView::ReadingJob(name, text + lines[0]), ..st };
        let tail = lines.drop_first();
        assert(all[0] == lines[0]);
        assert(lines[0] != END_OF_BLOCK_TOKEN@);
        assert(server_step(st, all[0]) == (st2, ActionView::Silent));
        assert(all.drop_first() =~= tail.push(END_OF_BLOCK_TOKEN@));
        assert forall|i: int| 0 <= i < tail.len() implies #[trigger] tail[i] != END_OF_BLOCK_TOKEN@ by {
            assert(tail[i] == lines[i + 1]);
        }
        lemma_job_block(st2, tail);
        assert(text + lines[0] + joined(tail) =~= text + joined(lines));
        assert(seq![ActionView::Silent] + silence(tail.len()).push(ActionView::Run(name, text + joined(lines)))
            =~= silence(lines.len()).push(ActionView::Run(name, text + joined(lines))));
    }
}

/// After QUIT the server does nothing more: whatever lines follow, it stays
/// as it is and answers none of them.
pub proof fn lemma_quit_is_final(st: ServerView, lines: Seq<Seq<char>>)
    requires
        st.done,
    ensures
        feed_lines(st, lines) == (st, silence(lines.len())),
    decreases lines.len(),
{
    if lines.len() > 0 {
        lemma_quit_is_final(st, lines.drop_first());
        assert(seq![ActionView::Silent] + silence((lines.len() - 1) as nat) =~= silence(lines.len()));
    } else {
        assert(silence(0) =~= Seq::<ActionView>::empty());
    }
}

fn word_end_exec(line: &Vec<char>) -> (w: usize)
    ensures
        w == word_end(line@, 0),
        w <= line.len(),
{
    let mut p: usize = 0;
    while p < line.len() && line[p] != ' ' && line[p] != '\n' && line[p] != '\r'
        invariant
            p <= line.len(),
            word_end(line@, 0) == word_end(line@, p as int),
        decreases line.len() - p,
    {
        p = p + 1;
    }
    p
}

fn text_end_exec(line: &Vec<char>) -> (e: usize)
    ensures
        e == text_end(line@),
{
    let n = line.len();
    if n > 0 && line[n - 1] == '\n' {
        if n > 1 && line[n - 2] == '\r' {
            n - 2
        } else {
            n - 1
        }
    } else {
        n
    }
}

fn list_reply(library: &Vec<String>) -> (s: String)
    ensures
        s@ == list_text(crate::cmdline::args_view(library@)),
{
    let mut s = String::new();
    push_str(&mut s, "No Axiom Sets currently in memory.\n");
    push_str(&mut s, "On Disk :\n");
    let ghost start = s@;
    let mut i: usize = 0;
    while i < library.len()
        invariant
            i <= library.len(),
            s@ == start + disk_text(crate::cmdline::args_view(library@).take(i as int)),
        decreases library.len() - i,
    {
        push_str(&mut s, library[i].as_str());
        push_str(&mut s, "\n");
        proof {
            let v = crate::cmdline::args_view(library@);
            assert(v.take(i + 1).drop_last() == v.take(i as int));
            assert(v.take(i + 1).last() == library@[i as int]@);
        }
        i = i + 1;
    }
    proof {
        let v = crate::cmdline::args_view(library@);
        assert(v.take(library.len() as int) == v);
    }
    push_str(&mut s, OK_SUCCESS_MESSAGE);
    s
}

impl TextServer {
    /// Takes one line of the session (see `server_step`).
    pub fn feed_line(&mut self, line: &str) -> (a: Action)
        requires
            old(self).commands < u64::MAX,
        ensures
            (final(self).view(), action_view(a)) == server_step(old(self).view(), line@),
    {
        if self.done {
            return Action::Silent;
        }
        let cs = chars_of(line);
        let in_job = match &self.mode {
            Mode::Idle => false,
            Mode::ReadingJob(_, _) => true,
        };
        if in_job {
            let is_end = same_text(line, END_OF_BLOCK_TOKEN);
            let mut mode = Mode::Idle;
            std::mem::swap(&mut mode, &mut self.mode);
            match mode {
                Mode::ReadingJob(name, mut text) => {
                    if is_end {
                        return Action::Run(name, text);
                    } else {
                        push_str(&mut text, line);
                        self.mode = Mode::ReadingJob(name, text);
                        return Action::Silent;
                    }
                },
                Mode::Idle => {
                    return Action::Silent;
                },
            }
        }
        let w = word_end_exec(&cs);
        let word = string_of_range(&cs, 0, w);
        self.commands = self.commands + 1;
        if same_text(word.as_str(), "HELP") {
            Action::Reply(owned(HELP_MESSAGE))
        } else if same_text(word.as_str(), "LIST") {
            Action::Reply(list_reply(&self.library))
        } else if same_text(word.as_str(), "QUIT") {
            self.done = true;
            Action::Silent
        } else if same_text(word.as_str(), "RUN") {
            let e = text_end_exec(&cs);
            let arg = if w < e && cs[w] == ' ' {
                string_of_range(&cs, w + 1, e)
            } else {
                String::new()
            };
            self.mode = Mode::ReadingJob(arg, String::new());
            Action::Silent
        } else {
            Action::Reply(owned(ERR_UNKNOWN_COMMAND_MESSAGE))
        }
    }
}

/// The end of the line that starts at `p`: after its newline, or the end.
pub open spec fn next_line_end(s: Seq<char>, p: int) -> int
    decreases s.len() - p,
{
    if p < 0 || p >= s.len() {
        s.len() as int
    } else if s[p] == '\n' {
        p + 1
    } else {
        next_line_end(s, p + 1)
    }
}

fn next_line_end_exec(s: &Vec<char>, p: usize) -> (e: usize)
    requires
        p < s.len(),
    ensures
        e == next_line_end(s@, p as int),
        p < e <= s.len(),
{
    let mut q = p;
    while q < s.len()
        invariant
            p <= q <= s.len(),
            next_line_end(s@, p as int) == next_line_end(s@, q as int),
        decreases s.len() - q,
    {
        if s[q] == '\n' {
            return q + 1;
        }
        q = q + 1;
    }
    s.len()
}

/// A line ends after its start and within the text.
pub proof fn lemma_next_line_end(s: Seq<char>, p: int)
    requires
        0 <= p < s.len(),
    ensures
        p < next_line_end(s, p) <= s.len(),
    decreases s.len() - p,
{
    if s[p] != '\n' {
        if p + 1 < s.len() {
            lemma_next_line_end(s, p + 1);
        } else {
            assert(next_line_end(s, p + 1) == s.len());
        }
    }
}

/// The reply to the `k`-th job: the prover's answer where one was given,
/// an error status otherwise.
pub open spec fn job_reply(answers: Seq<Seq<char>>, k: int) -> Seq<char> {
    if 0 <= k < answers.len() {
        answers[k]
    } else {
        ERR_ERROR_MESSAGE@
    }
}

/// The answers that a session hands to its jobs in turn: output, then status.
pub open spec fn answers_view(results: Seq<CommandOutput>) -> Seq<Seq<char>> {
    results.map_values(|r: CommandOutput| r.output@ + r.status@)
}

pub open spec fn jobs_view(jobs: Seq<(String, String)>) -> Seq<(Seq<char>, Seq<char>)> {
    jobs.map_values(|j: (String, String)| (j.0@, j.1@))
}

/// The session over `input` from position `p` on, line by line, until QUIT
/// or the end of the text, given the server's state and what was sent back
/// and run so far: the final state, everything sent back, and the jobs run.
pub open spec fn serve_from(
    input: Seq<char>,
    p: int,
    st: ServerView,
    out: Seq<char>,
    jobs: Seq<(Seq<char>, Seq<char>)>,
    answers: Seq<Seq<char>>,
) -> (ServerView, Seq<char>, Seq<(Seq<char>, Seq<char>)>)
    decreases input.len() - p,
{
    if p < 0 || p >= input.len() || st.done {
        (st, out, jobs)
    } else {
        let e = next_line_end(input, p);
        proof {
            lemma_next_line_end(input, p);
        }
        let (st2, a) = server_step(st, input.subrange(p, e));
        match a {
            ActionView::Reply(r) => serve_from(input, e, st2, out + r, jobs, answers),
            ActionView::Run(n, t) => serve_from(
                input,
                e,
                st2,
                out + job_reply(answers, jobs.len() as int),
                jobs.push((n, t)),
                answers,
            ),
            ActionView::Silent => serve_from(input, e, st2, out, jobs, answers),
        }
    }
}

/// A fresh server on the given library.
pub open spec fn fresh_server(library: Seq<Seq<char>>) -> ServerView {
    ServerView { library, mode: ModeView::Idle, commands: 0, done: false }
}

/// A session over a text: its report, what the server sent back, and the
/// jobs it ran (name and problem text), in order.
pub struct TextSession {
    pub report: ServerReport,
    pub output: String,
    pub jobs: Vec<(String, String)>,
}

/// Runs the line protocol over the lines of `input` until QUIT or the end
/// of the text. The k-th job run gets `results[k]` as the prover's answer
/// (its output and status are sent back); a job without one is answered
/// with an error status.
pub fn serve_text(input: &String, library: Vec<String>, results: &Vec<CommandOutput>) -> (s: TextSession)
    ensures
        s.jobs@.len() <= s.report.commands,
        ({
            let (st, out, jobs) = serve_from(
                input@,
                0,
                fresh_server(crate::cmdline::args_view(library@)),
                Seq::empty(),
                Seq::empty(),
                answers_view(results@),
            );
            &&& s.report.commands == st.commands
            &&& s.report.done == st.done
            &&& s.output@ == out
            &&& jobs_view(s.jobs@) == jobs
        }),
{
    let ghost goal = serve_from(
        input@,
        0,
        fresh_server(crate::cmdline::args_view(library@)),
        Seq::empty(),
        Seq::empty(),
        answers_view(results@),
    );
    let cs = chars_of(input.as_str());
    let mut server = TextServer::new(library);
    let mut output = String::new();
    let mut jobs: Vec<(String, String)> = Vec::new();
    let mut p: usize = 0;
    proof {
        assert(jobs_view(jobs@) =~= Seq::<(Seq<char>, Seq<char>)>::empty());
    }
    while p < cs.len() && !server.done
        invariant
            p <= cs.len(),
            server.commands <= p,
            cs@ == input@,
            jobs@.len() <= server.commands,
            server.view().mode is ReadingJob ==> jobs@.len() < server.commands,
            serve_from(input@, p as int, server.view(), output@, jobs_view(jobs@), answers_view(results@)) == goal,
        decreases cs.len() - p,
    {
        let e = next_line_end_exec(&cs, p);
        let line = string_of_range(&cs, p, e);
        let ghost was_reading = server.view().mode is ReadingJob;
        let ghost before = server.view();
        let ghost out_before = output@;
        let ghost jobs_before = jobs_view(jobs@);
        match server.feed_line(line.as_str()) {
            Action::Reply(r) => {
                push_str(&mut output, r.as_str());
            },
            Action::Run(name, text) => {
                let k = jobs.len();
                if k < results.len() {
                    push_str(&mut output, results[k].output.as_str());
                    push_str(&mut output, results[k].status);
                    proof {
                        assert(answers_view(results@)[k as int] == results@[k as int].output@
                            + results@[k as int].status@);
                        assert(output@ =~= out_before + job_reply(answers_view(results@), k as int));
                    }
                } else {
                    push_str(&mut output, ERR_ERROR_MESSAGE);
                }
                jobs.push((name, text));
                proof {
                    assert(jobs_view(jobs@) =~= jobs_before.push((name@, text@)));
                }
            },
            Action::Silent => {},
        }
        p = e;
    }

    TextSession { report: ServerReport { commands: server.commands, done: server.done }, output, jobs }
}

} // verus!
