//! Command-line options: the option tables of the tools, a getopt-style
//! scanner over the argument vector, integer arguments and the rendering of
//! the option list in help texts.
use vstd::prelude::*;
use crate::diag::{Diagnostic, ErrorCode};
use crate::text::{chars_of, push_char, push_str, string_of_range, copy_string};

verus! {

/// Whether an option takes no argument, an optional one or a required one.
#[derive(Clone, Copy, Debug, PartialEq, Eq, Structural)]
pub enum OptArgType {
    NoArg,
    OptArg,
    ReqArg,
}

/// One entry of an option table.
pub struct OptCell<C> {
    pub option_code: C,
    pub short: Option<char>,
    pub long: &'static str,
    pub arg_type: OptArgType,
    pub default: Option<&'static str>,
    pub desc: &'static str,
}

/// The default argument of an option (empty where it has none).
pub open spec fn default_text<C>(c: OptCell<C>) -> Seq<char> {
    match c.default {
        Some(d) => d@,
        None => Seq::empty(),
    }
}

/// Where the scan of an argument vector stands: the next argument, the
/// position inside a group of short options (0 outside of one), the
/// positional arguments gathered so far, and whether the scan is over.
pub struct ScanState {
    pub argi: int,
    pub sc: int,
    pub rest: Seq<Seq<char>>,
    pub done: bool,
}

/// What one step of the scan yields: an option (its index in the table and
/// its argument), the end of the options, or a usage error.
pub enum ScanEvent {
    Opt(int, Option<Seq<char>>),
    End,
    Fail(Seq<char>),
}

/// An argument that is not an option: it does not start with '-', or is "-".
pub open spec fn is_positional(a: Seq<char>) -> bool {
    a.len() == 0 || a[0] != '-' || a == seq!['-']
}

/// Gathers the positional arguments from `i` on, up to the next option.
pub open spec fn gather(args: Seq<Seq<char>>, i: int, rest: Seq<Seq<char>>) -> (int, Seq<Seq<char>>)
    decreases args.len() - i,
{
    if 0 <= i < args.len() && is_positional(args[i]) {
        gather(args, i + 1, rest.push(args[i]))
    } else {
        (i, rest)
    }
}

/// The first index `j >= from` of an option with short name `c`, or -1.
pub open spec fn find_short<C>(opts: Seq<OptCell<C>>, c: char, from: int) -> int
    decreases opts.len() - from,
{
    if from < 0 || from >= opts.len() {
        -1
    } else if opts[from].short == Some(c) {
        from
    } else {
        find_short(opts, c, from + 1)
    }
}

/// The first index `j >= from` of an option with long name `name`, or -1.
pub open spec fn find_long<C>(opts: Seq<OptCell<C>>, name: Seq<char>, from: int) -> int
    decreases opts.len() - from,
{
    if from < 0 || from >= opts.len() {
        -1
    } else if opts[from].long@ == name {
        from
    } else {
        find_long(opts, name, from + 1)
    }
}

/// The first index `j >= from` with `s[j] == c`, or -1.
pub open spec fn index_of(s: Seq<char>, c: char, from: int) -> int
    decreases s.len() - from,
{
    if from < 0 || from >= s.len() {
        -1
    } else if s[from] == c {
        from
    } else {
        index_of(s, c, from + 1)
    }
}

/// A scan state at argument `i`, position `k`.
pub open spec fn at(i: int, k: int, rest: Seq<Seq<char>>) -> ScanState {
    ScanState { argi: i, sc: k, rest, done: false }
}

/// One short option: the character at position `k` of argument `i`.
pub open spec fn short_step<C>(
    args: Seq<Seq<char>>,
    opts: Seq<OptCell<C>>,
    i: int,
    k: int,
    rest: Seq<Seq<char>>,
) -> (ScanState, ScanEvent) {
    let a = args[i];
    let c = a[k];
    let idx = find_short(opts, c, 0);
    if idx < 0 {
        (at(i, k, rest), ScanEvent::Fail("Unknown Option: -"@.push(c)))
    } else {
        let k2 = k + 1;
        let at_end = k2 >= a.len();
        let next = if at_end {
            at(i + 1, 0, rest)
        } else {
            at(i, k2, rest)
        };
        match opts[idx].arg_type {
            OptArgType::NoArg => (next, ScanEvent::Opt(idx, None)),
            OptArgType::OptArg => (next, ScanEvent::Opt(idx, Some(default_text(opts[idx])))),
            OptArgType::ReqArg => if !at_end {
                (at(i + 1, 0, rest), ScanEvent::Opt(idx, Some(a.subrange(k2, a.len() as int))))
            } else if i + 1 >= args.len() {
                (
                    at(i + 1, 0, rest),
                    ScanEvent::Fail("Option -"@.push(c) + " requires an argument"@),
                )
            } else {
                (at(i + 2, 0, rest), ScanEvent::Opt(idx, Some(args[i + 1])))
            },
        }
    }
}

/// One long option: argument `i`, which starts with "--".
pub open spec fn long_step<C>(
    args: Seq<Seq<char>>,
    opts: Seq<OptCell<C>>,
    i: int,
    rest: Seq<Seq<char>>,
) -> (ScanState, ScanEvent) {
    let a = args[i];
    let body = a.subrange(2, a.len() as int);
    let e = index_of(body, '=', 0);
    let name = if e >= 0 {
        body.subrange(0, e)
    } else {
        body
    };
    let idx = find_long(opts, name, 0);
    if idx < 0 {
        (at(i, 0, rest), ScanEvent::Fail("Unknown Option: "@ + a))
    } else {
        match opts[idx].arg_type {
            OptArgType::NoArg => if e >= 0 {
                (
                    at(i + 1, 0, rest),
                    ScanEvent::Fail("Option --"@ + name + " does not accept an argument"@),
                )
            } else {
                (at(i + 1, 0, rest), ScanEvent::Opt(idx, None))
            },
            OptArgType::OptArg => if e >= 0 {
                (
                    at(i + 1, 0, rest),
                    ScanEvent::Opt(idx, Some(body.subrange(e + 1, body.len() as int))),
                )
            } else {
                (at(i + 1, 0, rest), ScanEvent::Opt(idx, Some(default_text(opts[idx]))))
            },
            OptArgType::ReqArg => if e >= 0 {
                (
                    at(i + 1, 0, rest),
                    ScanEvent::Opt(idx, Some(body.subrange(e + 1, body.len() as int))),
                )
            } else if i + 1 >= args.len() {
                (
                    at(i + 1, 0, rest),
                    ScanEvent::Fail("Option --"@ + name + " requires an argument"@),
                )
            } else {
                (at(i + 2, 0, rest), ScanEvent::Opt(idx, Some(args[i + 1])))
            },
        }
    }
}

/// One step of the scan: the next option, the end of the options (all
/// remaining positional arguments gathered; "--" ends the options and makes
/// every later argument positional), or a usage error.
pub open spec fn step<C>(args: Seq<Seq<char>>, opts: Seq<OptCell<C>>, st: ScanState) -> (
    ScanState,
    ScanEvent,
) {
    if st.done {
        (st, ScanEvent::End)
    } else if st.sc > 0 {
        short_step(args, opts, st.argi, st.sc, st.rest)
    } else {
        let (i, rest) = gather(args, st.argi, st.rest);
        if i >= args.len() {
            (ScanState { argi: i, sc: 0, rest, done: true }, ScanEvent::End)
        } else if args[i] == seq!['-', '-'] {
            (
                ScanState {
                    argi: args.len() as int,
                    sc: 0,
                    rest: rest + args.subrange(i + 1, args.len() as int),
                    done: true,
                },
                ScanEvent::End,
            )
        } else if args[i][1] != '-' {
            short_step(args, opts, i, 1, rest)
        } else {
            long_step(args, opts, i, rest)
        }
    }
}

/// A state that the scan can be in.
pub open spec fn state_ok(args: Seq<Seq<char>>, st: ScanState) -> bool {
    &&& 0 <= st.argi <= args.len()
    &&& st.sc >= 0
    &&& st.sc > 0 ==> st.argi < args.len() && st.sc < args[st.argi].len() && !st.done
}

/// The state in which a scan starts: after the program name.
pub open spec fn init_state(args: Seq<Seq<char>>) -> ScanState {
    ScanState { argi: if args.len() > 0 { 1 } else { 0 }, sc: 0, rest: Seq::empty(), done: false }
}

/// The whole scan from a state on: the options met, in order, and then
/// either the positional arguments or the message of a usage error.
pub struct ScanOutcome {
    pub opts: Seq<(int, Option<Seq<char>>)>,
    pub end: Result<Seq<Seq<char>>, Seq<char>>,
}

pub open spec fn scan_measure(args: Seq<Seq<char>>, st: ScanState) -> int {
    if 0 <= st.argi < args.len() {
        args[st.argi].len() - st.sc
    } else {
        0
    }
}

/// The scan from state `st` on.
pub open spec fn scan_from<C>(args: Seq<Seq<char>>, opts: Seq<OptCell<C>>, st: ScanState) -> ScanOutcome
    decreases args.len() - st.argi, scan_measure(args, st),
    via scan_from_decreases::<C>
{
    if !state_ok(args, st) || st.done {
        ScanOutcome { opts: Seq::empty(), end: Ok(st.rest) }
    } else {
        let (st2, ev) = step(args, opts, st);
        match ev {
            ScanEvent::Opt(idx, a) => {
                let tail = scan_from(args, opts, st2);
                ScanOutcome { opts: seq![(idx, a)].add(tail.opts), end: tail.end }
            },
            ScanEvent::End => ScanOutcome { opts: Seq::empty(), end: Ok(st2.rest) },
            ScanEvent::Fail(m) => ScanOutcome { opts: Seq::empty(), end: Err(m) },
        }
    }
}

proof fn lemma_gather(args: Seq<Seq<char>>, i: int, rest: Seq<Seq<char>>)
    requires
        0 <= i <= args.len(),
    ensures
        i <= gather(args, i, rest).0 <= args.len(),
        gather(args, i, rest).0 < args.len() ==> !is_positional(args[gather(args, i, rest).0]),
    decreases args.len() - i,
{
    if i < args.len() && is_positional(args[i]) {
        lemma_gather(args, i + 1, rest.push(args[i]));
    }
}

proof fn lemma_find_short<C>(opts: Seq<OptCell<C>>, c: char, from: int)
    requires
        0 <= from,
    ensures
        find_short(opts, c, from) == -1 || (from <= find_short(opts, c, from) < opts.len()
            && opts[find_short(opts, c, from)].short == Some(c)),
    decreases opts.len() - from,
{
    if from < opts.len() && opts[from].short != Some(c) {
        lemma_find_short(opts, c, from + 1);
    }
}

proof fn lemma_find_long<C>(opts: Seq<OptCell<C>>, name: Seq<char>, from: int)
    requires
        0 <= from,
    ensures
        find_long(opts, name, from) == -1 || (from <= find_long(opts, name, from) < opts.len()
            && opts[find_long(opts, name, from)].long@ == name),
    decreases opts.len() - from,
{
    if from < opts.len() && opts[from].long@ != name {
        lemma_find_long(opts, name, from + 1);
    }
}

/// `index_of` finds the first occurrence of `c` from `from` on, or
/// reports -1 where there is none.
pub proof fn lemma_index_of(s: Seq<char>, c: char, from: int)
    requires
        0 <= from,
    ensures
        index_of(s, c, from) == -1 || (from <= index_of(s, c, from) < s.len() && s[index_of(
            s,
            c,
            from,
        )] == c),
        index_of(s, c, from) == -1 ==> forall|j: int| from <= j < s.len() ==> s[j] != c,
        index_of(s, c, from) >= 0 ==> forall|j: int| from <= j < index_of(s, c, from) ==> s[j] != c,
    decreases s.len() - from,
{
    if from < s.len() && s[from] != c {
        lemma_index_of(s, c, from + 1);
    }
}

/// Each step that yields an option leaves a state that the scan can be in,
/// further on in the argument vector.
pub proof fn lemma_step_progress<C>(args: Seq<Seq<char>>, opts: Seq<OptCell<C>>, st: ScanState)
    requires
        state_ok(args, st),
        !st.done,
        step(args, opts, st).1 is Opt,
    ensures
        state_ok(args, step(args, opts, st).0),
        !step(args, opts, st).0.done,
        (args.len() - st.argi > args.len() - step(args, opts, st).0.argi) || (args.len() - st.argi
            == args.len() - step(args, opts, st).0.argi && scan_measure(args, st) > scan_measure(
            args,
            step(args, opts, st).0,
        ) && scan_measure(args, step(args, opts, st).0) >= 0),
        args.len() - step(args, opts, st).0.argi >= 0,
{
    if st.sc == 0 {
        lemma_gather(args, st.argi, st.rest);
        let (i, rest) = gather(args, st.argi, st.rest);
        if i < args.len() && args[i] != seq!['-', '-'] && args[i][1] != '-' {
            let idx = find_short(opts, args[i][1], 0);
            lemma_find_short(opts, args[i][1], 0);
        }
    } else {
        lemma_find_short(opts, args[st.argi][st.sc], 0);
    }
}

/// An option that a step yields is an entry of the table.
pub proof fn lemma_step_opt_index<C>(args: Seq<Seq<char>>, opts: Seq<OptCell<C>>, st: ScanState)
    requires
        state_ok(args, st),
    ensures
        step(args, opts, st).1 matches ScanEvent::Opt(idx, a) ==> 0 <= idx < opts.len(),
{
    if !st.done {
        if st.sc == 0 {
            lemma_gather(args, st.argi, st.rest);
            let (i, rest) = gather(args, st.argi, st.rest);
            if i < args.len() && args[i] != seq!['-', '-'] {
                if args[i][1] != '-' {
                    lemma_find_short(opts, args[i][1], 0);
                } else {
                    let a = args[i];
                    let body = a.subrange(2, a.len() as int);
                    let e = index_of(body, '=', 0);
                    let name = if e >= 0 {
                        body.subrange(0, e)
                    } else {
                        body
                    };
                    lemma_find_long(opts, name, 0);
                }
            }
        } else {
            lemma_find_short(opts, args[st.argi][st.sc], 0);
        }
    }
}

#[via_fn]
proof fn scan_from_decreases<C>(args: Seq<Seq<char>>, opts: Seq<OptCell<C>>, st: ScanState) {
    if state_ok(args, st) && !st.done {
        let (st2, ev) = step(args, opts, st);
        if ev is Opt {
            lemma_step_progress(args, opts, st);
        }
    }
}

/// The whole scan of an argument vector (the first entry being the
/// program name).
pub open spec fn scan<C>(args: Seq<Seq<char>>, opts: Seq<OptCell<C>>) -> ScanOutcome {
    scan_from(args, opts, init_state(args))
}

proof fn lemma_gather_run(args: Seq<Seq<char>>, a: int, k: int, rest: Seq<Seq<char>>)
    requires
        0 <= a <= k <= args.len(),
        forall|i: int| a <= i < k ==> is_positional(#[trigger] args[i]),
        k == args.len() || !is_positional(args[k]),
    ensures
        gather(args, a, rest) == (k, rest + args.subrange(a, k)),
    decreases k - a,
{
    if a < k {
        lemma_gather_run(args, a + 1, k, rest.push(args[a]));
        assert(rest.push(args[a]) + args.subrange(a + 1, k) =~= rest + args.subrange(a, k));
    } else {
        assert(rest + args.subrange(a, k) =~= rest);
    }
}

/// Words that do not look like options are positional arguments, kept in
/// their order, and the first `--` ends the options: every word after it is
/// positional too. So where the words before the first `--` (or all of them)
/// are plain, the scan meets no option and hands on all other words in order.
pub proof fn lemma_scan_plain_words<C>(args: Seq<Seq<char>>, opts: Seq<OptCell<C>>, k: int)
    requires
        1 <= k <= args.len(),
        forall|i: int| 1 <= i < k ==> is_positional(#[trigger] args[i]),
        k == args.len() || args[k] == seq!['-', '-'],
    ensures
        scan(args, opts) == (ScanOutcome {
            opts: Seq::empty(),
            end: Ok(
                if k == args.len() {
                    args.subrange(1, k)
                } else {
                    args.subrange(1, k) + args.subrange(k + 1, args.len() as int)
                },
            ),
        }),
{
    let st = init_state(args);
    assert(k < args.len() ==> !is_positional(args[k]));
    lemma_gather_run(args, 1, k, Seq::empty());
    assert(Seq::<Seq<char>>::empty() + args.subrange(1, k) =~= args.subrange(1, k));
    assert(state_ok(args, st));
}

/// `find_long` finds the first entry with the name.
pub proof fn lemma_find_long_at<C>(opts: Seq<OptCell<C>>, name: Seq<char>, idx: int, from: int)
    requires
        0 <= from <= idx < opts.len(),
        opts[idx].long@ == name,
        forall|j: int| from <= j < idx ==> (#[trigger] opts[j]).long@ != name,
    ensures
        find_long(opts, name, from) == idx,
    decreases idx - from,
{
    if from < idx {
        lemma_find_long_at(opts, name, idx, from + 1);
    }
}

proof fn lemma_index_after_name(name: Seq<char>, m: Seq<char>)
    requires
        index_of(name, '=', 0) == -1,
    ensures
        index_of(name + seq!['='] + m, '=', 0) == name.len(),
{
    let b = name + seq!['='] + m;
    lemma_index_of(name, '=', 0);
    lemma_index_of(b, '=', 0);
    assert(b[name.len() as int] == '=');
    let e = index_of(b, '=', 0);
    if e != name.len() {
        if 0 <= e < name.len() {
            assert(b[e] == name[e]);
        }
    }
}

/// A command line of one long option with an argument after `=`: the scan
/// meets that option with that argument, and nothing else.
pub proof fn lemma_single_long_option<C>(args: Seq<Seq<char>>, opts: Seq<OptCell<C>>, name: Seq<char>, m: Seq<char>, idx: int)
    requires
        args.len() == 2,
        args[1] == seq!['-', '-'] + name + seq!['='] + m,
        index_of(name, '=', 0) == -1,
        0 <= idx < opts.len(),
        find_long(opts, name, 0) == idx,
        opts[idx].arg_type != OptArgType::NoArg,
    ensures
        scan(args, opts) == (ScanOutcome { opts: seq![(idx, Some(m))], end: Ok(Seq::<Seq<char>>::empty()) }),
{
    let a = args[1];
    let st = init_state(args);
    assert(!is_positional(a)) by {
        assert(a[0] == '-');
        assert(a.len() >= 3);
    }
    lemma_gather_run(args, 1, 1, Seq::empty());
    assert(Seq::<Seq<char>>::empty() + args.subrange(1, 1) =~= Seq::<Seq<char>>::empty());
    assert(a != seq!['-', '-']) by {
        assert(a.len() != 2);
    }
    assert(a[1] == '-');
    let body = a.subrange(2, a.len() as int);
    assert(body =~= name + seq!['='] + m);
    lemma_index_after_name(name, m);
    assert(body.subrange(0, name.len() as int) =~= name);
    assert(body.subrange(name.len() as int + 1, body.len() as int) =~= m);
    let st2 = at(2, 0, Seq::empty());
    assert(scan_from(args, opts, st2) == (ScanOutcome { opts: Seq::empty(), end: Ok(Seq::<Seq<char>>::empty()) }));
    assert(seq![(idx, Some(m))].add(Seq::<(int, Option<Seq<char>>)>::empty()) =~= seq![(idx, Some(m))]);
}

/// The text of each argument.
pub open spec fn args_view(args: Seq<String>) -> Seq<Seq<char>> {
    args.map_values(|s: String| s@)
}

/// The text of the arguments after one more is appended.
pub proof fn lemma_args_view_push(s: Seq<String>, x: String)
    ensures
        args_view(s.push(x)) == args_view(s).push(x@),
{
    assert(args_view(s.push(x)) =~= args_view(s).push(x@));
}

/// An option met by the scan, with its argument.
pub struct ParsedOpt {
    pub index: usize,
    pub arg: Option<String>,
}

/// The text of an optional argument.
pub open spec fn opt_view(a: Option<String>) -> Option<Seq<char>> {
    match a {
        Some(s) => Some(s@),
        None => None,
    }
}

/// The scanner over an argument vector.
pub struct CommandLineState {
    pub args: Vec<String>,
    pub chars: Vec<Vec<char>>,
    pub argi: usize,
    pub sc: usize,
    pub rest: Vec<String>,
    pub done: bool,
}

impl CommandLineState {
    /// The text of the arguments.
    pub open spec fn args_seq(&self) -> Seq<Seq<char>> {
        args_view(self.args@)
    }

    /// The state of the scan.
    pub open spec fn state(&self) -> ScanState {
        ScanState {
            argi: self.argi as int,
            sc: self.sc as int,
            rest: args_view(self.rest@),
            done: self.done,
        }
    }

    /// The scanner's invariant.
    pub open spec fn wf(&self) -> bool {
        &&& self.chars.len() == self.args.len()
        &&& forall|i: int| 0 <= i < self.args.len() ==> #[trigger] self.chars@[i]@ == self.args@[i]@
        &&& state_ok(self.args_seq(), self.state())
    }

    /// A scanner at the start of the argument vector `args` (whose first
    /// entry is the program name).
    pub fn new(args: &Vec<String>) -> (s: CommandLineState)
        ensures
            s.wf(),
            s.args_seq() == args_view(args@),
            s.state() == init_state(args_view(args@)),
    {
        let mut copy: Vec<String> = Vec::new();
        let mut chars: Vec<Vec<char>> = Vec::new();
        let mut i: usize = 0;
        while i < args.len()
            invariant
                i <= args.len(),
                copy.len() == i,
                chars.len() == i,
                forall|j: int| 0 <= j < i ==> #[trigger] copy@[j]@ == args@[j]@,
                forall|j: int| 0 <= j < i ==> #[trigger] chars@[j]@ == args@[j]@,
            decreases args.len() - i,
        {
            copy.push(copy_string(&args[i]));
            chars.push(chars_of(args[i].as_str()));
            i = i + 1;
        }
        let argi: usize = if args.len() > 0 {
            1
        } else {
            0
        };
        let s = CommandLineState { args: copy, chars, argi, sc: 0, rest: Vec::new(), done: false };
        proof {
            assert(s.args_seq() =~= args_view(args@));
            assert(args_view(s.rest@) =~= Seq::<Seq<char>>::empty());
        }
        s
    }

    /// The positional arguments gathered so far.
    pub fn remaining_args(&self) -> (r: Vec<String>)
        ensures
            args_view(r@) == self.state().rest,
    {
        let mut r: Vec<String> = Vec::new();
        let mut i: usize = 0;
        while i < self.rest.len()
            invariant
                i <= self.rest.len(),
                args_view(r@) == args_view(self.rest@).take(i as int),
            decreases self.rest.len() - i,
        {
            let x = copy_string(&self.rest[i]);
            proof {
                lemma_args_view_push(r@, x);
            }
            r.push(x);
            proof {
                assert(args_view(r@) =~= args_view(self.rest@).take(i as int + 1));
            }
            i = i + 1;
        }
        proof {
            assert(args_view(self.rest@).take(self.rest.len() as int) =~= args_view(self.rest@));
        }
        r
    }

    /// The next option, `None` at the end of the options, or a usage error.
    pub fn next_opt<C>(&mut self, opts: &Vec<OptCell<C>>) -> (r: Result<Option<ParsedOpt>, Diagnostic>)
        requires
            old(self).wf(),
        ensures
            final(self).wf(),
            final(self).args_seq() == old(self).args_seq(),
            ({
                let (st2, ev) = step(old(self).args_seq(), opts@, old(self).state());
                match ev {
                    ScanEvent::Opt(idx, a) => r matches Ok(Some(p)) && p.index == idx && opt_view(
                        p.arg,
                    ) == a && final(self).state() == st2,
                    ScanEvent::End => r matches Ok(None) && final(self).state() == st2,
                    ScanEvent::Fail(m) => r matches Err(d) && d.code == ErrorCode::Usage
                        && d.message@ == m,
                }
            }),
    {
        let ghost args = self.args_seq();
        if self.done {
            return Ok(None);
        }
        if self.sc > 0 {
            let k = self.sc;
            let i = self.argi;
            return self.short_option(opts, i, k);
        }
        let ghost st0 = self.state();
        while self.argi < self.args.len() && (self.chars[self.argi].len() == 0
            || self.chars[self.argi][0] != '-' || (self.chars[self.argi].len() == 1))
            invariant
                self.wf(),
                self.args_seq() == args,
                self.sc == 0,
                !self.done,
                st0.sc == 0,
                gather(args, st0.argi, st0.rest) == gather(args, self.argi as int, args_view(
                    self.rest@,
                )),
            decreases self.args.len() - self.argi,
        {
            proof {
                let a = args[self.argi as int];
                assert(a == self.chars@[self.argi as int]@);
                if a.len() == 1 && a[0] == '-' {
                    assert(a =~= seq!['-']);
                }
                assert(is_positional(a));
            }
            let a = copy_string(&self.args[self.argi]);
            proof {
                lemma_args_view_push(self.rest@, a);
            }
            self.rest.push(a);
            self.argi = self.argi + 1;
        }
        proof {
            if (self.argi as int) < args.len() {
                let a = args[self.argi as int];
                assert(a == self.chars@[self.argi as int]@);
                assert(!is_positional(a));
            }
        }
        if self.argi >= self.args.len() {
            self.done = true;
            return Ok(None);
        }
        let i = self.argi;
        if self.chars[i].len() == 2 && self.chars[i][0] == '-' && self.chars[i][1] == '-' {
            proof {
                assert(args[i as int] =~= seq!['-', '-']);
            }
            let mut j: usize = i + 1;
            let ghost base = args_view(self.rest@);
            while j < self.args.len()
                invariant
                    self.wf(),
                    self.args_seq() == args,
                    self.sc == 0,
                    i < j <= self.args.len(),
                    i == self.argi,
                    args_view(self.rest@) == base + args.subrange(i + 1, j as int),
                decreases self.args.len() - j,
            {
                let a = copy_string(&self.args[j]);
                proof {
                    lemma_args_view_push(self.rest@, a);
                }
                self.rest.push(a);
                proof {
                    assert(args_view(self.rest@) =~= base + args.subrange(i + 1, j + 1));
                }
                j = j + 1;
            }
            self.argi = self.args.len();
            self.done = true;
            return Ok(None);
        }
        proof {
            if args[i as int] == seq!['-', '-'] {
                assert(self.chars@[i as int]@ == args[i as int]);
            }
        }
        if self.chars[i][1] != '-' {
            self.short_option(opts, i, 1)
        } else {
            self.long_option(opts, i)
        }
    }

    fn short_option<C>(&mut self, opts: &Vec<OptCell<C>>, i: usize, k: usize) -> (r: Result<
        Option<ParsedOpt>,
        Diagnostic,
    >)
        requires
            old(self).wf(),
            !old(self).done,
            i < old(self).args.len(),
            0 < k < old(self).chars@[i as int].len(),
        ensures
            final(self).wf(),
            final(self).args_seq() == old(self).args_seq(),
            ({
                let (st2, ev) = short_step(
                    old(self).args_seq(),
                    opts@,
                    i as int,
                    k as int,
                    old(self).state().rest,
                );
                match ev {
                    ScanEvent::Opt(idx, a) => r matches Ok(Some(p)) && p.index == idx && opt_view(
                        p.arg,
                    ) == a && final(self).state() == st2,
                    ScanEvent::End => false,
                    ScanEvent::Fail(m) => r matches Err(d) && d.code == ErrorCode::Usage
                        && d.message@ == m,
                }
            }),
    {
        let ghost args = self.args_seq();
        proof {
            assert(self.chars@[i as int]@ == args[i as int]);
        }
        let c = self.chars[i][k];
        let found = find_short_exec(opts, c);
        if found.is_none() {
            let mut m = String::new();
            push_str(&mut m, "Unknown Option: -");
            push_char(&mut m, c);
            return Err(Diagnostic::new(ErrorCode::Usage, m));
        }
        let idx = found.unwrap();
        let len = self.chars[i].len();
        let k2 = k + 1;
        let at_end = k2 >= len;
        match opts[idx].arg_type {
            OptArgType::NoArg => {
                if at_end {
                    self.argi = i + 1;
                    self.sc = 0;
                } else {
                    self.argi = i;
                    self.sc = k2;
                }
                Ok(Some(ParsedOpt { index: idx, arg: None }))
            },
            OptArgType::OptArg => {
                if at_end {
                    self.argi = i + 1;
                    self.sc = 0;
                } else {
                    self.argi = i;
                    self.sc = k2;
                }
                let d = default_string(&opts[idx]);
                Ok(Some(ParsedOpt { index: idx, arg: Some(d) }))
            },
            OptArgType::ReqArg => {
                if !at_end {
                    let a = string_of_range(&self.chars[i], k2, len);
                    self.argi = i + 1;
                    self.sc = 0;
                    Ok(Some(ParsedOpt { index: idx, arg: Some(a) }))
                } else if i + 1 >= self.args.len() {
                    let mut m = String::new();
                    push_str(&mut m, "Option -");
                    push_char(&mut m, c);
                    push_str(&mut m, " requires an argument");
                    self.argi = i + 1;
                    self.sc = 0;
                    Err(Diagnostic::new(ErrorCode::Usage, m))
                } else {
                    let a = copy_string(&self.args[i + 1]);
                    self.argi = i + 2;
                    self.sc = 0;
                    Ok(Some(ParsedOpt { index: idx, arg: Some(a) }))
                }
            },
        }
    }

    fn long_option<C>(&mut self, opts: &Vec<OptCell<C>>, i: usize) -> (r: Result<
        Option<ParsedOpt>,
        Diagnostic,
    >)
        requires
            old(self).wf(),
            !old(self).done,
            old(self).sc == 0,
            i < old(self).args.len(),
            old(self).chars@[i as int].len() >= 2,
        ensures
            final(self).wf(),
            final(self).args_seq() == old(self).args_seq(),
            ({
                let (st2, ev) = long_step(old(self).args_seq(), opts@, i as int, old(self).state().rest);
                match ev {
                    ScanEvent::Opt(idx, a) => r matches Ok(Some(p)) && p.index == idx && opt_view(
                        p.arg,
                    ) == a && final(self).state() == st2,
                    ScanEvent::End => false,
                    ScanEvent::Fail(m) => r matches Err(d) && d.code == ErrorCode::Usage
                        && d.message@ == m,
                }
            }),
    {
        let ghost args = self.args_seq();
        proof {
            assert(self.chars@[i as int]@ == args[i as int]);
        }
        let len = self.chars[i].len();
        let ghost body = args[i as int].subrange(2, len as int);
        let mut e: usize = 2;
        while e < len && self.chars[i][e] != '='
            invariant
                self.wf(),
                i < self.args.len(),
                2 <= e <= len,
                len == self.chars@[i as int].len(),
                self.chars@[i as int]@ == args[i as int],
                body == args[i as int].subrange(2, len as int),
                index_of(body, '=', 0) == index_of(body, '=', e - 2),
            decreases len - e,
        {
            e = e + 1;
        }
        let has_eq = e < len;
        proof {
            if has_eq {
                assert(body[e - 2] == '=');
            }
            assert(index_of(body, '=', 0) == if has_eq { e - 2 } else { -1 });
        }
        let name = string_of_range(&self.chars[i], 2, e);
        proof {
            assert(name@ =~= if has_eq { body.subrange(0, e - 2) } else { body });
        }
        let found = find_long_exec(opts, &name);
        if found.is_none() {
            let mut m = String::new();
            push_str(&mut m, "Unknown Option: ");
            push_str(&mut m, self.args[i].as_str());
            return Err(Diagnostic::new(ErrorCode::Usage, m));
        }
        let idx = found.unwrap();
        proof {
            if has_eq {
                assert(args[i as int].subrange(e + 1, len as int) =~= body.subrange(
                    e - 2 + 1,
                    body.len() as int,
                ));
            }
        }
        match opts[idx].arg_type {
            OptArgType::NoArg => {
                self.argi = i + 1;
                if has_eq {
                    let mut m = String::new();
                    push_str(&mut m, "Option --");
                    push_str(&mut m, name.as_str());
                    push_str(&mut m, " does not accept an argument");
                    Err(Diagnostic::new(ErrorCode::Usage, m))
                } else {
                    Ok(Some(ParsedOpt { index: idx, arg: None }))
                }
            },
            OptArgType::OptArg => {
                self.argi = i + 1;
                if has_eq {
                    let a = string_of_range(&self.chars[i], e + 1, len);
                    Ok(Some(ParsedOpt { index: idx, arg: Some(a) }))
                } else {
                    let d = default_string(&opts[idx]);
                    Ok(Some(ParsedOpt { index: idx, arg: Some(d) }))
                }
            },
            OptArgType::ReqArg => {
                if has_eq {
                    let a = string_of_range(&self.chars[i], e + 1, len);
                    self.argi = i + 1;
                    Ok(Some(ParsedOpt { index: idx, arg: Some(a) }))
                } else if i + 1 >= self.args.len() {
                    self.argi = i + 1;
                    let mut m = String::new();
                    push_str(&mut m, "Option --");
                    push_str(&mut m, name.as_str());
                    push_str(&mut m, " requires an argument");
                    Err(Diagnostic::new(ErrorCode::Usage, m))
                } else {
                    let a = copy_string(&self.args[i + 1]);
                    self.argi = i + 2;
                    Ok(Some(ParsedOpt { index: idx, arg: Some(a) }))
                }
            },
        }
    }
}

fn default_string<C>(c: &OptCell<C>) -> (s: String)
    ensures
        s@ == default_text(*c),
{
    match c.default {
        Some(d) => String::from_str(d),
        None => String::new(),
    }
}

fn find_short_exec<C>(opts: &Vec<OptCell<C>>, c: char) -> (r: Option<usize>)
    ensures
        r matches Some(j) ==> j == find_short(opts@, c, 0) && j < opts.len() && opts@[j as int].short
            == Some(c),
        r is None ==> find_short(opts@, c, 0) == -1,
{
    let mut j: usize = 0;
    while j < opts.len()
        invariant
            j <= opts.len(),
            find_short(opts@, c, 0) == find_short(opts@, c, j as int),
        decreases opts.len() - j,
    {
        if opts[j].short == Some(c) {
            return Some(j);
        }
        j = j + 1;
    }
    None
}

fn find_long_exec<C>(opts: &Vec<OptCell<C>>, name: &String) -> (r: Option<usize>)
    ensures
        r matches Some(j) ==> j == find_long(opts@, name@, 0) && j < opts.len(),
        r is None ==> find_long(opts@, name@, 0) == -1,
{
    let mut j: usize = 0;
    while j < opts.len()
        invariant
            j <= opts.len(),
            find_long(opts@, name@, 0) == find_long(opts@, name@, j as int),
        decreases opts.len() - j,
    {
        if crate::text::same_text(opts[j].long, name.as_str()) {
            return Some(j);
        }
        j = j + 1;
    }
    None
}

} // verus!
