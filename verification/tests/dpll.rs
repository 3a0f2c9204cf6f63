use lib::diag::ErrorCode;
use lib::dpll::{memory_limit_warnings, print_help, run, PROGRAM_NAME};
use lib::session::{finish, stdout_text, RLimResult, RunReport, OUTPUT_CLOSE_ERROR};
use lib::version::VERSION;

fn args(list: &[&str]) -> Vec<String> {
    list.iter().map(|s| s.to_string()).collect()
}

fn report(list: &[&str], stdin_data: &str) -> RunReport {
    run(&args(list), &stdin_data.to_string(), &Vec::new(), -1, RLimResult::Success)
}

fn run_with_stdin(list: &[&str], stdin_data: &str) -> (u8, String, String, RunReport) {
    let rep = report(list, stdin_data);
    let status = finish(&rep, true).expect("umlaut-dpll run succeeds");
    let out = stdout_text(&rep);
    let err = rep.stderr.clone();
    (status, out, err, rep)
}

fn expected_help() -> String {
    "\n\numlaut-dpll {version}\n\nUsage: umlaut-dpll [options] [files]\n\nRead a set of ground clauses and try to refute (or satisfy) it.\nNot completed yet!\n\nOptions\n\n   -h\n  --help\n    Print a short description of program usage and options.\n\n  --version\n    Print the version number of the program.\n\n   -v\n  --verbose[=<arg>]\n    Verbose comments on the progress of the program by printing technical\n    information to stderr. The short form or the long form without the\n    optional argument is equivalent to --verbose=1.\n\n   -o <arg>\n  --output-file=<arg>\n    Redirect output into the named file.\n\n   -s\n  --silent\n    Equivalent to --output-level=0.\n\n   -l <arg>\n  --output-level=<arg>\n    Select an output level, greater values imply more verbose output. Level 0\n    produces nearly no output, level 1 produces minimal additional\n    output.Higher levels are without meaning in umlaut-dpll (I think).\n\n  --tptp-in\n    Parse TPTP format instead of lop (does not understand includes, as TPTP\n    include syntax is considered harmful).\n\n   -d\n  --dimacs\n    Print output in the DIMACS format suitable for many propositional\n    provers.\n\n   -m <arg>\n  --memory-limit=<arg>\n    Limit the memory the system may use. The argument is the allowed amount\n    of memory in MB. This option may not work everywhere, due to broken\n    and/or strange behaviour of setrlimit() in some UNIX implementations. It\n    does work under all tested versions of Solaris and GNU/Linux.\n\n  --cpu-limit[=<arg>]\n    Limit the cpu time the program should run. The optional argument is the\n    CPU time in seconds. The program will terminate immediately after\n    reaching the time limit, regardless of internal state. This option may\n    not work everywhere, due to broken and/or strange behaviour of\n    setrlimit() in some UNIX implementations. It does work under all tested\n    versions of Solaris, HP-UX and GNU/Linux. As a side effect, this option\n    will inhibit core file writing. The option without the optional argument\n    is equivalent to --cpu-limit=300.\n\n  --soft-cpu-limit[=<arg>]\n    Limit the cpu time spend in grounding. After the time expires, the prover\n    will print an partial system. The option without the optional argument is\n    equivalent to --soft-cpu-limit=310.\n\n\nCopyright (C) 2003 by Stephan Schulz, schulz@eprover.org \n\nThis program is a part of the support structure for the E equational\ntheorem prover. You can find the latest version of the E distribution\nas well as additional information at\nhttp://www.eprover.org\n\nThis program is free software; you can redistribute it and/or modify\nit under the terms of the GNU General Public License as published by\nthe Free Software Foundation; either version 2 of the License, or\n(at your option) any later version.\n\nThis program is distributed in the hope that it will be useful,\nbut WITHOUT ANY WARRANTY; without even the implied warranty of\nMERCHANTABILITY or FITNESS FOR A PARTICULAR PURPOSE.  See the\nGNU General Public License for more details.\n\nYou should have received a copy of the GNU General Public License\nalong with this program (it should be contained in the top level\ndirectory of the distribution in the file COPYING); if not, write to\nthe Free Software Foundation, Inc., 59 Temple Place, Suite 330,\nBoston, MA  02111-1307 USA\n\nThe original copyright holder can be contacted as\n\nStephan Schulz\nDHBW Stuttgart\nFakultaet Technik\nInformatik\nLerchenstrasse 1\n70174 Stuttgart\nGermany\n\n".replace("{version}", VERSION)
}

#[test]
fn help_and_version_preserve_c_text_and_version_typo() {
    let (status, help, stderr, _) = run_with_stdin(&[PROGRAM_NAME, "--help"], "not lop");
    assert_eq!(status, 0);
    assert_eq!(help, expected_help());
    assert!(stderr.is_empty());

    let (status, version, stderr, _) = run_with_stdin(&[PROGRAM_NAME, "--version"], "not lop");
    assert_eq!(status, 0);
    assert_eq!(version, format!("{PROGRAM_NAME} {VERSION}\n"));
    assert!(stderr.is_empty());
}

#[test]
fn short_v_is_verbose_not_version() {
    let (status, output, stderr, rep) = run_with_stdin(&[PROGRAM_NAME, "-v"], "p <- q.");
    assert_eq!(status, 0);
    assert_eq!(rep.verbose, 1);
    assert_eq!(output, "New clause: p<-q....accepted\n");
    assert!(stderr.is_empty());
}

#[test]
fn stdin_lop_run_prints_clause_acceptance_trace_and_keeps_dimacs_noop() {
    let (status, output, stderr, _) = run_with_stdin(&[PROGRAM_NAME, "--dimacs"], "p <- q. r <- r.");
    assert_eq!(status, 0);
    assert_eq!(
        output,
        "New clause: p<-q....accepted\nNew clause: r<-r....discarded (tautology)\n"
    );
    assert!(stderr.is_empty());
}

#[test]
fn contradictory_units_preserve_c_trace_only_no_solver_contract() {
    let (status, output, stderr, _) = run_with_stdin(&[PROGRAM_NAME], "p.\n<- p.\n");
    assert_eq!(status, 0);
    assert_eq!(output, "New clause: p<-....accepted\nNew clause: <-p....accepted\n");
    assert!(stderr.is_empty());
}

#[test]
fn tptp_input_clause_mode_uses_old_tptp_parser() {
    let (status, output, stderr, _) = run_with_stdin(
        &[PROGRAM_NAME, "--tptp-in"],
        "input_clause(c_0_1,axiom,[++p,--q]).",
    );
    assert_eq!(status, 0);
    assert_eq!(output, "New clause: p<-q....accepted\n");
    assert!(stderr.is_empty());
}

#[test]
fn trailing_non_clause_tokens_are_ignored_like_c() {
    let (status, output, stderr, _) = run_with_stdin(&[PROGRAM_NAME], "p. ,");
    assert_eq!(status, 0);
    assert_eq!(output, "New clause: p<-....accepted\n");
    assert!(stderr.is_empty());
}

#[test]
fn empty_procedural_tail_reports_c_diagnostic() {
    let rep = report(&[PROGRAM_NAME], "p :- .\n");
    let error = finish(&rep, true).expect_err("tail is empty");
    assert_eq!(error.code(), ErrorCode::SYNTAX_ERROR);
    assert_eq!(
        error.message(),
        "<stdin>:1:(Column 6):(just read '.'): Procedural rule or query needs at least one tail literal (Hey! I did not make this  syntax! -StS)"
    );
    assert!(stdout_text(&rep).is_empty());
    assert!(rep.stderr.is_empty());
}

#[test]
fn malformed_later_clause_preserves_prior_c_trace_output() {
    let rep = report(&[PROGRAM_NAME], "p.\nq(f(a).\n");
    let error = finish(&rep, true).expect_err("malformed second clause is reported");
    assert_eq!(error.code(), ErrorCode::SYNTAX_ERROR);
    assert_eq!(
        error.message(),
        "<stdin>:2:(Column 7):(just read '.'): Closing bracket (')') expected, but Fullstop ('.') read "
    );
    assert_eq!(stdout_text(&rep), "New clause: p<-....accepted\n");
    assert!(rep.stderr.is_empty());
}

#[test]
fn malformed_equation_preserves_exact_term_expectation() {
    let rep = report(&[PROGRAM_NAME], "p(a)=.\n");
    let error = finish(&rep, true).expect_err("missing equation right side is reported");
    assert_eq!(error.code(), ErrorCode::SYNTAX_ERROR);
    assert_eq!(
        error.message(),
        "<stdin>:1:(Column 6):(just read '.'): Identifier not terminating in a number or Identifier terminating in a number or Interpreted function/predicate name ('$name') or String enclosed in double quotes (\"\") or String enclosed in single quote ('') or Integer (sequence of decimal digits) convertible to an 'unsigned long' or Hyphen ('-') or Plus sign ('+') expected, but Fullstop ('.') read "
    );
    assert!(stdout_text(&rep).is_empty());
    assert!(rep.stderr.is_empty());
}

#[test]
fn output_dash_routes_trace_to_stdout_like_c() {
    let (status, output, stderr, _) = run_with_stdin(&[PROGRAM_NAME, "-o", "-"], "p.");
    assert_eq!(status, 0);
    assert_eq!(output, "New clause: p<-....accepted\n");
    assert!(stderr.is_empty());
}

#[test]
fn non_clause_lop_input_is_ignored_like_c() {
    let (status, output, stderr, _) = run_with_stdin(&[PROGRAM_NAME], ",\n");
    assert_eq!(status, 0);
    assert!(output.is_empty());
    assert!(stderr.is_empty());
}

#[test]
fn dpll_output_close_failure_uses_c_outclose_diagnostic() {
    let rep = report(&[PROGRAM_NAME], "p.\n");
    let error = finish(&rep, false).expect_err("flush failure is reported");
    assert_eq!(error.code(), ErrorCode::FILE_ERROR);
    assert_eq!(error.message(), OUTPUT_CLOSE_ERROR);
    assert!(rep.stderr.is_empty());
}

#[test]
fn silent_and_output_level_mutate_global_output_level() {
    let (status, _output, stderr, rep) = run_with_stdin(&[PROGRAM_NAME, "--silent"], "");
    assert_eq!(status, 0);
    assert_eq!(rep.output_level, 0);
    assert!(stderr.is_empty());

    let (status, _output, stderr, rep) = run_with_stdin(&[PROGRAM_NAME, "--output-level=3"], "");
    assert_eq!(status, 0);
    assert_eq!(rep.output_level, 3);
    assert!(stderr.is_empty());
}

#[test]
fn memory_limit_reduction_preserves_both_c_warning_descriptions() {
    assert!(memory_limit_warnings(RLimResult::Success).is_empty());
    assert!(memory_limit_warnings(RLimResult::Failed).is_empty());

    let warnings = memory_limit_warnings(RLimResult::Reduced);
    assert_eq!(warnings.len(), 2);
    assert_eq!(warnings[0].message(), "Had to reduce limit RLIMIT_DATA");
    assert_eq!(warnings[1].message(), "Had to reduce limit RLIMIT_AS");
    assert_eq!(
        warnings
            .iter()
            .map(|warning| warning.render_warning(PROGRAM_NAME))
            .collect::<String>(),
        "umlaut-dpll: Warning: Had to reduce limit RLIMIT_DATA\n\
         umlaut-dpll: Warning: Had to reduce limit RLIMIT_AS\n"
    );
}

#[test]
fn print_help_mentions_incomplete_c_tool_status() {
    assert_eq!(print_help(), expected_help());
}

fn files_report(list: &[&str], files: Vec<(&str, Result<&str, &str>)>) -> RunReport {
    let files: Vec<lib::session::InputFile> = files
        .into_iter()
        .map(|(n, c)| lib::session::InputFile {
            name: n.to_string(),
            content: c.map(|t| t.to_string()).map_err(|e| e.to_string()),
        })
        .collect();
    run(&args(list), &String::new(), &files, -1, RLimResult::Success)
}

#[test]
fn dpll_input_file_open_failure_uses_c_syserror_shape() {
    let rep = files_report(&[PROGRAM_NAME, "missing.lop"], vec![]);
    let error = finish(&rep, true).expect_err("missing input file is reported");
    assert_eq!(error.code(), ErrorCode::FILE_ERROR);
    assert_eq!(
        error.message(),
        format!("Cannot stat file missing.lop\n{PROGRAM_NAME}: No such file or directory")
    );
    assert!(stdout_text(&rep).is_empty());
    assert!(rep.stderr.is_empty());
}

#[test]
fn clauses_of_several_files_are_traced_in_order() {
    let rep = files_report(
        &[PROGRAM_NAME, "a.lop", "b.lop"],
        vec![("a.lop", Ok("p<-q.")), ("b.lop", Ok("r;s<-r."))],
    );
    assert_eq!(finish(&rep, true).expect("both files are read"), 0);
    assert_eq!(
        stdout_text(&rep),
        "New clause: p<-q....accepted\nNew clause: r;s<-r....discarded (tautology)\n"
    );
}

#[test]
fn a_failing_file_keeps_the_trace_of_those_before() {
    let rep = files_report(
        &[PROGRAM_NAME, "a.lop", "b.lop", "c.lop"],
        vec![("a.lop", Ok("p.")), ("b.lop", Err("Permission denied")), ("c.lop", Ok("q."))],
    );
    let error = finish(&rep, true).expect_err("the second file cannot be read");
    assert_eq!(error.code(), ErrorCode::FILE_ERROR);
    assert_eq!(error.message(), format!("Cannot stat file b.lop\n{PROGRAM_NAME}: Permission denied"));
    assert_eq!(rep.output, "New clause: p<-....accepted\n");
}

#[test]
fn tptp_clause_without_closing_square_brace_is_reported_at_the_bracket() {
    let rep = report(&[PROGRAM_NAME, "--tptp-in"], "input_clause(c1,axiom,[++p(a)).");
    let error = finish(&rep, true).expect_err("the literal list is not closed");
    assert_eq!(error.code(), ErrorCode::SYNTAX_ERROR);
    assert_eq!(
        error.message(),
        "<stdin>:1:(Column 30):(just read ')'): Closing square brace (']') expected, but Closing bracket (')') read "
    );
}

#[test]
fn character_that_starts_no_token_is_reported() {
    let rep = report(&[PROGRAM_NAME], "p@q.");
    let error = finish(&rep, true).expect_err("'@' starts no token");
    assert_eq!(error.code(), ErrorCode::SYNTAX_ERROR);
    assert_eq!(error.message(), "<stdin>:1:(Column 2):(just read '@'): Illegal character");
    assert!(stdout_text(&rep).is_empty());
}

#[test]
fn output_file_receives_trace() {
    let rep = files_report(&[PROGRAM_NAME, "-o", "/tmp/output", "/tmp/input"], vec![("/tmp/input", Ok("p."))]);
    assert_eq!(finish(&rep, true).expect("file run succeeds"), 0);
    assert_eq!(rep.output_file.as_deref(), Some("/tmp/output"));
    assert!(stdout_text(&rep).is_empty());
    assert!(rep.stderr.is_empty());
    assert_eq!(rep.output, "New clause: p<-....accepted\n");
}
