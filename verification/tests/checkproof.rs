use lib::checkproof::{print_help, proof_found, prover_args, prover_program, run, ProverType, PROGRAM_NAME};
use lib::diag::ErrorCode;
use lib::session::{finish, stdout_text, RunReport, OUTPUT_CLOSE_ERROR};
use lib::version::VERSION;

const ASSUMPTION_PROTOCOL: &str = "1 : : [++p(a)] : initial\n";
const PARTIAL_PROTOCOL: &str = "\
1 : : [++p(a)] : initial
2 : : [++q(a)] : 1
3 : : [++r(a)] : split(2)
";

fn args(list: &[&str]) -> Vec<String> {
    list.iter().map(|s| s.to_string()).collect()
}

fn report(list: &[&str], stdin_data: &str) -> RunReport {
    run(&args(list), &stdin_data.to_string(), &Vec::new(), &Vec::new())
}

fn run_with_stdin(list: &[&str], stdin_data: &str) -> (u8, String, String, RunReport) {
    let rep = report(list, stdin_data);
    let status = finish(&rep, true).expect("checkproof run succeeds");
    let out = stdout_text(&rep);
    let err = rep.stderr.clone();
    (status, out, err, rep)
}

#[test]
fn help_and_version_exit_before_processing_input() {
    let (status, help, stderr, _) = run_with_stdin(&[PROGRAM_NAME, "--help"], "not pcl");
    assert_eq!(status, 0);
    assert!(help.starts_with(&format!("\n\n{PROGRAM_NAME} {VERSION}\n\n")));
    assert!(help.contains("Usage: checkproof [options] [files]"));
    assert!(help.contains("Read an UPCL2 protocol and verify the inferences"));
    assert!(stderr.is_empty());

    let (status, version, stderr, _) = run_with_stdin(&[PROGRAM_NAME, "--version"], "not pcl");
    assert_eq!(status, 0);
    assert_eq!(version, format!("{PROGRAM_NAME} {VERSION}\n"));
    assert!(stderr.is_empty());
}

#[test]
fn short_v_is_not_a_version_option() {
    let rep = report(&[PROGRAM_NAME, "-V"], "");
    let error = finish(&rep, true).expect_err("C checkproof has no -V shorthand");
    assert_eq!(error.code(), ErrorCode::USAGE_ERROR);
    assert!(error.message().contains("Unknown Option: -V"));
    assert!(stdout_text(&rep).is_empty());
}

#[test]
fn default_eprover_checks_assumptions_without_external_process() {
    let (status, output, stderr, _) = run_with_stdin(&[PROGRAM_NAME], ASSUMPTION_PROTOCOL);
    assert_eq!(status, 0);
    assert!(stderr.is_empty());
    assert!(output.contains("% Checking       1 :  : [++p(a)] : initial\n"));
    assert!(output.contains("% Checked (by assumption)\n\n"));
    assert!(output.ends_with("% Successfully checked 1 of 1 steps (0 unchecked):  Proof verified!\n"));
}

#[test]
fn scheme_setheo_reports_unimplemented_steps_as_partial() {
    let (status, output, stderr, _) = run_with_stdin(&[PROGRAM_NAME, "-p", "scheme-setheo"], PARTIAL_PROTOCOL);
    assert_eq!(status, 0);
    assert!(stderr.is_empty());
    assert!(output.contains("% Checked (by assumption)\n\n"));
    assert!(output.contains("% Check not implemented, assuming true!\n\n"));
    assert!(output.ends_with(
        "% Successfully checked 1 of 3 steps (2 unchecked):  Proof partially verified!\n"
    ));
}

#[test]
fn silent_output_level_keeps_only_final_result() {
    let (status, output, stderr, _) = run_with_stdin(
        &[PROGRAM_NAME, "--silent", "-p", "scheme-setheo"],
        PARTIAL_PROTOCOL,
    );
    assert_eq!(status, 0);
    assert!(stderr.is_empty());
    assert!(!output.contains("% Checking"));
    assert_eq!(
        output,
        "% Successfully checked 1 of 3 steps (2 unchecked):  Proof partially verified!\n"
    );
}

#[test]
fn checkproof_output_dash_routes_to_stdout_like_c() {
    let (status, output, stderr, _) = run_with_stdin(
        &[PROGRAM_NAME, "-p", "scheme-setheo", "-o", "-"],
        PARTIAL_PROTOCOL,
    );
    assert_eq!(status, 0);
    assert!(stderr.is_empty());
    assert!(output.contains("% Checking       1 :  : [++p(a)] : initial\n"));
    assert!(output.ends_with(
        "% Successfully checked 1 of 3 steps (2 unchecked):  Proof partially verified!\n"
    ));
}

#[test]
fn verbose_and_output_level_options_set_global_compatible_state() {
    let (status, output, stderr, rep) = run_with_stdin(
        &[PROGRAM_NAME, "--verbose=3", "-l", "0"],
        ASSUMPTION_PROTOCOL,
    );
    assert_eq!(status, 0);
    assert_eq!(rep.verbose, 3);
    assert_eq!(
        output,
        "% Successfully checked 1 of 1 steps (0 unchecked):  Proof verified!\n"
    );
    assert!(stderr.is_empty());
}

#[test]
fn invalid_prover_type_reports_usage_error() {
    let rep = report(&[PROGRAM_NAME, "--prover-type=bad"], "");
    let error = finish(&rep, true).expect_err("invalid prover type is rejected");
    assert_eq!(error.code(), ErrorCode::USAGE_ERROR);
    assert!(error.message().contains("requires E, Otter, SPASS or scheme-setheo"));
    assert!(stdout_text(&rep).is_empty());
}

#[test]
fn trailing_input_reports_syntax_error() {
    let rep = report(&[PROGRAM_NAME], "1 : : [++p] : initial\ntrailing\n");
    let error = finish(&rep, true).expect_err("trailing input is rejected");
    assert_eq!(error.code(), ErrorCode::SYNTAX_ERROR);
    assert!(error.message().contains("No token"));
    assert!(stdout_text(&rep).is_empty());
    assert!(rep.stderr.is_empty());
}

#[test]
fn checkproof_output_close_failure_uses_c_outclose_diagnostic() {
    let rep = report(&[PROGRAM_NAME], ASSUMPTION_PROTOCOL);
    let error = finish(&rep, false).expect_err("flush failure is reported");
    assert_eq!(error.code(), ErrorCode::FILE_ERROR);
    assert_eq!(error.message(), OUTPUT_CLOSE_ERROR);
    assert!(rep.stderr.is_empty());
}

#[test]
fn help_text_preserves_c_usage_summary() {
    let rendered = print_help();
    assert!(rendered.contains("varity of external provers."));
    assert!(rendered.contains("empty proof protocol does not contain any buggy steps."));
    assert!(rendered.contains("Copyright 1998-2026 by Stephan Schulz"));
}

fn files_report(list: &[&str], files: Vec<(&str, Result<&str, &str>)>) -> RunReport {
    let files: Vec<lib::session::InputFile> = files
        .into_iter()
        .map(|(n, c)| lib::session::InputFile {
            name: n.to_string(),
            content: c.map(|t| t.to_string()).map_err(|e| e.to_string()),
        })
        .collect();
    run(&args(list), &String::new(), &files, &Vec::new())
}

#[test]
fn steps_of_several_files_are_checked_together() {
    let rep = files_report(
        &[PROGRAM_NAME, "a.pcl", "b.pcl"],
        vec![("a.pcl", Ok("1 : : [++p(a)] : initial\n")), ("b.pcl", Ok("2 : : [--p(a)] : initial\n"))],
    );
    assert_eq!(finish(&rep, true).expect("both files check"), 0);
    let out = stdout_text(&rep);
    assert!(out.contains("% Checking       1 :  : [++p(a)] : initial\n"));
    assert!(out.contains("% Checking       2 :  : [--p(a)] : initial\n"));
    assert!(out.ends_with("% Successfully checked 2 of 2 steps (0 unchecked):  Proof verified!\n"));
}

#[test]
fn missing_input_file_reports_open_failure() {
    let rep = files_report(&[PROGRAM_NAME, "absent.pcl"], vec![]);
    let error = finish(&rep, true).expect_err("a missing file fails");
    assert_eq!(error.code(), ErrorCode::FILE_ERROR);
    assert_eq!(
        error.message(),
        "Cannot open file absent.pcl for reading\ncheckproof: No such file or directory"
    );
    assert!(stdout_text(&rep).is_empty());
}

#[test]
fn unreadable_input_file_reports_reason() {
    let rep = files_report(&[PROGRAM_NAME, "locked.pcl"], vec![("locked.pcl", Err("Permission denied"))]);
    let error = finish(&rep, true).expect_err("an unreadable file fails");
    assert_eq!(error.code(), ErrorCode::FILE_ERROR);
    assert_eq!(error.message(), "Cannot open file locked.pcl for reading\ncheckproof: Permission denied");
}

#[test]
fn eprover_steps_are_checked_by_the_external_prover_answers() {
    let argv = args(&[PROGRAM_NAME]);
    let stdin = PARTIAL_PROTOCOL.to_string();
    let (config, problems) = lib::checkproof::external_checks(&argv, &stdin, &Vec::new()).expect("the protocol reads");
    assert_eq!(config.prover, ProverType::EProver);
    assert_eq!(problems.len(), 3);
    assert!(problems[0].is_none());
    assert_eq!(problems[1].as_deref(), Some("p(a)<-.\n<-q(a).\n"));
    assert_eq!(problems[2].as_deref(), Some("p(a)<-.\nq(a)<-.\n<-r(a).\n"));

    let rep = run(&argv, &stdin, &Vec::new(), &vec![false, true, true]);
    assert_eq!(finish(&rep, true).expect("the check runs to its end"), 0);
    assert!(rep.output.contains("% Checking       2 :  : [++q(a)] : 1\n% Checked (by external prover)\n\n"));
    assert!(rep.output.ends_with("% Successfully checked 3 of 3 steps (0 unchecked):  Proof verified!\n"));

    let rep = run(&argv, &stdin, &Vec::new(), &vec![false, true, false]);
    assert_eq!(finish(&rep, true).expect("a failed step still ends with the summary"), 0);
    assert!(rep.output.contains("% Checking       3 :  : [++r(a)] : split(2)\n% Check failed!\n\n"));
    assert!(rep.output.ends_with("% Successfully checked 2 of 3 steps (0 unchecked):  Failed to verify proof!\n"));
}

#[test]
fn goal_variables_become_constants_and_prover_output_is_read() {
    let argv = args(&[PROGRAM_NAME]);
    let stdin = "1 : : [++p(X)] : initial\n2 : : [++p(f(X,Y)),--q(_Z,a)] : 1\n".to_string();
    let (_, problems) = lib::checkproof::external_checks(&argv, &stdin, &Vec::new()).expect("the protocol reads");
    assert_eq!(problems[1].as_deref(), Some("p(X)<-.\n<-p(f(skX,skY)).\nq(sk_Z,a)<-.\n"));
    assert!(proof_found(ProverType::EProver, "# Auto-mode\n# Proof found!\n# SZS status Unsatisfiable\n"));
    assert!(!proof_found(ProverType::EProver, "# No proof found!\n"));
    assert!(proof_found(ProverType::Otter, "-------- PROOF --------\n"));
    assert!(proof_found(ProverType::Spass, "SPASS beiseite: Proof found.\n"));
    assert!(!proof_found(ProverType::Setheo, "# Proof found!"));
    assert_eq!(prover_program(ProverType::EProver, &None), "eprover");
    assert_eq!(prover_program(ProverType::Spass, &Some("/opt/SPASS".to_string())), "/opt/SPASS");
    assert_eq!(prover_args(ProverType::EProver, 10, "/tmp/p.lop"), ["--lop-in", "--cpu-limit=10", "/tmp/p.lop"]);
    assert_eq!(prover_args(ProverType::Otter, 10, "/tmp/p.lop"), ["/tmp/p.lop"]);
}

#[test]
fn dotted_identifiers_properties_and_nested_justifications_parse() {
    let protocol = "4.2 : proofstep,final : [++a=b,--c] : rw(4,[1,2.3])\n";
    let (status, output, _, _) = run_with_stdin(&[PROGRAM_NAME, "-p", "scheme-setheo"], protocol);
    assert_eq!(status, 0);
    assert!(output.contains("% Checking     4.2 : proofstep,final : [++a=b,--c] : rw(4,[1,2.3])\n"));
    assert!(output.ends_with("% Successfully checked 0 of 1 steps (1 unchecked):  Proof partially verified!\n"));
}

#[test]
fn justification_arguments_need_commas() {
    let rep = report(&[PROGRAM_NAME], "1 : : [++p(a)] : rw(1;2)\n");
    let error = finish(&rep, true).expect_err("';' does not separate arguments");
    assert_eq!(error.code(), ErrorCode::SYNTAX_ERROR);
    assert_eq!(
        error.message(),
        "-:1:(Column 22):(just read ';'): Comma (',') or Closing bracket (')') expected, but Semicolon (';') read "
    );
    assert!(stdout_text(&rep).is_empty());
}

#[test]
fn checkproof_input_file_open_failure_uses_c_syserror_shape() {
    let missing_path = "/tmp/missing-input";
    let rep = files_report(&[PROGRAM_NAME, missing_path], vec![]);
    let error = finish(&rep, true).expect_err("missing input file is reported");
    assert_eq!(error.code(), ErrorCode::FILE_ERROR);
    assert!(error.message().starts_with(&format!("Cannot open file {missing_path} for reading")));
    assert!(error.message().contains(&format!("\n{PROGRAM_NAME}: ")));
    assert!(stdout_text(&rep).is_empty());
    assert!(rep.stderr.is_empty());
}

#[test]
fn output_file_receives_trace_and_summary() {
    let rep = files_report(
        &[PROGRAM_NAME, "-p", "scheme-setheo", "-o", "/tmp/output", "/tmp/input"],
        vec![("/tmp/input", Ok(PARTIAL_PROTOCOL))],
    );
    assert_eq!(finish(&rep, true).expect("file run succeeds"), 0);
    assert_eq!(rep.output_file.as_deref(), Some("/tmp/output"));
    assert!(stdout_text(&rep).is_empty());
    assert!(rep.stderr.is_empty());
    assert!(rep.output.contains("% Checking       1 :  : [++p(a)] : initial\n"));
    assert!(rep.output.contains("% Successfully checked 1 of 3 steps"));
}
