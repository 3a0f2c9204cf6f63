use lib::diag::ErrorCode;
use lib::e_client;
use lib::e_deduction_server::{
    deduction_batch_spec, emit_run_report_global_output, options, parse_port, print_help, run,
    run_text_server_with, BatchOutputType, BatchProcessProblemReport, InteractiveRunReport, IoFormat,
    StructFofSpecBacktrackReport, DEFAULT_PROVER, DEFAULT_TOTAL_WTC_LIMIT, PROGRAM_NAME,
    STDOUT_SERVER_UNIMPLEMENTED_MESSAGE,
};
use lib::interactive::{CommandOutput, END_OF_BLOCK_TOKEN, HELP_MESSAGE, OK_SUCCESS_MESSAGE};
use lib::session::{finish, OUTPUT_CLOSE_ERROR};
use lib::tcp;
use lib::version::{E_NICKNAME, VERSION};

fn args(list: &[&str]) -> Vec<String> {
    list.iter().map(|s| s.to_string()).collect()
}

fn expected_help() -> String {
    "\ne_deduction_server {version} \"{nickname}\"\n\nUsage: e_deduction_server -p <port> [options] [files]\n\nThe E deduction server offers deduction services based on local or\nuploaded axiom sets via network. See README.server.\n\nOptions:\n\n   -h\n  --help\n    Print a short description of program usage and options.\n\n   -V\n  --version\n    Print the version number of the prover. Please include this with all bug\n    reports (if any).\n\n   -v\n  --verbose[=<arg>]\n    Verbose comments on the progress of the program. This differs from the\n    output level (below) in that technical information is printed to stderr,\n    while the output level determines which logical manipulations of the\n    clauses are printed to stdout. The short form or the long form without\n    the optional argument is equivalent to --verbose=1.\n\n   -p <arg>\n  --port=<arg>\n    The port on which the server will receive connections. Only effective\n    when interactive mode is on. If not given stdin/stdout will be used.\n\n   -s\n  --silent\n    Equivalent to --output-level=0.\n\n   -l <arg>\n  --output-level=<arg>\n    Select an output level, greater values imply more verbose output. Level 0\n    produces nearly no output, level 1 will output each clause as it is\n    processed, level 2 will output generating inferences, level 3 will give a\n    full protocol including rewrite steps and level 4 will include some\n    internal clause renamings. Levels >= 2 also imply PCL2 or TSTP formats\n    (which can be post-processed with suitable tools).\n\n   -w <arg>\n  --wtc-limit=<arg>\n    Set the global wall-clock limit for each batch (if any).\n\n   -L <arg>\n  --lib=<arg>\n    Set the axioms library directory of the server.\n\n\n\nCopyright 1998-2026 by Stephan Schulz, schulz@eprover.org,\nand the E contributors (see DOC/CONTRIBUTORS).\n\nThis program is a part of the distribution of the equational theorem\nprover E. You can find the latest version of the E distribution\nas well as additional information at\nhttp://www.eprover.org\n\nThis program is free software; you can redistribute it and/or modify\nit under the terms of the GNU General Public License as published by\nthe Free Software Foundation; either version 2 of the License, or\n(at your option) any later version.\n\nBug reports for the first-order prover should be sent to <schulz@eprover.org>.\nBug reports with respect to the HO-version should be sent to or at least copied to\n<jasmin.blanchette@gmail.com>.\n".replace("{version}", VERSION).replace("{nickname}", E_NICKNAME)
}

fn ok_output(job_name: &str) -> CommandOutput {
    CommandOutput {
        output: format!("proof for {job_name}\n"),
        status: OK_SUCCESS_MESSAGE,
    }
}

#[test]
fn help_and_version_exit_before_server_start() {
    let rep = run(&args(&[PROGRAM_NAME, "--help"]));
    let help_status = finish(&rep, true).expect("help");
    assert_eq!(help_status, ErrorCode::NO_ERROR.exit_status());
    assert_eq!(rep.stdout, expected_help());

    let rep = run(&args(&[PROGRAM_NAME, "-V"]));
    let version_status = finish(&rep, true).expect("version");
    assert_eq!(version_status, ErrorCode::NO_ERROR.exit_status());
    assert_eq!(rep.stdout, format!("{PROGRAM_NAME} {VERSION} {E_NICKNAME}\n"));
}

#[test]
fn help_and_version_exit_before_outclose_like_c() {
    let rep = run(&args(&[PROGRAM_NAME, "--help"]));
    let help_status = finish(&rep, false).expect("help does not final-flush stdout");
    assert_eq!(help_status, ErrorCode::NO_ERROR.exit_status());

    let rep = run(&args(&[PROGRAM_NAME, "--version"]));
    let version_status = finish(&rep, false).expect("version does not final-flush stdout");
    assert_eq!(version_status, ErrorCode::NO_ERROR.exit_status());
}

#[test]
fn parse_port_rejects_values_outside_u16_range() {
    let opts = options();
    let option = &opts[3];
    assert_eq!(parse_port(option, "0").unwrap(), 0);
    assert_eq!(parse_port(option, "65535").unwrap(), 65_535);

    let error = parse_port(option, "65536").unwrap_err();
    assert_eq!(error.code(), ErrorCode::USAGE_ERROR);
    assert_eq!(error.message(), "Port numbers must be between 0 and 65535");
}

#[test]
fn deduction_spec_matches_c_server_defaults() {
    let spec = deduction_batch_spec("custom-e", 44);

    assert_eq!(spec.executable, "custom-e");
    assert_eq!(spec.format, IoFormat::Tstp);
    assert_eq!(spec.category.as_deref(), Some("dummy"));
    assert_eq!(spec.total_wtc_limit, 44);
    assert_eq!(spec.res_proof, BatchOutputType::Desired);
}

#[test]
fn text_server_dispatches_immediate_commands_until_quit() {
    let input = "HELP\nLIST\nQUIT\n".to_string();
    let session = run_text_server_with(&input, Vec::new(), &Vec::new());

    assert_eq!(session.report.commands, 3);
    assert!(session.report.done);
    assert!(session.jobs.is_empty());
    let output = session.output;
    assert!(output.starts_with(HELP_MESSAGE));
    assert!(output.contains("No Axiom Sets currently in memory.\n"));
    assert!(output.contains("On Disk :\n"));
    assert!(output.ends_with(OK_SUCCESS_MESSAGE));
}

#[test]
fn text_server_reads_run_block_from_line_transport() {
    let input = format!("RUN job1\nfof(job_formula, axiom, q(a)).\n{END_OF_BLOCK_TOKEN}QUIT\n");
    let session = run_text_server_with(&input, Vec::new(), &vec![ok_output("job1")]);

    assert_eq!(session.report.commands, 2);
    assert!(session.report.done);
    assert_eq!(
        session.jobs,
        vec![(
            "job1".to_owned(),
            "fof(job_formula, axiom, q(a)).\n".to_owned()
        )]
    );
    assert_eq!(session.output, format!("proof for job1\n{OK_SUCCESS_MESSAGE}"));
}

#[test]
fn run_applies_output_and_verbose_globals_for_stdout_unimplemented_path() {
    let rep = run(&args(&[PROGRAM_NAME, "--verbose=3", "--output-level=4"]));
    let status = finish(&rep, true).expect("run");

    assert_eq!(status, ErrorCode::NO_ERROR.exit_status());
    assert_eq!(rep.verbose, 3);
    assert_eq!(rep.output_level, 4);
    assert_eq!(rep.stdout, STDOUT_SERVER_UNIMPLEMENTED_MESSAGE);
}

#[test]
fn run_reports_final_outclose_flush_failure_like_c() {
    let rep = run(&args(&[PROGRAM_NAME]));
    let error = finish(&rep, false).unwrap_err();

    assert_eq!(error.code(), ErrorCode::FILE_ERROR);
    assert_eq!(error.message(), OUTPUT_CLOSE_ERROR);
}

#[test]
fn run_report_adapter_emits_c_stdout_side_channel_and_returns_socket_output() {
    let report = InteractiveRunReport {
        command: CommandOutput {
            output: "socket output\n".to_owned(),
            status: OK_SUCCESS_MESSAGE,
        },
        process: BatchProcessProblemReport {
            solved: false,
            spawned: 0,
            completed: None,
            backtrack: StructFofSpecBacktrackReport {
                removed_clause_sets: 0,
                removed_formula_sets: 0,
                signature_backtrack_to: 0,
            },
        },
        global_output: "job1% global proof output\n".to_owned(),
    };
    let mut stdout = String::new();

    let command = emit_run_report_global_output(report, &mut stdout);

    assert_eq!(stdout, "job1% global proof output\n");
    assert_eq!(command.output, "socket output\n");
    assert_eq!(command.status, OK_SUCCESS_MESSAGE);
}

#[test]
fn e_deduction_server_print_help_preserves_full_c_text() {
    assert_eq!(print_help(), expected_help());
}

fn sent_strings(bytes: &[u8]) -> Vec<String> {
    let data = bytes.to_vec();
    let mut pos = 0;
    let mut result = Vec::new();
    while pos < data.len() {
        let (payload, next) = tcp::unpack(&data, pos).expect("sent message decodes");
        result.push(String::from_utf8(payload).expect("utf8 message"));
        pos = next;
    }
    result
}

#[test]
fn e_client_help_and_version_preserve_c_text() {
    let run = e_client::run(&args(&[e_client::PROGRAM_NAME, "--help"]), &"ignored".to_string(), &Vec::new());
    let status = finish(&run.report, true).expect("help");
    let help = run.report.stdout;
    assert_eq!(status, 0);
    assert!(help.starts_with(&format!("\nE {VERSION} \"{E_NICKNAME}\"\n\n")));
    assert!(help.contains("Usage: e_client [options] [files]"));
    assert!(help.contains("Read an problem specification"));
    assert!(help.contains("Copyright (C) 2011 by Stephan Schulz"));
    assert!(run.report.stderr.is_empty());

    let run = e_client::run(&args(&[e_client::PROGRAM_NAME, "-V"]), &"ignored".to_string(), &Vec::new());
    let status = finish(&run.report, true).expect("version");
    assert_eq!(status, 0);
    assert_eq!(run.report.stdout, format!("E {VERSION} {E_NICKNAME}\n"));
    assert!(run.report.stderr.is_empty());
}

#[test]
fn e_client_invalid_and_reserved_ports_match_c_surface() {
    let opts = e_client::options();
    let mut stderr = String::new();
    let error = e_client::parse_port(&opts[6], "70000", &mut stderr).unwrap_err();
    assert_eq!(error.code(), ErrorCode::USAGE_ERROR);
    assert_eq!(error.message(), "Port numbers must be between 0 and 65535");
    assert!(stderr.is_empty());

    let port = e_client::parse_port(&opts[6], "80", &mut stderr).expect("port accepted");
    assert_eq!(port, 80);
    assert_eq!(
        stderr,
        "e_client: Warning: Port numbers less than 1024 require root level access\n"
    );
}

#[test]
fn client_protocol_sends_c_sequence_and_echoes_until_expected_replies() {
    let mut wire = Vec::new();
    for message in ["booting", "ready", "working", "result"] {
        wire.extend_from_slice(&tcp::pack(message));
    }
    let received = sent_strings(&wire);

    let transcript = e_client::execute_client_protocol(&received, "cnf(c,axiom,p).\n");

    assert!(transcript.finished);
    assert_eq!(transcript.sent, ["hello", "add", "cnf(c,axiom,p).\n", "prove"]);
    assert_eq!(
        transcript.output,
        "% Server: booting\n% Server: ready\n% Server: working\n% Server: result\n"
    );
}

#[test]
fn print_help_mentions_deduction_server() {
    assert!(e_client::print_help().contains("connect to the E deduction server"));
}

#[test]
fn tcp_pack_helper_is_used_in_tests() {
    let data = tcp::pack("ready");
    assert_eq!(sent_strings(&data), ["ready"]);
}
