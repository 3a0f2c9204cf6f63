use lib::diag::ErrorCode;
use lib::e_ltb_runner::{
    self, batch_run, parse_variant_child_args, remaining_total_wtc_limit, run_batches, BatchAnswer,
    BatchLimits, Config, LtbVariantMode, DEFAULT_PROVER, MISSING_LIMIT_ERROR,
};
use lib::e_server::{self, process_legacy_connection, LegacyServerReport, StreamEnd};
use lib::e_stratpar;
use lib::session::{finish, Session};
use lib::tcp;
use lib::version::{E_NICKNAME, VERSION};

fn args(list: &[&str]) -> Vec<String> {
    list.iter().map(|s| s.to_string()).collect()
}

#[test]
fn help_and_version_exit_before_processing_specs() {
    let (rep, _) = e_ltb_runner::run(&args(&[e_ltb_runner::PROGRAM_NAME, "--help"]));
    let help_status = finish(&rep, true).unwrap();
    assert_eq!(help_status, ErrorCode::NO_ERROR.exit_status());
    let help = rep.stdout;
    assert!(help.contains("Usage: e_ltb_runner [options] <spec> [<path-to-eprover>]"));
    assert!(help.contains("Run E on a CASC LTB batch specification."));

    let (rep, _) = e_ltb_runner::run(&args(&[e_ltb_runner::PROGRAM_NAME, "-V"]));
    let version_status = finish(&rep, true).unwrap();
    assert_eq!(version_status, ErrorCode::NO_ERROR.exit_status());
    assert!(rep.stdout.starts_with("e_ltb_runner "));
}

#[test]
fn variant_mode_tables_match_c_ltb_runner_globals() {
    assert_eq!(LtbVariantMode::Variants27.variants(), ["+4", "+5", "_4", "_5"]);
    assert_eq!(
        LtbVariantMode::Variants27.provers(),
        ["./eprover", "./eprover", "./eprover", "./eprover"]
    );
    assert_eq!(LtbVariantMode::Variants28.variants(), ["+1", "_1"]);
    assert_eq!(LtbVariantMode::Variants28.provers(), ["./eprover", "./eprover"]);
    assert_eq!(LtbVariantMode::Variants28Ho.variants(), ["+1", "_1", "^1"]);
    assert_eq!(
        LtbVariantMode::Variants28Ho.provers(),
        ["./eprover", "./eprover", "./eprover-ho"]
    );
    assert_eq!(LtbVariantMode::Variants28_25.variants(), ["+1", "_1"]);
    assert_eq!(
        LtbVariantMode::Variants28_25.provers(),
        ["./eprover-25", "./eprover-25"]
    );
    assert_eq!(LtbVariantMode::VariantsJ11.variants(), ["_1", "_3", "^1"]);
    assert_eq!(
        LtbVariantMode::VariantsJ11.provers(),
        ["./eprover-ho", "./eprover-ho", "./eprover-ho"]
    );
}

#[test]
fn execute_rejects_interactive_mode_explicitly() {
    let config = Config {
        spec_file: "missing.spec".to_owned(),
        prover: DEFAULT_PROVER.to_owned(),
        output_file: None,
        output_dir: None,
        total_wtc_limit: 0,
        verbose_level: 0,
        output_level: 1,
        interactive: true,
        variant_mode: None,
    };
    let mut sess = Session::new(0, 1);

    let interactive = e_ltb_runner::execute_checks(&config, &mut sess).unwrap_err();
    assert_eq!(interactive.code(), ErrorCode::INTERFACE_ERROR);
    assert_eq!(interactive.message(), "e_ltb_runner interactive mode is not wired yet");
}

#[test]
fn parse_variant_child_args_uses_fixed_internal_shape() {
    let args = [
        "spec.ltb".to_owned(),
        "2".to_owned(),
        "+1".to_owned(),
        "./eprover".to_owned(),
        "Problems/prob_+1.p".to_owned(),
        "Results/prob.out".to_owned(),
        "17".to_owned(),
    ];

    let config = parse_variant_child_args(&args.to_vec()).unwrap();

    assert_eq!(config.spec_file, "spec.ltb");
    assert_eq!(config.batch_index, 2);
    assert_eq!(config.variant, "+1");
    assert_eq!(config.prover, "./eprover");
    assert_eq!(config.source, "Problems/prob_+1.p");
    assert_eq!(config.dest, "Results/prob.out");
    assert_eq!(config.wct_limit, 17);

    let invalid = parse_variant_child_args(&args[..6].to_vec()).unwrap_err();
    assert_eq!(invalid.code(), ErrorCode::USAGE_ERROR);
}

#[test]
fn remaining_total_wtc_limit_matches_c_max_zero_boundary() {
    assert_eq!(remaining_total_wtc_limit(30, 10, 17), 23);
    assert_eq!(remaining_total_wtc_limit(30, 10, 50), 0);
}

#[test]
fn e_ltb_runner_help_text_contains_current_version_and_footer() {
    let help = e_ltb_runner::print_help();

    assert!(help.contains("e_ltb_runner "));
    assert!(help.contains("Options:"));
    assert!(help.contains("Copyright 1998-2026 by Stephan Schulz"));
}

#[test]
fn help_and_version_exit_before_spawning_children() {
    let (rep, _) = e_stratpar::run(&args(&[e_stratpar::PROGRAM_NAME, "--help"]));
    let help_status = finish(&rep, true).unwrap();
    assert_eq!(help_status, ErrorCode::NO_ERROR.exit_status());
    let help = rep.stdout;
    assert!(help.contains("Usage: e_stratpar [options] [file]"));
    assert!(help.contains("Run 8 instances of E with different strategies in parallel."));

    let (rep, _) = e_stratpar::run(&args(&[e_stratpar::PROGRAM_NAME, "-V"]));
    let version_status = finish(&rep, true).unwrap();
    assert_eq!(version_status, ErrorCode::NO_ERROR.exit_status());
    assert!(rep.stdout.starts_with("e_stratpar "));
}

#[test]
fn e_stratpar_help_text_contains_current_version_and_footer() {
    let help = e_stratpar::print_help();

    assert!(help.contains("e_stratpar "));
    assert!(help.contains("Options:"));
    assert!(help.contains("Copyright 1998-2026 by Stephan Schulz"));
}

fn expected_server_help() -> String {
    "\nE {version} \"{nickname}\"\n\nUsage: e_server [options] [files]\n\nRead an problem specification and offer deduction in the the structure\ndescribed by the specification as a service.  All input formats (LOP,\nTPTP-2 and TPTP-3 are supported for the original specification, \nhowever, only TPTP-3 is used for the service. TPTP-3 is also the \ndefault format. Important options allow specificatio of the filters\nto use for proof attemtps, the dervice port, and the binary of the\nprover to use.\n\nOptions:\n\n   -h\n  --help\n    Print a short description of program usage and options.\n\n   -V\n  --version\n    Print the version number of the prover. Please include this with all bug\n    reports (if any).\n\n   -v\n  --verbose[=<arg>]\n    Verbose comments on the progress of the program. This differs from the\n    output level (below) in that technical information is printed to stderr,\n    while the output level determines which logical manipulations of the\n    clauses are printed to stdout. The short form or the long form without\n    the optional argument is equivalent to --verbose=1.\n\n   -o <arg>\n  --output-file=<arg>\n    Redirect output into the named file (this affects only some output, as\n    most is written to automatically generated files based on the input and\n    filter names.\n\n   -s\n  --silent\n    Equivalent to --output-level=0.\n\n   -l <arg>\n  --output-level=<arg>\n    Select an output level, greater values imply more verbose output.\n\n   -f <arg>\n  --filter=<arg>\n    Specify the filter definition file. If not set, the system will uses the\n    built-in default.\n\n   -p <arg>\n  --prover=<arg>\n    Specify the prover binary to use. The default is 'eprover', and\n    initially, only E is supported. This option does accept absolute and\n    relative paths.\n\n   -P <arg>\n  --service-port=<arg>\n    Specify the port to use for the deduction service.\n\n  --lop-in\n    Parse input in E-LOP, not the default TPTP-3 format.\n\n  --lop-format\n    Equivalent to --lop-in.\n\n  --tptp-in\n    Parse TPTP-2 format instead of E-LOP (but note that includes are handled\n    according to TPTP-3 semantics).\n\n  --tptp-format\n    Equivalent to --tptp-in.\n\n  --tptp2-in\n    Synonymous with --tptp-in.\n\n  --tptp2-format\n    Synonymous with --tptp-in.\n\n  --tstp-in\n    Parse TPTP-3 format instead of E-LOP (Note that TPTP-3 syntax is still\n    under development, and the version in E may not be fully conforming at\n    all times. E works on all TPTP 4.1.0 input files (including includes).\n\n  --tstp-format\n    Equivalent to --tstp-in.\n\n  --tptp3-in\n    Synonymous with --tstp-in.\n\n  --tptp3-format\n    Synonymous with --tstp-in.\n\n\nCopyright (C) 2011 by Stephan Schulz, schulz@eprover.org\n\nYou can find the latest version of E and additional information at\nhttp://www.eprover.org\n\nThis program is free software; you can redistribute it and/or modify\nit under the terms of the GNU General Public License as published by\nthe Free Software Foundation; either version 2 of the License, or\n(at your option) any later version.\n\nThis program is distributed in the hope that it will be useful,\nbut WITHOUT ANY WARRANTY; without even the implied warranty of\nMERCHANTABILITY or FITNESS FOR A PARTICULAR PURPOSE.  See the\nGNU General Public License for more details.\n\nYou should have received a copy of the GNU General Public License\nalong with this program (it should be contained in the top level\ndirectory of the distribution in the file COPYING); if not, write to\nthe Free Software Foundation, Inc., 59 Temple Place, Suite 330,\nBoston, MA  02111-1307 USA\n\nThe original copyright holder can be contacted as\n\nStephan Schulz\nDHBW Stuttgart\nFakultaet Technik\nInformatik\nLerchenstrasse 1\n70174 Stuttgart\nGermany\n\n".replace("{version}", VERSION).replace("{nickname}", E_NICKNAME)
}

#[test]
fn e_server_help_and_version_preserve_c_text() {
    let (rep, _) = e_server::run(&args(&[e_server::PROGRAM_NAME, "--help"]));
    let help_status = finish(&rep, true).expect("help");
    assert_eq!(help_status, ErrorCode::NO_ERROR.exit_status());
    assert_eq!(rep.stdout, expected_server_help());
    assert!(rep.stderr.is_empty());

    let (rep, _) = e_server::run(&args(&[e_server::PROGRAM_NAME, "-V"]));
    let version_status = finish(&rep, true).expect("version");
    assert_eq!(version_status, ErrorCode::NO_ERROR.exit_status());
    assert_eq!(rep.stdout, format!("E {VERSION} {E_NICKNAME}\n"));
}

#[test]
fn e_server_invalid_and_reserved_ports_match_c_surface() {
    let opts = e_server::options();
    let mut stderr = String::new();
    let error = e_server::parse_port(&opts[8], "70000", &mut stderr).unwrap_err();
    assert_eq!(error.code(), ErrorCode::USAGE_ERROR);
    assert_eq!(error.message(), "Port numbers must be between 0 and 65535");
    assert!(stderr.is_empty());

    let port = e_server::parse_port(&opts[8], "80", &mut stderr).expect("port accepted");
    assert_eq!(port, 80);
    assert_eq!(
        stderr,
        "e_server: Warning: Port numbers less than 1024 require root level access\n"
    );
}

#[test]
fn e_server_run_applies_verbose_and_output_globals_before_usage_error() {
    let (rep, _) = e_server::run(&args(&[e_server::PROGRAM_NAME, "--verbose=4", "--output-level=5"]));
    let _error = finish(&rep, true).unwrap_err();

    assert_eq!(rep.verbose, 4);
    assert_eq!(rep.output_level, 5);
}

fn wire_strings(list: &[&str]) -> Vec<String> {
    let mut data = Vec::new();
    for message in list {
        data.extend_from_slice(&tcp::pack(message));
    }
    let mut pos = 0;
    let mut result = Vec::new();
    while pos < data.len() {
        let (payload, next) = tcp::unpack(&data, pos).expect("message decodes");
        result.push(String::from_utf8(payload).expect("utf8 message"));
        pos = next;
    }
    result
}

#[test]
fn legacy_connection_replies_wait_ready_for_each_message_until_close() {
    let received = wire_strings(&["hello", "add"]);

    let session = process_legacy_connection(&received, StreamEnd::Closed);

    assert_eq!(
        session.report,
        LegacyServerReport {
            received: 2,
            closed: true,
            read_error: false,
        }
    );
    assert_eq!(session.sent, ["wait", "ready", "wait", "ready"]);
    assert_eq!(session.output, "Received: hello\nReceived: add\nConnection closed\n");
}

#[test]
fn e_server_print_help_preserves_full_c_text() {
    assert_eq!(e_server::print_help(), expected_server_help());
}

fn batch_config(total_wtc_limit: i64, variant_mode: Option<LtbVariantMode>) -> Config {
    Config {
        spec_file: "batch.spec".to_owned(),
        prover: DEFAULT_PROVER.to_owned(),
        output_file: None,
        output_dir: Some("Out".to_owned()),
        total_wtc_limit,
        verbose_level: 0,
        output_level: 1,
        interactive: false,
        variant_mode,
    }
}

#[test]
fn batches_inherit_the_overall_limit_and_print_their_summary() {
    let config = batch_config(40, None);
    let batches = vec![BatchLimits { per_prob_limit: 12, total_wtc_limit: 0, problem_count: 1 }];
    assert_eq!(e_ltb_runner::batch_total_limit(&config, &batches[0]).unwrap(), 40);
    let answers = vec![BatchAnswer {
        start: 100,
        end: 105,
        solved: 1,
        report: "% Accepted Axioms/SET001.ax for parsing\n".to_owned(),
    }];
    let mut out = String::new();
    assert_eq!(run_batches(&config, &batches, &answers, &mut out).unwrap(), 0);
    assert!(out.starts_with("% Accepted Axioms/SET001.ax for parsing\n"));
    assert!(out.contains("% == WCT:    5s, Solved:    1/   1    =="));
    assert!(out.ends_with("% =============== Batch done ===========\n\n"));
}

#[test]
fn batch_without_limits_stops_after_the_earlier_batches() {
    let config = batch_config(0, None);
    let batches = vec![
        BatchLimits { per_prob_limit: 10, total_wtc_limit: 0, problem_count: 2 },
        BatchLimits { per_prob_limit: 0, total_wtc_limit: 0, problem_count: 1 },
    ];
    let answers = vec![
        BatchAnswer { start: 0, end: 7, solved: 2, report: String::new() },
        BatchAnswer { start: 7, end: 9, solved: 0, report: "unread".to_owned() },
    ];
    let mut out = String::new();
    let error = run_batches(&config, &batches, &answers, &mut out).unwrap_err();
    assert_eq!(error.code(), ErrorCode::USAGE_ERROR);
    assert_eq!(error.message(), MISSING_LIMIT_ERROR);
    assert!(error.message().contains("wall-clock limit"));
    assert_eq!(
        out,
        "\n\n% == WCT:    7s, Solved:    2/   2    ==\n% =============== Batch done ===========\n\n"
    );
}

#[test]
fn variant_batches_end_with_the_variant_line() {
    let config = batch_config(0, Some(LtbVariantMode::Variants28));
    let batches = vec![BatchLimits { per_prob_limit: 12, total_wtc_limit: 40, problem_count: 1 }];
    assert_eq!(e_ltb_runner::batch_total_limit(&config, &batches[0]).unwrap(), 40);
    let answers = vec![BatchAnswer { start: 100, end: 100, solved: 0, report: "% fake variant dispatch\n".to_owned() }];
    let mut out = String::new();
    assert_eq!(run_batches(&config, &batches, &answers, &mut out).unwrap(), 0);
    assert_eq!(out, "% fake variant dispatch\n% =============== Variant batch done ===========\n\n");
}

#[test]
fn batch_is_run_with_the_prover_its_limits_and_the_output_directory() {
    let mut config = batch_config(40, None);
    config.prover = "custom-e".to_owned();
    let batch = BatchLimits { per_prob_limit: 12, total_wtc_limit: 0, problem_count: 1 };
    let run = batch_run(&config, &batch, 0, 100).unwrap();
    assert_eq!(run.executable, "custom-e");
    assert_eq!(run.spec_file, "batch.spec");
    assert_eq!(run.batch_index, 0);
    assert_eq!(run.per_prob_limit, 12);
    assert_eq!(run.total_wtc_limit, 40);
    assert_eq!(run.output_dir.as_deref(), Some("Out"));
    assert_eq!(run.start, 100);

    let own = BatchLimits { per_prob_limit: 0, total_wtc_limit: 25, problem_count: 3 };
    assert_eq!(batch_run(&config, &own, 1, 7).unwrap().total_wtc_limit, 25);

    let none = BatchLimits { per_prob_limit: 0, total_wtc_limit: 0, problem_count: 1 };
    let error = batch_run(&batch_config(0, None), &none, 2, 0).unwrap_err();
    assert_eq!(error.code(), ErrorCode::USAGE_ERROR);
    assert_eq!(error.message(), MISSING_LIMIT_ERROR);
}
