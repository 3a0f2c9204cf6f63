use lib::diag::ErrorCode;
use lib::dpll;
use lib::e_client;
use lib::e_deduction_server;
use lib::e_ltb_runner::{self, LtbVariantMode};
use lib::e_server;
use lib::e_stratpar;
use lib::e_deduction_server::IoFormat;
use lib::resources::{auto_memory_mb, MEGA};
use lib::session::{output_target, Session};

fn args(list: &[&str]) -> Vec<String> {
    list.iter().map(|s| s.to_string()).collect()
}

// umlaut-dpll

#[test]
fn process_options_records_resource_and_format_options() {
    let mut sess = Session::new(0, 1);
    let command = dpll::process_options(
        &args(&[
            dpll::PROGRAM_NAME,
            "--tptp-in",
            "--dimacs",
            "--memory-limit=128",
            "--soft-cpu-limit=10",
            "--cpu-limit=30",
            "problem.p",
        ]),
        &mut sess,
        -1,
    )
    .expect("options parse");
    let dpll::Command::Execute(config) = command else {
        panic!("expected execute command");
    };
    assert!(config.tptp);
    assert_eq!(config.memory_limit, 128 * 1_048_576);
    assert_eq!(config.hard_cpu_limit, Some(30));
    assert_eq!(config.soft_cpu_limit, Some(10));
    assert_eq!(config.files, ["problem.p"]);
    assert!(sess.stdout.is_empty());
    assert!(sess.stderr.is_empty());
}

#[test]
fn invalid_hard_soft_limit_order_is_rejected_like_c() {
    let mut sess = Session::new(0, 1);
    let error = dpll::process_options(
        &args(&[dpll::PROGRAM_NAME, "--soft-cpu-limit=10", "--cpu-limit=10"]),
        &mut sess,
        -1,
    )
    .err()
    .expect("hard limit must be larger");
    assert_eq!(error.code(), ErrorCode::USAGE_ERROR);
    assert_eq!(error.message(), "Hard time limit has to be larger than softtime limit");
    assert!(sess.stdout.is_empty());
    assert!(sess.stderr.is_empty());

    let error = dpll::process_options(
        &args(&[dpll::PROGRAM_NAME, "--cpu-limit=10", "--soft-cpu-limit=10"]),
        &mut sess,
        -1,
    )
    .err()
    .expect("soft limit must be smaller");
    assert_eq!(error.code(), ErrorCode::USAGE_ERROR);
    assert_eq!(error.message(), "Soft time limit has to be smaller than hardtime limit");
    assert!(sess.stdout.is_empty());
    assert!(sess.stderr.is_empty());
}

#[test]
fn memory_limit_auto_follows_available_system_memory_when_known() {
    let system_memory: i64 = 16_000;
    let mut sess = Session::new(0, 1);
    let command = dpll::process_options(
        &args(&[dpll::PROGRAM_NAME, "--memory-limit=Auto"]),
        &mut sess,
        system_memory,
    )
    .expect("auto memory parses when system memory is known");
    let dpll::Command::Execute(config) = command else {
        panic!("expected execute command");
    };
    assert_eq!(config.memory_limit, (auto_memory_mb(system_memory) as u64) * MEGA);
    assert_eq!(config.memory_limit, 12_800 * MEGA);
    assert!(sess.stderr.is_empty());
}

#[test]
fn verbose_auto_memory_preserves_c_value_and_unit_text() {
    let system_memory: i64 = 16_000;
    let mut sess = Session::new(0, 1);
    let command = dpll::process_options(
        &args(&[dpll::PROGRAM_NAME, "--verbose=1", "--memory-limit=Auto"]),
        &mut sess,
        system_memory,
    )
    .expect("verbose auto memory parses");
    let dpll::Command::Execute(config) = command else {
        panic!("expected execute command");
    };
    let expected_limit = (auto_memory_mb(system_memory) as u64) * MEGA;
    assert_eq!(config.memory_limit, expected_limit);
    assert_eq!(
        sess.stderr,
        format!(
            "Physical memory determined as {system_memory} MB\n\
             Memory limit set to {expected_limit} MB\n"
        )
    );
    assert!(sess.stdout.is_empty());
}

// e_client

#[test]
fn process_options_records_client_options() {
    let mut sess = Session::new(0, 1);
    let command = e_client::process_options(
        &args(&[
            e_client::PROGRAM_NAME,
            "--verbose=2",
            "--output-file=client.out",
            "--server=example.invalid",
            "--service-port=3667",
            "problem.p",
        ]),
        &mut sess,
    )
    .expect("options parse");
    let e_client::Command::Execute(config) = command else {
        panic!("expected execute command");
    };
    assert_eq!(config.output_file.as_deref(), Some("client.out"));
    assert_eq!(config.server, "example.invalid");
    assert_eq!(config.port, 3667);
    assert_eq!(config.files, ["problem.p"]);
    assert_eq!(sess.verbose, 2);
    assert!(sess.stdout.is_empty());
    assert!(sess.stderr.is_empty());
}

#[test]
fn defaults_insert_stdin_localhost_and_c_port() {
    let mut sess = Session::new(0, 1);
    let command = e_client::process_options(&args(&[e_client::PROGRAM_NAME]), &mut sess).expect("options");
    let e_client::Command::Execute(config) = command else {
        panic!("expected execute command");
    };
    assert_eq!(config.server, e_client::DEFAULT_SERVER);
    assert_eq!(config.port, e_client::DEFAULT_PORT);
    assert_eq!(config.files, ["-"]);
}

// e_deduction_server

#[test]
fn process_options_preserves_c_defaults_and_positional_prover() {
    let mut sess = Session::new(0, 1);
    let command = e_deduction_server::process_options(
        &args(&[
            e_deduction_server::PROGRAM_NAME,
            "-p",
            "3667",
            "-w",
            "0",
            "-L",
            "Axioms",
            "--verbose",
            "--output-level=2",
            "custom-eprover",
            "ignored-extra",
        ]),
        &mut sess,
    )
    .expect("options");
    let e_deduction_server::Command::Execute(config) = command else {
        panic!("valid arguments should execute");
    };
    assert_eq!(config.prover, "custom-eprover");
    assert_eq!(config.port, Some(3667));
    assert_eq!(config.server_lib, "Axioms");
    assert_eq!(config.total_wtc_limit, 0);
    assert_eq!(config.verbose_level, 1);
    assert_eq!(config.output_level, 2);
}

#[test]
fn process_options_default_server_uses_stdio_and_eprover() {
    let mut sess = Session::new(0, 1);
    let command = e_deduction_server::process_options(&args(&[e_deduction_server::PROGRAM_NAME, "-s"]), &mut sess)
        .expect("options");
    let e_deduction_server::Command::Execute(config) = command else {
        panic!("valid arguments should execute");
    };
    assert_eq!(config.prover, e_deduction_server::DEFAULT_PROVER);
    assert_eq!(config.port, None);
    assert_eq!(config.server_lib, "");
    assert_eq!(config.total_wtc_limit, e_deduction_server::DEFAULT_TOTAL_WTC_LIMIT);
    assert_eq!(config.verbose_level, 0);
    assert_eq!(config.output_level, 0);
}

// e_ltb_runner

#[test]
fn process_options_parses_non_variant_runner_args() {
    let mut sess = Session::new(0, 1);
    let command = e_ltb_runner::process_options(
        &args(&[
            e_ltb_runner::PROGRAM_NAME,
            "-o",
            "all.out",
            "--output-dir=Results",
            "-w",
            "90",
            "--verbose",
            "--output-level=2",
            "batch.spec",
            "custom-eprover",
        ]),
        &mut sess,
    )
    .unwrap();
    let e_ltb_runner::Command::Execute(config) = command else {
        panic!("valid e_ltb_runner arguments should execute");
    };
    assert_eq!(config.spec_file, "batch.spec");
    assert_eq!(config.prover, "custom-eprover");
    assert_eq!(config.output_file.as_deref(), Some("all.out"));
    assert_eq!(config.output_dir.as_deref(), Some("Results"));
    assert_eq!(config.total_wtc_limit, 90);
    assert_eq!(config.verbose_level, 1);
    assert_eq!(config.output_level, 2);
    assert!(!config.interactive);
    assert_eq!(config.variant_mode, None);
}

#[test]
fn default_prover_and_variant_options_follow_c_globals() {
    let mut sess = Session::new(0, 1);
    let command = e_ltb_runner::process_options(
        &args(&[e_ltb_runner::PROGRAM_NAME, "--variants28-ho", "-i", "batch.spec"]),
        &mut sess,
    )
    .unwrap();
    let e_ltb_runner::Command::Execute(config) = command else {
        panic!("valid variant e_ltb_runner arguments should execute");
    };
    assert_eq!(config.spec_file, "batch.spec");
    assert_eq!(config.prover, e_ltb_runner::DEFAULT_PROVER);
    assert_eq!(config.verbose_level, 0);
    assert_eq!(config.output_level, 1);
    assert!(config.interactive);
    assert_eq!(config.variant_mode, Some(LtbVariantMode::Variants28Ho));
}

#[test]
fn e_ltb_runner_usage_rejects_missing_and_extra_arguments() {
    let mut sess = Session::new(0, 1);
    let missing = e_ltb_runner::process_options(&args(&[e_ltb_runner::PROGRAM_NAME]), &mut sess)
        .err()
        .expect("usage error");
    assert_eq!(missing.code(), ErrorCode::USAGE_ERROR);
    assert_eq!(missing.message(), e_ltb_runner::C_USAGE_ERROR);

    let extra = e_ltb_runner::process_options(
        &args(&[e_ltb_runner::PROGRAM_NAME, "spec", "eprover", "extra"]),
        &mut sess,
    )
    .err()
    .expect("usage error");
    assert_eq!(extra.code(), ErrorCode::USAGE_ERROR);
    assert_eq!(extra.message(), e_ltb_runner::C_USAGE_ERROR);
}

// e_server

#[test]
fn process_options_records_server_options_and_format_quirks() {
    let mut sess = Session::new(0, 1);
    let command = e_server::process_options(
        &args(&[
            e_server::PROGRAM_NAME,
            "--verbose=2",
            "--output-file=server.out",
            "--filter=filters.axf",
            "--prover=custom-e",
            "--service-port=3667",
            "--lop-in",
            "--tptp-in",
            "--output-level=3",
            "domain.p",
        ]),
        &mut sess,
    )
    .expect("options");
    let e_server::Command::Execute(config) = command else {
        panic!("expected execute command");
    };
    assert_eq!(config.output_file.as_deref(), Some("server.out"));
    assert_eq!(config.filter_file.as_deref(), Some("filters.axf"));
    assert_eq!(config.prover, "custom-e");
    assert_eq!(config.port, 3667);
    assert_eq!(config.parse_format, IoFormat::Lop);
    assert_eq!(config.verbose_level, 2);
    assert_eq!(config.output_level, 3);
    assert_eq!(config.files, vec!["domain.p".to_owned()]);
    assert!(sess.stdout.is_empty());
    assert!(sess.stderr.is_empty());
}

#[test]
fn e_server_defaults_match_c_globals() {
    let mut sess = Session::new(0, 1);
    let command = e_server::process_options(&args(&[e_server::PROGRAM_NAME, "domain.p"]), &mut sess)
        .expect("options");
    let e_server::Command::Execute(config) = command else {
        panic!("expected execute command");
    };
    assert_eq!(config.prover, e_server::DEFAULT_PROVER);
    assert_eq!(config.port, e_server::DEFAULT_PORT);
    assert_eq!(config.parse_format, IoFormat::Tstp);
    assert_eq!(config.output_level, 1);
    assert_eq!(config.files, ["domain.p"]);
}

#[test]
fn output_dash_uses_stdout_route_like_c() {
    assert!(output_target(&Some("-".to_owned())).is_none());
    assert_eq!(output_target(&Some("x.out".to_owned())).as_deref(), Some("x.out"));
    assert!(output_target(&None).is_none());
}

// e_stratpar

#[test]
fn cpu_limit_optional_argument_uses_c_default() {
    let mut sess = Session::new(0, 1);
    let command = e_stratpar::process_options(&args(&[e_stratpar::PROGRAM_NAME, "--cpu-limit", "problem.p"]), &mut sess)
        .unwrap();
    let e_stratpar::Command::Execute(config) = command else {
        panic!("cpu-limit should execute");
    };
    let strategies = e_stratpar::strategy_specs(&config);
    assert_eq!(config.cpu_limit, 300);
    assert_eq!(strategies[0].cpu_limit, 150);
}

#[test]
fn strategy_plan_uses_eight_autosched_commands_and_ignores_optional_prover() {
    let mut sess = Session::new(0, 1);
    let command = e_stratpar::process_options(
        &args(&[e_stratpar::PROGRAM_NAME, "--cpu-limit=301", "problem.p", "custom-eprover"]),
        &mut sess,
    )
    .unwrap();
    let e_stratpar::Command::Execute(config) = command else {
        panic!("valid stratpar arguments should execute");
    };
    let strategies = e_stratpar::strategy_specs(&config);
    assert_eq!(e_stratpar::DEFAULT_PROVER, "eprover");
    assert_eq!(config.problem_file, "problem.p");
    assert_eq!(strategies.len(), 8);
    assert_eq!(strategies[0].name, "AutoSched0");
    assert_eq!(strategies[0].options, "-xAutoSched0 -tAutoSched0 --sine");
    assert_eq!(strategies[0].cpu_limit, 150);
    assert_eq!(strategies[7].name, "AutoSched7");
    assert_eq!(strategies[7].options, "-xAutoSched7 -tAutoSched7 --sine");
}

#[test]
fn e_stratpar_usage_rejects_missing_and_extra_arguments() {
    let mut sess = Session::new(0, 1);
    let missing = e_stratpar::process_options(&args(&[e_stratpar::PROGRAM_NAME]), &mut sess)
        .err()
        .expect("usage error");
    assert_eq!(missing.code(), ErrorCode::USAGE_ERROR);
    assert_eq!(missing.message(), e_stratpar::C_USAGE_ERROR);

    let extra = e_stratpar::process_options(&args(&[e_stratpar::PROGRAM_NAME, "a.p", "eprover", "extra"]), &mut sess)
        .err()
        .expect("usage error");
    assert_eq!(extra.code(), ErrorCode::USAGE_ERROR);
    assert_eq!(extra.message(), e_stratpar::C_USAGE_ERROR);
}
