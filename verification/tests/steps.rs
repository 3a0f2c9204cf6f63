use lib::diag::ErrorCode;
use lib::e_axfilter::{seed_desc, seed_problem_name, SymbolInfo};
use lib::e_server::{legacy_poll_step, ActiveRead};
use lib::eground::{
    self, execute_eground, write_eground_result, ClauseSetFeatures, GroundSetState, GroundingPass, GroundingStats,
    GIVE_UP_FAILURE, NOT_NEAR_PROPOSITIONAL,
};
use lib::session::Session;

fn args(list: &[&str]) -> Vec<String> {
    list.iter().map(|s| s.to_string()).collect()
}

#[test]
fn legacy_poll_keeps_one_client_and_turns_away_a_second() {
    let first = legacy_poll_step(false, ActiveRead::Idle, true, 7);
    assert!(first.accepted && first.active && first.progress);
    assert_eq!(first.output, "Accepted 7\n");

    let second = legacy_poll_step(true, ActiveRead::Message("hello".to_owned()), true, 8);
    assert!(second.rejected && !second.accepted && second.active);
    assert_eq!(second.output, "Received: hello\n");
    assert_eq!(second.replies, ["wait", "ready"]);

    let closed = legacy_poll_step(true, ActiveRead::Closed, true, 9);
    assert!(closed.accepted && closed.active);
    assert_eq!(closed.output, "Connection closed\nAccepted 9\n");
    assert!(closed.replies.is_empty());

    let quiet = legacy_poll_step(true, ActiveRead::Idle, false, -1);
    assert!(!quiet.progress && quiet.active && quiet.output.is_empty());

    let broken = legacy_poll_step(true, ActiveRead::ReadError, false, -1);
    assert!(!broken.active);
    assert_eq!(broken.output, "Read error\n");
}

#[test]
fn eground_result_text_follows_the_settings() {
    let stats = GroundingStats { initial_clauses: 2, initial_literals: 3, generated_clauses: 4, generated_literals: 5 };
    let mut sess = Session::new(0, 1);
    let eground::Command::Execute(config) =
        eground::process_options(&args(&[eground::PROGRAM_NAME, "--print-statistics"]), &mut sess, -1).expect("options")
    else {
        panic!("expected execute");
    };
    let mut out = String::new();
    write_eground_result(&config, "p(a).\n", GroundSetState::Complete, &stats, &mut out);
    assert_eq!(
        out,
        "\np(a).\n% Full and complete proof state written!\n\n\
% Initial clauses                      : 2\n\
% Initial literals                     : 3\n\
% Generated clauses                    : 4\n\
% Generated literals                   : 5\n"
    );

    let eground::Command::Execute(config) =
        eground::process_options(&args(&[eground::PROGRAM_NAME, "--suppress-result", "-s"]), &mut sess, -1).expect("options")
    else {
        panic!("expected execute");
    };
    let mut out = String::new();
    write_eground_result(&config, "ignored", GroundSetState::Timeout, &stats, &mut out);
    assert_eq!(out, "% Success!\n");
    assert_eq!(GIVE_UP_FAILURE, "\n% Failure: User resource limit exceeded (estimated number of instances)!\n");
}

#[test]
fn seeded_problem_names_and_headers() {
    let info = Some(SymbolInfo { name: "member".to_owned(), arity: 2, is_predicate: true });
    assert_eq!(seed_problem_name("prob", "SL", 17, &info).expect("known"), "prob_SL_P2_17");
    assert_eq!(
        seed_desc(17, &info, "Largest").expect("known"),
        "% Seed symbol: member = 17\n% Seeds      : Largest\n% Arity      : 2\n% Type       : Predicate\n"
    );
    let error = seed_problem_name("prob", "SA", 5, &None).expect_err("unknown");
    assert_eq!(error.code(), ErrorCode::INTERFACE_ERROR);
    assert_eq!(error.message(), "Seed symbol 5 missing from signature");
}

fn input_files(files: Vec<(&str, Result<&str, &str>)>) -> Vec<lib::session::InputFile> {
    files
        .into_iter()
        .map(|(n, c)| lib::session::InputFile {
            name: n.to_string(),
            content: c.map(|t| t.to_string()).map_err(|e| e.to_string()),
        })
        .collect()
}

#[test]
fn client_problem_concatenates_inputs_in_order() {
    let names = vec!["a.p".to_string(), "-".to_string(), "b.p".to_string()];
    let files = input_files(vec![("a.p", Ok("fof(a,axiom,p).\n")), ("b.p", Ok("fof(c,conjecture,p).\n"))]);
    let problem = lib::e_client::load_problem_files(&names, &"fof(b,axiom,q).\n".to_string(), &files)
        .expect("all inputs can be read");
    assert_eq!(problem, "fof(a,axiom,p).\nfof(b,axiom,q).\nfof(c,conjecture,p).\n");
}

#[test]
fn client_problem_names_the_first_unreadable_input() {
    let names = vec!["a.p".to_string(), "gone.p".to_string(), "locked.p".to_string()];
    let files = input_files(vec![("a.p", Ok("x")), ("locked.p", Err("Permission denied"))]);
    let error = lib::e_client::load_problem_files(&names, &String::new(), &files).expect_err("gone.p is missing");
    assert_eq!(error.code(), ErrorCode::FILE_ERROR);
    assert_eq!(error.message(), "Cannot read file gone.p: No such file or directory");

    let names = vec!["locked.p".to_string()];
    let error = lib::e_client::load_problem_files(&names, &String::new(), &files).expect_err("locked.p is unreadable");
    assert_eq!(error.message(), "Cannot read file locked.p: Permission denied");
}

#[test]
fn ltb_runner_refuses_interactive_mode_before_any_batch() {
    let argv: Vec<String> = ["e_ltb_runner", "-i", "batch.spec"].iter().map(|s| s.to_string()).collect();
    let (report, config) = lib::e_ltb_runner::run(&argv);
    let error = report.result.expect_err("interactive mode is refused");
    assert_eq!(error.code(), ErrorCode::Interface);
    assert_eq!(error.message(), "e_ltb_runner interactive mode is not wired yet");
    assert!(config.is_none());

    let argv: Vec<String> = ["e_ltb_runner", "batch.spec"].iter().map(|s| s.to_string()).collect();
    let (report, config) = lib::e_ltb_runner::run(&argv);
    assert!(matches!(report.result, Ok(0)));
    assert_eq!(config.expect("the batches follow").spec_file, "batch.spec");
}

#[test]
fn ltb_batch_summary_aligns_counts_in_four_columns() {
    let mut out = String::new();
    lib::e_ltb_runner::write_batch_done(&mut out, 5, 1, 1);
    assert_eq!(
        out,
        "\n\n% == WCT:    5s, Solved:    1/   1    ==\n% =============== Batch done ===========\n\n"
    );
    let mut out = String::new();
    lib::e_ltb_runner::write_batch_done(&mut out, 12345, -3, 20);
    assert!(out.starts_with("\n\n% == WCT: 12345s, Solved:   -3/  20    ==\n"));
}

#[test]
fn load_problem_files_concatenates_files_and_stdin_without_separators() {
    let names = vec!["/tmp/a".to_string(), "-".to_string(), "/tmp/b".to_string()];
    let files = input_files(vec![("/tmp/a", Ok("left")), ("/tmp/b", Ok("right"))]);
    let loaded = lib::e_client::load_problem_files(&names, &"middle".to_string(), &files).expect("problem loads");
    assert_eq!(loaded, "leftmiddleright");
}

#[test]
fn legacy_poll_keeps_one_active_connection_and_rejects_second_client() {
    let accepted = legacy_poll_step(false, ActiveRead::Idle, true, 5);
    assert!(accepted.accepted);
    assert!(!accepted.rejected);
    assert!(accepted.active);

    let rejected = legacy_poll_step(accepted.active, ActiveRead::Idle, true, 6);
    assert!(!rejected.accepted);
    assert!(rejected.rejected);
    assert!(rejected.active);
    let output = format!("{}{}", accepted.output, rejected.output);
    assert_eq!(output.matches("Accepted ").count(), 1);
}

#[test]
fn legacy_poll_processes_active_message_before_rejecting_pending_client() {
    let first = legacy_poll_step(false, ActiveRead::Idle, true, 5);
    let report = legacy_poll_step(first.active, ActiveRead::Message("hello".to_owned()), true, 6);
    assert!(report.active_read);
    assert!(report.rejected);
    assert_eq!(report.replies, ["wait", "ready"]);
    let output = format!("{}{}", first.output, report.output);
    assert_eq!(output.lines().last(), Some("Received: hello"));
}

#[test]
fn eground_checks_the_clause_set_then_writes_the_grounding_outcome() {
    let stats = GroundingStats { initial_clauses: 1, initial_literals: 1, generated_clauses: 1, generated_literals: 1 };
    let mut sess = Session::new(0, 1);
    let eground::Command::Execute(config) =
        eground::process_options(&args(&[eground::PROGRAM_NAME, "--suppress-result", "-s"]), &mut sess, -1).expect("options")
    else {
        panic!("expected execute");
    };
    let ground = ClauseSetFeatures { eq_clauses: 0, max_function_arity: 0, all_ground: false };
    let (mut out, mut err) = (String::new(), String::new());
    let status = execute_eground(&config, &ground, GroundingPass::Grounded(GroundSetState::Complete), None, "", &stats, &mut out, &mut err);
    assert_eq!(status.unwrap(), 0);
    assert_eq!(out, "% Success!\n");
    assert!(err.is_empty());

    let infinite = ClauseSetFeatures { eq_clauses: 1, max_function_arity: 1, all_ground: false };
    let (mut out, mut err) = (String::new(), String::new());
    let error = execute_eground(&config, &infinite, GroundingPass::Grounded(GroundSetState::Complete), None, "", &stats, &mut out, &mut err)
        .unwrap_err();
    assert_eq!(error.code(), ErrorCode::INPUT_SEMANTIC_ERROR);
    assert_eq!(error.message(), NOT_NEAR_PROPOSITIONAL);
    assert!(out.is_empty());
    assert_eq!(err, "Warning: Recoding equational literals. Be sure to include equality axioms!\n");

    let (mut out, mut err) = (String::new(), String::new());
    let status = execute_eground(&config, &ground, GroundingPass::EstimateLimitExceeded, None, "", &stats, &mut out, &mut err);
    assert_eq!(status.unwrap(), 0);
    assert_eq!(out, GIVE_UP_FAILURE);
}

#[test]
fn eground_second_pass_keeps_the_first_state_or_gives_up() {
    let stats = GroundingStats { initial_clauses: 1, initial_literals: 1, generated_clauses: 1, generated_literals: 1 };
    let mut sess = Session::new(0, 1);
    let eground::Command::Execute(config) =
        eground::process_options(&args(&[eground::PROGRAM_NAME, "-i", "-s"]), &mut sess, -1).expect("options")
    else {
        panic!("expected execute");
    };
    let first = GroundingPass::Grounded(GroundSetState::Timeout);
    assert!(eground::grounding_retry_needed(&config, first));
    let features = ClauseSetFeatures { eq_clauses: 0, max_function_arity: 2, all_ground: true };
    let (mut out, mut err) = (String::new(), String::new());
    let status = execute_eground(&config, &features, first, Some(GroundingPass::Grounded(GroundSetState::Complete)), "p.\n", &stats, &mut out, &mut err);
    assert_eq!(status.unwrap(), 0);
    assert_eq!(out, "p.\n% Timeout: Proof state incomplete!\n");
    let (mut out, mut err) = (String::new(), String::new());
    let status = execute_eground(&config, &features, first, Some(GroundingPass::EstimateLimitExceeded), "p.\n", &stats, &mut out, &mut err);
    assert_eq!(status.unwrap(), 0);
    assert_eq!(out, GIVE_UP_FAILURE);
    assert!(err.is_empty());
}
