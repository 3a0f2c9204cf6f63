use lib::diag::ErrorCode;
use lib::e_axfilter::{self, process_options, Command};
use lib::e_client;
use lib::help::get_int_arg;
use lib::interactive::{serve_text, CommandOutput, END_OF_BLOCK_TOKEN, ERR_ERROR_MESSAGE};
use lib::resources::check_hard_soft_limits;
use lib::session::Session;
use lib::text::fmt_i64;

fn args(list: &[&str]) -> Vec<String> {
    list.iter().map(|s| s.to_string()).collect()
}

#[test]
fn plain_words_and_double_dash_are_positional() {
    let mut sess = Session::new(0, 1);
    let command = process_options(
        &args(&[e_axfilter::PROGRAM_NAME, "a.p", "-", "--", "-d", "--help", "b.p"]),
        &mut sess,
    )
    .expect("no option is met");
    let Command::Execute(config) = command else {
        panic!("expected execute command");
    };
    assert_eq!(config.files, ["a.p", "-", "-d", "--help", "b.p"]);
    assert!(!config.dump_filter);
    assert!(config.seed_all);
    assert_eq!(config.output_level, 1);
    assert!(sess.stdout.is_empty());
}

#[test]
fn printed_integers_read_back_as_option_arguments() {
    let opts = e_axfilter::options();
    for n in [0_i64, 7, -7, 10, 1234567890, -1000, i64::MAX, i64::MIN] {
        let text = fmt_i64(n);
        assert_eq!(get_int_arg(&opts[2], &text).expect("reads back"), n);
    }
    assert_eq!(fmt_i64(-1000), "-1000");
}

#[test]
fn job_text_is_exactly_the_lines_up_to_go() {
    assert_eq!(END_OF_BLOCK_TOKEN, "GO\n");
    let input = "RUN job1\nfof(a,axiom,p).\nfof(c,conjecture,p).\nGO\nQUIT\nHELP\nRUN job2\nGO\n".to_owned();
    let results = vec![CommandOutput { output: "proof\n".to_owned(), status: "200 ok : success\n" }];
    let session = serve_text(&input, vec![], &results);
    assert_eq!(session.jobs.len(), 1);
    assert_eq!(session.jobs[0].0, "job1");
    assert_eq!(session.jobs[0].1, "fof(a,axiom,p).\nfof(c,conjecture,p).\n");
    assert_eq!(session.output, "proof\n200 ok : success\n");
    assert!(session.report.done);
    assert_eq!(session.report.commands, 2);

    let input = "RUN a\nx\nGO\nRUN b\nGO\n".to_owned();
    let session = serve_text(&input, vec![], &results);
    assert_eq!(session.jobs.len(), 2);
    assert_eq!(session.jobs[1].1, "");
    assert_eq!(session.output, format!("proof\n200 ok : success\n{ERR_ERROR_MESSAGE}"));
    assert!(!session.report.done);
}

#[test]
fn client_sends_the_problem_once() {
    let received = args(&["busy", "ready", "ready", "pending", "result", "ready"]);
    let transcript = e_client::execute_client_protocol(&received, "cnf(c,axiom,p).\n");
    assert_eq!(transcript.sent, ["hello", "add", "cnf(c,axiom,p).\n", "prove"]);
    assert!(transcript.finished);
    let transcript = e_client::execute_client_protocol(&args(&["busy"]), "p");
    assert_eq!(transcript.sent, ["hello"]);
    assert!(!transcript.finished);
}

#[test]
fn equal_time_limits_are_refused() {
    let error = check_hard_soft_limits(5, 5, true).expect_err("equal limits");
    assert_eq!(error.code(), ErrorCode::USAGE_ERROR);
    assert!(check_hard_soft_limits(6, 5, false).is_ok());
    assert!(check_hard_soft_limits(5, 6, false).is_err());
    // As unsigned values, a negative hard limit lies above every soft one.
    assert!(check_hard_soft_limits(-1, 5, true).is_ok());
}
