use lib::diag::ErrorCode;
use lib::e_axfilter::{
    self, parse_seed_subsample_arg, process_options, seeded_filters, Command, FormulaModel, FormulaRole::{Axiom, Conjecture, Hypothesis},
    SubsampleMethod,
};
use lib::e_deduction_server::IoFormat;
use lib::session::{finish, Session};
use lib::version::{footer, E_NICKNAME, VERSION};

fn args(list: &[&str]) -> Vec<String> {
    list.iter().map(|s| s.to_string()).collect()
}

fn expected_help() -> String {
    let mut expected = "\ne_axfilter {version} \"{nickname}\"\n\nUsage: e_axfilter [options] [files]\n\nThis program applies SinE-like goal-directed filters to a problem\nspecification (a set of clauses and/or formulas) to generate reduced\nproblem specifications that are easier to handle for a theorem prover,\nbut still are likely to contain all the axioms necessary for a proof\n(if one exists).\n\nIn default mode, the program reads a problem specification and an\n(optional) filter specification, and produces one reduced output file \nfor each filter given. Note that while all standard input formats (LOP,\nTPTP-2 and TPTP-3 are supported, output is only and automatically in\nTPTP-3. Also note that unlike most of the other tools in the E\ndistribution, this program does not support pipe-based input and output,\nsince it uses file names generated from the input file name and filter\nnames to store the different result files\n\nOptions:\n\n   -h\n  --help\n    Print a short description of program usage and options.\n\n   -V\n  --version\n    Print the version number of the prover. Please include this with all bug\n    reports (if any).\n\n   -v\n  --verbose[=<arg>]\n    Verbose comments on the progress of the program. This technical\n    information is printed to stderr. The short form or the long form without\n    the optional argument is equivalent to --verbose=1.\n\n   -o <arg>\n  --output-file=<arg>\n    Redirect output into the named file (this affects only some output, as\n    most is written to automatically generated files based on the input and\n    filter names.\n\n   -s\n  --silent\n    Equivalent to --output-level=0.\n\n   -l <arg>\n  --output-level=<arg>\n    Select an output level, greater values imply more verbose output.\n\n   -f <arg>\n  --filter=<arg>\n    Specify the filter definition file. If not set, the system will uses the\n    built-in default.\n\n   -S\n  --seed-symbols[=<arg>]\n    Enable artificial seeding of the axiom selection process and determine\n    which symbol classes should be used to generate different sets.The\n    argument is a string of letters, each indicating one class of symbols to\n    use. 'p' indicates predicate symbols, 'f' non-constant function symbols,\n    and 'c' constants. Note that this will create potentially multiple output\n    files for each activated symbols. The short form or the long form without\n    the optional argument is equivalent to --seed-symbols=p.\n\n  --seeds=<arg>\n    Explicitly specify the symbols that should be used as seed symbols for\n    axiom extraction. This overwrites --seed-subsample and --seed-symbols.\n\n  --seed-subsample[=<arg>]\n    Subsample from the set of eligible seed symbols. The argument is a\n    one-character designator for the method ('m' uses the symbols that occur\n    in the most input formulas, 'l' uses the symbols that occur in the least\n    number of formulas, and 'r' samples randomly), followed by the number of\n    symbols to select. The option without the optional argument is equivalent\n    to --seed-subsample=r1000.\n\n   -m\n  --seed-method[=<arg>]\n    Specify how to select seed axioms when artificially seeding is used.The\n    argument is a string of letters, each indicating one method to use. The\n    letters are: \n    'l': use the syntactically largest axiom in which the seed symbol occurs.\n    'd': use the most diverse axiom in which the seed symbol occurs, i.e. the\n    symbol with the largest set of different symbols.\n    'a': use all axioms in which the seed symbol occurs.\n    For 'l' and 'd', if there are multiple candidates, use the first one.If\n    the option is not set, 'a' is assumed. The short form or the long form\n    without the optional argument is equivalent to --seed-method=lda.\n\n   -d\n  --dump-filter\n    Print the filter definition in force.\n\n  --lop-in\n    Set E-LOP as the input format. If no input format is selected by this or\n    one of the following options, E will guess the input format based on the\n    first token. It will almost always correctly recognize TPTP-3, but it may\n    misidentify E-LOP files that use TPTP meta-identifiers as logical\n    symbols.\n\n  --lop-format\n    Equivalent to --lop-in.\n\n  --tptp-in\n    Parse TPTP-2 format instead of E-LOP (but note that includes are handled\n    according to TPTP-3 semantics).\n\n  --tptp-format\n    Equivalent to --tptp-in.\n\n  --tptp2-in\n    Synonymous with --tptp-in.\n\n  --tptp2-format\n    Synonymous with --tptp-in.\n\n  --tstp-in\n    Parse TPTP-3 format instead of E-LOP (Note that TPTP-3 syntax is still\n    under development, and the version in E may not be fully conforming at\n    all times. E works on all TPTP 6.3.0 FOF and CNF input files (including\n    includes).\n\n  --tstp-format\n    Equivalent to --tstp-in.\n\n  --tptp3-in\n    Synonymous with --tstp-in.\n\n  --tptp3-format\n    Synonymous with --tstp-in.\n\n\n\n".replace("{version}", VERSION).replace("{nickname}", E_NICKNAME);
    expected.push_str(&footer());
    expected
}

#[test]
fn e_axfilter_help_and_version_preserve_c_text() {
    let (rep, _) = e_axfilter::run(&args(&[e_axfilter::PROGRAM_NAME, "--help"]));
    let help_status = finish(&rep, true).expect("help");
    assert_eq!(help_status, ErrorCode::NO_ERROR.exit_status());
    assert_eq!(rep.stdout, expected_help());
    assert!(rep.stderr.is_empty());

    let (rep, _) = e_axfilter::run(&args(&[e_axfilter::PROGRAM_NAME, "-V"]));
    let version_status = finish(&rep, true).expect("version");
    assert_eq!(version_status, ErrorCode::NO_ERROR.exit_status());
    assert_eq!(
        rep.stdout,
        format!("{} {VERSION} {E_NICKNAME}\n", e_axfilter::PROGRAM_NAME)
    );
}

#[test]
fn process_options_records_formats_and_seed_quirks() {
    let mut sess = Session::new(0, 1);
    let command = process_options(
        &args(&[
            e_axfilter::PROGRAM_NAME,
            "--verbose=2",
            "--output-file=filter.out",
            "--filter=filters.axf",
            "--seed-symbols=pc",
            "--seed-subsample=m25extra",
            "--seed-method=ld",
            "--tptp-in",
            "--output-level=3",
            "problem.p",
        ]),
        &mut sess,
    )
    .expect("options");
    let Command::Execute(config) = command else {
        panic!("expected execute command");
    };
    assert_eq!(config.output_file.as_deref(), Some("filter.out"));
    assert_eq!(config.filter_file.as_deref(), Some("filters.axf"));
    assert_eq!(config.parse_format, IoFormat::Tptp);
    assert_eq!(config.verbose_level, 2);
    assert_eq!(config.output_level, 3);
    assert!(!config.dump_filter);
    assert!(config.seed_preds);
    assert!(!config.seed_funs);
    assert!(config.seed_consts);
    assert!(config.seed_large);
    assert!(config.seed_diverse);
    assert!(!config.seed_all);
    assert_eq!(config.seedstr, None);
    assert_eq!(config.subsample, SubsampleMethod::Most);
    assert_eq!(config.sample_size, 25);
    assert_eq!(config.files, vec!["problem.p".to_owned()]);
    assert!(sess.stdout.is_empty());
    assert!(sess.stderr.is_empty());
}

#[test]
fn e_axfilter_defaults_match_c_globals() {
    let mut sess = Session::new(0, 1);
    let command = process_options(&args(&[e_axfilter::PROGRAM_NAME, "problem.p"]), &mut sess)
        .expect("options");
    let Command::Execute(config) = command else {
        panic!("expected execute command");
    };

    assert_eq!(config.parse_format, IoFormat::Auto);
    assert_eq!(config.output_level, 1);
    assert!(config.seed_all);
    assert_eq!(config.subsample, SubsampleMethod::NoSample);
    assert_eq!(config.sample_size, i64::MAX);
    assert_eq!(config.files, ["problem.p"]);
}

#[test]
fn invalid_seed_options_report_usage_errors() {
    let mut sess = Session::new(0, 1);
    let error = process_options(
        &args(&[e_axfilter::PROGRAM_NAME, "--seed-symbols=z", "problem.p"]),
        &mut sess,
    )
    .err()
    .expect("usage error");

    assert_eq!(error.code(), ErrorCode::USAGE_ERROR);
    assert_eq!(error.message(), "Illegal argument to option -S (--seed-symbols)");

    let error = parse_seed_subsample_arg("x1").unwrap_err();
    assert_eq!(error.code(), ErrorCode::USAGE_ERROR);
    assert_eq!(
        error.message(),
        "Option --seed-subsample) expects argument of the form [mlr][0-9]+"
    );
}

#[test]
fn e_axfilter_run_applies_verbose_and_output_globals_before_usage_error() {
    let (mut rep, cfg) = e_axfilter::run(&args(&[e_axfilter::PROGRAM_NAME, "--verbose=4", "--output-level=5"]));
    let cfg = cfg.expect("settings");
    let error = e_axfilter::execute_checks(&cfg, "", &mut rep.output).unwrap_err();

    assert_eq!(error.code(), ErrorCode::USAGE_ERROR);
    assert_eq!(error.message(), e_axfilter::C_USAGE_ERROR);
    assert!(rep.output.is_empty());
    assert_eq!(rep.verbose, 4);
    assert_eq!(rep.output_level, 5);
}

#[test]
fn e_axfilter_print_help_preserves_full_c_text() {
    assert_eq!(e_axfilter::print_help(), expected_help());
}

#[test]
fn seed_method_letters_reset_the_all_default() {
    let mut sess = Session::new(0, 1);
    let command = process_options(
        &args(&[e_axfilter::PROGRAM_NAME, "--seed-method=a", "--seed-symbols=f", "--seeds=s1", "-d", "p.p"]),
        &mut sess,
    )
    .expect("options");
    let Command::Execute(config) = command else {
        panic!("expected execute command");
    };
    assert!(config.seed_all);
    assert!(!config.seed_large);
    assert!(config.seed_funs);
    assert!(config.dump_filter);
    assert_eq!(config.seedstr.as_deref(), Some("s1"));
    assert_eq!(config.files, ["p.p"]);

    // Without an argument, -m takes its default "lda" and the next word is a file.
    let command = process_options(&args(&[e_axfilter::PROGRAM_NAME, "-m", "a"]), &mut sess).expect("options");
    let Command::Execute(config) = command else {
        panic!("expected execute command");
    };
    assert!(config.seed_large && config.seed_diverse && config.seed_all);
    assert_eq!(config.files, ["a"]);
}

fn symbol(name: &str, arity: i64, is_predicate: bool) -> e_axfilter::SymbolInfo {
    e_axfilter::SymbolInfo { name: name.to_string(), arity, is_predicate }
}

#[test]
fn seed_symbols_follow_the_requested_symbol_classes() {
    let symbols = vec![
        symbol("$true", 0, true),
        symbol("p", 1, true),
        symbol("f", 2, false),
        symbol("a", 0, false),
        symbol("q", 0, true),
    ];
    let mut sess = Session::new(0, 1);
    let Command::Execute(config) =
        process_options(&args(&[e_axfilter::PROGRAM_NAME, "--seed-symbols", "problem.p"]), &mut sess).expect("options")
    else {
        panic!("expected execute command");
    };
    assert!(config.seed_filtering_requested());
    assert_eq!(e_axfilter::find_seed_symbols(&symbols, 1, &config), vec![2, 5]);

    let Command::Execute(config) =
        process_options(&args(&[e_axfilter::PROGRAM_NAME, "--seed-symbols=fc", "problem.p"]), &mut sess)
            .expect("options")
    else {
        panic!("expected execute command");
    };
    assert_eq!(e_axfilter::find_seed_symbols(&symbols, 1, &config), vec![3, 4]);

    let Command::Execute(config) =
        process_options(&args(&[e_axfilter::PROGRAM_NAME, "problem.p"]), &mut sess).expect("options")
    else {
        panic!("expected execute command");
    };
    assert!(!config.seed_filtering_requested());
    assert!(e_axfilter::find_seed_symbols(&symbols, 1, &config).is_empty());
}

#[test]
fn seeded_filters_take_seeds_from_the_end_and_methods_in_order() {
    let symbols = vec![
        symbol("$true", 0, true),
        symbol("p", 1, true),
        symbol("f", 2, false),
        symbol("a", 0, false),
        symbol("q", 0, true),
    ];
    let mut sess = Session::new(0, 1);
    let Command::Execute(config) = process_options(
        &args(&[e_axfilter::PROGRAM_NAME, "--seed-symbols", "--seed-method=lda", "prob.p"]),
        &mut sess,
    )
    .expect("options") else {
        panic!("expected execute command");
    };
    let model = FormulaModel {
        roles: vec![Axiom, Axiom, Conjecture],
        weights: vec![3, 7, 2],
        diversities: vec![4, 1, 2],
    };
    let seeds = e_axfilter::find_seed_symbols(&symbols, 1, &config);
    assert_eq!(seeds, vec![2, 5]);
    let occurrences = vec![vec![0, 1, 2], vec![2]];
    let (problems, result) = seeded_filters(&config, &symbols, &model, "prob", &seeds, &occurrences);
    assert!(result.is_ok());
    let names: Vec<&str> = problems.iter().map(|p| p.name.as_str()).collect();
    assert_eq!(
        names,
        ["prob_SA_P0_5", "prob_SL_P0_5", "prob_SD_P0_5", "prob_SA_P1_2", "prob_SL_P1_2", "prob_SD_P1_2"]
    );
    assert_eq!(
        problems[0].desc,
        "% Seed symbol: q = 5\n% Seeds      : All\n% Arity      : 0\n% Type       : Predicate\n"
    );
    assert_eq!(problems[4].desc, "% Seed symbol: p = 2\n% Seeds      : Largest\n% Arity      : 1\n% Type       : Predicate\n");
    assert_eq!(problems[0].roles, [Axiom, Axiom, Conjecture]);
    assert_eq!(problems[3].roles, [Hypothesis, Hypothesis, Conjecture]);
    assert_eq!(problems[4].roles, [Axiom, Hypothesis, Conjecture]);
    // Each method marks its own chosen axiom, and the roles are restored
    // afterwards.
    assert_eq!(problems[5].roles, [Hypothesis, Axiom, Conjecture]);
}

#[test]
fn seeded_filters_stop_at_an_unknown_seed() {
    let symbols = vec![symbol("$true", 0, true), symbol("p", 1, true)];
    let mut sess = Session::new(0, 1);
    let Command::Execute(config) =
        process_options(&args(&[e_axfilter::PROGRAM_NAME, "--seed-symbols", "prob.p"]), &mut sess).expect("options")
    else {
        panic!("expected execute command");
    };
    let model = FormulaModel { roles: vec![Axiom], weights: vec![1], diversities: vec![1] };
    let (problems, result) = seeded_filters(&config, &symbols, &model, "prob", &vec![9, 2], &vec![vec![0], vec![0]]);
    assert_eq!(problems.len(), 1);
    assert_eq!(problems[0].name, "prob_SA_P1_2");
    assert_eq!(problems[0].roles, [Hypothesis]);
    let error = result.unwrap_err();
    assert_eq!(error.code(), ErrorCode::INTERFACE_ERROR);
    assert_eq!(error.message(), "Seed symbol 9 missing from signature");
}

#[test]
fn diverse_seeding_uses_the_most_diverse_axiom() {
    let symbols = vec![symbol("$true", 0, true), symbol("p", 1, true)];
    let mut sess = Session::new(0, 1);
    let Command::Execute(config) = process_options(
        &args(&[e_axfilter::PROGRAM_NAME, "--seed-symbols", "--seed-method=d", "prob.p"]),
        &mut sess,
    )
    .expect("options") else {
        panic!("expected execute command");
    };
    let model = FormulaModel { roles: vec![Axiom, Axiom], weights: vec![1, 1], diversities: vec![5, 1] };
    let (problems, result) =
        seeded_filters(&config, &symbols, &model, "prob", &vec![2, 2], &vec![vec![0, 1], vec![0, 1]]);
    assert!(result.is_ok());
    assert_eq!(problems.len(), 2);
    assert_eq!(problems[0].name, "prob_SD_P1_2");
    assert_eq!(problems[0].roles, [Hypothesis, Axiom]);
    assert_eq!(problems[1].roles, [Hypothesis, Axiom]);
}

#[test]
fn output_dash_routes_configured_output_to_stdout_like_c() {
    let filters = "threshold010000 = Threshold(10000)\n";
    let (mut rep, cfg) = e_axfilter::run(&args(&[e_axfilter::PROGRAM_NAME, "--dump-filter", "-o", "-"]));
    let cfg = cfg.expect("settings");
    assert!(rep.output_file.is_none());
    let error = e_axfilter::execute_checks(&cfg, filters, &mut rep.output).unwrap_err();
    rep.result = Err(error);
    let error = finish(&rep, true).unwrap_err();

    assert_eq!(error.code(), ErrorCode::USAGE_ERROR);
    assert_eq!(error.message(), e_axfilter::C_USAGE_ERROR);
    assert!(rep.output.contains("threshold010000 = Threshold(10000)"));
    assert!(rep.stderr.is_empty());
}

#[test]
fn filter_set_is_written_only_when_asked_for() {
    let (mut rep, cfg) = e_axfilter::run(&args(&[e_axfilter::PROGRAM_NAME, "prob.p"]));
    let cfg = cfg.expect("settings");
    assert!(e_axfilter::execute_checks(&cfg, "tiny = Threshold(10000)\n", &mut rep.output).is_ok());
    assert!(rep.output.is_empty());
}

#[test]
fn seeded_duplicate_seeds_repeat_their_problems_in_method_order() {
    let symbols = vec![symbol("$true", 0, true), symbol("p", 1, true)];
    let mut sess = Session::new(0, 1);
    let Command::Execute(config) = process_options(
        &args(&[e_axfilter::PROGRAM_NAME, "--seed-symbols", "--seed-method=ld", "prob.p"]),
        &mut sess,
    )
    .expect("options") else {
        panic!("expected execute command");
    };
    let model = FormulaModel { roles: vec![Axiom], weights: vec![3], diversities: vec![2] };
    let (problems, result) = seeded_filters(&config, &symbols, &model, "prob", &vec![2, 2], &vec![vec![0], vec![0]]);
    assert!(result.is_ok());
    let names: Vec<&str> = problems.iter().map(|p| p.name.as_str()).collect();
    assert_eq!(names, ["prob_SL_P1_2", "prob_SD_P1_2", "prob_SL_P1_2", "prob_SD_P1_2"]);
}
