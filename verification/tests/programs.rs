use lib::help::is_real_text;
use lib::classify_problem::{self, ClassifyMode};
use lib::diag::ErrorCode;
use lib::direct_examples;
use lib::e_deduction_server::IoFormat;
use lib::ekb_create::{self, creation_steps, kb_description, step_failure, KbStep, DEFAULT_KB_NAME, KB_VERSION};
use lib::enormalizer;
use lib::eground;
use lib::epatternize;
use lib::resources::MEGA;
use lib::session::{finish, Session, OUTPUT_CLOSE_ERROR};
use lib::version::{footer, VERSION};

fn args(list: &[&str]) -> Vec<String> {
    list.iter().map(|s| s.to_string()).collect()
}

// umlaut-direct-examples

#[test]
fn direct_examples_help_and_version_preserve_c_text() {
    let p = direct_examples::PROGRAM_NAME;
    let (rep, _) = direct_examples::run(&args(&[p, "--help"]));
    let status = finish(&rep, true).expect("help");
    assert_eq!(status, 0);
    let help = rep.stdout;
    assert!(help.starts_with(&format!("\n\n{p} {VERSION}\n\n")));
    assert!(help.contains("Usage: umlaut-direct-examples [options] [files]"));
    assert!(help.contains("generate training examples"));
    assert!(rep.stderr.is_empty());

    let (rep, _) = direct_examples::run(&args(&[p, "-V"]));
    let status = finish(&rep, true).expect("version");
    assert_eq!(status, 0);
    assert_eq!(rep.stdout, format!("{p} {VERSION}\n"));
    assert!(rep.stderr.is_empty());
}

#[test]
fn process_options_records_negative_selection_options() {
    let p = direct_examples::PROGRAM_NAME;
    let mut sess = Session::new(0, 1);
    let command = direct_examples::process_options(
        &args(&[
            p,
            "--verbose=2",
            "--output-file=examples.out",
            "--negative-example-number=7",
            "--negative-example-proportion=2.5",
            "proof.pcl",
        ]),
        &mut sess,
    )
    .expect("options parse");
    let direct_examples::Command::Execute(config) = command else {
        panic!("expected execute command");
    };
    assert_eq!(config.output_file.as_deref(), Some("examples.out"));
    let proportion: f64 = config.neg_proportion.as_deref().expect("proportion given").parse().expect("a number");
    assert_eq!(proportion.to_bits(), 2.5_f64.to_bits());
    assert_eq!(config.neg_examples, 7);
    assert_eq!(config.files, ["proof.pcl"]);
    assert_eq!(sess.verbose, 2);
    assert!(sess.stdout.is_empty());
}

#[test]
fn direct_examples_output_close_failure_uses_c_outclose_diagnostic() {
    let (rep, cfg) = direct_examples::run(&args(&[direct_examples::PROGRAM_NAME]));
    assert_eq!(cfg.expect("runs on").files, ["-"]);
    let error = finish(&rep, false).expect_err("flush failure is reported");
    assert_eq!(error.code(), ErrorCode::FILE_ERROR);
    assert_eq!(error.message(), OUTPUT_CLOSE_ERROR);
    assert!(rep.stderr.is_empty());
}

#[test]
fn print_help_mentions_training_examples() {
    assert!(direct_examples::print_help().contains("generate training examples"));
}

#[test]
fn direct_examples_defaults_and_output_dash() {
    let (rep, cfg) = direct_examples::run(&args(&[direct_examples::PROGRAM_NAME, "-o", "-"]));
    let cfg = cfg.expect("runs on");
    assert_eq!(cfg.neg_examples, 200);
    assert_eq!(cfg.neg_proportion, None);
    assert_eq!(rep.output_file, None);
    let (rep, _) = direct_examples::run(&args(&[direct_examples::PROGRAM_NAME, "-o", "out.txt", "a", "b"]));
    assert_eq!(rep.output_file.as_deref(), Some("out.txt"));
}

// ekb_create

#[test]
fn ekb_create_help_and_version_preserve_c_text() {
    let p = ekb_create::PROGRAM_NAME;
    let (rep, _) = ekb_create::run(&args(&[p, "--help"]));
    assert_eq!(finish(&rep, true).expect("help"), 0);
    let help = rep.stdout;
    assert!(help.starts_with(&format!("\n\n{p} {VERSION}\n\n")));
    assert!(help.contains("Usage: ekb_create [options] [<name>]"));
    assert!(help.contains("Create an empty knowledge base"));
    assert!(help.contains("--negative-example-proportion"));
    assert!(rep.stderr.is_empty());

    let (rep, _) = ekb_create::run(&args(&[p, "-V"]));
    assert_eq!(finish(&rep, true).expect("version"), 0);
    assert_eq!(rep.stdout, format!("{p} {VERSION}\n"));
    assert!(rep.stderr.is_empty());
}

#[test]
fn process_options_records_defaults_and_learning_knobs() {
    let p = ekb_create::PROGRAM_NAME;
    let mut sess = Session::new(0, 1);
    let command = ekb_create::process_options(
        &args(&[
            p,
            "--verbose",
            "--negative-example-number=-4",
            "--negative-example-proportion=0.25",
        ]),
        &mut sess,
    )
    .expect("options parse");
    let ekb_create::Command::Execute(config) = command else {
        panic!("expected execute command");
    };
    assert_eq!(config.basename, DEFAULT_KB_NAME);
    let proportion: f64 = config.neg_proportion.as_deref().expect("proportion given").parse().expect("a number");
    assert!((proportion - 0.25).abs() < f64::EPSILON);
    assert_eq!(config.neg_examples, -4);
    assert_eq!(sess.verbose, 1);
    assert!(sess.stdout.is_empty());
}

#[test]
fn ekb_create_rejects_a_second_name() {
    let mut sess = Session::new(0, 1);
    let error = ekb_create::process_options(&args(&[ekb_create::PROGRAM_NAME, "one", "two"]), &mut sess)
        .err()
        .expect("usage error");
    assert_eq!(error.code(), ErrorCode::USAGE_ERROR);
    assert_eq!(
        error.message(),
        "Only one non-option argument (name of the knowledge base) expected"
    );
}

fn describe(step: &KbStep) -> String {
    match step {
        KbStep::Note(m) => format!("note {m}"),
        KbStep::MakeDir(p, c) => format!("mkdir {p} {}", c.exit_status()),
        KbStep::WriteFile(p, t) => format!("write {p} {t}"),
        KbStep::WriteDescription(p) => format!("describe {p}"),
    }
}

#[test]
fn knowledge_base_steps_create_directory_and_files() {
    let steps: Vec<String> = creation_steps("kb").iter().map(describe).collect();
    assert_eq!(
        steps,
        [
            "note Creating base directory...\n",
            "mkdir kb 2",
            "note ...successful.\nCreating files...\n",
            "describe kb/description",
            "write kb/signature % Special function symbols that are not generalized.\n% You need to hand-hack this at the moment.\n",
            "write kb/problems % Example names and features. \n",
            "write kb/clausepatterns % Individual annotated patterns. \n",
            "note ...done.\nCreating subdirectory FILES...\n",
            "mkdir kb/FILES 4",
            "note ...done.\nNew knowledge base complete.\n",
        ]
    );
    let steps = creation_steps(DEFAULT_KB_NAME);
    assert_eq!(describe(&steps[0]), "note Using default name\n");
    assert_eq!(describe(&creation_steps("dir/")[3]), "describe dir/description");
}

#[test]
fn verbose_run_reports_c_progress_messages() {
    let (rep, plan) = ekb_create::run(&args(&[ekb_create::PROGRAM_NAME, "--verbose", "kb"]));
    let (_, steps) = plan.expect("runs on");
    let mut sess = Session::new(rep.verbose, rep.output_level);
    for step in &steps {
        if let KbStep::Note(m) = step {
            ekb_create::show_note(&mut sess, m);
        }
    }
    assert!(rep.stdout.is_empty());
    assert_eq!(
        sess.stderr,
        "ekb_create: Creating base directory...\n\
ekb_create: ...successful.\n\
Creating files...\n\
ekb_create: ...done.\n\
Creating subdirectory FILES...\n\
ekb_create: ...done.\n\
New knowledge base complete.\n"
    );
    let mut quiet = Session::new(0, 1);
    ekb_create::show_note(&mut quiet, "x\n");
    assert!(quiet.stderr.is_empty());
}

#[test]
fn existing_directory_is_rejected_like_base_mkdir_failure() {
    let steps = creation_steps("kb");
    let error = step_failure(&steps[1], "kb", "File exists (os error 17)");
    assert_eq!(error.code(), ErrorCode::SYNTAX_ERROR);
    assert_eq!(error.message(), "Cannot create base directory 'kb': File exists (os error 17)");
    let error = step_failure(&steps[8], "kb", "denied");
    assert_eq!(error.code(), ErrorCode::FILE_ERROR);
    assert_eq!(error.message(), "Cannot create base directory 'kb': denied");
    let error = step_failure(&steps[4], "kb", "full");
    assert_eq!(error.code(), ErrorCode::FILE_ERROR);
    assert_eq!(error.message(), "Cannot write file kb/signature: full");
}

#[test]
fn print_help_mentions_empty_knowledge_base() {
    assert!(ekb_create::print_help().contains("Create an empty knowledge base"));
}

// classify_problem

#[test]
fn classify_problem_help_and_version_preserve_c_text() {
    let p = classify_problem::PROGRAM_NAME;
    let (rep, _) = classify_problem::run(&args(&[p, "--help"]));
    assert_eq!(finish(&rep, true).expect("help"), 0);
    let help = rep.stdout;
    assert!(help.starts_with(&format!("\n\n{p} {VERSION}\n\n")));
    assert!(help.contains("Usage: classify_problem [options] [files]"));
    assert!(help.contains("--parse-features"));
    assert!(help.contains("Copyright (C) 1998-2009 by Stephan Schulz"));
    assert!(rep.stderr.is_empty());

    let (rep, _) = classify_problem::run(&args(&[p, "--version"]));
    assert_eq!(finish(&rep, true).expect("version"), 0);
    assert_eq!(rep.stdout, format!("{p} {VERSION}\n"));
    assert!(rep.stderr.is_empty());
}

#[test]
fn process_options_records_feature_mode_masks_limits_and_files() {
    let p = classify_problem::PROGRAM_NAME;
    let mut sess = Session::new(0, 1);
    let command = classify_problem::process_options(
        &args(&[
            p,
            "--parse-features",
            "--raw-class",
            "--verbose=2",
            "--tstp-format",
            "--free-numbers",
            "--free-objects",
            "--class-mask=aaaaaaaaaaaaa",
            "--raw-mask=aaaaaaaaaaaaaaa",
            "--ngu-absolute=false",
            "--ngu-few-limit=0.125",
            "--ngu-many-limit=0.875",
            "--ax-some-limit=7",
            "--farity-large-limit=13",
            "features.txt",
        ]),
        &mut sess,
    )
    .expect("options parse");
    let classify_problem::Command::Execute(config) = command else {
        panic!("expected execute command");
    };
    assert!(config.parse_features);
    assert!(config.raw_classify);
    assert_eq!(config.parse_format, IoFormat::Tstp);
    assert_eq!(config.mask, "aaaaaaaaaaaaa");
    assert_eq!(config.raw_mask, "aaaaaaaaaaaaaaa");
    assert!(config.free_numbers && config.free_objects);
    assert_eq!(config.files, ["features.txt"]);
    assert_eq!(config.limits.ngu_absolute, Some(false));
    let few: f64 = config.limits.ngu_few_limit.as_deref().expect("given").parse().expect("a number");
    let many: f64 = config.limits.ngu_many_limit.as_deref().expect("given").parse().expect("a number");
    assert!((few - 0.125).abs() < f64::EPSILON);
    assert!((many - 0.875).abs() < f64::EPSILON);
    assert_eq!(config.limits.ax_some_limit, Some(7));
    assert_eq!(config.limits.far_sum_large_limit, Some(13));
    assert_eq!(sess.verbose, 2);
    assert!(sess.stdout.is_empty());
    assert_eq!(classify_problem::classify_mode(&config), ClassifyMode::RawFeatureLines);
}

#[test]
fn invalid_mask_lengths_match_c_diagnostics() {
    let p = classify_problem::PROGRAM_NAME;
    let mut sess = Session::new(0, 1);
    let error = classify_problem::process_options(&args(&[p, "--class-mask=short"]), &mut sess)
        .err()
        .expect("usage error");
    assert_eq!(error.code(), ErrorCode::USAGE_ERROR);
    assert_eq!(
        error.message(),
        "Option -c (--class-mask) requires at least 13-letter string as an argument"
    );

    let error = classify_problem::process_options(&args(&[p, "--raw-mask=short"]), &mut sess)
        .err()
        .expect("usage error");
    assert_eq!(error.code(), ErrorCode::USAGE_ERROR);
    assert_eq!(
        error.message(),
        "Option -c (--class-mask) requires at least 11-letter string as an argument"
    );
}

#[test]
fn classify_thresholds_check_the_int_range_and_select_modes() {
    let p = classify_problem::PROGRAM_NAME;
    let mut sess = Session::new(0, 1);
    let error = classify_problem::process_options(&args(&[p, "--sig-large-limit=4294967296"]), &mut sess)
        .err()
        .expect("out of range");
    assert_eq!(error.message(), "Option argument out of int range");
    let command = classify_problem::process_options(&args(&[p, "--merged-classification=5", "--no-eq-unfolding"]), &mut sess)
        .expect("options parse");
    let classify_problem::Command::Execute(config) = command else {
        panic!("expected execute command");
    };
    assert_eq!(config.eqdef_incrlimit, i64::MIN);
    assert_eq!(config.files, ["-"]);
    assert_eq!(classify_problem::classify_mode(&config), ClassifyMode::MergedProblems);
    // A three-byte character counts three times toward the mask length.
    let command = classify_problem::process_options(&args(&[p, "--raw-mask=\u{20ac}\u{20ac}\u{20ac}aa"]), &mut sess)
        .expect("options parse");
    assert!(matches!(command, classify_problem::Command::Execute(_)));
}

// enormalizer

fn expected_enormalizer_help() -> String {
    let mut expected = EN.replace("{version}", VERSION);
    expected.push_str(&footer());
    expected
}

const EN: &str = "\n\nenormalizer {version}\n\nUsage: enormalizer [options] [rulefiles]\n\nRead a set of rewrite rules (in the form of unit clauses and/or\nformulas) with a single positive literal) and sets of terms, clauses,\nand/or formulas (the \"normalization targets\", from files specified\nwith the proper options - see below) to rewrite. Rewrite rules are read\nfrom the left to right as specified in the input, without regard to any\nterm ordering.\n\nThe normalization targets are rewritten using these rewrite rules until\na normal form is reached. If the rule system is not confluent, the\nresults are deterministic but unspecified. If the rule system is not\nterminating, rewriting might get stuck into an infinite loop. \n\nThe rewrite strategy is leftmost-innermost. The order of rewrite rules\ntried at each subterm is deterministic, but unspecified and\nindependent of input order (it depends on the order in which rules are\nreturned from the perfect discrimination tree index).\n\nThe normalized terms/clauses/formulas are printed.\n\nOptions\n\n   -h\n  --help\n    Print a short description of program usage and options.\n\n  --version\n    Print the version number of the program.\n\n   -v\n  --verbose[=<arg>]\n    Verbose comments on the progress of the program by printing technical\n    information to stderr. The short form or the long form without the\n    optional argument is equivalent to --verbose=1.\n\n   -t <arg>\n  --terms=<arg>\n    Name of the files containing terms to be normalized. If '-' is used as\n    the argument, terms are read from standard input.\n\n   -c <arg>\n  --clauses=<arg>\n    Name of the files containing clauses to be normalized. If '-' is used as\n    the argument, clauses are read from standard input.\n\n   -f <arg>\n  --formulas=<arg>\n    Name of the files containing fomulas to be normalized. If '-' is used as\n    the argument, formulas are read from standard input. Note that\n    formula-syntax is not supported in LOP syntax, but requires\n    --tptp2-format or --tptp3-format\n\n   -o <arg>\n  --output-file=<arg>\n    Redirect output into the named file.\n\n   -s\n  --silent\n    Equivalent to --output-level=0.\n\n   -l <arg>\n  --output-level=<arg>\n    Select an output level, greater values imply more verbose output. Level 0\n    produces nearly no output except for the final clauses, level 1 produces\n    minimal additional output. Higher levels are without meaning in\n    enormalizer (I think).\n\n  --print-statistics\n    Print a short statistical summary of clauses read and generated.\n\n   -R\n  --resources-info\n    Give some information about the resources used by the system. You will\n    usually get CPU time information. On systems returning more information\n    with the rusage() system call, you will also get information about memory\n    consumption.\n\n  --lop-in\n    Set E-LOP as the input format. If no input format is selected by this or\n    one of the following options, E will guess the input format based on the\n    first token. It will almost always correctly recognize TPTP-3, but it may\n    misidentify E-LOP files that use TPTP meta-identifiers as logical\n    symbols.\n\n  --tptp-in\n    Parse TPTP-2 format instead of E-LOP (except includes, which are handles\n    as in TPTP-3, as TPTP-2 include syntax is considered harmful).\n\n  --tptp-out\n    Print TPTP-2 format instead of E-LOP.\n\n  --tptp-format\n    Equivalent to --tptp-in and --tptp-out.\n\n  --tptp2-in\n    Synonymous with --tptp-in.\n\n  --tptp2-out\n    Synonymous with --tptp-out.\n\n  --tptp2-format\n    Synonymous with --tptp-format.\n\n  --tstp-in\n    Parse TPTP-3 format instead of E-LOP (Note that TPTP-3 syntax is still\n    under development, and the version implemented may not be fully\n    conformant at all times. It works on all TPTP 3.0.1 input files\n    (including includes).\n\n  --tstp-out\n    Print output clauses in TPTP-3 syntax.\n\n  --tstp-format\n    Equivalent to --tstp-in and --tstp-out.\n\n  --tptp3-in\n    Synonymous with --tstp-in.\n\n  --tptp3-out\n    Synonymous with --tstp-out.\n\n  --tptp3-format\n    Synonymous with --tstp-format.\n\n   -m <arg>\n  --memory-limit=<arg>\n    Limit the memory the system may use. The argument is the allowed amount\n    of memory in MB. This option may not work everywhere, due to broken\n    and/or strange behaviour of setrlimit() in some UNIX implementations. It\n    does work under all tested versions of Solaris and GNU/Linux.\n\n  --cpu-limit[=<arg>]\n    Limit the cpu time the program should run. The optional argument is the\n    CPU time in seconds. The program will terminate immediately after\n    reaching the time limit, regardless of internal state. This option may\n    not work everywhere, due to broken and/or strange behaviour of\n    setrlimit() in some UNIX implementations. It does work under all tested\n    versions of Solaris, HP-UX and GNU/Linux. As a side effect, this option\n    will inhibit core file writing. The option without the optional argument\n    is equivalent to --cpu-limit=300.\n\n  --soft-cpu-limit[=<arg>]\n    Limit the cpu time spend in grounding. After the time expires, the prover\n    will print an partial system. The option without the optional argument is\n    equivalent to --soft-cpu-limit=310.\n\n\n\n";

#[test]
fn enormalizer_help_and_version_preserve_c_text() {
    let p = enormalizer::PROGRAM_NAME;
    let mut sess = Session::new(0, 1);
    assert!(enormalizer::process_options(&args(&[p, "-V"]), &mut sess, -1).is_err());

    let mut sess = Session::new(0, 1);
    let command = enormalizer::process_options(&args(&[p, "--help"]), &mut sess, -1).expect("help option");
    assert!(matches!(command, enormalizer::Command::Exit(0)));
    assert_eq!(sess.stdout, expected_enormalizer_help());

    let mut sess = Session::new(0, 1);
    let command = enormalizer::process_options(&args(&[p, "--version"]), &mut sess, -1).expect("version option");
    assert!(matches!(command, enormalizer::Command::Exit(0)));
    assert_eq!(sess.stdout, format!("{p} {VERSION}\n"));
}

#[test]
fn enormalizer_print_help_preserves_full_c_text() {
    assert_eq!(enormalizer::print_help(), expected_enormalizer_help());
}

#[test]
fn process_options_records_targets_formats_and_limits() {
    let mut sess = Session::new(0, 1);
    let command = enormalizer::process_options(
        &args(&[
            enormalizer::PROGRAM_NAME,
            "--terms=terms.p",
            "--clauses=clauses.p",
            "--formulas=forms.p",
            "--tstp-format",
            "--tptp-out",
            "--memory-limit=12",
            "--cpu-limit=20",
            "--soft-cpu-limit=10",
            "rules.p",
        ]),
        &mut sess,
        -1,
    )
    .expect("options parse");
    let enormalizer::Command::Execute(config) = command else {
        panic!("expected execute");
    };
    assert_eq!(config.term_file.as_deref(), Some("terms.p"));
    assert_eq!(config.clause_file.as_deref(), Some("clauses.p"));
    assert_eq!(config.formula_file.as_deref(), Some("forms.p"));
    assert_eq!(config.parse_format, IoFormat::Tstp);
    assert_eq!(config.output_format, IoFormat::Tptp);
    assert_eq!(config.memory_limit, 12 * MEGA);
    assert_eq!(config.hard_cpu_limit, Some(20));
    assert_eq!(config.soft_cpu_limit, Some(10));
    assert_eq!(config.rule_files, vec!["rules.p"]);
}

#[test]
fn process_options_defaults_rules_to_stdin() {
    let mut sess = Session::new(0, 1);
    let enormalizer::Command::Execute(config) =
        enormalizer::process_options(&args(&[enormalizer::PROGRAM_NAME, "--terms=terms.p"]), &mut sess, -1)
            .expect("options parse")
    else {
        panic!("expected execute");
    };
    assert_eq!(config.rule_files, vec!["-"]);
}

#[test]
fn enormalizer_output_close_failure_uses_c_outclose_diagnostic() {
    let (rep, _) = enormalizer::run(&args(&[enormalizer::PROGRAM_NAME]), -1);
    let error = finish(&rep, false).expect_err("flush failure is reported");
    assert_eq!(error.code(), ErrorCode::FILE_ERROR);
    assert_eq!(error.message(), OUTPUT_CLOSE_ERROR);
    assert!(rep.stderr.is_empty());
}

#[test]
fn enormalizer_memory_and_time_limits() {
    let p = enormalizer::PROGRAM_NAME;
    let mut sess = Session::new(0, 1);
    let error = enormalizer::process_options(&args(&[p, "--memory-limit=Auto"]), &mut sess, -1)
        .err()
        .expect("unknown memory");
    assert_eq!(error.code(), ErrorCode::OTHER_ERROR);
    assert_eq!(error.message(), "Cannot find physical memory automatically. Give explicit value to --memory-limit");
    let command = enormalizer::process_options(&args(&[p, "--memory-limit=Auto"]), &mut sess, 1000).expect("auto");
    let enormalizer::Command::Execute(config) = command else {
        panic!("expected execute");
    };
    assert_eq!(config.memory_limit, 800 * MEGA);
    let error = enormalizer::process_options(&args(&[p, "--soft-cpu-limit=30", "--cpu-limit=20"]), &mut sess, -1)
        .err()
        .expect("limits out of order");
    assert_eq!(error.message(), "Hard time limit has to be larger than softtime limit");
    let (rep, _) = enormalizer::run(&args(&[p, "-v", "-l", "3", "r.p"]), -1);
    assert_eq!(rep.verbose, 1);
    assert_eq!(rep.output_level, 3);
}

// eground

#[test]
fn help_and_version_are_c_shaped() {
    let p = eground::PROGRAM_NAME;
    let mut sess = Session::new(0, 1);
    let command = eground::process_options(&args(&[p, "--help"]), &mut sess, -1).unwrap();
    assert!(matches!(command, eground::Command::Exit(0)));
    assert!(sess.stdout.contains(&format!("{p} {VERSION}")));
    assert!(sess.stdout.contains("Usage: eground [options] [files]"));

    let mut sess = Session::new(0, 1);
    let command = eground::process_options(&args(&[p, "--version"]), &mut sess, -1).unwrap();
    assert!(matches!(command, eground::Command::Exit(0)));
    assert_eq!(sess.stdout, format!("{p} {VERSION}\n"));
}

#[test]
fn option_parsing_preserves_defaults_and_aliases() {
    let mut sess = Session::new(0, 1);
    let command = eground::process_options(
        &args(&[
            eground::PROGRAM_NAME,
            "--tptp2-format",
            "--tptp3-out",
            "--dimacs",
            "--split-tries",
            "--no-unit-subsumption",
            "--no-unit-resolution",
            "--no-tautology-detection",
            "--suppress-result",
            "--print-statistics",
            "--constraints",
            "--local-constraints",
            "--fix-minisat",
            "--give-up=12",
            "--definitional-cnf=7",
        ]),
        &mut sess,
        -1,
    )
    .unwrap();
    let eground::Command::Execute(config) = command else {
        panic!("expected execution command");
    };
    assert_eq!(config.output_file, None);
    assert_eq!(config.parse_format, IoFormat::Tptp);
    assert_eq!(config.output_format, IoFormat::Tstp);
    assert_eq!(config.verbose_level, 0);
    assert_eq!(config.output_level, 1);
    assert!(config.print_statistics);
    assert!(!config.print_rusage);
    assert!(!config.print_result);
    assert!(config.dimacs_format);
    let g = &config.grounding;
    assert_eq!(g.split_tries, 1);
    assert!(!g.unit_subsumption);
    assert!(!g.unit_resolution);
    assert!(!g.tautology_detection);
    assert!(!g.add_single_instance);
    assert!(g.constraints);
    assert!(g.local_constraints);
    assert!(g.fix_minisat);
    assert_eq!(g.give_up, 12);
    assert_eq!(g.formula_def_limit, 7);
    assert_eq!(config.memory_limit, 0);
    assert_eq!(config.hard_cpu_limit, None);
    assert_eq!(config.soft_cpu_limit, None);
    assert_eq!(config.files, vec!["-".to_owned()]);
}

#[test]
fn split_tries_rejects_negative_values() {
    let mut sess = Session::new(0, 1);
    let err = eground::process_options(&args(&[eground::PROGRAM_NAME, "--split-tries=-1"]), &mut sess, -1)
        .err()
        .expect("usage error");
    assert_eq!(err.code(), ErrorCode::USAGE_ERROR);
}

#[test]
fn eground_output_close_failure_uses_c_outclose_diagnostic() {
    let (rep, _) = eground::run(&args(&[eground::PROGRAM_NAME, "--lop-in", "--silent"]), -1);
    let error = finish(&rep, false).unwrap_err();
    assert_eq!(error.code(), ErrorCode::FILE_ERROR);
    assert_eq!(error.message(), OUTPUT_CLOSE_ERROR);
    assert!(rep.stderr.is_empty());
}

// epatternize

fn expected_epatternize_help() -> String {
    EP.replace("{version}", VERSION)
}

const EP: &str = "\n\nepatternize {version}\n\nUsage: classify_problem [options] [files]\n\nRead sets of clauses/formulas, perform cnfization, then convert \nthe clauses to patterns and print them.\n\nOptions:\n\n   -h\n  --help\n    Print a short description of program usage and options.\n\n  --version\n    Print the version number of the program.\n\n   -v\n  --verbose[=<arg>]\n    Verbose comments on the progress of the program. This differs from the\n    output level (below) in that technical information is printed to stderr,\n    while the output level determines which logical manipulations of the\n    clauses are printed to stdout. The short form or the long form without\n    the optional argument is equivalent to --verbose=1.\n\n   -o <arg>\n  --output-file=<arg>\n    Redirect output into the named file.\n\n   -p\n  --parse-features\n    Parse precomputed feature lines, not real formulae. This conflicts with\n    the '--generate-tptp-header' option, as not all information needed for\n    this is stored in feature lines.\n\n  --lop-in\n    Set E-LOP as the input format. If no input format is selected by this or\n    one of the following options, E will guess the input format based on the\n    first token. It will almost always correctly recognize TPTP-3, but it may\n    misidentify E-LOP files that use TPTP meta-identifiers as logical\n    symbols.\n\n  --tptp-in\n    Set TPTP-2 as the input format (but note that includes are still handled\n    according to TPTP-3 semantics).\n\n  --tptp-out\n    No effect (since not clauses/formulas are printed).\n\n  --tptp-format\n    Equivalent to --tptp-in and --tptp-out.\n\n  --tstp-in\n    Parse TSTP format instead of E-LOP (not all all optional extensions are\n    currently supported).\n\n  --tstp-out\n    No effect (since not clauses/formulas are printed).\n\n  --tstp-format\n    Equivalent to --tstp-in and --tstp-out.\n\n  --tptp3-in\n    Equivalent to --tstp-in.\n\n  --tptp3-out\n    Equivalent to --tstp-out.\n\n  --tptp3-format\n    Equivalent to --tstp-format.\n\n   -r\n  --raw-class\n    Perform a raw and rough classification on the unclausified and\n    unpreprocessed problem. This is a largely independent feature put here to\n    reduce the proliferation of partially redundant programs. Note that many\n    of the limits do not apply here.\n\n  --specsig\n    Compute and print new-style features based on the distribution of symbols\n    of differnt arities.\n\n   -H\n  --generate-tptp-header\n    Generate the statistics (\"Syntax\") part of a TPTP header for the problem.\n\n  --no-preprocessing\n    Do not perform preprocessing on the initial clause set. Preprocessing\n    currently removes tautologies and orders terms, literals and clauses in a\n    certain (\"canonical\") way before anything else happens. It also unfolds\n    equational definitons (and removes them).\n\n  --eq-unfold-limit=<arg>\n    During preprocessing, limit unfolding (and removing) of equational\n    definitions to those where the expanded definiton is at most the given\n    limit bigger (in terms of standard weight) than the defined term..\n\n  --eq-unfold-maxclauses=<arg>\n    During preprocessing, don't try unfolding of equational definitions if\n    the problem has more than this limit of clauses.\n\n  --no-eq-unfolding\n    During preprocessing, abstain from unfolding (and removing) equational\n    definitions.\n\n  --sine[=<arg>]\n    Apply SInE to prune the unprocessed axioms with the specified filter.\n    'Auto' will automatically pick a filter. The option without the optional\n    argument is equivalent to --sine=Auto.\n\n  --free-numbers\n    Treat numbers (strings of decimal digits) as normal free function symbols\n    in the input. By default, number now are supposed to denote domain\n    constants and to be implicitly different from each other.\n\n  --free-objects\n    Treat object identifiers (strings in double quotes) as normal free\n    function symbols in the input. By default, object identifiers now\n    represent domain objects and are implicitly different from each other\n    (and from numbers, unless those are declared to be free).\n\n  --definitional-cnf[=<arg>]\n    Tune the clausification algorithm to introduces definitions for\n    subformulae to avoid exponential blow-up. The optional argument is a\n    fudge factor that determines when definitions are introduced. 0 disables\n    definitions completely. The default works well. The option without the\n    optional argument is equivalent to --definitional-cnf=24.\n\n  --miniscope-limit[=<arg>]\n    Set the limit of variables to miniscope per input formula. The build-in\n    default is 1000. Only applies to the new (default) clausification\n    algorithm The option without the optional argument is equivalent to\n    --miniscope-limit=2147483648.\n\n   -c <arg>\n  --class-mask=<arg>\n    Provide a mask for the class description. A mask is a 13 letter string,\n    with positions corresponding to the class descriptors. Any dash ('-') in\n    the string masks out the corresponding position in the class descriptor.\n\n  --raw-mask=<arg>\n    Provide a mask for the rawclass description. A mask is a 7 letter string,\n    with positions corresponding to the class descriptors. Any dash ('-') in\n    the string masks out the corresponding position in the class descriptor.\n\n   -a\n  --ngu-absolute[=<arg>]\n    Use absolute values (not percentages) to determine if there are few,\n    some, or many non-ground unit clauses. The short form or the long form\n    without the optional argument is equivalent to --ngu-absolute=true.\n\n   -f <arg>\n  --ngu-few-limit=<arg>\n    Set the limit (either an absolute integer value or a fraction between 0\n    and 1) for the size of the set of non-ground units to consist of 'few'\n    clauses.\n\n   -m <arg>\n  --ngu-many-limit=<arg>\n    Set the limit (either an absolute integer value or a fraction between 0\n    and 1) for the size of the set of non-ground units to consist of 'many'\n    clauses.\n\n  --gpc-absolute[=<arg>]\n    Use absolute values (not percentages) to determine if there are few,\n    some, or many non-ground unit clauses. The option without the optional\n    argument is equivalent to --gpc-absolute=true.\n\n  --gpc-few-limit=<arg>\n    Set the limit (either an absolute integer value or a fraction between 0\n    and 1) for the size of the set of ground positive clauses to consist of\n    'few' clauses.\n\n  --gpc-many-limit=<arg>\n    Set the limit (either an absolute integer value or a fraction between 0\n    and 1) for the size of the set of ground positive clauses to consist of\n    'many' clauses.\n\n  --ax-some-limit=<arg>\n    Set the minimum number of clauses for a specification to be considered to\n    be medium size with respect to this measure.\n\n  --ax-many-limit=<arg>\n    Set the minimum number of clauses for a specification to be considered to\n    be large size with respect to this measure.\n\n  --lit-some-limit=<arg>\n    Set the mimumum number of literals for a specification to be considered\n    to be medium size with respect to this measure.\n\n  --lit-many-limit=<arg>\n    Set the minimum number of literals for a specification to be considered\n    to be large size with respect to this measure.\n\n  --term-medium-limit=<arg>\n    Set the minimum number of subterms for a specification to be considered\n    to be medium size with respect to this measure.\n\n  --term-large-limit=<arg>\n    Set the minimum number of subterms for a specification to be considered\n    to be large size with respect to this measure.\n\n  --farity-medium-limit=<arg>\n    Set the minimum sum of function symbol arities for a specification to be\n    considered to be medium size with respect to this measure.\n\n  --farity-large-limit=<arg>\n    Set the minimum sum of function symbol arities for a specification to be\n    considered to be large size with respect to this measure.\n\n  --max-depth-medium-limit=<arg>\n    Set the minimum maximal clause depth for medium depth specifications.\n\n  --max-depth-deep-limit=<arg>\n    Set the minimum maximal clause depth for deep depth specifications.\n\n  --sig-medium-limit=<arg>\n    Set the minimum signature size for medium sized signatures.\n\n  --sig-large-limit=<arg>\n    Set the minimum signature size for large signatures.\n\n  --pred-const-medium-limit=<arg>\n    Set the minimum number of constant predicate symbols for medium size by\n    this measure.\n\n  --pred-const-large-limit=<arg>\n    Set the minimum number of constant predicate symbols for large size by\n    this measure.\n\n  --pred-medium-limit=<arg>\n    Set the minimum number of non-constant predicate symbols for medium size\n    by this measure.\n\n  --pred-large-limit=<arg>\n    Set the minimum number of non-constant predicate symbols for large size\n    by this measure.\n\n  --fun-const-medium-limit=<arg>\n    Set the minimum number of constant function symbols for medium size by\n    this measure.\n\n  --fun-const-large-limit=<arg>\n    Set the minimum number of constant function symbols for large size by\n    this measure.\n\n  --fun-medium-limit=<arg>\n    Set the minimum number of non-constant function symbols for medium size\n    by this measure.\n\n  --fun-large-limit=<arg>\n    Set the minimum number of non-constant function symbols for large size by\n    this measure.\n\n\nCopyright (C) 1998-2009 by Stephan Schulz, schulz@eprover.org\n\nThis program is a part of the support structure for the E equational\ntheorem prover. You can find the latest version of the E distribution\nas well as additional information at\nhttp://www.eprover.org\nThis program is free software; you can redistribute it and/or modify\nit under the terms of the GNU General Public License as published by\nthe Free Software Foundation; either version 2 of the License, or\n(at your option) any later version.\n\nThis program is distributed in the hope that it will be useful,\nbut WITHOUT ANY WARRANTY; without even the implied warranty of\nMERCHANTABILITY or FITNESS FOR A PARTICULAR PURPOSE.  See the\nGNU General Public License for more details.\n\nYou should have received a copy of the GNU General Public License\nalong with this program (it should be contained in the top level\ndirectory of the distribution in the file COPYING); if not, write to\nthe Free Software Foundation, Inc., 59 Temple Place, Suite 330,\nBoston, MA  02111-1307 USA\n\nThe original copyright holder can be contacted as\n\nStephan Schulz\nDHBW Stuttgart\nFakultaet Technik\nInformatik\nLerchenstrasse 1\n70174 Stuttgart\nGermany\n";

#[test]
fn epatternize_help_and_version_preserve_c_text() {
    let mut sess = Session::new(0, 1);
    let command = epatternize::process_options(&args(&["epatternize", "--help"]), &mut sess).unwrap();
    assert!(matches!(command, epatternize::Command::Exit(0)));
    assert_eq!(sess.stdout, expected_epatternize_help());

    let mut sess = Session::new(0, 1);
    let command = epatternize::process_options(&args(&["epatternize", "--version"]), &mut sess).unwrap();
    assert!(matches!(command, epatternize::Command::Exit(0)));
    assert_eq!(sess.stdout, format!("{} {VERSION}\n", epatternize::PROGRAM_NAME));

    let mut sess = Session::new(0, 1);
    let err = epatternize::process_options(&args(&["epatternize", "-V"]), &mut sess).err().expect("usage error");
    assert_eq!(err.code(), ErrorCode::USAGE_ERROR);
}

#[test]
fn epatternize_print_help_preserves_full_c_text() {
    assert_eq!(epatternize::print_help(), expected_epatternize_help());
}

#[test]
fn options_default_to_stdin_and_accept_compatibility_noops() {
    let mut sess = Session::new(0, 1);
    let command = epatternize::process_options(
        &args(&[
            "epatternize",
            "--tstp-format",
            "--parse-features",
            "--raw-class",
            "--specsig",
            "-H",
            "--no-preprocessing",
            "--eq-unfold-limit=7",
            "--eq-unfold-maxclauses=13",
            "--no-eq-unfolding",
            "--definitional-cnf=5",
            "--miniscope-limit=11",
            "--class-mask=aaaaaaaaaaaaa",
            "--raw-mask=aaaaaaa",
            "--free-numbers",
            "--free-objects",
        ]),
        &mut sess,
    )
    .unwrap();
    let epatternize::Command::Execute(config) = command else {
        panic!("expected execution command");
    };
    assert_eq!(config.output_file, None);
    assert_eq!(config.parse_format, IoFormat::Tstp);
    assert_eq!(config.sine, None);
    assert!(config.free_numbers);
    assert!(config.free_objects);
    assert_eq!(config.formula_def_limit, 5);
    assert_eq!(config.miniscope_limit, 11);
    assert_eq!(config.files, vec!["-".to_owned()]);
}

#[test]
fn miniscope_option_without_argument_uses_c_header_limit() {
    let mut sess = Session::new(0, 1);
    let command = epatternize::process_options(&args(&["epatternize", "--miniscope-limit"]), &mut sess)
        .expect("optional miniscope argument parses");
    let epatternize::Command::Execute(config) = command else {
        panic!("expected execution command");
    };
    assert_eq!(config.miniscope_limit, 2_147_483_648);
}

#[test]
fn masks_require_c_exact_lengths() {
    let mut sess = Session::new(0, 1);
    let class_err = epatternize::process_options(&args(&["epatternize", "--class-mask=aaaaaaaaaaaaaa"]), &mut sess)
        .err()
        .expect("usage error");
    assert_eq!(class_err.code(), ErrorCode::USAGE_ERROR);

    let raw_err = epatternize::process_options(&args(&["epatternize", "--raw-mask=aaaaaaaa"]), &mut sess)
        .err()
        .expect("usage error");
    assert_eq!(raw_err.code(), ErrorCode::USAGE_ERROR);
}

#[test]
fn epatternize_output_close_failure_uses_c_outclose_diagnostic() {
    let (rep, _) = epatternize::run(&args(&["epatternize", "--lop-in"]));
    let error = finish(&rep, false).unwrap_err();
    assert_eq!(error.code(), ErrorCode::FILE_ERROR);
    assert_eq!(error.message(), OUTPUT_CLOSE_ERROR);
    assert!(rep.stderr.is_empty());
}

#[test]
fn local_constraints_select_c_disjoint_clause_variable_policy() {
    let p = eground::PROGRAM_NAME;
    let mut sess = Session::new(0, 1);
    let eground::Command::Execute(config) =
        eground::process_options(&args(&[p, "--local-constraints"]), &mut sess, -1).unwrap()
    else {
        panic!("expected execution command");
    };
    assert!(config.grounding.local_constraints);
    assert!(config.grounding.constraints);
    let options = eground::clause_parse_options(&config);
    assert!(!options.clauses_have_local_variables);
    assert!(options.clauses_have_disjoint_variables);

    let eground::Command::Execute(config) = eground::process_options(&args(&[p]), &mut sess, -1).unwrap() else {
        panic!("expected execution command");
    };
    assert_eq!(eground::clause_parse_options(&config), eground::ClauseParseOptions::default());
}

#[test]
fn truth_value_thresholds_read_true_or_false() {
    let p = classify_problem::PROGRAM_NAME;
    let mut sess = Session::new(0, 1);
    let classify_problem::Command::Execute(config) =
        classify_problem::process_options(&args(&[p, "--ngu-absolute=true", "--gpc-absolute=false"]), &mut sess)
            .expect("true and false are truth values")
    else {
        panic!("expected execution command");
    };
    assert_eq!(config.limits.ngu_absolute, Some(true));
    assert_eq!(config.limits.gpc_absolute, Some(false));
    let error = classify_problem::process_options(&args(&[p, "--ngu-absolute=yes"]), &mut sess)
        .err()
        .expect("yes is no truth value");
    assert_eq!(error.code(), ErrorCode::USAGE_ERROR);
    assert!(error.message().ends_with("requires true or false as an argument"));
}

#[test]
fn knowledge_base_description_records_the_example_settings() {
    assert_eq!(
        kb_description("0.500000", 7),
        format!(
            "% E theorem prover knowledge base description\n\
Version     : \"{KB_VERSION}\"\n\
NegProp     : 0.500000  % Negative example proportion (successful proof search)\n\
FailExamples:        7  % Number of clauses from a failed proof search\n"
        )
    );
}

#[test]
fn real_thresholds_and_proportions_must_be_real_numbers() {
    for good in ["0.125", "1", "-2.5e3", "+.5", "7.", "1E-2", "inf", "-Infinity", "NaN"] {
        assert!(is_real_text(good), "{good} is a real number");
    }
    for bad in ["", ".", "e5", "1e", "1.5x", "0x10", "--1", " 1", "infin"] {
        assert!(!is_real_text(bad), "{bad} is no real number");
    }
    let p = classify_problem::PROGRAM_NAME;
    let mut sess = Session::new(0, 1);
    let classify_problem::Command::Execute(config) =
        classify_problem::process_options(&args(&[p, "--ngu-few-limit=0.125", "--ngu-many-limit=0.875"]), &mut sess)
            .expect("real thresholds")
    else {
        panic!("expected execution command");
    };
    assert_eq!(config.limits.ngu_few_limit.as_deref(), Some("0.125"));
    let error = classify_problem::process_options(&args(&[p, "--gpc-many-limit=many"]), &mut sess)
        .err()
        .expect("many is no real number");
    assert_eq!(error.code(), ErrorCode::USAGE_ERROR);
    assert!(error.message().ends_with("--gpc-many-limit requires a real number as an argument"));

    let error = ekb_create::process_options(&args(&[ekb_create::PROGRAM_NAME, "-p", "half"]), &mut sess)
        .err()
        .expect("half is no real number");
    assert_eq!(error.code(), ErrorCode::USAGE_ERROR);
    assert_eq!(error.message(), "Option -p (--negative-example-proportion) requires a real number as an argument");
}
