# lib

Command-line tools around the E equational theorem prover, written in Verus:
the logic of each tool is a library function with a contract, proved by Verus,
and a thin application layer does the I/O.

## Layout

- `src/` — the verified library.
  - Shared parts: `text` (strings, decimal numbers), `diag` (diagnostics),
    `cmdline` (option scanning), `help` (help text and integer arguments),
    `session` (levels, standard streams, input files supplied by the
    application), `resources` (memory and CPU limits), `version`.
  - Readers: `scanner` (tokens and error positions), `clause` (terms and
    clauses in LOP and TPTP-2 syntax, with the grammar as spec functions),
    `pcl` (PCL proof protocols).
  - One module per tool: `dpll`, `checkproof`, `e_client`, `e_server`,
    `e_deduction_server` (with `interactive` and `tcp` for its protocol),
    `e_stratpar`, `e_ltb_runner`, `e_axfilter`, `direct_examples`,
    `ekb_create`, `classify_problem`, `enormalizer`, `eground`,
    `epatternize`. Each has `process_options` (the options as a fold over the
    option table), `print_help`, and a `run`. For `dpll`, `checkproof`,
    `e_client`, `e_server` and `e_deduction_server`, `run` and the step
    functions state the whole outcome of a run on the arguments and inputs
    given (proof checking takes the external prover's answers as inputs);
    for the other tools `run` states the options and the checks before the
    work. Of that work, the library holds the batch loop of `e_ltb_runner`
    (`batch_run`, what each batch is run with, and `run_batches`, over the
    limits of each batch and the answers of its run), the filter-set dump
    and seeding of `e_axfilter` (`execute_checks`, over the printed filter
    set, and `seeded_filters`, over the roles and sizes of the formulas),
    and the decisions of `eground` around grounding (`execute_eground`,
    over the clause set's features and the grounding passes); reading
    problems, filter definitions and batch specifications,
    grounding, rewriting, patternization, classification and example
    selection are not part of it.
- `tests/` — tests of the library on concrete inputs.
- `app/` — the application around the library: reading files and standard
  input, writing the outputs, sockets and processes.

## Checking

Verus verifies `src/`; the tests run against the compiled library.
