//! The axiom filter: its options and settings, and the arguments of its
//! seeding options.
use vstd::prelude::*;
use crate::cmdline::{OptCell, OptArgType, CommandLineState, scan_from, step, args_view, opt_view, lemma_step_progress, scan_measure};
use crate::diag::{Diagnostic, ErrorCode, diag};
use crate::help::{get_int_arg, int_arg_value, int_arg_error, print_options, options_text};
use crate::session::{Session, SessionView, RunReport, saturate_i32, saturating_i32, output_target, output_target_view};
use crate::text::{push_str, push_i64, copy_string, chars_of, is_digit, digits_value, signed_decimal};
use crate::version::{VERSION, E_NICKNAME, FOOTER};
use crate::e_deduction_server::IoFormat;

verus! {

/// The name under which the program reports.
pub const PROGRAM_NAME: &'static str = "e_axfilter";

/// The usage message.
pub const C_USAGE_ERROR: &'static str = "Usage: e_axfilter <problem> [<options>]\n";

/// How seed symbols are subsampled.
#[derive(Clone, Copy, Debug, PartialEq, Eq, Structural)]
pub enum SubsampleMethod {
    NoSample,
    Most,
    Least,
    Random,
}

/// Whether every character of `arg` is one of `legal`.
pub open spec fn letters_ok(arg: Seq<char>, legal: Seq<char>) -> bool {
    forall|i: int| 0 <= i < arg.len() ==> legal.contains(#[trigger] arg[i])
}

/// Whether a letter string holds `c`.
pub open spec fn has_letter(arg: Seq<char>, c: char) -> bool {
    arg.contains(c)
}

/// Checks that an option's argument uses only the given letters; the error
/// names the option.
pub fn check_option_letter_string(arg: &str, legal: &str, option: &str) -> (r: Result<(), Diagnostic>)
    ensures
        letters_ok(arg@, legal@) ==> r is Ok,
        !letters_ok(arg@, legal@) ==> (r matches Err(d) && d.code == ErrorCode::Usage && d.message@
            == "Illegal argument to option "@ + option@),
{
    let a = chars_of(arg);
    let l = chars_of(legal);
    let mut i: usize = 0;
    while i < a.len()
        invariant
            a@ == arg@,
            l@ == legal@,
            i <= a.len(),
            forall|k: int| 0 <= k < i ==> legal@.contains(#[trigger] arg@[k]),
        decreases a.len() - i,
    {
        let mut found = false;
        let mut j: usize = 0;
        while j < l.len()
            invariant
                a@ == arg@,
                l@ == legal@,
                i < a.len(),
                j <= l.len(),
                found ==> legal@.contains(arg@[i as int]),
                !found ==> forall|k: int| 0 <= k < j ==> l@[k] != a@[i as int],
            decreases l.len() - j,
        {
            if l[j] == a[i] {
                found = true;
            }
            j = j + 1;
        }
        if !found {
            proof {
                assert(!legal@.contains(arg@[i as int]));
            }
            let mut m = String::new();
            push_str(&mut m, "Illegal argument to option ");
            push_str(&mut m, option);
            return Err(Diagnostic::new(ErrorCode::Usage, m));
        }
        i = i + 1;
    }
    Ok(())
}

fn contains_char(s: &str, c: char) -> (b: bool)
    ensures
        b == s@.contains(c),
{
    let v = chars_of(s);
    let mut i: usize = 0;
    while i < v.len()
        invariant
            v@ == s@,
            i <= v.len(),
            forall|k: int| 0 <= k < i ==> v@[k] != c,
        decreases v.len() - i,
    {
        if v[i] == c {
            return true;
        }
        i = i + 1;
    }
    false
}

/// The leading digits of a text.
pub open spec fn digit_prefix(s: Seq<char>) -> Seq<char>
    decreases s.len(),
{
    if s.len() > 0 && is_digit(s[0]) {
        seq![s[0]] + digit_prefix(s.drop_first())
    } else {
        Seq::empty()
    }
}

/// The value of the leading digits of a text, saturated at `i64::MAX` (0
/// where there are none).
pub open spec fn atol_value(s: Seq<char>) -> int {
    let v = digits_value(digit_prefix(s)) as int;
    if v > i64::MAX {
        i64::MAX as int
    } else {
        v
    }
}

/// The method and size of a subsample argument: "m", "l" or "r" followed by
/// a number.
pub open spec fn subsample_value(arg: Seq<char>) -> Option<(SubsampleMethod, i64)> {
    if arg.len() < 2 || !(arg[0] == 'm' || arg[0] == 'l' || arg[0] == 'r') || !is_digit(arg[1]) {
        None
    } else {
        Some((if arg[0] == 'm' { SubsampleMethod::Most } else if arg[0] == 'l' { SubsampleMethod::Least } else { SubsampleMethod::Random }, atol_value(arg.drop_first()) as i64))
    }
}

pub const SUBSAMPLE_ERROR: &'static str = "Option --seed-subsample) expects argument of the form [mlr][0-9]+";

proof fn lemma_digit_prefix_take(s: Seq<char>, i: int)
    requires
        0 <= i <= s.len(),
        forall|k: int| 0 <= k < i ==> is_digit(#[trigger] s[k]),
        i == s.len() || !is_digit(s[i]),
    ensures
        digit_prefix(s) == s.take(i),
    decreases i,
{
    if i > 0 {
        lemma_digit_prefix_take(s.drop_first(), i - 1);
        assert(seq![s[0]] + s.drop_first().take(i - 1) =~= s.take(i));
    } else {
        assert(s.take(0) =~= Seq::<char>::empty());
    }
}

/// The value of the leading digits of a text, saturated at `i64::MAX`.
pub fn atol_decimal_prefix(s: &Vec<char>, from: usize) -> (v: i64)
    requires
        from <= s.len(),
    ensures
        v == atol_value(s@.skip(from as int)),
{
    let ghost t = s@.skip(from as int);
    let mut value: i64 = 0;
    let mut big = false;
    let mut i = from;
    while i < s.len() && '0' <= s[i] && s[i] <= '9'
        invariant
            from <= i <= s.len(),
            t == s@.skip(from as int),
            forall|k: int| 0 <= k < i - from ==> is_digit(#[trigger] t[k]),
            !big ==> value == digits_value(t.take(i - from)),
            big ==> value == i64::MAX && digits_value(t.take(i - from)) > i64::MAX,
            0 <= value,
        decreases s.len() - i,
    {
        let d: i64 = (s[i] as i64) - ('0' as i64);
        assert(0 <= d <= 9);
        proof {
            assert(t[i - from] == s@[i as int]);
            assert(t.take(i - from + 1).drop_last() == t.take(i - from));
            assert(t.take(i - from + 1).last() == t[i - from]);
        }
        if big || value > (i64::MAX - d) / 10 {
            proof {
                if !big {
                    assert(value * 10 + d > i64::MAX) by (nonlinear_arith)
                        requires
                            value > (i64::MAX - d) / 10,
                            0 <= d <= 9,
                    ;
                } else {
                    assert(digits_value(t.take(i - from)) * 10 + d > i64::MAX) by (nonlinear_arith)
                        requires
                            digits_value(t.take(i - from)) > i64::MAX,
                            0 <= d,
                    ;
                }
            }
            big = true;
            value = i64::MAX;
        } else {
            assert(value * 10 + d <= i64::MAX) by (nonlinear_arith)
                requires
                    value <= (i64::MAX - d) / 10,
                    0 <= d <= 9,
            ;
            value = value * 10 + d;
        }
        i = i + 1;
    }
    proof {
        if i < s.len() {
            assert(t[i - from] == s@[i as int]);
        }
        lemma_digit_prefix_take(t, i - from);
    }
    value
}

/// The argument of `--seed-subsample`: a method letter and a size.
pub fn parse_seed_subsample_arg(arg: &str) -> (r: Result<(SubsampleMethod, i64), Diagnostic>)
    ensures
        match subsample_value(arg@) {
            Some(x) => r matches Ok(y) && y == x,
            None => r matches Err(d) && d.code == ErrorCode::Usage && d.message@ == SUBSAMPLE_ERROR@,
        },
{
    let a = chars_of(arg);
    if a.len() < 2 || !(a[0] == 'm' || a[0] == 'l' || a[0] == 'r') || !('0' <= a[1] && a[1] <= '9') {
        return Err(diag(ErrorCode::Usage, SUBSAMPLE_ERROR));
    }
    let method = if a[0] == 'm' {
        SubsampleMethod::Most
    } else if a[0] == 'l' {
        SubsampleMethod::Least
    } else {
        SubsampleMethod::Random
    };
    let size = atol_decimal_prefix(&a, 1);
    proof {
        assert(a@.skip(1) == arg@.drop_first());
    }
    Ok((method, size))
}

/// The options of the program.
#[derive(Clone, Copy, Debug, PartialEq, Eq, Structural)]
pub enum OptionCode {
    Help,
    Version,
    Verbose,
    Output,
    Silent,
    OutputLevel,
    Filter,
    SeedSymbols,
    Seeds,
    SeedSubsample,
    SeedMethod,
    DumpFilter,
    LopParse,
    LopFormat,
    TptpParse,
    TptpFormat,
    TstpParse,
    TstpFormat,
}

/// The option table.
pub open spec fn option_table() -> Seq<OptCell<OptionCode>> {
    seq![
        OptCell {
            option_code: OptionCode::Help,
            short: Some('h'),
            long: "help",
            arg_type: OptArgType::NoArg,
            default: None,
            desc: "Print a short description of program usage and options.",
        },
        OptCell {
            option_code: OptionCode::Version,
            short: Some('V'),
            long: "version",
            arg_type: OptArgType::NoArg,
            default: None,
            desc: "Print the version number of the prover. Please include this with all bug reports (if any).",
        },
        OptCell {
            option_code: OptionCode::Verbose,
            short: Some('v'),
            long: "verbose",
            arg_type: OptArgType::OptArg,
            default: Some("1"),
            desc: "Verbose comments on the progress of the program. This technical information is printed to stderr.",
        },
        OptCell {
            option_code: OptionCode::Output,
            short: Some('o'),
            long: "output-file",
            arg_type: OptArgType::ReqArg,
            default: None,
            desc: "Redirect output into the named file (this affects only some output, as most is written to automatically generated files based on the input and filter names.",
        },
        OptCell {
            option_code: OptionCode::Silent,
            short: Some('s'),
            long: "silent",
            arg_type: OptArgType::NoArg,
            default: None,
            desc: "Equivalent to --output-level=0.",
        },
        OptCell {
            option_code: OptionCode::OutputLevel,
            short: Some('l'),
            long: "output-level",
            arg_type: OptArgType::ReqArg,
            default: None,
            desc: "Select an output level, greater values imply more verbose output.",
        },
        OptCell {
            option_code: OptionCode::Filter,
            short: Some('f'),
            long: "filter",
            arg_type: OptArgType::ReqArg,
            default: None,
            desc: "Specify the filter definition file. If not set, the system will uses the built-in default.",
        },
        OptCell {
            option_code: OptionCode::SeedSymbols,
            short: Some('S'),
            long: "seed-symbols",
            arg_type: OptArgType::OptArg,
            default: Some("p"),
            desc: "Enable artificial seeding of the axiom selection process and determine which symbol classes should be used to generate different sets.The argument is a string of letters, each indicating one class of symbols to use. 'p' indicates predicate symbols, 'f' non-constant function symbols, and 'c' constants. Note that this will create potentially multiple output files for each activated symbols.",
        },
        OptCell {
            option_code: OptionCode::Seeds,
            short: None,
            long: "seeds",
            arg_type: OptArgType::ReqArg,
            default: None,
            desc: "Explicitly specify the symbols that should be used as seed symbols for axiom extraction. This overwrites --seed-subsample and --seed-symbols.",
        },
        OptCell {
            option_code: OptionCode::SeedSubsample,
            short: None,
            long: "seed-subsample",
            arg_type: OptArgType::OptArg,
            default: Some("r1000"),
            desc: "Subsample from the set of eligible seed symbols. The argument is a one-character designator for the method ('m' uses the symbols that occur in the most input formulas, 'l' uses the symbols that occur in the least number of formulas, and 'r' samples randomly), followed by the number of symbols to select.",
        },
        OptCell {
            option_code: OptionCode::SeedMethod,
            short: Some('m'),
            long: "seed-method",
            arg_type: OptArgType::OptArg,
            default: Some("lda"),
            desc: "Specify how to select seed axioms when artificially seeding is used.The argument is a string of letters, each indicating one method to use. The letters are: \n'l': use the syntactically largest axiom in which the seed symbol occurs.\n'd': use the most diverse axiom in which the seed symbol occurs, i.e. the symbol with the largest set of different symbols.\n'a': use all axioms in which the seed symbol occurs.\nFor 'l' and 'd', if there are multiple candidates, use the first one.If the option is not set, 'a' is assumed.",
        },
        OptCell {
            option_code: OptionCode::DumpFilter,
            short: Some('d'),
            long: "dump-filter",
            arg_type: OptArgType::NoArg,
            default: None,
            desc: "Print the filter definition in force.",
        },
        OptCell {
            option_code: OptionCode::LopParse,
            short: None,
            long: "lop-in",
            arg_type: OptArgType::NoArg,
            default: None,
            desc: "Set E-LOP as the input format. If no input format is selected by this or one of the following options, E will guess the input format based on the first token. It will almost always correctly recognize TPTP-3, but it may misidentify E-LOP files that use TPTP meta-identifiers as logical symbols.",
        },
        OptCell {
            option_code: OptionCode::LopFormat,
            short: None,
            long: "lop-format",
            arg_type: OptArgType::NoArg,
            default: None,
            desc: "Equivalent to --lop-in.",
        },
        OptCell {
            option_code: OptionCode::TptpParse,
            short: None,
            long: "tptp-in",
            arg_type: OptArgType::NoArg,
            default: None,
            desc: "Parse TPTP-2 format instead of E-LOP (but note that includes are handled according to TPTP-3 semantics).",
        },
        OptCell {
            option_code: OptionCode::TptpFormat,
            short: None,
            long: "tptp-format",
            arg_type: OptArgType::NoArg,
            default: None,
            desc: "Equivalent to --tptp-in.",
        },
        OptCell {
            option_code: OptionCode::TptpParse,
            short: None,
            long: "tptp2-in",
            arg_type: OptArgType::NoArg,
            default: None,
            desc: "Synonymous with --tptp-in.",
        },
        OptCell {
            option_code: OptionCode::TptpFormat,
            short: None,
            long: "tptp2-format",
            arg_type: OptArgType::NoArg,
            default: None,
            desc: "Synonymous with --tptp-in.",
        },
        OptCell {
            option_code: OptionCode::TstpParse,
            short: None,
            long: "tstp-in",
            arg_type: OptArgType::NoArg,
            default: None,
            desc: "Parse TPTP-3 format instead of E-LOP (Note that TPTP-3 syntax is still under development, and the version in E may not be fully conforming at all times. E works on all TPTP 6.3.0 FOF and CNF input files (including includes).",
        },
        OptCell {
            option_code: OptionCode::TstpFormat,
            short: None,
            long: "tstp-format",
            arg_type: OptArgType::NoArg,
            default: None,
            desc: "Equivalent to --tstp-in.",
        },
        OptCell {
            option_code: OptionCode::TstpParse,
            short: None,
            long: "tptp3-in",
            arg_type: OptArgType::NoArg,
            default: None,
            desc: "Synonymous with --tstp-in.",
        },
        OptCell {
            option_code: OptionCode::TstpFormat,
            short: None,
            long: "tptp3-format",
            arg_type: OptArgType::NoArg,
            default: None,
            desc: "Synonymous with --tstp-in.",
        },
    ]
}

/// The option table.
pub fn options() -> (v: Vec<OptCell<OptionCode>>)
    ensures
        v@ == option_table(),
{
    let v = vec![
        OptCell {
            option_code: OptionCode::Help,
            short: Some('h'),
            long: "help",
            arg_type: OptArgType::NoArg,
            default: None,
            desc: "Print a short description of program usage and options.",
        },
        OptCell {
            option_code: OptionCode::Version,
            short: Some('V'),
            long: "version",
            arg_type: OptArgType::NoArg,
            default: None,
            desc: "Print the version number of the prover. Please include this with all bug reports (if any).",
        },
        OptCell {
            option_code: OptionCode::Verbose,
            short: Some('v'),
            long: "verbose",
            arg_type: OptArgType::OptArg,
            default: Some("1"),
            desc: "Verbose comments on the progress of the program. This technical information is printed to stderr.",
        },
        OptCell {
            option_code: OptionCode::Output,
            short: Some('o'),
            long: "output-file",
            arg_type: OptArgType::ReqArg,
            default: None,
            desc: "Redirect output into the named file (this affects only some output, as most is written to automatically generated files based on the input and filter names.",
        },
        OptCell {
            option_code: OptionCode::Silent,
            short: Some('s'),
            long: "silent",
            arg_type: OptArgType::NoArg,
            default: None,
            desc: "Equivalent to --output-level=0.",
        },
        OptCell {
            option_code: OptionCode::OutputLevel,
            short: Some('l'),
            long: "output-level",
            arg_type: OptArgType::ReqArg,
            default: None,
            desc: "Select an output level, greater values imply more verbose output.",
        },
        OptCell {
            option_code: OptionCode::Filter,
            short: Some('f'),
            long: "filter",
            arg_type: OptArgType::ReqArg,
            default: None,
            desc: "Specify the filter definition file. If not set, the system will uses the built-in default.",
        },
        OptCell {
            option_code: OptionCode::SeedSymbols,
            short: Some('S'),
            long: "seed-symbols",
            arg_type: OptArgType::OptArg,
            default: Some("p"),
            desc: "Enable artificial seeding of the axiom selection process and determine which symbol classes should be used to generate different sets.The argument is a string of letters, each indicating one class of symbols to use. 'p' indicates predicate symbols, 'f' non-constant function symbols, and 'c' constants. Note that this will create potentially multiple output files for each activated symbols.",
        },
        OptCell {
            option_code: OptionCode::Seeds,
            short: None,
            long: "seeds",
            arg_type: OptArgType::ReqArg,
            default: None,
            desc: "Explicitly specify the symbols that should be used as seed symbols for axiom extraction. This overwrites --seed-subsample and --seed-symbols.",
        },
        OptCell {
            option_code: OptionCode::SeedSubsample,
            short: None,
            long: "seed-subsample",
            arg_type: OptArgType::OptArg,
            default: Some("r1000"),
            desc: "Subsample from the set of eligible seed symbols. The argument is a one-character designator for the method ('m' uses the symbols that occur in the most input formulas, 'l' uses the symbols that occur in the least number of formulas, and 'r' samples randomly), followed by the number of symbols to select.",
        },
        OptCell {
            option_code: OptionCode::SeedMethod,
            short: Some('m'),
            long: "seed-method",
            arg_type: OptArgType::OptArg,
            default: Some("lda"),
            desc: "Specify how to select seed axioms when artificially seeding is used.The argument is a string of letters, each indicating one method to use. The letters are: \n'l': use the syntactically largest axiom in which the seed symbol occurs.\n'd': use the most diverse axiom in which the seed symbol occurs, i.e. the symbol with the largest set of different symbols.\n'a': use all axioms in which the seed symbol occurs.\nFor 'l' and 'd', if there are multiple candidates, use the first one.If the option is not set, 'a' is assumed.",
        },
        OptCell {
            option_code: OptionCode::DumpFilter,
            short: Some('d'),
            long: "dump-filter",
            arg_type: OptArgType::NoArg,
            default: None,
            desc: "Print the filter definition in force.",
        },
        OptCell {
            option_code: OptionCode::LopParse,
            short: None,
            long: "lop-in",
            arg_type: OptArgType::NoArg,
            default: None,
            desc: "Set E-LOP as the input format. If no input format is selected by this or one of the following options, E will guess the input format based on the first token. It will almost always correctly recognize TPTP-3, but it may misidentify E-LOP files that use TPTP meta-identifiers as logical symbols.",
        },
        OptCell {
            option_code: OptionCode::LopFormat,
            short: None,
            long: "lop-format",
            arg_type: OptArgType::NoArg,
            default: None,
            desc: "Equivalent to --lop-in.",
        },
        OptCell {
            option_code: OptionCode::TptpParse,
            short: None,
            long: "tptp-in",
            arg_type: OptArgType::NoArg,
            default: None,
            desc: "Parse TPTP-2 format instead of E-LOP (but note that includes are handled according to TPTP-3 semantics).",
        },
        OptCell {
            option_code: OptionCode::TptpFormat,
            short: None,
            long: "tptp-format",
            arg_type: OptArgType::NoArg,
            default: None,
            desc: "Equivalent to --tptp-in.",
        },
        OptCell {
            option_code: OptionCode::TptpParse,
            short: None,
            long: "tptp2-in",
            arg_type: OptArgType::NoArg,
            default: None,
            desc: "Synonymous with --tptp-in.",
        },
        OptCell {
            option_code: OptionCode::TptpFormat,
            short: None,
            long: "tptp2-format",
            arg_type: OptArgType::NoArg,
            default: None,
            desc: "Synonymous with --tptp-in.",
        },
        OptCell {
            option_code: OptionCode::TstpParse,
            short: None,
            long: "tstp-in",
            arg_type: OptArgType::NoArg,
            default: None,
            desc: "Parse TPTP-3 format instead of E-LOP (Note that TPTP-3 syntax is still under development, and the version in E may not be fully conforming at all times. E works on all TPTP 6.3.0 FOF and CNF input files (including includes).",
        },
        OptCell {
            option_code: OptionCode::TstpFormat,
            short: None,
            long: "tstp-format",
            arg_type: OptArgType::NoArg,
            default: None,
            desc: "Equivalent to --tstp-in.",
        },
        OptCell {
            option_code: OptionCode::TstpParse,
            short: None,
            long: "tptp3-in",
            arg_type: OptArgType::NoArg,
            default: None,
            desc: "Synonymous with --tstp-in.",
        },
        OptCell {
            option_code: OptionCode::TstpFormat,
            short: None,
            long: "tptp3-format",
            arg_type: OptArgType::NoArg,
            default: None,
            desc: "Synonymous with --tstp-in.",
        },
    ];
    proof {
        assert(v@ =~= option_table());
    }
    v
}

/// The settings of a run.
pub struct Config {
    pub output_file: Option<String>,
    pub filter_file: Option<String>,
    pub parse_format: IoFormat,
    pub verbose_level: i64,
    pub output_level: i64,
    pub dump_filter: bool,
    pub seed_preds: bool,
    pub seed_funs: bool,
    pub seed_consts: bool,
    pub seed_large: bool,
    pub seed_diverse: bool,
    pub seed_all: bool,
    pub seedstr: Option<String>,
    pub subsample: SubsampleMethod,
    pub sample_size: i64,
    pub files: Vec<String>,
}

/// The view of the settings of a run.
pub struct ConfigView {
    pub output_file: Option<Seq<char>>,
    pub filter_file: Option<Seq<char>>,
    pub parse_format: IoFormat,
    pub verbose_level: i64,
    pub output_level: i64,
    pub dump_filter: bool,
    pub seed_preds: bool,
    pub seed_funs: bool,
    pub seed_consts: bool,
    pub seed_large: bool,
    pub seed_diverse: bool,
    pub seed_all: bool,
    pub seedstr: Option<Seq<char>>,
    pub subsample: SubsampleMethod,
    pub sample_size: i64,
    pub files: Seq<Seq<char>>,
}

impl Config {
    pub open spec fn view(&self) -> ConfigView {
        ConfigView {
            output_file: opt_view(self.output_file),
            filter_file: opt_view(self.filter_file),
            parse_format: self.parse_format,
            verbose_level: self.verbose_level,
            output_level: self.output_level,
            dump_filter: self.dump_filter,
            seed_preds: self.seed_preds,
            seed_funs: self.seed_funs,
            seed_consts: self.seed_consts,
            seed_large: self.seed_large,
            seed_diverse: self.seed_diverse,
            seed_all: self.seed_all,
            seedstr: opt_view(self.seedstr),
            subsample: self.subsample,
            sample_size: self.sample_size,
            files: args_view(self.files@),
        }
    }
}

/// The settings before any option.
pub open spec fn default_config() -> ConfigView {
    ConfigView {
        output_file: None,
        filter_file: None,
        parse_format: IoFormat::Auto,
        verbose_level: 0,
        output_level: 1,
        dump_filter: false,
        seed_preds: false,
        seed_funs: false,
        seed_consts: false,
        seed_large: false,
        seed_diverse: false,
        seed_all: true,
        seedstr: None,
        subsample: SubsampleMethod::NoSample,
        sample_size: i64::MAX,
        files: Seq::empty(),
    }
}

/// What the options ask for: leave with a status (after help or version
/// text), or go on with the given settings.
pub enum Command {
    Exit(u8),
    Execute(Config),
}

pub enum CommandView {
    Exit(u8),
    Execute(ConfigView),
}

pub open spec fn command_view(r: Result<Command, Diagnostic>) -> Result<CommandView, (ErrorCode, Seq<char>)> {
    match r {
        Ok(Command::Exit(s)) => Ok(CommandView::Exit(s)),
        Ok(Command::Execute(c)) => Ok(CommandView::Execute(c.view())),
        Err(d) => Err((d.code, d.message@)),
    }
}

/// The outcome of one option: go on with the new session and settings, or
/// stop with a result.
pub enum OptStep {
    Go(SessionView, ConfigView),
    Stop(SessionView, Result<CommandView, (ErrorCode, Seq<char>)>),
}

/// The argument of an option, empty where it has none.
pub open spec fn arg_or_empty(a: Option<Seq<char>>) -> Seq<char> {
    match a {
        Some(x) => x,
        None => Seq::empty(),
    }
}


/// What one option does.
pub open spec fn apply_option(s: SessionView, c: ConfigView, cell: OptCell<OptionCode>, arg: Seq<char>) -> OptStep {
    match cell.option_code {
        OptionCode::Help => OptStep::Stop(SessionView { stdout: s.stdout + help_text(), ..s }, Ok(CommandView::Exit(0))),
        OptionCode::Version => OptStep::Stop(SessionView { stdout: s.stdout + PROGRAM_NAME@ + " "@ + VERSION@ + " "@ + E_NICKNAME@ + "\n"@, ..s }, Ok(CommandView::Exit(0))),
        OptionCode::Verbose => match int_arg_value(arg) {
            Some(v) => OptStep::Go(s, ConfigView { verbose_level: v as i64, ..c }),
            None => OptStep::Stop(s, Err((ErrorCode::Usage, int_arg_error(cell)))),
        },
        OptionCode::Output => OptStep::Go(s, ConfigView { output_file: Some(arg), ..c }),
        OptionCode::Silent => OptStep::Go(s, ConfigView { output_level: 0, ..c }),
        OptionCode::OutputLevel => match int_arg_value(arg) {
            Some(v) => OptStep::Go(s, ConfigView { output_level: v as i64, ..c }),
            None => OptStep::Stop(s, Err((ErrorCode::Usage, int_arg_error(cell)))),
        },
        OptionCode::Filter => OptStep::Go(s, ConfigView { filter_file: Some(arg), ..c }),
        OptionCode::SeedSymbols => if letters_ok(arg, "pfc"@) {
            OptStep::Go(s, ConfigView { seed_preds: c.seed_preds || has_letter(arg, 'p'), seed_funs: c.seed_funs || has_letter(arg, 'f'), seed_consts: c.seed_consts || has_letter(arg, 'c'), ..c })
        } else {
            OptStep::Stop(s, Err((ErrorCode::Usage, "Illegal argument to option "@ + "-S (--seed-symbols)"@)))
        },
        OptionCode::Seeds => OptStep::Go(s, ConfigView { seedstr: Some(arg), ..c }),
        OptionCode::SeedSubsample => match subsample_value(arg) {
            Some((m, n)) => OptStep::Go(s, ConfigView { subsample: m, sample_size: n, ..c }),
            None => OptStep::Stop(s, Err((ErrorCode::Usage, SUBSAMPLE_ERROR@))),
        },
        OptionCode::SeedMethod => if letters_ok(arg, "lda"@) {
            OptStep::Go(s, ConfigView { seed_large: c.seed_large || has_letter(arg, 'l'), seed_diverse: c.seed_diverse || has_letter(arg, 'd'), seed_all: has_letter(arg, 'a'), ..c })
        } else {
            OptStep::Stop(s, Err((ErrorCode::Usage, "Illegal argument to option "@ + "-m (--seed-methods)"@)))
        },
        OptionCode::DumpFilter => OptStep::Go(s, ConfigView { dump_filter: true, ..c }),
        OptionCode::LopParse => OptStep::Go(s, ConfigView { parse_format: IoFormat::Lop, ..c }),
        OptionCode::LopFormat => OptStep::Go(s, ConfigView { parse_format: IoFormat::Lop, ..c }),
        OptionCode::TptpParse => OptStep::Go(s, ConfigView { parse_format: IoFormat::Tptp, ..c }),
        OptionCode::TptpFormat => OptStep::Go(s, ConfigView { parse_format: IoFormat::Tptp, ..c }),
        OptionCode::TstpParse => OptStep::Go(s, ConfigView { parse_format: IoFormat::Tstp, ..c }),
        OptionCode::TstpFormat => OptStep::Go(s, ConfigView { parse_format: IoFormat::Tstp, ..c }),
    }
}


/// The options applied in order, then the positional arguments.
pub open spec fn options_fold(
    s: SessionView,
    c: ConfigView,
    opts: Seq<(int, Option<Seq<char>>)>,
    end: Result<Seq<Seq<char>>, Seq<char>>,
) -> (SessionView, Result<CommandView, (ErrorCode, Seq<char>)>)
    decreases opts.len(),
{
    if opts.len() == 0 {
        match end {
            Ok(rest) => (s, Ok(CommandView::Execute(ConfigView { files: rest, ..c }))),
            Err(m) => (s, Err((ErrorCode::Usage, m))),
        }
    } else {
        match apply_option(s, c, option_table()[opts[0].0], arg_or_empty(opts[0].1)) {
            OptStep::Go(s2, c2) => options_fold(s2, c2, opts.drop_first(), end),
            OptStep::Stop(s2, r) => (s2, r),
        }
    }
}

/// What the command line asks for, and the session after it.
pub open spec fn options_outcome(args: Seq<Seq<char>>, s: SessionView) -> (SessionView, Result<CommandView, (ErrorCode, Seq<char>)>) {
    let sc = crate::cmdline::scan(args, option_table());
    options_fold(s, default_config(), sc.opts, sc.end)
}


/// The help text.
pub open spec fn help_text() -> Seq<char> {
    "\n"@ + PROGRAM_NAME@ + " "@ + VERSION@ + " \""@ + E_NICKNAME@ + "\"\n\n"@ + "Usage: e_axfilter [options] [files]\n\nThis program applies SinE-like goal-directed filters to a problem\nspecification (a set of clauses and/or formulas) to generate reduced\nproblem specifications that are easier to handle for a theorem prover,\nbut still are likely to contain all the axioms necessary for a proof\n(if one exists).\n\nIn default mode, the program reads a problem specification and an\n(optional) filter specification, and produces one reduced output file \nfor each filter given. Note that while all standard input formats (LOP,\nTPTP-2 and TPTP-3 are supported, output is only and automatically in\nTPTP-3. Also note that unlike most of the other tools in the E\ndistribution, this program does not support pipe-based input and output,\nsince it uses file names generated from the input file name and filter\nnames to store the different result files\n\n"@ + "Options:\n\n"@ + options_text(option_table()) + "\n\n"@ + FOOTER@
}


/// The help text.
pub fn print_help() -> (s: String)
    ensures
        s@ == help_text(),
{
    let mut s = String::new();
    push_str(&mut s, "\n");
    push_str(&mut s, PROGRAM_NAME);
    push_str(&mut s, " ");
    push_str(&mut s, VERSION);
    push_str(&mut s, " \"");
    push_str(&mut s, E_NICKNAME);
    push_str(&mut s, "\"\n\n");
    push_str(&mut s, "Usage: e_axfilter [options] [files]\n\nThis program applies SinE-like goal-directed filters to a problem\nspecification (a set of clauses and/or formulas) to generate reduced\nproblem specifications that are easier to handle for a theorem prover,\nbut still are likely to contain all the axioms necessary for a proof\n(if one exists).\n\nIn default mode, the program reads a problem specification and an\n(optional) filter specification, and produces one reduced output file \nfor each filter given. Note that while all standard input formats (LOP,\nTPTP-2 and TPTP-3 are supported, output is only and automatically in\nTPTP-3. Also note that unlike most of the other tools in the E\ndistribution, this program does not support pipe-based input and output,\nsince it uses file names generated from the input file name and filter\nnames to store the different result files\n\n");
    let opts = options();
    let o = print_options(&opts, Some("Options:\n\n"));
    push_str(&mut s, o.as_str());
    push_str(&mut s, "\n\n");
    push_str(&mut s, FOOTER);
    s
}


/// Reads the command line.
#[verifier::rlimit(60)]
pub fn process_options(args: &Vec<String>, sess: &mut Session) -> (r: Result<Command, Diagnostic>)
    ensures
        (final(sess).view(), command_view(r)) == options_outcome(args_view(args@), old(sess).view()),
{
    let opts = options();
    let mut state = CommandLineState::new(args);
    let mut cfg = Config {
        output_file: None,
        filter_file: None,
        parse_format: IoFormat::Auto,
        verbose_level: 0,
        output_level: 1,
        dump_filter: false,
        seed_preds: false,
        seed_funs: false,
        seed_consts: false,
        seed_large: false,
        seed_diverse: false,
        seed_all: true,
        seedstr: None,
        subsample: SubsampleMethod::NoSample,
        sample_size: i64::MAX,
        files: Vec::new(),
    };
    let ghost goal = options_outcome(args_view(args@), old(sess).view());
    proof {
        assert(args_view(cfg.files@) =~= Seq::<Seq<char>>::empty());
    }
    loop
        invariant
            state.wf(),
            state.args_seq() == args_view(args@),
            opts@ == option_table(),
            goal == options_outcome(args_view(args@), old(sess).view()),
            ({
                let sc = scan_from(args_view(args@), option_table(), state.state());
                options_fold(sess.view(), cfg.view(), sc.opts, sc.end) == goal
            }),
        decreases args.len() - state.state().argi, scan_measure(args_view(args@), state.state()),
    {
        let ghost st = state.state();
        proof {
            if !st.done {
                let (st2, ev) = step(args_view(args@), option_table(), st);
                if ev is Opt {
                    lemma_step_progress(args_view(args@), option_table(), st);
                }
            }
        }
        match state.next_opt(&opts) {
            Err(d) => {
                return Err(d);
            },
            Ok(None) => {
                let rest = state.remaining_args();
                cfg.files = rest;
                return Ok(Command::Execute(cfg));
            },
            Ok(Some(p)) => {
                proof {
                    crate::cmdline::lemma_step_opt_index(args_view(args@), option_table(), st);
                }
                let cell = &opts[p.index];
                let arg: String = match &p.arg {
                    Some(a) => copy_string(a),
                    None => String::new(),
                };
                proof {
                    assert(arg@ == arg_or_empty(opt_view(p.arg)));
                }
                match cell.option_code {
                    OptionCode::Help => {
                        let h = print_help();
                        push_str(&mut sess.stdout, h.as_str());
                        return Ok(Command::Exit(0));
                    },
                    OptionCode::Version => {
                        push_str(&mut sess.stdout, PROGRAM_NAME);
                        push_str(&mut sess.stdout, " ");
                        push_str(&mut sess.stdout, VERSION);
                        push_str(&mut sess.stdout, " ");
                        push_str(&mut sess.stdout, E_NICKNAME);
                        push_str(&mut sess.stdout, "\n");
                        return Ok(Command::Exit(0));
                    },
                    OptionCode::Verbose => {
                        match get_int_arg(cell, arg.as_str()) {
                            Ok(v) => {
                                cfg.verbose_level = v;
                            },
                            Err(d) => {
                                return Err(d);
                            },
                        }
                    },
                    OptionCode::Output => {
                        cfg.output_file = Some(arg);
                    },
                    OptionCode::Silent => {
                        cfg.output_level = 0;
                    },
                    OptionCode::OutputLevel => {
                        match get_int_arg(cell, arg.as_str()) {
                            Ok(v) => {
                                cfg.output_level = v;
                            },
                            Err(d) => {
                                return Err(d);
                            },
                        }
                    },
                    OptionCode::Filter => {
                        cfg.filter_file = Some(arg);
                    },
                    OptionCode::SeedSymbols => {
                        match check_option_letter_string(arg.as_str(), "pfc", "-S (--seed-symbols)") {
                            Ok(()) => {},
                            Err(d) => {
                                return Err(d);
                            },
                        }
                        if contains_char(arg.as_str(), 'p') {
                            cfg.seed_preds = true;
                        }
                        if contains_char(arg.as_str(), 'f') {
                            cfg.seed_funs = true;
                        }
                        if contains_char(arg.as_str(), 'c') {
                            cfg.seed_consts = true;
                        }
                    },
                    OptionCode::Seeds => {
                        cfg.seedstr = Some(arg);
                    },
                    OptionCode::SeedSubsample => {
                        match parse_seed_subsample_arg(arg.as_str()) {
                            Ok((m, n)) => {
                                cfg.subsample = m;
                                cfg.sample_size = n;
                            },
                            Err(d) => {
                                return Err(d);
                            },
                        }
                    },
                    OptionCode::SeedMethod => {
                        cfg.seed_all = false;
                        match check_option_letter_string(arg.as_str(), "lda", "-m (--seed-methods)") {
                            Ok(()) => {},
                            Err(d) => {
                                return Err(d);
                            },
                        }
                        if contains_char(arg.as_str(), 'l') {
                            cfg.seed_large = true;
                        }
                        if contains_char(arg.as_str(), 'd') {
                            cfg.seed_diverse = true;
                        }
                        if contains_char(arg.as_str(), 'a') {
                            cfg.seed_all = true;
                        }
                    },
                    OptionCode::DumpFilter => {
                        cfg.dump_filter = true;
                    },
                    OptionCode::LopParse => {
                        cfg.parse_format = IoFormat::Lop;
                    },
                    OptionCode::LopFormat => {
                        cfg.parse_format = IoFormat::Lop;
                    },
                    OptionCode::TptpParse => {
                        cfg.parse_format = IoFormat::Tptp;
                    },
                    OptionCode::TptpFormat => {
                        cfg.parse_format = IoFormat::Tptp;
                    },
                    OptionCode::TstpParse => {
                        cfg.parse_format = IoFormat::Tstp;
                    },
                    OptionCode::TstpFormat => {
                        cfg.parse_format = IoFormat::Tstp;
                    },
                }
                proof {
                    let sc = scan_from(args_view(args@), option_table(), st);
                    let tail = scan_from(args_view(args@), option_table(), state.state());
                    assert(sc.opts == seq![(p.index as int, opt_view(p.arg))].add(tail.opts));
                    assert(sc.opts.drop_first() =~= tail.opts);
                }
            },
        }
    }
}


/// A command line of plain words (or plain words up to a `--`) runs with
/// every setting at its default, on the remaining words as problem files,
/// and prints nothing.
pub proof fn lemma_plain_words_use_defaults(args: Seq<Seq<char>>, k: int, s: SessionView)
    requires
        1 <= k <= args.len(),
        forall|i: int| 1 <= i < k ==> crate::cmdline::is_positional(#[trigger] args[i]),
        k == args.len() || args[k] == seq!['-', '-'],
    ensures
        options_outcome(args, s) == (s, Ok::<CommandView, (ErrorCode, Seq<char>)>(CommandView::Execute(ConfigView {
            files: if k == args.len() {
                args.subrange(1, k)
            } else {
                args.subrange(1, k) + args.subrange(k + 1, args.len() as int)
            },
            ..default_config()
        }))),
{
    crate::cmdline::lemma_scan_plain_words(args, option_table(), k);
}

/// What the signature records of a seed symbol.
pub struct SymbolInfo {
    pub name: String,
    pub arity: i64,
    pub is_predicate: bool,
}

/// The error for a seed symbol that the signature does not know.
pub open spec fn unknown_seed_error(code: i64) -> Seq<char> {
    "Seed symbol "@ + signed_decimal(code as int) + " missing from signature"@
}

fn unknown_seed_symbol(code: i64) -> (d: Diagnostic)
    ensures
        d.code == ErrorCode::Interface,
        d.message@ == unknown_seed_error(code),
{
    let mut m = String::new();
    push_str(&mut m, "Seed symbol ");
    push_i64(&mut m, code);
    push_str(&mut m, " missing from signature");
    Diagnostic { code: ErrorCode::Interface, message: m }
}

/// The header block that describes the seed of a seeded problem.
pub open spec fn seed_desc_text(code: i64, info: SymbolInfo, method: Seq<char>) -> Seq<char> {
    "% Seed symbol: "@ + info.name@ + " = "@ + signed_decimal(code as int) + "\n"@
        + "% Seeds      : "@ + method + "\n"@
        + "% Arity      : "@ + signed_decimal(info.arity as int) + "\n"@
        + "% Type       : "@ + (if info.is_predicate { "Predicate"@ } else { "Function"@ }) + "\n"@
}

/// The header block for the seed `code` (see `seed_desc_text`); an error
/// where the signature does not know the symbol.
pub fn seed_desc(code: i64, info: &Option<SymbolInfo>, method: &str) -> (r: Result<String, Diagnostic>)
    ensures
        match info {
            Some(i) => r matches Ok(t) && t@ == seed_desc_text(code, *i, method@),
            None => r matches Err(d) && d.code == ErrorCode::Interface && d.message@ == unknown_seed_error(code),
        },
{
    match info {
        None => Err(unknown_seed_symbol(code)),
        Some(i) => {
            let mut t = String::new();
            push_str(&mut t, "% Seed symbol: ");
            push_str(&mut t, i.name.as_str());
            push_str(&mut t, " = ");
            push_i64(&mut t, code);
            push_str(&mut t, "\n");
            push_str(&mut t, "% Seeds      : ");
            push_str(&mut t, method);
            push_str(&mut t, "\n");
            push_str(&mut t, "% Arity      : ");
            push_i64(&mut t, i.arity);
            push_str(&mut t, "\n");
            push_str(&mut t, "% Type       : ");
            if i.is_predicate {
                push_str(&mut t, "Predicate");
            } else {
                push_str(&mut t, "Function");
            }
            push_str(&mut t, "\n");
            proof {
                assert(t@ =~= seed_desc_text(code, *i, method@));
            }
            Ok(t)
        },
    }
}

/// The name of a seeded problem: the core name, the seeding method, the
/// symbol's kind and arity, and its code.
pub open spec fn seed_name_text(corename: Seq<char>, method_code: Seq<char>, code: i64, info: SymbolInfo) -> Seq<char> {
    corename + "_"@ + method_code + "_"@ + (if info.is_predicate { "P"@ } else { "F"@ }) + signed_decimal(info.arity as int)
        + "_"@ + signed_decimal(code as int)
}

/// See `seed_name_text`; an error where the signature does not know the
/// symbol.
pub fn seed_problem_name(corename: &str, method_code: &str, code: i64, info: &Option<SymbolInfo>) -> (r: Result<String, Diagnostic>)
    ensures
        match info {
            Some(i) => r matches Ok(t) && t@ == seed_name_text(corename@, method_code@, code, *i),
            None => r matches Err(d) && d.code == ErrorCode::Interface && d.message@ == unknown_seed_error(code),
        },
{
    match info {
        None => Err(unknown_seed_symbol(code)),
        Some(i) => {
            let mut t = String::new();
            push_str(&mut t, corename);
            push_str(&mut t, "_");
            push_str(&mut t, method_code);
            push_str(&mut t, "_");
            if i.is_predicate {
                push_str(&mut t, "P");
            } else {
                push_str(&mut t, "F");
            }
            push_i64(&mut t, i.arity);
            push_str(&mut t, "_");
            push_i64(&mut t, code);
            proof {
                assert(t@ =~= seed_name_text(corename@, method_code@, code, *i));
            }
            Ok(t)
        },
    }
}

impl Config {
    /// Whether seeding was asked for: by symbol class or by explicit seeds.
    pub fn seed_filtering_requested(&self) -> (b: bool)
        ensures
            b == (self.seed_preds || self.seed_funs || self.seed_consts || self.seedstr is Some),
    {
        self.seed_preds || self.seed_funs || self.seed_consts || self.seedstr.is_some()
    }
}

/// Whether the settings pick a symbol as a seed: predicates, function
/// symbols of positive arity and constants each by their own setting.
pub open spec fn seed_selects(s: SymbolInfo, preds: bool, funs: bool, consts: bool) -> bool {
    if s.is_predicate {
        preds
    } else if s.arity > 0 {
        funs
    } else {
        consts
    }
}

/// The seed codes among the symbols `1..=upto` of a signature whose first
/// `internal` symbols are its own (`symbols[k]` describes code `k + 1`), in
/// increasing order.
pub open spec fn seed_codes(symbols: Seq<SymbolInfo>, internal: int, preds: bool, funs: bool, consts: bool, upto: int) -> Seq<i64>
    decreases upto,
{
    if upto <= internal || upto <= 0 {
        Seq::empty()
    } else {
        let before = seed_codes(symbols, internal, preds, funs, consts, upto - 1);
        if seed_selects(symbols[upto - 1], preds, funs, consts) {
            before.push(upto as i64)
        } else {
            before
        }
    }
}

/// The symbols that the settings pick as seeds, by code: the symbols after
/// the signature's first `internal` ones, where `symbols[k]` describes code
/// `k + 1` (see `seed_codes`).
pub fn find_seed_symbols(symbols: &Vec<SymbolInfo>, internal: usize, cfg: &Config) -> (r: Vec<i64>)
    requires
        symbols.len() < i64::MAX,
    ensures
        r@ == seed_codes(symbols@, internal as int, cfg.seed_preds, cfg.seed_funs, cfg.seed_consts, symbols.len() as int),
        forall|i: int| 0 <= i < r.len() ==> internal < #[trigger] r@[i] <= symbols.len(),
        forall|i: int, j: int| 0 <= i < j < r.len() ==> #[trigger] r@[i] < #[trigger] r@[j],
        forall|c: int| internal < c <= symbols.len() && symbols@[c - 1].is_predicate ==> (#[trigger] r@.contains(c as i64)
            <==> cfg.seed_preds),
        forall|c: int| internal < c <= symbols.len() && !symbols@[c - 1].is_predicate && symbols@[c - 1].arity > 0
            ==> (#[trigger] r@.contains(c as i64) <==> cfg.seed_funs),
        forall|c: int| internal < c <= symbols.len() && !symbols@[c - 1].is_predicate && symbols@[c - 1].arity <= 0
            ==> (#[trigger] r@.contains(c as i64) <==> cfg.seed_consts),
{
    proof {
        lemma_seed_classes(symbols@, internal as int, cfg.seed_preds, cfg.seed_funs, cfg.seed_consts, symbols.len() as int);
    }
    let mut r: Vec<i64> = Vec::new();
    let mut k: usize = if internal < symbols.len() {
        internal
    } else {
        symbols.len()
    };
    proof {
        lemma_seed_codes_below(symbols@, internal as int, cfg.seed_preds, cfg.seed_funs, cfg.seed_consts, k as int);
    }
    while k < symbols.len()
        invariant
            k <= symbols.len() < i64::MAX,
            internal <= k || symbols.len() <= k,
            r@ == seed_codes(symbols@, internal as int, cfg.seed_preds, cfg.seed_funs, cfg.seed_consts, k as int),
        decreases symbols.len() - k,
    {
        let s = &symbols[k];
        let selected = if s.is_predicate {
            cfg.seed_preds
        } else if s.arity > 0 {
            cfg.seed_funs
        } else {
            cfg.seed_consts
        };
        if selected {
            r.push((k + 1) as i64);
        }
        k = k + 1;
    }
    r
}

/// Which symbols are seeds, over every signature and setting: among the
/// symbols after the signature's first `internal` ones (`symbols[k]`
/// describes code `k + 1`), a predicate is a seed exactly when predicates
/// were asked for ('p'), a function symbol of positive arity exactly when
/// function symbols were ('f'), and a constant exactly when constants were
/// ('c'); no other code is a seed, and the seeds come in increasing order.
pub proof fn lemma_seed_classes(symbols: Seq<SymbolInfo>, internal: int, preds: bool, funs: bool, consts: bool, upto: int)
    requires
        0 <= internal,
        0 <= upto <= symbols.len() < i64::MAX,
    ensures
        ({
            let r = seed_codes(symbols, internal, preds, funs, consts, upto);
            &&& forall|i: int| 0 <= i < r.len() ==> internal < #[trigger] r[i] <= upto
            &&& forall|i: int, j: int| 0 <= i < j < r.len() ==> #[trigger] r[i] < #[trigger] r[j]
            &&& forall|c: int| internal < c <= upto && symbols[c - 1].is_predicate ==> (#[trigger] r.contains(c as i64) <==> preds)
            &&& forall|c: int| internal < c <= upto && !symbols[c - 1].is_predicate && symbols[c - 1].arity > 0
                ==> (#[trigger] r.contains(c as i64) <==> funs)
            &&& forall|c: int| internal < c <= upto && !symbols[c - 1].is_predicate && symbols[c - 1].arity <= 0
                ==> (#[trigger] r.contains(c as i64) <==> consts)
        }),
    decreases upto,
{
    let r = seed_codes(symbols, internal, preds, funs, consts, upto);
    if upto <= internal || upto <= 0 {
        assert(r.len() == 0);
    } else {
        lemma_seed_classes(symbols, internal, preds, funs, consts, upto - 1);
        let before = seed_codes(symbols, internal, preds, funs, consts, upto - 1);
        let s = symbols[upto - 1];
        let sel = if s.is_predicate { preds } else if s.arity > 0 { funs } else { consts };
        assert(seed_selects(s, preds, funs, consts) == sel);
        assert(!before.contains(upto as i64)) by {
            if before.contains(upto as i64) {
                let i = choose|i: int| 0 <= i < before.len() && before[i] == upto as i64;
                assert(before[i] <= upto - 1);
            }
        }
        if sel {
            assert(r == before.push(upto as i64));
            assert forall|c: int| internal < c <= upto implies (#[trigger] r.contains(c as i64) <==> (c == upto
                || before.contains(c as i64))) by {
                if c == upto {
                    assert(r[r.len() - 1] == upto as i64);
                } else {
                    if before.contains(c as i64) {
                        let i = choose|i: int| 0 <= i < before.len() && before[i] == c as i64;
                        assert(r[i] == c as i64);
                    }
                    if r.contains(c as i64) {
                        let i = choose|i: int| 0 <= i < r.len() && r[i] == c as i64;
                        if i < before.len() {
                            assert(before[i] == c as i64);
                        }
                    }
                }
            }
        } else {
            assert(r == before);
        }
    }
}

proof fn lemma_seed_codes_below(symbols: Seq<SymbolInfo>, internal: int, preds: bool, funs: bool, consts: bool, k: int)
    requires
        0 <= k <= internal,
    ensures
        seed_codes(symbols, internal, preds, funs, consts, k) == Seq::<i64>::empty(),
{
}

/// The role of a formula in a problem, as far as seeding reads and changes it.
#[derive(Clone, Copy, Debug, PartialEq, Eq, Structural)]
pub enum FormulaRole {
    Axiom,
    Hypothesis,
    Conjecture,
    Other,
}

/// What seeding reads of the formulas of a problem: the role of each, its
/// standard weight and its symbol diversity.
pub struct FormulaModel {
    pub roles: Vec<FormulaRole>,
    pub weights: Vec<i64>,
    pub diversities: Vec<i64>,
}

impl FormulaModel {
    /// One role, one weight and one diversity per formula.
    pub open spec fn wf(&self) -> bool {
        self.weights.len() == self.roles.len() && self.diversities.len() == self.roles.len()
    }
}

/// A seeded problem: its name, the header that describes its seed, and the
/// roles of the formulas when all filters are applied to it.
pub struct SeedProblem {
    pub name: String,
    pub desc: String,
    pub roles: Vec<FormulaRole>,
}

pub struct SeedProblemView {
    pub name: Seq<char>,
    pub desc: Seq<char>,
    pub roles: Seq<FormulaRole>,
}

impl SeedProblem {
    pub open spec fn view(&self) -> SeedProblemView {
        SeedProblemView { name: self.name@, desc: self.desc@, roles: self.roles@ }
    }
}

pub open spec fn problems_view(ps: Seq<SeedProblem>) -> Seq<SeedProblemView> {
    ps.map_values(|p: SeedProblem| p.view())
}

/// The formula indices of each seed.
pub open spec fn occurrences_view(occ: Seq<Vec<usize>>) -> Seq<Seq<usize>> {
    occ.map_values(|v: Vec<usize>| v@)
}

/// What the signature records of the symbol `code` (`symbols[k]` describes
/// code `k + 1`).
pub open spec fn symbol_info(symbols: Seq<SymbolInfo>, code: i64) -> Option<SymbolInfo> {
    if 1 <= code <= symbols.len() {
        Some(symbols[code - 1])
    } else {
        None
    }
}

/// The roles after each listed formula, in turn, that is not a conjecture
/// gets the role `r`.
pub open spec fn mark_roles(roles: Seq<FormulaRole>, ids: Seq<usize>, r: FormulaRole) -> Seq<FormulaRole>
    decreases ids.len(),
{
    if ids.len() == 0 {
        roles
    } else {
        let rs = mark_roles(roles, ids.drop_last(), r);
        let k = ids.last() as int;
        if rs[k] != FormulaRole::Conjecture {
            rs.update(k, r)
        } else {
            rs
        }
    }
}

/// Among the listed formulas, in order, the first with the greatest positive
/// value, and that value (0 where none is positive).
pub open spec fn best_of(vals: Seq<i64>, ids: Seq<usize>) -> (Option<usize>, i64)
    decreases ids.len(),
{
    if ids.len() == 0 {
        (None, 0)
    } else {
        let (b, m) = best_of(vals, ids.drop_last());
        let k = ids.last();
        if vals[k as int] > m {
            (Some(k), vals[k as int])
        } else {
            (b, m)
        }
    }
}

/// The chosen formula, over every list: where no listed formula has a
/// positive value none is chosen; else the chosen one is listed, has the
/// greatest value of all listed ones, and comes first among those with it.
pub proof fn lemma_best_of(vals: Seq<i64>, ids: Seq<usize>)
    requires
        forall|t: int| 0 <= t < ids.len() ==> #[trigger] ids[t] < vals.len(),
    ensures
        ({
            let (b, m) = best_of(vals, ids);
            &&& b is None <==> (forall|t: int| 0 <= t < ids.len() ==> vals[#[trigger] ids[t] as int] <= 0)
            &&& b is None ==> m == 0
            &&& b matches Some(k) ==> m > 0 && vals[k as int] == m
                && (forall|u: int| 0 <= u < ids.len() ==> vals[#[trigger] ids[u] as int] <= m)
                && (exists|t: int| 0 <= t < ids.len() && ids[t] == k
                    && forall|u: int| 0 <= u < t ==> vals[#[trigger] ids[u] as int] < m)
        }),
    decreases ids.len(),
{
    if ids.len() > 0 {
        let init = ids.drop_last();
        lemma_best_of(vals, init);
        let (b0, m0) = best_of(vals, init);
        let (b, m) = best_of(vals, ids);
        let last = ids.last();
        let n = ids.len() - 1;
        assert(forall|u: int| 0 <= u < n ==> init[u] == ids[u]);
        if vals[last as int] > m0 {
            assert forall|u: int| 0 <= u < n implies vals[#[trigger] ids[u] as int] < m by {
                assert(init[u] == ids[u]);
                if b0 is None {
                    assert(vals[init[u] as int] <= 0);
                } else {
                    assert(vals[init[u] as int] <= m0);
                }
            }
            assert(ids[n] == last);
        } else {
            if b0 is None {
                assert(m0 == 0);
                assert forall|t: int| 0 <= t < ids.len() implies vals[#[trigger] ids[t] as int] <= 0 by {
                    if t < n {
                        assert(init[t] == ids[t]);
                    }
                }
            } else {
                let k = b0->0;
                let t = choose|t: int| 0 <= t < init.len() && init[t] == k
                    && forall|u: int| 0 <= u < t ==> vals[#[trigger] init[u] as int] < m0;
                assert(ids[t] == k);
                assert forall|u: int| 0 <= u < t implies vals[#[trigger] ids[u] as int] < m by {
                    assert(init[u] == ids[u]);
                }
                assert forall|u: int| 0 <= u < ids.len() implies vals[#[trigger] ids[u] as int] <= m by {
                    if u < n {
                        assert(init[u] == ids[u]);
                    }
                }
            }
        }
    }
}

/// Marking, over every list: each listed formula that is not a conjecture
/// gets the role `r`, every other formula keeps its role.
pub proof fn lemma_mark_roles(roles: Seq<FormulaRole>, ids: Seq<usize>, r: FormulaRole)
    requires
        r != FormulaRole::Conjecture,
        forall|t: int| 0 <= t < ids.len() ==> #[trigger] ids[t] < roles.len(),
    ensures
        mark_roles(roles, ids, r).len() == roles.len(),
        forall|j: int| 0 <= j < roles.len() ==> #[trigger] mark_roles(roles, ids, r)[j] == if (exists|t: int|
            0 <= t < ids.len() && ids[t] as int == j) && roles[j] != FormulaRole::Conjecture {
            r
        } else {
            roles[j]
        },
    decreases ids.len(),
{
    if ids.len() > 0 {
        let init = ids.drop_last();
        lemma_mark_roles(roles, init, r);
        let k = ids.last() as int;
        assert forall|j: int| 0 <= j < roles.len() implies #[trigger] mark_roles(roles, ids, r)[j] == if (exists|t: int|
            0 <= t < ids.len() && ids[t] as int == j) && roles[j] != FormulaRole::Conjecture {
            r
        } else {
            roles[j]
        } by {
            let li = ids.len() - 1;
            assert(ids[li] as int == k);
            if exists|t: int| 0 <= t < init.len() && init[t] as int == j {
                let t = choose|t: int| 0 <= t < init.len() && init[t] as int == j;
                assert(ids[t] as int == j);
            }
            if (exists|t: int| 0 <= t < ids.len() && ids[t] as int == j) && j != k {
                let t = choose|t: int| 0 <= t < ids.len() && ids[t] as int == j;
                assert(t < init.len());
                assert(init[t] as int == j);
            }
        }
    }
}

/// Seeding by all formulas with the symbol: the roles while the filters run
/// (every listed formula but a conjecture a hypothesis), and after (every
/// listed formula but a conjecture an axiom).
pub open spec fn all_roles(roles: Seq<FormulaRole>, ids: Seq<usize>) -> (Seq<FormulaRole>, Seq<FormulaRole>) {
    let s = mark_roles(roles, ids, FormulaRole::Hypothesis);
    (s, mark_roles(s, ids, FormulaRole::Axiom))
}

/// Seeding by one chosen formula with the symbol (the largest, or the most
/// diverse; see `best_of`): where that formula is an axiom it is a hypothesis
/// while the filters run. Afterwards every role is as it was.
pub open spec fn chosen_roles(roles: Seq<FormulaRole>, vals: Seq<i64>, ids: Seq<usize>) -> Seq<FormulaRole> {
    match best_of(vals, ids).0 {
        Some(k) => if roles[k as int] == FormulaRole::Axiom { roles.update(k as int, FormulaRole::Hypothesis) } else { roles },
        None => roles,
    }
}

/// The problem of one seeding method.
pub open spec fn method_problem(corename: Seq<char>, code: i64, info: SymbolInfo, method_code: Seq<char>, method: Seq<char>, roles: Seq<FormulaRole>) -> SeedProblemView {
    SeedProblemView { name: seed_name_text(corename, method_code, code, info), desc: seed_desc_text(code, info, method), roles }
}

/// One seed: the problems of the methods asked for, in the order all,
/// largest, diverse; the roles after them; and the error for a symbol that
/// the signature does not know, where any method was asked for.
pub open spec fn seed_step(cfg: Config, symbols: Seq<SymbolInfo>, m: FormulaModel, corename: Seq<char>, code: i64, ids: Seq<usize>, roles: Seq<FormulaRole>) -> (Seq<SeedProblemView>, Seq<FormulaRole>, Option<(ErrorCode, Seq<char>)>) {
    match symbol_info(symbols, code) {
        None => if cfg.seed_all || cfg.seed_large || cfg.seed_diverse {
            (Seq::empty(), roles, Some((ErrorCode::Interface, unknown_seed_error(code))))
        } else {
            (Seq::empty(), roles, None)
        },
        Some(info) => {
            let (sa, ra) = if cfg.seed_all { all_roles(roles, ids) } else { (roles, roles) };
            let pa = if cfg.seed_all { seq![method_problem(corename, code, info, "SA"@, "All"@, sa)] } else { Seq::empty() };
            let sl = chosen_roles(ra, m.weights@, ids);
            let pl = if cfg.seed_large { seq![method_problem(corename, code, info, "SL"@, "Largest"@, sl)] } else { Seq::empty() };
            let sd = chosen_roles(ra, m.diversities@, ids);
            let pd = if cfg.seed_diverse { seq![method_problem(corename, code, info, "SD"@, "Diverse"@, sd)] } else { Seq::empty() };
            (pa + pl + pd, ra, None)
        },
    }
}

/// The first `n` seeds taken from the end of the list, each with the
/// formulas that hold it, from the roles `roles`: the problems made, the
/// roles after, and the error that stopped seeding, if any.
pub open spec fn seeds_outcome(cfg: Config, symbols: Seq<SymbolInfo>, m: FormulaModel, corename: Seq<char>, seeds: Seq<i64>, occ: Seq<Seq<usize>>, roles: Seq<FormulaRole>, n: int) -> (Seq<SeedProblemView>, Seq<FormulaRole>, Option<(ErrorCode, Seq<char>)>)
    decreases n,
{
    if n <= 0 {
        (Seq::empty(), roles, None)
    } else {
        let (ps, rs, e) = seeds_outcome(cfg, symbols, m, corename, seeds, occ, roles, n - 1);
        if e is Some {
            (ps, rs, e)
        } else {
            let k = seeds.len() - n;
            let (ps2, rs2, e2) = seed_step(cfg, symbols, m, corename, seeds[k], occ[k], rs);
            (ps + ps2, rs2, e2)
        }
    }
}

/// Once an error stops seeding, later seeds change nothing.
pub proof fn lemma_seeds_outcome_stops(cfg: Config, symbols: Seq<SymbolInfo>, m: FormulaModel, corename: Seq<char>, seeds: Seq<i64>, occ: Seq<Seq<usize>>, roles: Seq<FormulaRole>, n: int, n2: int)
    requires
        0 <= n <= n2,
        seeds_outcome(cfg, symbols, m, corename, seeds, occ, roles, n).2 is Some,
    ensures
        seeds_outcome(cfg, symbols, m, corename, seeds, occ, roles, n2) == seeds_outcome(cfg, symbols, m, corename, seeds, occ, roles, n),
    decreases n2 - n,
{
    if n2 > n {
        lemma_seeds_outcome_stops(cfg, symbols, m, corename, seeds, occ, roles, n, n2 - 1);
    }
}

/// The method codes of the seeding methods asked for, in the order all,
/// largest, diverse.
pub open spec fn method_codes(cfg: Config) -> Seq<Seq<char>> {
    (if cfg.seed_all { seq!["SA"@] } else { Seq::empty() }) + (if cfg.seed_large { seq!["SL"@] } else { Seq::empty() })
        + (if cfg.seed_diverse { seq!["SD"@] } else { Seq::empty() })
}

proof fn lemma_seed_step_names(cfg: Config, symbols: Seq<SymbolInfo>, m: FormulaModel, corename: Seq<char>, code: i64, ids: Seq<usize>, roles: Seq<FormulaRole>)
    requires
        symbol_info(symbols, code) is Some,
    ensures
        ({
            let (ps, rs, e) = seed_step(cfg, symbols, m, corename, code, ids, roles);
            let mc = method_codes(cfg);
            &&& e is None
            &&& ps.len() == mc.len()
            &&& forall|j: int| 0 <= j < mc.len() ==> (#[trigger] ps[j]).name == seed_name_text(corename, mc[j], code, symbol_info(symbols, code)->0)
        }),
{
    let info = symbol_info(symbols, code)->0;
    let (ps, rs, e) = seed_step(cfg, symbols, m, corename, code, ids, roles);
    let ca: Seq<Seq<char>> = if cfg.seed_all { seq!["SA"@] } else { Seq::empty() };
    let cl: Seq<Seq<char>> = if cfg.seed_large { seq!["SL"@] } else { Seq::empty() };
    let cd: Seq<Seq<char>> = if cfg.seed_diverse { seq!["SD"@] } else { Seq::empty() };
    let (sa, ra) = if cfg.seed_all { all_roles(roles, ids) } else { (roles, roles) };
    let pa: Seq<SeedProblemView> = if cfg.seed_all { seq![method_problem(corename, code, info, "SA"@, "All"@, sa)] } else { Seq::empty() };
    let pl: Seq<SeedProblemView> = if cfg.seed_large { seq![method_problem(corename, code, info, "SL"@, "Largest"@, chosen_roles(ra, m.weights@, ids))] } else { Seq::empty() };
    let pd: Seq<SeedProblemView> = if cfg.seed_diverse { seq![method_problem(corename, code, info, "SD"@, "Diverse"@, chosen_roles(ra, m.diversities@, ids))] } else { Seq::empty() };
    assert(ps == pa + pl + pd);
    let mc = method_codes(cfg);
    assert(mc == ca + cl + cd);
    assert forall|j: int| 0 <= j < mc.len() implies (#[trigger] ps[j]).name == seed_name_text(corename, mc[j], code, info) by {
        if j < pa.len() {
            assert(ps[j] == pa[j]);
            assert(mc[j] == ca[j]);
        } else if j < pa.len() + pl.len() {
            assert(ps[j] == pl[j - pa.len()]);
            assert(mc[j] == cl[j - ca.len()]);
        } else {
            assert(ps[j] == pd[j - pa.len() - pl.len()]);
            assert(mc[j] == cd[j - ca.len() - cl.len()]);
        }
    }
}

/// Seeding order: the seeds are taken from the end of their list (a seed
/// that occurs twice is taken twice), and each seed the signature knows
/// gives one problem per method asked for, in the order all, largest,
/// diverse, named after the seed and the method.
#[verifier::rlimit(40)]
pub proof fn lemma_seed_problem_order(cfg: Config, symbols: Seq<SymbolInfo>, m: FormulaModel, corename: Seq<char>, seeds: Seq<i64>, occ: Seq<Seq<usize>>, roles: Seq<FormulaRole>, n: int)
    requires
        0 <= n <= seeds.len(),
        forall|i: int| seeds.len() - n <= i < seeds.len() ==> (#[trigger] symbol_info(symbols, seeds[i])) is Some,
    ensures
        ({
            let (ps, rs, e) = seeds_outcome(cfg, symbols, m, corename, seeds, occ, roles, n);
            let mc = method_codes(cfg);
            &&& e is None
            &&& ps.len() == n * mc.len()
            &&& forall|t: int, j: int| 0 <= t < n && 0 <= j < mc.len() ==> (#[trigger] ps[t * mc.len() + j]).name
                == seed_name_text(corename, mc[j], seeds[seeds.len() - 1 - t], symbol_info(symbols, seeds[seeds.len() - 1 - t])->0)
        }),
    decreases n,
{
    let mc = method_codes(cfg);
    let k = mc.len() as int;
    if n > 0 {
        lemma_seed_problem_order(cfg, symbols, m, corename, seeds, occ, roles, n - 1);
        let (ps0, rs0, e0) = seeds_outcome(cfg, symbols, m, corename, seeds, occ, roles, n - 1);
        let c = seeds[seeds.len() - n];
        assert(symbol_info(symbols, seeds[seeds.len() - n]) is Some);
        lemma_seed_step_names(cfg, symbols, m, corename, c, occ[seeds.len() - n], rs0);
        let (ps1, rs1, e1) = seed_step(cfg, symbols, m, corename, c, occ[seeds.len() - n], rs0);
        let (ps, rs, e) = seeds_outcome(cfg, symbols, m, corename, seeds, occ, roles, n);
        assert(e0 is None);
        assert(seeds_outcome(cfg, symbols, m, corename, seeds, occ, roles, n) == (ps0 + ps1, rs1, e1));
        assert(e is None);
        assert(ps == ps0 + ps1);
        assert(ps.len() == n * k) by (nonlinear_arith)
            requires ps.len() == ps0.len() + ps1.len(), ps0.len() == (n - 1) * k, ps1.len() == k;
        assert forall|t: int, j: int| 0 <= t < n && 0 <= j < k implies (#[trigger] ps[t * k + j]).name
            == seed_name_text(corename, mc[j], seeds[seeds.len() - 1 - t], symbol_info(symbols, seeds[seeds.len() - 1 - t])->0) by {
            if t < n - 1 {
                assert(t * k + j < (n - 1) * k) by (nonlinear_arith)
                    requires 0 <= t < n - 1, 0 <= j < k;
                assert(0 <= t * k + j) by (nonlinear_arith)
                    requires 0 <= t, 0 <= j, 0 <= k;
                assert(ps[t * k + j] == ps0[t * k + j]);
            } else {
                assert(t * k + j == (n - 1) * k + j);
                assert(ps[t * k + j] == ps1[j]);
                assert(seeds.len() - 1 - t == seeds.len() - n);
            }
        }
    }
}

fn copy_roles(v: &Vec<FormulaRole>) -> (r: Vec<FormulaRole>)
    ensures
        r@ == v@,
{
    let mut r: Vec<FormulaRole> = Vec::new();
    let mut i: usize = 0;
    while i < v.len()
        invariant
            i <= v.len(),
            r@ == v@.subrange(0, i as int),
        decreases v.len() - i,
    {
        r.push(v[i]);
        proof {
            assert(r@ =~= v@.subrange(0, i + 1));
        }
        i = i + 1;
    }
    proof {
        assert(r@ =~= v@);
    }
    r
}

/// Gives each listed formula that is not a conjecture the role `r` (see
/// `mark_roles`).
fn mark_listed(roles: &mut Vec<FormulaRole>, ids: &Vec<usize>, r: FormulaRole)
    requires
        forall|j: int| 0 <= j < ids.len() ==> #[trigger] ids[j] < old(roles).len(),
    ensures
        final(roles)@ == mark_roles(old(roles)@, ids@, r),
        final(roles).len() == old(roles).len(),
{
    let ghost r0 = roles@;
    let mut i: usize = 0;
    while i < ids.len()
        invariant
            i <= ids.len(),
            roles.len() == r0.len(),
            forall|j: int| 0 <= j < ids.len() ==> #[trigger] ids[j] < r0.len(),
            roles@ == mark_roles(r0, ids@.subrange(0, i as int), r),
        decreases ids.len() - i,
    {
        let k = ids[i];
        if roles[k] != FormulaRole::Conjecture {
            roles.set(k, r);
        }
        proof {
            assert(ids@.subrange(0, i + 1).drop_last() =~= ids@.subrange(0, i as int));
        }
        i = i + 1;
    }
    proof {
        assert(ids@.subrange(0, ids.len() as int) =~= ids@);
    }
}

/// The first listed formula with the greatest positive value (see `best_of`).
fn best_index(vals: &Vec<i64>, ids: &Vec<usize>) -> (r: Option<usize>)
    requires
        forall|j: int| 0 <= j < ids.len() ==> #[trigger] ids[j] < vals.len(),
    ensures
        r == best_of(vals@, ids@).0,
        r matches Some(k) ==> k < vals.len() && ids.len() > 0,
{
    let mut best: Option<usize> = None;
    let mut max: i64 = 0;
    let mut i: usize = 0;
    while i < ids.len()
        invariant
            i <= ids.len(),
            forall|j: int| 0 <= j < ids.len() ==> #[trigger] ids[j] < vals.len(),
            (best, max) == best_of(vals@, ids@.subrange(0, i as int)),
            best matches Some(k) ==> k < vals.len() && i > 0,
        decreases ids.len() - i,
    {
        let k = ids[i];
        if vals[k] > max {
            best = Some(k);
            max = vals[k];
        }
        proof {
            assert(ids@.subrange(0, i + 1).drop_last() =~= ids@.subrange(0, i as int));
        }
        i = i + 1;
    }
    proof {
        assert(ids@.subrange(0, ids.len() as int) =~= ids@);
    }
    best
}

/// The roles while the filters run for one chosen formula (see
/// `chosen_roles`).
fn chosen(roles: &Vec<FormulaRole>, vals: &Vec<i64>, ids: &Vec<usize>) -> (r: Vec<FormulaRole>)
    requires
        vals.len() == roles.len(),
        forall|j: int| 0 <= j < ids.len() ==> #[trigger] ids[j] < vals.len(),
    ensures
        r@ == chosen_roles(roles@, vals@, ids@),
{
    let mut r = copy_roles(roles);
    match best_index(vals, ids) {
        Some(k) => {
            if r[k] == FormulaRole::Axiom {
                r.set(k, FormulaRole::Hypothesis);
            }
        },
        None => {},
    }
    r
}

/// The problem of one seeding method, with the roles as they stand.
fn make_problem(corename: &str, code: i64, info: &Option<SymbolInfo>, method_code: &str, method: &str, roles: &Vec<FormulaRole>) -> (r: Result<SeedProblem, Diagnostic>)
    ensures
        match info {
            Some(i) => r matches Ok(p) && p.view() == method_problem(corename@, code, *i, method_code@, method@, roles@),
            None => r matches Err(d) && d.code == ErrorCode::Interface && d.message@ == unknown_seed_error(code),
        },
{
    let desc = match seed_desc(code, info, method) {
        Ok(t) => t,
        Err(d) => return Err(d),
    };
    let name = match seed_problem_name(corename, method_code, code, info) {
        Ok(t) => t,
        Err(d) => return Err(d),
    };
    Ok(SeedProblem { name, desc, roles: copy_roles(roles) })
}

/// One seed (see `seed_step`): its problems are added to `out`.
fn seed_one(cfg: &Config, symbols: &Vec<SymbolInfo>, m: &FormulaModel, corename: &str, code: i64, ids: &Vec<usize>, roles: &mut Vec<FormulaRole>, out: &mut Vec<SeedProblem>) -> (r: Result<(), Diagnostic>)
    requires
        m.wf(),
        symbols.len() < i64::MAX,
        old(roles).len() == m.roles.len(),
        forall|j: int| 0 <= j < ids.len() ==> #[trigger] ids[j] < m.roles.len(),
    ensures
        ({
            let (ps, rs, e) = seed_step(*cfg, symbols@, *m, corename@, code, ids@, old(roles)@);
            &&& problems_view(final(out)@) == problems_view(old(out)@) + ps
            &&& final(roles).len() == old(roles).len()
            &&& match e {
                None => r is Ok && final(roles)@ == rs,
                Some((c, msg)) => r matches Err(d) && d.code == c && d.message@ == msg,
            }
        }),
{
    let ghost r0 = roles@;
    let ghost o0 = out@;
    let info: Option<SymbolInfo> = if 1 <= code && code - 1 < symbols.len() as i64 {
        let s = &symbols[(code - 1) as usize];
        Some(SymbolInfo { name: copy_string(&s.name), arity: s.arity, is_predicate: s.is_predicate })
    } else {
        None
    };
    assert(info is Some <==> symbol_info(symbols@, code) is Some);
    if info.is_none() {
        proof {
            assert(o0 =~= out@);
        }
        if cfg.seed_all || cfg.seed_large || cfg.seed_diverse {
            return Err(unknown_seed_symbol(code));
        }
        return Ok(());
    }
    let ghost inf = info.unwrap();
    let ghost sinf = symbols@[code - 1];
    assert(inf.name@ == sinf.name@ && inf.arity == sinf.arity && inf.is_predicate == sinf.is_predicate);
    assert(forall|mc: Seq<char>, md: Seq<char>, rs: Seq<FormulaRole>| #[trigger] method_problem(corename@, code, inf, mc, md, rs)
        == method_problem(corename@, code, sinf, mc, md, rs));
    if cfg.seed_all {
        mark_listed(roles, ids, FormulaRole::Hypothesis);
        match make_problem(corename, code, &info, "SA", "All", roles) {
            Ok(p) => out.push(p),
            Err(d) => return Err(d),
        }
        mark_listed(roles, ids, FormulaRole::Axiom);
    }
    let ghost ra = roles@;
    let ghost oa = out@;
    if cfg.seed_large {
        let during = chosen(roles, &m.weights, ids);
        match make_problem(corename, code, &info, "SL", "Largest", &during) {
            Ok(p) => out.push(p),
            Err(d) => return Err(d),
        }
    }
    let ghost ol = out@;
    if cfg.seed_diverse {
        let during = chosen(roles, &m.diversities, ids);
        match make_problem(corename, code, &info, "SD", "Diverse", &during) {
            Ok(p) => out.push(p),
            Err(d) => return Err(d),
        }
    }
    proof {
        let (ps, rs, e) = seed_step(*cfg, symbols@, *m, corename@, code, ids@, r0);
        let pa: Seq<SeedProblemView> = if cfg.seed_all { seq![method_problem(corename@, code, inf, "SA"@, "All"@, all_roles(r0, ids@).0)] } else { Seq::empty() };
        let pl: Seq<SeedProblemView> = if cfg.seed_large { seq![method_problem(corename@, code, inf, "SL"@, "Largest"@, chosen_roles(ra, m.weights@, ids@))] } else { Seq::empty() };
        let pd: Seq<SeedProblemView> = if cfg.seed_diverse { seq![method_problem(corename@, code, inf, "SD"@, "Diverse"@, chosen_roles(ra, m.diversities@, ids@))] } else { Seq::empty() };
        assert(problems_view(oa) =~= problems_view(o0) + pa);
        assert(problems_view(ol) =~= problems_view(oa) + pl);
        assert(problems_view(out@) =~= problems_view(ol) + pd);
        assert(ps =~= pa + pl + pd);
        assert(problems_view(out@) =~= problems_view(o0) + ps);
    }
    Ok(())
}

/// Seeded filtering: the seeds are taken from the end of the list, each
/// with the indices of the formulas that hold it, and for each the methods
/// asked for give their problems in the order all, largest, diverse (see
/// `seeds_outcome`). The result holds the problems made, in order, and the
/// error that stopped seeding, if any.
pub fn seeded_filters(cfg: &Config, symbols: &Vec<SymbolInfo>, m: &FormulaModel, corename: &str, seeds: &Vec<i64>, occurrences: &Vec<Vec<usize>>) -> (r: (Vec<SeedProblem>, Result<(), Diagnostic>))
    requires
        m.wf(),
        symbols.len() < i64::MAX,
        occurrences.len() == seeds.len(),
        forall|i: int, j: int| 0 <= i < occurrences.len() && 0 <= j < occurrences[i].len() ==> #[trigger] occurrences[i][j] < m.roles.len(),
    ensures
        ({
            let (ps, rs, e) = seeds_outcome(*cfg, symbols@, *m, corename@, seeds@, occurrences_view(occurrences@), m.roles@, seeds.len() as int);
            &&& problems_view(r.0@) == ps
            &&& match e {
                None => r.1 is Ok,
                Some((c, msg)) => r.1 matches Err(d) && d.code == c && d.message@ == msg,
            }
        }),
{
    let ghost occ = occurrences_view(occurrences@);
    let mut roles = copy_roles(&m.roles);
    let mut out: Vec<SeedProblem> = Vec::new();
    let mut n: usize = 0;
    proof {
        assert(problems_view(out@) =~= Seq::<SeedProblemView>::empty());
    }
    while n < seeds.len()
        invariant
            n <= seeds.len(),
            occurrences.len() == seeds.len(),
            m.wf(),
            symbols.len() < i64::MAX,
            forall|i: int, j: int| 0 <= i < occurrences.len() && 0 <= j < occurrences[i].len() ==> #[trigger] occurrences[i][j] < m.roles.len(),
            occ == occurrences_view(occurrences@),
            roles.len() == m.roles.len(),
            ({
                let (ps, rs, e) = seeds_outcome(*cfg, symbols@, *m, corename@, seeds@, occ, m.roles@, n as int);
                &&& e is None
                &&& problems_view(out@) == ps
                &&& roles@ == rs
            }),
        decreases seeds.len() - n,
    {
        let k = seeds.len() - 1 - n;
        let ids = &occurrences[k];
        assert(forall|j: int| 0 <= j < ids.len() ==> #[trigger] ids[j] < m.roles.len()) by {
            assert forall|j: int| 0 <= j < ids.len() implies #[trigger] ids[j] < m.roles.len() by {
                assert(occurrences[k as int][j] < m.roles.len());
            }
        }
        assert(occ[k as int] == ids@);
        let res = seed_one(cfg, symbols, m, corename, seeds[k], ids, &mut roles, &mut out);
        match res {
            Err(d) => {
                proof {
                    lemma_seeds_outcome_stops(*cfg, symbols@, *m, corename@, seeds@, occ, m.roles@, n + 1, seeds.len() as int);
                }
                return (out, Err(d));
            },
            Ok(()) => {},
        }
        n = n + 1;
    }
    (out, Ok(()))
}

/// The checks that precede filtering: where asked for, the filter set in
/// force (`filters`, as printed) is written to the output first; then a
/// problem must be given.
pub fn execute_checks(cfg: &Config, filters: &str, out: &mut String) -> (r: Result<(), Diagnostic>)
    ensures
        final(out)@ == old(out)@ + (if cfg.dump_filter { filters@ } else { Seq::<char>::empty() }),
        cfg.files@.len() == 0 ==> (r matches Err(d) && d.code == ErrorCode::Usage && d.message@ == C_USAGE_ERROR@),
        cfg.files@.len() > 0 ==> r is Ok,
{
    if cfg.dump_filter {
        push_str(out, filters);
    }
    if cfg.files.len() == 0 {
        return Err(diag(ErrorCode::Usage, C_USAGE_ERROR));
    }
    Ok(())
}

/// A run up to filtering: the options, and the levels they set; where the
/// run goes on, its settings, with which `execute_checks` writes the filter
/// set where asked for and checks that a problem is given.
pub fn run(args: &Vec<String>) -> (r: (RunReport, Option<Config>))
    ensures
        ({
            let (s, cmd) = options_outcome(args_view(args@), SessionView { verbose: 0, output_level: 1, stdout: Seq::empty(), stderr: Seq::empty() });
            &&& r.0.stdout@ == s.stdout
            &&& match cmd {
                Err((code, m)) => (r.0.result matches Err(d) && d.code == code && d.message@ == m) && r.1 is None,
                Ok(CommandView::Exit(st)) => (r.0.result matches Ok(x) && x == st) && r.1 is None,
                Ok(CommandView::Execute(cv)) => r.0.verbose == saturate_i32(cv.verbose_level) && r.0.output_level
                    == cv.output_level && opt_view(r.0.output_file) == output_target_view(cv.output_file) && r.0.output@
                    == Seq::<char>::empty() && r.0.result == Ok::<u8, Diagnostic>(0) && (r.1 matches Some(c) && c.view()
                    == cv),
            }
        }),
{
    let mut sess = Session::new(0, 1);
    let cmd = process_options(args, &mut sess);
    let (result, cfg, target) = match cmd {
        Err(d) => (Err(d), None, None),
        Ok(Command::Exit(st)) => (Ok(st), None, None),
        Ok(Command::Execute(c)) => {
            let t = output_target(&c.output_file);
            sess.verbose = saturating_i32(c.verbose_level);
            sess.output_level = c.output_level;
            (Ok(0), Some(c), t)
        },
    };
    (RunReport { result, stdout: sess.stdout, output: String::new(), output_file: target, stderr: sess.stderr, verbose: sess.verbose, output_level: sess.output_level, close_output: true }, cfg)
}


} // verus!
