//! Turning clauses into patterns: the options and settings of a run. The
//! classification thresholds are accepted as they are elsewhere, checked,
//! and otherwise left unused.
use vstd::prelude::*;
use crate::cmdline::{OptCell, OptArgType, CommandLineState, scan_from, step, args_view, opt_view, lemma_step_progress, scan_measure};
use crate::diag::{Diagnostic, ErrorCode, diag};
use crate::help::{get_real_arg, real_text, real_arg_error, get_bool_arg, bool_arg_value, bool_arg_error, get_int_arg, int_arg_value, int_arg_error, print_options, options_text};
use crate::session::{Session, SessionView, RunReport, saturate_i32, saturating_i32, output_target, output_target_view, input_files};
use crate::text::{push_str, copy_string, owned, utf8_len, utf8_len_at_least};
use crate::version::{VERSION, STS_MAIL, E_URL};
use crate::e_deduction_server::IoFormat;

verus! {

/// The name under which the program reports.
pub const PROGRAM_NAME: &'static str = "epatternize";

/// The definitional CNF limit unless another is given.
pub const FORMULA_DEF_LIMIT_DEFAULT: i64 = 24;

/// The miniscoping limit unless another is given.
pub const MINISCOPE_LIMIT_DEFAULT: i64 = 1000;

/// The message for a class mask of the wrong length.
pub const CLASS_MASK_ERROR: &'static str = "Option -c (--class-mask) requires 13-letter string as an argument";

/// The message for a raw mask of the wrong length (it names the class mask).
pub const RAW_MASK_ERROR: &'static str = "Option -c (--class-mask) requires 7-letter string as an argument";

/// The message for a threshold outside the 32-bit range.
pub const INT_RANGE_ERROR: &'static str = "Option argument out of int range";

/// Whether `s` takes exactly `n` bytes in UTF-8.
fn utf8_len_is(s: &str, n: usize) -> (r: bool)
    requires
        n < usize::MAX,
    ensures
        r == (utf8_len(s@) == n),
{
    utf8_len_at_least(s, n) && !utf8_len_at_least(s, n + 1)
}
/// The thresholds given on the command line; each one that is `None` keeps
/// the classification default. Proportions (real numbers) are kept as
/// given and read where the classification runs.
pub struct Limits {
    pub ngu_absolute: Option<bool>,
    pub gpc_absolute: Option<bool>,
    pub ngu_few_limit: Option<String>,
    pub ngu_many_limit: Option<String>,
    pub gpc_few_limit: Option<String>,
    pub gpc_many_limit: Option<String>,
    pub ax_some_limit: Option<i64>,
    pub ax_many_limit: Option<i64>,
    pub lit_some_limit: Option<i64>,
    pub lit_many_limit: Option<i64>,
    pub term_medium_limit: Option<i64>,
    pub term_large_limit: Option<i64>,
    pub depth_medium_limit: Option<i64>,
    pub depth_deep_limit: Option<i64>,
    pub far_sum_medium_limit: Option<i32>,
    pub far_sum_large_limit: Option<i32>,
    pub symbols_medium_limit: Option<i32>,
    pub symbols_large_limit: Option<i32>,
    pub predc_medium_limit: Option<i32>,
    pub predc_large_limit: Option<i32>,
    pub pred_medium_limit: Option<i32>,
    pub pred_large_limit: Option<i32>,
    pub func_medium_limit: Option<i32>,
    pub func_large_limit: Option<i32>,
    pub fun_medium_limit: Option<i32>,
    pub fun_large_limit: Option<i32>,
}

pub struct LimitsView {
    pub ngu_absolute: Option<bool>,
    pub gpc_absolute: Option<bool>,
    pub ngu_few_limit: Option<Seq<char>>,
    pub ngu_many_limit: Option<Seq<char>>,
    pub gpc_few_limit: Option<Seq<char>>,
    pub gpc_many_limit: Option<Seq<char>>,
    pub ax_some_limit: Option<i64>,
    pub ax_many_limit: Option<i64>,
    pub lit_some_limit: Option<i64>,
    pub lit_many_limit: Option<i64>,
    pub term_medium_limit: Option<i64>,
    pub term_large_limit: Option<i64>,
    pub depth_medium_limit: Option<i64>,
    pub depth_deep_limit: Option<i64>,
    pub far_sum_medium_limit: Option<i32>,
    pub far_sum_large_limit: Option<i32>,
    pub symbols_medium_limit: Option<i32>,
    pub symbols_large_limit: Option<i32>,
    pub predc_medium_limit: Option<i32>,
    pub predc_large_limit: Option<i32>,
    pub pred_medium_limit: Option<i32>,
    pub pred_large_limit: Option<i32>,
    pub func_medium_limit: Option<i32>,
    pub func_large_limit: Option<i32>,
    pub fun_medium_limit: Option<i32>,
    pub fun_large_limit: Option<i32>,
}

impl Limits {
    pub open spec fn view(&self) -> LimitsView {
        LimitsView {
            ngu_absolute: self.ngu_absolute,
            gpc_absolute: self.gpc_absolute,
            ngu_few_limit: opt_view(self.ngu_few_limit),
            ngu_many_limit: opt_view(self.ngu_many_limit),
            gpc_few_limit: opt_view(self.gpc_few_limit),
            gpc_many_limit: opt_view(self.gpc_many_limit),
            ax_some_limit: self.ax_some_limit,
            ax_many_limit: self.ax_many_limit,
            lit_some_limit: self.lit_some_limit,
            lit_many_limit: self.lit_many_limit,
            term_medium_limit: self.term_medium_limit,
            term_large_limit: self.term_large_limit,
            depth_medium_limit: self.depth_medium_limit,
            depth_deep_limit: self.depth_deep_limit,
            far_sum_medium_limit: self.far_sum_medium_limit,
            far_sum_large_limit: self.far_sum_large_limit,
            symbols_medium_limit: self.symbols_medium_limit,
            symbols_large_limit: self.symbols_large_limit,
            predc_medium_limit: self.predc_medium_limit,
            predc_large_limit: self.predc_large_limit,
            pred_medium_limit: self.pred_medium_limit,
            pred_large_limit: self.pred_large_limit,
            func_medium_limit: self.func_medium_limit,
            func_large_limit: self.func_large_limit,
            fun_medium_limit: self.fun_medium_limit,
            fun_large_limit: self.fun_large_limit,
        }
    }
}

/// No threshold given.
pub open spec fn default_limits() -> LimitsView {
    LimitsView {
        ngu_absolute: None,
        gpc_absolute: None,
        ngu_few_limit: None,
        ngu_many_limit: None,
        gpc_few_limit: None,
        gpc_many_limit: None,
        ax_some_limit: None,
        ax_many_limit: None,
        lit_some_limit: None,
        lit_many_limit: None,
        term_medium_limit: None,
        term_large_limit: None,
        depth_medium_limit: None,
        depth_deep_limit: None,
        far_sum_medium_limit: None,
        far_sum_large_limit: None,
        symbols_medium_limit: None,
        symbols_large_limit: None,
        predc_medium_limit: None,
        predc_large_limit: None,
        pred_medium_limit: None,
        pred_large_limit: None,
        func_medium_limit: None,
        func_large_limit: None,
        fun_medium_limit: None,
        fun_large_limit: None,
    }
}

/// See `default_limits`.
pub fn no_limits() -> (l: Limits)
    ensures
        l.view() == default_limits(),
{
    Limits {
        ngu_absolute: None,
        gpc_absolute: None,
        ngu_few_limit: None,
        ngu_many_limit: None,
        gpc_few_limit: None,
        gpc_many_limit: None,
        ax_some_limit: None,
        ax_many_limit: None,
        lit_some_limit: None,
        lit_many_limit: None,
        term_medium_limit: None,
        term_large_limit: None,
        depth_medium_limit: None,
        depth_deep_limit: None,
        far_sum_medium_limit: None,
        far_sum_large_limit: None,
        symbols_medium_limit: None,
        symbols_large_limit: None,
        predc_medium_limit: None,
        predc_large_limit: None,
        pred_medium_limit: None,
        pred_large_limit: None,
        func_medium_limit: None,
        func_large_limit: None,
        fun_medium_limit: None,
        fun_large_limit: None,
    }
}

/// What a threshold option does to the thresholds; other options leave them
/// as they are.
pub open spec fn apply_limit(l: LimitsView, cell: OptCell<OptionCode>, arg: Seq<char>) -> Result<LimitsView, Seq<char>> {
    match cell.option_code {
        OptionCode::NguAbsolute => match bool_arg_value(arg) {
            Some(b) => Ok(LimitsView { ngu_absolute: Some(b), ..l }),
            None => Err(bool_arg_error(cell)),
        },
        OptionCode::GpcAbsolute => match bool_arg_value(arg) {
            Some(b) => Ok(LimitsView { gpc_absolute: Some(b), ..l }),
            None => Err(bool_arg_error(cell)),
        },
        OptionCode::NguFewLimit => if real_text(arg) {
            Ok(LimitsView { ngu_few_limit: Some(arg), ..l })
        } else {
            Err(real_arg_error(cell))
        },
        OptionCode::NguManyLimit => if real_text(arg) {
            Ok(LimitsView { ngu_many_limit: Some(arg), ..l })
        } else {
            Err(real_arg_error(cell))
        },
        OptionCode::GpcFewLimit => if real_text(arg) {
            Ok(LimitsView { gpc_few_limit: Some(arg), ..l })
        } else {
            Err(real_arg_error(cell))
        },
        OptionCode::GpcManyLimit => if real_text(arg) {
            Ok(LimitsView { gpc_many_limit: Some(arg), ..l })
        } else {
            Err(real_arg_error(cell))
        },
        OptionCode::AxiomSomeLimit => match int_arg_value(arg) {
            Some(n) => Ok(LimitsView { ax_some_limit: Some(n as i64), ..l }),
            None => Err(int_arg_error(cell)),
        },
        OptionCode::AxiomManyLimit => match int_arg_value(arg) {
            Some(n) => Ok(LimitsView { ax_many_limit: Some(n as i64), ..l }),
            None => Err(int_arg_error(cell)),
        },
        OptionCode::LitSomeLimit => match int_arg_value(arg) {
            Some(n) => Ok(LimitsView { lit_some_limit: Some(n as i64), ..l }),
            None => Err(int_arg_error(cell)),
        },
        OptionCode::LitManyLimit => match int_arg_value(arg) {
            Some(n) => Ok(LimitsView { lit_many_limit: Some(n as i64), ..l }),
            None => Err(int_arg_error(cell)),
        },
        OptionCode::TermMediumLimit => match int_arg_value(arg) {
            Some(n) => Ok(LimitsView { term_medium_limit: Some(n as i64), ..l }),
            None => Err(int_arg_error(cell)),
        },
        OptionCode::TermLargeLimit => match int_arg_value(arg) {
            Some(n) => Ok(LimitsView { term_large_limit: Some(n as i64), ..l }),
            None => Err(int_arg_error(cell)),
        },
        OptionCode::MaxDepthMediumLimit => match int_arg_value(arg) {
            Some(n) => Ok(LimitsView { depth_medium_limit: Some(n as i64), ..l }),
            None => Err(int_arg_error(cell)),
        },
        OptionCode::MaxDepthDeepLimit => match int_arg_value(arg) {
            Some(n) => Ok(LimitsView { depth_deep_limit: Some(n as i64), ..l }),
            None => Err(int_arg_error(cell)),
        },
        OptionCode::FarSumMediumLimit => match int_arg_value(arg) {
            Some(n) => if i32::MIN <= n <= i32::MAX {
                Ok(LimitsView { far_sum_medium_limit: Some(n as i32), ..l })
            } else {
                Err(INT_RANGE_ERROR@)
            },
            None => Err(int_arg_error(cell)),
        },
        OptionCode::FarSumLargeLimit => match int_arg_value(arg) {
            Some(n) => if i32::MIN <= n <= i32::MAX {
                Ok(LimitsView { far_sum_large_limit: Some(n as i32), ..l })
            } else {
                Err(INT_RANGE_ERROR@)
            },
            None => Err(int_arg_error(cell)),
        },
        OptionCode::SigMediumLimit => match int_arg_value(arg) {
            Some(n) => if i32::MIN <= n <= i32::MAX {
                Ok(LimitsView { symbols_medium_limit: Some(n as i32), ..l })
            } else {
                Err(INT_RANGE_ERROR@)
            },
            None => Err(int_arg_error(cell)),
        },
        OptionCode::SigLargeLimit => match int_arg_value(arg) {
            Some(n) => if i32::MIN <= n <= i32::MAX {
                Ok(LimitsView { symbols_large_limit: Some(n as i32), ..l })
            } else {
                Err(INT_RANGE_ERROR@)
            },
            None => Err(int_arg_error(cell)),
        },
        OptionCode::PredConstMediumLimit => match int_arg_value(arg) {
            Some(n) => if i32::MIN <= n <= i32::MAX {
                Ok(LimitsView { predc_medium_limit: Some(n as i32), ..l })
            } else {
                Err(INT_RANGE_ERROR@)
            },
            None => Err(int_arg_error(cell)),
        },
        OptionCode::PredConstLargeLimit => match int_arg_value(arg) {
            Some(n) => if i32::MIN <= n <= i32::MAX {
                Ok(LimitsView { predc_large_limit: Some(n as i32), ..l })
            } else {
                Err(INT_RANGE_ERROR@)
            },
            None => Err(int_arg_error(cell)),
        },
        OptionCode::PredMediumLimit => match int_arg_value(arg) {
            Some(n) => if i32::MIN <= n <= i32::MAX {
                Ok(LimitsView { pred_medium_limit: Some(n as i32), ..l })
            } else {
                Err(INT_RANGE_ERROR@)
            },
            None => Err(int_arg_error(cell)),
        },
        OptionCode::PredLargeLimit => match int_arg_value(arg) {
            Some(n) => if i32::MIN <= n <= i32::MAX {
                Ok(LimitsView { pred_large_limit: Some(n as i32), ..l })
            } else {
                Err(INT_RANGE_ERROR@)
            },
            None => Err(int_arg_error(cell)),
        },
        OptionCode::FuncConstMediumLimit => match int_arg_value(arg) {
            Some(n) => if i32::MIN <= n <= i32::MAX {
                Ok(LimitsView { func_medium_limit: Some(n as i32), ..l })
            } else {
                Err(INT_RANGE_ERROR@)
            },
            None => Err(int_arg_error(cell)),
        },
        OptionCode::FuncConstLargeLimit => match int_arg_value(arg) {
            Some(n) => if i32::MIN <= n <= i32::MAX {
                Ok(LimitsView { func_large_limit: Some(n as i32), ..l })
            } else {
                Err(INT_RANGE_ERROR@)
            },
            None => Err(int_arg_error(cell)),
        },
        OptionCode::FunMediumLimit => match int_arg_value(arg) {
            Some(n) => if i32::MIN <= n <= i32::MAX {
                Ok(LimitsView { fun_medium_limit: Some(n as i32), ..l })
            } else {
                Err(INT_RANGE_ERROR@)
            },
            None => Err(int_arg_error(cell)),
        },
        OptionCode::FunLargeLimit => match int_arg_value(arg) {
            Some(n) => if i32::MIN <= n <= i32::MAX {
                Ok(LimitsView { fun_large_limit: Some(n as i32), ..l })
            } else {
                Err(INT_RANGE_ERROR@)
            },
            None => Err(int_arg_error(cell)),
        },
        _ => Ok(l),
    }
}

/// A 32-bit integer argument of an option.
fn get_i32_arg(cell: &OptCell<OptionCode>, arg: &str) -> (r: Result<i32, Diagnostic>)
    ensures
        match int_arg_value(arg@) {
            Some(n) => if i32::MIN <= n <= i32::MAX {
                r matches Ok(x) && x == n
            } else {
                r matches Err(d) && d.code == ErrorCode::Usage && d.message@ == INT_RANGE_ERROR@
            },
            None => r matches Err(d) && d.code == ErrorCode::Usage && d.message@ == int_arg_error(*cell),
        },
{
    let v = get_int_arg(cell, arg)?;
    if v < -2147483648 || v > 2147483647 {
        return Err(diag(ErrorCode::Usage, INT_RANGE_ERROR));
    }
    Ok(v as i32)
}

/// Applies a threshold option.
pub fn set_limit(l: &mut Limits, cell: &OptCell<OptionCode>, arg: &str) -> (r: Result<(), Diagnostic>)
    ensures
        match apply_limit(old(l).view(), *cell, arg@) {
            Ok(v) => r is Ok && final(l).view() == v,
            Err(m) => r matches Err(d) && d.code == ErrorCode::Usage && d.message@ == m,
        },
{
    match cell.option_code {
        OptionCode::NguAbsolute => {
            l.ngu_absolute = Some(get_bool_arg(cell, arg)?);
        },
        OptionCode::GpcAbsolute => {
            l.gpc_absolute = Some(get_bool_arg(cell, arg)?);
        },
        OptionCode::NguFewLimit => {
            get_real_arg(cell, arg)?;
            l.ngu_few_limit = Some(owned(arg));
        },
        OptionCode::NguManyLimit => {
            get_real_arg(cell, arg)?;
            l.ngu_many_limit = Some(owned(arg));
        },
        OptionCode::GpcFewLimit => {
            get_real_arg(cell, arg)?;
            l.gpc_few_limit = Some(owned(arg));
        },
        OptionCode::GpcManyLimit => {
            get_real_arg(cell, arg)?;
            l.gpc_many_limit = Some(owned(arg));
        },
        OptionCode::AxiomSomeLimit => {
            l.ax_some_limit = Some(get_int_arg(cell, arg)?);
        },
        OptionCode::AxiomManyLimit => {
            l.ax_many_limit = Some(get_int_arg(cell, arg)?);
        },
        OptionCode::LitSomeLimit => {
            l.lit_some_limit = Some(get_int_arg(cell, arg)?);
        },
        OptionCode::LitManyLimit => {
            l.lit_many_limit = Some(get_int_arg(cell, arg)?);
        },
        OptionCode::TermMediumLimit => {
            l.term_medium_limit = Some(get_int_arg(cell, arg)?);
        },
        OptionCode::TermLargeLimit => {
            l.term_large_limit = Some(get_int_arg(cell, arg)?);
        },
        OptionCode::MaxDepthMediumLimit => {
            l.depth_medium_limit = Some(get_int_arg(cell, arg)?);
        },
        OptionCode::MaxDepthDeepLimit => {
            l.depth_deep_limit = Some(get_int_arg(cell, arg)?);
        },
        OptionCode::FarSumMediumLimit => {
            l.far_sum_medium_limit = Some(get_i32_arg(cell, arg)?);
        },
        OptionCode::FarSumLargeLimit => {
            l.far_sum_large_limit = Some(get_i32_arg(cell, arg)?);
        },
        OptionCode::SigMediumLimit => {
            l.symbols_medium_limit = Some(get_i32_arg(cell, arg)?);
        },
        OptionCode::SigLargeLimit => {
            l.symbols_large_limit = Some(get_i32_arg(cell, arg)?);
        },
        OptionCode::PredConstMediumLimit => {
            l.predc_medium_limit = Some(get_i32_arg(cell, arg)?);
        },
        OptionCode::PredConstLargeLimit => {
            l.predc_large_limit = Some(get_i32_arg(cell, arg)?);
        },
        OptionCode::PredMediumLimit => {
            l.pred_medium_limit = Some(get_i32_arg(cell, arg)?);
        },
        OptionCode::PredLargeLimit => {
            l.pred_large_limit = Some(get_i32_arg(cell, arg)?);
        },
        OptionCode::FuncConstMediumLimit => {
            l.func_medium_limit = Some(get_i32_arg(cell, arg)?);
        },
        OptionCode::FuncConstLargeLimit => {
            l.func_large_limit = Some(get_i32_arg(cell, arg)?);
        },
        OptionCode::FunMediumLimit => {
            l.fun_medium_limit = Some(get_i32_arg(cell, arg)?);
        },
        OptionCode::FunLargeLimit => {
            l.fun_large_limit = Some(get_i32_arg(cell, arg)?);
        },
        _ => {},
    }
    Ok(())
}


/// The options of the program.
#[derive(Clone, Copy, Debug, PartialEq, Eq, Structural)]
pub enum OptionCode {
    Help,
    Version,
    Verbose,
    Output,
    ParseFeatures,
    LopParse,
    TptpParse,
    TptpPrint,
    TptpFormat,
    TstpParse,
    TstpPrint,
    TstpFormat,
    RawClass,
    SpecSigFeatures,
    GenerateTptpHeader,
    NoPreprocessing,
    EqUnfoldLimit,
    EqUnfoldMaxClauses,
    NoEqUnfold,
    Sine,
    FreeNumbers,
    FreeObjects,
    DefinitionalCnf,
    MiniscopeLimit,
    ClassMask,
    RawMask,
    NguAbsolute,
    NguFewLimit,
    NguManyLimit,
    GpcAbsolute,
    GpcFewLimit,
    GpcManyLimit,
    AxiomSomeLimit,
    AxiomManyLimit,
    LitSomeLimit,
    LitManyLimit,
    TermMediumLimit,
    TermLargeLimit,
    FarSumMediumLimit,
    FarSumLargeLimit,
    MaxDepthMediumLimit,
    MaxDepthDeepLimit,
    SigMediumLimit,
    SigLargeLimit,
    PredConstMediumLimit,
    PredConstLargeLimit,
    PredMediumLimit,
    PredLargeLimit,
    FuncConstMediumLimit,
    FuncConstLargeLimit,
    FunMediumLimit,
    FunLargeLimit,
}

/// The option table.
pub open spec fn option_table() -> Seq<OptCell<OptionCode>> {
    seq![
        OptCell {
            option_code: OptionCode::Help,
            short: Some('h'),
            long: "help",
            arg_type: OptArgType::NoArg,
            default: None,
            desc: "Print a short description of program usage and options.",
        },
        OptCell {
            option_code: OptionCode::Version,
            short: None,
            long: "version",
            arg_type: OptArgType::NoArg,
            default: None,
            desc: "Print the version number of the program.",
        },
        OptCell {
            option_code: OptionCode::Verbose,
            short: Some('v'),
            long: "verbose",
            arg_type: OptArgType::OptArg,
            default: Some("1"),
            desc: "Verbose comments on the progress of the program. This differs from the output level (below) in that technical information is printed to stderr, while the output level determines which logical manipulations of the clauses are printed to stdout.",
        },
        OptCell {
            option_code: OptionCode::Output,
            short: Some('o'),
            long: "output-file",
            arg_type: OptArgType::ReqArg,
            default: None,
            desc: "Redirect output into the named file.",
        },
        OptCell {
            option_code: OptionCode::ParseFeatures,
            short: Some('p'),
            long: "parse-features",
            arg_type: OptArgType::NoArg,
            default: None,
            desc: "Parse precomputed feature lines, not real formulae. This conflicts with the '--generate-tptp-header' option, as not all information needed for this is stored in feature lines.",
        },
        OptCell {
            option_code: OptionCode::LopParse,
            short: None,
            long: "lop-in",
            arg_type: OptArgType::NoArg,
            default: None,
            desc: "Set E-LOP as the input format. If no input format is selected by this or one of the following options, E will guess the input format based on the first token. It will almost always correctly recognize TPTP-3, but it may misidentify E-LOP files that use TPTP meta-identifiers as logical symbols.",
        },
        OptCell {
            option_code: OptionCode::TptpParse,
            short: None,
            long: "tptp-in",
            arg_type: OptArgType::NoArg,
            default: None,
            desc: "Set TPTP-2 as the input format (but note that includes are still handled according to TPTP-3 semantics).",
        },
        OptCell {
            option_code: OptionCode::TptpPrint,
            short: None,
            long: "tptp-out",
            arg_type: OptArgType::NoArg,
            default: None,
            desc: "No effect (since not clauses/formulas are printed).",
        },
        OptCell {
            option_code: OptionCode::TptpFormat,
            short: None,
            long: "tptp-format",
            arg_type: OptArgType::NoArg,
            default: None,
            desc: "Equivalent to --tptp-in and --tptp-out.",
        },
        OptCell {
            option_code: OptionCode::TstpParse,
            short: None,
            long: "tstp-in",
            arg_type: OptArgType::NoArg,
            default: None,
            desc: "Parse TSTP format instead of E-LOP (not all all optional extensions are currently supported).",
        },
        OptCell {
            option_code: OptionCode::TstpPrint,
            short: None,
            long: "tstp-out",
            arg_type: OptArgType::NoArg,
            default: None,
            desc: "No effect (since not clauses/formulas are printed).",
        },
        OptCell {
            option_code: OptionCode::TstpFormat,
            short: None,
            long: "tstp-format",
            arg_type: OptArgType::NoArg,
            default: None,
            desc: "Equivalent to --tstp-in and --tstp-out.",
        },
        OptCell {
            option_code: OptionCode::TstpParse,
            short: None,
            long: "tptp3-in",
            arg_type: OptArgType::NoArg,
            default: None,
            desc: "Equivalent to --tstp-in.",
        },
        OptCell {
            option_code: OptionCode::TstpPrint,
            short: None,
            long: "tptp3-out",
            arg_type: OptArgType::NoArg,
            default: None,
            desc: "Equivalent to --tstp-out.",
        },
        OptCell {
            option_code: OptionCode::TstpFormat,
            short: None,
            long: "tptp3-format",
            arg_type: OptArgType::NoArg,
            default: None,
            desc: "Equivalent to --tstp-format.",
        },
        OptCell {
            option_code: OptionCode::RawClass,
            short: Some('r'),
            long: "raw-class",
            arg_type: OptArgType::NoArg,
            default: None,
            desc: "Perform a raw and rough classification on the unclausified and unpreprocessed problem. This is a largely independent feature put here to reduce the proliferation of partially redundant programs. Note that many of the limits do not apply here.",
        },
        OptCell {
            option_code: OptionCode::SpecSigFeatures,
            short: None,
            long: "specsig",
            arg_type: OptArgType::NoArg,
            default: None,
            desc: "Compute and print new-style features based on the distribution of symbols of differnt arities.",
        },
        OptCell {
            option_code: OptionCode::GenerateTptpHeader,
            short: Some('H'),
            long: "generate-tptp-header",
            arg_type: OptArgType::NoArg,
            default: None,
            desc: "Generate the statistics (\"Syntax\") part of a TPTP header for the problem.",
        },
        OptCell {
            option_code: OptionCode::NoPreprocessing,
            short: None,
            long: "no-preprocessing",
            arg_type: OptArgType::NoArg,
            default: None,
            desc: "Do not perform preprocessing on the initial clause set. Preprocessing currently removes tautologies and orders terms, literals and clauses in a certain (\"canonical\") way before anything else happens. It also unfolds equational definitons (and removes them).",
        },
        OptCell {
            option_code: OptionCode::EqUnfoldLimit,
            short: None,
            long: "eq-unfold-limit",
            arg_type: OptArgType::ReqArg,
            default: None,
            desc: "During preprocessing, limit unfolding (and removing) of equational definitions to those where the expanded definiton is at most the given limit bigger (in terms of standard weight) than the defined term..",
        },
        OptCell {
            option_code: OptionCode::EqUnfoldMaxClauses,
            short: None,
            long: "eq-unfold-maxclauses",
            arg_type: OptArgType::ReqArg,
            default: None,
            desc: "During preprocessing, don't try unfolding of equational definitions if the problem has more than this limit of clauses.",
        },
        OptCell {
            option_code: OptionCode::NoEqUnfold,
            short: None,
            long: "no-eq-unfolding",
            arg_type: OptArgType::NoArg,
            default: None,
            desc: "During preprocessing, abstain from unfolding (and removing) equational definitions.",
        },
        OptCell {
            option_code: OptionCode::Sine,
            short: None,
            long: "sine",
            arg_type: OptArgType::OptArg,
            default: Some("Auto"),
            desc: "Apply SInE to prune the unprocessed axioms with the specified filter. 'Auto' will automatically pick a filter.",
        },
        OptCell {
            option_code: OptionCode::FreeNumbers,
            short: None,
            long: "free-numbers",
            arg_type: OptArgType::NoArg,
            default: None,
            desc: "Treat numbers (strings of decimal digits) as normal free function symbols in the input. By default, number now are supposed to denote domain constants and to be implicitly different from each other.",
        },
        OptCell {
            option_code: OptionCode::FreeObjects,
            short: None,
            long: "free-objects",
            arg_type: OptArgType::NoArg,
            default: None,
            desc: "Treat object identifiers (strings in double quotes) as normal free function symbols in the input. By default, object identifiers now represent domain objects and are implicitly different from each other (and from numbers, unless those are declared to be free).",
        },
        OptCell {
            option_code: OptionCode::DefinitionalCnf,
            short: None,
            long: "definitional-cnf",
            arg_type: OptArgType::OptArg,
            default: Some("24"),
            desc: "Tune the clausification algorithm to introduces definitions for subformulae to avoid exponential blow-up. The optional argument is a fudge factor that determines when definitions are introduced. 0 disables definitions completely. The default works well.",
        },
        OptCell {
            option_code: OptionCode::MiniscopeLimit,
            short: None,
            long: "miniscope-limit",
            arg_type: OptArgType::OptArg,
            default: Some("2147483648"),
            desc: "Set the limit of variables to miniscope per input formula. The build-in default is 1000. Only applies to the new (default) clausification algorithm",
        },
        OptCell {
            option_code: OptionCode::ClassMask,
            short: Some('c'),
            long: "class-mask",
            arg_type: OptArgType::ReqArg,
            default: None,
            desc: "Provide a mask for the class description. A mask is a 13 letter string, with positions corresponding to the class descriptors. Any dash ('-') in the string masks out the corresponding position in the class descriptor.",
        },
        OptCell {
            option_code: OptionCode::RawMask,
            short: None,
            long: "raw-mask",
            arg_type: OptArgType::ReqArg,
            default: None,
            desc: "Provide a mask for the rawclass description. A mask is a 7 letter string, with positions corresponding to the class descriptors. Any dash ('-') in the string masks out the corresponding position in the class descriptor.",
        },
        OptCell {
            option_code: OptionCode::NguAbsolute,
            short: Some('a'),
            long: "ngu-absolute",
            arg_type: OptArgType::OptArg,
            default: Some("true"),
            desc: "Use absolute values (not percentages) to determine if there are few, some, or many non-ground unit clauses.",
        },
        OptCell {
            option_code: OptionCode::NguFewLimit,
            short: Some('f'),
            long: "ngu-few-limit",
            arg_type: OptArgType::ReqArg,
            default: None,
            desc: "Set the limit (either an absolute integer value or a fraction between 0 and 1) for the size of the set of non-ground units to consist of 'few' clauses.",
        },
        OptCell {
            option_code: OptionCode::NguManyLimit,
            short: Some('m'),
            long: "ngu-many-limit",
            arg_type: OptArgType::ReqArg,
            default: None,
            desc: "Set the limit (either an absolute integer value or a fraction between 0 and 1) for the size of the set of non-ground units to consist of 'many' clauses.",
        },
        OptCell {
            option_code: OptionCode::GpcAbsolute,
            short: None,
            long: "gpc-absolute",
            arg_type: OptArgType::OptArg,
            default: Some("true"),
            desc: "Use absolute values (not percentages) to determine if there are few, some, or many non-ground unit clauses.",
        },
        OptCell {
            option_code: OptionCode::GpcFewLimit,
            short: None,
            long: "gpc-few-limit",
            arg_type: OptArgType::ReqArg,
            default: None,
            desc: "Set the limit (either an absolute integer value or a fraction between 0 and 1) for the size of the set of ground positive clauses to consist of 'few' clauses.",
        },
        OptCell {
            option_code: OptionCode::GpcManyLimit,
            short: None,
            long: "gpc-many-limit",
            arg_type: OptArgType::ReqArg,
            default: None,
            desc: "Set the limit (either an absolute integer value or a fraction between 0 and 1) for the size of the set of ground positive clauses to consist of 'many' clauses.",
        },
        OptCell {
            option_code: OptionCode::AxiomSomeLimit,
            short: None,
            long: "ax-some-limit",
            arg_type: OptArgType::ReqArg,
            default: None,
            desc: "Set the minimum number of clauses for a specification to be considered to be medium size with respect to this measure.",
        },
        OptCell {
            option_code: OptionCode::AxiomManyLimit,
            short: None,
            long: "ax-many-limit",
            arg_type: OptArgType::ReqArg,
            default: None,
            desc: "Set the minimum number of clauses for a specification to be considered to be large size with respect to this measure.",
        },
        OptCell {
            option_code: OptionCode::LitSomeLimit,
            short: None,
            long: "lit-some-limit",
            arg_type: OptArgType::ReqArg,
            default: None,
            desc: "Set the mimumum number of literals for a specification to be considered to be medium size with respect to this measure.",
        },
        OptCell {
            option_code: OptionCode::LitManyLimit,
            short: None,
            long: "lit-many-limit",
            arg_type: OptArgType::ReqArg,
            default: None,
            desc: "Set the minimum number of literals for a specification to be considered to be large size with respect to this measure.",
        },
        OptCell {
            option_code: OptionCode::TermMediumLimit,
            short: None,
            long: "term-medium-limit",
            arg_type: OptArgType::ReqArg,
            default: None,
            desc: "Set the minimum number of subterms for a specification to be considered to be medium size with respect to this measure.",
        },
        OptCell {
            option_code: OptionCode::TermLargeLimit,
            short: None,
            long: "term-large-limit",
            arg_type: OptArgType::ReqArg,
            default: None,
            desc: "Set the minimum number of subterms for a specification to be considered to be large size with respect to this measure.",
        },
        OptCell {
            option_code: OptionCode::FarSumMediumLimit,
            short: None,
            long: "farity-medium-limit",
            arg_type: OptArgType::ReqArg,
            default: None,
            desc: "Set the minimum sum of function symbol arities for a specification to be considered to be medium size with respect to this measure.",
        },
        OptCell {
            option_code: OptionCode::FarSumLargeLimit,
            short: None,
            long: "farity-large-limit",
            arg_type: OptArgType::ReqArg,
            default: None,
            desc: "Set the minimum sum of function symbol arities for a specification to be considered to be large size with respect to this measure.",
        },
        OptCell {
            option_code: OptionCode::MaxDepthMediumLimit,
            short: None,
            long: "max-depth-medium-limit",
            arg_type: OptArgType::ReqArg,
            default: None,
            desc: "Set the minimum maximal clause depth for medium depth specifications.",
        },
        OptCell {
            option_code: OptionCode::MaxDepthDeepLimit,
            short: None,
            long: "max-depth-deep-limit",
            arg_type: OptArgType::ReqArg,
            default: None,
            desc: "Set the minimum maximal clause depth for deep depth specifications.",
        },
        OptCell {
            option_code: OptionCode::SigMediumLimit,
            short: None,
            long: "sig-medium-limit",
            arg_type: OptArgType::ReqArg,
            default: None,
            desc: "Set the minimum signature size for medium sized signatures.",
        },
        OptCell {
            option_code: OptionCode::SigLargeLimit,
            short: None,
            long: "sig-large-limit",
            arg_type: OptArgType::ReqArg,
            default: None,
            desc: "Set the minimum signature size for large signatures.",
        },
        OptCell {
            option_code: OptionCode::PredConstMediumLimit,
            short: None,
            long: "pred-const-medium-limit",
            arg_type: OptArgType::ReqArg,
            default: None,
            desc: "Set the minimum number of constant predicate symbols for medium size by this measure.",
        },
        OptCell {
            option_code: OptionCode::PredConstLargeLimit,
            short: None,
            long: "pred-const-large-limit",
            arg_type: OptArgType::ReqArg,
            default: None,
            desc: "Set the minimum number of constant predicate symbols for large size by this measure.",
        },
        OptCell {
            option_code: OptionCode::PredMediumLimit,
            short: None,
            long: "pred-medium-limit",
            arg_type: OptArgType::ReqArg,
            default: None,
            desc: "Set the minimum number of non-constant predicate symbols for medium size by this measure.",
        },
        OptCell {
            option_code: OptionCode::PredLargeLimit,
            short: None,
            long: "pred-large-limit",
            arg_type: OptArgType::ReqArg,
            default: None,
            desc: "Set the minimum number of non-constant predicate symbols for large size by this measure.",
        },
        OptCell {
            option_code: OptionCode::FuncConstMediumLimit,
            short: None,
            long: "fun-const-medium-limit",
            arg_type: OptArgType::ReqArg,
            default: None,
            desc: "Set the minimum number of constant function symbols for medium size by this measure.",
        },
        OptCell {
            option_code: OptionCode::FuncConstLargeLimit,
            short: None,
            long: "fun-const-large-limit",
            arg_type: OptArgType::ReqArg,
            default: None,
            desc: "Set the minimum number of constant function symbols for large size by this measure.",
        },
        OptCell {
            option_code: OptionCode::FunMediumLimit,
            short: None,
            long: "fun-medium-limit",
            arg_type: OptArgType::ReqArg,
            default: None,
            desc: "Set the minimum number of non-constant function symbols for medium size by this measure.",
        },
        OptCell {
            option_code: OptionCode::FunLargeLimit,
            short: None,
            long: "fun-large-limit",
            arg_type: OptArgType::ReqArg,
            default: None,
            desc: "Set the minimum number of non-constant function symbols for large size by this measure.",
        },
    ]
}

/// The option table.
pub fn options() -> (v: Vec<OptCell<OptionCode>>)
    ensures
        v@ == option_table(),
{
    let v = vec![
        OptCell {
            option_code: OptionCode::Help,
            short: Some('h'),
            long: "help",
            arg_type: OptArgType::NoArg,
            default: None,
            desc: "Print a short description of program usage and options.",
        },
        OptCell {
            option_code: OptionCode::Version,
            short: None,
            long: "version",
            arg_type: OptArgType::NoArg,
            default: None,
            desc: "Print the version number of the program.",
        },
        OptCell {
            option_code: OptionCode::Verbose,
            short: Some('v'),
            long: "verbose",
            arg_type: OptArgType::OptArg,
            default: Some("1"),
            desc: "Verbose comments on the progress of the program. This differs from the output level (below) in that technical information is printed to stderr, while the output level determines which logical manipulations of the clauses are printed to stdout.",
        },
        OptCell {
            option_code: OptionCode::Output,
            short: Some('o'),
            long: "output-file",
            arg_type: OptArgType::ReqArg,
            default: None,
            desc: "Redirect output into the named file.",
        },
        OptCell {
            option_code: OptionCode::ParseFeatures,
            short: Some('p'),
            long: "parse-features",
            arg_type: OptArgType::NoArg,
            default: None,
            desc: "Parse precomputed feature lines, not real formulae. This conflicts with the '--generate-tptp-header' option, as not all information needed for this is stored in feature lines.",
        },
        OptCell {
            option_code: OptionCode::LopParse,
            short: None,
            long: "lop-in",
            arg_type: OptArgType::NoArg,
            default: None,
            desc: "Set E-LOP as the input format. If no input format is selected by this or one of the following options, E will guess the input format based on the first token. It will almost always correctly recognize TPTP-3, but it may misidentify E-LOP files that use TPTP meta-identifiers as logical symbols.",
        },
        OptCell {
            option_code: OptionCode::TptpParse,
            short: None,
            long: "tptp-in",
            arg_type: OptArgType::NoArg,
            default: None,
            desc: "Set TPTP-2 as the input format (but note that includes are still handled according to TPTP-3 semantics).",
        },
        OptCell {
            option_code: OptionCode::TptpPrint,
            short: None,
            long: "tptp-out",
            arg_type: OptArgType::NoArg,
            default: None,
            desc: "No effect (since not clauses/formulas are printed).",
        },
        OptCell {
            option_code: OptionCode::TptpFormat,
            short: None,
            long: "tptp-format",
            arg_type: OptArgType::NoArg,
            default: None,
            desc: "Equivalent to --tptp-in and --tptp-out.",
        },
        OptCell {
            option_code: OptionCode::TstpParse,
            short: None,
            long: "tstp-in",
            arg_type: OptArgType::NoArg,
            default: None,
            desc: "Parse TSTP format instead of E-LOP (not all all optional extensions are currently supported).",
        },
        OptCell {
            option_code: OptionCode::TstpPrint,
            short: None,
            long: "tstp-out",
            arg_type: OptArgType::NoArg,
            default: None,
            desc: "No effect (since not clauses/formulas are printed).",
        },
        OptCell {
            option_code: OptionCode::TstpFormat,
            short: None,
            long: "tstp-format",
            arg_type: OptArgType::NoArg,
            default: None,
            desc: "Equivalent to --tstp-in and --tstp-out.",
        },
        OptCell {
            option_code: OptionCode::TstpParse,
            short: None,
            long: "tptp3-in",
            arg_type: OptArgType::NoArg,
            default: None,
            desc: "Equivalent to --tstp-in.",
        },
        OptCell {
            option_code: OptionCode::TstpPrint,
            short: None,
            long: "tptp3-out",
            arg_type: OptArgType::NoArg,
            default: None,
            desc: "Equivalent to --tstp-out.",
        },
        OptCell {
            option_code: OptionCode::TstpFormat,
            short: None,
            long: "tptp3-format",
            arg_type: OptArgType::NoArg,
            default: None,
            desc: "Equivalent to --tstp-format.",
        },
        OptCell {
            option_code: OptionCode::RawClass,
            short: Some('r'),
            long: "raw-class",
            arg_type: OptArgType::NoArg,
            default: None,
            desc: "Perform a raw and rough classification on the unclausified and unpreprocessed problem. This is a largely independent feature put here to reduce the proliferation of partially redundant programs. Note that many of the limits do not apply here.",
        },
        OptCell {
            option_code: OptionCode::SpecSigFeatures,
            short: None,
            long: "specsig",
            arg_type: OptArgType::NoArg,
            default: None,
            desc: "Compute and print new-style features based on the distribution of symbols of differnt arities.",
        },
        OptCell {
            option_code: OptionCode::GenerateTptpHeader,
            short: Some('H'),
            long: "generate-tptp-header",
            arg_type: OptArgType::NoArg,
            default: None,
            desc: "Generate the statistics (\"Syntax\") part of a TPTP header for the problem.",
        },
        OptCell {
            option_code: OptionCode::NoPreprocessing,
            short: None,
            long: "no-preprocessing",
            arg_type: OptArgType::NoArg,
            default: None,
            desc: "Do not perform preprocessing on the initial clause set. Preprocessing currently removes tautologies and orders terms, literals and clauses in a certain (\"canonical\") way before anything else happens. It also unfolds equational definitons (and removes them).",
        },
        OptCell {
            option_code: OptionCode::EqUnfoldLimit,
            short: None,
            long: "eq-unfold-limit",
            arg_type: OptArgType::ReqArg,
            default: None,
            desc: "During preprocessing, limit unfolding (and removing) of equational definitions to those where the expanded definiton is at most the given limit bigger (in terms of standard weight) than the defined term..",
        },
        OptCell {
            option_code: OptionCode::EqUnfoldMaxClauses,
            short: None,
            long: "eq-unfold-maxclauses",
            arg_type: OptArgType::ReqArg,
            default: None,
            desc: "During preprocessing, don't try unfolding of equational definitions if the problem has more than this limit of clauses.",
        },
        OptCell {
            option_code: OptionCode::NoEqUnfold,
            short: None,
            long: "no-eq-unfolding",
            arg_type: OptArgType::NoArg,
            default: None,
            desc: "During preprocessing, abstain from unfolding (and removing) equational definitions.",
        },
        OptCell {
            option_code: OptionCode::Sine,
            short: None,
            long: "sine",
            arg_type: OptArgType::OptArg,
            default: Some("Auto"),
            desc: "Apply SInE to prune the unprocessed axioms with the specified filter. 'Auto' will automatically pick a filter.",
        },
        OptCell {
            option_code: OptionCode::FreeNumbers,
            short: None,
            long: "free-numbers",
            arg_type: OptArgType::NoArg,
            default: None,
            desc: "Treat numbers (strings of decimal digits) as normal free function symbols in the input. By default, number now are supposed to denote domain constants and to be implicitly different from each other.",
        },
        OptCell {
            option_code: OptionCode::FreeObjects,
            short: None,
            long: "free-objects",
            arg_type: OptArgType::NoArg,
            default: None,
            desc: "Treat object identifiers (strings in double quotes) as normal free function symbols in the input. By default, object identifiers now represent domain objects and are implicitly different from each other (and from numbers, unless those are declared to be free).",
        },
        OptCell {
            option_code: OptionCode::DefinitionalCnf,
            short: None,
            long: "definitional-cnf",
            arg_type: OptArgType::OptArg,
            default: Some("24"),
            desc: "Tune the clausification algorithm to introduces definitions for subformulae to avoid exponential blow-up. The optional argument is a fudge factor that determines when definitions are introduced. 0 disables definitions completely. The default works well.",
        },
        OptCell {
            option_code: OptionCode::MiniscopeLimit,
            short: None,
            long: "miniscope-limit",
            arg_type: OptArgType::OptArg,
            default: Some("2147483648"),
            desc: "Set the limit of variables to miniscope per input formula. The build-in default is 1000. Only applies to the new (default) clausification algorithm",
        },
        OptCell {
            option_code: OptionCode::ClassMask,
            short: Some('c'),
            long: "class-mask",
            arg_type: OptArgType::ReqArg,
            default: None,
            desc: "Provide a mask for the class description. A mask is a 13 letter string, with positions corresponding to the class descriptors. Any dash ('-') in the string masks out the corresponding position in the class descriptor.",
        },
        OptCell {
            option_code: OptionCode::RawMask,
            short: None,
            long: "raw-mask",
            arg_type: OptArgType::ReqArg,
            default: None,
            desc: "Provide a mask for the rawclass description. A mask is a 7 letter string, with positions corresponding to the class descriptors. Any dash ('-') in the string masks out the corresponding position in the class descriptor.",
        },
        OptCell {
            option_code: OptionCode::NguAbsolute,
            short: Some('a'),
            long: "ngu-absolute",
            arg_type: OptArgType::OptArg,
            default: Some("true"),
            desc: "Use absolute values (not percentages) to determine if there are few, some, or many non-ground unit clauses.",
        },
        OptCell {
            option_code: OptionCode::NguFewLimit,
            short: Some('f'),
            long: "ngu-few-limit",
            arg_type: OptArgType::ReqArg,
            default: None,
            desc: "Set the limit (either an absolute integer value or a fraction between 0 and 1) for the size of the set of non-ground units to consist of 'few' clauses.",
        },
        OptCell {
            option_code: OptionCode::NguManyLimit,
            short: Some('m'),
            long: "ngu-many-limit",
            arg_type: OptArgType::ReqArg,
            default: None,
            desc: "Set the limit (either an absolute integer value or a fraction between 0 and 1) for the size of the set of non-ground units to consist of 'many' clauses.",
        },
        OptCell {
            option_code: OptionCode::GpcAbsolute,
            short: None,
            long: "gpc-absolute",
            arg_type: OptArgType::OptArg,
            default: Some("true"),
            desc: "Use absolute values (not percentages) to determine if there are few, some, or many non-ground unit clauses.",
        },
        OptCell {
            option_code: OptionCode::GpcFewLimit,
            short: None,
            long: "gpc-few-limit",
            arg_type: OptArgType::ReqArg,
            default: None,
            desc: "Set the limit (either an absolute integer value or a fraction between 0 and 1) for the size of the set of ground positive clauses to consist of 'few' clauses.",
        },
        OptCell {
            option_code: OptionCode::GpcManyLimit,
            short: None,
            long: "gpc-many-limit",
            arg_type: OptArgType::ReqArg,
            default: None,
            desc: "Set the limit (either an absolute integer value or a fraction between 0 and 1) for the size of the set of ground positive clauses to consist of 'many' clauses.",
        },
        OptCell {
            option_code: OptionCode::AxiomSomeLimit,
            short: None,
            long: "ax-some-limit",
            arg_type: OptArgType::ReqArg,
            default: None,
            desc: "Set the minimum number of clauses for a specification to be considered to be medium size with respect to this measure.",
        },
        OptCell {
            option_code: OptionCode::AxiomManyLimit,
            short: None,
            long: "ax-many-limit",
            arg_type: OptArgType::ReqArg,
            default: None,
            desc: "Set the minimum number of clauses for a specification to be considered to be large size with respect to this measure.",
        },
        OptCell {
            option_code: OptionCode::LitSomeLimit,
            short: None,
            long: "lit-some-limit",
            arg_type: OptArgType::ReqArg,
            default: None,
            desc: "Set the mimumum number of literals for a specification to be considered to be medium size with respect to this measure.",
        },
        OptCell {
            option_code: OptionCode::LitManyLimit,
            short: None,
            long: "lit-many-limit",
            arg_type: OptArgType::ReqArg,
            default: None,
            desc: "Set the minimum number of literals for a specification to be considered to be large size with respect to this measure.",
        },
        OptCell {
            option_code: OptionCode::TermMediumLimit,
            short: None,
            long: "term-medium-limit",
            arg_type: OptArgType::ReqArg,
            default: None,
            desc: "Set the minimum number of subterms for a specification to be considered to be medium size with respect to this measure.",
        },
        OptCell {
            option_code: OptionCode::TermLargeLimit,
            short: None,
            long: "term-large-limit",
            arg_type: OptArgType::ReqArg,
            default: None,
            desc: "Set the minimum number of subterms for a specification to be considered to be large size with respect to this measure.",
        },
        OptCell {
            option_code: OptionCode::FarSumMediumLimit,
            short: None,
            long: "farity-medium-limit",
            arg_type: OptArgType::ReqArg,
            default: None,
            desc: "Set the minimum sum of function symbol arities for a specification to be considered to be medium size with respect to this measure.",
        },
        OptCell {
            option_code: OptionCode::FarSumLargeLimit,
            short: None,
            long: "farity-large-limit",
            arg_type: OptArgType::ReqArg,
            default: None,
            desc: "Set the minimum sum of function symbol arities for a specification to be considered to be large size with respect to this measure.",
        },
        OptCell {
            option_code: OptionCode::MaxDepthMediumLimit,
            short: None,
            long: "max-depth-medium-limit",
            arg_type: OptArgType::ReqArg,
            default: None,
            desc: "Set the minimum maximal clause depth for medium depth specifications.",
        },
        OptCell {
            option_code: OptionCode::MaxDepthDeepLimit,
            short: None,
            long: "max-depth-deep-limit",
            arg_type: OptArgType::ReqArg,
            default: None,
            desc: "Set the minimum maximal clause depth for deep depth specifications.",
        },
        OptCell {
            option_code: OptionCode::SigMediumLimit,
            short: None,
            long: "sig-medium-limit",
            arg_type: OptArgType::ReqArg,
            default: None,
            desc: "Set the minimum signature size for medium sized signatures.",
        },
        OptCell {
            option_code: OptionCode::SigLargeLimit,
            short: None,
            long: "sig-large-limit",
            arg_type: OptArgType::ReqArg,
            default: None,
            desc: "Set the minimum signature size for large signatures.",
        },
        OptCell {
            option_code: OptionCode::PredConstMediumLimit,
            short: None,
            long: "pred-const-medium-limit",
            arg_type: OptArgType::ReqArg,
            default: None,
            desc: "Set the minimum number of constant predicate symbols for medium size by this measure.",
        },
        OptCell {
            option_code: OptionCode::PredConstLargeLimit,
            short: None,
            long: "pred-const-large-limit",
            arg_type: OptArgType::ReqArg,
            default: None,
            desc: "Set the minimum number of constant predicate symbols for large size by this measure.",
        },
        OptCell {
            option_code: OptionCode::PredMediumLimit,
            short: None,
            long: "pred-medium-limit",
            arg_type: OptArgType::ReqArg,
            default: None,
            desc: "Set the minimum number of non-constant predicate symbols for medium size by this measure.",
        },
        OptCell {
            option_code: OptionCode::PredLargeLimit,
            short: None,
            long: "pred-large-limit",
            arg_type: OptArgType::ReqArg,
            default: None,
            desc: "Set the minimum number of non-constant predicate symbols for large size by this measure.",
        },
        OptCell {
            option_code: OptionCode::FuncConstMediumLimit,
            short: None,
            long: "fun-const-medium-limit",
            arg_type: OptArgType::ReqArg,
            default: None,
            desc: "Set the minimum number of constant function symbols for medium size by this measure.",
        },
        OptCell {
            option_code: OptionCode::FuncConstLargeLimit,
            short: None,
            long: "fun-const-large-limit",
            arg_type: OptArgType::ReqArg,
            default: None,
            desc: "Set the minimum number of constant function symbols for large size by this measure.",
        },
        OptCell {
            option_code: OptionCode::FunMediumLimit,
            short: None,
            long: "fun-medium-limit",
            arg_type: OptArgType::ReqArg,
            default: None,
            desc: "Set the minimum number of non-constant function symbols for medium size by this measure.",
        },
        OptCell {
            option_code: OptionCode::FunLargeLimit,
            short: None,
            long: "fun-large-limit",
            arg_type: OptArgType::ReqArg,
            default: None,
            desc: "Set the minimum number of non-constant function symbols for large size by this measure.",
        },
    ];
    proof {
        assert(v@ =~= option_table());
    }
    v
}

/// The settings of a run.
pub struct Config {
    pub output_file: Option<String>,
    pub parse_format: IoFormat,
    pub sine: Option<String>,
    pub free_numbers: bool,
    pub free_objects: bool,
    pub formula_def_limit: i64,
    pub miniscope_limit: i64,
    pub files: Vec<String>,
    pub limits: Limits,
}

/// The view of the settings of a run.
pub struct ConfigView {
    pub output_file: Option<Seq<char>>,
    pub parse_format: IoFormat,
    pub sine: Option<Seq<char>>,
    pub free_numbers: bool,
    pub free_objects: bool,
    pub formula_def_limit: i64,
    pub miniscope_limit: i64,
    pub files: Seq<Seq<char>>,
    pub limits: LimitsView,
}

impl Config {
    pub open spec fn view(&self) -> ConfigView {
        ConfigView {
            output_file: opt_view(self.output_file),
            parse_format: self.parse_format,
            sine: opt_view(self.sine),
            free_numbers: self.free_numbers,
            free_objects: self.free_objects,
            formula_def_limit: self.formula_def_limit,
            miniscope_limit: self.miniscope_limit,
            files: args_view(self.files@),
            limits: self.limits.view(),
        }
    }
}

/// The settings before any option.
pub open spec fn default_config() -> ConfigView {
    ConfigView {
        output_file: None,
        parse_format: IoFormat::Auto,
        sine: None,
        free_numbers: false,
        free_objects: false,
        formula_def_limit: FORMULA_DEF_LIMIT_DEFAULT,
        miniscope_limit: MINISCOPE_LIMIT_DEFAULT,
        files: Seq::empty(),
        limits: default_limits(),
    }
}

/// What the options ask for: leave with a status (after help or version
/// text), or go on with the given settings.
pub enum Command {
    Exit(u8),
    Execute(Config),
}

pub enum CommandView {
    Exit(u8),
    Execute(ConfigView),
}

pub open spec fn command_view(r: Result<Command, Diagnostic>) -> Result<CommandView, (ErrorCode, Seq<char>)> {
    match r {
        Ok(Command::Exit(s)) => Ok(CommandView::Exit(s)),
        Ok(Command::Execute(c)) => Ok(CommandView::Execute(c.view())),
        Err(d) => Err((d.code, d.message@)),
    }
}

/// The outcome of one option: go on with the new session and settings, or
/// stop with a result.
pub enum OptStep {
    Go(SessionView, ConfigView),
    Stop(SessionView, Result<CommandView, (ErrorCode, Seq<char>)>),
}

/// The argument of an option, empty where it has none.
pub open spec fn arg_or_empty(a: Option<Seq<char>>) -> Seq<char> {
    match a {
        Some(x) => x,
        None => Seq::empty(),
    }
}


/// What one option does.
#[verifier::opaque]
pub open spec fn apply_option(s: SessionView, c: ConfigView, cell: OptCell<OptionCode>, arg: Seq<char>) -> OptStep {
    match cell.option_code {
        OptionCode::Help => OptStep::Stop(SessionView { stdout: s.stdout + help_text(), ..s }, Ok(CommandView::Exit(0))),
        OptionCode::Version => OptStep::Stop(SessionView { stdout: s.stdout + PROGRAM_NAME@ + " "@ + VERSION@ + "\n"@, ..s }, Ok(CommandView::Exit(0))),
        OptionCode::Verbose => match int_arg_value(arg) {
            Some(v) => OptStep::Go(SessionView { verbose: saturate_i32(v as i64), ..s }, c),
            None => OptStep::Stop(s, Err((ErrorCode::Usage, int_arg_error(cell)))),
        },
        OptionCode::Output => OptStep::Go(s, ConfigView { output_file: Some(arg), ..c }),
        OptionCode::LopParse => OptStep::Go(s, ConfigView { parse_format: IoFormat::Lop, ..c }),
        OptionCode::TptpParse => OptStep::Go(s, ConfigView { parse_format: IoFormat::Tptp, ..c }),
        OptionCode::TptpFormat => OptStep::Go(s, ConfigView { parse_format: IoFormat::Tptp, ..c }),
        OptionCode::TstpParse => OptStep::Go(s, ConfigView { parse_format: IoFormat::Tstp, ..c }),
        OptionCode::TstpFormat => OptStep::Go(s, ConfigView { parse_format: IoFormat::Tstp, ..c }),
        OptionCode::Sine => OptStep::Go(s, ConfigView { sine: Some(arg), ..c }),
        OptionCode::FreeNumbers => OptStep::Go(s, ConfigView { free_numbers: true, ..c }),
        OptionCode::FreeObjects => OptStep::Go(s, ConfigView { free_objects: true, ..c }),
        OptionCode::DefinitionalCnf => match int_arg_value(arg) {
            Some(v) => OptStep::Go(s, ConfigView { formula_def_limit: v as i64, ..c }),
            None => OptStep::Stop(s, Err((ErrorCode::Usage, int_arg_error(cell)))),
        },
        OptionCode::MiniscopeLimit => match int_arg_value(arg) {
            Some(v) => OptStep::Go(s, ConfigView { miniscope_limit: v as i64, ..c }),
            None => OptStep::Stop(s, Err((ErrorCode::Usage, int_arg_error(cell)))),
        },
        OptionCode::EqUnfoldMaxClauses => match int_arg_value(arg) {
            Some(v) => OptStep::Go(s, c),
            None => OptStep::Stop(s, Err((ErrorCode::Usage, int_arg_error(cell)))),
        },
        OptionCode::EqUnfoldLimit => match int_arg_value(arg) {
            Some(v) => OptStep::Go(s, c),
            None => OptStep::Stop(s, Err((ErrorCode::Usage, int_arg_error(cell)))),
        },
        OptionCode::ClassMask => if utf8_len(arg) == 13 {
            OptStep::Go(s, c)
        } else {
            OptStep::Stop(s, Err((ErrorCode::Usage, CLASS_MASK_ERROR@)))
        },
        OptionCode::RawMask => if utf8_len(arg) == 7 {
            OptStep::Go(s, c)
        } else {
            OptStep::Stop(s, Err((ErrorCode::Usage, RAW_MASK_ERROR@)))
        },
        OptionCode::ParseFeatures => OptStep::Go(s, c),
        OptionCode::TptpPrint => OptStep::Go(s, c),
        OptionCode::TstpPrint => OptStep::Go(s, c),
        OptionCode::RawClass => OptStep::Go(s, c),
        OptionCode::SpecSigFeatures => OptStep::Go(s, c),
        OptionCode::GenerateTptpHeader => OptStep::Go(s, c),
        OptionCode::NoPreprocessing => OptStep::Go(s, c),
        OptionCode::NoEqUnfold => OptStep::Go(s, c),
        _ => match apply_limit(c.limits, cell, arg) {
            Ok(l) => OptStep::Go(s, ConfigView { limits: l, ..c }),
            Err(m) => OptStep::Stop(s, Err((ErrorCode::Usage, m))),
        },
    }
}


/// The options applied in order, then the positional arguments.
pub open spec fn options_fold(
    s: SessionView,
    c: ConfigView,
    opts: Seq<(int, Option<Seq<char>>)>,
    end: Result<Seq<Seq<char>>, Seq<char>>,
) -> (SessionView, Result<CommandView, (ErrorCode, Seq<char>)>)
    decreases opts.len(),
{
    if opts.len() == 0 {
        match end {
            Ok(rest) => (s, Ok(CommandView::Execute(ConfigView { files: input_files(rest), ..c }))),
            Err(m) => (s, Err((ErrorCode::Usage, m))),
        }
    } else {
        match apply_option(s, c, option_table()[opts[0].0], arg_or_empty(opts[0].1)) {
            OptStep::Go(s2, c2) => options_fold(s2, c2, opts.drop_first(), end),
            OptStep::Stop(s2, r) => (s2, r),
        }
    }
}

/// What the command line asks for, and the session after it.
pub open spec fn options_outcome(args: Seq<Seq<char>>, s: SessionView) -> (SessionView, Result<CommandView, (ErrorCode, Seq<char>)>) {
    let sc = crate::cmdline::scan(args, option_table());
    options_fold(s, default_config(), sc.opts, sc.end)
}


/// The help text.
pub open spec fn help_text() -> Seq<char> {
    "\n\n"@ + PROGRAM_NAME@ + " "@ + VERSION@ + "\n\nUsage: classify_problem [options] [files]\n\nRead sets of clauses/formulas, perform cnfization, then convert \nthe clauses to patterns and print them.\n\n"@ + "Options:\n\n"@ + options_text(option_table()) + "\nCopyright (C) 1998-2009 by Stephan Schulz, "@ + STS_MAIL@ + "\n\nThis program is a part of the support structure for the E equational\ntheorem prover. You can find the latest version of the E distribution\nas well as additional information at\n"@ + E_URL@ + "\nThis program is free software; you can redistribute it and/or modify\nit under the terms of the GNU General Public License as published by\nthe Free Software Foundation; either version 2 of the License, or\n(at your option) any later version.\n\nThis program is distributed in the hope that it will be useful,\nbut WITHOUT ANY WARRANTY; without even the implied warranty of\nMERCHANTABILITY or FITNESS FOR A PARTICULAR PURPOSE.  See the\nGNU General Public License for more details.\n\nYou should have received a copy of the GNU General Public License\nalong with this program (it should be contained in the top level\ndirectory of the distribution in the file COPYING); if not, write to\nthe Free Software Foundation, Inc., 59 Temple Place, Suite 330,\nBoston, MA  02111-1307 USA\n\nThe original copyright holder can be contacted as\n\nStephan Schulz\nDHBW Stuttgart\nFakultaet Technik\nInformatik\nLerchenstrasse 1\n70174 Stuttgart\nGermany\n"@
}


/// The help text.
pub fn print_help() -> (s: String)
    ensures
        s@ == help_text(),
{
    let mut s = String::new();
    push_str(&mut s, "\n\n");
    push_str(&mut s, PROGRAM_NAME);
    push_str(&mut s, " ");
    push_str(&mut s, VERSION);
    push_str(&mut s, "\n\nUsage: classify_problem [options] [files]\n\nRead sets of clauses/formulas, perform cnfization, then convert \nthe clauses to patterns and print them.\n\n");
    let opts = options();
    let o = print_options(&opts, Some("Options:\n\n"));
    push_str(&mut s, o.as_str());
    push_str(&mut s, "\nCopyright (C) 1998-2009 by Stephan Schulz, ");
    push_str(&mut s, STS_MAIL);
    push_str(&mut s, "\n\nThis program is a part of the support structure for the E equational\ntheorem prover. You can find the latest version of the E distribution\nas well as additional information at\n");
    push_str(&mut s, E_URL);
    push_str(&mut s, "\nThis program is free software; you can redistribute it and/or modify\nit under the terms of the GNU General Public License as published by\nthe Free Software Foundation; either version 2 of the License, or\n(at your option) any later version.\n\nThis program is distributed in the hope that it will be useful,\nbut WITHOUT ANY WARRANTY; without even the implied warranty of\nMERCHANTABILITY or FITNESS FOR A PARTICULAR PURPOSE.  See the\nGNU General Public License for more details.\n\nYou should have received a copy of the GNU General Public License\nalong with this program (it should be contained in the top level\ndirectory of the distribution in the file COPYING); if not, write to\nthe Free Software Foundation, Inc., 59 Temple Place, Suite 330,\nBoston, MA  02111-1307 USA\n\nThe original copyright holder can be contacted as\n\nStephan Schulz\nDHBW Stuttgart\nFakultaet Technik\nInformatik\nLerchenstrasse 1\n70174 Stuttgart\nGermany\n");
    s
}


/// Applies one option to the session and the settings; `None` where the
/// run goes on with the next.
#[verifier::rlimit(50)]
fn apply_option_exec(cell: &OptCell<OptionCode>, arg: String, sess: &mut Session, cfg: &mut Config) -> (r: Option<Result<Command, Diagnostic>>)
    ensures
        match apply_option(old(sess).view(), old(cfg).view(), *cell, arg@) {
            OptStep::Go(s2, c2) => r is None && final(sess).view() == s2 && final(cfg).view() == c2,
            OptStep::Stop(s2, res) => (r matches Some(x) && command_view(x) == res) && final(sess).view() == s2,
        },
{
    proof {
        reveal(apply_option);
    }
    match cell.option_code {
        OptionCode::Help => {
            let h = print_help();
            push_str(&mut sess.stdout, h.as_str());
            return Some(Ok(Command::Exit(0)));
        },
        OptionCode::Version => {
            push_str(&mut sess.stdout, PROGRAM_NAME);
            push_str(&mut sess.stdout, " ");
            push_str(&mut sess.stdout, VERSION);
            push_str(&mut sess.stdout, "\n");
            return Some(Ok(Command::Exit(0)));
        },
        OptionCode::Verbose => {
            match get_int_arg(cell, arg.as_str()) {
                Ok(v) => {
                    sess.verbose = saturating_i32(v);
                },
                Err(d) => {
                    return Some(Err(d));
                },
            }
        },
        OptionCode::Output => {
            cfg.output_file = Some(arg);
        },
        OptionCode::LopParse => {
            cfg.parse_format = IoFormat::Lop;
        },
        OptionCode::TptpParse => {
            cfg.parse_format = IoFormat::Tptp;
        },
        OptionCode::TptpFormat => {
            cfg.parse_format = IoFormat::Tptp;
        },
        OptionCode::TstpParse => {
            cfg.parse_format = IoFormat::Tstp;
        },
        OptionCode::TstpFormat => {
            cfg.parse_format = IoFormat::Tstp;
        },
        OptionCode::Sine => {
            cfg.sine = Some(arg);
        },
        OptionCode::FreeNumbers => {
            cfg.free_numbers = true;
        },
        OptionCode::FreeObjects => {
            cfg.free_objects = true;
        },
        OptionCode::DefinitionalCnf => {
            match get_int_arg(cell, arg.as_str()) {
                Ok(v) => {
                    cfg.formula_def_limit = v;
                },
                Err(d) => {
                    return Some(Err(d));
                },
            }
        },
        OptionCode::MiniscopeLimit => {
            match get_int_arg(cell, arg.as_str()) {
                Ok(v) => {
                    cfg.miniscope_limit = v;
                },
                Err(d) => {
                    return Some(Err(d));
                },
            }
        },
        OptionCode::EqUnfoldMaxClauses => {
            match get_int_arg(cell, arg.as_str()) {
                Ok(_) => {},
                Err(d) => {
                    return Some(Err(d));
                },
            }
        },
        OptionCode::EqUnfoldLimit => {
            match get_int_arg(cell, arg.as_str()) {
                Ok(_) => {},
                Err(d) => {
                    return Some(Err(d));
                },
            }
        },
        OptionCode::ClassMask => {
            if !utf8_len_is(arg.as_str(), 13) {
                return Some(Err(diag(ErrorCode::Usage, CLASS_MASK_ERROR)));
            }
        },
        OptionCode::RawMask => {
            if !utf8_len_is(arg.as_str(), 7) {
                return Some(Err(diag(ErrorCode::Usage, RAW_MASK_ERROR)));
            }
        },
        OptionCode::ParseFeatures => {

        },
        OptionCode::TptpPrint => {

        },
        OptionCode::TstpPrint => {

        },
        OptionCode::RawClass => {

        },
        OptionCode::SpecSigFeatures => {

        },
        OptionCode::GenerateTptpHeader => {

        },
        OptionCode::NoPreprocessing => {

        },
        OptionCode::NoEqUnfold => {

        },
        _ => {
            match set_limit(&mut cfg.limits, cell, arg.as_str()) {
                Ok(()) => {},
                Err(d) => {
                    return Some(Err(d));
                },
            }
        },
    }
    None
}


/// Reads the command line.
pub fn process_options(args: &Vec<String>, sess: &mut Session) -> (r: Result<Command, Diagnostic>)
    ensures
        (final(sess).view(), command_view(r)) == options_outcome(args_view(args@), old(sess).view()),
{
    let opts = options();
    let mut state = CommandLineState::new(args);
    let mut cfg = Config {
        output_file: None,
        parse_format: IoFormat::Auto,
        sine: None,
        free_numbers: false,
        free_objects: false,
        formula_def_limit: FORMULA_DEF_LIMIT_DEFAULT,
        miniscope_limit: MINISCOPE_LIMIT_DEFAULT,
        files: Vec::new(),
        limits: no_limits(),
    };
    let ghost goal = options_outcome(args_view(args@), old(sess).view());
    proof {
        assert(args_view(cfg.files@) =~= Seq::<Seq<char>>::empty());
    }
    loop
        invariant
            state.wf(),
            state.args_seq() == args_view(args@),
            opts@ == option_table(),
            goal == options_outcome(args_view(args@), old(sess).view()),
            ({
                let sc = scan_from(args_view(args@), option_table(), state.state());
                options_fold(sess.view(), cfg.view(), sc.opts, sc.end) == goal
            }),
        decreases args.len() - state.state().argi, scan_measure(args_view(args@), state.state()),
    {
        let ghost st = state.state();
        proof {
            if !st.done {
                let (st2, ev) = step(args_view(args@), option_table(), st);
                if ev is Opt {
                    lemma_step_progress(args_view(args@), option_table(), st);
                }
            }
        }
        match state.next_opt(&opts) {
            Err(d) => {
                return Err(d);
            },
            Ok(None) => {
                let rest = state.remaining_args();
                if rest.len() == 0 {
                    let mut v: Vec<String> = Vec::new();
                    v.push(owned("-"));
                    proof {
                        assert(args_view(v@) =~= seq!["-"@]);
                    }
                    cfg.files = v;
                } else {
                    cfg.files = rest;
                }
                return Ok(Command::Execute(cfg));
            },
            Ok(Some(p)) => {
                proof {
                    crate::cmdline::lemma_step_opt_index(args_view(args@), option_table(), st);
                }
                let cell = &opts[p.index];
                let arg: String = match &p.arg {
                    Some(a) => copy_string(a),
                    None => String::new(),
                };
                proof {
                    assert(arg@ == arg_or_empty(opt_view(p.arg)));
                }
                match apply_option_exec(cell, arg, sess, &mut cfg) {
                    Some(res) => {
                        return res;
                    },
                    None => {},
                }
                proof {
                    let sc = scan_from(args_view(args@), option_table(), st);
                    let tail = scan_from(args_view(args@), option_table(), state.state());
                    assert(sc.opts == seq![(p.index as int, opt_view(p.arg))].add(tail.opts));
                    assert(sc.opts.drop_first() =~= tail.opts);
                }
            },
        }
    }
}


/// A run up to reading its inputs: the options; where the run goes on, its
/// settings and its output target.
pub fn run(args: &Vec<String>) -> (r: (RunReport, Option<Config>))
    ensures
        ({
            let (s, cmd) = options_outcome(args_view(args@), SessionView { verbose: 0, output_level: 1, stdout: Seq::empty(), stderr: Seq::empty() });
            &&& r.0.stdout@ == s.stdout
            &&& r.0.verbose == s.verbose
            &&& match cmd {
                Err((code, m)) => (r.0.result matches Err(d) && d.code == code && d.message@ == m) && r.1 is None,
                Ok(CommandView::Exit(st)) => (r.0.result matches Ok(x) && x == st) && r.1 is None,
                Ok(CommandView::Execute(cv)) => (r.0.result matches Ok(x) && x == 0) && (r.1 matches Some(c) && c.view() == cv)
                    && opt_view(r.0.output_file) == output_target_view(cv.output_file),
            }
        }),
{
    let mut sess = Session::new(0, 1);
    let cmd = process_options(args, &mut sess);
    let (result, cfg, target) = match cmd {
        Err(d) => (Err(d), None, None),
        Ok(Command::Exit(st)) => (Ok(st), None, None),
        Ok(Command::Execute(c)) => {
            let t = output_target(&c.output_file);
            (Ok(0), Some(c), t)
        },
    };
    (RunReport { result, stdout: sess.stdout, output: String::new(), output_file: target, stderr: sess.stderr, verbose: sess.verbose, output_level: sess.output_level, close_output: true }, cfg)
}



/// A command line whose one option is a raw class mask: the mask is checked
/// and not kept. One of other than seven letters is refused with the mask
/// message; with one of seven the settings are the defaults, with standard
/// input as the one input.
pub proof fn lemma_raw_mask_option(args: Seq<Seq<char>>, m: Seq<char>, s: SessionView)
    requires
        args.len() == 2,
        args[1] == "--raw-mask="@ + m,
    ensures
        utf8_len(m) != 7 ==> options_outcome(args, s) == (s, Err::<CommandView, (ErrorCode, Seq<char>)>((ErrorCode::Usage, RAW_MASK_ERROR@))),
        utf8_len(m) == 7 ==> options_outcome(args, s) == (s, Ok::<CommandView, (ErrorCode, Seq<char>)>(CommandView::Execute(ConfigView { files: seq!["-"@], ..default_config() }))),
{
    let t = option_table();
    let name = "raw-mask"@;
    reveal_strlit("help");
    reveal_strlit("version");
    reveal_strlit("verbose");
    reveal_strlit("output-file");
    reveal_strlit("parse-features");
    reveal_strlit("lop-in");
    reveal_strlit("tptp-in");
    reveal_strlit("tptp-out");
    reveal_strlit("tptp-format");
    reveal_strlit("tstp-in");
    reveal_strlit("tstp-out");
    reveal_strlit("tstp-format");
    reveal_strlit("tptp3-in");
    reveal_strlit("tptp3-out");
    reveal_strlit("tptp3-format");
    reveal_strlit("raw-class");
    reveal_strlit("specsig");
    reveal_strlit("generate-tptp-header");
    reveal_strlit("no-preprocessing");
    reveal_strlit("eq-unfold-limit");
    reveal_strlit("eq-unfold-maxclauses");
    reveal_strlit("no-eq-unfolding");
    reveal_strlit("sine");
    reveal_strlit("free-numbers");
    reveal_strlit("free-objects");
    reveal_strlit("definitional-cnf");
    reveal_strlit("miniscope-limit");
    reveal_strlit("class-mask");
    reveal_strlit("raw-mask");
    reveal_strlit("--raw-mask=");
    assert(args[1] =~= seq!['-', '-'] + name + seq!['='] + m);
    crate::cmdline::lemma_index_of(name, '=', 0);
    assert forall|j: int| 0 <= j < 28 implies (#[trigger] t[j]).long@ != name by {
        assert(t[j].long@.len() != name.len() || t[j].long@[0] != name[0]);
    }
    crate::cmdline::lemma_find_long_at(t, name, 28, 0);
    crate::cmdline::lemma_single_long_option(args, t, name, m, 28);
    reveal(apply_option);
    assert(seq![(28int, Some(m))].drop_first() =~= Seq::<(int, Option<Seq<char>>)>::empty());
    if utf8_len(m) == 7 {
        assert(apply_option(s, default_config(), t[28], m) == OptStep::Go(s, default_config()));
        assert(options_fold(s, default_config(), Seq::empty(), Ok(Seq::<Seq<char>>::empty()))
            == (s, Ok::<CommandView, (ErrorCode, Seq<char>)>(CommandView::Execute(ConfigView { files: input_files(Seq::empty()), ..default_config() }))));
        assert(input_files(Seq::empty()) == seq!["-"@]);
    }
}

} // verus!
