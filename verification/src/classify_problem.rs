//! Problem classification: the options and settings of a run, and the
//! thresholds that override the classification defaults.
use vstd::prelude::*;
use crate::cmdline::{OptCell, OptArgType, CommandLineState, scan_from, step, args_view, opt_view, lemma_step_progress, scan_measure};
use crate::diag::{Diagnostic, ErrorCode, diag};
use crate::help::{get_real_arg, real_text, real_arg_error, get_bool_arg, bool_arg_value, bool_arg_error, get_int_arg, int_arg_value, int_arg_error, print_options, options_text};
use crate::session::{Session, SessionView, RunReport, saturate_i32, saturating_i32, output_target, output_target_view, input_files};
use crate::text::{push_str, copy_string, owned, utf8_len, utf8_len_at_least};
use crate::version::{VERSION, STS_MAIL, E_URL};
use crate::e_deduction_server::IoFormat;

verus! {

/// The name under which the program reports.
pub const PROGRAM_NAME: &'static str = "classify_problem";

/// The classification mask unless another is given.
pub const DEFAULT_CLASSIFY_MASK: &'static str = "aaaa-aaaaaa-a";

/// The raw classification mask unless another is given.
pub const DEFAULT_RAW_MASK: &'static str = "aaaaaaaaaa";

/// The definitional CNF limit unless another is given.
pub const FORMULA_DEF_LIMIT_DEFAULT: i64 = 24;

/// The miniscoping limit unless another is given.
pub const MINISCOPE_LIMIT_DEFAULT: i64 = 1000;

/// The clause limit of equational definition unfolding unless another is given.
pub const DEFAULT_EQDEF_MAXCLAUSES: i64 = 200;

/// The growth limit of equational definition unfolding unless another is given.
pub const DEFAULT_EQDEF_INCRLIMIT: i64 = 20;

/// The message for a class mask that is too short.
pub const CLASS_MASK_ERROR: &'static str = "Option -c (--class-mask) requires at least 13-letter string as an argument";

/// The message for a raw mask that is too short (it names the class mask).
pub const RAW_MASK_ERROR: &'static str = "Option -c (--class-mask) requires at least 11-letter string as an argument";

/// The message for a threshold outside the 32-bit range.
pub const INT_RANGE_ERROR: &'static str = "Option argument out of int range";
/// The thresholds given on the command line; each one that is `None` keeps
/// the classification default. Proportions (real numbers) are kept as
/// given and read where the classification runs.
pub struct Limits {
    pub ngu_absolute: Option<bool>,
    pub gpc_absolute: Option<bool>,
    pub ngu_few_limit: Option<String>,
    pub ngu_many_limit: Option<String>,
    pub gpc_few_limit: Option<String>,
    pub gpc_many_limit: Option<String>,
    pub ax_some_limit: Option<i64>,
    pub ax_many_limit: Option<i64>,
    pub lit_some_limit: Option<i64>,
    pub lit_many_limit: Option<i64>,
    pub term_medium_limit: Option<i64>,
    pub term_large_limit: Option<i64>,
    pub depth_medium_limit: Option<i64>,
    pub depth_deep_limit: Option<i64>,
    pub far_sum_medium_limit: Option<i32>,
    pub far_sum_large_limit: Option<i32>,
    pub symbols_medium_limit: Option<i32>,
    pub symbols_large_limit: Option<i32>,
    pub predc_medium_limit: Option<i32>,
    pub predc_large_limit: Option<i32>,
    pub pred_medium_limit: Option<i32>,
    pub pred_large_limit: Option<i32>,
    pub func_medium_limit: Option<i32>,
    pub func_large_limit: Option<i32>,
    pub fun_medium_limit: Option<i32>,
    pub fun_large_limit: Option<i32>,
}

pub struct LimitsView {
    pub ngu_absolute: Option<bool>,
    pub gpc_absolute: Option<bool>,
    pub ngu_few_limit: Option<Seq<char>>,
    pub ngu_many_limit: Option<Seq<char>>,
    pub gpc_few_limit: Option<Seq<char>>,
    pub gpc_many_limit: Option<Seq<char>>,
    pub ax_some_limit: Option<i64>,
    pub ax_many_limit: Option<i64>,
    pub lit_some_limit: Option<i64>,
    pub lit_many_limit: Option<i64>,
    pub term_medium_limit: Option<i64>,
    pub term_large_limit: Option<i64>,
    pub depth_medium_limit: Option<i64>,
    pub depth_deep_limit: Option<i64>,
    pub far_sum_medium_limit: Option<i32>,
    pub far_sum_large_limit: Option<i32>,
    pub symbols_medium_limit: Option<i32>,
    pub symbols_large_limit: Option<i32>,
    pub predc_medium_limit: Option<i32>,
    pub predc_large_limit: Option<i32>,
    pub pred_medium_limit: Option<i32>,
    pub pred_large_limit: Option<i32>,
    pub func_medium_limit: Option<i32>,
    pub func_large_limit: Option<i32>,
    pub fun_medium_limit: Option<i32>,
    pub fun_large_limit: Option<i32>,
}

impl Limits {
    pub open spec fn view(&self) -> LimitsView {
        LimitsView {
            ngu_absolute: self.ngu_absolute,
            gpc_absolute: self.gpc_absolute,
            ngu_few_limit: opt_view(self.ngu_few_limit),
            ngu_many_limit: opt_view(self.ngu_many_limit),
            gpc_few_limit: opt_view(self.gpc_few_limit),
            gpc_many_limit: opt_view(self.gpc_many_limit),
            ax_some_limit: self.ax_some_limit,
            ax_many_limit: self.ax_many_limit,
            lit_some_limit: self.lit_some_limit,
            lit_many_limit: self.lit_many_limit,
            term_medium_limit: self.term_medium_limit,
            term_large_limit: self.term_large_limit,
            depth_medium_limit: self.depth_medium_limit,
            depth_deep_limit: self.depth_deep_limit,
            far_sum_medium_limit: self.far_sum_medium_limit,
            far_sum_large_limit: self.far_sum_large_limit,
            symbols_medium_limit: self.symbols_medium_limit,
            symbols_large_limit: self.symbols_large_limit,
            predc_medium_limit: self.predc_medium_limit,
            predc_large_limit: self.predc_large_limit,
            pred_medium_limit: self.pred_medium_limit,
            pred_large_limit: self.pred_large_limit,
            func_medium_limit: self.func_medium_limit,
            func_large_limit: self.func_large_limit,
            fun_medium_limit: self.fun_medium_limit,
            fun_large_limit: self.fun_large_limit,
        }
    }
}

/// No threshold given.
pub open spec fn default_limits() -> LimitsView {
    LimitsView {
        ngu_absolute: None,
        gpc_absolute: None,
        ngu_few_limit: None,
        ngu_many_limit: None,
        gpc_few_limit: None,
        gpc_many_limit: None,
        ax_some_limit: None,
        ax_many_limit: None,
        lit_some_limit: None,
        lit_many_limit: None,
        term_medium_limit: None,
        term_large_limit: None,
        depth_medium_limit: None,
        depth_deep_limit: None,
        far_sum_medium_limit: None,
        far_sum_large_limit: None,
        symbols_medium_limit: None,
        symbols_large_limit: None,
        predc_medium_limit: None,
        predc_large_limit: None,
        pred_medium_limit: None,
        pred_large_limit: None,
        func_medium_limit: None,
        func_large_limit: None,
        fun_medium_limit: None,
        fun_large_limit: None,
    }
}

/// See `default_limits`.
pub fn no_limits() -> (l: Limits)
    ensures
        l.view() == default_limits(),
{
    Limits {
        ngu_absolute: None,
        gpc_absolute: None,
        ngu_few_limit: None,
        ngu_many_limit: None,
        gpc_few_limit: None,
        gpc_many_limit: None,
        ax_some_limit: None,
        ax_many_limit: None,
        lit_some_limit: None,
        lit_many_limit: None,
        term_medium_limit: None,
        term_large_limit: None,
        depth_medium_limit: None,
        depth_deep_limit: None,
        far_sum_medium_limit: None,
        far_sum_large_limit: None,
        symbols_medium_limit: None,
        symbols_large_limit: None,
        predc_medium_limit: None,
        predc_large_limit: None,
        pred_medium_limit: None,
        pred_large_limit: None,
        func_medium_limit: None,
        func_large_limit: None,
        fun_medium_limit: None,
        fun_large_limit: None,
    }
}

/// What a threshold option does to the thresholds; other options leave them
/// as they are.
pub open spec fn apply_limit(l: LimitsView, cell: OptCell<OptionCode>, arg: Seq<char>) -> Result<LimitsView, Seq<char>> {
    match cell.option_code {
        OptionCode::NguAbsolute => match bool_arg_value(arg) {
            Some(b) => Ok(LimitsView { ngu_absolute: Some(b), ..l }),
            None => Err(bool_arg_error(cell)),
        },
        OptionCode::GpcAbsolute => match bool_arg_value(arg) {
            Some(b) => Ok(LimitsView { gpc_absolute: Some(b), ..l }),
            None => Err(bool_arg_error(cell)),
        },
        OptionCode::NguFewLimit => if real_text(arg) {
            Ok(LimitsView { ngu_few_limit: Some(arg), ..l })
        } else {
            Err(real_arg_error(cell))
        },
        OptionCode::NguManyLimit => if real_text(arg) {
            Ok(LimitsView { ngu_many_limit: Some(arg), ..l })
        } else {
            Err(real_arg_error(cell))
        },
        OptionCode::GpcFewLimit => if real_text(arg) {
            Ok(LimitsView { gpc_few_limit: Some(arg), ..l })
        } else {
            Err(real_arg_error(cell))
        },
        OptionCode::GpcManyLimit => if real_text(arg) {
            Ok(LimitsView { gpc_many_limit: Some(arg), ..l })
        } else {
            Err(real_arg_error(cell))
        },
        OptionCode::AxiomSomeLimit => match int_arg_value(arg) {
            Some(n) => Ok(LimitsView { ax_some_limit: Some(n as i64), ..l }),
            None => Err(int_arg_error(cell)),
        },
        OptionCode::AxiomManyLimit => match int_arg_value(arg) {
            Some(n) => Ok(LimitsView { ax_many_limit: Some(n as i64), ..l }),
            None => Err(int_arg_error(cell)),
        },
        OptionCode::LitSomeLimit => match int_arg_value(arg) {
            Some(n) => Ok(LimitsView { lit_some_limit: Some(n as i64), ..l }),
            None => Err(int_arg_error(cell)),
        },
        OptionCode::LitManyLimit => match int_arg_value(arg) {
            Some(n) => Ok(LimitsView { lit_many_limit: Some(n as i64), ..l }),
            None => Err(int_arg_error(cell)),
        },
        OptionCode::TermMediumLimit => match int_arg_value(arg) {
            Some(n) => Ok(LimitsView { term_medium_limit: Some(n as i64), ..l }),
            None => Err(int_arg_error(cell)),
        },
        OptionCode::TermLargeLimit => match int_arg_value(arg) {
            Some(n) => Ok(LimitsView { term_large_limit: Some(n as i64), ..l }),
            None => Err(int_arg_error(cell)),
        },
        OptionCode::MaxDepthMediumLimit => match int_arg_value(arg) {
            Some(n) => Ok(LimitsView { depth_medium_limit: Some(n as i64), ..l }),
            None => Err(int_arg_error(cell)),
        },
        OptionCode::MaxDepthDeepLimit => match int_arg_value(arg) {
            Some(n) => Ok(LimitsView { depth_deep_limit: Some(n as i64), ..l }),
            None => Err(int_arg_error(cell)),
        },
        OptionCode::FarSumMediumLimit => match int_arg_value(arg) {
            Some(n) => if i32::MIN <= n <= i32::MAX {
                Ok(LimitsView { far_sum_medium_limit: Some(n as i32), ..l })
            } else {
                Err(INT_RANGE_ERROR@)
            },
            None => Err(int_arg_error(cell)),
        },
        OptionCode::FarSumLargeLimit => match int_arg_value(arg) {
            Some(n) => if i32::MIN <= n <= i32::MAX {
                Ok(LimitsView { far_sum_large_limit: Some(n as i32), ..l })
            } else {
                Err(INT_RANGE_ERROR@)
            },
            None => Err(int_arg_error(cell)),
        },
        OptionCode::SigMediumLimit => match int_arg_value(arg) {
            Some(n) => if i32::MIN <= n <= i32::MAX {
                Ok(LimitsView { symbols_medium_limit: Some(n as i32), ..l })
            } else {
                Err(INT_RANGE_ERROR@)
            },
            None => Err(int_arg_error(cell)),
        },
        OptionCode::SigLargeLimit => match int_arg_value(arg) {
            Some(n) => if i32::MIN <= n <= i32::MAX {
                Ok(LimitsView { symbols_large_limit: Some(n as i32), ..l })
            } else {
                Err(INT_RANGE_ERROR@)
            },
            None => Err(int_arg_error(cell)),
        },
        OptionCode::PredConstMediumLimit => match int_arg_value(arg) {
            Some(n) => if i32::MIN <= n <= i32::MAX {
                Ok(LimitsView { predc_medium_limit: Some(n as i32), ..l })
            } else {
                Err(INT_RANGE_ERROR@)
            },
            None => Err(int_arg_error(cell)),
        },
        OptionCode::PredConstLargeLimit => match int_arg_value(arg) {
            Some(n) => if i32::MIN <= n <= i32::MAX {
                Ok(LimitsView { predc_large_limit: Some(n as i32), ..l })
            } else {
                Err(INT_RANGE_ERROR@)
            },
            None => Err(int_arg_error(cell)),
        },
        OptionCode::PredMediumLimit => match int_arg_value(arg) {
            Some(n) => if i32::MIN <= n <= i32::MAX {
                Ok(LimitsView { pred_medium_limit: Some(n as i32), ..l })
            } else {
                Err(INT_RANGE_ERROR@)
            },
            None => Err(int_arg_error(cell)),
        },
        OptionCode::PredLargeLimit => match int_arg_value(arg) {
            Some(n) => if i32::MIN <= n <= i32::MAX {
                Ok(LimitsView { pred_large_limit: Some(n as i32), ..l })
            } else {
                Err(INT_RANGE_ERROR@)
            },
            None => Err(int_arg_error(cell)),
        },
        OptionCode::FuncConstMediumLimit => match int_arg_value(arg) {
            Some(n) => if i32::MIN <= n <= i32::MAX {
                Ok(LimitsView { func_medium_limit: Some(n as i32), ..l })
            } else {
                Err(INT_RANGE_ERROR@)
            },
            None => Err(int_arg_error(cell)),
        },
        OptionCode::FuncConstLargeLimit => match int_arg_value(arg) {
            Some(n) => if i32::MIN <= n <= i32::MAX {
                Ok(LimitsView { func_large_limit: Some(n as i32), ..l })
            } else {
                Err(INT_RANGE_ERROR@)
            },
            None => Err(int_arg_error(cell)),
        },
        OptionCode::FunMediumLimit => match int_arg_value(arg) {
            Some(n) => if i32::MIN <= n <= i32::MAX {
                Ok(LimitsView { fun_medium_limit: Some(n as i32), ..l })
            } else {
                Err(INT_RANGE_ERROR@)
            },
            None => Err(int_arg_error(cell)),
        },
        OptionCode::FunLargeLimit => match int_arg_value(arg) {
            Some(n) => if i32::MIN <= n <= i32::MAX {
                Ok(LimitsView { fun_large_limit: Some(n as i32), ..l })
            } else {
                Err(INT_RANGE_ERROR@)
            },
            None => Err(int_arg_error(cell)),
        },
        _ => Ok(l),
    }
}

/// A 32-bit integer argument of an option.
fn get_i32_arg(cell: &OptCell<OptionCode>, arg: &str) -> (r: Result<i32, Diagnostic>)
    ensures
        match int_arg_value(arg@) {
            Some(n) => if i32::MIN <= n <= i32::MAX {
                r matches Ok(x) && x == n
            } else {
                r matches Err(d) && d.code == ErrorCode::Usage && d.message@ == INT_RANGE_ERROR@
            },
            None => r matches Err(d) && d.code == ErrorCode::Usage && d.message@ == int_arg_error(*cell),
        },
{
    let v = get_int_arg(cell, arg)?;
    if v < -2147483648 || v > 2147483647 {
        return Err(diag(ErrorCode::Usage, INT_RANGE_ERROR));
    }
    Ok(v as i32)
}

/// Applies a threshold option.
pub fn set_limit(l: &mut Limits, cell: &OptCell<OptionCode>, arg: &str) -> (r: Result<(), Diagnostic>)
    ensures
        match apply_limit(old(l).view(), *cell, arg@) {
            Ok(v) => r is Ok && final(l).view() == v,
            Err(m) => r matches Err(d) && d.code == ErrorCode::Usage && d.message@ == m,
        },
{
    match cell.option_code {
        OptionCode::NguAbsolute => {
            l.ngu_absolute = Some(get_bool_arg(cell, arg)?);
        },
        OptionCode::GpcAbsolute => {
            l.gpc_absolute = Some(get_bool_arg(cell, arg)?);
        },
        OptionCode::NguFewLimit => {
            get_real_arg(cell, arg)?;
            l.ngu_few_limit = Some(owned(arg));
        },
        OptionCode::NguManyLimit => {
            get_real_arg(cell, arg)?;
            l.ngu_many_limit = Some(owned(arg));
        },
        OptionCode::GpcFewLimit => {
            get_real_arg(cell, arg)?;
            l.gpc_few_limit = Some(owned(arg));
        },
        OptionCode::GpcManyLimit => {
            get_real_arg(cell, arg)?;
            l.gpc_many_limit = Some(owned(arg));
        },
        OptionCode::AxiomSomeLimit => {
            l.ax_some_limit = Some(get_int_arg(cell, arg)?);
        },
        OptionCode::AxiomManyLimit => {
            l.ax_many_limit = Some(get_int_arg(cell, arg)?);
        },
        OptionCode::LitSomeLimit => {
            l.lit_some_limit = Some(get_int_arg(cell, arg)?);
        },
        OptionCode::LitManyLimit => {
            l.lit_many_limit = Some(get_int_arg(cell, arg)?);
        },
        OptionCode::TermMediumLimit => {
            l.term_medium_limit = Some(get_int_arg(cell, arg)?);
        },
        OptionCode::TermLargeLimit => {
            l.term_large_limit = Some(get_int_arg(cell, arg)?);
        },
        OptionCode::MaxDepthMediumLimit => {
            l.depth_medium_limit = Some(get_int_arg(cell, arg)?);
        },
        OptionCode::MaxDepthDeepLimit => {
            l.depth_deep_limit = Some(get_int_arg(cell, arg)?);
        },
        OptionCode::FarSumMediumLimit => {
            l.far_sum_medium_limit = Some(get_i32_arg(cell, arg)?);
        },
        OptionCode::FarSumLargeLimit => {
            l.far_sum_large_limit = Some(get_i32_arg(cell, arg)?);
        },
        OptionCode::SigMediumLimit => {
            l.symbols_medium_limit = Some(get_i32_arg(cell, arg)?);
        },
        OptionCode::SigLargeLimit => {
            l.symbols_large_limit = Some(get_i32_arg(cell, arg)?);
        },
        OptionCode::PredConstMediumLimit => {
            l.predc_medium_limit = Some(get_i32_arg(cell, arg)?);
        },
        OptionCode::PredConstLargeLimit => {
            l.predc_large_limit = Some(get_i32_arg(cell, arg)?);
        },
        OptionCode::PredMediumLimit => {
            l.pred_medium_limit = Some(get_i32_arg(cell, arg)?);
        },
        OptionCode::PredLargeLimit => {
            l.pred_large_limit = Some(get_i32_arg(cell, arg)?);
        },
        OptionCode::FuncConstMediumLimit => {
            l.func_medium_limit = Some(get_i32_arg(cell, arg)?);
        },
        OptionCode::FuncConstLargeLimit => {
            l.func_large_limit = Some(get_i32_arg(cell, arg)?);
        },
        OptionCode::FunMediumLimit => {
            l.fun_medium_limit = Some(get_i32_arg(cell, arg)?);
        },
        OptionCode::FunLargeLimit => {
            l.fun_large_limit = Some(get_i32_arg(cell, arg)?);
        },
        _ => {},
    }
    Ok(())
}


/// The options of the program.
#[derive(Clone, Copy, Debug, PartialEq, Eq, Structural)]
pub enum OptionCode {
    Help,
    Version,
    Verbose,
    Output,
    ParseFeatures,
    LopParse,
    TptpParse,
    TptpPrint,
    TptpFormat,
    TstpParse,
    TstpPrint,
    TstpFormat,
    RawClass,
    SpecSigFeatures,
    GenerateTptpHeader,
    NoPreprocessing,
    EqUnfoldLimit,
    EqUnfoldMaxClauses,
    NoEqUnfold,
    Sine,
    FreeNumbers,
    FreeObjects,
    DefinitionalCnf,
    OldCnf,
    MiniscopeLimit,
    ClassMask,
    RawMask,
    NguAbsolute,
    NguFewLimit,
    NguManyLimit,
    GpcAbsolute,
    GpcFewLimit,
    GpcManyLimit,
    AxiomSomeLimit,
    AxiomManyLimit,
    LitSomeLimit,
    LitManyLimit,
    TermMediumLimit,
    TermLargeLimit,
    FarSumMediumLimit,
    FarSumLargeLimit,
    MaxDepthMediumLimit,
    MaxDepthDeepLimit,
    SigMediumLimit,
    SigLargeLimit,
    PredConstMediumLimit,
    PredConstLargeLimit,
    PredMediumLimit,
    PredLargeLimit,
    FuncConstMediumLimit,
    FuncConstLargeLimit,
    FunMediumLimit,
    FunLargeLimit,
    MergedClassification,
}

/// The option table.
pub open spec fn option_table() -> Seq<OptCell<OptionCode>> {
    seq![
        OptCell {
            option_code: OptionCode::Help,
            short: Some('h'),
            long: "help",
            arg_type: OptArgType::NoArg,
            default: None,
            desc: "Print a short description of program usage and options.",
        },
        OptCell {
            option_code: OptionCode::Version,
            short: None,
            long: "version",
            arg_type: OptArgType::NoArg,
            default: None,
            desc: "Print the version number of the program.",
        },
        OptCell {
            option_code: OptionCode::Verbose,
            short: Some('v'),
            long: "verbose",
            arg_type: OptArgType::OptArg,
            default: Some("1"),
            desc: "Verbose comments on the progress of the program. This differs from the output level (below) in that technical information is printed to stderr, while the output level determines which logical manipulations of the clauses are printed to stdout.",
        },
        OptCell {
            option_code: OptionCode::Output,
            short: Some('o'),
            long: "output-file",
            arg_type: OptArgType::ReqArg,
            default: None,
            desc: "Redirect output into the named file.",
        },
        OptCell {
            option_code: OptionCode::ParseFeatures,
            short: Some('p'),
            long: "parse-features",
            arg_type: OptArgType::NoArg,
            default: None,
            desc: "Parse precomputed feature lines, not real formulae. This conflicts with the '--generate-tptp-header' option, as not all information needed for this is stored in feature lines.",
        },
        OptCell {
            option_code: OptionCode::LopParse,
            short: None,
            long: "lop-in",
            arg_type: OptArgType::NoArg,
            default: None,
            desc: "Set E-LOP as the input format.",
        },
        OptCell {
            option_code: OptionCode::TptpParse,
            short: None,
            long: "tptp-in",
            arg_type: OptArgType::NoArg,
            default: None,
            desc: "Set TPTP-2 as the input format.",
        },
        OptCell {
            option_code: OptionCode::TptpPrint,
            short: None,
            long: "tptp-out",
            arg_type: OptArgType::NoArg,
            default: None,
            desc: "No effect (since not clauses/formulas are printed).",
        },
        OptCell {
            option_code: OptionCode::TptpFormat,
            short: None,
            long: "tptp-format",
            arg_type: OptArgType::NoArg,
            default: None,
            desc: "Equivalent to --tptp-in and --tptp-out.",
        },
        OptCell {
            option_code: OptionCode::TstpParse,
            short: None,
            long: "tstp-in",
            arg_type: OptArgType::NoArg,
            default: None,
            desc: "Parse TSTP format instead of E-LOP.",
        },
        OptCell {
            option_code: OptionCode::TstpPrint,
            short: None,
            long: "tstp-out",
            arg_type: OptArgType::NoArg,
            default: None,
            desc: "No effect (since not clauses/formulas are printed).",
        },
        OptCell {
            option_code: OptionCode::TstpFormat,
            short: None,
            long: "tstp-format",
            arg_type: OptArgType::NoArg,
            default: None,
            desc: "Equivalent to --tstp-in and --tstp-out.",
        },
        OptCell {
            option_code: OptionCode::TstpParse,
            short: None,
            long: "tptp3-in",
            arg_type: OptArgType::NoArg,
            default: None,
            desc: "Equivalent to --tstp-in.",
        },
        OptCell {
            option_code: OptionCode::TstpPrint,
            short: None,
            long: "tptp3-out",
            arg_type: OptArgType::NoArg,
            default: None,
            desc: "Equivalent to --tstp-out.",
        },
        OptCell {
            option_code: OptionCode::TstpFormat,
            short: None,
            long: "tptp3-format",
            arg_type: OptArgType::NoArg,
            default: None,
            desc: "Equivalent to --tstp-format.",
        },
        OptCell {
            option_code: OptionCode::RawClass,
            short: Some('r'),
            long: "raw-class",
            arg_type: OptArgType::NoArg,
            default: None,
            desc: "Perform a raw and rough classification on the unclausified and unpreprocessed problem.",
        },
        OptCell {
            option_code: OptionCode::SpecSigFeatures,
            short: None,
            long: "specsig",
            arg_type: OptArgType::NoArg,
            default: None,
            desc: "Compute and print new-style features based on the distribution of symbols of different arities.",
        },
        OptCell {
            option_code: OptionCode::GenerateTptpHeader,
            short: Some('H'),
            long: "generate-tptp-header",
            arg_type: OptArgType::NoArg,
            default: None,
            desc: "Generate the statistics (\"Syntax\") part of a TPTP header for the problem.",
        },
        OptCell {
            option_code: OptionCode::NoPreprocessing,
            short: None,
            long: "no-preprocessing",
            arg_type: OptArgType::NoArg,
            default: None,
            desc: "Do not perform preprocessing on the initial clause set.",
        },
        OptCell {
            option_code: OptionCode::EqUnfoldLimit,
            short: None,
            long: "eq-unfold-limit",
            arg_type: OptArgType::ReqArg,
            default: None,
            desc: "During preprocessing, limit unfolding of equational definitions.",
        },
        OptCell {
            option_code: OptionCode::EqUnfoldMaxClauses,
            short: None,
            long: "eq-unfold-maxclauses",
            arg_type: OptArgType::ReqArg,
            default: None,
            desc: "During preprocessing, don't try unfolding of equational definitions if the problem has more than this limit of clauses.",
        },
        OptCell {
            option_code: OptionCode::NoEqUnfold,
            short: None,
            long: "no-eq-unfolding",
            arg_type: OptArgType::NoArg,
            default: None,
            desc: "During preprocessing, abstain from unfolding equational definitions.",
        },
        OptCell {
            option_code: OptionCode::Sine,
            short: None,
            long: "sine",
            arg_type: OptArgType::OptArg,
            default: Some("Auto"),
            desc: "Apply SInE to prune the unprocessed axioms with the specified filter.",
        },
        OptCell {
            option_code: OptionCode::FreeNumbers,
            short: None,
            long: "free-numbers",
            arg_type: OptArgType::NoArg,
            default: None,
            desc: "Treat numbers as normal free function symbols in the input.",
        },
        OptCell {
            option_code: OptionCode::FreeObjects,
            short: None,
            long: "free-objects",
            arg_type: OptArgType::NoArg,
            default: None,
            desc: "Treat object identifiers as normal free function symbols in the input.",
        },
        OptCell {
            option_code: OptionCode::DefinitionalCnf,
            short: None,
            long: "definitional-cnf",
            arg_type: OptArgType::OptArg,
            default: Some("24"),
            desc: "Tune the clausification algorithm to introduce definitions for subformulae.",
        },
        OptCell {
            option_code: OptionCode::OldCnf,
            short: None,
            long: "old-cnf",
            arg_type: OptArgType::OptArg,
            default: Some("24"),
            desc: "Use the classical clausification algorithm.",
        },
        OptCell {
            option_code: OptionCode::MiniscopeLimit,
            short: None,
            long: "miniscope-limit",
            arg_type: OptArgType::OptArg,
            default: Some("1000"),
            desc: "Set the limit of variables to miniscope per input formula.",
        },
        OptCell {
            option_code: OptionCode::ClassMask,
            short: Some('c'),
            long: "class-mask",
            arg_type: OptArgType::ReqArg,
            default: None,
            desc: "Provide a mask for the class description.",
        },
        OptCell {
            option_code: OptionCode::RawMask,
            short: None,
            long: "raw-mask",
            arg_type: OptArgType::ReqArg,
            default: None,
            desc: "Provide a mask for the rawclass description.",
        },
        OptCell {
            option_code: OptionCode::NguAbsolute,
            short: Some('a'),
            long: "ngu-absolute",
            arg_type: OptArgType::OptArg,
            default: Some("true"),
            desc: "Use absolute values to determine non-ground unit classes.",
        },
        OptCell {
            option_code: OptionCode::NguFewLimit,
            short: Some('f'),
            long: "ngu-few-limit",
            arg_type: OptArgType::ReqArg,
            default: None,
            desc: "Set the few limit for non-ground unit clauses.",
        },
        OptCell {
            option_code: OptionCode::NguManyLimit,
            short: Some('m'),
            long: "ngu-many-limit",
            arg_type: OptArgType::ReqArg,
            default: None,
            desc: "Set the many limit for non-ground unit clauses.",
        },
        OptCell {
            option_code: OptionCode::GpcAbsolute,
            short: None,
            long: "gpc-absolute",
            arg_type: OptArgType::OptArg,
            default: Some("true"),
            desc: "Use absolute values to determine ground positive classes.",
        },
        OptCell {
            option_code: OptionCode::GpcFewLimit,
            short: None,
            long: "gpc-few-limit",
            arg_type: OptArgType::ReqArg,
            default: None,
            desc: "Set the few limit for ground positive clauses.",
        },
        OptCell {
            option_code: OptionCode::GpcManyLimit,
            short: None,
            long: "gpc-many-limit",
            arg_type: OptArgType::ReqArg,
            default: None,
            desc: "Set the many limit for ground positive clauses.",
        },
        OptCell {
            option_code: OptionCode::AxiomSomeLimit,
            short: None,
            long: "ax-some-limit",
            arg_type: OptArgType::ReqArg,
            default: None,
            desc: "Set the medium-size clause limit.",
        },
        OptCell {
            option_code: OptionCode::AxiomManyLimit,
            short: None,
            long: "ax-many-limit",
            arg_type: OptArgType::ReqArg,
            default: None,
            desc: "Set the large-size clause limit.",
        },
        OptCell {
            option_code: OptionCode::LitSomeLimit,
            short: None,
            long: "lit-some-limit",
            arg_type: OptArgType::ReqArg,
            default: None,
            desc: "Set the medium-size literal limit.",
        },
        OptCell {
            option_code: OptionCode::LitManyLimit,
            short: None,
            long: "lit-many-limit",
            arg_type: OptArgType::ReqArg,
            default: None,
            desc: "Set the large-size literal limit.",
        },
        OptCell {
            option_code: OptionCode::TermMediumLimit,
            short: None,
            long: "term-medium-limit",
            arg_type: OptArgType::ReqArg,
            default: None,
            desc: "Set the medium-size subterm limit.",
        },
        OptCell {
            option_code: OptionCode::TermLargeLimit,
            short: None,
            long: "term-large-limit",
            arg_type: OptArgType::ReqArg,
            default: None,
            desc: "Set the large-size subterm limit.",
        },
        OptCell {
            option_code: OptionCode::FarSumMediumLimit,
            short: None,
            long: "farity-medium-limit",
            arg_type: OptArgType::ReqArg,
            default: None,
            desc: "Set the medium function-arity sum limit.",
        },
        OptCell {
            option_code: OptionCode::FarSumLargeLimit,
            short: None,
            long: "farity-large-limit",
            arg_type: OptArgType::ReqArg,
            default: None,
            desc: "Set the large function-arity sum limit.",
        },
        OptCell {
            option_code: OptionCode::MaxDepthMediumLimit,
            short: None,
            long: "max-depth-medium-limit",
            arg_type: OptArgType::ReqArg,
            default: None,
            desc: "Set the medium maximal clause depth limit.",
        },
        OptCell {
            option_code: OptionCode::MaxDepthDeepLimit,
            short: None,
            long: "max-depth-deep-limit",
            arg_type: OptArgType::ReqArg,
            default: None,
            desc: "Set the deep maximal clause depth limit.",
        },
        OptCell {
            option_code: OptionCode::SigMediumLimit,
            short: None,
            long: "sig-medium-limit",
            arg_type: OptArgType::ReqArg,
            default: None,
            desc: "Set the medium signature-size limit.",
        },
        OptCell {
            option_code: OptionCode::SigLargeLimit,
            short: None,
            long: "sig-large-limit",
            arg_type: OptArgType::ReqArg,
            default: None,
            desc: "Set the large signature-size limit.",
        },
        OptCell {
            option_code: OptionCode::PredConstMediumLimit,
            short: None,
            long: "pred-const-medium-limit",
            arg_type: OptArgType::ReqArg,
            default: None,
            desc: "Set the medium predicate-constant limit.",
        },
        OptCell {
            option_code: OptionCode::PredConstLargeLimit,
            short: None,
            long: "pred-const-large-limit",
            arg_type: OptArgType::ReqArg,
            default: None,
            desc: "Set the large predicate-constant limit.",
        },
        OptCell {
            option_code: OptionCode::PredMediumLimit,
            short: None,
            long: "pred-medium-limit",
            arg_type: OptArgType::ReqArg,
            default: None,
            desc: "Set the medium non-constant predicate limit.",
        },
        OptCell {
            option_code: OptionCode::PredLargeLimit,
            short: None,
            long: "pred-large-limit",
            arg_type: OptArgType::ReqArg,
            default: None,
            desc: "Set the large non-constant predicate limit.",
        },
        OptCell {
            option_code: OptionCode::FuncConstMediumLimit,
            short: None,
            long: "fun-const-medium-limit",
            arg_type: OptArgType::ReqArg,
            default: None,
            desc: "Set the medium function-constant limit.",
        },
        OptCell {
            option_code: OptionCode::FuncConstLargeLimit,
            short: None,
            long: "fun-const-large-limit",
            arg_type: OptArgType::ReqArg,
            default: None,
            desc: "Set the large function-constant limit.",
        },
        OptCell {
            option_code: OptionCode::FunMediumLimit,
            short: None,
            long: "fun-medium-limit",
            arg_type: OptArgType::ReqArg,
            default: None,
            desc: "Set the medium non-constant function limit.",
        },
        OptCell {
            option_code: OptionCode::FunLargeLimit,
            short: None,
            long: "fun-large-limit",
            arg_type: OptArgType::ReqArg,
            default: None,
            desc: "Set the large non-constant function limit.",
        },
        OptCell {
            option_code: OptionCode::MergedClassification,
            short: None,
            long: "merged-classification",
            arg_type: OptArgType::ReqArg,
            default: None,
            desc: "Perform classification that merges formula and clause properties.",
        },
    ]
}

/// The option table.
pub fn options() -> (v: Vec<OptCell<OptionCode>>)
    ensures
        v@ == option_table(),
{
    let v = vec![
        OptCell {
            option_code: OptionCode::Help,
            short: Some('h'),
            long: "help",
            arg_type: OptArgType::NoArg,
            default: None,
            desc: "Print a short description of program usage and options.",
        },
        OptCell {
            option_code: OptionCode::Version,
            short: None,
            long: "version",
            arg_type: OptArgType::NoArg,
            default: None,
            desc: "Print the version number of the program.",
        },
        OptCell {
            option_code: OptionCode::Verbose,
            short: Some('v'),
            long: "verbose",
            arg_type: OptArgType::OptArg,
            default: Some("1"),
            desc: "Verbose comments on the progress of the program. This differs from the output level (below) in that technical information is printed to stderr, while the output level determines which logical manipulations of the clauses are printed to stdout.",
        },
        OptCell {
            option_code: OptionCode::Output,
            short: Some('o'),
            long: "output-file",
            arg_type: OptArgType::ReqArg,
            default: None,
            desc: "Redirect output into the named file.",
        },
        OptCell {
            option_code: OptionCode::ParseFeatures,
            short: Some('p'),
            long: "parse-features",
            arg_type: OptArgType::NoArg,
            default: None,
            desc: "Parse precomputed feature lines, not real formulae. This conflicts with the '--generate-tptp-header' option, as not all information needed for this is stored in feature lines.",
        },
        OptCell {
            option_code: OptionCode::LopParse,
            short: None,
            long: "lop-in",
            arg_type: OptArgType::NoArg,
            default: None,
            desc: "Set E-LOP as the input format.",
        },
        OptCell {
            option_code: OptionCode::TptpParse,
            short: None,
            long: "tptp-in",
            arg_type: OptArgType::NoArg,
            default: None,
            desc: "Set TPTP-2 as the input format.",
        },
        OptCell {
            option_code: OptionCode::TptpPrint,
            short: None,
            long: "tptp-out",
            arg_type: OptArgType::NoArg,
            default: None,
            desc: "No effect (since not clauses/formulas are printed).",
        },
        OptCell {
            option_code: OptionCode::TptpFormat,
            short: None,
            long: "tptp-format",
            arg_type: OptArgType::NoArg,
            default: None,
            desc: "Equivalent to --tptp-in and --tptp-out.",
        },
        OptCell {
            option_code: OptionCode::TstpParse,
            short: None,
            long: "tstp-in",
            arg_type: OptArgType::NoArg,
            default: None,
            desc: "Parse TSTP format instead of E-LOP.",
        },
        OptCell {
            option_code: OptionCode::TstpPrint,
            short: None,
            long: "tstp-out",
            arg_type: OptArgType::NoArg,
            default: None,
            desc: "No effect (since not clauses/formulas are printed).",
        },
        OptCell {
            option_code: OptionCode::TstpFormat,
            short: None,
            long: "tstp-format",
            arg_type: OptArgType::NoArg,
            default: None,
            desc: "Equivalent to --tstp-in and --tstp-out.",
        },
        OptCell {
            option_code: OptionCode::TstpParse,
            short: None,
            long: "tptp3-in",
            arg_type: OptArgType::NoArg,
            default: None,
            desc: "Equivalent to --tstp-in.",
        },
        OptCell {
            option_code: OptionCode::TstpPrint,
            short: None,
            long: "tptp3-out",
            arg_type: OptArgType::NoArg,
            default: None,
            desc: "Equivalent to --tstp-out.",
        },
        OptCell {
            option_code: OptionCode::TstpFormat,
            short: None,
            long: "tptp3-format",
            arg_type: OptArgType::NoArg,
            default: None,
            desc: "Equivalent to --tstp-format.",
        },
        OptCell {
            option_code: OptionCode::RawClass,
            short: Some('r'),
            long: "raw-class",
            arg_type: OptArgType::NoArg,
            default: None,
            desc: "Perform a raw and rough classification on the unclausified and unpreprocessed problem.",
        },
        OptCell {
            option_code: OptionCode::SpecSigFeatures,
            short: None,
            long: "specsig",
            arg_type: OptArgType::NoArg,
            default: None,
            desc: "Compute and print new-style features based on the distribution of symbols of different arities.",
        },
        OptCell {
            option_code: OptionCode::GenerateTptpHeader,
            short: Some('H'),
            long: "generate-tptp-header",
            arg_type: OptArgType::NoArg,
            default: None,
            desc: "Generate the statistics (\"Syntax\") part of a TPTP header for the problem.",
        },
        OptCell {
            option_code: OptionCode::NoPreprocessing,
            short: None,
            long: "no-preprocessing",
            arg_type: OptArgType::NoArg,
            default: None,
            desc: "Do not perform preprocessing on the initial clause set.",
        },
        OptCell {
            option_code: OptionCode::EqUnfoldLimit,
            short: None,
            long: "eq-unfold-limit",
            arg_type: OptArgType::ReqArg,
            default: None,
            desc: "During preprocessing, limit unfolding of equational definitions.",
        },
        OptCell {
            option_code: OptionCode::EqUnfoldMaxClauses,
            short: None,
            long: "eq-unfold-maxclauses",
            arg_type: OptArgType::ReqArg,
            default: None,
            desc: "During preprocessing, don't try unfolding of equational definitions if the problem has more than this limit of clauses.",
        },
        OptCell {
            option_code: OptionCode::NoEqUnfold,
            short: None,
            long: "no-eq-unfolding",
            arg_type: OptArgType::NoArg,
            default: None,
            desc: "During preprocessing, abstain from unfolding equational definitions.",
        },
        OptCell {
            option_code: OptionCode::Sine,
            short: None,
            long: "sine",
            arg_type: OptArgType::OptArg,
            default: Some("Auto"),
            desc: "Apply SInE to prune the unprocessed axioms with the specified filter.",
        },
        OptCell {
            option_code: OptionCode::FreeNumbers,
            short: None,
            long: "free-numbers",
            arg_type: OptArgType::NoArg,
            default: None,
            desc: "Treat numbers as normal free function symbols in the input.",
        },
        OptCell {
            option_code: OptionCode::FreeObjects,
            short: None,
            long: "free-objects",
            arg_type: OptArgType::NoArg,
            default: None,
            desc: "Treat object identifiers as normal free function symbols in the input.",
        },
        OptCell {
            option_code: OptionCode::DefinitionalCnf,
            short: None,
            long: "definitional-cnf",
            arg_type: OptArgType::OptArg,
            default: Some("24"),
            desc: "Tune the clausification algorithm to introduce definitions for subformulae.",
        },
        OptCell {
            option_code: OptionCode::OldCnf,
            short: None,
            long: "old-cnf",
            arg_type: OptArgType::OptArg,
            default: Some("24"),
            desc: "Use the classical clausification algorithm.",
        },
        OptCell {
            option_code: OptionCode::MiniscopeLimit,
            short: None,
            long: "miniscope-limit",
            arg_type: OptArgType::OptArg,
            default: Some("1000"),
            desc: "Set the limit of variables to miniscope per input formula.",
        },
        OptCell {
            option_code: OptionCode::ClassMask,
            short: Some('c'),
            long: "class-mask",
            arg_type: OptArgType::ReqArg,
            default: None,
            desc: "Provide a mask for the class description.",
        },
        OptCell {
            option_code: OptionCode::RawMask,
            short: None,
            long: "raw-mask",
            arg_type: OptArgType::ReqArg,
            default: None,
            desc: "Provide a mask for the rawclass description.",
        },
        OptCell {
            option_code: OptionCode::NguAbsolute,
            short: Some('a'),
            long: "ngu-absolute",
            arg_type: OptArgType::OptArg,
            default: Some("true"),
            desc: "Use absolute values to determine non-ground unit classes.",
        },
        OptCell {
            option_code: OptionCode::NguFewLimit,
            short: Some('f'),
            long: "ngu-few-limit",
            arg_type: OptArgType::ReqArg,
            default: None,
            desc: "Set the few limit for non-ground unit clauses.",
        },
        OptCell {
            option_code: OptionCode::NguManyLimit,
            short: Some('m'),
            long: "ngu-many-limit",
            arg_type: OptArgType::ReqArg,
            default: None,
            desc: "Set the many limit for non-ground unit clauses.",
        },
        OptCell {
            option_code: OptionCode::GpcAbsolute,
            short: None,
            long: "gpc-absolute",
            arg_type: OptArgType::OptArg,
            default: Some("true"),
            desc: "Use absolute values to determine ground positive classes.",
        },
        OptCell {
            option_code: OptionCode::GpcFewLimit,
            short: None,
            long: "gpc-few-limit",
            arg_type: OptArgType::ReqArg,
            default: None,
            desc: "Set the few limit for ground positive clauses.",
        },
        OptCell {
            option_code: OptionCode::GpcManyLimit,
            short: None,
            long: "gpc-many-limit",
            arg_type: OptArgType::ReqArg,
            default: None,
            desc: "Set the many limit for ground positive clauses.",
        },
        OptCell {
            option_code: OptionCode::AxiomSomeLimit,
            short: None,
            long: "ax-some-limit",
            arg_type: OptArgType::ReqArg,
            default: None,
            desc: "Set the medium-size clause limit.",
        },
        OptCell {
            option_code: OptionCode::AxiomManyLimit,
            short: None,
            long: "ax-many-limit",
            arg_type: OptArgType::ReqArg,
            default: None,
            desc: "Set the large-size clause limit.",
        },
        OptCell {
            option_code: OptionCode::LitSomeLimit,
            short: None,
            long: "lit-some-limit",
            arg_type: OptArgType::ReqArg,
            default: None,
            desc: "Set the medium-size literal limit.",
        },
        OptCell {
            option_code: OptionCode::LitManyLimit,
            short: None,
            long: "lit-many-limit",
            arg_type: OptArgType::ReqArg,
            default: None,
            desc: "Set the large-size literal limit.",
        },
        OptCell {
            option_code: OptionCode::TermMediumLimit,
            short: None,
            long: "term-medium-limit",
            arg_type: OptArgType::ReqArg,
            default: None,
            desc: "Set the medium-size subterm limit.",
        },
        OptCell {
            option_code: OptionCode::TermLargeLimit,
            short: None,
            long: "term-large-limit",
            arg_type: OptArgType::ReqArg,
            default: None,
            desc: "Set the large-size subterm limit.",
        },
        OptCell {
            option_code: OptionCode::FarSumMediumLimit,
            short: None,
            long: "farity-medium-limit",
            arg_type: OptArgType::ReqArg,
            default: None,
            desc: "Set the medium function-arity sum limit.",
        },
        OptCell {
            option_code: OptionCode::FarSumLargeLimit,
            short: None,
            long: "farity-large-limit",
            arg_type: OptArgType::ReqArg,
            default: None,
            desc: "Set the large function-arity sum limit.",
        },
        OptCell {
            option_code: OptionCode::MaxDepthMediumLimit,
            short: None,
            long: "max-depth-medium-limit",
            arg_type: OptArgType::ReqArg,
            default: None,
            desc: "Set the medium maximal clause depth limit.",
        },
        OptCell {
            option_code: OptionCode::MaxDepthDeepLimit,
            short: None,
            long: "max-depth-deep-limit",
            arg_type: OptArgType::ReqArg,
            default: None,
            desc: "Set the deep maximal clause depth limit.",
        },
        OptCell {
            option_code: OptionCode::SigMediumLimit,
            short: None,
            long: "sig-medium-limit",
            arg_type: OptArgType::ReqArg,
            default: None,
            desc: "Set the medium signature-size limit.",
        },
        OptCell {
            option_code: OptionCode::SigLargeLimit,
            short: None,
            long: "sig-large-limit",
            arg_type: OptArgType::ReqArg,
            default: None,
            desc: "Set the large signature-size limit.",
        },
        OptCell {
            option_code: OptionCode::PredConstMediumLimit,
            short: None,
            long: "pred-const-medium-limit",
            arg_type: OptArgType::ReqArg,
            default: None,
            desc: "Set the medium predicate-constant limit.",
        },
        OptCell {
            option_code: OptionCode::PredConstLargeLimit,
            short: None,
            long: "pred-const-large-limit",
            arg_type: OptArgType::ReqArg,
            default: None,
            desc: "Set the large predicate-constant limit.",
        },
        OptCell {
            option_code: OptionCode::PredMediumLimit,
            short: None,
            long: "pred-medium-limit",
            arg_type: OptArgType::ReqArg,
            default: None,
            desc: "Set the medium non-constant predicate limit.",
        },
        OptCell {
            option_code: OptionCode::PredLargeLimit,
            short: None,
            long: "pred-large-limit",
            arg_type: OptArgType::ReqArg,
            default: None,
            desc: "Set the large non-constant predicate limit.",
        },
        OptCell {
            option_code: OptionCode::FuncConstMediumLimit,
            short: None,
            long: "fun-const-medium-limit",
            arg_type: OptArgType::ReqArg,
            default: None,
            desc: "Set the medium function-constant limit.",
        },
        OptCell {
            option_code: OptionCode::FuncConstLargeLimit,
            short: None,
            long: "fun-const-large-limit",
            arg_type: OptArgType::ReqArg,
            default: None,
            desc: "Set the large function-constant limit.",
        },
        OptCell {
            option_code: OptionCode::FunMediumLimit,
            short: None,
            long: "fun-medium-limit",
            arg_type: OptArgType::ReqArg,
            default: None,
            desc: "Set the medium non-constant function limit.",
        },
        OptCell {
            option_code: OptionCode::FunLargeLimit,
            short: None,
            long: "fun-large-limit",
            arg_type: OptArgType::ReqArg,
            default: None,
            desc: "Set the large non-constant function limit.",
        },
        OptCell {
            option_code: OptionCode::MergedClassification,
            short: None,
            long: "merged-classification",
            arg_type: OptArgType::ReqArg,
            default: None,
            desc: "Perform classification that merges formula and clause properties.",
        },
    ];
    proof {
        assert(v@ =~= option_table());
    }
    v
}

/// The settings of a run.
pub struct Config {
    pub output_file: Option<String>,
    pub parse_features: bool,
    pub raw_classify: bool,
    pub specsig_classify: bool,
    pub tptp_header: bool,
    pub no_preprocessing: bool,
    pub parse_format: IoFormat,
    pub mask: String,
    pub raw_mask: String,
    pub sine: Option<String>,
    pub eqdef_maxclauses: i64,
    pub eqdef_incrlimit: i64,
    pub miniscope_limit: i64,
    pub formula_def_limit: i64,
    pub cnf_timeout: Option<i64>,
    pub free_numbers: bool,
    pub free_objects: bool,
    pub files: Vec<String>,
    pub limits: Limits,
}

/// The view of the settings of a run.
pub struct ConfigView {
    pub output_file: Option<Seq<char>>,
    pub parse_features: bool,
    pub raw_classify: bool,
    pub specsig_classify: bool,
    pub tptp_header: bool,
    pub no_preprocessing: bool,
    pub parse_format: IoFormat,
    pub mask: Seq<char>,
    pub raw_mask: Seq<char>,
    pub sine: Option<Seq<char>>,
    pub eqdef_maxclauses: i64,
    pub eqdef_incrlimit: i64,
    pub miniscope_limit: i64,
    pub formula_def_limit: i64,
    pub cnf_timeout: Option<i64>,
    pub free_numbers: bool,
    pub free_objects: bool,
    pub files: Seq<Seq<char>>,
    pub limits: LimitsView,
}

impl Config {
    pub open spec fn view(&self) -> ConfigView {
        ConfigView {
            output_file: opt_view(self.output_file),
            parse_features: self.parse_features,
            raw_classify: self.raw_classify,
            specsig_classify: self.specsig_classify,
            tptp_header: self.tptp_header,
            no_preprocessing: self.no_preprocessing,
            parse_format: self.parse_format,
            mask: self.mask@,
            raw_mask: self.raw_mask@,
            sine: opt_view(self.sine),
            eqdef_maxclauses: self.eqdef_maxclauses,
            eqdef_incrlimit: self.eqdef_incrlimit,
            miniscope_limit: self.miniscope_limit,
            formula_def_limit: self.formula_def_limit,
            cnf_timeout: self.cnf_timeout,
            free_numbers: self.free_numbers,
            free_objects: self.free_objects,
            files: args_view(self.files@),
            limits: self.limits.view(),
        }
    }
}

/// The settings before any option.
pub open spec fn default_config() -> ConfigView {
    ConfigView {
        output_file: None,
        parse_features: false,
        raw_classify: false,
        specsig_classify: false,
        tptp_header: false,
        no_preprocessing: false,
        parse_format: IoFormat::Auto,
        mask: DEFAULT_CLASSIFY_MASK@,
        raw_mask: DEFAULT_RAW_MASK@,
        sine: None,
        eqdef_maxclauses: DEFAULT_EQDEF_MAXCLAUSES,
        eqdef_incrlimit: DEFAULT_EQDEF_INCRLIMIT,
        miniscope_limit: MINISCOPE_LIMIT_DEFAULT,
        formula_def_limit: FORMULA_DEF_LIMIT_DEFAULT,
        cnf_timeout: None,
        free_numbers: false,
        free_objects: false,
        files: Seq::empty(),
        limits: default_limits(),
    }
}

/// What the options ask for: leave with a status (after help or version
/// text), or go on with the given settings.
pub enum Command {
    Exit(u8),
    Execute(Config),
}

pub enum CommandView {
    Exit(u8),
    Execute(ConfigView),
}

pub open spec fn command_view(r: Result<Command, Diagnostic>) -> Result<CommandView, (ErrorCode, Seq<char>)> {
    match r {
        Ok(Command::Exit(s)) => Ok(CommandView::Exit(s)),
        Ok(Command::Execute(c)) => Ok(CommandView::Execute(c.view())),
        Err(d) => Err((d.code, d.message@)),
    }
}

/// The outcome of one option: go on with the new session and settings, or
/// stop with a result.
pub enum OptStep {
    Go(SessionView, ConfigView),
    Stop(SessionView, Result<CommandView, (ErrorCode, Seq<char>)>),
}

/// The argument of an option, empty where it has none.
pub open spec fn arg_or_empty(a: Option<Seq<char>>) -> Seq<char> {
    match a {
        Some(x) => x,
        None => Seq::empty(),
    }
}


/// What one option does.
#[verifier::opaque]
pub open spec fn apply_option(s: SessionView, c: ConfigView, cell: OptCell<OptionCode>, arg: Seq<char>) -> OptStep {
    match cell.option_code {
        OptionCode::Help => OptStep::Stop(SessionView { stdout: s.stdout + help_text(), ..s }, Ok(CommandView::Exit(0))),
        OptionCode::Version => OptStep::Stop(SessionView { stdout: s.stdout + PROGRAM_NAME@ + " "@ + VERSION@ + "\n"@, ..s }, Ok(CommandView::Exit(0))),
        OptionCode::Verbose => match int_arg_value(arg) {
            Some(v) => OptStep::Go(SessionView { verbose: saturate_i32(v as i64), ..s }, c),
            None => OptStep::Stop(s, Err((ErrorCode::Usage, int_arg_error(cell)))),
        },
        OptionCode::Output => OptStep::Go(s, ConfigView { output_file: Some(arg), ..c }),
        OptionCode::ParseFeatures => OptStep::Go(s, ConfigView { parse_features: true, ..c }),
        OptionCode::LopParse => OptStep::Go(s, ConfigView { parse_format: IoFormat::Lop, ..c }),
        OptionCode::TptpParse => OptStep::Go(s, ConfigView { parse_format: IoFormat::Tptp, ..c }),
        OptionCode::TptpFormat => OptStep::Go(s, ConfigView { parse_format: IoFormat::Tptp, ..c }),
        OptionCode::TptpPrint => OptStep::Go(s, c),
        OptionCode::TstpPrint => OptStep::Go(s, c),
        OptionCode::OldCnf => OptStep::Go(s, c),
        OptionCode::FreeNumbers => OptStep::Go(s, ConfigView { free_numbers: true, ..c }),
        OptionCode::FreeObjects => OptStep::Go(s, ConfigView { free_objects: true, ..c }),
        OptionCode::TstpParse => OptStep::Go(s, ConfigView { parse_format: IoFormat::Tstp, ..c }),
        OptionCode::TstpFormat => OptStep::Go(s, ConfigView { parse_format: IoFormat::Tstp, ..c }),
        OptionCode::RawClass => OptStep::Go(s, ConfigView { raw_classify: true, ..c }),
        OptionCode::SpecSigFeatures => OptStep::Go(s, ConfigView { specsig_classify: true, ..c }),
        OptionCode::GenerateTptpHeader => OptStep::Go(s, ConfigView { tptp_header: true, ..c }),
        OptionCode::NoPreprocessing => OptStep::Go(s, ConfigView { no_preprocessing: true, ..c }),
        OptionCode::EqUnfoldMaxClauses => match int_arg_value(arg) {
            Some(v) => OptStep::Go(s, ConfigView { eqdef_maxclauses: v as i64, ..c }),
            None => OptStep::Stop(s, Err((ErrorCode::Usage, int_arg_error(cell)))),
        },
        OptionCode::EqUnfoldLimit => match int_arg_value(arg) {
            Some(v) => OptStep::Go(s, ConfigView { eqdef_incrlimit: v as i64, ..c }),
            None => OptStep::Stop(s, Err((ErrorCode::Usage, int_arg_error(cell)))),
        },
        OptionCode::NoEqUnfold => OptStep::Go(s, ConfigView { eqdef_incrlimit: i64::MIN, ..c }),
        OptionCode::Sine => OptStep::Go(s, ConfigView { sine: Some(arg), ..c }),
        OptionCode::DefinitionalCnf => match int_arg_value(arg) {
            Some(v) => OptStep::Go(s, ConfigView { formula_def_limit: v as i64, ..c }),
            None => OptStep::Stop(s, Err((ErrorCode::Usage, int_arg_error(cell)))),
        },
        OptionCode::MiniscopeLimit => match int_arg_value(arg) {
            Some(v) => OptStep::Go(s, ConfigView { miniscope_limit: v as i64, ..c }),
            None => OptStep::Stop(s, Err((ErrorCode::Usage, int_arg_error(cell)))),
        },
        OptionCode::ClassMask => if utf8_len(arg) < 13 {
            OptStep::Stop(s, Err((ErrorCode::Usage, CLASS_MASK_ERROR@)))
        } else {
            OptStep::Go(s, ConfigView { mask: arg, ..c })
        },
        OptionCode::RawMask => if utf8_len(arg) < 11 {
            OptStep::Stop(s, Err((ErrorCode::Usage, RAW_MASK_ERROR@)))
        } else {
            OptStep::Go(s, ConfigView { raw_mask: arg, ..c })
        },
        OptionCode::MergedClassification => match int_arg_value(arg) {
            Some(v) => OptStep::Go(s, ConfigView { cnf_timeout: Some(v as i64), ..c }),
            None => OptStep::Stop(s, Err((ErrorCode::Usage, int_arg_error(cell)))),
        },
        _ => match apply_limit(c.limits, cell, arg) {
            Ok(l) => OptStep::Go(s, ConfigView { limits: l, ..c }),
            Err(m) => OptStep::Stop(s, Err((ErrorCode::Usage, m))),
        },
    }
}


/// The options applied in order, then the positional arguments.
pub open spec fn options_fold(
    s: SessionView,
    c: ConfigView,
    opts: Seq<(int, Option<Seq<char>>)>,
    end: Result<Seq<Seq<char>>, Seq<char>>,
) -> (SessionView, Result<CommandView, (ErrorCode, Seq<char>)>)
    decreases opts.len(),
{
    if opts.len() == 0 {
        match end {
            Ok(rest) => (s, Ok(CommandView::Execute(ConfigView { files: input_files(rest), ..c }))),
            Err(m) => (s, Err((ErrorCode::Usage, m))),
        }
    } else {
        match apply_option(s, c, option_table()[opts[0].0], arg_or_empty(opts[0].1)) {
            OptStep::Go(s2, c2) => options_fold(s2, c2, opts.drop_first(), end),
            OptStep::Stop(s2, r) => (s2, r),
        }
    }
}

/// What the command line asks for, and the session after it.
pub open spec fn options_outcome(args: Seq<Seq<char>>, s: SessionView) -> (SessionView, Result<CommandView, (ErrorCode, Seq<char>)>) {
    let sc = crate::cmdline::scan(args, option_table());
    options_fold(s, default_config(), sc.opts, sc.end)
}


/// The help text.
pub open spec fn help_text() -> Seq<char> {
    "\n\n"@ + PROGRAM_NAME@ + " "@ + VERSION@ + "\n\nUsage: "@ + PROGRAM_NAME@ + " [options] [files]\n\nRead sets of clauses and classify them according to predefined criteria.\n\n"@ + "Options:\n\n"@ + options_text(option_table()) + "\nCopyright (C) 1998-2009 by Stephan Schulz, "@ + STS_MAIL@ + "\n\nThis program is a part of the support structure for the E equational\ntheorem prover. You can find the latest version of the E distribution\nas well as additional information at\n"@ + E_URL@ + "\nThis program is free software; you can redistribute it and/or modify\nit under the terms of the GNU General Public License as published by\nthe Free Software Foundation; either version 2 of the License, or\n(at your option) any later version.\n\nThis program is distributed in the hope that it will be useful,\nbut WITHOUT ANY WARRANTY; without even the implied warranty of\nMERCHANTABILITY or FITNESS FOR A PARTICULAR PURPOSE.  See the\nGNU General Public License for more details.\n\nYou should have received a copy of the GNU General Public License\nalong with this program (it should be contained in the top level\ndirectory of the distribution in the file COPYING); if not, write to\nthe Free Software Foundation, Inc., 59 Temple Place, Suite 330,\nBoston, MA  02111-1307 USA\n\nThe original copyright holder can be contacted as\n\nStephan Schulz\nDHBW Stuttgart\nFakultaet Technik\nInformatik\nLerchenstrasse 1\n70174 Stuttgart\nGermany\n"@
}


/// The help text.
pub fn print_help() -> (s: String)
    ensures
        s@ == help_text(),
{
    let mut s = String::new();
    push_str(&mut s, "\n\n");
    push_str(&mut s, PROGRAM_NAME);
    push_str(&mut s, " ");
    push_str(&mut s, VERSION);
    push_str(&mut s, "\n\nUsage: ");
    push_str(&mut s, PROGRAM_NAME);
    push_str(&mut s, " [options] [files]\n\nRead sets of clauses and classify them according to predefined criteria.\n\n");
    let opts = options();
    let o = print_options(&opts, Some("Options:\n\n"));
    push_str(&mut s, o.as_str());
    push_str(&mut s, "\nCopyright (C) 1998-2009 by Stephan Schulz, ");
    push_str(&mut s, STS_MAIL);
    push_str(&mut s, "\n\nThis program is a part of the support structure for the E equational\ntheorem prover. You can find the latest version of the E distribution\nas well as additional information at\n");
    push_str(&mut s, E_URL);
    push_str(&mut s, "\nThis program is free software; you can redistribute it and/or modify\nit under the terms of the GNU General Public License as published by\nthe Free Software Foundation; either version 2 of the License, or\n(at your option) any later version.\n\nThis program is distributed in the hope that it will be useful,\nbut WITHOUT ANY WARRANTY; without even the implied warranty of\nMERCHANTABILITY or FITNESS FOR A PARTICULAR PURPOSE.  See the\nGNU General Public License for more details.\n\nYou should have received a copy of the GNU General Public License\nalong with this program (it should be contained in the top level\ndirectory of the distribution in the file COPYING); if not, write to\nthe Free Software Foundation, Inc., 59 Temple Place, Suite 330,\nBoston, MA  02111-1307 USA\n\nThe original copyright holder can be contacted as\n\nStephan Schulz\nDHBW Stuttgart\nFakultaet Technik\nInformatik\nLerchenstrasse 1\n70174 Stuttgart\nGermany\n");
    s
}


/// Applies one option to the session and the settings; `None` where the
/// run goes on with the next.
#[verifier::rlimit(50)]
fn apply_option_exec(cell: &OptCell<OptionCode>, arg: String, sess: &mut Session, cfg: &mut Config) -> (r: Option<Result<Command, Diagnostic>>)
    ensures
        match apply_option(old(sess).view(), old(cfg).view(), *cell, arg@) {
            OptStep::Go(s2, c2) => r is None && final(sess).view() == s2 && final(cfg).view() == c2,
            OptStep::Stop(s2, res) => (r matches Some(x) && command_view(x) == res) && final(sess).view() == s2,
        },
{
    proof {
        reveal(apply_option);
    }
    match cell.option_code {
        OptionCode::Help => {
            let h = print_help();
            push_str(&mut sess.stdout, h.as_str());
            return Some(Ok(Command::Exit(0)));
        },
        OptionCode::Version => {
            push_str(&mut sess.stdout, PROGRAM_NAME);
            push_str(&mut sess.stdout, " ");
            push_str(&mut sess.stdout, VERSION);
            push_str(&mut sess.stdout, "\n");
            return Some(Ok(Command::Exit(0)));
        },
        OptionCode::Verbose => {
            match get_int_arg(cell, arg.as_str()) {
                Ok(v) => {
                    sess.verbose = saturating_i32(v);
                },
                Err(d) => {
                    return Some(Err(d));
                },
            }
        },
        OptionCode::Output => {
            cfg.output_file = Some(arg);
        },
        OptionCode::ParseFeatures => {
            cfg.parse_features = true;
        },
        OptionCode::LopParse => {
            cfg.parse_format = IoFormat::Lop;
        },
        OptionCode::TptpParse => {
            cfg.parse_format = IoFormat::Tptp;
        },
        OptionCode::TptpFormat => {
            cfg.parse_format = IoFormat::Tptp;
        },
        OptionCode::TptpPrint => {

        },
        OptionCode::TstpPrint => {

        },
        OptionCode::OldCnf => {

        },
        OptionCode::FreeNumbers => {
            cfg.free_numbers = true;
        },
        OptionCode::FreeObjects => {
            cfg.free_objects = true;
        },
        OptionCode::TstpParse => {
            cfg.parse_format = IoFormat::Tstp;
        },
        OptionCode::TstpFormat => {
            cfg.parse_format = IoFormat::Tstp;
        },
        OptionCode::RawClass => {
            cfg.raw_classify = true;
        },
        OptionCode::SpecSigFeatures => {
            cfg.specsig_classify = true;
        },
        OptionCode::GenerateTptpHeader => {
            cfg.tptp_header = true;
        },
        OptionCode::NoPreprocessing => {
            cfg.no_preprocessing = true;
        },
        OptionCode::EqUnfoldMaxClauses => {
            match get_int_arg(cell, arg.as_str()) {
                Ok(v) => {
                    cfg.eqdef_maxclauses = v;
                },
                Err(d) => {
                    return Some(Err(d));
                },
            }
        },
        OptionCode::EqUnfoldLimit => {
            match get_int_arg(cell, arg.as_str()) {
                Ok(v) => {
                    cfg.eqdef_incrlimit = v;
                },
                Err(d) => {
                    return Some(Err(d));
                },
            }
        },
        OptionCode::NoEqUnfold => {
            cfg.eqdef_incrlimit = i64::MIN;
        },
        OptionCode::Sine => {
            cfg.sine = Some(arg);
        },
        OptionCode::DefinitionalCnf => {
            match get_int_arg(cell, arg.as_str()) {
                Ok(v) => {
                    cfg.formula_def_limit = v;
                },
                Err(d) => {
                    return Some(Err(d));
                },
            }
        },
        OptionCode::MiniscopeLimit => {
            match get_int_arg(cell, arg.as_str()) {
                Ok(v) => {
                    cfg.miniscope_limit = v;
                },
                Err(d) => {
                    return Some(Err(d));
                },
            }
        },
        OptionCode::ClassMask => {
            if !utf8_len_at_least(arg.as_str(), 13) {
                return Some(Err(diag(ErrorCode::Usage, CLASS_MASK_ERROR)));
            }
            cfg.mask = arg;
        },
        OptionCode::RawMask => {
            if !utf8_len_at_least(arg.as_str(), 11) {
                return Some(Err(diag(ErrorCode::Usage, RAW_MASK_ERROR)));
            }
            cfg.raw_mask = arg;
        },
        OptionCode::MergedClassification => {
            match get_int_arg(cell, arg.as_str()) {
                Ok(v) => {
                    cfg.cnf_timeout = Some(v);
                },
                Err(d) => {
                    return Some(Err(d));
                },
            }
        },
        _ => {
            match set_limit(&mut cfg.limits, cell, arg.as_str()) {
                Ok(()) => {},
                Err(d) => {
                    return Some(Err(d));
                },
            }
        },
    }
    None
}


/// Reads the command line.
pub fn process_options(args: &Vec<String>, sess: &mut Session) -> (r: Result<Command, Diagnostic>)
    ensures
        (final(sess).view(), command_view(r)) == options_outcome(args_view(args@), old(sess).view()),
{
    let opts = options();
    let mut state = CommandLineState::new(args);
    let mut cfg = Config {
        output_file: None,
        parse_features: false,
        raw_classify: false,
        specsig_classify: false,
        tptp_header: false,
        no_preprocessing: false,
        parse_format: IoFormat::Auto,
        mask: owned(DEFAULT_CLASSIFY_MASK),
        raw_mask: owned(DEFAULT_RAW_MASK),
        sine: None,
        eqdef_maxclauses: DEFAULT_EQDEF_MAXCLAUSES,
        eqdef_incrlimit: DEFAULT_EQDEF_INCRLIMIT,
        miniscope_limit: MINISCOPE_LIMIT_DEFAULT,
        formula_def_limit: FORMULA_DEF_LIMIT_DEFAULT,
        cnf_timeout: None,
        free_numbers: false,
        free_objects: false,
        files: Vec::new(),
        limits: no_limits(),
    };
    let ghost goal = options_outcome(args_view(args@), old(sess).view());
    proof {
        assert(args_view(cfg.files@) =~= Seq::<Seq<char>>::empty());
    }
    loop
        invariant
            state.wf(),
            state.args_seq() == args_view(args@),
            opts@ == option_table(),
            goal == options_outcome(args_view(args@), old(sess).view()),
            ({
                let sc = scan_from(args_view(args@), option_table(), state.state());
                options_fold(sess.view(), cfg.view(), sc.opts, sc.end) == goal
            }),
        decreases args.len() - state.state().argi, scan_measure(args_view(args@), state.state()),
    {
        let ghost st = state.state();
        proof {
            if !st.done {
                let (st2, ev) = step(args_view(args@), option_table(), st);
                if ev is Opt {
                    lemma_step_progress(args_view(args@), option_table(), st);
                }
            }
        }
        match state.next_opt(&opts) {
            Err(d) => {
                return Err(d);
            },
            Ok(None) => {
                let rest = state.remaining_args();
                if rest.len() == 0 {
                    let mut v: Vec<String> = Vec::new();
                    v.push(owned("-"));
                    proof {
                        assert(args_view(v@) =~= seq!["-"@]);
                    }
                    cfg.files = v;
                } else {
                    cfg.files = rest;
                }
                return Ok(Command::Execute(cfg));
            },
            Ok(Some(p)) => {
                proof {
                    crate::cmdline::lemma_step_opt_index(args_view(args@), option_table(), st);
                }
                let cell = &opts[p.index];
                let arg: String = match &p.arg {
                    Some(a) => copy_string(a),
                    None => String::new(),
                };
                proof {
                    assert(arg@ == arg_or_empty(opt_view(p.arg)));
                }
                match apply_option_exec(cell, arg, sess, &mut cfg) {
                    Some(res) => {
                        return res;
                    },
                    None => {},
                }
                proof {
                    let sc = scan_from(args_view(args@), option_table(), st);
                    let tail = scan_from(args_view(args@), option_table(), state.state());
                    assert(sc.opts == seq![(p.index as int, opt_view(p.arg))].add(tail.opts));
                    assert(sc.opts.drop_first() =~= tail.opts);
                }
            },
        }
    }
}


/// What a run reads and how it classifies it.
#[derive(Clone, Copy, Debug, PartialEq, Eq, Structural)]
pub enum ClassifyMode {
    /// Lines of precomputed features, classified anew.
    FeatureLines,
    /// Lines of precomputed raw features, classified anew.
    RawFeatureLines,
    /// Problems, classified by their raw features.
    RawProblems,
    /// Problems, classified after clausification with a time limit.
    MergedProblems,
    /// Problems, classified by their clause features.
    Problems,
}

/// The mode that the settings select: feature lines take precedence, then
/// a clausification limit, then raw classification.
pub open spec fn mode_of(c: ConfigView) -> ClassifyMode {
    if c.parse_features {
        if c.raw_classify {
            ClassifyMode::RawFeatureLines
        } else {
            ClassifyMode::FeatureLines
        }
    } else if c.cnf_timeout is Some {
        ClassifyMode::MergedProblems
    } else if c.raw_classify {
        ClassifyMode::RawProblems
    } else {
        ClassifyMode::Problems
    }
}

/// See `mode_of`.
pub fn classify_mode(cfg: &Config) -> (m: ClassifyMode)
    ensures
        m == mode_of(cfg.view()),
{
    if cfg.parse_features {
        if cfg.raw_classify {
            ClassifyMode::RawFeatureLines
        } else {
            ClassifyMode::FeatureLines
        }
    } else if cfg.cnf_timeout.is_some() {
        ClassifyMode::MergedProblems
    } else if cfg.raw_classify {
        ClassifyMode::RawProblems
    } else {
        ClassifyMode::Problems
    }
}

/// A run up to reading its inputs: the options; where the run goes on, its
/// settings and its output target.
pub fn run(args: &Vec<String>) -> (r: (RunReport, Option<Config>))
    ensures
        ({
            let (s, cmd) = options_outcome(args_view(args@), SessionView { verbose: 0, output_level: 1, stdout: Seq::empty(), stderr: Seq::empty() });
            &&& r.0.stdout@ == s.stdout
            &&& r.0.verbose == s.verbose
            &&& match cmd {
                Err((code, m)) => (r.0.result matches Err(d) && d.code == code && d.message@ == m) && r.1 is None,
                Ok(CommandView::Exit(st)) => (r.0.result matches Ok(x) && x == st) && r.1 is None,
                Ok(CommandView::Execute(cv)) => (r.0.result matches Ok(x) && x == 0) && (r.1 matches Some(c) && c.view() == cv)
                    && opt_view(r.0.output_file) == output_target_view(cv.output_file),
            }
        }),
{
    let mut sess = Session::new(0, 1);
    let cmd = process_options(args, &mut sess);
    let (result, cfg, target) = match cmd {
        Err(d) => (Err(d), None, None),
        Ok(Command::Exit(st)) => (Ok(st), None, None),
        Ok(Command::Execute(c)) => {
            let t = output_target(&c.output_file);
            (Ok(0), Some(c), t)
        },
    };
    (RunReport { result, stdout: sess.stdout, output: String::new(), output_file: target, stderr: sess.stderr, verbose: sess.verbose, output_level: sess.output_level, close_output: true }, cfg)
}



/// A command line whose one option is a class mask: a mask shorter than
/// thirteen letters is refused with the mask message; any other mask is
/// taken as it stands, with every other setting at its default and standard
/// input as the one input.
pub proof fn lemma_class_mask_option(args: Seq<Seq<char>>, m: Seq<char>, s: SessionView)
    requires
        args.len() == 2,
        args[1] == "--class-mask="@ + m,
    ensures
        utf8_len(m) < 13 ==> options_outcome(args, s) == (s, Err::<CommandView, (ErrorCode, Seq<char>)>((ErrorCode::Usage, CLASS_MASK_ERROR@))),
        utf8_len(m) >= 13 ==> options_outcome(args, s) == (s, Ok::<CommandView, (ErrorCode, Seq<char>)>(CommandView::Execute(ConfigView { mask: m, files: seq!["-"@], ..default_config() }))),
{
    let t = option_table();
    let name = "class-mask"@;
    reveal_strlit("help");
    reveal_strlit("version");
    reveal_strlit("verbose");
    reveal_strlit("output-file");
    reveal_strlit("parse-features");
    reveal_strlit("lop-in");
    reveal_strlit("tptp-in");
    reveal_strlit("tptp-out");
    reveal_strlit("tptp-format");
    reveal_strlit("tstp-in");
    reveal_strlit("tstp-out");
    reveal_strlit("tstp-format");
    reveal_strlit("tptp3-in");
    reveal_strlit("tptp3-out");
    reveal_strlit("tptp3-format");
    reveal_strlit("raw-class");
    reveal_strlit("specsig");
    reveal_strlit("generate-tptp-header");
    reveal_strlit("no-preprocessing");
    reveal_strlit("eq-unfold-limit");
    reveal_strlit("eq-unfold-maxclauses");
    reveal_strlit("no-eq-unfolding");
    reveal_strlit("sine");
    reveal_strlit("free-numbers");
    reveal_strlit("free-objects");
    reveal_strlit("definitional-cnf");
    reveal_strlit("old-cnf");
    reveal_strlit("miniscope-limit");
    reveal_strlit("class-mask");
    reveal_strlit("--class-mask=");
    assert(args[1] =~= seq!['-', '-'] + name + seq!['='] + m);
    crate::cmdline::lemma_index_of(name, '=', 0);
    assert forall|j: int| 0 <= j < 28 implies (#[trigger] t[j]).long@ != name by {
        assert(t[j].long@.len() != name.len());
    }
    crate::cmdline::lemma_find_long_at(t, name, 28, 0);
    crate::cmdline::lemma_single_long_option(args, t, name, m, 28);
    reveal(apply_option);
    assert(seq![(28int, Some(m))].drop_first() =~= Seq::<(int, Option<Seq<char>>)>::empty());
    if utf8_len(m) >= 13 {
        let c1 = ConfigView { mask: m, ..default_config() };
        assert(apply_option(s, default_config(), t[28], m) == OptStep::Go(s, c1));
        assert(options_fold(s, c1, Seq::empty(), Ok(Seq::<Seq<char>>::empty()))
            == (s, Ok::<CommandView, (ErrorCode, Seq<char>)>(CommandView::Execute(ConfigView { files: input_files(Seq::empty()), ..c1 }))));
        assert(input_files(Seq::empty()) == seq!["-"@]);
    }
}

} // verus!
