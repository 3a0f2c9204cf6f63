//! Integer option arguments and the rendering of option tables in help
//! texts: each option's short and long form, then its description wrapped
//! into indented lines of at most 77 columns.
use vstd::prelude::*;
use crate::cmdline::{OptCell, OptArgType, default_text, index_of, lemma_index_of};
use crate::diag::{Diagnostic, ErrorCode};
use crate::text::{is_digit, c_long_value, parse_c_long, chars_of, push_char, push_str, same_text, signed_decimal, lemma_decimal_reads_back};

verus! {

/// The value of an integer argument, where it is a C `long` in range.
pub open spec fn int_arg_value(arg: Seq<char>) -> Option<int> {
    match c_long_value(arg) {
        Some(v) => if i64::MIN <= v <= i64::MAX {
            Some(v)
        } else {
            None
        },
        None => None,
    }
}

/// The message for an option whose argument is not an integer.
pub open spec fn int_arg_error<C>(c: OptCell<C>) -> Seq<char> {
    match c.short {
        Some(ch) => "Option -"@.push(ch) + " (--"@ + c.long@ + ") requires an integer as an argument"@,
        None => "Option --"@ + c.long@ + " requires an integer as an argument"@,
    }
}

/// Every 64-bit integer, printed in decimal, is an integer option argument
/// with that value: `get_int_arg` reads back what `push_i64` prints.
pub proof fn lemma_printed_int_arg(n: i64)
    ensures
        int_arg_value(signed_decimal(n as int)) == Some(n as int),
{
    lemma_decimal_reads_back(n as int);
}

/// A truth-value argument: "true" or "false".
pub open spec fn bool_arg_value(arg: Seq<char>) -> Option<bool> {
    if arg == "true"@ {
        Some(true)
    } else if arg == "false"@ {
        Some(false)
    } else {
        None
    }
}

/// The message for a truth-value argument that is neither "true" nor "false".
pub open spec fn bool_arg_error<C>(c: OptCell<C>) -> Seq<char> {
    match c.short {
        Some(ch) => "Option -"@.push(ch) + " (--"@ + c.long@ + ") requires true or false as an argument"@,
        None => "Option --"@ + c.long@ + " requires true or false as an argument"@,
    }
}

/// The truth-value argument of an option, or a usage error.
pub fn get_bool_arg<C>(c: &OptCell<C>, arg: &str) -> (r: Result<bool, Diagnostic>)
    ensures
        match bool_arg_value(arg@) {
            Some(v) => r matches Ok(x) && x == v,
            None => r matches Err(d) && d.code == ErrorCode::Usage && d.message@ == bool_arg_error(*c),
        },
{
    if same_text(arg, "true") {
        return Ok(true);
    }
    if same_text(arg, "false") {
        return Ok(false);
    }
    let mut m = String::new();
    match c.short {
        Some(ch) => {
            push_str(&mut m, "Option -");
            push_char(&mut m, ch);
            push_str(&mut m, " (--");
            push_str(&mut m, c.long);
            push_str(&mut m, ") requires true or false as an argument");
        },
        None => {
            push_str(&mut m, "Option --");
            push_str(&mut m, c.long);
            push_str(&mut m, " requires true or false as an argument");
        },
    }
    Err(Diagnostic::new(ErrorCode::Usage, m))
}

/// The integer argument of an option, or a usage error.
pub fn get_int_arg<C>(c: &OptCell<C>, arg: &str) -> (r: Result<i64, Diagnostic>)
    ensures
        match int_arg_value(arg@) {
            Some(v) => r matches Ok(x) && x == v,
            None => r matches Err(d) && d.code == ErrorCode::Usage && d.message@ == int_arg_error(*c),
        },
{
    match parse_c_long(arg) {
        Some(v) => Ok(v),
        None => {
            let mut m = String::new();
            match c.short {
                Some(ch) => {
                    push_str(&mut m, "Option -");
                    push_char(&mut m, ch);
                    push_str(&mut m, " (--");
                    push_str(&mut m, c.long);
                    push_str(&mut m, ") requires an integer as an argument");
                },
                None => {
                    push_str(&mut m, "Option --");
                    push_str(&mut m, c.long);
                    push_str(&mut m, " requires an integer as an argument");
                },
            }
            Err(Diagnostic::new(ErrorCode::Usage, m))
        },
    }
}

/// The widest description line: 73 characters after the indentation.
pub open spec fn line_limit() -> int {
    73
}

/// The last index `j' <= j` with a blank at `s[j']`, or -1.
pub open spec fn last_space_upto(s: Seq<char>, j: int) -> int
    decreases j + 1,
{
    if j < 0 {
        -1
    } else if j < s.len() && s[j] == ' ' {
        j
    } else {
        last_space_upto(s, j - 1)
    }
}

pub open spec fn indent() -> Seq<char> {
    seq![' ', ' ', ' ', ' ']
}

/// `last_space_upto` finds a blank at or before `j`, or reports -1.
pub proof fn lemma_last_space(s: Seq<char>, j: int)
    ensures
        last_space_upto(s, j) == -1 || (0 <= last_space_upto(s, j) <= j && last_space_upto(s, j)
            < s.len() && s[last_space_upto(s, j)] == ' '),
    decreases j + 1,
{
    if j >= 0 && !(j < s.len() && s[j] == ' ') {
        lemma_last_space(s, j - 1);
    }
}

/// A description broken into lines indented by four blanks: a line ends at
/// a newline of the text, or else at the last blank that keeps it within
/// the limit; a word longer than the limit runs on to the next blank.
pub open spec fn wrap_text(s: Seq<char>) -> Seq<char>
    decreases s.len(),
{
    if s.len() == 0 {
        Seq::empty()
    } else {
        let nl = index_of(s, '\n', 0);
        proof {
            lemma_index_of(s, '\n', 0);
            lemma_index_of(s, ' ', line_limit());
            lemma_last_space(s, line_limit());
        }
        if s.len() <= line_limit() && nl < 0 {
            indent() + s + seq!['\n']
        } else if 0 <= nl <= line_limit() {
            indent() + s.take(nl) + seq!['\n'] + wrap_text(s.skip(nl + 1))
        } else {
            let cut = last_space_upto(s, line_limit());
            if cut > 0 {
                indent() + s.take(cut) + seq!['\n'] + wrap_text(s.skip(cut + 1))
            } else {
                let far = index_of(s, ' ', line_limit());
                if far < 0 {
                    indent() + s + seq!['\n']
                } else {
                    indent() + s.take(far) + seq!['\n'] + wrap_text(s.skip(far + 1))
                }
            }
        }
    }
}

/// The description of an option as shown: for an optional argument, a
/// sentence on what the option means without it.
pub open spec fn full_desc<C>(c: OptCell<C>) -> Seq<char> {
    match c.arg_type {
        OptArgType::OptArg => match c.short {
            Some(ch) => c.desc@
                + " The short form or the long form without the optional argument is equivalent to --"@
                + c.long@ + "="@ + default_text(c) + "."@,
            None => c.desc@ + " The option without the optional argument is equivalent to --"@
                + c.long@ + "="@ + default_text(c) + "."@,
        },
        _ => c.desc@,
    }
}

/// The line of the short form, if any.
pub open spec fn short_line<C>(c: OptCell<C>) -> Seq<char> {
    match c.short {
        Some(ch) => "   -"@.push(ch) + (if c.arg_type == OptArgType::ReqArg {
            " <arg>"@
        } else {
            Seq::empty()
        }) + "\n"@,
        None => Seq::empty(),
    }
}

/// The line of the long form.
pub open spec fn long_line<C>(c: OptCell<C>) -> Seq<char> {
    "  --"@ + c.long@ + (match c.arg_type {
        OptArgType::OptArg => "[=<arg>]"@,
        OptArgType::ReqArg => "=<arg>"@,
        OptArgType::NoArg => Seq::empty(),
    }) + "\n"@
}

/// The help entry of one option, followed by an empty line.
pub open spec fn cell_text<C>(c: OptCell<C>) -> Seq<char> {
    short_line(c) + long_line(c) + wrap_text(full_desc(c)) + "\n"@
}

/// The help entries of a table of options, in order.
pub open spec fn options_text<C>(opts: Seq<OptCell<C>>) -> Seq<char>
    decreases opts.len(),
{
    if opts.len() == 0 {
        Seq::empty()
    } else {
        options_text(opts.drop_last()) + cell_text(opts.last())
    }
}

fn index_of_exec(v: &Vec<char>, c: char, from: usize) -> (r: Option<usize>)
    ensures
        r matches Some(j) ==> j == index_of(v@, c, from as int),
        r is None ==> index_of(v@, c, from as int) == -1,
{
    let mut j = from;
    while j < v.len()
        invariant
            from <= j,
            index_of(v@, c, from as int) == index_of(v@, c, j as int),
        decreases v.len() - j,
    {
        if v[j] == c {
            return Some(j);
        }
        j = j + 1;
    }
    None
}

fn last_space_exec(v: &Vec<char>, j: usize) -> (r: Option<usize>)
    requires
        j < 1000,
    ensures
        r matches Some(k) ==> k == last_space_upto(v@, j as int),
        r is None ==> last_space_upto(v@, j as int) == -1,
{
    let mut k: usize = j + 1;
    while k > 0
        invariant
            k <= j + 1,
            last_space_upto(v@, j as int) == last_space_upto(v@, k - 1),
        decreases k,
    {
        if k - 1 < v.len() && v[k - 1] == ' ' {
            return Some(k - 1);
        }
        k = k - 1;
    }
    None
}

fn copy_from(v: &Vec<char>, from: usize) -> (out: Vec<char>)
    requires
        from <= v.len(),
    ensures
        out@ == v@.skip(from as int),
{
    let mut out: Vec<char> = Vec::new();
    let mut j = from;
    while j < v.len()
        invariant
            from <= j <= v.len(),
            out@ == v@.subrange(from as int, j as int),
        decreases v.len() - j,
    {
        out.push(v[j]);
        proof {
            assert(v@.subrange(from as int, j + 1) == v@.subrange(from as int, j as int).push(v@[j as int]));
        }
        j = j + 1;
    }
    out
}

fn push_prefix(out: &mut String, v: &Vec<char>, to: usize)
    requires
        to <= v.len(),
    ensures
        final(out)@ == old(out)@ + v@.take(to as int),
{
    let mut j: usize = 0;
    while j < to
        invariant
            j <= to <= v.len(),
            out@ == old(out)@ + v@.take(j as int),
        decreases to - j,
    {
        push_char(out, v[j]);
        proof {
            assert(v@.take(j + 1) == v@.take(j as int).push(v@[j as int]));
        }
        j = j + 1;
    }
}

/// Appends a description wrapped into indented lines.
pub fn push_wrapped(out: &mut String, desc: &Vec<char>)
    ensures
        final(out)@ == old(out)@ + wrap_text(desc@),
{
    let mut rest = copy_from(desc, 0);
    proof {
        assert(desc@.skip(0) == desc@);
    }
    while rest.len() > 0
        invariant
            out@ + wrap_text(rest@) == old(out)@ + wrap_text(desc@),
        decreases rest.len(),
    {
        let n = rest.len();
        let nl = index_of_exec(&rest, '\n', 0);
        if n <= 73 && nl.is_none() {
            push_str(out, "    ");
            push_prefix(out, &rest, n);
            push_char(out, '\n');
            proof {
                assert(rest@.take(n as int) == rest@);
                assert("    "@ == indent()) by {
                    reveal_strlit("    ");
                }
                assert(out@ == old(out)@ + wrap_text(desc@));
            }
            return;
        }
        let ghost before = out@;
        let ghost r = rest@;
        proof {
            lemma_index_of(r, '\n', 0);
            lemma_index_of(r, ' ', 73);
            lemma_last_space(r, 73);
            assert("    "@ == indent()) by {
                reveal_strlit("    ");
            }
        }
        let cut: usize = if nl.is_some() && nl.unwrap() <= 73 {
            nl.unwrap()
        } else {
            match last_space_exec(&rest, 73) {
                Some(k) if k > 0 => k,
                _ => match index_of_exec(&rest, ' ', 73) {
                    Some(far) => far,
                    None => {
                        push_str(out, "    ");
                        push_prefix(out, &rest, n);
                        push_char(out, '\n');
                        proof {
                            assert(rest@.take(n as int) == rest@);
                        }
                        return;
                    },
                },
            }
        };
        push_str(out, "    ");
        push_prefix(out, &rest, cut);
        push_char(out, '\n');
        rest = copy_from(&rest, cut + 1);
        proof {
            assert(out@ == before + (indent() + r.take(cut as int) + seq!['\n']));
        }
    }
    proof {
        assert(rest@.len() == 0);
    }
}

/// Appends the help entry of one option.
pub fn push_cell<C>(out: &mut String, c: &OptCell<C>)
    ensures
        final(out)@ == old(out)@ + cell_text(*c),
{
    let ghost start = out@;
    match c.short {
        Some(ch) => {
            push_str(out, "   -");
            push_char(out, ch);
            if c.arg_type == OptArgType::ReqArg {
                push_str(out, " <arg>");
            }
            push_str(out, "\n");
        },
        None => {},
    }
    proof {
        assert(out@ == start + short_line(*c));
    }
    let ghost mid = out@;
    push_str(out, "  --");
    push_str(out, c.long);
    match c.arg_type {
        OptArgType::OptArg => push_str(out, "[=<arg>]"),
        OptArgType::ReqArg => push_str(out, "=<arg>"),
        OptArgType::NoArg => {},
    }
    push_str(out, "\n");
    proof {
        assert(out@ == mid + long_line(*c));
    }
    let mut d = String::new();
    push_str(&mut d, c.desc);
    if c.arg_type == OptArgType::OptArg {
        match c.short {
            Some(_) => push_str(
                &mut d,
                " The short form or the long form without the optional argument is equivalent to --",
            ),
            None => push_str(&mut d, " The option without the optional argument is equivalent to --"),
        }
        push_str(&mut d, c.long);
        push_str(&mut d, "=");
        match c.default {
            Some(v) => push_str(&mut d, v),
            None => {},
        }
        push_str(&mut d, ".");
    }
    proof {
        assert(d@ == full_desc(*c));
    }
    let dv = chars_of(d.as_str());
    push_wrapped(out, &dv);
    push_str(out, "\n");
}

/// The help entries of an option table, after an optional header.
pub fn print_options<C>(opts: &Vec<OptCell<C>>, header: Option<&str>) -> (s: String)
    ensures
        s@ == (match header {
            Some(h) => h@,
            None => Seq::empty(),
        }) + options_text(opts@),
{
    let mut s = String::new();
    match header {
        Some(h) => push_str(&mut s, h),
        None => {},
    }
    let ghost start = s@;
    let mut i: usize = 0;
    while i < opts.len()
        invariant
            i <= opts.len(),
            s@ == start + options_text(opts@.take(i as int)),
        decreases opts.len() - i,
    {
        push_cell(&mut s, &opts[i]);
        proof {
            assert(opts@.take(i + 1).drop_last() == opts@.take(i as int));
        }
        i = i + 1;
    }
    proof {
        assert(opts@.take(opts.len() as int) == opts@);
    }
    s
}


/// The end of the run of digits that starts at `i`.
pub open spec fn digits_end(s: Seq<char>, i: int) -> int
    decreases s.len() - i,
{
    if i < 0 || i >= s.len() || !is_digit(s[i]) {
        i
    } else {
        digits_end(s, i + 1)
    }
}

/// From `i` on, `s` is empty or an exponent: `e` or `E`, an optional sign,
/// and at least one digit.
pub open spec fn exponent_ok(s: Seq<char>, i: int) -> bool {
    i == s.len() || (0 <= i < s.len() && (s[i] == 'e' || s[i] == 'E') && {
        let j = if i + 1 < s.len() && (s[i + 1] == '+' || s[i + 1] == '-') { i + 2 } else { i + 1 };
        j < s.len() && digits_end(s, j) == s.len()
    })
}

/// `s` is an unsigned decimal number: digits with an optional point and
/// fraction, at least one digit in all, then an optional exponent.
pub open spec fn decimal_ok(s: Seq<char>) -> bool {
    let i1 = digits_end(s, 0);
    if i1 < s.len() && s[i1] == '.' {
        let i2 = digits_end(s, i1 + 1);
        (i1 > 0 || i2 > i1 + 1) && exponent_ok(s, i2)
    } else {
        i1 > 0 && exponent_ok(s, i1)
    }
}

/// The upper-case form of the letters of the special words.
pub open spec fn upper_of(c: char) -> char {
    if c == 'a' { 'A' } else if c == 'f' { 'F' } else if c == 'i' { 'I' } else if c == 'n' { 'N' } else if c == 't' { 'T' } else if c == 'y' { 'Y' } else { c }
}

/// `s` is the lower-case word `w` in any mix of cases.
pub open spec fn word_ci(s: Seq<char>, w: Seq<char>) -> bool {
    s.len() == w.len() && forall|i: int| 0 <= i < s.len() ==> (#[trigger] s[i] == w[i] || s[i] == upper_of(w[i]))
}

/// The text after an optional leading sign.
pub open spec fn unsigned_part(s: Seq<char>) -> Seq<char> {
    if s.len() > 0 && (s[0] == '+' || s[0] == '-') {
        s.subrange(1, s.len() as int)
    } else {
        s
    }
}

/// A real-number argument: an optional sign, then a decimal number, or
/// `inf`, `infinity` or `nan` in any case.
pub open spec fn real_text(s: Seq<char>) -> bool {
    let b = unsigned_part(s);
    decimal_ok(b) || word_ci(b, "inf"@) || word_ci(b, "infinity"@) || word_ci(b, "nan"@)
}

/// The message for an option whose argument is not a real number.
pub open spec fn real_arg_error<C>(c: OptCell<C>) -> Seq<char> {
    match c.short {
        Some(ch) => "Option -"@.push(ch) + " (--"@ + c.long@ + ") requires a real number as an argument"@,
        None => "Option --"@ + c.long@ + " requires a real number as an argument"@,
    }
}

fn digits_end_exec(s: &Vec<char>, i: usize) -> (r: usize)
    requires
        i <= s.len(),
    ensures
        r as int == digits_end(s@, i as int),
        i <= r <= s.len(),
{
    let mut j = i;
    while j < s.len() && s[j] >= '0' && s[j] <= '9'
        invariant
            i <= j <= s.len(),
            digits_end(s@, i as int) == digits_end(s@, j as int),
        decreases s.len() - j,
    {
        j = j + 1;
    }
    j
}

fn exponent_ok_exec(s: &Vec<char>, i: usize) -> (b: bool)
    requires
        i <= s.len(),
    ensures
        b == exponent_ok(s@, i as int),
{
    if i == s.len() {
        return true;
    }
    if s[i] != 'e' && s[i] != 'E' {
        return false;
    }
    let j = if i + 1 < s.len() && (s[i + 1] == '+' || s[i + 1] == '-') { i + 2 } else { i + 1 };
    j < s.len() && digits_end_exec(s, j) == s.len()
}

fn decimal_ok_exec(s: &Vec<char>) -> (b: bool)
    ensures
        b == decimal_ok(s@),
{
    let i1 = digits_end_exec(s, 0);
    if i1 < s.len() && s[i1] == '.' {
        let i2 = digits_end_exec(s, i1 + 1);
        (i1 > 0 || i2 > i1 + 1) && exponent_ok_exec(s, i2)
    } else {
        i1 > 0 && exponent_ok_exec(s, i1)
    }
}

fn upper_of_exec(c: char) -> (u: char)
    ensures
        u == upper_of(c),
{
    if c == 'a' { 'A' } else if c == 'f' { 'F' } else if c == 'i' { 'I' } else if c == 'n' { 'N' } else if c == 't' { 'T' } else if c == 'y' { 'Y' } else { c }
}

fn word_ci_exec(s: &Vec<char>, w: &str) -> (b: bool)
    ensures
        b == word_ci(s@, w@),
{
    let wc = chars_of(w);
    if s.len() != wc.len() {
        return false;
    }
    let mut i: usize = 0;
    while i < s.len()
        invariant
            i <= s.len() == wc.len(),
            wc@ == w@,
            forall|k: int| 0 <= k < i ==> (#[trigger] s@[k] == w@[k] || s@[k] == upper_of(w@[k])),
        decreases s.len() - i,
    {
        if s[i] != wc[i] && s[i] != upper_of_exec(wc[i]) {
            return false;
        }
        i = i + 1;
    }
    true
}

/// Whether an argument is a real number (see `real_text`).
pub fn is_real_text(arg: &str) -> (b: bool)
    ensures
        b == real_text(arg@),
{
    let s = chars_of(arg);
    let k: usize = if s.len() > 0 && (s[0] == '+' || s[0] == '-') { 1 } else { 0 };
    let mut b: Vec<char> = Vec::new();
    let mut i = k;
    while i < s.len()
        invariant
            k <= i <= s.len(),
            b@ == s@.subrange(k as int, i as int),
        decreases s.len() - i,
    {
        b.push(s[i]);
        proof {
            assert(b@ =~= s@.subrange(k as int, i + 1));
        }
        i = i + 1;
    }
    proof {
        assert(b@ =~= unsigned_part(arg@));
    }
    decimal_ok_exec(&b) || word_ci_exec(&b, "inf") || word_ci_exec(&b, "infinity") || word_ci_exec(&b, "nan")
}

/// The real-number argument of an option as it stands, or a usage error.
pub fn get_real_arg<C>(c: &OptCell<C>, arg: &str) -> (r: Result<(), Diagnostic>)
    ensures
        real_text(arg@) ==> r is Ok,
        !real_text(arg@) ==> (r matches Err(d) && d.code == ErrorCode::Usage && d.message@ == real_arg_error(*c)),
{
    if is_real_text(arg) {
        return Ok(());
    }
    let mut m = String::new();
    match c.short {
        Some(ch) => {
            push_str(&mut m, "Option -");
            push_char(&mut m, ch);
            push_str(&mut m, " (--");
            push_str(&mut m, c.long);
            push_str(&mut m, ") requires a real number as an argument");
        },
        None => {
            push_str(&mut m, "Option --");
            push_str(&mut m, c.long);
            push_str(&mut m, " requires a real number as an argument");
        },
    }
    proof {
        assert(m@ =~= real_arg_error(*c));
    }
    Err(Diagnostic { code: ErrorCode::Usage, message: m })
}

} // verus!
