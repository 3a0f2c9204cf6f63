//! Character and string helpers shared by the tools: building strings,
//! decimal rendering of integers and C-style decimal parsing.
use vstd::prelude::*;

verus! {

/// Appends one character to a string by a call of std's `String::push`;
/// the contract claims, as its documentation says, that the string's
/// characters are then the old ones followed by `c`.
#[verifier::external_body]
pub(crate) fn push_char(s: &mut String, c: char)
    ensures
        final(s)@ == old(s)@.push(c),
{
    s.push(c);
}

/// Appends a string slice to a string.
pub fn push_str(s: &mut String, t: &str)
    ensures
        final(s)@ == old(s)@ + t@,
{
    s.append(t);
}

/// The characters of a string slice, in order.
pub fn chars_of(s: &str) -> (out: Vec<char>)
    ensures
        out@ == s@,
{
    let mut out: Vec<char> = Vec::new();
    for c in it: s.chars()
        invariant
            out@ == it.seq().take(it.index() as int),
            it.seq() == s@,
    {
        out.push(c);
    }
    out
}

/// A string made of the characters `cs[from..to]`.
pub fn string_of_range(cs: &Vec<char>, from: usize, to: usize) -> (s: String)
    requires
        from <= to <= cs.len(),
    ensures
        s@ == cs@.subrange(from as int, to as int),
{
    let mut s = String::new();
    let mut i: usize = from;
    while i < to
        invariant
            from <= i <= to <= cs.len(),
            s@ == cs@.subrange(from as int, i as int),
        decreases to - i,
    {
        push_char(&mut s, cs[i]);
        proof {
            assert(cs@.subrange(from as int, i as int + 1) == cs@.subrange(from as int, i as int).push(
                cs@[i as int],
            ));
        }
        i = i + 1;
    }
    s
}

/// A copy of a string.
pub fn copy_string(s: &String) -> (out: String)
    ensures
        out@ == s@,
{
    s.clone()
}

/// A string holding a copy of a string slice.
pub fn owned(s: &str) -> (out: String)
    ensures
        out@ == s@,
{
    String::from_str(s)
}

/// Whether two strings hold the same characters.
pub fn same_text(a: &str, b: &str) -> (r: bool)
    ensures
        r == (a@ == b@),
{
    let x = chars_of(a);
    let y = chars_of(b);
    if x.len() != y.len() {
        return false;
    }
    let mut i: usize = 0;
    while i < x.len()
        invariant
            x@ == a@,
            y@ == b@,
            x.len() == y.len(),
            i <= x.len(),
            forall|j: int| 0 <= j < i ==> x@[j] == y@[j],
        decreases x.len() - i,
    {
        if x[i] != y[i] {
            return false;
        }
        i = i + 1;
    }
    proof {
        assert(x@ =~= y@);
    }
    true
}

/// The decimal digit character for `d < 10`.
pub open spec fn digit_char(d: int) -> char {
    if d == 0 {
        '0'
    } else if d == 1 {
        '1'
    } else if d == 2 {
        '2'
    } else if d == 3 {
        '3'
    } else if d == 4 {
        '4'
    } else if d == 5 {
        '5'
    } else if d == 6 {
        '6'
    } else if d == 7 {
        '7'
    } else if d == 8 {
        '8'
    } else {
        '9'
    }
}

/// Whether a character is a decimal digit.
pub open spec fn is_digit(c: char) -> bool {
    '0' <= c && c <= '9'
}

/// The value of a digit character.
pub open spec fn digit_value(c: char) -> int {
    (c as int) - ('0' as int)
}

/// The decimal representation of a natural number, without leading zeros.
pub open spec fn decimal(n: nat) -> Seq<char>
    decreases n,
{
    if n < 10 {
        seq![digit_char(n as int)]
    } else {
        decimal(n / 10).push(digit_char((n % 10) as int))
    }
}

/// The decimal representation of an integer, with a leading '-' when negative.
pub open spec fn signed_decimal(n: int) -> Seq<char> {
    if n < 0 {
        seq!['-'] + decimal((-n) as nat)
    } else {
        decimal(n as nat)
    }
}

/// `s` padded on the left with blanks to at least `width` characters.
pub open spec fn pad_left(s: Seq<char>, width: nat) -> Seq<char> {
    if s.len() >= width {
        s
    } else {
        Seq::new((width - s.len()) as nat, |i: int| ' ') + s
    }
}

fn digit_of(d: u64) -> (c: char)
    requires
        d < 10,
    ensures
        c == digit_char(d as int),
{
    if d == 0 {
        '0'
    } else if d == 1 {
        '1'
    } else if d == 2 {
        '2'
    } else if d == 3 {
        '3'
    } else if d == 4 {
        '4'
    } else if d == 5 {
        '5'
    } else if d == 6 {
        '6'
    } else if d == 7 {
        '7'
    } else if d == 8 {
        '8'
    } else {
        '9'
    }
}

/// Appends the decimal representation of `n`.
pub fn push_u64(s: &mut String, n: u64)
    ensures
        final(s)@ == old(s)@ + decimal(n as nat),
    decreases n,
{
    if n < 10 {
        push_char(s, digit_of(n));
        assert(decimal(n as nat) == seq![digit_char(n as int)]);
    } else {
        push_u64(s, n / 10);
        push_char(s, digit_of(n % 10));
    }
}

/// Appends the decimal representation of `n`, with '-' when negative.
pub fn push_i64(s: &mut String, n: i64)
    ensures
        final(s)@ == old(s)@ + signed_decimal(n as int),
{
    if n < 0 {
        push_char(s, '-');
        let m: u64 = if n == i64::MIN {
            9223372036854775808u64
        } else {
            (-n) as u64
        };
        push_u64(s, m);
    } else {
        push_u64(s, n as u64);
    }
}

/// The decimal representation of `n`, with '-' when negative.
pub fn fmt_i64(n: i64) -> (s: String)
    ensures
        s@ == signed_decimal(n as int),
{
    let mut s = String::new();
    push_i64(&mut s, n);
    s
}

/// Appends `t`, padded on the left with blanks to `width` characters.
pub fn push_padded(s: &mut String, t: &str, width: usize)
    ensures
        final(s)@ == old(s)@ + pad_left(t@, width as nat),
{
    let n = t.unicode_len();
    let ghost start = s@;
    if n < width {
        let mut i: usize = n;
        while i < width
            invariant
                n <= i <= width,
                n == t@.len(),
                s@ == start + Seq::new((i - n) as nat, |k: int| ' '),
            decreases width - i,
        {
            push_char(s, ' ');
            proof {
                assert(Seq::new((i + 1 - n) as nat, |k: int| ' ') == Seq::new(
                    (i - n) as nat,
                    |k: int| ' ',
                ).push(' '));
            }
            i = i + 1;
        }
    }
    s.append(t);
    proof {
        if n < width {
            assert(s@ == start + (Seq::new((width - t@.len()) as nat, |k: int| ' ') + t@));
        }
    }
}

/// Whether `c` is a blank in the sense of C's `isspace`.
pub open spec fn is_c_space(c: char) -> bool {
    c == ' ' || c == '\t' || c == '\n' || c == '\x0b' || c == '\x0c' || c == '\r'
}

/// `s` without its leading blanks.
pub open spec fn skip_blanks(s: Seq<char>) -> Seq<char>
    decreases s.len(),
{
    if s.len() > 0 && is_c_space(s[0]) {
        skip_blanks(s.drop_first())
    } else {
        s
    }
}

/// Whether all characters of `s` are decimal digits.
pub open spec fn all_digits(s: Seq<char>) -> bool {
    forall|i: int| 0 <= i < s.len() ==> is_digit(#[trigger] s[i])
}

/// The value of a sequence of decimal digits.
pub open spec fn digits_value(s: Seq<char>) -> nat
    decreases s.len(),
{
    if s.len() == 0 {
        0
    } else {
        (digits_value(s.drop_last()) * 10 + digit_value(s.last())) as nat
    }
}

/// What C's `strtol` reads from the whole of `s`, base 10: the empty string
/// reads as 0; otherwise leading blanks, an optional sign and at least one
/// digit, with nothing after the digits. `None` where `s` has another form.
pub open spec fn c_long_value(s: Seq<char>) -> Option<int> {
    if s.len() == 0 {
        Some(0)
    } else {
        let t = skip_blanks(s);
        let neg = t.len() > 0 && t[0] == '-';
        let u = if t.len() > 0 && (t[0] == '-' || t[0] == '+') {
            t.drop_first()
        } else {
            t
        };
        if u.len() > 0 && all_digits(u) {
            Some(if neg {
                -(digits_value(u) as int)
            } else {
                digits_value(u) as int
            })
        } else {
            None
        }
    }
}

proof fn lemma_digits_step(u: Seq<char>, i: int)
    requires
        0 <= i < u.len(),
        is_digit(u[i]),
    ensures
        digits_value(u.take(i + 1)) == digits_value(u.take(i)) * 10 + digit_value(u[i]),
{
    assert(u.take(i + 1).drop_last() == u.take(i));
    assert(u.take(i + 1).last() == u[i]);
}

proof fn lemma_digits_grow(u: Seq<char>, i: int, j: int)
    requires
        0 <= i <= j <= u.len(),
        all_digits(u),
    ensures
        digits_value(u.take(i)) <= digits_value(u.take(j)),
    decreases j - i,
{
    if i < j {
        lemma_digits_grow(u, i, j - 1);
        lemma_digits_step(u, j - 1);
        assert(is_digit(u[j - 1]));
    }
}

proof fn lemma_digit_char(d: int)
    requires
        0 <= d < 10,
    ensures
        is_digit(digit_char(d)),
        digit_value(digit_char(d)) == d,
{
}

proof fn lemma_decimal_digits(n: nat)
    ensures
        decimal(n).len() > 0,
        all_digits(decimal(n)),
        digits_value(decimal(n)) == n,
    decreases n,
{
    if n < 10 {
        lemma_digit_char(n as int);
        assert(decimal(n).drop_last() =~= Seq::<char>::empty());
        assert(digits_value(decimal(n)) == digits_value(Seq::<char>::empty()) * 10 + digit_value(decimal(n).last()));
    } else {
        lemma_decimal_digits(n / 10);
        lemma_digit_char((n % 10) as int);
        let d = decimal(n);
        assert(d.drop_last() =~= decimal(n / 10));
        assert(d.last() == digit_char((n % 10) as int));
        assert((n / 10) * 10 + n % 10 == n) by (nonlinear_arith);
        assert(digits_value(d) == digits_value(decimal(n / 10)) * 10 + digit_value(d.last()));
        assert forall|i: int| 0 <= i < d.len() implies is_digit(#[trigger] d[i]) by {
            if i < d.len() - 1 {
                assert(d[i] == decimal(n / 10)[i]);
            }
        }
    }
}

/// An integer printed in decimal (as `push_i64` and `fmt_i64` print it)
/// reads back, as C's `strtol` reads it, as the same integer.
pub proof fn lemma_decimal_reads_back(n: int)
    ensures
        c_long_value(signed_decimal(n)) == Some(n),
{
    if n < 0 {
        let m = (-n) as nat;
        lemma_decimal_digits(m);
        let s = signed_decimal(n);
        assert(s.len() > 0 && !is_c_space(s[0]));
        assert(skip_blanks(s) == s);
        assert(s.drop_first() =~= decimal(m));
    } else {
        let m = n as nat;
        lemma_decimal_digits(m);
        let s = signed_decimal(n);
        assert(is_digit(s[0]));
        assert(skip_blanks(s) == s);
    }
}

/// Reads a whole string as a C `long` in base 10 (see `c_long_value`);
/// `None` where the text has another form or the value lies outside `i64`.
pub fn parse_c_long(s: &str) -> (r: Option<i64>)
    ensures
        r matches Some(v) ==> c_long_value(s@) == Some(v as int),
        r is None ==> (c_long_value(s@) is None || (c_long_value(s@) matches Some(v) && (v
            < i64::MIN || v > i64::MAX))),
{
    let cs = chars_of(s);
    let n = cs.len();
    if n == 0 {
        return Some(0);
    }
    let mut i: usize = 0;
    proof {
        assert(s@.skip(0) == s@);
    }
    while i < n && (cs[i] == ' ' || cs[i] == '\t' || cs[i] == '\n' || cs[i] == '\x0b' || cs[i]
        == '\x0c' || cs[i] == '\r')
        invariant
            cs@ == s@,
            n == cs.len(),
            i <= n,
            skip_blanks(s@) == skip_blanks(s@.skip(i as int)),
        decreases n - i,
    {
        proof {
            assert(s@.skip(i as int).drop_first() == s@.skip(i as int + 1));
        }
        i = i + 1;
    }
    let ghost t = s@.skip(i as int);
    proof {
        if t.len() > 0 {
            assert(t[0] == cs@[i as int]);
        }
        assert(skip_blanks(t) == t);
        assert(skip_blanks(s@) == t);
    }
    let mut neg = false;
    if i < n && (cs[i] == '-' || cs[i] == '+') {
        neg = cs[i] == '-';
        i = i + 1;
    }
    let ghost u = s@.skip(i as int);
    proof {
        if t.len() > 0 && (t[0] == '-' || t[0] == '+') {
            assert(u == t.drop_first());
        } else {
            assert(u == t);
        }
    }
    if i == n {
        return None;
    }
    let start = i;
    let limit: u64 = if neg {
        9223372036854775808u64
    } else {
        9223372036854775807u64
    };
    let mut mag: u64 = 0;
    while i < n
        invariant
            cs@ == s@,
            n == cs.len(),
            start <= i <= n,
            u == s@.skip(start as int),
            mag <= limit,
            limit >= 9223372036854775807,
            limit == (if neg { 9223372036854775808u64 } else { 9223372036854775807u64 }),
            skip_blanks(s@) == t,
            t.len() > 0 && (t[0] == '-' || t[0] == '+') ==> u == t.drop_first(),
            !(t.len() > 0 && (t[0] == '-' || t[0] == '+')) ==> u == t,
            neg == (t.len() > 0 && t[0] == '-'),
            s@.len() > 0,
            mag == digits_value(u.take(i - start)),
            all_digits(u.take(i - start)),
        decreases n - i,
    {
        let c = cs[i];
        if !('0' <= c && c <= '9') {
            proof {
                assert(u[i - start] == c);
                assert(!is_digit(u[i - start]));
                assert(!all_digits(u));
            }
            return None;
        }
        let d: u64 = (c as u64) - ('0' as u64);
        assert(d <= 9);
        proof {
            assert(u[i - start] == c);
            lemma_digits_step(u, (i - start) as int);
            assert(u[i - start] == c);
            assert(u.take(i - start + 1) =~= u.take(i - start).push(c));
        }
        if mag > (limit - d) / 10 {
            proof {
                assert forall|k: int| 0 <= k < u.len() implies is_digit(#[trigger] u[k]) || !all_digits(u) by {}
                if all_digits(u) {
                    lemma_digits_grow(u, i - start + 1, u.len() as int);
                    assert(u.take(u.len() as int) == u);
                    assert(digits_value(u) > limit) by (nonlinear_arith)
                        requires
                            digits_value(u) >= mag * 10 + d,
                            mag > (limit - d) / 10,
                            d < 10,
                            limit >= 9223372036854775807,
                    ;
                }
            }
            return None;
        }
        assert(mag * 10 + d <= limit) by (nonlinear_arith)
            requires
                mag <= (limit - d) / 10,
                d <= 9,
                limit >= 9,
        ;
        mag = mag * 10 + d;
        i = i + 1;
    }
    proof {
        assert(u.take(i - start) == u);
    }
    if neg {
        if mag == 9223372036854775808u64 {
            Some(i64::MIN)
        } else {
            Some(-(mag as i64))
        }
    } else {
        Some(mag as i64)
    }
}

/// What Rust's `str::parse` reads as an integer: an optional sign ('+',
/// and '-' where negative values are allowed) and at least one digit,
/// nothing else.
pub open spec fn rust_int_value(s: Seq<char>, signed: bool) -> Option<int> {
    let neg = signed && s.len() > 0 && s[0] == '-';
    let u = if s.len() > 0 && (s[0] == '+' || neg) {
        s.drop_first()
    } else {
        s
    };
    if u.len() > 0 && all_digits(u) {
        Some(if neg {
            -(digits_value(u) as int)
        } else {
            digits_value(u) as int
        })
    } else {
        None
    }
}

/// The message of Rust's `ParseIntError` for a text that does not read as an
/// integer within `lo..=hi`.
pub open spec fn rust_int_error(s: Seq<char>, signed: bool, lo: int, hi: int) -> Seq<char> {
    if s.len() == 0 {
        "cannot parse integer from empty string"@
    } else {
        match rust_int_value(s, signed) {
            None => "invalid digit found in string"@,
            Some(v) => if v > hi {
                "number too large to fit in target type"@
            } else {
                "number too small to fit in target type"@
            },
        }
    }
}

/// Reads a text as an integer within `lo..=hi` the way `str::parse` does.
pub fn parse_rust_int(s: &str, signed: bool, lo: i64, hi: i64) -> (r: Result<i64, &'static str>)
    requires
        lo <= 0 <= hi,
    ensures
        match rust_int_value(s@, signed) {
            Some(v) => if lo <= v <= hi {
                r == Ok::<i64, &'static str>(v as i64)
            } else {
                r matches Err(m) && m@ == rust_int_error(s@, signed, lo as int, hi as int)
            },
            None => r matches Err(m) && m@ == rust_int_error(s@, signed, lo as int, hi as int),
        },
{
    let cs = chars_of(s);
    if cs.len() == 0 {
        return Err("cannot parse integer from empty string");
    }
    let neg = signed && cs[0] == '-';
    let start: usize = if cs[0] == '+' || neg {
        1
    } else {
        0
    };
    let ghost u = if s@.len() > 0 && (s@[0] == '+' || neg) {
        s@.drop_first()
    } else {
        s@
    };
    proof {
        assert(u == s@.skip(start as int));
    }
    if start == cs.len() {
        return Err("invalid digit found in string");
    }
    let mut mag: u64 = 0;
    let mut big = false;
    let mut i: usize = start;
    let limit: u64 = if neg {
        if lo < 0 {
            (-(lo + 1)) as u64 + 1
        } else {
            0
        }
    } else {
        hi as u64
    };
    while i < cs.len()
        invariant
            cs@ == s@,
            start <= i <= cs.len(),
            u == s@.skip(start as int),
            all_digits(u.take(i - start)),
            !big ==> mag == digits_value(u.take(i - start)) && mag <= limit,
            big ==> digits_value(u.take(i - start)) > limit,
            neg ==> limit == -(lo as int),
            !neg ==> limit == hi as int,
            !neg ==> hi >= 0,
            lo <= 0,
            limit <= 9223372036854775808u64,
            s@.len() > 0,
            neg == (signed && s@.len() > 0 && s@[0] == '-'),
            u == (if s@.len() > 0 && (s@[0] == '+' || neg) {
                s@.drop_first()
            } else {
                s@
            }),
        decreases cs.len() - i,
    {
        let c = cs[i];
        if !('0' <= c && c <= '9') {
            proof {
                assert(u[i - start] == c);
                assert(!is_digit(u[i - start]));
                assert(!all_digits(u));
            }
            return Err("invalid digit found in string");
        }
        let d: u64 = (c as u64) - ('0' as u64);
        assert(d <= 9);
        proof {
            assert(u[i - start] == c);
            lemma_digits_step(u, (i - start) as int);
            assert(u.take(i - start + 1) =~= u.take(i - start).push(c));
        }
        if !big {
            if limit < d || mag > (limit - d) / 10 {
                big = true;
                assert(digits_value(u.take(i - start + 1)) > limit) by (nonlinear_arith)
                    requires
                        digits_value(u.take(i - start + 1)) == mag * 10 + d,
                        limit < d || mag > (limit - d) / 10,
                        d < 10,
                ;
            } else {
                assert(mag * 10 + d <= limit) by (nonlinear_arith)
                    requires
                        mag <= (limit - d) / 10,
                        d <= 9,
                        limit >= d,
                ;
                mag = mag * 10 + d;
            }
        } else {
            assert(digits_value(u.take(i - start + 1)) > limit) by (nonlinear_arith)
                requires
                    digits_value(u.take(i - start + 1)) == digits_value(u.take(i - start)) * 10 + d,
                    digits_value(u.take(i - start)) > limit,
            ;
        }
        i = i + 1;
    }
    proof {
        assert(u.take(i - start) == u);
    }
    if big {
        if neg {
            return Err("number too small to fit in target type");
        } else {
            return Err("number too large to fit in target type");
        }
    }
    if neg {
        if mag == 9223372036854775808u64 {
            Ok(i64::MIN)
        } else {
            Ok(-(mag as i64))
        }
    } else {
        Ok(mag as i64)
    }
}


/// Reads a text as a `usize` the way `str::parse::<usize>` does.
pub fn parse_rust_usize(s: &str) -> (r: Result<usize, &'static str>)
    ensures
        match rust_int_value(s@, false) {
            Some(v) => if v <= usize::MAX {
                r == Ok::<usize, &'static str>(v as usize)
            } else {
                r matches Err(m) && m@ == rust_int_error(s@, false, 0, usize::MAX as int)
            },
            None => r matches Err(m) && m@ == rust_int_error(s@, false, 0, usize::MAX as int),
        },
{
    let cs = chars_of(s);
    if cs.len() == 0 {
        return Err("cannot parse integer from empty string");
    }
    let start: usize = if cs[0] == '+' {
        1
    } else {
        0
    };
    let ghost u = if s@.len() > 0 && s@[0] == '+' {
        s@.drop_first()
    } else {
        s@
    };
    proof {
        assert(u == s@.skip(start as int));
    }
    if start == cs.len() {
        return Err("invalid digit found in string");
    }
    let mut mag: usize = 0;
    let mut big = false;
    let mut i: usize = start;
    let limit: usize = usize::MAX;
    while i < cs.len()
        invariant
            cs@ == s@,
            start <= i <= cs.len(),
            u == s@.skip(start as int),
            all_digits(u.take(i - start)),
            !big ==> mag == digits_value(u.take(i - start)) && mag <= limit,
            big ==> digits_value(u.take(i - start)) > limit,
            limit == usize::MAX,
            s@.len() > 0,
            u == (if s@.len() > 0 && s@[0] == '+' {
                s@.drop_first()
            } else {
                s@
            }),
        decreases cs.len() - i,
    {
        let c = cs[i];
        if !('0' <= c && c <= '9') {
            proof {
                assert(u[i - start] == c);
                assert(!is_digit(u[i - start]));
                assert(!all_digits(u));
            }
            return Err("invalid digit found in string");
        }
        let d: usize = ((c as u32) - ('0' as u32)) as usize;
        assert(d <= 9);
        proof {
            assert(u[i - start] == c);
            lemma_digits_step(u, (i - start) as int);
            assert(u.take(i - start + 1) =~= u.take(i - start).push(c));
        }
        if !big {
            if limit < d || mag > (limit - d) / 10 {
                big = true;
                assert(digits_value(u.take(i - start + 1)) > limit) by (nonlinear_arith)
                    requires
                        digits_value(u.take(i - start + 1)) == mag * 10 + d,
                        limit < d || mag > (limit - d) / 10,
                        d < 10,
                ;
            } else {
                assert(mag * 10 + d <= limit) by (nonlinear_arith)
                    requires
                        mag <= (limit - d) / 10,
                        d <= 9,
                        limit >= d,
                ;
                mag = mag * 10 + d;
            }
        } else {
            assert(digits_value(u.take(i - start + 1)) > limit) by (nonlinear_arith)
                requires
                    digits_value(u.take(i - start + 1)) == digits_value(u.take(i - start)) * 10 + d,
                    digits_value(u.take(i - start)) > limit,
            ;
        }
        i = i + 1;
    }
    proof {
        assert(u.take(i - start) == u);
    }
    if big {
        return Err("number too large to fit in target type");
    }
    Ok(mag)
}

/// The number of bytes that UTF-8 takes for `c`.
pub open spec fn utf8_width(c: char) -> nat {
    if (c as u32) < 0x80 {
        1
    } else if (c as u32) < 0x800 {
        2
    } else if (c as u32) < 0x10000 {
        3
    } else {
        4
    }
}

/// The number of bytes that UTF-8 takes for `s`.
pub open spec fn utf8_len(s: Seq<char>) -> nat
    decreases s.len(),
{
    if s.len() == 0 {
        0
    } else {
        utf8_len(s.drop_last()) + utf8_width(s.last())
    }
}

/// Whether `s` takes at least `n` bytes in UTF-8.
pub fn utf8_len_at_least(s: &str, n: usize) -> (r: bool)
    ensures
        r == (utf8_len(s@) >= n),
{
    let cs = chars_of(s);
    let mut count: usize = 0;
    let mut i: usize = 0;
    while i < cs.len()
        invariant
            cs@ == s@,
            i <= cs.len(),
            count <= n,
            count == if utf8_len(s@.subrange(0, i as int)) < n { utf8_len(s@.subrange(0, i as int)) } else { n as nat },
        decreases cs.len() - i,
    {
        let c = cs[i];
        let w: usize = if (c as u32) < 0x80 {
            1
        } else if (c as u32) < 0x800 {
            2
        } else if (c as u32) < 0x10000 {
            3
        } else {
            4
        };
        proof {
            assert(s@.subrange(0, i + 1).drop_last() =~= s@.subrange(0, i as int));
            assert(s@.subrange(0, i + 1).last() == c);
        }
        if n - count <= w {
            count = n;
        } else {
            count = count + w;
        }
        i = i + 1;
    }
    proof {
        assert(s@.subrange(0, cs.len() as int) =~= s@);
    }
    count >= n
}

} // verus!
