//! The tokenizer shared by the clause readers: layout (blanks and
//! comments) is skipped, and the text is cut into identifiers, numbers,
//! strings and punctuation, the longest token first.
use vstd::prelude::*;
use crate::diag::{Diagnostic, ErrorCode};
use crate::text::{push_str, push_u64, string_of_range, decimal};

verus! {

/// The kinds of tokens, in the order in which descriptions of expected
/// tokens list them.
#[derive(Clone, Copy, Debug, PartialEq, Eq, Structural)]
pub enum TokenKind {
    NoToken,
    Ident,
    Idnum,
    SemIdent,
    DqString,
    SqString,
    PosInt,
    OpenBracket,
    CloseBracket,
    OpenCurly,
    CloseCurly,
    OpenSquare,
    CloseSquare,
    LesserSign,
    GreaterSign,
    EqualSign,
    NegEqualSign,
    TildeSign,
    Exclamation,
    QuestionMark,
    Comma,
    Semicolon,
    Colon,
    Hyphen,
    Plus,
    Mult,
    Fullstop,
    Dollar,
    Slash,
    Pipe,
    Ampersand,
    LRImpl,
    RLImpl,
    Equiv,
    Xor,
    Nand,
    Nor,
}

/// How a token kind is named in messages.
pub open spec fn token_desc(k: TokenKind) -> &'static str {
    match k {
        TokenKind::NoToken => "No token",
        TokenKind::Ident => "Identifier not terminating in a number",
        TokenKind::Idnum => "Identifier terminating in a number",
        TokenKind::SemIdent => "Interpreted function/predicate name ('$name')",
        TokenKind::DqString => "String enclosed in double quotes (\"\")",
        TokenKind::SqString => "String enclosed in single quote ('')",
        TokenKind::PosInt => "Integer (sequence of decimal digits) convertible to an 'unsigned long'",
        TokenKind::OpenBracket => "Opening bracket ('(')",
        TokenKind::CloseBracket => "Closing bracket (')')",
        TokenKind::OpenCurly => "Opening curly brace ('{')",
        TokenKind::CloseCurly => "Closing curly brace ('}')",
        TokenKind::OpenSquare => "Opening square brace ('[')",
        TokenKind::CloseSquare => "Closing square brace (']')",
        TokenKind::LesserSign => "\"Lesser than\" sign ('<')",
        TokenKind::GreaterSign => "\"Greater than\" sign ('>')",
        TokenKind::EqualSign => "Equal Predicate ('=')",
        TokenKind::NegEqualSign => "Negated Equal Predicate ('!=')",
        TokenKind::TildeSign => "Negation sign ('~')",
        TokenKind::Exclamation => "Exclamation mark ('!')",
        TokenKind::QuestionMark => "Question mark ('?')",
        TokenKind::Comma => "Comma (',')",
        TokenKind::Semicolon => "Semicolon (';')",
        TokenKind::Colon => "Colon (':')",
        TokenKind::Hyphen => "Hyphen ('-')",
        TokenKind::Plus => "Plus sign ('+')",
        TokenKind::Mult => "Multiplication sign ('*')",
        TokenKind::Fullstop => "Fullstop ('.')",
        TokenKind::Dollar => "Dollar sign ('$')",
        TokenKind::Slash => "Slash ('/')",
        TokenKind::Pipe => "Vertical bar ('|')",
        TokenKind::Ampersand => "Ampersand ('&')",
        TokenKind::LRImpl => "Implication ('=>')",
        TokenKind::RLImpl => "Back implicatin ('<=')",
        TokenKind::Equiv => "Equivalence ('<=>')",
        TokenKind::Xor => "Negated Equivalence ('<~>')",
        TokenKind::Nand => "Nand ('~&')",
        TokenKind::Nor => "Nor ('~|')",
    }
}

/// How a token kind is named in messages.
pub fn describe(k: TokenKind) -> (s: &'static str)
    ensures
        s == token_desc(k),
{
    match k {
        TokenKind::NoToken => "No token",
        TokenKind::Ident => "Identifier not terminating in a number",
        TokenKind::Idnum => "Identifier terminating in a number",
        TokenKind::SemIdent => "Interpreted function/predicate name ('$name')",
        TokenKind::DqString => "String enclosed in double quotes (\"\")",
        TokenKind::SqString => "String enclosed in single quote ('')",
        TokenKind::PosInt => "Integer (sequence of decimal digits) convertible to an 'unsigned long'",
        TokenKind::OpenBracket => "Opening bracket ('(')",
        TokenKind::CloseBracket => "Closing bracket (')')",
        TokenKind::OpenCurly => "Opening curly brace ('{')",
        TokenKind::CloseCurly => "Closing curly brace ('}')",
        TokenKind::OpenSquare => "Opening square brace ('[')",
        TokenKind::CloseSquare => "Closing square brace (']')",
        TokenKind::LesserSign => "\"Lesser than\" sign ('<')",
        TokenKind::GreaterSign => "\"Greater than\" sign ('>')",
        TokenKind::EqualSign => "Equal Predicate ('=')",
        TokenKind::NegEqualSign => "Negated Equal Predicate ('!=')",
        TokenKind::TildeSign => "Negation sign ('~')",
        TokenKind::Exclamation => "Exclamation mark ('!')",
        TokenKind::QuestionMark => "Question mark ('?')",
        TokenKind::Comma => "Comma (',')",
        TokenKind::Semicolon => "Semicolon (';')",
        TokenKind::Colon => "Colon (':')",
        TokenKind::Hyphen => "Hyphen ('-')",
        TokenKind::Plus => "Plus sign ('+')",
        TokenKind::Mult => "Multiplication sign ('*')",
        TokenKind::Fullstop => "Fullstop ('.')",
        TokenKind::Dollar => "Dollar sign ('$')",
        TokenKind::Slash => "Slash ('/')",
        TokenKind::Pipe => "Vertical bar ('|')",
        TokenKind::Ampersand => "Ampersand ('&')",
        TokenKind::LRImpl => "Implication ('=>')",
        TokenKind::RLImpl => "Back implicatin ('<=')",
        TokenKind::Equiv => "Equivalence ('<=>')",
        TokenKind::Xor => "Negated Equivalence ('<~>')",
        TokenKind::Nand => "Nand ('~&')",
        TokenKind::Nor => "Nor ('~|')",
    }
}

pub open spec fn is_alpha(c: char) -> bool {
    ('a' <= c && c <= 'z') || ('A' <= c && c <= 'Z')
}

pub open spec fn is_digit(c: char) -> bool {
    '0' <= c && c <= '9'
}

/// Characters that may start an identifier.
pub open spec fn is_id_start(c: char) -> bool {
    is_alpha(c) || c == '_'
}

/// Characters that may continue an identifier.
pub open spec fn is_id_char(c: char) -> bool {
    is_alpha(c) || is_digit(c) || c == '_'
}

pub open spec fn is_space(c: char) -> bool {
    c == ' ' || c == '\t' || c == '\n' || c == '\x0b' || c == '\x0c' || c == '\r'
}

/// The end of a run of characters with `is_id_char` from `p` on.
pub open spec fn id_end(s: Seq<char>, p: int) -> int
    decreases s.len() - p,
{
    if 0 <= p < s.len() && is_id_char(s[p]) {
        id_end(s, p + 1)
    } else {
        p
    }
}

/// The end of a run of digits from `p` on.
pub open spec fn digits_end(s: Seq<char>, p: int) -> int
    decreases s.len() - p,
{
    if 0 <= p < s.len() && is_digit(s[p]) {
        digits_end(s, p + 1)
    } else {
        p
    }
}

/// The end of a line comment: the position of the next newline, or the end.
pub open spec fn line_end(s: Seq<char>, p: int) -> int
    decreases s.len() - p,
{
    if 0 <= p < s.len() && s[p] != '\n' {
        line_end(s, p + 1)
    } else {
        p
    }
}

/// The end of a block comment whose body starts at `p`: after the next
/// "*/", or the end of the text.
pub open spec fn block_end(s: Seq<char>, p: int) -> int
    decreases s.len() - p,
{
    if p < 0 || p >= s.len() {
        s.len() as int
    } else if s[p] == '*' && p + 1 < s.len() && s[p + 1] == '/' {
        p + 2
    } else {
        block_end(s, p + 1)
    }
}

/// The end of a quoted string whose body starts at `p` and which closes
/// with `q` (a backslash escapes the next character), or -1 where it does
/// not close.
pub open spec fn quote_end(s: Seq<char>, p: int, q: char) -> int
    decreases s.len() - p,
{
    if p < 0 || p >= s.len() {
        -1
    } else if s[p] == q {
        p + 1
    } else if s[p] == '\\' {
        if p + 2 <= s.len() {
            quote_end(s, p + 2, q)
        } else {
            -1
        }
    } else {
        quote_end(s, p + 1, q)
    }
}

/// The position of the next token at or after `p`: blanks, comments
/// introduced by '#' or '%' up to the end of the line, and "/* ... */"
/// comments are skipped.
pub open spec fn skip_layout(s: Seq<char>, p: int) -> int
    decreases s.len() - p, 0int,
{
    if p < 0 || p >= s.len() {
        p
    } else if is_space(s[p]) {
        skip_layout(s, p + 1)
    } else if s[p] == '#' || s[p] == '%' {
        if p < line_end(s, p) <= s.len() {
            skip_layout(s, line_end(s, p))
        } else {
            p
        }
    } else if s[p] == '/' && p + 1 < s.len() && s[p + 1] == '*' {
        if p < block_end(s, p + 2) <= s.len() {
            skip_layout(s, block_end(s, p + 2))
        } else {
            p
        }
    } else {
        p
    }
}

/// The character at `p`, or a NUL past the end.
pub open spec fn char_at(s: Seq<char>, p: int) -> char {
    if 0 <= p < s.len() {
        s[p]
    } else {
        '\0'
    }
}

/// The kind and end of the token that starts at `p` (not layout, not the
/// end of the text); `None` for a character that starts no token or a
/// string that does not close.
pub open spec fn token_at(s: Seq<char>, p: int) -> Option<(TokenKind, int)> {
    let c = char_at(s, p);
    let c1 = char_at(s, p + 1);
    let c2 = char_at(s, p + 2);
    if is_id_start(c) {
        let e = id_end(s, p + 1);
        Some((if is_digit(s[e - 1]) { TokenKind::Idnum } else { TokenKind::Ident }, e))
    } else if is_digit(c) {
        Some((TokenKind::PosInt, digits_end(s, p + 1)))
    } else if c == '$' {
        if is_id_char(c1) {
            Some((TokenKind::SemIdent, id_end(s, p + 1)))
        } else {
            Some((TokenKind::Dollar, p + 1))
        }
    } else if c == '"' || c == '\'' {
        let e = quote_end(s, p + 1, c);
        if e < 0 {
            None
        } else {
            Some((if c == '"' { TokenKind::DqString } else { TokenKind::SqString }, e))
        }
    } else if c == '!' {
        if c1 == '=' { Some((TokenKind::NegEqualSign, p + 2)) } else { Some((TokenKind::Exclamation, p + 1)) }
    } else if c == '=' {
        if c1 == '>' { Some((TokenKind::LRImpl, p + 2)) } else { Some((TokenKind::EqualSign, p + 1)) }
    } else if c == '<' {
        if c1 == '=' {
            if c2 == '>' { Some((TokenKind::Equiv, p + 3)) } else { Some((TokenKind::RLImpl, p + 2)) }
        } else if c1 == '~' && c2 == '>' {
            Some((TokenKind::Xor, p + 3))
        } else {
            Some((TokenKind::LesserSign, p + 1))
        }
    } else if c == '~' {
        if c1 == '|' {
            Some((TokenKind::Nor, p + 2))
        } else if c1 == '&' {
            Some((TokenKind::Nand, p + 2))
        } else {
            Some((TokenKind::TildeSign, p + 1))
        }
    } else if c == '(' {
        Some((TokenKind::OpenBracket, p + 1))
    } else if c == ')' {
        Some((TokenKind::CloseBracket, p + 1))
    } else if c == '{' {
        Some((TokenKind::OpenCurly, p + 1))
    } else if c == '}' {
        Some((TokenKind::CloseCurly, p + 1))
    } else if c == '[' {
        Some((TokenKind::OpenSquare, p + 1))
    } else if c == ']' {
        Some((TokenKind::CloseSquare, p + 1))
    } else if c == '>' {
        Some((TokenKind::GreaterSign, p + 1))
    } else if c == '?' {
        Some((TokenKind::QuestionMark, p + 1))
    } else if c == ',' {
        Some((TokenKind::Comma, p + 1))
    } else if c == ';' {
        Some((TokenKind::Semicolon, p + 1))
    } else if c == ':' {
        Some((TokenKind::Colon, p + 1))
    } else if c == '-' {
        Some((TokenKind::Hyphen, p + 1))
    } else if c == '+' {
        Some((TokenKind::Plus, p + 1))
    } else if c == '*' {
        Some((TokenKind::Mult, p + 1))
    } else if c == '.' {
        Some((TokenKind::Fullstop, p + 1))
    } else if c == '/' {
        Some((TokenKind::Slash, p + 1))
    } else if c == '|' {
        Some((TokenKind::Pipe, p + 1))
    } else if c == '&' {
        Some((TokenKind::Ampersand, p + 1))
    } else {
        None
    }
}

/// A token: its kind and where it stands in the text.
#[derive(Clone, Copy, Debug, PartialEq, Eq, Structural)]
pub struct Token {
    pub kind: TokenKind,
    pub start: usize,
    pub end: usize,
}

/// The tokens of `s` from `p` on, ending with a `NoToken` at the end of the
/// text, or the position of the first character that starts no token.
pub open spec fn lex_from(s: Seq<char>, p: int) -> Result<Seq<Token>, int>
    decreases s.len() - p,
{
    let q = skip_layout(s, p);
    if q < p || q >= s.len() {
        Ok(seq![Token { kind: TokenKind::NoToken, start: s.len() as usize, end: s.len() as usize }])
    } else {
        match token_at(s, q) {
            None => Err(q),
            Some((k, e)) => if e <= q || e > s.len() {
                Err(q)
            } else {
                match lex_from(s, e) {
                    Ok(rest) => Ok(seq![Token { kind: k, start: q as usize, end: e as usize }] + rest),
                    Err(x) => Err(x),
                }
            },
        }
    }
}

fn is_alpha_exec(c: char) -> (r: bool)
    ensures
        r == is_alpha(c),
{
    ('a' <= c && c <= 'z') || ('A' <= c && c <= 'Z')
}

fn is_digit_exec(c: char) -> (r: bool)
    ensures
        r == is_digit(c),
{
    '0' <= c && c <= '9'
}

fn is_id_char_exec(c: char) -> (r: bool)
    ensures
        r == is_id_char(c),
{
    is_alpha_exec(c) || is_digit_exec(c) || c == '_'
}

fn char_at_exec(s: &Vec<char>, p: usize) -> (c: char)
    ensures
        c == char_at(s@, p as int),
{
    if p < s.len() {
        s[p]
    } else {
        '\0'
    }
}

fn id_end_exec(s: &Vec<char>, p: usize) -> (e: usize)
    requires
        p <= s.len(),
    ensures
        e == id_end(s@, p as int),
        p <= e <= s.len(),
{
    let mut e = p;
    while e < s.len() && is_id_char_exec(s[e])
        invariant
            p <= e <= s.len(),
            id_end(s@, p as int) == id_end(s@, e as int),
        decreases s.len() - e,
    {
        e = e + 1;
    }
    e
}

fn digits_end_exec(s: &Vec<char>, p: usize) -> (e: usize)
    requires
        p <= s.len(),
    ensures
        e == digits_end(s@, p as int),
        p <= e <= s.len(),
{
    let mut e = p;
    while e < s.len() && is_digit_exec(s[e])
        invariant
            p <= e <= s.len(),
            digits_end(s@, p as int) == digits_end(s@, e as int),
        decreases s.len() - e,
    {
        e = e + 1;
    }
    e
}

fn line_end_exec(s: &Vec<char>, p: usize) -> (e: usize)
    requires
        p <= s.len(),
    ensures
        e == line_end(s@, p as int),
        p <= e <= s.len(),
{
    let mut e = p;
    while e < s.len() && s[e] != '\n'
        invariant
            p <= e <= s.len(),
            line_end(s@, p as int) == line_end(s@, e as int),
        decreases s.len() - e,
    {
        e = e + 1;
    }
    e
}

fn block_end_exec(s: &Vec<char>, p: usize) -> (e: usize)
    requires
        p <= s.len(),
    ensures
        e == block_end(s@, p as int),
        e <= s.len(),
{
    let mut e = p;
    while e < s.len()
        invariant
            p <= e <= s.len(),
            block_end(s@, p as int) == block_end(s@, e as int),
        decreases s.len() - e,
    {
        if s[e] == '*' && e + 1 < s.len() && s[e + 1] == '/' {
            return e + 2;
        }
        e = e + 1;
    }
    s.len()
}

fn quote_end_exec(s: &Vec<char>, p: usize, q: char) -> (r: Option<usize>)
    requires
        p <= s.len(),
        s.len() <= isize::MAX,
    ensures
        r matches Some(e) ==> e == quote_end(s@, p as int, q) && e <= s.len(),
        r is None ==> quote_end(s@, p as int, q) == -1,
{
    let mut e = p;
    while e < s.len()
        invariant
            e <= s.len(),
            s.len() <= isize::MAX,
            quote_end(s@, p as int, q) == quote_end(s@, e as int, q),
        decreases s.len() - e,
    {
        if s[e] == q {
            return Some(e + 1);
        } else if s[e] == '\\' {
            if e + 2 <= s.len() {
                e = e + 2;
            } else {
                return None;
            }
        } else {
            e = e + 1;
        }
    }
    None
}

fn skip_layout_exec(s: &Vec<char>, p: usize) -> (q: usize)
    requires
        p <= s.len(),
    ensures
        q == skip_layout(s@, p as int),
        p <= q <= s.len(),
{
    let mut q = p;
    loop
        invariant
            p <= q <= s.len(),
            skip_layout(s@, p as int) == skip_layout(s@, q as int),
        decreases s.len() - q,
    {
        if q >= s.len() {
            return q;
        }
        let c = s[q];
        if c == ' ' || c == '\t' || c == '\n' || c == '\x0b' || c == '\x0c' || c == '\r' {
            q = q + 1;
        } else if c == '#' || c == '%' {
            let e = line_end_exec(s, q);
            if e > q {
                q = e;
            } else {
                return q;
            }
        } else if c == '/' && q + 1 < s.len() && s[q + 1] == '*' {
            let e = block_end_exec(s, q + 2);
            if e > q {
                q = e;
            } else {
                return q;
            }
        } else {
            return q;
        }
    }
}

fn token_at_exec(s: &Vec<char>, p: usize) -> (r: Option<(TokenKind, usize)>)
    requires
        p < s.len(),
        s.len() <= isize::MAX,
    ensures
        match token_at(s@, p as int) {
            Some((k, e)) => r matches Some((k2, e2)) && k2 == k && e2 == e,
            None => r is None,
        },
{
    let c = s[p];
    let c1 = char_at_exec(s, p + 1);
    let c2 = char_at_exec(s, p + 2);
    if is_alpha_exec(c) || c == '_' {
        let e = id_end_exec(s, p + 1);
        let k = if is_digit_exec(s[e - 1]) {
            TokenKind::Idnum
        } else {
            TokenKind::Ident
        };
        Some((k, e))
    } else if is_digit_exec(c) {
        Some((TokenKind::PosInt, digits_end_exec(s, p + 1)))
    } else if c == '$' {
        if is_id_char_exec(c1) {
            Some((TokenKind::SemIdent, id_end_exec(s, p + 1)))
        } else {
            Some((TokenKind::Dollar, p + 1))
        }
    } else if c == '"' || c == '\'' {
        match quote_end_exec(s, p + 1, c) {
            None => None,
            Some(e) => Some((if c == '"' { TokenKind::DqString } else { TokenKind::SqString }, e)),
        }
    } else if c == '!' {
        if c1 == '=' { Some((TokenKind::NegEqualSign, p + 2)) } else { Some((TokenKind::Exclamation, p + 1)) }
    } else if c == '=' {
        if c1 == '>' { Some((TokenKind::LRImpl, p + 2)) } else { Some((TokenKind::EqualSign, p + 1)) }
    } else if c == '<' {
        if c1 == '=' {
            if c2 == '>' { Some((TokenKind::Equiv, p + 3)) } else { Some((TokenKind::RLImpl, p + 2)) }
        } else if c1 == '~' && c2 == '>' {
            Some((TokenKind::Xor, p + 3))
        } else {
            Some((TokenKind::LesserSign, p + 1))
        }
    } else if c == '~' {
        if c1 == '|' {
            Some((TokenKind::Nor, p + 2))
        } else if c1 == '&' {
            Some((TokenKind::Nand, p + 2))
        } else {
            Some((TokenKind::TildeSign, p + 1))
        }
    } else if c == '(' {
        Some((TokenKind::OpenBracket, p + 1))
    } else if c == ')' {
        Some((TokenKind::CloseBracket, p + 1))
    } else if c == '{' {
        Some((TokenKind::OpenCurly, p + 1))
    } else if c == '}' {
        Some((TokenKind::CloseCurly, p + 1))
    } else if c == '[' {
        Some((TokenKind::OpenSquare, p + 1))
    } else if c == ']' {
        Some((TokenKind::CloseSquare, p + 1))
    } else if c == '>' {
        Some((TokenKind::GreaterSign, p + 1))
    } else if c == '?' {
        Some((TokenKind::QuestionMark, p + 1))
    } else if c == ',' {
        Some((TokenKind::Comma, p + 1))
    } else if c == ';' {
        Some((TokenKind::Semicolon, p + 1))
    } else if c == ':' {
        Some((TokenKind::Colon, p + 1))
    } else if c == '-' {
        Some((TokenKind::Hyphen, p + 1))
    } else if c == '+' {
        Some((TokenKind::Plus, p + 1))
    } else if c == '*' {
        Some((TokenKind::Mult, p + 1))
    } else if c == '.' {
        Some((TokenKind::Fullstop, p + 1))
    } else if c == '/' {
        Some((TokenKind::Slash, p + 1))
    } else if c == '|' {
        Some((TokenKind::Pipe, p + 1))
    } else if c == '&' {
        Some((TokenKind::Ampersand, p + 1))
    } else {
        None
    }
}

/// Appends the tokens lexed so far to the rest of a lexing result.
pub open spec fn prepend(prefix: Seq<Token>, r: Result<Seq<Token>, int>) -> Result<Seq<Token>, int> {
    match r {
        Ok(rest) => Ok(prefix + rest),
        Err(x) => Err(x),
    }
}

/// The tokens of a text (see `lex_from`), or the position of the first
/// character that starts no token.
pub fn tokenize(s: &Vec<char>) -> (r: Result<Vec<Token>, usize>)
    requires
        s.len() <= isize::MAX,
    ensures
        match lex_from(s@, 0) {
            Ok(toks) => r matches Ok(v) && v@ == toks,
            Err(x) => r matches Err(y) && y == x,
        },
{
    let mut toks: Vec<Token> = Vec::new();
    let mut p: usize = 0;
    loop
        invariant
            p <= s.len(),
            s.len() <= isize::MAX,
            lex_from(s@, 0) == prepend(toks@, lex_from(s@, p as int)),
        decreases s.len() - p,
    {
        let q = skip_layout_exec(s, p);
        if q >= s.len() {
            let t = Token { kind: TokenKind::NoToken, start: s.len(), end: s.len() };
            proof {
                assert(lex_from(s@, p as int) == Ok::<Seq<Token>, int>(seq![t]));
            }
            toks.push(t);
            return Ok(toks);
        }
        match token_at_exec(s, q) {
            None => {
                return Err(q);
            },
            Some((k, e)) => {
                if e <= q || e > s.len() {
                    return Err(q);
                }
                let t = Token { kind: k, start: q, end: e };
                proof {
                    let tail = lex_from(s@, e as int);
                    assert(prepend(toks@.push(t), tail) == prepend(toks@, prepend(seq![t], tail))) by {
                        match tail {
                            Ok(rest) => {
                                assert(toks@.push(t) + rest =~= toks@ + (seq![t] + rest));
                            },
                            Err(x) => {},
                        }
                    }
                }
                toks.push(t);
                p = e;
            },
        }
    }
}

/// The line (from 1) of position `p`.
pub open spec fn line_of(s: Seq<char>, p: int) -> int
    decreases p,
{
    if p <= 0 || s.len() == 0 {
        1
    } else if p - 1 < s.len() && s[p - 1] == '\n' {
        line_of(s, p - 1) + 1
    } else {
        line_of(s, p - 1)
    }
}

/// The column (from 1) of position `p`.
pub open spec fn column_of(s: Seq<char>, p: int) -> int
    decreases p,
{
    if p <= 0 || s.len() == 0 {
        1
    } else if p - 1 < s.len() && s[p - 1] == '\n' {
        1
    } else {
        column_of(s, p - 1) + 1
    }
}

/// The line and column of a position.
pub fn position_of(s: &Vec<char>, p: usize) -> (r: (u64, u64))
    requires
        p <= s.len(),
        s.len() <= isize::MAX,
    ensures
        r.0 == line_of(s@, p as int),
        r.1 == column_of(s@, p as int),
{
    let mut line: u64 = 1;
    let mut col: u64 = 1;
    let mut i: usize = 0;
    while i < p
        invariant
            i <= p <= s.len() <= isize::MAX,
            line == line_of(s@, i as int),
            col == column_of(s@, i as int),
            line <= i + 1,
            col <= i + 1,
        decreases p - i,
    {
        if s[i] == '\n' {
            line = line + 1;
            col = 1;
        } else {
            col = col + 1;
        }
        i = i + 1;
    }
    (line, col)
}

/// The text that a syntax error message starts with: the source, line and
/// column of the token, and the token's text.
pub open spec fn position_prefix(source: Seq<char>, s: Seq<char>, t: Token) -> Seq<char> {
    source + ":"@ + decimal(line_of(s, t.start as int) as nat) + ":(Column "@ + decimal(
        column_of(s, t.start as int) as nat,
    ) + "):(just read '"@ + s.subrange(t.start as int, t.end as int) + "'): "@
}

/// A syntax error at a token.
pub fn token_error(source: &str, s: &Vec<char>, t: Token, msg: &str) -> (d: Diagnostic)
    requires
        t.start <= t.end <= s.len(),
        s.len() <= isize::MAX,
    ensures
        d.code == ErrorCode::Syntax,
        d.message@ == position_prefix(source@, s@, t) + msg@,
{
    let (line, col) = position_of(s, t.start);
    let mut m = String::new();
    push_str(&mut m, source);
    push_str(&mut m, ":");
    push_u64(&mut m, line);
    push_str(&mut m, ":(Column ");
    push_u64(&mut m, col);
    push_str(&mut m, "):(just read '");
    let lit = string_of_range(s, t.start, t.end);
    push_str(&mut m, lit.as_str());
    push_str(&mut m, "'): ");
    push_str(&mut m, msg);
    Diagnostic::new(ErrorCode::Syntax, m)
}

} // verus!
