//! Terms, literals and clauses read from tokens, in E's LOP syntax, in the
//! `input_clause` syntax of TPTP-2 and in PCL; each is kept in its
//! canonical text (the tokens without layout), which is also how it prints.
use vstd::prelude::*;
use crate::diag::{Diagnostic, ErrorCode};
use crate::scanner::{Token, TokenKind, lex_from, tokenize, token_error, position_prefix, describe, token_desc};
use crate::text::{push_str, string_of_range, same_text, chars_of};

verus! {

/// A tokenized text with a cursor.
pub struct Reader {
    pub source: String,
    pub src: Vec<char>,
    pub toks: Vec<Token>,
    pub pos: usize,
}

/// The tokens of a reader are those of its text, ending with `NoToken`.
pub open spec fn reader_ok(r: &Reader) -> bool {
    &&& r.src.len() <= isize::MAX
    &&& lex_from(r.src@, 0) == Ok::<Seq<Token>, int>(r.toks@)
    &&& r.toks.len() > 0
    &&& r.toks@.last().kind == TokenKind::NoToken
    &&& forall|k: int| 0 <= k < r.toks.len() - 1 ==> (#[trigger] r.toks@[k]).kind != TokenKind::NoToken
    &&& forall|k: int| 0 <= k < r.toks.len() ==> (#[trigger] r.toks@[k]).start <= r.toks@[k].end <= r.src.len()
    &&& r.pos < r.toks.len()
}

/// The text of token `k`.
pub open spec fn lit_of(src: Seq<char>, t: Token) -> Seq<char> {
    src.subrange(t.start as int, t.end as int)
}

/// The texts of tokens `i..j`, without layout.
pub open spec fn tokens_text(src: Seq<char>, toks: Seq<Token>, i: int, j: int) -> Seq<char>
    decreases j - i,
{
    if j <= i {
        Seq::empty()
    } else {
        tokens_text(src, toks, i, j - 1) + lit_of(src, toks[j - 1])
    }
}

/// The texts of two adjacent token ranges join into the text of both.
pub proof fn lemma_tokens_text_join(src: Seq<char>, toks: Seq<Token>, i: int, k: int, j: int)
    requires
        i <= k <= j,
    ensures
        tokens_text(src, toks, i, k) + tokens_text(src, toks, k, j) == tokens_text(src, toks, i, j),
    decreases j - k,
{
    if k == j {
        assert(tokens_text(src, toks, k, j) =~= Seq::<char>::empty());
        assert(tokens_text(src, toks, i, k) + Seq::<char>::empty() =~= tokens_text(src, toks, i, k));
    } else {
        lemma_tokens_text_join(src, toks, i, k, j - 1);
        assert(tokens_text(src, toks, i, k) + tokens_text(src, toks, k, j) =~= (tokens_text(src, toks, i, k)
            + tokens_text(src, toks, k, j - 1)) + lit_of(src, toks[j - 1]));
    }
}

proof fn lemma_lex_shape(s: Seq<char>, p: int)
    requires
        lex_from(s, p) is Ok,
        0 <= p,
        s.len() <= isize::MAX,
    ensures
        ({
            let t = lex_from(s, p)->Ok_0;
            &&& t.len() > 0
            &&& t.last().kind == TokenKind::NoToken
            &&& forall|k: int| 0 <= k < t.len() - 1 ==> (#[trigger] t[k]).kind != TokenKind::NoToken
            &&& forall|k: int| 0 <= k < t.len() ==> (#[trigger] t[k]).start <= t[k].end <= s.len()
        }),
    decreases s.len() - p,
{
    let q = crate::scanner::skip_layout(s, p);
    if q < p || q >= s.len() {
    } else {
        match crate::scanner::token_at(s, q) {
            None => {},
            Some((k, e)) => {
                if e <= q || e > s.len() {
                } else {
                    lemma_lex_shape(s, e);
                    let rest = lex_from(s, e)->Ok_0;
                    let t = lex_from(s, p)->Ok_0;
                    assert(t == seq![Token { kind: k, start: q as usize, end: e as usize }] + rest);
                    assert forall|k2: int| 0 <= k2 < t.len() - 1 implies (#[trigger] t[k2]).kind
                        != TokenKind::NoToken by {
                        if k2 > 0 {
                            assert(t[k2] == rest[k2 - 1]);
                        } else {
                            assert(k != TokenKind::NoToken);
                        }
                    }
                    assert forall|k2: int| 0 <= k2 < t.len() implies (#[trigger] t[k2]).start <= t[k2].end
                        <= s.len() by {
                        if k2 > 0 {
                            assert(t[k2] == rest[k2 - 1]);
                        }
                    }
                }
            },
        }
    }
}

proof fn lemma_lex_err(s: Seq<char>, p: int)
    requires
        0 <= p,
    ensures
        lex_from(s, p) matches Err(x) ==> p <= x < s.len(),
    decreases s.len() - p,
{
    let q = crate::scanner::skip_layout(s, p);
    if q < p || q >= s.len() {
    } else {
        match crate::scanner::token_at(s, q) {
            None => {},
            Some((k, e)) => {
                if e <= q || e > s.len() {
                } else {
                    lemma_lex_err(s, e);
                }
            },
        }
    }
}

/// The message for a character at index `p` that starts no token.
pub open spec fn lex_error_text(source: Seq<char>, text: Seq<char>, p: int) -> Seq<char> {
    position_prefix(source, text, Token { kind: TokenKind::NoToken, start: p as usize, end: (p + 1) as usize })
        + "Illegal character"@
}

impl Reader {
    /// A reader over a text, or the syntax error of a character that starts
    /// no token.
    pub fn new(source: &str, text: &str) -> (r: Result<Reader, Diagnostic>)
        requires
            text@.len() <= isize::MAX,
        ensures
            r matches Ok(rd) ==> reader_ok(&rd) && rd.pos == 0 && rd.src@ == text@ && rd.source@ == source@,
            r matches Err(d) ==> d.code == ErrorCode::Syntax,
            r is Ok <==> lex_from(text@, 0) is Ok,
            r matches Err(d) ==> (lex_from(text@, 0) matches Err(p) && d.message@ == lex_error_text(source@, text@, p)),
    {
        let src = chars_of(text);
        match tokenize(&src) {
            Ok(toks) => {
                proof {
                    lemma_lex_shape(src@, 0);
                }
                Ok(Reader { source: String::from_str(source), src, toks, pos: 0 })
            },
            Err(p) => {
                proof {
                    lemma_lex_err(src@, 0);
                }
                let t = Token { kind: TokenKind::NoToken, start: p, end: p + 1 };
                Err(token_error(source, &src, t, "Illegal character"))
            },
        }
    }

    /// The kind of the current token.
    pub fn kind(&self) -> (k: TokenKind)
        requires
            reader_ok(self),
        ensures
            k == self.toks@[self.pos as int].kind,
    {
        self.toks[self.pos].kind
    }

    /// The current token.
    pub fn token(&self) -> (t: Token)
        requires
            reader_ok(self),
        ensures
            t == self.toks@[self.pos as int],
    {
        self.toks[self.pos]
    }

    /// The text of the current token.
    pub fn lit(&self) -> (s: String)
        requires
            reader_ok(self),
        ensures
            s@ == lit_of(self.src@, self.toks@[self.pos as int]),
    {
        let t = self.toks[self.pos];
        string_of_range(&self.src, t.start, t.end)
    }

    /// Moves to the next token, staying on the final `NoToken`.
    pub fn advance(&mut self)
        requires
            reader_ok(old(self)),
        ensures
            reader_ok(final(self)),
            final(self).src@ == old(self).src@,
            final(self).toks@ == old(self).toks@,
            final(self).source@ == old(self).source@,
            final(self).pos == if old(self).pos + 1 < old(self).toks.len() {
                old(self).pos + 1
            } else {
                old(self).pos as int
            },
    {
        if self.pos + 1 < self.toks.len() {
            self.pos = self.pos + 1;
        }
    }

    /// A syntax error at the current token.
    pub fn error(&self, msg: &str) -> (d: Diagnostic)
        requires
            reader_ok(self),
        ensures
            d.code == ErrorCode::Syntax,
            d.message@ == position_prefix(self.source@, self.src@, self.toks@[self.pos as int]) + msg@,
    {
        token_error(self.source.as_str(), &self.src, self.toks[self.pos], msg)
    }
}

/// The names of the expected kinds joined by " or ".
pub open spec fn kinds_text(ks: Seq<TokenKind>) -> Seq<char>
    decreases ks.len(),
{
    if ks.len() == 0 {
        Seq::empty()
    } else if ks.len() == 1 {
        token_desc(ks[0])@
    } else {
        kinds_text(ks.drop_last()) + " or "@ + token_desc(ks.last())@
    }
}

/// The message for a token of another kind than expected.
pub open spec fn expected_text(ks: Seq<TokenKind>, got: TokenKind) -> Seq<char> {
    kinds_text(ks) + " expected, but "@ + token_desc(got)@ + " read "@
}

/// The syntax error for a current token that is none of `ks`.
pub fn expected_error(r: &Reader, ks: &Vec<TokenKind>) -> (d: Diagnostic)
    requires
        reader_ok(r),
    ensures
        d.code == ErrorCode::Syntax,
        d.message@ == position_prefix(r.source@, r.src@, r.toks@[r.pos as int]) + expected_text(
            ks@,
            r.toks@[r.pos as int].kind,
        ),
{
    let mut m = String::new();
    let mut i: usize = 0;
    while i < ks.len()
        invariant
            i <= ks.len(),
            m@ == kinds_text(ks@.take(i as int)),
        decreases ks.len() - i,
    {
        if i > 0 {
            push_str(&mut m, " or ");
        }
        push_str(&mut m, describe(ks[i]));
        proof {
            assert(ks@.take(i + 1).drop_last() == ks@.take(i as int));
            if i == 0 {
                assert(ks@.take(0) =~= Seq::<TokenKind>::empty());
            }
        }
        i = i + 1;
    }
    proof {
        assert(ks@.take(ks.len() as int) == ks@);
    }
    push_str(&mut m, " expected, but ");
    push_str(&mut m, describe(r.kind()));
    push_str(&mut m, " read ");
    r.error(m.as_str())
}

/// The kinds that start a term, in the order in which messages list them.
pub open spec fn term_start_kinds() -> Seq<TokenKind> {
    seq![
        TokenKind::Ident,
        TokenKind::Idnum,
        TokenKind::SemIdent,
        TokenKind::DqString,
        TokenKind::SqString,
        TokenKind::PosInt,
        TokenKind::Hyphen,
        TokenKind::Plus,
    ]
}

pub open spec fn starts_term(k: TokenKind) -> bool {
    term_start_kinds().contains(k)
}

fn term_start_vec() -> (v: Vec<TokenKind>)
    ensures
        v@ == term_start_kinds(),
{
    let v = vec![
        TokenKind::Ident,
        TokenKind::Idnum,
        TokenKind::SemIdent,
        TokenKind::DqString,
        TokenKind::SqString,
        TokenKind::PosInt,
        TokenKind::Hyphen,
        TokenKind::Plus,
    ];
    proof {
        assert(v@ =~= term_start_kinds());
    }
    v
}

/// Whether a token kind starts a term.
pub fn is_term_start(k: TokenKind) -> (b: bool)
    ensures
        b == starts_term(k),
{
    proof {
        assert(term_start_kinds()[0] == TokenKind::Ident);
        assert(term_start_kinds()[1] == TokenKind::Idnum);
        assert(term_start_kinds()[2] == TokenKind::SemIdent);
        assert(term_start_kinds()[3] == TokenKind::DqString);
        assert(term_start_kinds()[4] == TokenKind::SqString);
        assert(term_start_kinds()[5] == TokenKind::PosInt);
        assert(term_start_kinds()[6] == TokenKind::Hyphen);
        assert(term_start_kinds()[7] == TokenKind::Plus);
    }
    k == TokenKind::Ident || k == TokenKind::Idnum || k == TokenKind::SemIdent || k
        == TokenKind::DqString || k == TokenKind::SqString || k == TokenKind::PosInt || k
        == TokenKind::Hyphen || k == TokenKind::Plus
}

/// The kinds of a name that may carry arguments.
pub open spec fn is_name_kind(k: TokenKind) -> bool {
    k == TokenKind::Ident || k == TokenKind::Idnum || k == TokenKind::SemIdent || k == TokenKind::DqString
        || k == TokenKind::SqString
}

/// Where the term that starts at token `i` ends (the index after its last
/// token), or `None` where no term starts there. A term is a number with an
/// optional sign, or a name with an optional list of argument terms in
/// brackets, separated by commas.
pub open spec fn term_end(toks: Seq<Token>, i: int) -> Option<int>
    decreases toks.len() - i, 0int,
{
    if i < 0 || i >= toks.len() {
        None
    } else {
        let k = toks[i].kind;
        if k == TokenKind::Hyphen || k == TokenKind::Plus {
            if i + 1 < toks.len() && toks[i + 1].kind == TokenKind::PosInt {
                Some(i + 2)
            } else {
                None
            }
        } else if k == TokenKind::PosInt {
            Some(i + 1)
        } else if is_name_kind(k) {
            if i + 1 < toks.len() && toks[i + 1].kind == TokenKind::OpenBracket {
                args_end(toks, i + 2)
            } else {
                Some(i + 1)
            }
        } else {
            None
        }
    }
}

/// Where the argument list that continues at token `j` (after the opening
/// bracket or a comma) ends: after its closing bracket.
pub open spec fn args_end(toks: Seq<Token>, j: int) -> Option<int>
    decreases toks.len() - j, 1int,
{
    if j < 0 || j >= toks.len() {
        None
    } else {
        match term_end(toks, j) {
            Some(e) => if j < e < toks.len() {
                if toks[e].kind == TokenKind::Comma {
                    args_end(toks, e + 1)
                } else if toks[e].kind == TokenKind::CloseBracket {
                    Some(e + 1)
                } else {
                    None
                }
            } else {
                None
            },
            None => None,
        }
    }
}

/// The kind of token `i`, `NoToken` beyond the tokens.
pub open spec fn kind_at(toks: Seq<Token>, i: int) -> TokenKind {
    if 0 <= i < toks.len() {
        toks[i].kind
    } else {
        TokenKind::NoToken
    }
}

/// A syntax error at token `q` for a token that is none of `ks`: where it
/// is and the text that follows the position in its message.
pub open spec fn expected_at(toks: Seq<Token>, q: int, ks: Seq<TokenKind>) -> (int, Seq<char>) {
    (q, expected_text(ks, kind_at(toks, q)))
}

/// Whether a diagnostic is the syntax error `e` (a token index and the text
/// after the position) of a reader's text.
pub open spec fn error_is(d: Diagnostic, r: &Reader, e: (int, Seq<char>)) -> bool {
    d.message@ == position_prefix(r.source@, r.src@, r.toks@[e.0]) + e.1
}

/// The syntax error of a term at token `i` where no term starts there
/// (see `term_end`).
pub open spec fn term_err(toks: Seq<Token>, i: int) -> (int, Seq<char>)
    decreases toks.len() - i, 0int,
{
    if i < 0 || i >= toks.len() {
        expected_at(toks, i, term_start_kinds())
    } else {
        let k = toks[i].kind;
        if k == TokenKind::Hyphen || k == TokenKind::Plus {
            expected_at(toks, i + 1, seq![TokenKind::PosInt])
        } else if k == TokenKind::PosInt {
            expected_at(toks, i, term_start_kinds())
        } else if is_name_kind(k) {
            if i + 1 < toks.len() && toks[i + 1].kind == TokenKind::OpenBracket {
                args_err(toks, i + 2)
            } else {
                expected_at(toks, i, term_start_kinds())
            }
        } else {
            expected_at(toks, i, term_start_kinds())
        }
    }
}

/// The syntax error of an argument list that continues at token `j` where
/// it does not end well (see `args_end`).
pub open spec fn args_err(toks: Seq<Token>, j: int) -> (int, Seq<char>)
    decreases toks.len() - j, 1int,
{
    if j < 0 || j >= toks.len() {
        expected_at(toks, j, term_start_kinds())
    } else {
        match term_end(toks, j) {
            Some(e) => if j < e < toks.len() {
                if toks[e].kind == TokenKind::Comma {
                    args_err(toks, e + 1)
                } else {
                    expected_at(toks, e, seq![TokenKind::CloseBracket])
                }
            } else {
                expected_at(toks, e, seq![TokenKind::CloseBracket])
            },
            None => term_err(toks, j),
        }
    }
}

/// A term ends after it starts and within the tokens.
pub proof fn lemma_term_end_bounds(toks: Seq<Token>, i: int)
    ensures
        term_end(toks, i) matches Some(e) ==> i < e <= toks.len(),
        args_end(toks, i) matches Some(e) ==> i < e <= toks.len(),
    decreases toks.len() - i,
{
    if 0 <= i < toks.len() {
        let k = toks[i].kind;
        if is_name_kind(k) && i + 1 < toks.len() && toks[i + 1].kind == TokenKind::OpenBracket {
            lemma_term_end_bounds(toks, i + 2);
        }
        match term_end(toks, i) {
            Some(e) => if i < e < toks.len() && toks[e].kind == TokenKind::Comma {
                lemma_term_end_bounds(toks, e + 1);
            },
            None => {},
        }
    }
}

/// The reader moved on over tokens of the same text.
pub open spec fn moved_on(a: &Reader, b: &Reader) -> bool {
    &&& reader_ok(b)
    &&& b.src@ == a.src@
    &&& b.toks@ == a.toks@
    &&& b.source@ == a.source@
    &&& a.pos <= b.pos
}

/// Appends the current token's text and moves past it.
fn take_token(r: &mut Reader, out: &mut String, ghost_from: Ghost<int>)
    requires
        reader_ok(old(r)),
        old(r).toks@[old(r).pos as int].kind != TokenKind::NoToken,
        0 <= ghost_from@ <= old(r).pos,
        old(out)@ == tokens_text(old(r).src@, old(r).toks@, ghost_from@, old(r).pos as int),
    ensures
        moved_on(old(r), final(r)),
        final(r).pos == old(r).pos + 1,
        final(out)@ == tokens_text(final(r).src@, final(r).toks@, ghost_from@, final(r).pos as int),
{
    let l = r.lit();
    push_str(out, l.as_str());
    r.advance();
}

/// A term: a number with an optional sign, or a name (an identifier, a
/// `$`-name or a quoted string) with an optional list of argument terms in
/// brackets. The result is the term's canonical text.
pub fn parse_term(r: &mut Reader) -> (res: Result<String, Diagnostic>)
    requires
        reader_ok(old(r)),
    ensures
        moved_on(old(r), final(r)),
        res matches Ok(t) ==> old(r).pos < final(r).pos && t@ == tokens_text(
            old(r).src@,
            old(r).toks@,
            old(r).pos as int,
            final(r).pos as int,
        ),
        res matches Err(d) ==> d.code == ErrorCode::Syntax,
        res is Ok <==> term_end(old(r).toks@, old(r).pos as int) is Some,
        res is Ok ==> final(r).pos == term_end(old(r).toks@, old(r).pos as int)->0,
        old(r).toks@[old(r).pos as int].kind != TokenKind::NoToken && !starts_term(
            old(r).toks@[old(r).pos as int].kind,
        ) ==> res is Err,
        res matches Err(d) ==> error_is(d, old(r), term_err(old(r).toks@, old(r).pos as int)),
    decreases old(r).toks.len() - old(r).pos,
{
    let ghost i = r.pos as int;
    let mut t = String::new();
    let k = r.kind();
    if k == TokenKind::Hyphen || k == TokenKind::Plus {
        take_token(r, &mut t, Ghost(i));
        if r.kind() != TokenKind::PosInt {
            let v = vec![TokenKind::PosInt];
            return Err(expected_error(r, &v));
        }
        take_token(r, &mut t, Ghost(i));
        return Ok(t);
    }
    if k == TokenKind::PosInt {
        take_token(r, &mut t, Ghost(i));
        return Ok(t);
    }
    if k == TokenKind::Ident || k == TokenKind::Idnum || k == TokenKind::SemIdent || k
        == TokenKind::DqString || k == TokenKind::SqString {
        let is_start = is_term_start(k);
        take_token(r, &mut t, Ghost(i));
        if r.kind() == TokenKind::OpenBracket {
            take_token(r, &mut t, Ghost(i));
            loop
                invariant
                    reader_ok(r),
                    r.src@ == old(r).src@,
                    r.toks@ == old(r).toks@,
                    r.source@ == old(r).source@,
                    i < r.pos,
                    i == old(r).pos,
                    is_start == starts_term(old(r).toks@[old(r).pos as int].kind),
                    is_start,
                    t@ == tokens_text(r.src@, r.toks@, i, r.pos as int),
                    term_end(r.toks@, i) == args_end(r.toks@, r.pos as int),
                    term_err(r.toks@, i) == args_err(r.toks@, r.pos as int),
                decreases r.toks.len() - r.pos,
            {
                let ghost before = r.pos as int;
                proof {
                    lemma_term_end_bounds(r.toks@, before);
                }
                let a = parse_term(r);
                match a {
                    Err(d) => {
                        return Err(d);
                    },
                    Ok(a) => {
                        proof {
                            lemma_tokens_text_join(r.src@, r.toks@, i, before, r.pos as int);
                        }
                        push_str(&mut t, a.as_str());
                    },
                }
                if r.kind() == TokenKind::Comma {
                    take_token(r, &mut t, Ghost(i));
                } else if r.kind() == TokenKind::CloseBracket {
                    take_token(r, &mut t, Ghost(i));
                    return Ok(t);
                } else {
                    let v = vec![TokenKind::CloseBracket];
                    return Err(expected_error(r, &v));
                }
            }
        }
        return Ok(t);
    }
    let v = term_start_vec();
    proof {
        assert(!starts_term(k));
    }
    Err(expected_error(r, &v))
}

/// A literal: its sign and its equation; an atom `p` is the equation
/// whose right side is absent.
pub struct Literal {
    pub positive: bool,
    pub lhs: String,
    pub rhs: Option<String>,
}

/// The view of a literal.
pub struct LitView {
    pub positive: bool,
    pub lhs: Seq<char>,
    pub rhs: Option<Seq<char>>,
}

impl Literal {
    pub open spec fn view(&self) -> LitView {
        LitView { positive: self.positive, lhs: self.lhs@, rhs: crate::cmdline::opt_view(self.rhs) }
    }
}

/// The literals of a clause.
pub open spec fn lits_view(ls: Seq<Literal>) -> Seq<LitView> {
    ls.map_values(|l: Literal| l.view())
}

/// The text of an equation: `l=r`, or `l` for an atom.
pub open spec fn eqn_text(l: LitView) -> Seq<char> {
    match l.rhs {
        Some(x) => l.lhs + "="@ + x,
        None => l.lhs,
    }
}

/// The equations of the literals of one sign, joined by `sep`.
pub open spec fn side_text(ls: Seq<LitView>, positive: bool, sep: Seq<char>) -> Seq<char>
    decreases ls.len(),
{
    if ls.len() == 0 {
        Seq::empty()
    } else {
        let rest = side_text(ls.drop_last(), positive, sep);
        if ls.last().positive != positive {
            rest
        } else if rest.len() == 0 {
            eqn_text(ls.last())
        } else {
            rest + sep + eqn_text(ls.last())
        }
    }
}

/// A clause in LOP syntax: the positive literals joined by ';', then "<-",
/// the negative literals joined by ',', and a full stop.
pub open spec fn lop_text(ls: Seq<LitView>) -> Seq<char> {
    side_text(ls, true, ";"@) + "<-"@ + side_text(ls, false, ","@) + "."@
}

/// Two literals on the same equation (an equation read either way round).
pub open spec fn same_eqn(a: LitView, b: LitView) -> bool {
    (a.lhs == b.lhs && a.rhs == b.rhs) || (a.rhs matches Some(x) && b.rhs matches Some(y) && a.lhs
        == y && x == b.lhs)
}

/// A clause that holds in every interpretation: it has a positive literal
/// `t=t`, or a positive and a negative literal on the same equation.
pub open spec fn is_tautology(ls: Seq<LitView>) -> bool {
    (exists|i: int| 0 <= i < ls.len() && ls[i].positive && ls[i].rhs == Some(ls[i].lhs)) || (exists|
        i: int,
        j: int,
    |
        0 <= i < ls.len() && 0 <= j < ls.len() && ls[i].positive && !ls[j].positive && same_eqn(
            ls[i],
            ls[j],
        ))
}

fn opt_same(a: &Option<String>, b: &Option<String>) -> (r: bool)
    ensures
        r == (crate::cmdline::opt_view(*a) == crate::cmdline::opt_view(*b)),
{
    match (a, b) {
        (Some(x), Some(y)) => same_text(x.as_str(), y.as_str()),
        (None, None) => true,
        _ => false,
    }
}

fn same_eqn_exec(a: &Literal, b: &Literal) -> (r: bool)
    ensures
        r == same_eqn(a.view(), b.view()),
{
    if same_text(a.lhs.as_str(), b.lhs.as_str()) && opt_same(&a.rhs, &b.rhs) {
        return true;
    }
    match (&a.rhs, &b.rhs) {
        (Some(x), Some(y)) => same_text(a.lhs.as_str(), y.as_str()) && same_text(x.as_str(), b.lhs.as_str()),
        _ => false,
    }
}

/// Whether a clause is a tautology (see `is_tautology`).
pub fn clause_is_tautology(ls: &Vec<Literal>) -> (r: bool)
    ensures
        r == is_tautology(lits_view(ls@)),
{
    let ghost v = lits_view(ls@);
    let mut i: usize = 0;
    while i < ls.len()
        invariant
            i <= ls.len(),
            v == lits_view(ls@),
            forall|k: int| 0 <= k < i ==> !(v[k].positive && v[k].rhs == Some(v[k].lhs)),
        decreases ls.len() - i,
    {
        let l = &ls[i];
        if l.positive {
            match &l.rhs {
                Some(x) => {
                    if same_text(x.as_str(), l.lhs.as_str()) {
                        proof {
                            assert(v[i as int].positive && v[i as int].rhs == Some(v[i as int].lhs));
                        }
                        return true;
                    }
                },
                None => {},
            }
        }
        i = i + 1;
    }
    let mut a: usize = 0;
    while a < ls.len()
        invariant
            a <= ls.len(),
            v == lits_view(ls@),
            forall|k: int| 0 <= k < ls.len() ==> !(v[k].positive && v[k].rhs == Some(v[k].lhs)),
            forall|x: int, y: int|
                0 <= x < a && 0 <= y < ls.len() ==> !(v[x].positive && !v[y].positive && same_eqn(
                    v[x],
                    v[y],
                )),
        decreases ls.len() - a,
    {
        let mut b: usize = 0;
        while b < ls.len()
            invariant
                a < ls.len(),
                b <= ls.len(),
                v == lits_view(ls@),
                forall|x: int, y: int|
                    0 <= x < a && 0 <= y < ls.len() ==> !(v[x].positive && !v[y].positive && same_eqn(
                        v[x],
                        v[y],
                    )),
                forall|y: int|
                    0 <= y < b ==> !(v[a as int].positive && !v[y].positive && same_eqn(v[a as int], v[y])),
            decreases ls.len() - b,
        {
            if ls[a].positive && !ls[b].positive && same_eqn_exec(&ls[a], &ls[b]) {
                proof {
                    assert(v[a as int] == ls@[a as int].view());
                    assert(v[b as int] == ls@[b as int].view());
                    assert(v[a as int].positive && !v[b as int].positive && same_eqn(v[a as int], v[b as int]));
                }
                return true;
            }
            b = b + 1;
        }
        a = a + 1;
    }
    false
}

fn push_eqn(out: &mut String, l: &Literal)
    ensures
        final(out)@ == old(out)@ + eqn_text(l.view()),
{
    push_str(out, l.lhs.as_str());
    match &l.rhs {
        Some(x) => {
            push_str(out, "=");
            push_str(out, x.as_str());
        },
        None => {},
    }
}

fn push_side(out: &mut String, ls: &Vec<Literal>, positive: bool, sep: &str)
    ensures
        final(out)@ == old(out)@ + side_text(lits_view(ls@), positive, sep@),
{
    let ghost v = lits_view(ls@);
    let mut side = String::new();
    let mut i: usize = 0;
    while i < ls.len()
        invariant
            i <= ls.len(),
            v == lits_view(ls@),
            side@ == side_text(v.take(i as int), positive, sep@),
        decreases ls.len() - i,
    {
        proof {
            assert(v.take(i + 1).drop_last() == v.take(i as int));
            assert(v.take(i + 1).last() == v[i as int]);
        }
        if ls[i].positive == positive {
            let n = side.as_str().unicode_len();
            if n > 0 {
                push_str(&mut side, sep);
            }
            push_eqn(&mut side, &ls[i]);
        }
        i = i + 1;
    }
    proof {
        assert(v.take(ls.len() as int) == v);
    }
    push_str(out, side.as_str());
}

/// Appends a clause in LOP syntax (see `lop_text`).
pub fn push_lop_clause(out: &mut String, ls: &Vec<Literal>)
    ensures
        final(out)@ == old(out)@ + lop_text(lits_view(ls@)),
{
    push_side(out, ls, true, ";");
    push_str(out, "<-");
    push_side(out, ls, false, ",");
    push_str(out, ".");
}

/// The equation that starts at token `i`, with the given sign, and where
/// it ends.
pub open spec fn eqn_spec(src: Seq<char>, toks: Seq<Token>, i: int, positive: bool) -> Option<(LitView, int)> {
    match term_end(toks, i) {
        None => None,
        Some(e) => if e < toks.len() && toks[e].kind == TokenKind::EqualSign {
            match term_end(toks, e + 1) {
                Some(e2) => Some(
                    (
                        LitView {
                            positive,
                            lhs: tokens_text(src, toks, i, e),
                            rhs: Some(tokens_text(src, toks, e + 1, e2)),
                        },
                        e2,
                    ),
                ),
                None => None,
            }
        } else {
            Some((LitView { positive, lhs: tokens_text(src, toks, i, e), rhs: None }, e))
        },
    }
}

/// `acc` put in front of the literals of a result.
pub open spec fn with_prefix(acc: Seq<LitView>, x: Option<(Seq<LitView>, int)>) -> Option<(Seq<LitView>, int)> {
    match x {
        Some((ls, e)) => Some((acc + ls, e)),
        None => None,
    }
}

/// Equations of one sign, separated by `sep`, from token `i` on.
pub open spec fn eqn_list_spec(src: Seq<char>, toks: Seq<Token>, i: int, positive: bool, sep: TokenKind) -> Option<
    (Seq<LitView>, int),
>
    decreases toks.len() - i, 0int,
{
    match eqn_spec(src, toks, i, positive) {
        None => None,
        Some((l, e)) => if i < e <= toks.len() {
            with_prefix(seq![l], list_rest(src, toks, e, positive, sep))
        } else {
            None
        },
    }
}

/// What follows an equation of a list at token `p`: the rest of the list
/// after a separator, or nothing.
pub open spec fn list_rest(src: Seq<char>, toks: Seq<Token>, p: int, positive: bool, sep: TokenKind) -> Option<
    (Seq<LitView>, int),
>
    decreases toks.len() - p, 1int,
{
    if 0 <= p < toks.len() && toks[p].kind == sep && sep != TokenKind::NoToken {
        eqn_list_spec(src, toks, p + 1, positive, sep)
    } else {
        Some((Seq::empty(), p))
    }
}

/// The literals of one side of a LOP clause: a list of equations where a
/// term starts at `i`, none otherwise.
pub open spec fn side_spec(src: Seq<char>, toks: Seq<Token>, i: int, positive: bool, sep: TokenKind) -> Option<
    (Seq<LitView>, int),
> {
    if 0 <= i < toks.len() && starts_term(toks[i].kind) {
        eqn_list_spec(src, toks, i, positive, sep)
    } else {
        Some((Seq::empty(), i))
    }
}

/// The tail of a LOP clause at token `p`: "<-" or ":-" and the negative
/// literals (at least one after ":-"), or nothing.
pub open spec fn lop_tail_spec(src: Seq<char>, toks: Seq<Token>, p: int) -> Option<(Seq<LitView>, int)> {
    if 0 <= p < toks.len() && (toks[p].kind == TokenKind::LesserSign || toks[p].kind == TokenKind::Colon) {
        if p + 1 < toks.len() && toks[p + 1].kind == TokenKind::Hyphen {
            match side_spec(src, toks, p + 2, false, TokenKind::Comma) {
                Some((neg, q)) => if toks[p].kind == TokenKind::Colon && neg.len() == 0 {
                    None
                } else {
                    Some((neg, q))
                },
                None => None,
            }
        } else {
            None
        }
    } else {
        Some((Seq::empty(), p))
    }
}

/// The clause in LOP syntax that starts at token `i`: its literals and
/// where it ends.
pub open spec fn lop_clause_spec(src: Seq<char>, toks: Seq<Token>, i: int) -> Option<(Seq<LitView>, int)> {
    match side_spec(src, toks, i, true, TokenKind::Semicolon) {
        None => None,
        Some((pos, p)) => match lop_tail_spec(src, toks, p) {
            None => None,
            Some((neg, q)) => if 0 <= q < toks.len() && toks[q].kind == TokenKind::Fullstop {
                Some((pos + neg, q + 1))
            } else {
                None
            },
        },
    }
}

/// The syntax error of an equation at token `i` (see `eqn_spec`).
pub open spec fn eqn_err(toks: Seq<Token>, i: int) -> (int, Seq<char>) {
    match term_end(toks, i) {
        None => term_err(toks, i),
        Some(e) => term_err(toks, e + 1),
    }
}

/// The syntax error of a list of equations at token `i` (see
/// `eqn_list_spec`).
pub open spec fn eqn_list_err(src: Seq<char>, toks: Seq<Token>, i: int, positive: bool, sep: TokenKind) -> (int, Seq<char>)
    decreases toks.len() - i, 0int,
{
    match eqn_spec(src, toks, i, positive) {
        None => eqn_err(toks, i),
        Some((l, e)) => if i < e <= toks.len() {
            list_rest_err(src, toks, e, positive, sep)
        } else {
            (e, Seq::empty())
        },
    }
}

/// The syntax error of what follows an equation of a list at token `p`
/// (see `list_rest`).
pub open spec fn list_rest_err(src: Seq<char>, toks: Seq<Token>, p: int, positive: bool, sep: TokenKind) -> (int, Seq<char>)
    decreases toks.len() - p, 1int,
{
    if 0 <= p < toks.len() && toks[p].kind == sep && sep != TokenKind::NoToken {
        eqn_list_err(src, toks, p + 1, positive, sep)
    } else {
        (p, Seq::empty())
    }
}

/// The syntax error of one side of a LOP clause at token `i` (see
/// `side_spec`).
pub open spec fn side_err(src: Seq<char>, toks: Seq<Token>, i: int, positive: bool, sep: TokenKind) -> (int, Seq<char>) {
    if 0 <= i < toks.len() && starts_term(toks[i].kind) {
        eqn_list_err(src, toks, i, positive, sep)
    } else {
        (i, Seq::empty())
    }
}

/// The message for a ":-" without literals after it.
pub open spec fn empty_tail_text() -> Seq<char> {
    "Procedural rule or query needs at least one tail literal (Hey! I did not make this  syntax! -StS)"@
}

/// The syntax error of the tail of a LOP clause at token `p` (see
/// `lop_tail_spec`).
pub open spec fn lop_tail_err(src: Seq<char>, toks: Seq<Token>, p: int) -> (int, Seq<char>) {
    if 0 <= p < toks.len() && (toks[p].kind == TokenKind::LesserSign || toks[p].kind == TokenKind::Colon) {
        if p + 1 < toks.len() && toks[p + 1].kind == TokenKind::Hyphen {
            match side_spec(src, toks, p + 2, false, TokenKind::Comma) {
                Some((neg, q)) => (q, empty_tail_text()),
                None => side_err(src, toks, p + 2, false, TokenKind::Comma),
            }
        } else {
            expected_at(toks, p + 1, seq![TokenKind::Hyphen])
        }
    } else {
        (p, Seq::empty())
    }
}

/// The syntax error of a clause in LOP syntax at token `i` (see
/// `lop_clause_spec`).
pub open spec fn lop_clause_err(src: Seq<char>, toks: Seq<Token>, i: int) -> (int, Seq<char>) {
    match side_spec(src, toks, i, true, TokenKind::Semicolon) {
        None => side_err(src, toks, i, true, TokenKind::Semicolon),
        Some((pos, p)) => match lop_tail_spec(src, toks, p) {
            None => lop_tail_err(src, toks, p),
            Some((neg, q)) => expected_at(toks, q, seq![TokenKind::Fullstop]),
        },
    }
}

/// Equations, lists of them and sides of a LOP clause end within the
/// tokens, after they start.
pub proof fn lemma_eqn_bounds(src: Seq<char>, toks: Seq<Token>, i: int, positive: bool, sep: TokenKind)
    ensures
        eqn_spec(src, toks, i, positive) matches Some((l, e)) ==> i < e <= toks.len(),
        eqn_list_spec(src, toks, i, positive, sep) matches Some((ls, e)) ==> i < e <= toks.len(),
        list_rest(src, toks, i, positive, sep) matches Some((ls, e)) ==> i <= e <= toks.len() || i > toks.len(),
        side_spec(src, toks, i, positive, sep) matches Some((ls, e)) ==> i <= e,
    decreases toks.len() - i,
{
    lemma_term_end_bounds(toks, i);
    match term_end(toks, i) {
        Some(e) => {
            lemma_term_end_bounds(toks, e + 1);
        },
        None => {},
    }
    match eqn_spec(src, toks, i, positive) {
        Some((l, e)) => if i < e <= toks.len() {
            lemma_eqn_bounds(src, toks, e, positive, sep);
        },
        None => {},
    }
    if 0 <= i < toks.len() && toks[i].kind == sep && sep != TokenKind::NoToken {
        lemma_eqn_bounds(src, toks, i + 1, positive, sep);
    }
}

/// A literal's equation: a term, and after '=' a second term.
pub fn parse_eqn(r: &mut Reader, positive: bool) -> (res: Result<Literal, Diagnostic>)
    requires
        reader_ok(old(r)),
    ensures
        moved_on(old(r), final(r)),
        res matches Ok(l) ==> old(r).pos < final(r).pos && l.positive == positive,
        res matches Err(d) ==> d.code == ErrorCode::Syntax,
        match eqn_spec(old(r).src@, old(r).toks@, old(r).pos as int, positive) {
            Some((l, e)) => (res matches Ok(x) && x.view() == l) && final(r).pos == e,
            None => res is Err,
        },
        res matches Err(d) ==> error_is(d, old(r), eqn_err(old(r).toks@, old(r).pos as int)),
{
    let lhs = match parse_term(r) {
        Ok(t) => t,
        Err(d) => {
            return Err(d);
        },
    };
    if r.kind() == TokenKind::EqualSign {
        r.advance();
        match parse_term(r) {
            Ok(t) => Ok(Literal { positive, lhs, rhs: Some(t) }),
            Err(d) => Err(d),
        }
    } else {
        Ok(Literal { positive, lhs, rhs: None })
    }
}

/// Equations of one sign separated by `sep`, appended to `ls` (see
/// `eqn_list_spec`).
#[verifier::rlimit(40)]
fn parse_eqn_list(r: &mut Reader, positive: bool, sep: TokenKind, ls: &mut Vec<Literal>) -> (res: Result<(), Diagnostic>)
    requires
        reader_ok(old(r)),
    ensures
        moved_on(old(r), final(r)),
        res matches Err(d) ==> d.code == ErrorCode::Syntax,
        res is Ok ==> old(ls)@.len() <= final(ls)@.len(),
        match eqn_list_spec(old(r).src@, old(r).toks@, old(r).pos as int, positive, sep) {
            Some((v, e)) => res is Ok && lits_view(final(ls)@) == lits_view(old(ls)@) + v && final(r).pos == e,
            None => res is Err,
        },
        res matches Err(d) ==> error_is(d, old(r), eqn_list_err(old(r).src@, old(r).toks@, old(r).pos as int, positive, sep)),
{
    let ghost i0 = r.pos as int;
    let ghost src = r.src@;
    let ghost toks = r.toks@;
    proof {
        lemma_eqn_bounds(src, toks, i0, positive, sep);
    }
    let l = match parse_eqn(r, positive) {
        Ok(l) => l,
        Err(d) => {
            return Err(d);
        },
    };
    let ghost base = lits_view(ls@);
    ls.push(l);
    proof {
        assert(lits_view(ls@) =~= base + seq![l.view()]);
        assert(eqn_list_spec(src, toks, i0, positive, sep) == with_prefix(seq![l.view()], list_rest(src, toks, r.pos as int, positive, sep)));
        assert(eqn_list_err(src, toks, i0, positive, sep) == list_rest_err(src, toks, r.pos as int, positive, sep));
    }
    let ghost mut acc: Seq<LitView> = seq![l.view()];
    while r.kind() == sep && sep != TokenKind::NoToken
        invariant
            reader_ok(r),
            moved_on(old(r), r),
            old(ls)@.len() <= ls@.len(),
            r.src@ == src,
            r.toks@ == toks,
            src == old(r).src@,
            toks == old(r).toks@,
            i0 == old(r).pos as int,
            base == lits_view(old(ls)@),
            lits_view(ls@) == base + acc,
            eqn_list_spec(src, toks, i0, positive, sep) == with_prefix(acc, list_rest(src, toks, r.pos as int, positive, sep)),
            eqn_list_err(src, toks, i0, positive, sep) == list_rest_err(src, toks, r.pos as int, positive, sep),
        decreases r.toks.len() - r.pos,
    {
        let ghost p = r.pos as int;
        r.advance();
        proof {
            lemma_eqn_bounds(src, toks, p + 1, positive, sep);
            assert(list_rest(src, toks, p, positive, sep) == eqn_list_spec(src, toks, p + 1, positive, sep));
            assert(list_rest_err(src, toks, p, positive, sep) == eqn_list_err(src, toks, p + 1, positive, sep));
        }
        let l = match parse_eqn(r, positive) {
            Ok(l) => l,
            Err(d) => {
                proof {
                    assert(eqn_spec(src, toks, p + 1, positive) is None);
                    assert(eqn_list_spec(src, toks, p + 1, positive, sep) is None);
                    assert(with_prefix(acc, list_rest(src, toks, p, positive, sep)) is None);
                }
                return Err(d);
            },
        };
        let ghost before = lits_view(ls@);
        ls.push(l);
        proof {
            let rest = list_rest(src, toks, r.pos as int, positive, sep);
            assert(lits_view(ls@) =~= before + seq![l.view()]);
            assert(lits_view(ls@) =~= base + (acc + seq![l.view()]));
            match rest {
                Some((v, e)) => {
                    assert(acc + (seq![l.view()] + v) =~= (acc + seq![l.view()]) + v);
                },
                None => {},
            }
            acc = acc + seq![l.view()];
        }
    }
    proof {
        assert(acc + Seq::<LitView>::empty() =~= acc);
    }
    Ok(())
}

/// Whether the current token can start a clause in LOP syntax.
pub fn lop_clause_starts(r: &Reader) -> (b: bool)
    requires
        reader_ok(r),
    ensures
        b == (starts_term(r.toks@[r.pos as int].kind) || r.toks@[r.pos as int].kind
            == TokenKind::LesserSign || r.toks@[r.pos as int].kind == TokenKind::Colon),
{
    let k = r.kind();
    is_term_start(k) || k == TokenKind::LesserSign || k == TokenKind::Colon
}

/// A clause in LOP syntax: positive literals separated by ';', then
/// optionally "<-" or ":-" and negative literals separated by ',', and a
/// full stop. A ":-" needs at least one literal after it.
pub fn parse_lop_clause(r: &mut Reader) -> (res: Result<Vec<Literal>, Diagnostic>)
    requires
        reader_ok(old(r)),
    ensures
        moved_on(old(r), final(r)),
        res is Ok ==> old(r).pos < final(r).pos,
        res matches Err(d) ==> d.code == ErrorCode::Syntax,
        match lop_clause_spec(old(r).src@, old(r).toks@, old(r).pos as int) {
            Some((v, e)) => (res matches Ok(x) && lits_view(x@) == v) && final(r).pos == e,
            None => res is Err,
        },
        res matches Err(d) ==> error_is(d, old(r), lop_clause_err(old(r).src@, old(r).toks@, old(r).pos as int)),
{
    let ghost src = r.src@;
    let ghost toks = r.toks@;
    let ghost i0 = r.pos as int;
    let mut ls: Vec<Literal> = Vec::new();
    let start = r.pos;
    proof {
        lemma_eqn_bounds(src, toks, i0, true, TokenKind::Semicolon);
        assert(lits_view(ls@) =~= Seq::<LitView>::empty());
    }
    if is_term_start(r.kind()) {
        match parse_eqn_list(r, true, TokenKind::Semicolon, &mut ls) {
            Ok(()) => {},
            Err(d) => {
                return Err(d);
            },
        }
        proof {
            assert(Seq::<LitView>::empty() + lits_view(ls@) =~= lits_view(ls@));
        }
    }
    let ghost pos_lits = lits_view(ls@);
    let ghost p = r.pos as int;
    proof {
        assert(side_spec(src, toks, i0, true, TokenKind::Semicolon) == Some((pos_lits, p)));
    }
    match parse_lop_tail(r, &mut ls) {
        Ok(()) => {},
        Err(d) => {
            return Err(d);
        },
    }
    if r.kind() != TokenKind::Fullstop {
        let v = vec![TokenKind::Fullstop];
        return Err(expected_error(r, &v));
    }
    r.advance();
    if r.pos <= start {
        return Err(r.error("Clause expected"));
    }
    Ok(ls)
}

/// The tail of a LOP clause (see `lop_tail_spec`), its literals appended
/// to `ls`.
fn parse_lop_tail(r: &mut Reader, ls: &mut Vec<Literal>) -> (res: Result<(), Diagnostic>)
    requires
        reader_ok(old(r)),
    ensures
        moved_on(old(r), final(r)),
        res matches Err(d) ==> d.code == ErrorCode::Syntax,
        match lop_tail_spec(old(r).src@, old(r).toks@, old(r).pos as int) {
            Some((v, e)) => res is Ok && lits_view(final(ls)@) == lits_view(old(ls)@) + v && final(r).pos == e,
            None => res is Err,
        },
        res matches Err(d) ==> error_is(d, old(r), lop_tail_err(old(r).src@, old(r).toks@, old(r).pos as int)),
{
    let ghost src = r.src@;
    let ghost toks = r.toks@;
    let ghost p = r.pos as int;
    let ghost base = lits_view(ls@);
    let k = r.kind();
    if k == TokenKind::LesserSign || k == TokenKind::Colon {
        let procedural = k == TokenKind::Colon;
        r.advance();
        if r.kind() != TokenKind::Hyphen {
            let v = vec![TokenKind::Hyphen];
            return Err(expected_error(r, &v));
        }
        r.advance();
        let before = ls.len();
        proof {
            lemma_eqn_bounds(src, toks, p + 2, false, TokenKind::Comma);
        }
        if is_term_start(r.kind()) {
            match parse_eqn_list(r, false, TokenKind::Comma, ls) {
                Ok(()) => {},
                Err(d) => {
                    return Err(d);
                },
            }
        }
        proof {
            let neg = lits_view(ls@).subrange(before as int, ls@.len() as int);
            assert(lits_view(ls@) =~= base + neg);
            assert(Seq::<LitView>::empty() + neg =~= neg);
            assert(side_spec(src, toks, p + 2, false, TokenKind::Comma) == Some((neg, r.pos as int)));
        }
        if procedural && ls.len() == before {
            return Err(
                r.error(
                    "Procedural rule or query needs at least one tail literal (Hey! I did not make this  syntax! -StS)",
                ),
            );
        }
    } else {
        proof {
            assert(lits_view(ls@) =~= base + Seq::<LitView>::empty());
        }
    }
    Ok(())
}

/// Whether the current token is an identifier with the given text.
pub fn at_identifier(r: &Reader, name: &str) -> (b: bool)
    requires
        reader_ok(r),
    ensures
        b == ((r.toks@[r.pos as int].kind == TokenKind::Ident || r.toks@[r.pos as int].kind
            == TokenKind::Idnum) && lit_of(r.src@, r.toks@[r.pos as int]) == name@),
{
    let k = r.kind();
    if k != TokenKind::Ident && k != TokenKind::Idnum {
        return false;
    }
    let l = r.lit();
    same_text(l.as_str(), name)
}

fn expect_token(r: &mut Reader, k: TokenKind) -> (res: Result<(), Diagnostic>)
    requires
        reader_ok(old(r)),
    ensures
        moved_on(old(r), final(r)),
        res is Ok ==> old(r).toks@[old(r).pos as int].kind == k && final(r).pos == old(r).pos + 1,
        res matches Err(d) ==> d.code == ErrorCode::Syntax && final(r).pos == old(r).pos,
        res is Ok <==> (old(r).toks@[old(r).pos as int].kind == k && k != TokenKind::NoToken),
        res matches Err(d) ==> error_is(d, old(r), expected_at(old(r).toks@, old(r).pos as int, seq![k])),
{
    if r.kind() != k || k == TokenKind::NoToken {
        let v = vec![k];
        return Err(expected_error(r, &v));
    }
    r.advance();
    Ok(())
}

/// Whether token `j` is an identifier with the text `name`.
pub open spec fn ident_at(src: Seq<char>, toks: Seq<Token>, j: int, name: Seq<char>) -> bool {
    0 <= j < toks.len() && (toks[j].kind == TokenKind::Ident || toks[j].kind == TokenKind::Idnum) && lit_of(
        src,
        toks[j],
    ) == name
}

/// The arguments of `equal(s,t)` from token `j` on (after the opening
/// bracket): the equation `s=t` and where the closing bracket ends it.
pub open spec fn equal_args_spec(src: Seq<char>, toks: Seq<Token>, j: int, positive: bool) -> Option<(LitView, int)> {
    match term_end(toks, j) {
        Some(e1) => if e1 < toks.len() && toks[e1].kind == TokenKind::Comma {
            match term_end(toks, e1 + 1) {
                Some(e2) => if e2 < toks.len() && toks[e2].kind == TokenKind::CloseBracket {
                    Some(
                        (
                            LitView {
                                positive,
                                lhs: tokens_text(src, toks, j, e1),
                                rhs: Some(tokens_text(src, toks, e1 + 1, e2)),
                            },
                            e2 + 1,
                        ),
                    )
                } else {
                    None
                },
                None => None,
            }
        } else {
            None
        },
        None => None,
    }
}

/// The atom of a TPTP-2 literal at token `j`: `equal(s,t)` is the equation
/// `s=t`, any other term an atom.
pub open spec fn tptp_atom_spec(src: Seq<char>, toks: Seq<Token>, j: int, positive: bool) -> Option<(LitView, int)> {
    if ident_at(src, toks, j, "equal"@) && j + 1 < toks.len() && toks[j + 1].kind == TokenKind::OpenBracket {
        equal_args_spec(src, toks, j + 2, positive)
    } else {
        match term_end(toks, j) {
            Some(e) => Some((LitView { positive, lhs: tokens_text(src, toks, j, e), rhs: None }, e)),
            None => None,
        }
    }
}

/// The TPTP-2 literal that starts at token `i` ("++" or "--" and an atom),
/// and where it ends.
pub open spec fn tptp_literal_spec(src: Seq<char>, toks: Seq<Token>, i: int) -> Option<(LitView, int)> {
    if !(0 <= i && i + 1 < toks.len()) {
        None
    } else {
        let k = toks[i].kind;
        let positive = k == TokenKind::Plus;
        if (positive && toks[i + 1].kind == TokenKind::Plus) || (k == TokenKind::Hyphen && toks[i + 1].kind
            == TokenKind::Hyphen) {
            tptp_atom_spec(src, toks, i + 2, positive)
        } else {
            None
        }
    }
}

/// TPTP-2 literals separated by commas, from token `p` on.
pub open spec fn tptp_lits_spec(src: Seq<char>, toks: Seq<Token>, p: int) -> Option<(Seq<LitView>, int)>
    decreases toks.len() - p, 0int,
{
    match tptp_literal_spec(src, toks, p) {
        Some((l, e)) => if p < e <= toks.len() {
            with_prefix(seq![l], tptp_lits_rest(src, toks, e))
        } else {
            None
        },
        None => None,
    }
}

/// What follows a TPTP-2 literal at token `e`: more literals after a
/// comma, or nothing.
pub open spec fn tptp_lits_rest(src: Seq<char>, toks: Seq<Token>, e: int) -> Option<(Seq<LitView>, int)>
    decreases toks.len() - e, 1int,
{
    if 0 <= e < toks.len() && toks[e].kind == TokenKind::Comma {
        tptp_lits_spec(src, toks, e + 1)
    } else {
        Some((Seq::empty(), e))
    }
}

/// Whether `input_clause(name, type, [` starts at token `i`.
pub open spec fn tptp_header_ok(src: Seq<char>, toks: Seq<Token>, i: int) -> bool {
    &&& ident_at(src, toks, i, "input_clause"@)
    &&& i + 6 < toks.len()
    &&& toks[i + 1].kind == TokenKind::OpenBracket
    &&& (toks[i + 2].kind == TokenKind::Ident || toks[i + 2].kind == TokenKind::Idnum || toks[i + 2].kind
        == TokenKind::PosInt)
    &&& toks[i + 3].kind == TokenKind::Comma
    &&& toks[i + 4].kind == TokenKind::Ident
    &&& toks[i + 5].kind == TokenKind::Comma
    &&& toks[i + 6].kind == TokenKind::OpenSquare
}

/// The literals of an `input_clause` from token `p` on (after its opening
/// square bracket) and where `]).` ends them.
pub open spec fn tptp_body_spec(src: Seq<char>, toks: Seq<Token>, p: int) -> Option<(Seq<LitView>, int)> {
    let body: Option<(Seq<LitView>, int)> = if 0 <= p < toks.len() && toks[p].kind == TokenKind::CloseSquare {
        Some((Seq::empty(), p))
    } else {
        tptp_lits_spec(src, toks, p)
    };
    match body {
        Some((ls, q)) => if 0 <= q && q + 2 < toks.len() && toks[q].kind == TokenKind::CloseSquare && toks[q
            + 1].kind == TokenKind::CloseBracket && toks[q + 2].kind == TokenKind::Fullstop {
            Some((ls, q + 3))
        } else {
            None
        },
        None => None,
    }
}

/// The `input_clause(name, type, [literals]).` that starts at token `i`:
/// its literals and where it ends.
pub open spec fn tptp_clause_spec(src: Seq<char>, toks: Seq<Token>, i: int) -> Option<(Seq<LitView>, int)> {
    if tptp_header_ok(src, toks, i) {
        tptp_body_spec(src, toks, i + 7)
    } else {
        None
    }
}

/// The syntax error of the arguments of `equal(s,t)` at token `j` (see
/// `equal_args_spec`).
pub open spec fn equal_args_err(toks: Seq<Token>, j: int) -> (int, Seq<char>) {
    match term_end(toks, j) {
        None => term_err(toks, j),
        Some(e1) => if kind_at(toks, e1) != TokenKind::Comma {
            expected_at(toks, e1, seq![TokenKind::Comma])
        } else {
            match term_end(toks, e1 + 1) {
                None => term_err(toks, e1 + 1),
                Some(e2) => expected_at(toks, e2, seq![TokenKind::CloseBracket]),
            }
        },
    }
}

/// The syntax error of the atom of a TPTP-2 literal at token `j` (see
/// `tptp_atom_spec`).
pub open spec fn tptp_atom_err(src: Seq<char>, toks: Seq<Token>, j: int) -> (int, Seq<char>) {
    if ident_at(src, toks, j, "equal"@) && j + 1 < toks.len() && toks[j + 1].kind == TokenKind::OpenBracket {
        equal_args_err(toks, j + 2)
    } else {
        term_err(toks, j)
    }
}

/// The syntax error of a TPTP-2 literal at token `i` (see
/// `tptp_literal_spec`).
pub open spec fn tptp_literal_err(src: Seq<char>, toks: Seq<Token>, i: int) -> (int, Seq<char>) {
    let sign = if kind_at(toks, i) == TokenKind::Plus {
        TokenKind::Plus
    } else {
        TokenKind::Hyphen
    };
    if kind_at(toks, i) != sign {
        expected_at(toks, i, seq![sign])
    } else if kind_at(toks, i + 1) != sign {
        expected_at(toks, i + 1, seq![sign])
    } else {
        tptp_atom_err(src, toks, i + 2)
    }
}

/// The syntax error of TPTP-2 literals from token `p` on (see
/// `tptp_lits_spec`).
pub open spec fn tptp_lits_err(src: Seq<char>, toks: Seq<Token>, p: int) -> (int, Seq<char>)
    decreases toks.len() - p, 0int,
{
    match tptp_literal_spec(src, toks, p) {
        None => tptp_literal_err(src, toks, p),
        Some((l, e)) => if p < e <= toks.len() {
            tptp_lits_rest_err(src, toks, e)
        } else {
            (e, Seq::empty())
        },
    }
}

/// The syntax error of what follows a TPTP-2 literal at token `e` (see
/// `tptp_lits_rest`).
pub open spec fn tptp_lits_rest_err(src: Seq<char>, toks: Seq<Token>, e: int) -> (int, Seq<char>)
    decreases toks.len() - e, 1int,
{
    if 0 <= e < toks.len() && toks[e].kind == TokenKind::Comma {
        tptp_lits_err(src, toks, e + 1)
    } else {
        (e, Seq::empty())
    }
}

/// The syntax error of the head `input_clause(name, type, [` at token `i`
/// (see `tptp_header_ok`).
pub open spec fn tptp_header_err(src: Seq<char>, toks: Seq<Token>, i: int) -> (int, Seq<char>) {
    if !ident_at(src, toks, i, "input_clause"@) {
        (i, "input_clause expected"@)
    } else if kind_at(toks, i + 1) != TokenKind::OpenBracket {
        expected_at(toks, i + 1, seq![TokenKind::OpenBracket])
    } else if !(kind_at(toks, i + 2) == TokenKind::Ident || kind_at(toks, i + 2) == TokenKind::Idnum || kind_at(
        toks,
        i + 2,
    ) == TokenKind::PosInt) {
        expected_at(toks, i + 2, seq![TokenKind::Ident, TokenKind::Idnum, TokenKind::PosInt])
    } else if kind_at(toks, i + 3) != TokenKind::Comma {
        expected_at(toks, i + 3, seq![TokenKind::Comma])
    } else if kind_at(toks, i + 4) != TokenKind::Ident {
        expected_at(toks, i + 4, seq![TokenKind::Ident])
    } else if kind_at(toks, i + 5) != TokenKind::Comma {
        expected_at(toks, i + 5, seq![TokenKind::Comma])
    } else {
        expected_at(toks, i + 6, seq![TokenKind::OpenSquare])
    }
}

/// The syntax error of the literals and the closing `]).` of a TPTP-2
/// clause at token `p` (see `tptp_body_spec`).
pub open spec fn tptp_body_err(src: Seq<char>, toks: Seq<Token>, p: int) -> (int, Seq<char>) {
    let body: Option<(Seq<LitView>, int)> = if 0 <= p < toks.len() && toks[p].kind == TokenKind::CloseSquare {
        Some((Seq::empty(), p))
    } else {
        tptp_lits_spec(src, toks, p)
    };
    match body {
        None => tptp_lits_err(src, toks, p),
        Some((ls, q)) => if kind_at(toks, q) != TokenKind::CloseSquare {
            expected_at(toks, q, seq![TokenKind::CloseSquare])
        } else if kind_at(toks, q + 1) != TokenKind::CloseBracket {
            expected_at(toks, q + 1, seq![TokenKind::CloseBracket])
        } else {
            expected_at(toks, q + 2, seq![TokenKind::Fullstop])
        },
    }
}

/// The syntax error of an `input_clause` at token `i` (see
/// `tptp_clause_spec`).
pub open spec fn tptp_clause_err(src: Seq<char>, toks: Seq<Token>, i: int) -> (int, Seq<char>) {
    if !tptp_header_ok(src, toks, i) {
        tptp_header_err(src, toks, i)
    } else {
        tptp_body_err(src, toks, i + 7)
    }
}

/// The parts of a TPTP-2 clause end within the tokens, after they start.
pub proof fn lemma_tptp_bounds(src: Seq<char>, toks: Seq<Token>, p: int)
    ensures
        equal_args_spec(src, toks, p, true) matches Some((l, e)) ==> p < e <= toks.len(),
        equal_args_spec(src, toks, p, false) matches Some((l, e)) ==> p < e <= toks.len(),
        tptp_atom_spec(src, toks, p, true) matches Some((l, e)) ==> p < e <= toks.len(),
        tptp_atom_spec(src, toks, p, false) matches Some((l, e)) ==> p < e <= toks.len(),
        tptp_literal_spec(src, toks, p) matches Some((l, e)) ==> p < e <= toks.len(),
        tptp_lits_spec(src, toks, p) matches Some((ls, e)) ==> p < e <= toks.len(),
        tptp_lits_rest(src, toks, p) matches Some((ls, e)) ==> p <= e <= toks.len() || p > toks.len() || p < 0,
    decreases toks.len() - p,
{
    lemma_term_end_bounds(toks, p);
    lemma_term_end_bounds(toks, p + 2);
    lemma_term_end_bounds(toks, p + 4);
    match term_end(toks, p) {
        Some(e1) => lemma_term_end_bounds(toks, e1 + 1),
        None => {},
    }
    match term_end(toks, p + 2) {
        Some(e1) => lemma_term_end_bounds(toks, e1 + 1),
        None => {},
    }
    match term_end(toks, p + 4) {
        Some(e1) => lemma_term_end_bounds(toks, e1 + 1),
        None => {},
    }
    match tptp_literal_spec(src, toks, p) {
        Some((l, e)) => if p < e <= toks.len() {
            lemma_tptp_bounds(src, toks, e);
        },
        None => {},
    }
    if 0 <= p < toks.len() && toks[p].kind == TokenKind::Comma {
        lemma_tptp_bounds(src, toks, p + 1);
    }
}

/// A literal of TPTP-2: "++" or "--" and an atom; `equal(s,t)` is the
/// equation `s=t`.
fn parse_tptp_literal(r: &mut Reader) -> (res: Result<Literal, Diagnostic>)
    requires
        reader_ok(old(r)),
    ensures
        moved_on(old(r), final(r)),
        res is Ok ==> old(r).pos < final(r).pos,
        res matches Err(d) ==> d.code == ErrorCode::Syntax,
        match tptp_literal_spec(old(r).src@, old(r).toks@, old(r).pos as int) {
            Some((l, e)) => (res matches Ok(x) && x.view() == l) && final(r).pos == e,
            None => res is Err,
        },
        res matches Err(d) ==> error_is(d, old(r), tptp_literal_err(old(r).src@, old(r).toks@, old(r).pos as int)),
{
    proof {
        lemma_tptp_bounds(r.src@, r.toks@, r.pos + 2);
    }
    let positive = r.kind() == TokenKind::Plus;
    if positive {
        match expect_token(r, TokenKind::Plus) { Ok(()) => {}, Err(d) => { return Err(d); } }
        match expect_token(r, TokenKind::Plus) { Ok(()) => {}, Err(d) => { return Err(d); } }
    } else {
        match expect_token(r, TokenKind::Hyphen) { Ok(()) => {}, Err(d) => { return Err(d); } }
        match expect_token(r, TokenKind::Hyphen) { Ok(()) => {}, Err(d) => { return Err(d); } }
    }
    parse_tptp_atom(r, positive)
}

/// The atom of a TPTP-2 literal (see `tptp_atom_spec`).
fn parse_tptp_atom(r: &mut Reader, positive: bool) -> (res: Result<Literal, Diagnostic>)
    requires
        reader_ok(old(r)),
    ensures
        moved_on(old(r), final(r)),
        res matches Err(d) ==> d.code == ErrorCode::Syntax,
        match tptp_atom_spec(old(r).src@, old(r).toks@, old(r).pos as int, positive) {
            Some((l, e)) => (res matches Ok(x) && x.view() == l) && final(r).pos == e,
            None => res is Err,
        },
        res matches Err(d) ==> error_is(d, old(r), tptp_atom_err(old(r).src@, old(r).toks@, old(r).pos as int)),
{
    proof {
        reveal_strlit("equal");
    }
    if at_identifier(r, "equal") {
        let save = r.pos;
        r.advance();
        if r.kind() == TokenKind::OpenBracket {
            r.advance();
            return parse_equal_args(r, positive);
        }
        r.pos = save;
    }
    match parse_term(r) {
        Ok(t) => Ok(Literal { positive, lhs: t, rhs: None }),
        Err(d) => Err(d),
    }
}

/// The arguments of `equal(s,t)` after the opening bracket (see
/// `equal_args_spec`).
fn parse_equal_args(r: &mut Reader, positive: bool) -> (res: Result<Literal, Diagnostic>)
    requires
        reader_ok(old(r)),
    ensures
        moved_on(old(r), final(r)),
        res matches Err(d) ==> d.code == ErrorCode::Syntax,
        match equal_args_spec(old(r).src@, old(r).toks@, old(r).pos as int, positive) {
            Some((l, e)) => (res matches Ok(x) && x.view() == l) && final(r).pos == e,
            None => res is Err,
        },
        res matches Err(d) ==> error_is(d, old(r), equal_args_err(old(r).toks@, old(r).pos as int)),
{
    let lhs = match parse_term(r) { Ok(t) => t, Err(d) => { return Err(d); } };
    match expect_token(r, TokenKind::Comma) { Ok(()) => {}, Err(d) => { return Err(d); } }
    let rhs = match parse_term(r) { Ok(t) => t, Err(d) => { return Err(d); } };
    match expect_token(r, TokenKind::CloseBracket) { Ok(()) => {}, Err(d) => { return Err(d); } }
    Ok(Literal { positive, lhs, rhs: Some(rhs) })
}

/// TPTP-2 literals separated by commas (see `tptp_lits_spec`).
fn parse_tptp_lits(r: &mut Reader, ls: &mut Vec<Literal>) -> (res: Result<(), Diagnostic>)
    requires
        reader_ok(old(r)),
        old(ls)@.len() == 0,
    ensures
        moved_on(old(r), final(r)),
        res matches Err(d) ==> d.code == ErrorCode::Syntax,
        match tptp_lits_spec(old(r).src@, old(r).toks@, old(r).pos as int) {
            Some((v, e)) => res is Ok && lits_view(final(ls)@) == v && final(r).pos == e,
            None => res is Err,
        },
        res matches Err(d) ==> error_is(d, old(r), tptp_lits_err(old(r).src@, old(r).toks@, old(r).pos as int)),
{
    let ghost i0 = r.pos as int;
    let ghost src = r.src@;
    let ghost toks = r.toks@;
    proof {
        lemma_tptp_bounds(src, toks, i0);
    }
    let l = match parse_tptp_literal(r) {
        Ok(l) => l,
        Err(d) => {
            return Err(d);
        },
    };
    ls.push(l);
    let ghost mut acc: Seq<LitView> = seq![l.view()];
    proof {
        assert(lits_view(ls@) =~= acc);
        assert(tptp_lits_spec(src, toks, i0) == with_prefix(acc, tptp_lits_rest(src, toks, r.pos as int)));
        assert(tptp_lits_err(src, toks, i0) == tptp_lits_rest_err(src, toks, r.pos as int));
    }
    while r.kind() == TokenKind::Comma
        invariant
            reader_ok(r),
            moved_on(old(r), r),
            r.src@ == src,
            r.toks@ == toks,
            src == old(r).src@,
            toks == old(r).toks@,
            i0 == old(r).pos as int,
            lits_view(ls@) == acc,
            tptp_lits_spec(src, toks, i0) == with_prefix(acc, tptp_lits_rest(src, toks, r.pos as int)),
            tptp_lits_err(src, toks, i0) == tptp_lits_rest_err(src, toks, r.pos as int),
        decreases r.toks.len() - r.pos,
    {
        let ghost p = r.pos as int;
        r.advance();
        proof {
            lemma_tptp_bounds(src, toks, p + 1);
            assert(tptp_lits_rest(src, toks, p) == tptp_lits_spec(src, toks, p + 1));
            assert(tptp_lits_rest_err(src, toks, p) == tptp_lits_err(src, toks, p + 1));
        }
        let l = match parse_tptp_literal(r) {
            Ok(l) => l,
            Err(d) => {
                proof {
                    assert(tptp_lits_spec(src, toks, p + 1) is None);
                    assert(with_prefix(acc, tptp_lits_rest(src, toks, p)) is None);
                }
                return Err(d);
            },
        };
        let ghost before = lits_view(ls@);
        ls.push(l);
        proof {
            let rest = tptp_lits_rest(src, toks, r.pos as int);
            assert(lits_view(ls@) =~= before + seq![l.view()]);
            match rest {
                Some((v, e)) => {
                    assert(acc + (seq![l.view()] + v) =~= (acc + seq![l.view()]) + v);
                },
                None => {},
            }
            acc = acc + seq![l.view()];
        }
    }
    proof {
        assert(acc + Seq::<LitView>::empty() =~= acc);
    }
    Ok(())
}

/// The head `input_clause(name, type, [` of a TPTP-2 clause.
fn parse_tptp_header(r: &mut Reader) -> (res: Result<(), Diagnostic>)
    requires
        reader_ok(old(r)),
    ensures
        moved_on(old(r), final(r)),
        res matches Err(d) ==> d.code == ErrorCode::Syntax,
        res is Ok <==> tptp_header_ok(old(r).src@, old(r).toks@, old(r).pos as int),
        res is Ok ==> final(r).pos == old(r).pos + 7,
        res matches Err(d) ==> error_is(d, old(r), tptp_header_err(old(r).src@, old(r).toks@, old(r).pos as int)),
{
    proof {
        reveal_strlit("input_clause");
    }
    if !at_identifier(r, "input_clause") {
        return Err(r.error("input_clause expected"));
    }
    r.advance();
    match expect_token(r, TokenKind::OpenBracket) { Ok(()) => {}, Err(d) => { return Err(d); } }
    let k = r.kind();
    if k == TokenKind::Ident || k == TokenKind::Idnum || k == TokenKind::PosInt {
        r.advance();
    } else {
        let v = vec![TokenKind::Ident, TokenKind::Idnum, TokenKind::PosInt];
        return Err(expected_error(r, &v));
    }
    match expect_token(r, TokenKind::Comma) { Ok(()) => {}, Err(d) => { return Err(d); } }
    match expect_token(r, TokenKind::Ident) { Ok(()) => {}, Err(d) => { return Err(d); } }
    match expect_token(r, TokenKind::Comma) { Ok(()) => {}, Err(d) => { return Err(d); } }
    match expect_token(r, TokenKind::OpenSquare) { Ok(()) => {}, Err(d) => { return Err(d); } }
    Ok(())
}

/// The literals and the closing `]).` of a TPTP-2 clause (see
/// `tptp_body_spec`).
fn parse_tptp_body(r: &mut Reader) -> (res: Result<Vec<Literal>, Diagnostic>)
    requires
        reader_ok(old(r)),
    ensures
        moved_on(old(r), final(r)),
        res matches Err(d) ==> d.code == ErrorCode::Syntax,
        match tptp_body_spec(old(r).src@, old(r).toks@, old(r).pos as int) {
            Some((v, e)) => (res matches Ok(x) && lits_view(x@) == v) && final(r).pos == e,
            None => res is Err,
        },
        res matches Err(d) ==> error_is(d, old(r), tptp_body_err(old(r).src@, old(r).toks@, old(r).pos as int)),
{
    let mut ls: Vec<Literal> = Vec::new();
    if r.kind() != TokenKind::CloseSquare {
        match parse_tptp_lits(r, &mut ls) {
            Ok(()) => {},
            Err(d) => {
                return Err(d);
            },
        }
    } else {
        proof {
            assert(lits_view(ls@) =~= Seq::<LitView>::empty());
        }
    }
    match expect_token(r, TokenKind::CloseSquare) { Ok(()) => {}, Err(d) => { return Err(d); } }
    match expect_token(r, TokenKind::CloseBracket) { Ok(()) => {}, Err(d) => { return Err(d); } }
    match expect_token(r, TokenKind::Fullstop) { Ok(()) => {}, Err(d) => { return Err(d); } }
    Ok(ls)
}

/// A clause in the `input_clause(name, type, [literals]).` syntax of TPTP-2
/// (see `tptp_clause_spec`).
pub fn parse_tptp_clause(r: &mut Reader) -> (res: Result<Vec<Literal>, Diagnostic>)
    requires
        reader_ok(old(r)),
    ensures
        moved_on(old(r), final(r)),
        res is Ok ==> old(r).pos < final(r).pos,
        res matches Err(d) ==> d.code == ErrorCode::Syntax,
        match tptp_clause_spec(old(r).src@, old(r).toks@, old(r).pos as int) {
            Some((v, e)) => (res matches Ok(x) && lits_view(x@) == v) && final(r).pos == e,
            None => res is Err,
        },
        res matches Err(d) ==> error_is(d, old(r), tptp_clause_err(old(r).src@, old(r).toks@, old(r).pos as int)),
{
    proof {
        lemma_tptp_bounds(r.src@, r.toks@, r.pos + 7);
    }
    match parse_tptp_header(r) {
        Ok(()) => {},
        Err(d) => {
            return Err(d);
        },
    }
    parse_tptp_body(r)
}

} // verus!
