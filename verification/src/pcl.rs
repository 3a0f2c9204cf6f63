//! PCL proof protocols: steps of the form `id : properties : clause :
//! justification`, read from tokens and printed back.
use vstd::prelude::*;
use crate::clause::{Reader, reader_ok, moved_on, tokens_text, lemma_tokens_text_join, expected_error, parse_eqn, eqn_spec, eqn_err, with_prefix, Literal, LitView, lits_view, eqn_text, kind_at, expected_at, error_is};
use crate::diag::{Diagnostic, ErrorCode};
use crate::scanner::{Token, TokenKind};
use crate::text::{push_str, push_padded, pad_left, same_text};

verus! {

/// A step of a protocol; each part kept as its canonical text, the clause
/// as its literals.
pub struct PclStep {
    pub id: String,
    pub props: String,
    pub lits: Vec<Literal>,
    pub just: String,
}

/// The view of a step.
pub struct StepView {
    pub id: Seq<char>,
    pub props: Seq<char>,
    pub lits: Seq<LitView>,
    pub just: Seq<char>,
}

impl PclStep {
    pub open spec fn view(&self) -> StepView {
        StepView { id: self.id@, props: self.props@, lits: lits_view(self.lits@), just: self.just@ }
    }
}

/// The views of a sequence of steps.
pub open spec fn steps_view(s: Seq<PclStep>) -> Seq<StepView> {
    s.map_values(|x: PclStep| x@)
}

/// Where a step identifier that continues at token `j` ends: each full
/// stop followed by a number extends it.
pub open spec fn id_rest(toks: Seq<Token>, j: int) -> int
    decreases toks.len() - j,
{
    if 0 <= j && j + 1 < toks.len() && toks[j].kind == TokenKind::Fullstop && toks[j + 1].kind
        == TokenKind::PosInt {
        id_rest(toks, j + 2)
    } else {
        j
    }
}

/// Where the step identifier at token `i` ends: numbers joined by full
/// stops ("1", "4.2.7").
pub open spec fn pcl_id_end(toks: Seq<Token>, i: int) -> Option<int> {
    if kind_at(toks, i) == TokenKind::PosInt {
        Some(id_rest(toks, i + 1))
    } else {
        None
    }
}

/// The kinds of a name in a justification.
pub open spec fn is_just_name(k: TokenKind) -> bool {
    k == TokenKind::Ident || k == TokenKind::Idnum || k == TokenKind::SemIdent || k == TokenKind::SqString || k
        == TokenKind::DqString
}

/// Where the justification at token `i` ends: a step identifier or a name,
/// with optional arguments in brackets, or a list of them in square
/// brackets.
pub open spec fn pcl_expr_end(toks: Seq<Token>, i: int) -> Option<int>
    decreases toks.len() - i, 0int,
{
    if !(0 <= i < toks.len()) {
        None
    } else if toks[i].kind == TokenKind::OpenSquare {
        if kind_at(toks, i + 1) == TokenKind::CloseSquare {
            Some(i + 2)
        } else {
            pcl_list_end(toks, i + 1, TokenKind::CloseSquare)
        }
    } else {
        let head = if toks[i].kind == TokenKind::PosInt {
            Some(id_rest(toks, i + 1))
        } else if is_just_name(toks[i].kind) {
            Some(i + 1)
        } else {
            None
        };
        match head {
            None => None,
            Some(e) => if kind_at(toks, e) == TokenKind::OpenBracket && i < e < toks.len() {
                pcl_list_end(toks, e + 1, TokenKind::CloseBracket)
            } else {
                Some(e)
            },
        }
    }
}

/// Where the list of justifications that continues at token `j` ends:
/// after its closing token `close`.
pub open spec fn pcl_list_end(toks: Seq<Token>, j: int, close: TokenKind) -> Option<int>
    decreases toks.len() - j, 1int,
{
    if !(0 <= j < toks.len()) {
        None
    } else {
        match pcl_expr_end(toks, j) {
            None => None,
            Some(e) => if j < e < toks.len() {
                if toks[e].kind == TokenKind::Comma {
                    pcl_list_end(toks, e + 1, close)
                } else if toks[e].kind == close {
                    Some(e + 1)
                } else {
                    None
                }
            } else {
                None
            },
        }
    }
}

/// Whether a token kind is a property name.
pub open spec fn is_prop_name(k: TokenKind) -> bool {
    k == TokenKind::Ident || k == TokenKind::Idnum
}

/// Where the properties that continue at token `j` end: each comma must
/// be followed by a name.
pub open spec fn props_rest(toks: Seq<Token>, j: int) -> Option<int>
    decreases toks.len() - j,
{
    if kind_at(toks, j) == TokenKind::Comma {
        if is_prop_name(kind_at(toks, j + 1)) && 0 <= j {
            props_rest(toks, j + 2)
        } else {
            None
        }
    } else {
        Some(j)
    }
}

/// Where the properties of a step at token `i` end: names separated by
/// commas, possibly none.
pub open spec fn props_end(toks: Seq<Token>, i: int) -> Option<int> {
    if is_prop_name(kind_at(toks, i)) {
        props_rest(toks, i + 1)
    } else {
        Some(i)
    }
}

/// The literal of a PCL clause at token `i`: "++" or "--", then an
/// equation.
pub open spec fn pcl_literal_spec(src: Seq<char>, toks: Seq<Token>, i: int) -> Option<(LitView, int)> {
    let positive = kind_at(toks, i) == TokenKind::Plus;
    let sign = if positive {
        TokenKind::Plus
    } else {
        TokenKind::Hyphen
    };
    if kind_at(toks, i) == sign && kind_at(toks, i + 1) == sign {
        eqn_spec(src, toks, i + 2, positive)
    } else {
        None
    }
}

/// The literals of a PCL clause from token `p` on, separated by commas.
pub open spec fn pcl_lits_spec(src: Seq<char>, toks: Seq<Token>, p: int) -> Option<(Seq<LitView>, int)>
    decreases toks.len() - p,
{
    match pcl_literal_spec(src, toks, p) {
        None => None,
        Some((l, e)) => if p < e < toks.len() && toks[e].kind == TokenKind::Comma {
            with_prefix(seq![l], pcl_lits_spec(src, toks, e + 1))
        } else {
            Some((seq![l], e))
        },
    }
}

/// The head of a step at token `i`: its identifier, a colon, its
/// properties, a colon and an opening square bracket; where the
/// identifier and the properties end.
pub open spec fn step_head_spec(toks: Seq<Token>, i: int) -> Option<(int, int)> {
    match pcl_id_end(toks, i) {
        None => None,
        Some(a) => if kind_at(toks, a) != TokenKind::Colon {
            None
        } else {
            match props_end(toks, a + 1) {
                None => None,
                Some(b) => if kind_at(toks, b) != TokenKind::Colon || kind_at(toks, b + 1) != TokenKind::OpenSquare {
                    None
                } else {
                    Some((a, b))
                },
            }
        },
    }
}

/// The rest of a step from token `c` on: the literals, the closing square
/// bracket, a colon and the justification; the literals, where they end
/// and where the justification ends.
pub open spec fn step_tail_spec(src: Seq<char>, toks: Seq<Token>, c: int) -> Option<(Seq<LitView>, int, int)> {
    let lits = if kind_at(toks, c) == TokenKind::CloseSquare {
        Some((Seq::<LitView>::empty(), c))
    } else {
        pcl_lits_spec(src, toks, c)
    };
    match lits {
        None => None,
        Some((ls, d)) => if kind_at(toks, d) != TokenKind::CloseSquare || kind_at(toks, d + 1) != TokenKind::Colon {
            None
        } else {
            match pcl_expr_end(toks, d + 2) {
                None => None,
                Some(e) => Some((ls, d, e)),
            }
        },
    }
}

/// The step at token `i` and where it ends: identifier, properties, clause
/// in square brackets and justification, separated by colons.
pub open spec fn pcl_step_spec(src: Seq<char>, toks: Seq<Token>, i: int) -> Option<(StepView, int)> {
    match step_head_spec(toks, i) {
        None => None,
        Some((a, b)) => match step_tail_spec(src, toks, b + 2) {
            None => None,
            Some((ls, d, e)) => Some(
                (
                    StepView {
                        id: tokens_text(src, toks, i, a),
                        props: tokens_text(src, toks, a + 1, b),
                        lits: ls,
                        just: tokens_text(src, toks, d + 2, e),
                    },
                    e,
                ),
            ),
        },
    }
}

/// The kinds that can start a justification, in the order in which
/// messages list them.
pub open spec fn just_start_kinds() -> Seq<TokenKind> {
    seq![TokenKind::PosInt, TokenKind::Ident, TokenKind::Idnum, TokenKind::OpenSquare]
}

/// The syntax error of a justification at token `i` (see `pcl_expr_end`).
pub open spec fn pcl_expr_err(toks: Seq<Token>, i: int) -> (int, Seq<char>)
    decreases toks.len() - i, 0int,
{
    if !(0 <= i < toks.len()) {
        expected_at(toks, i, just_start_kinds())
    } else if toks[i].kind == TokenKind::OpenSquare {
        if kind_at(toks, i + 1) == TokenKind::CloseSquare {
            (i, Seq::empty())
        } else {
            pcl_list_err(toks, i + 1, TokenKind::CloseSquare)
        }
    } else {
        let head = if toks[i].kind == TokenKind::PosInt {
            Some(id_rest(toks, i + 1))
        } else if is_just_name(toks[i].kind) {
            Some(i + 1)
        } else {
            None
        };
        match head {
            None => expected_at(toks, i, just_start_kinds()),
            Some(e) => if kind_at(toks, e) == TokenKind::OpenBracket && i < e < toks.len() {
                pcl_list_err(toks, e + 1, TokenKind::CloseBracket)
            } else {
                (e, Seq::empty())
            },
        }
    }
}

/// The syntax error of a list of justifications at token `j` (see
/// `pcl_list_end`).
pub open spec fn pcl_list_err(toks: Seq<Token>, j: int, close: TokenKind) -> (int, Seq<char>)
    decreases toks.len() - j, 1int,
{
    if !(0 <= j < toks.len()) {
        (j, Seq::empty())
    } else {
        match pcl_expr_end(toks, j) {
            None => pcl_expr_err(toks, j),
            Some(e) => if j < e < toks.len() {
                if toks[e].kind == TokenKind::Comma {
                    pcl_list_err(toks, e + 1, close)
                } else {
                    expected_at(toks, e, seq![TokenKind::Comma, close])
                }
            } else {
                (e, Seq::empty())
            },
        }
    }
}

/// The syntax error of the properties that continue at token `j` (see
/// `props_rest`).
pub open spec fn props_rest_err(toks: Seq<Token>, j: int) -> (int, Seq<char>)
    decreases toks.len() - j,
{
    if kind_at(toks, j) == TokenKind::Comma {
        if is_prop_name(kind_at(toks, j + 1)) && 0 <= j {
            props_rest_err(toks, j + 2)
        } else {
            expected_at(toks, j + 1, seq![TokenKind::Ident, TokenKind::Idnum])
        }
    } else {
        (j, Seq::empty())
    }
}

/// The syntax error of the properties at token `i` (see `props_end`).
pub open spec fn props_err(toks: Seq<Token>, i: int) -> (int, Seq<char>) {
    if is_prop_name(kind_at(toks, i)) {
        props_rest_err(toks, i + 1)
    } else {
        (i, Seq::empty())
    }
}

/// The syntax error of a PCL literal at token `i` (see
/// `pcl_literal_spec`).
pub open spec fn pcl_literal_err(toks: Seq<Token>, i: int) -> (int, Seq<char>) {
    let sign = if kind_at(toks, i) == TokenKind::Plus {
        TokenKind::Plus
    } else {
        TokenKind::Hyphen
    };
    if kind_at(toks, i) != sign {
        expected_at(toks, i, seq![sign])
    } else if kind_at(toks, i + 1) != sign {
        expected_at(toks, i + 1, seq![sign])
    } else {
        eqn_err(toks, i + 2)
    }
}

/// The syntax error of the literals of a PCL clause at token `p` (see
/// `pcl_lits_spec`).
pub open spec fn pcl_lits_err(src: Seq<char>, toks: Seq<Token>, p: int) -> (int, Seq<char>)
    decreases toks.len() - p,
{
    match pcl_literal_spec(src, toks, p) {
        None => pcl_literal_err(toks, p),
        Some((l, e)) => if p < e < toks.len() && toks[e].kind == TokenKind::Comma {
            pcl_lits_err(src, toks, e + 1)
        } else {
            (e, Seq::empty())
        },
    }
}

/// The syntax error of the head of a step at token `i` (see
/// `step_head_spec`).
pub open spec fn step_head_err(toks: Seq<Token>, i: int) -> (int, Seq<char>) {
    match pcl_id_end(toks, i) {
        None => expected_at(toks, i, seq![TokenKind::PosInt]),
        Some(a) => if kind_at(toks, a) != TokenKind::Colon {
            expected_at(toks, a, seq![TokenKind::Colon])
        } else {
            match props_end(toks, a + 1) {
                None => props_err(toks, a + 1),
                Some(b) => if kind_at(toks, b) != TokenKind::Colon {
                    expected_at(toks, b, seq![TokenKind::Colon])
                } else {
                    expected_at(toks, b + 1, seq![TokenKind::OpenSquare])
                },
            }
        },
    }
}

/// The syntax error of the rest of a step at token `c` (see
/// `step_tail_spec`).
pub open spec fn step_tail_err(src: Seq<char>, toks: Seq<Token>, c: int) -> (int, Seq<char>) {
    let lits = if kind_at(toks, c) == TokenKind::CloseSquare {
        Some((Seq::<LitView>::empty(), c))
    } else {
        pcl_lits_spec(src, toks, c)
    };
    match lits {
        None => pcl_lits_err(src, toks, c),
        Some((ls, d)) => if kind_at(toks, d) != TokenKind::CloseSquare {
            expected_at(toks, d, seq![TokenKind::CloseSquare])
        } else if kind_at(toks, d + 1) != TokenKind::Colon {
            expected_at(toks, d + 1, seq![TokenKind::Colon])
        } else {
            pcl_expr_err(toks, d + 2)
        },
    }
}

/// The syntax error of a step at token `i` (see `pcl_step_spec`).
pub open spec fn pcl_step_err(src: Seq<char>, toks: Seq<Token>, i: int) -> (int, Seq<char>) {
    match step_head_spec(toks, i) {
        None => step_head_err(toks, i),
        Some((a, b)) => step_tail_err(src, toks, b + 2),
    }
}

/// The steps of a protocol from token `p` on, read while a number starts a
/// step, and the syntax error that ended the reading, if any: the input
/// must end after the steps.
pub open spec fn protocol_spec(src: Seq<char>, toks: Seq<Token>, p: int) -> (Seq<StepView>, Option<(int, Seq<char>)>)
    decreases toks.len() - p,
{
    if !(0 <= p < toks.len()) {
        (Seq::empty(), Some((p, Seq::empty())))
    } else if toks[p].kind != TokenKind::PosInt {
        (Seq::empty(), if toks[p].kind == TokenKind::NoToken {
            None
        } else {
            Some(expected_at(toks, p, seq![TokenKind::NoToken]))
        })
    } else {
        match pcl_step_spec(src, toks, p) {
            None => (Seq::empty(), Some(pcl_step_err(src, toks, p))),
            Some((st, e)) => if p < e < toks.len() {
                let rest = protocol_spec(src, toks, e);
                (seq![st] + rest.0, rest.1)
            } else {
                (seq![st], Some((e, Seq::empty())))
            },
        }
    }
}

/// Appends the current token's text and moves past it.
fn take(r: &mut Reader, out: &mut String, from: Ghost<int>)
    requires
        reader_ok(old(r)),
        old(r).toks@[old(r).pos as int].kind != TokenKind::NoToken,
        0 <= from@ <= old(r).pos,
        old(out)@ == tokens_text(old(r).src@, old(r).toks@, from@, old(r).pos as int),
    ensures
        moved_on(old(r), final(r)),
        final(r).pos == old(r).pos + 1,
        final(out)@ == tokens_text(final(r).src@, final(r).toks@, from@, final(r).pos as int),
{
    let l = r.lit();
    push_str(out, l.as_str());
    r.advance();
}

fn next_kind(r: &Reader) -> (k: TokenKind)
    requires
        reader_ok(r),
    ensures
        r.pos + 1 < r.toks.len() ==> k == r.toks@[r.pos + 1].kind,
        r.pos + 1 >= r.toks.len() ==> k == TokenKind::NoToken,
{
    if r.pos + 1 < r.toks.len() {
        r.toks[r.pos + 1].kind
    } else {
        TokenKind::NoToken
    }
}

/// A step identifier: numbers joined by full stops ("1", "4.2.7").
pub fn parse_pcl_id(r: &mut Reader) -> (res: Result<String, Diagnostic>)
    requires
        reader_ok(old(r)),
    ensures
        moved_on(old(r), final(r)),
        res matches Ok(t) ==> old(r).pos < final(r).pos && t@ == tokens_text(old(r).src@, old(r).toks@,
            old(r).pos as int, final(r).pos as int),
        res matches Err(d) ==> d.code == ErrorCode::Syntax,
        res is Ok <==> pcl_id_end(old(r).toks@, old(r).pos as int) is Some,
        res is Ok ==> final(r).pos == pcl_id_end(old(r).toks@, old(r).pos as int)->0,
        res matches Err(d) ==> error_is(d, old(r), expected_at(old(r).toks@, old(r).pos as int, seq![TokenKind::PosInt])),
{
    let ghost i = r.pos as int;
    let mut t = String::new();
    if r.kind() != TokenKind::PosInt {
        let v = vec![TokenKind::PosInt];
        return Err(expected_error(r, &v));
    }
    take(r, &mut t, Ghost(i));
    while r.kind() == TokenKind::Fullstop && next_kind(r) == TokenKind::PosInt
        invariant
            reader_ok(r),
            moved_on(old(r), r),
            i == old(r).pos,
            i < r.pos,
            t@ == tokens_text(r.src@, r.toks@, i, r.pos as int),
            id_rest(r.toks@, i + 1) == id_rest(r.toks@, r.pos as int),
        decreases r.toks.len() - r.pos,
    {
        take(r, &mut t, Ghost(i));
        take(r, &mut t, Ghost(i));
    }
    Ok(t)
}

/// A justification: a step identifier or a name, with optional arguments
/// in brackets, or a list of them in square brackets.
pub fn parse_pcl_expr(r: &mut Reader) -> (res: Result<String, Diagnostic>)
    requires
        reader_ok(old(r)),
    ensures
        moved_on(old(r), final(r)),
        res matches Ok(t) ==> old(r).pos < final(r).pos && t@ == tokens_text(old(r).src@, old(r).toks@,
            old(r).pos as int, final(r).pos as int),
        res matches Err(d) ==> d.code == ErrorCode::Syntax,
        res is Ok <==> pcl_expr_end(old(r).toks@, old(r).pos as int) is Some,
        res is Ok ==> final(r).pos == pcl_expr_end(old(r).toks@, old(r).pos as int)->0,
        res matches Err(d) ==> error_is(d, old(r), pcl_expr_err(old(r).toks@, old(r).pos as int)),
    decreases old(r).toks.len() - old(r).pos,
{
    let ghost i = r.pos as int;
    let mut t = String::new();
    let k = r.kind();
    let close: TokenKind;
    if k == TokenKind::OpenSquare {
        take(r, &mut t, Ghost(i));
        if r.kind() == TokenKind::CloseSquare {
            take(r, &mut t, Ghost(i));
            return Ok(t);
        }
        close = TokenKind::CloseSquare;
    } else {
        if k == TokenKind::PosInt {
            let ghost before = r.pos as int;
            match parse_pcl_id(r) {
                Ok(id) => {
                    push_str(&mut t, id.as_str());
                },
                Err(d) => {
                    return Err(d);
                },
            }
        } else if k == TokenKind::Ident || k == TokenKind::Idnum || k == TokenKind::SemIdent || k
            == TokenKind::SqString || k == TokenKind::DqString {
            take(r, &mut t, Ghost(i));
        } else {
            let v = vec![TokenKind::PosInt, TokenKind::Ident, TokenKind::Idnum, TokenKind::OpenSquare];
            return Err(expected_error(r, &v));
        }
        if r.kind() != TokenKind::OpenBracket {
            return Ok(t);
        }
        take(r, &mut t, Ghost(i));
        close = TokenKind::CloseBracket;
    }
    loop
        invariant
            reader_ok(r),
            moved_on(old(r), r),
            i == old(r).pos,
            i < r.pos,
            t@ == tokens_text(r.src@, r.toks@, i, r.pos as int),
            close == TokenKind::CloseBracket || close == TokenKind::CloseSquare,
            pcl_expr_end(r.toks@, i) == pcl_list_end(r.toks@, r.pos as int, close),
            pcl_expr_err(r.toks@, i) == pcl_list_err(r.toks@, r.pos as int, close),
        decreases r.toks.len() - r.pos,
    {
        let ghost before = r.pos as int;
        match parse_pcl_expr(r) {
            Ok(a) => {
                proof {
                    lemma_tokens_text_join(r.src@, r.toks@, i, before, r.pos as int);
                }
                push_str(&mut t, a.as_str());
            },
            Err(d) => {
                return Err(d);
            },
        }
        if r.kind() == TokenKind::Comma {
            take(r, &mut t, Ghost(i));
        } else if r.kind() == close {
            take(r, &mut t, Ghost(i));
            return Ok(t);
        } else {
            let v = vec![TokenKind::Comma, close];
            return Err(expected_error(r, &v));
        }
    }
}

fn expect(r: &mut Reader, k: TokenKind) -> (res: Result<(), Diagnostic>)
    requires
        reader_ok(old(r)),
        k != TokenKind::NoToken,
    ensures
        moved_on(old(r), final(r)),
        res is Ok ==> old(r).toks@[old(r).pos as int].kind == k && final(r).pos == old(r).pos + 1,
        res matches Err(d) ==> d.code == ErrorCode::Syntax,
        res is Ok <==> old(r).toks@[old(r).pos as int].kind == k,
        res matches Err(d) ==> error_is(d, old(r), expected_at(old(r).toks@, old(r).pos as int, seq![k])),
{
    if r.kind() != k {
        let v = vec![k];
        return Err(expected_error(r, &v));
    }
    r.advance();
    Ok(())
}

/// A literal of a PCL clause: "++" or "--", then an equation.
fn parse_pcl_literal(r: &mut Reader) -> (res: Result<Literal, Diagnostic>)
    requires
        reader_ok(old(r)),
    ensures
        moved_on(old(r), final(r)),
        res is Ok ==> old(r).pos < final(r).pos,
        res matches Err(d) ==> d.code == ErrorCode::Syntax,
        match pcl_literal_spec(old(r).src@, old(r).toks@, old(r).pos as int) {
            Some((l, e)) => (res matches Ok(x) && x.view() == l) && final(r).pos == e,
            None => res is Err,
        },
        res matches Err(d) ==> error_is(d, old(r), pcl_literal_err(old(r).toks@, old(r).pos as int)),
{
    let positive = r.kind() == TokenKind::Plus;
    let sign = if positive {
        TokenKind::Plus
    } else {
        TokenKind::Hyphen
    };
    match expect(r, sign) {
        Ok(()) => {},
        Err(d) => {
            return Err(d);
        },
    }
    match expect(r, sign) {
        Ok(()) => {},
        Err(d) => {
            return Err(d);
        },
    }
    parse_eqn(r, positive)
}

/// The properties of a step: names separated by commas, possibly none.
fn parse_props(r: &mut Reader) -> (res: Result<String, Diagnostic>)
    requires
        reader_ok(old(r)),
    ensures
        moved_on(old(r), final(r)),
        res matches Ok(t) ==> t@ == tokens_text(old(r).src@, old(r).toks@, old(r).pos as int, final(r).pos as int),
        res matches Err(d) ==> d.code == ErrorCode::Syntax,
        res is Ok <==> props_end(old(r).toks@, old(r).pos as int) is Some,
        res is Ok ==> final(r).pos == props_end(old(r).toks@, old(r).pos as int)->0,
        res matches Err(d) ==> error_is(d, old(r), props_err(old(r).toks@, old(r).pos as int)),
{
    let ghost i = r.pos as int;
    let mut t = String::new();
    if r.kind() != TokenKind::Ident && r.kind() != TokenKind::Idnum {
        return Ok(t);
    }
    take(r, &mut t, Ghost(i));
    while r.kind() == TokenKind::Comma
        invariant
            reader_ok(r),
            moved_on(old(r), r),
            i == old(r).pos,
            i < r.pos,
            t@ == tokens_text(r.src@, r.toks@, i, r.pos as int),
            props_end(r.toks@, i) == props_rest(r.toks@, r.pos as int),
            props_err(r.toks@, i) == props_rest_err(r.toks@, r.pos as int),
        decreases r.toks.len() - r.pos,
    {
        take(r, &mut t, Ghost(i));
        if r.kind() != TokenKind::Ident && r.kind() != TokenKind::Idnum {
            let v = vec![TokenKind::Ident, TokenKind::Idnum];
            return Err(expected_error(r, &v));
        }
        take(r, &mut t, Ghost(i));
    }
    Ok(t)
}

proof fn lemma_with_prefix_push(v: Seq<LitView>, l: LitView, x: Option<(Seq<LitView>, int)>)
    ensures
        with_prefix(v, with_prefix(seq![l], x)) == with_prefix(v.push(l), x),
{
    match x {
        Some((ls, e)) => {
            assert(v + (seq![l] + ls) =~= v.push(l) + ls);
        },
        None => {},
    }
}

/// The literals of a PCL clause, separated by commas (see `pcl_lits_spec`).
fn parse_pcl_lits(r: &mut Reader) -> (res: Result<Vec<Literal>, Diagnostic>)
    requires
        reader_ok(old(r)),
    ensures
        moved_on(old(r), final(r)),
        res matches Err(d) ==> d.code == ErrorCode::Syntax,
        match pcl_lits_spec(old(r).src@, old(r).toks@, old(r).pos as int) {
            Some((v, e)) => (res matches Ok(x) && lits_view(x@) == v) && final(r).pos == e,
            None => res is Err,
        },
        res matches Err(d) ==> error_is(d, old(r), pcl_lits_err(old(r).src@, old(r).toks@, old(r).pos as int)),
{
    let ghost src = r.src@;
    let ghost toks = r.toks@;
    let ghost c = r.pos as int;
    let mut lits: Vec<Literal> = Vec::new();
    proof {
        match pcl_lits_spec(src, toks, c) {
            Some((v, e)) => {
                assert(Seq::<LitView>::empty() + v =~= v);
            },
            None => {},
        }
        assert(lits_view(lits@) =~= Seq::<LitView>::empty());
    }
    loop
        invariant
            reader_ok(r),
            moved_on(old(r), r),
            src == r.src@,
            toks == r.toks@,
            c == old(r).pos,
            pcl_lits_spec(src, toks, c) == with_prefix(lits_view(lits@), pcl_lits_spec(src, toks, r.pos as int)),
            pcl_lits_err(src, toks, c) == pcl_lits_err(src, toks, r.pos as int),
        decreases r.toks.len() - r.pos,
    {
        let ghost p = r.pos as int;
        let l = match parse_pcl_literal(r) {
            Ok(l) => l,
            Err(d) => {
                return Err(d);
            },
        };
        let ghost before = lits@;
        lits.push(l);
        proof {
            assert(lits_view(lits@) =~= lits_view(before).push(l@));
            lemma_with_prefix_push(lits_view(before), l@, pcl_lits_spec(src, toks, r.pos + 1));
        }
        if r.kind() == TokenKind::Comma {
            r.advance();
        } else {
            proof {
                assert(lits_view(before) + seq![l@] =~= lits_view(lits@));
            }
            return Ok(lits);
        }
    }
}

fn parse_step_head(r: &mut Reader) -> (res: Result<(String, String), Diagnostic>)
    requires
        reader_ok(old(r)),
    ensures
        moved_on(old(r), final(r)),
        res matches Err(d) ==> d.code == ErrorCode::Syntax,
        match step_head_spec(old(r).toks@, old(r).pos as int) {
            Some((a, b)) => (res matches Ok((id, props)) && id@ == tokens_text(old(r).src@, old(r).toks@,
                old(r).pos as int, a) && props@ == tokens_text(old(r).src@, old(r).toks@, a + 1, b))
                && final(r).pos == b + 2,
            None => res is Err,
        },
        res matches Err(d) ==> error_is(d, old(r), step_head_err(old(r).toks@, old(r).pos as int)),
{
    let id = match parse_pcl_id(r) {
        Ok(t) => t,
        Err(d) => {
            return Err(d);
        },
    };
    match expect(r, TokenKind::Colon) {
        Ok(()) => {},
        Err(d) => {
            return Err(d);
        },
    }
    let props = match parse_props(r) {
        Ok(t) => t,
        Err(d) => {
            return Err(d);
        },
    };
    match expect(r, TokenKind::Colon) {
        Ok(()) => {},
        Err(d) => {
            return Err(d);
        },
    }
    match expect(r, TokenKind::OpenSquare) {
        Ok(()) => {},
        Err(d) => {
            return Err(d);
        },
    }
    Ok((id, props))
}

fn parse_step_tail(r: &mut Reader) -> (res: Result<(Vec<Literal>, String), Diagnostic>)
    requires
        reader_ok(old(r)),
    ensures
        moved_on(old(r), final(r)),
        res matches Err(d) ==> d.code == ErrorCode::Syntax,
        match step_tail_spec(old(r).src@, old(r).toks@, old(r).pos as int) {
            Some((ls, d, e)) => (res matches Ok((lits, just)) && lits_view(lits@) == ls && just@ == tokens_text(
                old(r).src@,
                old(r).toks@,
                d + 2,
                e,
            )) && final(r).pos == e,
            None => res is Err,
        },
        res matches Err(d) ==> error_is(d, old(r), step_tail_err(old(r).src@, old(r).toks@, old(r).pos as int)),
{
    let lits = if r.kind() != TokenKind::CloseSquare {
        match parse_pcl_lits(r) {
            Ok(ls) => ls,
            Err(d) => {
                return Err(d);
            },
        }
    } else {
        let v: Vec<Literal> = Vec::new();
        proof {
            assert(lits_view(v@) =~= Seq::<LitView>::empty());
        }
        v
    };
    match expect(r, TokenKind::CloseSquare) {
        Ok(()) => {},
        Err(d) => {
            return Err(d);
        },
    }
    match expect(r, TokenKind::Colon) {
        Ok(()) => {},
        Err(d) => {
            return Err(d);
        },
    }
    let just = match parse_pcl_expr(r) {
        Ok(t) => t,
        Err(d) => {
            return Err(d);
        },
    };
    Ok((lits, just))
}

/// A step: identifier, properties, clause in square brackets and
/// justification, separated by colons (see `pcl_step_spec`).
pub fn parse_pcl_step(r: &mut Reader) -> (res: Result<PclStep, Diagnostic>)
    requires
        reader_ok(old(r)),
    ensures
        moved_on(old(r), final(r)),
        res is Ok ==> old(r).pos < final(r).pos,
        res matches Err(d) ==> d.code == ErrorCode::Syntax,
        match pcl_step_spec(old(r).src@, old(r).toks@, old(r).pos as int) {
            Some((v, e)) => (res matches Ok(x) && x@ == v) && final(r).pos == e,
            None => res is Err,
        },
        res matches Err(d) ==> error_is(d, old(r), pcl_step_err(old(r).src@, old(r).toks@, old(r).pos as int)),
{
    let (id, props) = match parse_step_head(r) {
        Ok(h) => h,
        Err(d) => {
            return Err(d);
        },
    };
    let (lits, just) = match parse_step_tail(r) {
        Ok(t) => t,
        Err(d) => {
            return Err(d);
        },
    };
    Ok(PclStep { id, props, lits, just })
}

/// The literals of a PCL clause: each "++" or "--" and its equation,
/// joined by commas.
pub open spec fn pcl_lits_text(ls: Seq<LitView>) -> Seq<char>
    decreases ls.len(),
{
    if ls.len() == 0 {
        Seq::empty()
    } else {
        let last = (if ls.last().positive { "++"@ } else { "--"@ }) + eqn_text(ls.last());
        if ls.len() == 1 {
            last
        } else {
            pcl_lits_text(ls.drop_last()) + ","@ + last
        }
    }
}

/// How a step prints: the identifier right-aligned in seven columns, the
/// properties, the clause and the justification, separated by " : ".
pub open spec fn step_text(id: Seq<char>, props: Seq<char>, lits: Seq<LitView>, just: Seq<char>) -> Seq<char> {
    pad_left(id, 7) + " : "@ + props + " : "@ + "["@ + pcl_lits_text(lits) + "]"@ + " : "@ + just
}

/// Appends a step as it prints (see `step_text`).
pub fn push_step(out: &mut String, s: &PclStep)
    ensures
        final(out)@ == old(out)@ + step_text(s.id@, s.props@, crate::clause::lits_view(s.lits@), s.just@),
{
    push_padded(out, s.id.as_str(), 7);
    push_str(out, " : ");
    push_str(out, s.props.as_str());
    push_str(out, " : ");
    push_str(out, "[");
    let ghost v = crate::clause::lits_view(s.lits@);
    let mut t = String::new();
    let mut i: usize = 0;
    while i < s.lits.len()
        invariant
            i <= s.lits.len(),
            v == crate::clause::lits_view(s.lits@),
            t@ == pcl_lits_text(v.take(i as int)),
        decreases s.lits.len() - i,
    {
        proof {
            assert(v.take(i + 1).drop_last() == v.take(i as int));
            assert(v.take(i + 1).last() == v[i as int]);
        }
        if i > 0 {
            push_str(&mut t, ",");
        }
        let l = &s.lits[i];
        if l.positive {
            push_str(&mut t, "++");
        } else {
            push_str(&mut t, "--");
        }
        push_str(&mut t, l.lhs.as_str());
        match &l.rhs {
            Some(x) => {
                push_str(&mut t, "=");
                push_str(&mut t, x.as_str());
            },
            None => {},
        }
        proof {
            if i == 0 {
                assert(v.take(0) =~= Seq::<LitView>::empty());
            }
        }
        i = i + 1;
    }
    proof {
        assert(v.take(s.lits.len() as int) == v);
    }
    push_str(out, t.as_str());
    push_str(out, "]");
    push_str(out, " : ");
    push_str(out, s.just.as_str());
}

/// Whether a step is an assumption of the proof (justified as "initial").
pub fn is_initial(s: &PclStep) -> (b: bool)
    ensures
        b == (s.just@ == "initial"@),
{
    same_text(s.just.as_str(), "initial")
}

proof fn lemma_steps_split(cs: Seq<PclStep>, n: int)
    requires
        0 <= n <= cs.len(),
    ensures
        steps_view(cs) == steps_view(cs.take(n)) + steps_view(cs).skip(n),
{
    assert(steps_view(cs) =~= steps_view(cs.take(n)) + steps_view(cs).skip(n));
}

/// The steps of a protocol text, read while the input shows the start of a
/// step (a number); the input must then be at its end (see
/// `protocol_spec`). The steps read are appended to `steps`, also those
/// read before an error.
#[verifier::rlimit(40)]
pub fn parse_protocol(r: &mut Reader, steps: &mut Vec<PclStep>) -> (res: Result<(), Diagnostic>)
    requires
        reader_ok(old(r)),
    ensures
        ({
            let (v, err) = protocol_spec(old(r).src@, old(r).toks@, old(r).pos as int);
            &&& steps_view(final(steps)@) == steps_view(old(steps)@) + v
            &&& (res is Ok <==> err is None)
            &&& (res matches Err(d) ==> err matches Some(e) && error_is(d, old(r), e))
        }),
        res matches Err(d) ==> d.code == ErrorCode::Syntax,
{
    let ghost n0 = steps@.len();
    let ghost src = r.src@;
    let ghost toks = r.toks@;
    let ghost p0 = r.pos as int;
    proof {
        assert(steps_view(steps@).skip(n0 as int) =~= Seq::<StepView>::empty());
        assert(Seq::<StepView>::empty() + protocol_spec(src, toks, p0).0 =~= protocol_spec(src, toks, p0).0);
    }
    loop
        invariant
            reader_ok(r),
            r.src@ == src,
            r.toks@ == toks,
            src == old(r).src@,
            toks == old(r).toks@,
            p0 == old(r).pos,
            n0 == old(steps)@.len(),
            n0 <= steps@.len(),
            steps@.take(n0 as int) == old(steps)@,
            protocol_spec(src, toks, p0).0 == steps_view(steps@).skip(n0 as int) + protocol_spec(
                src,
                toks,
                r.pos as int,
            ).0,
            protocol_spec(src, toks, p0).1 == protocol_spec(src, toks, r.pos as int).1,
            r.source@ == old(r).source@,
        decreases r.toks.len() - r.pos,
    {
        let ghost p = r.pos as int;
        if r.kind() != TokenKind::PosInt {
            proof {
                let d = steps_view(steps@).skip(n0 as int);
                assert(d + Seq::<StepView>::empty() =~= d);
                lemma_steps_split(steps@, n0 as int);
            }
            if r.kind() != TokenKind::NoToken {
                let v = vec![TokenKind::NoToken];
                return Err(expected_error(r, &v));
            }
            return Ok(());
        }
        match parse_pcl_step(r) {
            Ok(st) => {
                let ghost before = steps@;
                steps.push(st);
                proof {
                    let v = steps_view(steps@).skip(n0 as int);
                    let dn = steps_view(before).skip(n0 as int);
                    assert(v =~= dn.push(st@));
                    assert(steps@.take(n0 as int) =~= before.take(n0 as int));
                    let rest = protocol_spec(src, toks, r.pos as int).0;
                    assert(protocol_spec(src, toks, p).0 == seq![st@] + rest);
                    assert(dn + (seq![st@] + rest) =~= v + rest);
                }
            },
            Err(d) => {
                proof {
                    let dn = steps_view(steps@).skip(n0 as int);
                    assert(dn + Seq::<StepView>::empty() =~= dn);
                    lemma_steps_split(steps@, n0 as int);
                }
                return Err(d);
            },
        }
    }
}

} // verus!
