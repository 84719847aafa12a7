//! The grammar as a model parser over the lexer's model.
//!
//! Like the interpreter, each step spends one unit of a budget; a parse that
//! spends it all fails with `TooComplex`.
use vstd::prelude::*;
use crate::ast::{SExpr, SStmt, Type};
use crate::lexer::{scan, skip_spaces, token_text, TokenKind};
use crate::literal::{double_literal, int_literal};
use crate::parser::{dot_index, ParseError};
use crate::semantics::next_fuel;

verus! {

/// The model of the parser: the source, how far the lexer has read, the
/// current token, and the first fault met.
pub struct PState {
    pub src: Seq<char>,
    pub pos: int,
    pub kind: TokenKind,
    pub text: Seq<char>,
    pub err: Option<ParseError>,
}

/// Reads the next token.
pub open spec fn adv(ps: PState) -> PState {
    let i = skip_spaces(ps.src, ps.pos);
    let (k, n) = scan(ps.src, i);
    PState { src: ps.src, pos: n, kind: k, text: token_text(ps.src, i, k, n), err: ps.err }
}

/// Records a fault; the first one stays.
pub open spec fn fail(ps: PState, e: ParseError) -> PState {
    PState { src: ps.src, pos: ps.pos, kind: ps.kind, text: ps.text, err: if ps.err is Some { ps.err } else { Some(e) } }
}

/// The parser at the first token of `src`.
pub open spec fn start(src: Seq<char>) -> PState {
    adv(PState { src: src, pos: 0, kind: TokenKind::EOF, text: Seq::empty(), err: None })
}

pub open spec fn type_of_kind(k: TokenKind) -> Option<Type> {
    match k {
        TokenKind::Int => Some(Type::Int),
        TokenKind::Bool => Some(Type::Bool),
        TokenKind::StringType => Some(Type::String),
        TokenKind::DoubleType => Some(Type::Double),
        _ => None,
    }
}

/// A type name.
pub open spec fn p_type(ps: PState) -> (Option<Type>, PState) {
    match type_of_kind(ps.kind) {
        Some(t) => (Some(t), adv(ps)),
        None => (None, ps),
    }
}

/// The operators of each level of binary precedence, loosest first.
pub open spec fn level_op(level: nat, k: TokenKind) -> bool {
    if level == 0 {
        k == TokenKind::Or
    } else if level == 1 {
        k == TokenKind::And
    } else if level == 2 {
        k == TokenKind::Eq || k == TokenKind::Neq
    } else if level == 3 {
        k == TokenKind::LessThan || k == TokenKind::GreaterThan || k == TokenKind::LessEqual || k
            == TokenKind::GreaterEqual
    } else if level == 4 {
        k == TokenKind::Plus || k == TokenKind::Minus
    } else {
        k == TokenKind::Star || k == TokenKind::Slash || k == TokenKind::Percent
    }
}

/// The expression that a binary operator token builds.
pub open spec fn combine(k: TokenKind, l: SExpr, r: SExpr) -> SExpr {
    let (l, r) = (Box::new(l), Box::new(r));
    match k {
        TokenKind::Or => SExpr::Or(l, r),
        TokenKind::And => SExpr::And(l, r),
        TokenKind::Eq => SExpr::Eq(l, r),
        TokenKind::Neq => SExpr::Neq(l, r),
        TokenKind::LessThan => SExpr::LessThan(l, r),
        TokenKind::GreaterThan => SExpr::GreaterThan(l, r),
        TokenKind::LessEqual => SExpr::LessEqual(l, r),
        TokenKind::GreaterEqual => SExpr::GreaterEqual(l, r),
        TokenKind::Plus => SExpr::Add(l, r),
        TokenKind::Minus => SExpr::Sub(l, r),
        TokenKind::Star => SExpr::Mul(l, r),
        TokenKind::Slash => SExpr::Div(l, r),
        _ => SExpr::Mod(l, r),
    }
}

/// Whether the current name is followed at once by `=`.
pub open spec fn is_assign(ps: PState) -> bool {
    ps.kind == TokenKind::Ident && scan(ps.src, skip_spaces(ps.src, ps.pos)).0 == TokenKind::Assign
}

/// An expression.
pub open spec fn p_expr(ps: PState, fuel: nat) -> (Option<SExpr>, PState, nat)
    decreases fuel,
{
    if fuel == 0 {
        (None, fail(ps, ParseError::TooComplex), 0)
    } else {
        p_level(0, ps, (fuel - 1) as nat)
    }
}

/// The binary operators of `level` and tighter, folded to the left.
pub open spec fn p_level(level: nat, ps: PState, fuel: nat) -> (Option<SExpr>, PState, nat)
    decreases fuel,
{
    if fuel == 0 {
        (None, fail(ps, ParseError::TooComplex), 0)
    } else {
        let f = (fuel - 1) as nat;
        if level >= 6 {
            p_unary(ps, f)
        } else {
            let (l, ps1, f1) = p_level(level + 1, ps, f);
            match l {
                None => (None, ps1, f1),
                Some(e) => p_level_rest(level, e, ps1, next_fuel(f1, f)),
            }
        }
    }
}

pub open spec fn p_level_rest(level: nat, left: SExpr, ps: PState, fuel: nat) -> (Option<SExpr>, PState, nat)
    decreases fuel,
{
    if fuel == 0 {
        (None, fail(ps, ParseError::TooComplex), 0)
    } else {
        let f = (fuel - 1) as nat;
        if level < 6 && level_op(level, ps.kind) {
            let (r, ps2, f2) = p_level(level + 1, adv(ps), f);
            match r {
                None => (None, ps2, f2),
                Some(e) => p_level_rest(level, combine(ps.kind, left, e), ps2, next_fuel(f2, f)),
            }
        } else {
            (Some(left), ps, f)
        }
    }
}

/// `not`, unary minus, or a term.
pub open spec fn p_unary(ps: PState, fuel: nat) -> (Option<SExpr>, PState, nat)
    decreases fuel,
{
    if fuel == 0 {
        (None, fail(ps, ParseError::TooComplex), 0)
    } else {
        let f = (fuel - 1) as nat;
        if ps.kind == TokenKind::Not || ps.kind == TokenKind::Minus {
            let (e, ps1, f1) = p_unary(adv(ps), f);
            match e {
                None => (None, ps1, f1),
                Some(x) => (Some(if ps.kind == TokenKind::Not { SExpr::Not(Box::new(x)) } else { SExpr::Neg(Box::new(x)) }), ps1, f1),
            }
        } else {
            p_term(ps, f)
        }
    }
}

/// Expressions separated by commas, up to a `close` token (not consumed).
pub open spec fn p_list(close: TokenKind, ps: PState, fuel: nat) -> (Option<Seq<SExpr>>, PState, nat)
    decreases fuel,
{
    if fuel == 0 {
        (None, fail(ps, ParseError::TooComplex), 0)
    } else if ps.kind == close {
        (Some(Seq::empty()), ps, (fuel - 1) as nat)
    } else {
        p_list_rest(Seq::empty(), ps, (fuel - 1) as nat)
    }
}

pub open spec fn p_list_rest(acc: Seq<SExpr>, ps: PState, fuel: nat) -> (Option<Seq<SExpr>>, PState, nat)
    decreases fuel,
{
    if fuel == 0 {
        (None, fail(ps, ParseError::TooComplex), 0)
    } else {
        let f = (fuel - 1) as nat;
        let (e, ps1, f1) = p_expr(ps, f);
        match e {
            None => (None, ps1, f1),
            Some(x) => if ps1.kind == TokenKind::Comma {
                p_list_rest(acc.push(x), adv(ps1), next_fuel(f1, f))
            } else {
                (Some(acc.push(x)), ps1, f1)
            },
        }
    }
}

/// A literal, a name, a call, an array literal or a parenthesized
/// expression, then any indexing.
pub open spec fn p_term(ps: PState, fuel: nat) -> (Option<SExpr>, PState, nat)
    decreases fuel,
{
    if fuel == 0 {
        (None, fail(ps, ParseError::TooComplex), 0)
    } else {
        let f = (fuel - 1) as nat;
        match ps.kind {
            TokenKind::Number => match int_literal(ps.text) {
                Some(n) => p_postfix(SExpr::Number(n), adv(ps), f),
                None => (None, fail(ps, ParseError::NumberOutOfRange), f),
            },
            TokenKind::Double => {
                let k = dot_index(ps.text, 0);
                let frac = if k < ps.text.len() { ps.text.subrange(k + 1, ps.text.len() as int) } else { Seq::empty() };
                match double_literal(ps.text.subrange(0, k), frac) {
                    Some(d) => p_postfix(SExpr::Double(d), adv(ps), f),
                    None => (None, fail(ps, ParseError::NumberOutOfRange), f),
                }
            },
            TokenKind::True => p_postfix(SExpr::Bool(true), adv(ps), f),
            TokenKind::False => p_postfix(SExpr::Bool(false), adv(ps), f),
            TokenKind::StrLiteral => p_postfix(SExpr::StrLiteral(ps.text), adv(ps), f),
            TokenKind::Ident => {
                let ps1 = adv(ps);
                if ps1.kind == TokenKind::LParen {
                    let (args, ps2, f2) = p_list(TokenKind::RParen, adv(ps1), f);
                    match args {
                        None => (None, ps2, f2),
                        Some(a) => if ps2.kind != TokenKind::RParen {
                            (None, ps2, f2)
                        } else {
                            p_postfix(SExpr::FunctionCall(ps.text, a), adv(ps2), next_fuel(f2, f))
                        },
                    }
                } else {
                    p_postfix(SExpr::Var(ps.text), ps1, f)
                }
            },
            TokenKind::LBracket => {
                let (items, ps2, f2) = p_list(TokenKind::RBracket, adv(ps), f);
                match items {
                    None => (None, ps2, f2),
                    Some(a) => if ps2.kind != TokenKind::RBracket {
                        (None, fail(ps2, ParseError::UnclosedArray), f2)
                    } else {
                        p_postfix(SExpr::ArrayLiteral(a), adv(ps2), next_fuel(f2, f))
                    },
                }
            },
            TokenKind::LParen => {
                let (e, ps2, f2) = p_expr(adv(ps), f);
                match e {
                    None => (None, ps2, f2),
                    Some(x) => if ps2.kind != TokenKind::RParen {
                        (None, ps2, f2)
                    } else {
                        p_postfix(x, adv(ps2), next_fuel(f2, f))
                    },
                }
            },
            _ => (None, ps, f),
        }
    }
}

/// Any number of `[index]` after an expression.
pub open spec fn p_postfix(e: SExpr, ps: PState, fuel: nat) -> (Option<SExpr>, PState, nat)
    decreases fuel,
{
    if fuel == 0 {
        (None, fail(ps, ParseError::TooComplex), 0)
    } else {
        let f = (fuel - 1) as nat;
        if ps.kind == TokenKind::LBracket {
            let (i, ps1, f1) = p_expr(adv(ps), f);
            match i {
                None => (None, ps1, f1),
                Some(ix) => if ps1.kind != TokenKind::RBracket {
                    (None, fail(ps1, ParseError::UnclosedIndex), f1)
                } else {
                    p_postfix(SExpr::Index(Box::new(e), Box::new(ix)), adv(ps1), next_fuel(f1, f))
                },
            }
        } else {
            (Some(e), ps, f)
        }
    }
}

/// One statement, chosen by its first token.
pub open spec fn p_stmt(ps: PState, fuel: nat) -> (Option<SStmt>, PState, nat)
    decreases fuel,
{
    if fuel == 0 {
        (None, fail(ps, ParseError::TooComplex), 0)
    } else {
        let f = (fuel - 1) as nat;
        match ps.kind {
            TokenKind::Let => p_let(ps, f),
            TokenKind::Print => p_print(ps, f),
            TokenKind::While => p_while(ps, f),
            TokenKind::For => p_for(ps, f),
            TokenKind::If => p_if(ps, f),
            TokenKind::Funct => p_fundef(ps, f),
            TokenKind::Return => p_return(ps, f),
            TokenKind::Ident => if is_assign(ps) { p_assign(ps, f) } else { p_expr_stmt(ps, f) },
            _ => (None, ps, f),
        }
    }
}

/// Checks for and consumes the `;` after a statement.
pub open spec fn then_semicolon(r: (Option<SStmt>, PState, nat)) -> (Option<SStmt>, PState, nat) {
    match r.0 {
        None => r,
        Some(s) => if r.1.kind != TokenKind::Semicolon { (None, r.1, r.2) } else { (Some(s), adv(r.1), r.2) },
    }
}

/// `expr;`
pub open spec fn p_expr_stmt(ps: PState, fuel: nat) -> (Option<SStmt>, PState, nat)
    decreases fuel,
{
    if fuel == 0 {
        (None, fail(ps, ParseError::TooComplex), 0)
    } else {
        let (e, ps1, f1) = p_expr(ps, (fuel - 1) as nat);
        match e {
            None => (None, ps1, f1),
            Some(x) => then_semicolon((Some(SStmt::ExprStmt(x)), ps1, f1)),
        }
    }
}

/// `let name[: type] = expr;`
pub open spec fn p_let(ps: PState, fuel: nat) -> (Option<SStmt>, PState, nat)
    decreases fuel,
{
    if fuel == 0 {
        (None, fail(ps, ParseError::TooComplex), 0)
    } else {
        then_semicolon(p_let_ns(ps, (fuel - 1) as nat))
    }
}

/// `name = expr;`
pub open spec fn p_assign(ps: PState, fuel: nat) -> (Option<SStmt>, PState, nat)
    decreases fuel,
{
    if fuel == 0 {
        (None, fail(ps, ParseError::TooComplex), 0)
    } else {
        then_semicolon(p_assign_ns(ps, (fuel - 1) as nat))
    }
}

/// `let name[: type] = expr`, without the semicolon.
pub open spec fn p_let_ns(ps: PState, fuel: nat) -> (Option<SStmt>, PState, nat)
    decreases fuel,
{
    if fuel == 0 {
        (None, fail(ps, ParseError::TooComplex), 0)
    } else {
        let f = (fuel - 1) as nat;
        let ps1 = adv(ps);
        if ps1.kind != TokenKind::Ident {
            (None, ps1, f)
        } else {
            let ps2 = adv(ps1);
            let (t, ps3) = if ps2.kind == TokenKind::Colon { p_type(adv(ps2)) } else { (Some(Type::Int), ps2) };
            match t {
                None => (None, ps3, f),
                Some(ty) => if ps3.kind != TokenKind::Assign {
                    (None, ps3, f)
                } else {
                    let (e, ps4, f4) = p_expr(adv(ps3), f);
                    match e {
                        None => (None, ps4, f4),
                        Some(x) => (Some(SStmt::Let(ty, ps1.text, x)), ps4, f4),
                    }
                },
            }
        }
    }
}

/// `name = expr`, without the semicolon.
pub open spec fn p_assign_ns(ps: PState, fuel: nat) -> (Option<SStmt>, PState, nat)
    decreases fuel,
{
    if fuel == 0 {
        (None, fail(ps, ParseError::TooComplex), 0)
    } else {
        let f = (fuel - 1) as nat;
        let ps1 = adv(ps);
        if ps1.kind != TokenKind::Assign {
            (None, ps1, f)
        } else {
            let (e, ps2, f2) = p_expr(adv(ps1), f);
            match e {
                None => (None, ps2, f2),
                Some(x) => (Some(SStmt::Assign(ps.text, x)), ps2, f2),
            }
        }
    }
}

/// `print(expr);`
pub open spec fn p_print(ps: PState, fuel: nat) -> (Option<SStmt>, PState, nat)
    decreases fuel,
{
    if fuel == 0 {
        (None, fail(ps, ParseError::TooComplex), 0)
    } else {
        let (e, ps1, f1) = p_paren(adv(ps), (fuel - 1) as nat);
        match e {
            None => (None, ps1, f1),
            Some(x) => then_semicolon((Some(SStmt::Print(x)), ps1, f1)),
        }
    }
}

/// `(expr)`
pub open spec fn p_paren(ps: PState, fuel: nat) -> (Option<SExpr>, PState, nat)
    decreases fuel,
{
    if fuel == 0 {
        (None, fail(ps, ParseError::TooComplex), 0)
    } else if ps.kind != TokenKind::LParen {
        (None, ps, (fuel - 1) as nat)
    } else {
        let (e, ps1, f1) = p_expr(adv(ps), (fuel - 1) as nat);
        match e {
            None => (None, ps1, f1),
            Some(x) => if ps1.kind != TokenKind::RParen { (None, ps1, f1) } else { (Some(x), adv(ps1), f1) },
        }
    }
}

/// `{ statements }`
pub open spec fn p_block(ps: PState, fuel: nat) -> (Option<Seq<SStmt>>, PState, nat)
    decreases fuel,
{
    if fuel == 0 {
        (None, fail(ps, ParseError::TooComplex), 0)
    } else if ps.kind != TokenKind::LBrace {
        (None, ps, (fuel - 1) as nat)
    } else {
        p_block_items(Seq::empty(), adv(ps), (fuel - 1) as nat)
    }
}

/// The statements of a block after `acc`: one that does not parse is
/// skipped a token at a time.
pub open spec fn p_block_items(acc: Seq<SStmt>, ps: PState, fuel: nat) -> (Option<Seq<SStmt>>, PState, nat)
    decreases fuel,
{
    if fuel == 0 {
        (None, fail(ps, ParseError::TooComplex), 0)
    } else {
        let f = (fuel - 1) as nat;
        if ps.kind == TokenKind::RBrace {
            (Some(acc), adv(ps), f)
        } else if ps.kind == TokenKind::EOF {
            (None, ps, f)
        } else {
            let (s, ps1, f1) = p_stmt(ps, f);
            match s {
                Some(st) => p_block_items(acc.push(st), ps1, next_fuel(f1, f)),
                None => p_block_items(acc, if ps1.kind != TokenKind::EOF { adv(ps1) } else { ps1 }, next_fuel(f1, f)),
            }
        }
    }
}

/// `while (cond) { body }`
pub open spec fn p_while(ps: PState, fuel: nat) -> (Option<SStmt>, PState, nat)
    decreases fuel,
{
    if fuel == 0 {
        (None, fail(ps, ParseError::TooComplex), 0)
    } else {
        let f = (fuel - 1) as nat;
        let (c, ps1, f1) = p_paren(adv(ps), f);
        match c {
            None => (None, ps1, f1),
            Some(cond) => {
                let (b, ps2, f2) = p_block(ps1, next_fuel(f1, f));
                match b {
                    None => (None, ps2, f2),
                    Some(body) => (Some(SStmt::While(cond, body)), ps2, f2),
                }
            },
        }
    }
}

/// `if (cond) { .. }` and what follows it.
pub open spec fn p_if(ps: PState, fuel: nat) -> (Option<SStmt>, PState, nat)
    decreases fuel,
{
    if fuel == 0 {
        (None, fail(ps, ParseError::TooComplex), 0)
    } else {
        let f = (fuel - 1) as nat;
        let (c, ps1, f1) = p_paren(adv(ps), f);
        match c {
            None => (None, ps1, f1),
            Some(cond) => {
                let (b, ps2, f2) = p_block(ps1, next_fuel(f1, f));
                match b {
                    None => (None, ps2, f2),
                    Some(then_block) => p_elifs(cond, then_block, Seq::empty(), ps2, next_fuel(f2, f)),
                }
            },
        }
    }
}

/// The `elif` branches after `acc`, then an optional `else`.
pub open spec fn p_elifs(
    cond: SExpr,
    then_block: Seq<SStmt>,
    acc: Seq<(SExpr, Seq<SStmt>)>,
    ps: PState,
    fuel: nat,
) -> (Option<SStmt>, PState, nat)
    decreases fuel,
{
    if fuel == 0 {
        (None, fail(ps, ParseError::TooComplex), 0)
    } else {
        let f = (fuel - 1) as nat;
        if ps.kind == TokenKind::Elif {
            let (c, ps1, f1) = p_paren(adv(ps), f);
            match c {
                None => (None, ps1, f1),
                Some(ec) => {
                    let (b, ps2, f2) = p_block(ps1, next_fuel(f1, f));
                    match b {
                        None => (None, ps2, f2),
                        Some(eb) => p_elifs(cond, then_block, acc.push((ec, eb)), ps2, next_fuel(f2, f)),
                    }
                },
            }
        } else if ps.kind == TokenKind::Else {
            let (b, ps1, f1) = p_block(adv(ps), f);
            match b {
                None => (None, ps1, f1),
                Some(eb) => (Some(SStmt::If(cond, then_block, acc, Some(eb))), ps1, f1),
            }
        } else {
            (Some(SStmt::If(cond, then_block, acc, None)), ps, f)
        }
    }
}

/// `for (init; cond; update) { body }`
pub open spec fn p_for(ps: PState, fuel: nat) -> (Option<SStmt>, PState, nat)
    decreases fuel,
{
    if fuel == 0 {
        (None, fail(ps, ParseError::TooComplex), 0)
    } else {
        let f = (fuel - 1) as nat;
        let ps1 = adv(ps);
        if ps1.kind != TokenKind::LParen {
            (None, ps1, f)
        } else {
            let ps2 = adv(ps1);
            let (init, ps3, f3) = if ps2.kind == TokenKind::Semicolon {
                (Some(None::<Box<SStmt>>), ps2, f)
            } else if ps2.kind == TokenKind::Let || ps2.kind == TokenKind::Ident {
                let (s, ps3, f3) = if ps2.kind == TokenKind::Let { p_let_ns(ps2, f) } else { p_assign_ns(ps2, f) };
                match s {
                    None => (None, ps3, f3),
                    Some(st) => (Some(Some(Box::new(st))), ps3, f3),
                }
            } else {
                (None, ps2, f)
            };
            match init {
                None => (None, ps3, f3),
                Some(init) => p_for_cond(init, ps3, next_fuel(f3, f)),
            }
        }
    }
}

/// A `for` after its first statement: `; cond; update) { body }`.
pub open spec fn p_for_cond(init: Option<Box<SStmt>>, ps: PState, fuel: nat) -> (Option<SStmt>, PState, nat)
    decreases fuel,
{
    if fuel == 0 {
        (None, fail(ps, ParseError::TooComplex), 0)
    } else {
        let f = (fuel - 1) as nat;
        if ps.kind != TokenKind::Semicolon {
            (None, ps, f)
        } else {
            let ps1 = adv(ps);
            let (cond, ps2, f2) = if ps1.kind == TokenKind::Semicolon {
                (Some(None::<SExpr>), ps1, f)
            } else {
                let (c, ps2, f2) = p_expr(ps1, f);
                match c {
                    None => (None, ps2, f2),
                    Some(x) => (Some(Some(x)), ps2, f2),
                }
            };
            match cond {
                None => (None, ps2, f2),
                Some(cond) => if ps2.kind != TokenKind::Semicolon {
                    (None, ps2, f2)
                } else {
                    let ps3 = adv(ps2);
                    let (update, ps4, f4) = if ps3.kind == TokenKind::RParen {
                        (Some(None::<Box<SStmt>>), ps3, next_fuel(f2, f))
                    } else if ps3.kind == TokenKind::Ident {
                        let (u, ps4, f4) = p_assign_ns(ps3, next_fuel(f2, f));
                        match u {
                            None => (None, ps4, f4),
                            Some(x) => (Some(Some(Box::new(x))), ps4, f4),
                        }
                    } else {
                        (None, ps3, next_fuel(f2, f))
                    };
                    match update {
                        None => (None, ps4, f4),
                        Some(update) => if ps4.kind != TokenKind::RParen {
                            (None, ps4, f4)
                        } else {
                            let (b, ps5, f5) = p_block(adv(ps4), next_fuel(f4, f));
                            match b {
                                None => (None, ps5, f5),
                                Some(body) => (Some(SStmt::For(init, cond, update, body)), ps5, f5),
                            }
                        },
                    }
                },
            }
        }
    }
}

/// `funct name(params)[: type] { body }`
pub open spec fn p_fundef(ps: PState, fuel: nat) -> (Option<SStmt>, PState, nat)
    decreases fuel,
{
    if fuel == 0 {
        (None, fail(ps, ParseError::TooComplex), 0)
    } else {
        let f = (fuel - 1) as nat;
        let ps1 = adv(ps);
        if ps1.kind != TokenKind::Ident {
            (None, ps1, f)
        } else {
            let ps2 = adv(ps1);
            if ps2.kind != TokenKind::LParen {
                (None, ps2, f)
            } else {
                let (params, ps3, f3) = p_params(Seq::empty(), adv(ps2), f);
                match params {
                    None => (None, ps3, f3),
                    Some(ps_list) => {
                        let ps4 = adv(ps3);
                        let (ret, ps5) = if ps4.kind == TokenKind::Colon {
                            let (t, ps5) = p_type(adv(ps4));
                            match t {
                                None => (None, ps5),
                                Some(ty) => (Some(Some(ty)), ps5),
                            }
                        } else {
                            (Some(None::<Type>), ps4)
                        };
                        match ret {
                            None => (None, ps5, f3),
                            Some(ret) => {
                                let (b, ps6, f6) = p_block(ps5, next_fuel(f3, f));
                                match b {
                                    None => (None, ps6, f6),
                                    Some(body) => (Some(SStmt::FunctionDef(ps1.text, ps_list, ret, body)), ps6, f6),
                                }
                            },
                        }
                    },
                }
            }
        }
    }
}

/// The typed parameters after `acc`, up to the `)` (not consumed).
pub open spec fn p_params(acc: Seq<(Seq<char>, Type)>, ps: PState, fuel: nat) -> (Option<Seq<(Seq<char>, Type)>>, PState, nat)
    decreases fuel,
{
    if fuel == 0 {
        (None, fail(ps, ParseError::TooComplex), 0)
    } else {
        let f = (fuel - 1) as nat;
        if ps.kind == TokenKind::RParen {
            (Some(acc), ps, f)
        } else if ps.kind != TokenKind::Ident {
            (None, ps, f)
        } else {
            let ps1 = adv(ps);
            if ps1.kind != TokenKind::Colon {
                (None, ps1, f)
            } else {
                let (t, ps2) = p_type(adv(ps1));
                match t {
                    None => (None, ps2, f),
                    Some(ty) => if ps2.kind == TokenKind::Comma {
                        p_params(acc.push((ps.text, ty)), adv(ps2), f)
                    } else if ps2.kind != TokenKind::RParen {
                        (None, ps2, f)
                    } else {
                        p_params(acc.push((ps.text, ty)), ps2, f)
                    },
                }
            }
        }
    }
}

/// `return expr;` or `return;`
pub open spec fn p_return(ps: PState, fuel: nat) -> (Option<SStmt>, PState, nat)
    decreases fuel,
{
    if fuel == 0 {
        (None, fail(ps, ParseError::TooComplex), 0)
    } else {
        let f = (fuel - 1) as nat;
        let ps1 = adv(ps);
        if ps1.kind == TokenKind::Semicolon {
            (Some(SStmt::Return(None)), adv(ps1), f)
        } else {
            let (e, ps2, f2) = p_expr(ps1, f);
            match e {
                None => (None, ps2, f2),
                Some(x) => then_semicolon((Some(SStmt::Return(Some(x))), ps2, f2)),
            }
        }
    }
}

/// The top-level statements after `acc`: one that does not parse is skipped
/// a token at a time.
pub open spec fn p_program(acc: Seq<SStmt>, ps: PState, fuel: nat) -> (Seq<SStmt>, PState)
    decreases fuel,
{
    if fuel == 0 {
        (acc, fail(ps, ParseError::TooComplex))
    } else if ps.kind == TokenKind::EOF {
        (acc, ps)
    } else {
        let f = (fuel - 1) as nat;
        let (s, ps1, f1) = p_stmt(ps, f);
        match s {
            Some(st) => p_program(acc.push(st), ps1, next_fuel(f1, f)),
            None => p_program(acc, if ps1.kind != TokenKind::EOF { adv(ps1) } else { ps1 }, next_fuel(f1, f)),
        }
    }
}

/// The program that parsing from `ps` gives with budget `fuel`, or the first
/// fault.
pub open spec fn parse_from(ps: PState, fuel: nat) -> Result<Seq<SStmt>, ParseError> {
    let (stmts, last) = p_program(Seq::empty(), ps, fuel);
    match last.err {
        Some(e) => Err(e),
        None => Ok(stmts),
    }
}

} // verus!
