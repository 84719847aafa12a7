//! The parser: recursive descent over the lexer's tokens into a syntax tree.
//!
//! Parsing is lenient: a statement that does not parse is skipped one token
//! at a time, at the top level and in every block. A few faults stop the
//! whole parse instead: an array literal or an index without its `]`, a
//! number literal too large for its type, and running out of the step
//! budget. The parser is proved to follow the model parser of `grammar`.
use vstd::prelude::*;
use crate::ast::{block_view, elifs_view, exprs_view, opt_expr_view, opt_stmt_view, params_view, Expr, SExpr, SStmt, Stmt, Type};
use crate::grammar::{
    adv, fail, is_assign, level_op, combine, p_assign, p_assign_ns, p_block, p_block_items, p_elifs, p_expr, p_expr_stmt,
    p_for, p_for_cond, p_fundef, p_if, p_let, p_let_ns, p_level, p_level_rest, p_list, p_list_rest, p_params, p_paren,
    p_postfix, p_print, p_program, p_return, p_stmt, p_term, p_type, p_unary, p_while, parse_from, then_semicolon, PState,
};
use crate::semantics::next_fuel;
use crate::lexer::{Lexer, Token, TokenKind};
use crate::literal::{double_literal_value, int_literal_value};
use crate::text::push_lit;

verus! {

/// A fault that stops parsing.
#[derive(Clone, Copy, Debug, PartialEq, Eq, Structural)]
pub enum ParseError {
    /// An array literal without its closing `]`.
    UnclosedArray,
    /// An index without its closing `]`.
    UnclosedIndex,
    /// A number literal that does not fit in 64 bits.
    NumberOutOfRange,
    /// The parse ran out of its step budget.
    TooComplex,
}

/// The message of a fault that stops parsing.
pub open spec fn parse_message(e: ParseError) -> Seq<char> {
    match e {
        ParseError::UnclosedArray => "Expected closing bracket for array literal"@,
        ParseError::UnclosedIndex => "Expected closing bracket for index"@,
        ParseError::NumberOutOfRange => "Unexpected number literal out of range"@,
        ParseError::TooComplex => "Unexpected program size: parse step limit exceeded"@,
    }
}

impl ParseError {
    /// A message for people.
    pub fn message(&self) -> (r: Vec<char>)
        ensures
            r@ == parse_message(*self),
    {
        let mut m: Vec<char> = Vec::new();
        match self {
            ParseError::UnclosedArray => push_lit("Expected closing bracket for array literal", &mut m),
            ParseError::UnclosedIndex => push_lit("Expected closing bracket for index", &mut m),
            ParseError::NumberOutOfRange => push_lit("Unexpected number literal out of range", &mut m),
            ParseError::TooComplex => push_lit("Unexpected program size: parse step limit exceeded", &mut m),
        }
        proof {
            assert(m@ =~= parse_message(*self));
        }
        m
    }
}

/// The budget of parsing steps; no program of a size that fits in memory
/// comes near it.
pub const PARSE_BUDGET: u64 = 4_000_000_000_000_000_000;

pub open spec fn opt_stmt_v(o: Option<Stmt>) -> Option<SStmt> {
    match o {
        Some(s) => Some(s@),
        None => None,
    }
}

pub open spec fn opt_exprs_v(o: Option<Vec<Expr>>) -> Option<Seq<SExpr>> {
    match o {
        Some(v) => Some(exprs_view(v@)),
        None => None,
    }
}

pub open spec fn opt_vec_block_v(o: Option<Vec<Stmt>>) -> Option<Seq<SStmt>> {
    match o {
        Some(v) => Some(block_view(&v)),
        None => None,
    }
}

fn next_budget(left: u64, bound: u64) -> (r: u64)
    ensures
        r as nat == next_fuel(left as nat, bound as nat),
{
    if left < bound {
        left
    } else {
        bound
    }
}

/// Parses a token stream, holding one token of lookahead.
pub struct Parser {
    lexer: Lexer,
    current: Token,
    error: Option<ParseError>,
}

/// The position of the first `.` in `t` at or after `i`, or `t.len()`.
pub open spec fn dot_index(t: Seq<char>, i: int) -> int
    decreases t.len() - i,
{
    if 0 <= i < t.len() && t[i] != '.' {
        dot_index(t, i + 1)
    } else {
        i
    }
}

/// Splits the text of a double literal at its first `.`.
fn split_at_dot(t: &Vec<char>) -> (r: (Vec<char>, Vec<char>))
    ensures
        ({
            let k = dot_index(t@, 0);
            &&& r.0@ == t@.subrange(0, k)
            &&& r.1@ == if k < t@.len() { t@.subrange(k + 1, t@.len() as int) } else { Seq::empty() }
        }),
{
    let mut k: usize = 0;
    while k < t.len() && t[k] != '.'
        invariant
            k <= t.len(),
            dot_index(t@, 0) == dot_index(t@, k as int),
        decreases t.len() - k,
    {
        k += 1;
    }
    let mut whole: Vec<char> = Vec::new();
    let mut i: usize = 0;
    while i < k
        invariant
            k <= t.len(),
            i <= k,
            whole@ == t@.subrange(0, i as int),
        decreases k - i,
    {
        whole.push(t[i]);
        i += 1;
        proof {
            assert(whole@ =~= t@.subrange(0, i as int));
        }
    }
    let mut frac: Vec<char> = Vec::new();
    if k < t.len() {
        let mut j: usize = k + 1;
        while j < t.len()
            invariant
                k < t.len(),
                k + 1 <= j <= t.len(),
                frac@ == t@.subrange(k + 1, j as int),
            decreases t.len() - j,
        {
            frac.push(t[j]);
            j += 1;
            proof {
                assert(frac@ =~= t@.subrange(k + 1, j as int));
            }
        }
    }
    proof {
        assert(frac@ =~= (if k < t@.len() { t@.subrange(k + 1, t@.len() as int) } else { Seq::empty() }));
    }
    (whole, frac)
}

impl Parser {
    pub closed spec fn view(&self) -> PState {
        PState {
            src: self.lexer.source(),
            pos: self.lexer.pos(),
            kind: self.current.kind,
            text: self.current.text@,
            err: self.error,
        }
    }

    /// A parser over `lexer`, positioned on its first token.
    pub fn new(mut lexer: Lexer) -> (r: Parser)
        ensures
            r@ == adv(PState { src: lexer.source(), pos: lexer.pos(), kind: TokenKind::EOF, text: Seq::empty(), err: None }),
    {
        let current = lexer.next_token();
        Parser { lexer, current, error: None }
    }

    /// Moves to the next token.
    fn advance(&mut self)
        ensures
            final(self)@ == adv(old(self)@),
    {
        self.current = self.lexer.next_token();
    }

    fn at(&self, k: TokenKind) -> (r: bool)
        ensures
            r == (self@.kind == k),
    {
        self.current.kind == k
    }

    fn fail(&mut self, e: ParseError)
        ensures
            final(self)@ == fail(old(self)@, e),
    {
        if self.error.is_none() {
            self.error = Some(e);
        }
    }

    /// Parses the whole input: the statements that parse, in order, or the
    /// first fault that stops parsing.
    pub fn parse(&mut self) -> (r: Result<Vec<Stmt>, ParseError>)
        ensures
            match r {
                Ok(v) => parse_from(old(self)@, PARSE_BUDGET as nat) == Ok::<Seq<SStmt>, ParseError>(block_view(&v)),
                Err(e) => parse_from(old(self)@, PARSE_BUDGET as nat) == Err::<Seq<SStmt>, ParseError>(e),
            },
    {
        let mut stmts: Vec<Stmt> = Vec::new();
        let mut fuel: u64 = PARSE_BUDGET;
        let ghost model = p_program(Seq::empty(), self@, fuel as nat);
        proof {
            assert(block_view(&stmts) =~= Seq::<SStmt>::empty());
        }
        loop
            invariant
                model == p_program(Seq::empty(), old(self)@, PARSE_BUDGET as nat),
                model == p_program(block_view(&stmts), self@, fuel as nat),
            ensures
                fuel == 0 || self@.kind == TokenKind::EOF,
            decreases fuel,
        {
            if fuel == 0 || self.at(TokenKind::EOF) {
                break;
            }
            let f = fuel - 1;
            let (s, f1) = self.parse_stmt(f);
            match s {
                Some(st) => {
                    let ghost before = block_view(&stmts);
                    stmts.push(st);
                    proof {
                        assert(block_view(&stmts) =~= before.push(st@));
                    }
                },
                None => {
                    if !self.at(TokenKind::EOF) {
                        self.advance();
                    }
                },
            }
            fuel = next_budget(f1, f);
        }
        if fuel == 0 {
            self.fail(ParseError::TooComplex);
        }
        match self.error {
            Some(e) => Err(e),
            None => Ok(stmts),
        }
    }

    /// Checks for and consumes the `;` after a statement.
    fn then_semicolon(&mut self, r: (Option<Stmt>, u64)) -> (res: (Option<Stmt>, u64))
        ensures
            (opt_stmt_v(res.0), final(self)@, res.1 as nat) == then_semicolon((opt_stmt_v(r.0), old(self)@, r.1 as nat)),
    {
        match r.0 {
            None => (None, r.1),
            Some(s) => {
                if !self.at(TokenKind::Semicolon) {
                    (None, r.1)
                } else {
                    self.advance();
                    (Some(s), r.1)
                }
            },
        }
    }

    /// Parses one statement, chosen by its first token.
    fn parse_stmt(&mut self, fuel: u64) -> (r: (Option<Stmt>, u64))
        ensures
            (opt_stmt_v(r.0), final(self)@, r.1 as nat) == p_stmt(old(self)@, fuel as nat),
        decreases fuel,
    {
        if fuel == 0 {
            self.fail(ParseError::TooComplex);
            return (None, 0);
        }
        let f = fuel - 1;
        match self.current.kind {
            TokenKind::Let => self.parse_let_stmt(f),
            TokenKind::Print => self.parse_print_stmt(f),
            TokenKind::While => self.parse_while_stmt(f),
            TokenKind::For => self.parse_for_stmt(f),
            TokenKind::If => self.parse_if_stmt(f),
            TokenKind::Funct => self.parse_function_def(f),
            TokenKind::Return => self.parse_return_stmt(f),
            TokenKind::Ident => {
                if self.is_assignment() {
                    self.parse_assign_stmt(f)
                } else {
                    self.parse_expr_stmt(f)
                }
            },
            _ => (None, f),
        }
    }

    /// Whether the current token is a name followed at once by `=`.
    fn is_assignment(&self) -> (r: bool)
        ensures
            r == is_assign(self@),
    {
        self.current.kind == TokenKind::Ident && self.lexer.peek_kind() == TokenKind::Assign
    }

    /// `expr;`
    fn parse_expr_stmt(&mut self, fuel: u64) -> (r: (Option<Stmt>, u64))
        ensures
            (opt_stmt_v(r.0), final(self)@, r.1 as nat) == p_expr_stmt(old(self)@, fuel as nat),
        decreases fuel,
    {
        if fuel == 0 {
            self.fail(ParseError::TooComplex);
            return (None, 0);
        }
        let (e, f1) = self.parse_expr(fuel - 1);
        match e {
            None => (None, f1),
            Some(x) => self.then_semicolon((Some(Stmt::ExprStmt(x)), f1)),
        }
    }

    /// `let name[: type] = expr;`
    fn parse_let_stmt(&mut self, fuel: u64) -> (r: (Option<Stmt>, u64))
        ensures
            (opt_stmt_v(r.0), final(self)@, r.1 as nat) == p_let(old(self)@, fuel as nat),
        decreases fuel,
    {
        if fuel == 0 {
            self.fail(ParseError::TooComplex);
            return (None, 0);
        }
        let r = self.parse_let_stmt_no_semicolon(fuel - 1);
        self.then_semicolon(r)
    }

    /// `name = expr;`
    fn parse_assign_stmt(&mut self, fuel: u64) -> (r: (Option<Stmt>, u64))
        ensures
            (opt_stmt_v(r.0), final(self)@, r.1 as nat) == p_assign(old(self)@, fuel as nat),
        decreases fuel,
    {
        if fuel == 0 {
            self.fail(ParseError::TooComplex);
            return (None, 0);
        }
        let r = self.parse_assign_stmt_no_semicolon(fuel - 1);
        self.then_semicolon(r)
    }

    /// A type name.
    fn parse_type(&mut self) -> (r: Option<Type>)
        ensures
            (r, final(self)@) == p_type(old(self)@),
    {
        let t = match self.current.kind {
            TokenKind::Int => Type::Int,
            TokenKind::Bool => Type::Bool,
            TokenKind::StringType => Type::String,
            TokenKind::DoubleType => Type::Double,
            _ => {
                return None;
            },
        };
        self.advance();
        Some(t)
    }

    /// `let name[: type] = expr`, without the semicolon.
    fn parse_let_stmt_no_semicolon(&mut self, fuel: u64) -> (r: (Option<Stmt>, u64))
        ensures
            (opt_stmt_v(r.0), final(self)@, r.1 as nat) == p_let_ns(old(self)@, fuel as nat),
        decreases fuel,
    {
        if fuel == 0 {
            self.fail(ParseError::TooComplex);
            return (None, 0);
        }
        let f = fuel - 1;
        self.advance();
        if !self.at(TokenKind::Ident) {
            return (None, f);
        }
        let var_name = self.current.text.clone();
        self.advance();
        let t = if self.at(TokenKind::Colon) {
            self.advance();
            self.parse_type()
        } else {
            Some(Type::Int)
        };
        match t {
            None => (None, f),
            Some(var_type) => {
                if !self.at(TokenKind::Assign) {
                    return (None, f);
                }
                self.advance();
                let (e, f4) = self.parse_expr(f);
                match e {
                    None => (None, f4),
                    Some(x) => (Some(Stmt::Let(var_type, var_name, x)), f4),
                }
            },
        }
    }

    /// `name = expr`, without the semicolon.
    fn parse_assign_stmt_no_semicolon(&mut self, fuel: u64) -> (r: (Option<Stmt>, u64))
        ensures
            (opt_stmt_v(r.0), final(self)@, r.1 as nat) == p_assign_ns(old(self)@, fuel as nat),
        decreases fuel,
    {
        if fuel == 0 {
            self.fail(ParseError::TooComplex);
            return (None, 0);
        }
        let f = fuel - 1;
        let name = self.current.text.clone();
        self.advance();
        if !self.at(TokenKind::Assign) {
            return (None, f);
        }
        self.advance();
        let (e, f2) = self.parse_expr(f);
        match e {
            None => (None, f2),
            Some(x) => (Some(Stmt::Assign(name, x)), f2),
        }
    }

    /// `print(expr);`
    fn parse_print_stmt(&mut self, fuel: u64) -> (r: (Option<Stmt>, u64))
        ensures
            (opt_stmt_v(r.0), final(self)@, r.1 as nat) == p_print(old(self)@, fuel as nat),
        decreases fuel,
    {
        if fuel == 0 {
            self.fail(ParseError::TooComplex);
            return (None, 0);
        }
        self.advance();
        let (e, f1) = self.parse_paren_expr(fuel - 1);
        match e {
            None => (None, f1),
            Some(x) => self.then_semicolon((Some(Stmt::Print(x)), f1)),
        }
    }

    /// `(expr)`
    fn parse_paren_expr(&mut self, fuel: u64) -> (r: (Option<Expr>, u64))
        ensures
            (opt_expr_view(r.0), final(self)@, r.1 as nat) == p_paren(old(self)@, fuel as nat),
        decreases fuel,
    {
        if fuel == 0 {
            self.fail(ParseError::TooComplex);
            return (None, 0);
        }
        if !self.at(TokenKind::LParen) {
            return (None, fuel - 1);
        }
        self.advance();
        let (e, f1) = self.parse_expr(fuel - 1);
        match e {
            None => (None, f1),
            Some(x) => {
                if !self.at(TokenKind::RParen) {
                    (None, f1)
                } else {
                    self.advance();
                    (Some(x), f1)
                }
            },
        }
    }

    /// `{ statements }`: a statement that does not parse is skipped token by
    /// token.
    fn parse_block(&mut self, fuel: u64) -> (r: (Option<Vec<Stmt>>, u64))
        ensures
            (opt_vec_block_v(r.0), final(self)@, r.1 as nat) == p_block(old(self)@, fuel as nat),
        decreases fuel,
    {
        if fuel == 0 {
            self.fail(ParseError::TooComplex);
            return (None, 0);
        }
        if !self.at(TokenKind::LBrace) {
            return (None, fuel - 1);
        }
        self.advance();
        let mut body: Vec<Stmt> = Vec::new();
        let mut lf: u64 = fuel - 1;
        let ghost model = p_block_items(Seq::empty(), self@, lf as nat);
        proof {
            assert(block_view(&body) =~= Seq::<SStmt>::empty());
        }
        loop
            invariant
                lf < fuel,
                model == p_block(old(self)@, fuel as nat),
                model == p_block_items(block_view(&body), self@, lf as nat),
            decreases lf,
        {
            if lf == 0 {
                self.fail(ParseError::TooComplex);
                return (None, 0);
            }
            let f = lf - 1;
            if self.at(TokenKind::RBrace) {
                self.advance();
                return (Some(body), f);
            }
            if self.at(TokenKind::EOF) {
                return (None, f);
            }
            let (s, f1) = self.parse_stmt(f);
            match s {
                Some(st) => {
                    let ghost before = block_view(&body);
                    body.push(st);
                    proof {
                        assert(block_view(&body) =~= before.push(st@));
                    }
                },
                None => {
                    if !self.at(TokenKind::EOF) {
                        self.advance();
                    }
                },
            }
            lf = next_budget(f1, f);
        }
    }

    /// `while (cond) { body }`
    fn parse_while_stmt(&mut self, fuel: u64) -> (r: (Option<Stmt>, u64))
        ensures
            (opt_stmt_v(r.0), final(self)@, r.1 as nat) == p_while(old(self)@, fuel as nat),
        decreases fuel,
    {
        if fuel == 0 {
            self.fail(ParseError::TooComplex);
            return (None, 0);
        }
        let f = fuel - 1;
        self.advance();
        let (c, f1) = self.parse_paren_expr(f);
        match c {
            None => (None, f1),
            Some(condition) => {
                let (b, f2) = self.parse_block(next_budget(f1, f));
                match b {
                    None => (None, f2),
                    Some(body) => (Some(Stmt::While(condition, body)), f2),
                }
            },
        }
    }

    /// `if (cond) { .. }`, any number of `elif (cond) { .. }`, an optional
    /// `else { .. }`.
    #[verifier::rlimit(80)]
    fn parse_if_stmt(&mut self, fuel: u64) -> (r: (Option<Stmt>, u64))
        ensures
            (opt_stmt_v(r.0), final(self)@, r.1 as nat) == p_if(old(self)@, fuel as nat),
        decreases fuel,
    {
        if fuel == 0 {
            self.fail(ParseError::TooComplex);
            return (None, 0);
        }
        let f = fuel - 1;
        self.advance();
        let (c, f1) = self.parse_paren_expr(f);
        let condition = match c {
            None => {
                return (None, f1);
            },
            Some(x) => x,
        };
        let (b, f2) = self.parse_block(next_budget(f1, f));
        let if_block = match b {
            None => {
                return (None, f2);
            },
            Some(x) => x,
        };
        let mut elif_branches: Vec<(Expr, Vec<Stmt>)> = Vec::new();
        let mut lf = next_budget(f2, f);
        let ghost model = p_elifs(condition@, block_view(&if_block), Seq::empty(), self@, lf as nat);
        proof {
            assert(elifs_view(&elif_branches) =~= Seq::<(SExpr, Seq<SStmt>)>::empty());
        }
        loop
            invariant
                lf < fuel,
                model == p_if(old(self)@, fuel as nat),
                model == p_elifs(condition@, block_view(&if_block), elifs_view(&elif_branches), self@, lf as nat),
            decreases lf,
        {
            if lf == 0 {
                self.fail(ParseError::TooComplex);
                return (None, 0);
            }
            let g = lf - 1;
            if self.at(TokenKind::Elif) {
                self.advance();
                let (ec, f3) = self.parse_paren_expr(g);
                let elif_cond = match ec {
                    None => {
                        return (None, f3);
                    },
                    Some(x) => x,
                };
                let (eb, f4) = self.parse_block(next_budget(f3, g));
                let elif_block = match eb {
                    None => {
                        return (None, f4);
                    },
                    Some(x) => x,
                };
                let ghost before = elifs_view(&elif_branches);
                let ghost item = (elif_cond@, block_view(&elif_block));
                elif_branches.push((elif_cond, elif_block));
                proof {
                    assert(elifs_view(&elif_branches) =~= before.push(item));
                }
                lf = next_budget(f4, g);
            } else if self.at(TokenKind::Else) {
                self.advance();
                let (eb, f3) = self.parse_block(g);
                match eb {
                    None => {
                        return (None, f3);
                    },
                    Some(else_block) => {
                        let r = Stmt::If(condition, if_block, elif_branches, Some(else_block));
                        proof {
                            assert(elifs_view(&r->If_2) =~= r@->If_2);
                        }
                        return (Some(r), f3);
                    },
                }
            } else {
                let r = Stmt::If(condition, if_block, elif_branches, None);
                proof {
                    assert(elifs_view(&r->If_2) =~= r@->If_2);
                }
                return (Some(r), g);
            }
        }
    }

    /// An expression.
    pub fn parse_expr(&mut self, fuel: u64) -> (r: (Option<Expr>, u64))
        ensures
            (opt_expr_view(r.0), final(self)@, r.1 as nat) == p_expr(old(self)@, fuel as nat),
        decreases fuel,
    {
        if fuel == 0 {
            self.fail(ParseError::TooComplex);
            return (None, 0);
        }
        self.parse_binary(0, fuel - 1)
    }

    /// The binary operators of precedence `level` (0 for `or`, up to 5 for
    /// `*`, `/` and `%`) and tighter, each level folded to the left.
    fn parse_binary(&mut self, level: u64, fuel: u64) -> (r: (Option<Expr>, u64))
        ensures
            (opt_expr_view(r.0), final(self)@, r.1 as nat) == p_level(level as nat, old(self)@, fuel as nat),
        decreases fuel,
    {
        if fuel == 0 {
            self.fail(ParseError::TooComplex);
            return (None, 0);
        }
        let f = fuel - 1;
        if level >= 6 {
            return self.parse_unary_expr(f);
        }
        let (l, f1) = self.parse_binary(level + 1, f);
        let mut left = match l {
            None => {
                return (None, f1);
            },
            Some(x) => x,
        };
        let mut lf = next_budget(f1, f);
        let ghost model = p_level_rest(level as nat, left@, self@, lf as nat);
        loop
            invariant
                level < 6,
                lf < fuel,
                model == p_level(level as nat, old(self)@, fuel as nat),
                model == p_level_rest(level as nat, left@, self@, lf as nat),
            decreases lf,
        {
            if lf == 0 {
                self.fail(ParseError::TooComplex);
                return (None, 0);
            }
            let g = lf - 1;
            let op = self.current.kind;
            if !self.is_level_op(level, op) {
                return (Some(left), g);
            }
            self.advance();
            let (r, f2) = self.parse_binary(level + 1, g);
            match r {
                None => {
                    return (None, f2);
                },
                Some(right) => {
                    left = combine_exprs(op, left, right);
                    lf = next_budget(f2, g);
                },
            }
        }
    }

    fn is_level_op(&self, level: u64, k: TokenKind) -> (r: bool)
        requires
            level < 6,
        ensures
            r == level_op(level as nat, k),
    {
        if level == 0 {
            k == TokenKind::Or
        } else if level == 1 {
            k == TokenKind::And
        } else if level == 2 {
            k == TokenKind::Eq || k == TokenKind::Neq
        } else if level == 3 {
            k == TokenKind::LessThan || k == TokenKind::GreaterThan || k == TokenKind::LessEqual || k
                == TokenKind::GreaterEqual
        } else if level == 4 {
            k == TokenKind::Plus || k == TokenKind::Minus
        } else {
            k == TokenKind::Star || k == TokenKind::Slash || k == TokenKind::Percent
        }
    }

    /// `not`, unary minus, or a term.
    fn parse_unary_expr(&mut self, fuel: u64) -> (r: (Option<Expr>, u64))
        ensures
            (opt_expr_view(r.0), final(self)@, r.1 as nat) == p_unary(old(self)@, fuel as nat),
        decreases fuel,
    {
        if fuel == 0 {
            self.fail(ParseError::TooComplex);
            return (None, 0);
        }
        let f = fuel - 1;
        if self.at(TokenKind::Not) || self.at(TokenKind::Minus) {
            let is_not = self.at(TokenKind::Not);
            self.advance();
            let (e, f1) = self.parse_unary_expr(f);
            match e {
                None => (None, f1),
                Some(x) => (Some(if is_not { Expr::Not(Box::new(x)) } else { Expr::Neg(Box::new(x)) }), f1),
            }
        } else {
            self.parse_term(f)
        }
    }

    /// Expressions separated by commas, up to a `close` token (not consumed).
    fn parse_expr_list(&mut self, close: TokenKind, fuel: u64) -> (r: (Option<Vec<Expr>>, u64))
        ensures
            (opt_exprs_v(r.0), final(self)@, r.1 as nat) == p_list(close, old(self)@, fuel as nat),
        decreases fuel,
    {
        if fuel == 0 {
            self.fail(ParseError::TooComplex);
            return (None, 0);
        }
        let mut items: Vec<Expr> = Vec::new();
        if self.at(close) {
            proof {
                assert(exprs_view(items@) =~= Seq::<SExpr>::empty());
            }
            return (Some(items), fuel - 1);
        }
        let mut lf = fuel - 1;
        let ghost model = p_list_rest(Seq::empty(), self@, lf as nat);
        proof {
            assert(exprs_view(items@) =~= Seq::<SExpr>::empty());
        }
        loop
            invariant
                lf < fuel,
                model == p_list(close, old(self)@, fuel as nat),
                model == p_list_rest(exprs_view(items@), self@, lf as nat),
            decreases lf,
        {
            if lf == 0 {
                self.fail(ParseError::TooComplex);
                return (None, 0);
            }
            let g = lf - 1;
            let (e, f1) = self.parse_expr(g);
            match e {
                None => {
                    return (None, f1);
                },
                Some(x) => {
                    let ghost before = exprs_view(items@);
                    let ghost xv = x@;
                    items.push(x);
                    proof {
                        assert(exprs_view(items@) =~= before.push(xv));
                    }
                    if self.at(TokenKind::Comma) {
                        self.advance();
                        lf = next_budget(f1, g);
                    } else {
                        return (Some(items), f1);
                    }
                },
            }
        }
    }

    /// A literal, a name, a call, an array literal or a parenthesized
    /// expression, then any number of `[index]`.
    #[verifier::rlimit(80)]
    fn parse_term(&mut self, fuel: u64) -> (r: (Option<Expr>, u64))
        ensures
            (opt_expr_view(r.0), final(self)@, r.1 as nat) == p_term(old(self)@, fuel as nat),
        decreases fuel,
    {
        if fuel == 0 {
            self.fail(ParseError::TooComplex);
            return (None, 0);
        }
        let f = fuel - 1;
        let (term, pf): (Expr, u64) = match self.current.kind {
            TokenKind::Number => {
                match int_literal_value(&self.current.text) {
                    Some(n) => {
                        self.advance();
                        (Expr::Number(n), f)
                    },
                    None => {
                        self.fail(ParseError::NumberOutOfRange);
                        return (None, f);
                    },
                }
            },
            TokenKind::Double => {
                let (whole, frac) = split_at_dot(&self.current.text);
                match double_literal_value(&whole, &frac) {
                    Some(d) => {
                        self.advance();
                        (Expr::Double(d), f)
                    },
                    None => {
                        self.fail(ParseError::NumberOutOfRange);
                        return (None, f);
                    },
                }
            },
            TokenKind::True => {
                self.advance();
                (Expr::Bool(true), f)
            },
            TokenKind::False => {
                self.advance();
                (Expr::Bool(false), f)
            },
            TokenKind::StrLiteral => {
                let s = self.current.text.clone();
                self.advance();
                (Expr::StrLiteral(s), f)
            },
            TokenKind::Ident => {
                let name = self.current.text.clone();
                self.advance();
                if self.at(TokenKind::LParen) {
                    self.advance();
                    let (args, f2) = self.parse_expr_list(TokenKind::RParen, f);
                    match args {
                        None => {
                            return (None, f2);
                        },
                        Some(a) => {
                            if !self.at(TokenKind::RParen) {
                                return (None, f2);
                            }
                            self.advance();
                            let call = Expr::FunctionCall(name, a);
                            proof {
                                assert(exprs_view(call->FunctionCall_1@) =~= call@->FunctionCall_1);
                            }
                            (call, next_budget(f2, f))
                        },
                    }
                } else {
                    (Expr::Var(name), f)
                }
            },
            TokenKind::LBracket => {
                self.advance();
                let (items, f2) = self.parse_expr_list(TokenKind::RBracket, f);
                match items {
                    None => {
                        return (None, f2);
                    },
                    Some(a) => {
                        if !self.at(TokenKind::RBracket) {
                            self.fail(ParseError::UnclosedArray);
                            return (None, f2);
                        }
                        self.advance();
                        let array = Expr::ArrayLiteral(a);
                        proof {
                            assert(exprs_view(array->ArrayLiteral_0@) =~= array@->ArrayLiteral_0);
                        }
                        (array, next_budget(f2, f))
                    },
                }
            },
            TokenKind::LParen => {
                self.advance();
                let (e, f2) = self.parse_expr(f);
                match e {
                    None => {
                        return (None, f2);
                    },
                    Some(x) => {
                        if !self.at(TokenKind::RParen) {
                            return (None, f2);
                        }
                        self.advance();
                        (x, next_budget(f2, f))
                    },
                }
            },
            _ => {
                return (None, f);
            },
        };
        let ghost model = p_postfix(term@, self@, pf as nat);
        let mut expr = term;
        let mut lf = pf;
        loop
            invariant
                lf < fuel,
                model == p_term(old(self)@, fuel as nat),
                model == p_postfix(expr@, self@, lf as nat),
            decreases lf,
        {
            if lf == 0 {
                self.fail(ParseError::TooComplex);
                return (None, 0);
            }
            let g = lf - 1;
            if !self.at(TokenKind::LBracket) {
                return (Some(expr), g);
            }
            self.advance();
            let (i, f1) = self.parse_expr(g);
            match i {
                None => {
                    return (None, f1);
                },
                Some(index) => {
                    if !self.at(TokenKind::RBracket) {
                        self.fail(ParseError::UnclosedIndex);
                        return (None, f1);
                    }
                    self.advance();
                    expr = Expr::Index(Box::new(expr), Box::new(index));
                    lf = next_budget(f1, g);
                },
            }
        }
    }

    /// `for (init; cond; update) { body }`, each of the three optional.
    fn parse_for_stmt(&mut self, fuel: u64) -> (r: (Option<Stmt>, u64))
        ensures
            (opt_stmt_v(r.0), final(self)@, r.1 as nat) == p_for(old(self)@, fuel as nat),
        decreases fuel,
    {
        if fuel == 0 {
            self.fail(ParseError::TooComplex);
            return (None, 0);
        }
        let f = fuel - 1;
        self.advance();
        if !self.at(TokenKind::LParen) {
            return (None, f);
        }
        self.advance();
        let (init, f3): (Option<Option<Box<Stmt>>>, u64) = if self.at(TokenKind::Semicolon) {
            (Some(None), f)
        } else if self.at(TokenKind::Let) || self.at(TokenKind::Ident) {
            let (s, f3) = if self.at(TokenKind::Let) {
                self.parse_let_stmt_no_semicolon(f)
            } else {
                self.parse_assign_stmt_no_semicolon(f)
            };
            match s {
                None => (None, f3),
                Some(st) => (Some(Some(Box::new(st))), f3),
            }
        } else {
            (None, f)
        };
        match init {
            None => (None, f3),
            Some(init) => self.parse_for_rest(init, next_budget(f3, f)),
        }
    }

    /// A `for` after its first statement: `; cond; update) { body }`.
    #[verifier::rlimit(80)]
    fn parse_for_rest(&mut self, init: Option<Box<Stmt>>, fuel: u64) -> (r: (Option<Stmt>, u64))
        ensures
            (opt_stmt_v(r.0), final(self)@, r.1 as nat) == p_for_cond(opt_stmt_view(init), old(self)@, fuel as nat),
        decreases fuel,
    {
        if fuel == 0 {
            self.fail(ParseError::TooComplex);
            return (None, 0);
        }
        let f = fuel - 1;
        if !self.at(TokenKind::Semicolon) {
            return (None, f);
        }
        self.advance();
        let (cond, f2): (Option<Option<Expr>>, u64) = if self.at(TokenKind::Semicolon) {
            (Some(None), f)
        } else {
            let (c, f2) = self.parse_expr(f);
            match c {
                None => (None, f2),
                Some(x) => (Some(Some(x)), f2),
            }
        };
        let condition = match cond {
            None => {
                return (None, f2);
            },
            Some(c) => c,
        };
        if !self.at(TokenKind::Semicolon) {
            return (None, f2);
        }
        self.advance();
        let (upd, f4): (Option<Option<Box<Stmt>>>, u64) = if self.at(TokenKind::RParen) {
            (Some(None), next_budget(f2, f))
        } else if self.at(TokenKind::Ident) {
            let (u, f4) = self.parse_assign_stmt_no_semicolon(next_budget(f2, f));
            match u {
                None => (None, f4),
                Some(x) => (Some(Some(Box::new(x))), f4),
            }
        } else {
            (None, next_budget(f2, f))
        };
        let update = match upd {
            None => {
                return (None, f4);
            },
            Some(u) => u,
        };
        if !self.at(TokenKind::RParen) {
            return (None, f4);
        }
        self.advance();
        let (b, f5) = self.parse_block(next_budget(f4, f));
        match b {
            None => (None, f5),
            Some(body) => (Some(Stmt::For(init, condition, update, body)), f5),
        }
    }

    /// `funct name(p: type, ..)[: type] { body }`
    fn parse_function_def(&mut self, fuel: u64) -> (r: (Option<Stmt>, u64))
        ensures
            (opt_stmt_v(r.0), final(self)@, r.1 as nat) == p_fundef(old(self)@, fuel as nat),
        decreases fuel,
    {
        if fuel == 0 {
            self.fail(ParseError::TooComplex);
            return (None, 0);
        }
        let f = fuel - 1;
        self.advance();
        if !self.at(TokenKind::Ident) {
            return (None, f);
        }
        let name = self.current.text.clone();
        self.advance();
        if !self.at(TokenKind::LParen) {
            return (None, f);
        }
        self.advance();
        let ghost ps_name = adv(old(self)@);
        let ghost model = p_params(Seq::empty(), self@, f as nat);
        let mut params: Vec<(Vec<char>, Type)> = Vec::new();
        let mut lf = f;
        proof {
            assert(params_view(params@) =~= Seq::<(Seq<char>, Type)>::empty());
        }
        loop
            invariant
                lf <= f,
                f == fuel - 1,
                ps_name == adv(old(self)@),
                name@ == ps_name.text,
                model == p_params(Seq::empty(), adv(adv(ps_name)), f as nat),
                model == p_params(params_view(params@), self@, lf as nat),
                model.0 is None ==> p_fundef(old(self)@, fuel as nat) == (None::<SStmt>, model.1, model.2),
            ensures
                self@.kind == TokenKind::RParen,
                lf > 0,
            decreases lf,
        {
            if lf == 0 {
                self.fail(ParseError::TooComplex);
                return (None, 0);
            }
            let g = lf - 1;
            if self.at(TokenKind::RParen) {
                break;
            }
            if !self.at(TokenKind::Ident) {
                return (None, g);
            }
            let param_name = self.current.text.clone();
            self.advance();
            if !self.at(TokenKind::Colon) {
                return (None, g);
            }
            self.advance();
            match self.parse_type() {
                None => {
                    return (None, g);
                },
                Some(param_type) => {
                    let ghost before = params_view(params@);
                    let ghost item = (param_name@, param_type);
                    if self.at(TokenKind::Comma) {
                        params.push((param_name, param_type));
                        self.advance();
                    } else if !self.at(TokenKind::RParen) {
                        return (None, g);
                    } else {
                        params.push((param_name, param_type));
                    }
                    proof {
                        assert(params_view(params@) =~= before.push(item));
                    }
                    lf = g;
                },
            }
        }
        let lf = lf - 1;
        self.advance();
        let ret = if self.at(TokenKind::Colon) {
            self.advance();
            match self.parse_type() {
                None => {
                    return (None, lf);
                },
                Some(t) => Some(t),
            }
        } else {
            None
        };
        let (b, f6) = self.parse_block(next_budget(lf, f));
        match b {
            None => (None, f6),
            Some(body) => (Some(Stmt::FunctionDef(name, params, ret, body)), f6),
        }
    }

    /// `return expr;` or `return;`
    fn parse_return_stmt(&mut self, fuel: u64) -> (r: (Option<Stmt>, u64))
        ensures
            (opt_stmt_v(r.0), final(self)@, r.1 as nat) == p_return(old(self)@, fuel as nat),
        decreases fuel,
    {
        if fuel == 0 {
            self.fail(ParseError::TooComplex);
            return (None, 0);
        }
        let f = fuel - 1;
        self.advance();
        if self.at(TokenKind::Semicolon) {
            self.advance();
            return (Some(Stmt::Return(None)), f);
        }
        let (e, f2) = self.parse_expr(f);
        match e {
            None => (None, f2),
            Some(x) => self.then_semicolon((Some(Stmt::Return(Some(x))), f2)),
        }
    }
}

/// The expression that a binary operator token builds.
fn combine_exprs(k: TokenKind, l: Expr, r: Expr) -> (e: Expr)
    ensures
        e@ == combine(k, l@, r@),
{
    let (l, r) = (Box::new(l), Box::new(r));
    match k {
        TokenKind::Or => Expr::Or(l, r),
        TokenKind::And => Expr::And(l, r),
        TokenKind::Eq => Expr::Eq(l, r),
        TokenKind::Neq => Expr::Neq(l, r),
        TokenKind::LessThan => Expr::LessThan(l, r),
        TokenKind::GreaterThan => Expr::GreaterThan(l, r),
        TokenKind::LessEqual => Expr::LessEqual(l, r),
        TokenKind::GreaterEqual => Expr::GreaterEqual(l, r),
        TokenKind::Plus => Expr::Add(l, r),
        TokenKind::Minus => Expr::Sub(l, r),
        TokenKind::Star => Expr::Mul(l, r),
        TokenKind::Slash => Expr::Div(l, r),
        _ => Expr::Mod(l, r),
    }
}

} // verus!
