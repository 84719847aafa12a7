//! The syntax tree that the parser builds and the interpreter walks.
use vstd::prelude::*;

verus! {

/// A declared type. It annotates declarations and parameters and is never
/// checked against runtime values.
#[derive(Clone, Copy, Debug, PartialEq, Eq, Structural)]
pub enum Type {
    Int,
    Bool,
    String,
    Double,
}

/// A statement.
#[derive(Debug)]
pub enum Stmt {
    /// `let name: type = expr;`
    Let(Type, Vec<char>, Expr),
    /// `name = expr;`
    Assign(Vec<char>, Expr),
    /// `print(expr);`
    Print(Expr),
    /// `while (cond) { body }`
    While(Expr, Vec<Stmt>),
    /// `for (init; cond; update) { body }`, each of the three optional.
    For(Option<Box<Stmt>>, Option<Expr>, Option<Box<Stmt>>, Vec<Stmt>),
    /// `if (cond) { .. } elif (cond) { .. } else { .. }`
    If(Expr, Vec<Stmt>, Vec<(Expr, Vec<Stmt>)>, Option<Vec<Stmt>>),
    /// `funct name(p: type, ..): type { body }`
    FunctionDef(Vec<char>, Vec<(Vec<char>, Type)>, Option<Type>, Vec<Stmt>),
    /// `return expr;` or `return;`
    Return(Option<Expr>),
    /// An expression evaluated for its effects, such as a call.
    ExprStmt(Expr),
}

/// An expression.
#[derive(Debug)]
pub enum Expr {
    Number(i64),
    Bool(bool),
    StrLiteral(Vec<char>),
    /// A double literal as a count of millionths.
    Double(i64),
    Var(Vec<char>),
    FunctionCall(Vec<char>, Vec<Expr>),
    Add(Box<Expr>, Box<Expr>),
    Sub(Box<Expr>, Box<Expr>),
    Mul(Box<Expr>, Box<Expr>),
    Div(Box<Expr>, Box<Expr>),
    Mod(Box<Expr>, Box<Expr>),
    ArrayLiteral(Vec<Expr>),
    Index(Box<Expr>, Box<Expr>),
    /// `array[index] = value`, whose value is the updated array.
    AssignIndex(Box<Expr>, Box<Expr>, Box<Expr>),
    Eq(Box<Expr>, Box<Expr>),
    LessThan(Box<Expr>, Box<Expr>),
    GreaterThan(Box<Expr>, Box<Expr>),
    LessEqual(Box<Expr>, Box<Expr>),
    GreaterEqual(Box<Expr>, Box<Expr>),
    Neq(Box<Expr>, Box<Expr>),
    Neg(Box<Expr>),
    And(Box<Expr>, Box<Expr>),
    Or(Box<Expr>, Box<Expr>),
    Not(Box<Expr>),
}

/// The model of an expression.
pub enum SExpr {
    Number(i64),
    Bool(bool),
    StrLiteral(Seq<char>),
    Double(i64),
    Var(Seq<char>),
    FunctionCall(Seq<char>, Seq<SExpr>),
    Add(Box<SExpr>, Box<SExpr>),
    Sub(Box<SExpr>, Box<SExpr>),
    Mul(Box<SExpr>, Box<SExpr>),
    Div(Box<SExpr>, Box<SExpr>),
    Mod(Box<SExpr>, Box<SExpr>),
    ArrayLiteral(Seq<SExpr>),
    Index(Box<SExpr>, Box<SExpr>),
    AssignIndex(Box<SExpr>, Box<SExpr>, Box<SExpr>),
    Eq(Box<SExpr>, Box<SExpr>),
    LessThan(Box<SExpr>, Box<SExpr>),
    GreaterThan(Box<SExpr>, Box<SExpr>),
    LessEqual(Box<SExpr>, Box<SExpr>),
    GreaterEqual(Box<SExpr>, Box<SExpr>),
    Neq(Box<SExpr>, Box<SExpr>),
    Neg(Box<SExpr>),
    And(Box<SExpr>, Box<SExpr>),
    Or(Box<SExpr>, Box<SExpr>),
    Not(Box<SExpr>),
}

/// The model of a statement.
pub enum SStmt {
    Let(Type, Seq<char>, SExpr),
    Assign(Seq<char>, SExpr),
    Print(SExpr),
    While(SExpr, Seq<SStmt>),
    For(Option<Box<SStmt>>, Option<SExpr>, Option<Box<SStmt>>, Seq<SStmt>),
    If(SExpr, Seq<SStmt>, Seq<(SExpr, Seq<SStmt>)>, Option<Seq<SStmt>>),
    FunctionDef(Seq<char>, Seq<(Seq<char>, Type)>, Option<Type>, Seq<SStmt>),
    Return(Option<SExpr>),
    ExprStmt(SExpr),
}

impl Expr {
    pub open spec fn view(&self) -> SExpr
        decreases self,
    {
        match self {
            Expr::Number(n) => SExpr::Number(*n),
            Expr::Bool(b) => SExpr::Bool(*b),
            Expr::StrLiteral(s) => SExpr::StrLiteral(s@),
            Expr::Double(d) => SExpr::Double(*d),
            Expr::Var(n) => SExpr::Var(n@),
            Expr::FunctionCall(n, args) => SExpr::FunctionCall(
                n@,
                Seq::new(args.len() as nat, |i: int| if 0 <= i < args.len() { args[i].view() } else { SExpr::Number(0) }),
            ),
            Expr::Add(l, r) => SExpr::Add(Box::new(l.view()), Box::new(r.view())),
            Expr::Sub(l, r) => SExpr::Sub(Box::new(l.view()), Box::new(r.view())),
            Expr::Mul(l, r) => SExpr::Mul(Box::new(l.view()), Box::new(r.view())),
            Expr::Div(l, r) => SExpr::Div(Box::new(l.view()), Box::new(r.view())),
            Expr::Mod(l, r) => SExpr::Mod(Box::new(l.view()), Box::new(r.view())),
            Expr::ArrayLiteral(items) => SExpr::ArrayLiteral(
                Seq::new(items.len() as nat, |i: int| if 0 <= i < items.len() { items[i].view() } else { SExpr::Number(0) }),
            ),
            Expr::Index(a, i) => SExpr::Index(Box::new(a.view()), Box::new(i.view())),
            Expr::AssignIndex(a, i, v) => SExpr::AssignIndex(Box::new(a.view()), Box::new(i.view()), Box::new(v.view())),
            Expr::Eq(l, r) => SExpr::Eq(Box::new(l.view()), Box::new(r.view())),
            Expr::LessThan(l, r) => SExpr::LessThan(Box::new(l.view()), Box::new(r.view())),
            Expr::GreaterThan(l, r) => SExpr::GreaterThan(Box::new(l.view()), Box::new(r.view())),
            Expr::LessEqual(l, r) => SExpr::LessEqual(Box::new(l.view()), Box::new(r.view())),
            Expr::GreaterEqual(l, r) => SExpr::GreaterEqual(Box::new(l.view()), Box::new(r.view())),
            Expr::Neq(l, r) => SExpr::Neq(Box::new(l.view()), Box::new(r.view())),
            Expr::Neg(x) => SExpr::Neg(Box::new(x.view())),
            Expr::And(l, r) => SExpr::And(Box::new(l.view()), Box::new(r.view())),
            Expr::Or(l, r) => SExpr::Or(Box::new(l.view()), Box::new(r.view())),
            Expr::Not(x) => SExpr::Not(Box::new(x.view())),
        }
    }
}

/// The models of a list of expressions.
pub open spec fn exprs_view(v: Seq<Expr>) -> Seq<SExpr> {
    Seq::new(v.len(), |i: int| v[i]@)
}

/// The models of a block of statements.
pub open spec fn block_view(b: &Vec<Stmt>) -> Seq<SStmt>
    decreases b,
{
    Seq::new(b.len() as nat, |i: int| if 0 <= i < b.len() { b[i].view() } else { SStmt::Return(None) })
}

pub open spec fn params_view(p: Seq<(Vec<char>, Type)>) -> Seq<(Seq<char>, Type)> {
    Seq::new(p.len(), |i: int| (p[i].0@, p[i].1))
}

impl Stmt {
    pub open spec fn view(&self) -> SStmt
        decreases self,
    {
        match self {
            Stmt::Let(t, n, e) => SStmt::Let(*t, n@, e@),
            Stmt::Assign(n, e) => SStmt::Assign(n@, e@),
            Stmt::Print(e) => SStmt::Print(e@),
            Stmt::While(c, body) => SStmt::While(c@, block_view(body)),
            Stmt::For(init, cond, update, body) => SStmt::For(
                match init {
                    Some(s) => Some(Box::new(s.view())),
                    None => None,
                },
                match cond {
                    Some(c) => Some(c@),
                    None => None,
                },
                match update {
                    Some(s) => Some(Box::new(s.view())),
                    None => None,
                },
                block_view(body),
            ),
            Stmt::If(c, then_block, elifs, else_block) => SStmt::If(
                c@,
                block_view(then_block),
                Seq::new(
                    elifs.len() as nat,
                    |i: int| if 0 <= i < elifs.len() { (elifs[i].0@, block_view(&elifs[i].1)) } else { (SExpr::Number(0), Seq::empty()) },
                ),
                match else_block {
                    Some(b) => Some(block_view(b)),
                    None => None,
                },
            ),
            Stmt::FunctionDef(n, params, ret, body) => SStmt::FunctionDef(n@, params_view(params@), *ret, block_view(body)),
            Stmt::Return(e) => SStmt::Return(
                match e {
                    Some(x) => Some(x@),
                    None => None,
                },
            ),
            Stmt::ExprStmt(e) => SStmt::ExprStmt(e@),
        }
    }
}

pub open spec fn opt_expr_view(o: Option<Expr>) -> Option<SExpr> {
    match o {
        Some(c) => Some(c@),
        None => None,
    }
}

pub open spec fn opt_stmt_view(o: Option<Box<Stmt>>) -> Option<Box<SStmt>> {
    match o {
        Some(s) => Some(Box::new(s@)),
        None => None,
    }
}

pub open spec fn opt_block_view(o: &Option<Vec<Stmt>>) -> Option<Seq<SStmt>> {
    match o {
        Some(b) => Some(block_view(b)),
        None => None,
    }
}

pub open spec fn elifs_view(elifs: &Vec<(Expr, Vec<Stmt>)>) -> Seq<(SExpr, Seq<SStmt>)> {
    Seq::new(
        elifs.len() as nat,
        |i: int| if 0 <= i < elifs.len() { (elifs[i].0@, block_view(&elifs[i].1)) } else { (SExpr::Number(0), Seq::empty()) },
    )
}

} // verus!
