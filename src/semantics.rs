//! The meaning of a program: a model interpreter over mathematical values.
//!
//! Every step of evaluation spends one unit of a step budget ("fuel"), so
//! that every run ends; a run that spends the whole budget fails with
//! `StepLimitExceeded`. A step hands the budget that is left to the next one.
use vstd::prelude::*;
use crate::ast::{SExpr, SStmt, Type};
use crate::ops::{assign_index, binop, unop, Op, SErr};
use crate::value::{render, SVal};

verus! {

/// How a statement ended: normally, or by `return` with a value.
pub enum Flow {
    Normal,
    Return(SVal),
}

/// The model of the interpreter's state: the variables of the current
/// activation in order of declaration, the function definitions, and the
/// lines printed so far.
pub struct SState {
    pub env: Seq<(Seq<char>, SVal)>,
    pub funcs: Seq<SStmt>,
    pub out: Seq<Seq<char>>,
}

pub open spec fn empty_state() -> SState {
    SState { env: Seq::empty(), funcs: Seq::empty(), out: Seq::empty() }
}

/// The position of the first variable named `name` at or after `i`, or -1.
pub open spec fn find_var(env: Seq<(Seq<char>, SVal)>, name: Seq<char>, i: int) -> int
    decreases env.len() - i,
{
    if i < 0 || i >= env.len() {
        -1
    } else if env[i].0 == name {
        i
    } else {
        find_var(env, name, i + 1)
    }
}

/// Binds `name` to `v`: the existing binding is replaced, or a new one added.
pub open spec fn set_var(env: Seq<(Seq<char>, SVal)>, name: Seq<char>, v: SVal) -> Seq<(Seq<char>, SVal)> {
    let k = find_var(env, name, 0);
    if k >= 0 {
        env.update(k, (name, v))
    } else {
        env.push((name, v))
    }
}

/// The name that a function definition declares.
pub open spec fn def_name(s: SStmt) -> Seq<char> {
    match s {
        SStmt::FunctionDef(name, _, _, _) => name,
        _ => Seq::empty(),
    }
}

/// The position of the first definition of `name` at or after `i`, or -1.
pub open spec fn find_func(funcs: Seq<SStmt>, name: Seq<char>, i: int) -> int
    decreases funcs.len() - i,
{
    if i < 0 || i >= funcs.len() {
        -1
    } else if def_name(funcs[i]) == name {
        i
    } else {
        find_func(funcs, name, i + 1)
    }
}

/// Records a definition: one of the same name is replaced.
pub open spec fn set_func(funcs: Seq<SStmt>, def: SStmt) -> Seq<SStmt> {
    let k = find_func(funcs, def_name(def), 0);
    if k >= 0 {
        funcs.update(k, def)
    } else {
        funcs.push(def)
    }
}

/// The environment of a call: the first `n` parameters bound in order.
pub open spec fn bind_params(params: Seq<(Seq<char>, Type)>, vals: Seq<SVal>, n: nat) -> Seq<(Seq<char>, SVal)>
    decreases n,
{
    if n == 0 {
        Seq::empty()
    } else {
        set_var(bind_params(params, vals, (n - 1) as nat), params[n - 1].0, vals[n - 1])
    }
}

/// The budget for the next step: what the last step left, and never more
/// than the current step had.
pub open spec fn next_fuel(left: nat, bound: nat) -> nat {
    if left < bound { left } else { bound }
}

pub open spec fn with_env(st: SState, env: Seq<(Seq<char>, SVal)>) -> SState {
    SState { env: env, funcs: st.funcs, out: st.out }
}

/// Evaluates an expression.
pub open spec fn eval(e: SExpr, st: SState, fuel: nat) -> (Result<SVal, SErr>, SState, nat)
    decreases fuel,
{
    if fuel == 0 {
        (Err(SErr::StepLimitExceeded), st, 0)
    } else {
        let f = (fuel - 1) as nat;
        match e {
            SExpr::Number(n) => (Ok(SVal::Int(n)), st, f),
            SExpr::Bool(b) => (Ok(SVal::Bool(b)), st, f),
            SExpr::StrLiteral(s) => (Ok(SVal::Str(s)), st, f),
            SExpr::Double(d) => (Ok(SVal::Double(d)), st, f),
            SExpr::Var(name) => {
                let k = find_var(st.env, name, 0);
                if k >= 0 {
                    (Ok(st.env[k].1), st, f)
                } else {
                    (Err(SErr::UndefinedVariable(name)), st, f)
                }
            },
            SExpr::FunctionCall(name, args) => call(name, args, st, f),
            SExpr::Add(l, r) => eval_binary(Op::Add, *l, *r, st, f),
            SExpr::Sub(l, r) => eval_binary(Op::Sub, *l, *r, st, f),
            SExpr::Mul(l, r) => eval_binary(Op::Mul, *l, *r, st, f),
            SExpr::Div(l, r) => eval_binary(Op::Div, *l, *r, st, f),
            SExpr::Mod(l, r) => eval_binary(Op::Mod, *l, *r, st, f),
            SExpr::ArrayLiteral(items) => {
                let (r, st1, f1) = eval_list(items, 0, Seq::empty(), st, f);
                match r {
                    Ok(vals) => (Ok(SVal::Array(vals)), st1, f1),
                    Err(err) => (Err(err), st1, f1),
                }
            },
            SExpr::Index(a, i) => eval_binary(Op::Index, *a, *i, st, f),
            SExpr::AssignIndex(a, i, v) => eval_assign_index(*a, *i, *v, st, f),
            SExpr::Eq(l, r) => eval_binary(Op::Equal, *l, *r, st, f),
            SExpr::LessThan(l, r) => eval_binary(Op::Less, *l, *r, st, f),
            SExpr::GreaterThan(l, r) => eval_binary(Op::Greater, *l, *r, st, f),
            SExpr::LessEqual(l, r) => eval_binary(Op::LessEqual, *l, *r, st, f),
            SExpr::GreaterEqual(l, r) => eval_binary(Op::GreaterEqual, *l, *r, st, f),
            SExpr::Neq(l, r) => eval_binary(Op::NotEqual, *l, *r, st, f),
            SExpr::Neg(x) => eval_unary(Op::Neg, *x, st, f),
            SExpr::Not(x) => eval_unary(Op::Not, *x, st, f),
            SExpr::And(l, r) => eval_logic(false, *l, *r, st, f),
            SExpr::Or(l, r) => eval_logic(true, *l, *r, st, f),
        }
    }
}

/// Evaluates both operands, left first, then applies the operator.
pub open spec fn eval_binary(op: Op, l: SExpr, r: SExpr, st: SState, fuel: nat) -> (Result<SVal, SErr>, SState, nat)
    decreases fuel,
{
    if fuel == 0 {
        (Err(SErr::StepLimitExceeded), st, 0)
    } else {
        let f = (fuel - 1) as nat;
        let (ra, st1, f1) = eval(l, st, f);
        match ra {
            Err(err) => (Err(err), st1, f1),
            Ok(a) => {
                let (rb, st2, f2) = eval(r, st1, next_fuel(f1, f));
                match rb {
                    Err(err) => (Err(err), st2, f2),
                    Ok(b) => (binop(op, a, b), st2, f2),
                }
            },
        }
    }
}

pub open spec fn eval_unary(op: Op, x: SExpr, st: SState, fuel: nat) -> (Result<SVal, SErr>, SState, nat)
    decreases fuel,
{
    if fuel == 0 {
        (Err(SErr::StepLimitExceeded), st, 0)
    } else {
        let (ra, st1, f1) = eval(x, st, (fuel - 1) as nat);
        match ra {
            Err(err) => (Err(err), st1, f1),
            Ok(a) => (unop(op, a), st1, f1),
        }
    }
}

/// `and` (when `is_or` is false) and `or`: the right operand is evaluated
/// only when the left one does not decide; both must be booleans.
pub open spec fn eval_logic(is_or: bool, l: SExpr, r: SExpr, st: SState, fuel: nat) -> (Result<SVal, SErr>, SState, nat)
    decreases fuel,
{
    if fuel == 0 {
        (Err(SErr::StepLimitExceeded), st, 0)
    } else {
        let f = (fuel - 1) as nat;
        let op = if is_or { Op::Or } else { Op::And };
        let (ra, st1, f1) = eval(l, st, f);
        match ra {
            Err(err) => (Err(err), st1, f1),
            Ok(SVal::Bool(a)) => if a == is_or {
                (Ok(SVal::Bool(a)), st1, f1)
            } else {
                let (rb, st2, f2) = eval(r, st1, next_fuel(f1, f));
                match rb {
                    Err(err) => (Err(err), st2, f2),
                    Ok(SVal::Bool(b)) => (Ok(SVal::Bool(b)), st2, f2),
                    Ok(_) => (Err(SErr::TypeMismatch(op)), st2, f2),
                }
            },
            Ok(_) => (Err(SErr::TypeMismatch(op)), st1, f1),
        }
    }
}

pub open spec fn eval_assign_index(a: SExpr, i: SExpr, v: SExpr, st: SState, fuel: nat) -> (Result<SVal, SErr>, SState, nat)
    decreases fuel,
{
    if fuel == 0 {
        (Err(SErr::StepLimitExceeded), st, 0)
    } else {
        let f = (fuel - 1) as nat;
        let (ra, st1, f1) = eval(a, st, f);
        match ra {
            Err(err) => (Err(err), st1, f1),
            Ok(av) => {
                let (ri, st2, f2) = eval(i, st1, next_fuel(f1, f));
                match ri {
                    Err(err) => (Err(err), st2, f2),
                    Ok(iv) => {
                        let (rv, st3, f3) = eval(v, st2, next_fuel(f2, f));
                        match rv {
                            Err(err) => (Err(err), st3, f3),
                            Ok(vv) => (assign_index(av, iv, vv), st3, f3),
                        }
                    },
                }
            },
        }
    }
}

/// Evaluates `es[i..]` left to right, after the values `acc` of `es[..i]`.
pub open spec fn eval_list(es: Seq<SExpr>, i: nat, acc: Seq<SVal>, st: SState, fuel: nat) -> (Result<Seq<SVal>, SErr>, SState, nat)
    decreases fuel,
{
    if fuel == 0 {
        (Err(SErr::StepLimitExceeded), st, 0)
    } else {
        let f = (fuel - 1) as nat;
        if i >= es.len() {
            (Ok(acc), st, f)
        } else {
            let (r, st1, f1) = eval(es[i as int], st, f);
            match r {
                Err(err) => (Err(err), st1, f1),
                Ok(v) => eval_list(es, i + 1, acc.push(v), st1, next_fuel(f1, f)),
            }
        }
    }
}

/// Calls the function `name`: the arguments are evaluated in the caller's
/// state; the body runs with only the parameters as variables and a copy of
/// the function table; what it prints goes to the output at once. The value
/// is that of the first `return`, or the integer 0.
pub open spec fn call(name: Seq<char>, args: Seq<SExpr>, st: SState, fuel: nat) -> (Result<SVal, SErr>, SState, nat)
    decreases fuel,
{
    if fuel == 0 {
        (Err(SErr::StepLimitExceeded), st, 0)
    } else {
        let f = (fuel - 1) as nat;
        let k = find_func(st.funcs, name, 0);
        if k < 0 {
            (Err(SErr::UndefinedFunction(name)), st, f)
        } else {
            match st.funcs[k] {
                SStmt::FunctionDef(_, params, _, body) => if args.len() != params.len() {
                    (Err(SErr::ArityMismatch(name, params.len() as nat, args.len())), st, f)
                } else {
                    let (ra, st1, f1) = eval_list(args, 0, Seq::empty(), st, f);
                    match ra {
                        Err(err) => (Err(err), st1, f1),
                        Ok(vals) => {
                            let callee = with_env(st1, bind_params(params, vals, params.len() as nat));
                            let (rb, st2, f2) = exec_block(body, 0, callee, next_fuel(f1, f));
                            let back = SState { env: st1.env, funcs: st1.funcs, out: st2.out };
                            match rb {
                                Err(err) => (Err(err), back, f2),
                                Ok(Flow::Return(v)) => (Ok(v), back, f2),
                                Ok(Flow::Normal) => (Ok(SVal::Int(0)), back, f2),
                            }
                        },
                    }
                },
                _ => (Err(SErr::UndefinedFunction(name)), st, f),
            }
        }
    }
}

/// Runs the statements `b[i..]` in order, until one returns.
pub open spec fn exec_block(b: Seq<SStmt>, i: nat, st: SState, fuel: nat) -> (Result<Flow, SErr>, SState, nat)
    decreases fuel,
{
    if fuel == 0 {
        (Err(SErr::StepLimitExceeded), st, 0)
    } else {
        let f = (fuel - 1) as nat;
        if i >= b.len() {
            (Ok(Flow::Normal), st, f)
        } else {
            let (r, st1, f1) = exec_stmt(b[i as int], st, f);
            match r {
                Ok(Flow::Normal) => exec_block(b, i + 1, st1, next_fuel(f1, f)),
                _ => (r, st1, f1),
            }
        }
    }
}

/// Runs one statement.
pub open spec fn exec_stmt(s: SStmt, st: SState, fuel: nat) -> (Result<Flow, SErr>, SState, nat)
    decreases fuel,
{
    if fuel == 0 {
        (Err(SErr::StepLimitExceeded), st, 0)
    } else {
        let f = (fuel - 1) as nat;
        match s {
            SStmt::Let(_, name, e) => {
                let (r, st1, f1) = eval(e, st, f);
                match r {
                    Err(err) => (Err(err), st1, f1),
                    Ok(v) => (Ok(Flow::Normal), with_env(st1, set_var(st1.env, name, v)), f1),
                }
            },
            SStmt::Assign(name, e) => {
                let (r, st1, f1) = eval(e, st, f);
                match r {
                    Err(err) => (Err(err), st1, f1),
                    Ok(v) => if find_var(st1.env, name, 0) >= 0 {
                        (Ok(Flow::Normal), with_env(st1, set_var(st1.env, name, v)), f1)
                    } else {
                        (Err(SErr::UndeclaredAssignment(name)), st1, f1)
                    },
                }
            },
            SStmt::Print(e) => {
                let (r, st1, f1) = eval(e, st, f);
                match r {
                    Err(err) => (Err(err), st1, f1),
                    Ok(v) => (Ok(Flow::Normal), SState { env: st1.env, funcs: st1.funcs, out: st1.out.push(render(v)) }, f1),
                }
            },
            SStmt::While(cond, body) => while_loop(cond, body, st, f),
            SStmt::For(init, cond, update, body) => match init {
                Some(first) => {
                    let (r, st1, f1) = exec_stmt(*first, st, f);
                    match r {
                        Err(err) => (Err(err), st1, f1),
                        Ok(_) => for_loop(cond, update, body, st1, next_fuel(f1, f)),
                    }
                },
                None => for_loop(cond, update, body, st, f),
            },
            SStmt::If(cond, then_block, elifs, else_block) => {
                let (r, st1, f1) = eval(cond, st, f);
                match r {
                    Err(err) => (Err(err), st1, f1),
                    Ok(SVal::Bool(true)) => exec_block(then_block, 0, st1, next_fuel(f1, f)),
                    Ok(_) => if_chain(elifs, 0, else_block, st1, next_fuel(f1, f)),
                }
            },
            SStmt::FunctionDef(_, _, _, _) => (Ok(Flow::Normal), SState { env: st.env, funcs: set_func(st.funcs, s), out: st.out }, f),
            SStmt::Return(None) => (Ok(Flow::Return(SVal::Int(0))), st, f),
            SStmt::Return(Some(e)) => {
                let (r, st1, f1) = eval(e, st, f);
                match r {
                    Err(err) => (Err(err), st1, f1),
                    Ok(v) => (Ok(Flow::Return(v)), st1, f1),
                }
            },
            SStmt::ExprStmt(e) => {
                let (r, st1, f1) = eval(e, st, f);
                match r {
                    Err(err) => (Err(err), st1, f1),
                    Ok(_) => (Ok(Flow::Normal), st1, f1),
                }
            },
        }
    }
}

/// `while`: runs the body as long as the condition is the boolean `true`.
pub open spec fn while_loop(cond: SExpr, body: Seq<SStmt>, st: SState, fuel: nat) -> (Result<Flow, SErr>, SState, nat)
    decreases fuel,
{
    if fuel == 0 {
        (Err(SErr::StepLimitExceeded), st, 0)
    } else {
        let f = (fuel - 1) as nat;
        let (r, st1, f1) = eval(cond, st, f);
        match r {
            Err(err) => (Err(err), st1, f1),
            Ok(SVal::Bool(true)) => {
                let (rb, st2, f2) = exec_block(body, 0, st1, next_fuel(f1, f));
                match rb {
                    Ok(Flow::Normal) => while_loop(cond, body, st2, next_fuel(f2, f)),
                    _ => (rb, st2, f2),
                }
            },
            Ok(_) => (Ok(Flow::Normal), st1, f1),
        }
    }
}

/// `for`, after its first statement: a missing condition counts as true;
/// the update runs after each pass through the body.
pub open spec fn for_loop(cond: Option<SExpr>, update: Option<Box<SStmt>>, body: Seq<SStmt>, st: SState, fuel: nat) -> (Result<Flow, SErr>, SState, nat)
    decreases fuel,
{
    if fuel == 0 {
        (Err(SErr::StepLimitExceeded), st, 0)
    } else {
        let f = (fuel - 1) as nat;
        let (r, st1, f1) = match cond {
            Some(c) => eval(c, st, f),
            None => (Ok(SVal::Bool(true)), st, f),
        };
        match r {
            Err(err) => (Err(err), st1, f1),
            Ok(SVal::Bool(true)) => {
                let (rb, st2, f2) = exec_block(body, 0, st1, next_fuel(f1, f));
                match rb {
                    Ok(Flow::Normal) => match update {
                        Some(u) => {
                            let (ru, st3, f3) = exec_stmt(*u, st2, next_fuel(f2, f));
                            match ru {
                                Err(err) => (Err(err), st3, f3),
                                Ok(_) => for_loop(cond, update, body, st3, next_fuel(f3, f)),
                            }
                        },
                        None => for_loop(cond, update, body, st2, next_fuel(f2, f)),
                    },
                    _ => (rb, st2, f2),
                }
            },
            Ok(_) => (Ok(Flow::Normal), st1, f1),
        }
    }
}

/// The `elif` branches from `i` on, then the `else` block.
pub open spec fn if_chain(elifs: Seq<(SExpr, Seq<SStmt>)>, i: nat, else_block: Option<Seq<SStmt>>, st: SState, fuel: nat) -> (Result<Flow, SErr>, SState, nat)
    decreases fuel,
{
    if fuel == 0 {
        (Err(SErr::StepLimitExceeded), st, 0)
    } else {
        let f = (fuel - 1) as nat;
        if i < elifs.len() {
            let (r, st1, f1) = eval(elifs[i as int].0, st, f);
            match r {
                Err(err) => (Err(err), st1, f1),
                Ok(SVal::Bool(true)) => exec_block(elifs[i as int].1, 0, st1, next_fuel(f1, f)),
                Ok(_) => if_chain(elifs, i + 1, else_block, st1, next_fuel(f1, f)),
            }
        } else {
            match else_block {
                Some(b) => exec_block(b, 0, st, f),
                None => (Ok(Flow::Normal), st, f),
            }
        }
    }
}

/// Lines joined by newlines, with no newline at the end.
pub open spec fn join_lines(lines: Seq<Seq<char>>) -> Seq<char>
    decreases lines.len(),
{
    if lines.len() == 0 {
        Seq::empty()
    } else if lines.len() == 1 {
        lines[0]
    } else {
        join_lines(lines.drop_last()) + seq!['\n'] + lines.last()
    }
}

/// What a program prints when run from `st`, or the failure that stops it.
/// A `return` at the top level ends the program.
pub open spec fn run_from(program: Seq<SStmt>, st: SState, fuel: nat) -> Result<Seq<char>, SErr> {
    let (r, st1, _) = exec_block(program, 0, st, fuel);
    match r {
        Err(err) => Err(err),
        Ok(_) => Ok(join_lines(st1.out)),
    }
}

/// What a program prints, or the failure that stops it, with a step budget.
pub open spec fn run_program(program: Seq<SStmt>, fuel: nat) -> Result<Seq<char>, SErr> {
    run_from(program, empty_state(), fuel)
}

} // verus!
