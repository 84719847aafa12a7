//! Properties of the language, stated over the model and proved.
use vstd::prelude::*;
use crate::ast::{SExpr, SStmt};
use crate::ops::{assign_index, binop, Op, SErr};
use crate::ops::unop;
use crate::semantics::{
    bind_params, call, find_func, with_env,
    eval, eval_binary, exec_block, exec_stmt, find_var, join_lines, next_fuel, run_program, set_var, while_loop,
    Flow, SState,
};
use crate::value::{render, SVal};

verus! {

/// `+` with a string on either side concatenates the text of the other
/// operand, whatever its kind, in operand order.
pub proof fn law_string_concatenation(s: Seq<char>, v: SVal)
    ensures
        binop(Op::Add, SVal::Str(s), v) == Ok::<SVal, SErr>(SVal::Str(s + render(v))),
        binop(Op::Add, v, SVal::Str(s)) == Ok::<SVal, SErr>(SVal::Str(render(v) + s)),
{
}

/// Dividing by zero, or taking a remainder by zero, is a runtime failure:
/// an expression `l / r` whose right side evaluates to zero fails.
pub proof fn law_division_by_zero_fails(e: SExpr, st: SState, fuel: nat)
    requires
        fuel >= 2,
        e is Div,
        ({
            let (ra, st1, f1) = eval(*e->Div_0, st, (fuel - 2) as nat);
            &&& ra matches Ok(SVal::Int(_))
            &&& eval(*e->Div_1, st1, next_fuel(f1, (fuel - 2) as nat)).0 == Ok::<SVal, SErr>(SVal::Int(0))
        }),
    ensures
        eval(e, st, fuel).0 == Err::<SVal, SErr>(SErr::DivisionByZero),
{
}

/// Zero divisors fail for every integer and double dividend.
pub proof fn law_zero_divisor(x: i64)
    ensures
        binop(Op::Div, SVal::Int(x), SVal::Int(0)) == Err::<SVal, SErr>(SErr::DivisionByZero),
        binop(Op::Div, SVal::Double(x), SVal::Double(0)) == Err::<SVal, SErr>(SErr::DivisionByZero),
        binop(Op::Mod, SVal::Int(x), SVal::Int(0)) == Err::<SVal, SErr>(SErr::ModuloByZero),
{
}

/// One policy for indices out of range, reads and writes alike: both are
/// the runtime failure `IndexOutOfBounds`.
pub proof fn law_index_out_of_range(items: Seq<SVal>, i: i64, v: SVal)
    requires
        i < 0 || i >= items.len(),
    ensures
        binop(Op::Index, SVal::Array(items), SVal::Int(i)) == Err::<SVal, SErr>(SErr::IndexOutOfBounds),
        assign_index(SVal::Array(items), SVal::Int(i), v) == Err::<SVal, SErr>(SErr::IndexOutOfBounds),
{
}

/// `and` whose left side is false, and `or` whose left side is true, give
/// that value with the state and budget the left side left: the right side
/// is not evaluated.
pub proof fn law_short_circuit(e: SExpr, st: SState, fuel: nat)
    requires
        fuel >= 2,
        e is And || e is Or,
        ({
            let (l, decisive) = if e is And { (*e->And_0, false) } else { (*e->Or_0, true) };
            eval(l, st, (fuel - 2) as nat).0 == Ok::<SVal, SErr>(SVal::Bool(decisive))
        }),
    ensures
        ({
            let l = if e is And { *e->And_0 } else { *e->Or_0 };
            let (_, st1, f1) = eval(l, st, (fuel - 2) as nat);
            let decisive = e is Or;
            eval(e, st, fuel) == (Ok::<SVal, SErr>(SVal::Bool(decisive)), st1, f1)
        }),
{
}

/// A `return` in the body of a `while` ends the loop with that value, and
/// the loop hands it on instead of testing its condition again.
pub proof fn law_return_leaves_loop(cond: SExpr, body: Seq<SStmt>, st: SState, fuel: nat, v: SVal)
    requires
        fuel >= 1,
        ({
            let (rc, st1, f1) = eval(cond, st, (fuel - 1) as nat);
            &&& rc == Ok::<SVal, SErr>(SVal::Bool(true))
            &&& exec_block(body, 0, st1, next_fuel(f1, (fuel - 1) as nat)).0 == Ok::<Flow, SErr>(Flow::Return(v))
        }),
    ensures
        while_loop(cond, body, st, fuel).0 == Ok::<Flow, SErr>(Flow::Return(v)),
{
}

/// An expression of literals, variables and arithmetic only.
pub open spec fn arith(e: SExpr) -> bool
    decreases e,
{
    match e {
        SExpr::Number(_) => true,
        SExpr::Double(_) => true,
        SExpr::Bool(_) => true,
        SExpr::StrLiteral(_) => true,
        SExpr::Var(_) => true,
        SExpr::Add(l, r) => arith(*l) && arith(*r),
        SExpr::Sub(l, r) => arith(*l) && arith(*r),
        SExpr::Mul(l, r) => arith(*l) && arith(*r),
        SExpr::Div(l, r) => arith(*l) && arith(*r),
        SExpr::Mod(l, r) => arith(*l) && arith(*r),
        SExpr::Neg(x) => arith(*x),
        _ => false,
    }
}

pub open spec fn both(op: Op, a: Result<SVal, SErr>, b: Result<SVal, SErr>) -> Result<SVal, SErr> {
    match a {
        Err(e) => Err(e),
        Ok(x) => match b {
            Err(e) => Err(e),
            Ok(y) => binop(op, x, y),
        },
    }
}

/// The value of an arithmetic expression over the variables `env`, read
/// directly off the expression.
pub open spec fn arith_value(e: SExpr, env: Seq<(Seq<char>, SVal)>) -> Result<SVal, SErr>
    decreases e,
{
    match e {
        SExpr::Number(n) => Ok(SVal::Int(n)),
        SExpr::Double(d) => Ok(SVal::Double(d)),
        SExpr::Bool(b) => Ok(SVal::Bool(b)),
        SExpr::StrLiteral(s) => Ok(SVal::Str(s)),
        SExpr::Var(name) => {
            let k = find_var(env, name, 0);
            if k >= 0 { Ok(env[k].1) } else { Err(SErr::UndefinedVariable(name)) }
        },
        SExpr::Add(l, r) => both(Op::Add, arith_value(*l, env), arith_value(*r, env)),
        SExpr::Sub(l, r) => both(Op::Sub, arith_value(*l, env), arith_value(*r, env)),
        SExpr::Mul(l, r) => both(Op::Mul, arith_value(*l, env), arith_value(*r, env)),
        SExpr::Div(l, r) => both(Op::Div, arith_value(*l, env), arith_value(*r, env)),
        SExpr::Mod(l, r) => both(Op::Mod, arith_value(*l, env), arith_value(*r, env)),
        SExpr::Neg(x) => match arith_value(*x, env) {
            Ok(v) => unop(Op::Neg, v),
            Err(err) => Err(err),
        },
        _ => Err(SErr::TypeMismatch(Op::Add)),
    }
}

/// A `let`, an assignment or a `print` of an arithmetic expression.
pub open spec fn straight(s: SStmt) -> bool {
    match s {
        SStmt::Let(_, _, e) => arith(e),
        SStmt::Assign(_, e) => arith(e),
        SStmt::Print(e) => arith(e),
        _ => false,
    }
}

/// The lines that straight-line statements `p[i..]` print after `out`,
/// with the variables `env`: one line per `print`, in order, each the text
/// of the printed value.
pub open spec fn straight_lines(p: Seq<SStmt>, i: nat, env: Seq<(Seq<char>, SVal)>, out: Seq<Seq<char>>) -> Result<Seq<Seq<char>>, SErr>
    decreases p.len() - i,
{
    if i >= p.len() {
        Ok(out)
    } else {
        match p[i as int] {
            SStmt::Let(_, name, e) => match arith_value(e, env) {
                Ok(v) => straight_lines(p, i + 1, set_var(env, name, v), out),
                Err(err) => Err(err),
            },
            SStmt::Assign(name, e) => match arith_value(e, env) {
                Ok(v) => if find_var(env, name, 0) >= 0 {
                    straight_lines(p, i + 1, set_var(env, name, v), out)
                } else {
                    Err(SErr::UndeclaredAssignment(name))
                },
                Err(err) => Err(err),
            },
            SStmt::Print(e) => match arith_value(e, env) {
                Ok(v) => straight_lines(p, i + 1, env, out.push(render(v))),
                Err(err) => Err(err),
            },
            _ => Ok(out),
        }
    }
}

proof fn lemma_arith_eval(e: SExpr, st: SState, fuel: nat)
    requires
        arith(e),
    ensures
        eval(e, st, fuel).1 == st,
        eval(e, st, fuel).0 is Ok ==> eval(e, st, fuel).0 == arith_value(e, st.env),
    decreases fuel,
{
    if fuel > 0 {
        let g = (fuel - 1) as nat;
        match e {
            SExpr::Add(l, r) => lemma_arith_binary(Op::Add, *l, *r, st, g),
            SExpr::Sub(l, r) => lemma_arith_binary(Op::Sub, *l, *r, st, g),
            SExpr::Mul(l, r) => lemma_arith_binary(Op::Mul, *l, *r, st, g),
            SExpr::Div(l, r) => lemma_arith_binary(Op::Div, *l, *r, st, g),
            SExpr::Mod(l, r) => lemma_arith_binary(Op::Mod, *l, *r, st, g),
            SExpr::Neg(x) => {
                if g > 0 {
                    lemma_arith_eval(*x, st, (g - 1) as nat);
                }
            },
            _ => {},
        }
    }
}

proof fn lemma_arith_binary(op: Op, l: SExpr, r: SExpr, st: SState, fuel: nat)
    requires
        arith(l),
        arith(r),
    ensures
        eval_binary(op, l, r, st, fuel).1 == st,
        eval_binary(op, l, r, st, fuel).0 is Ok ==> eval_binary(op, l, r, st, fuel).0 == both(op, arith_value(l, st.env), arith_value(r, st.env)),
    decreases fuel,
{
    if fuel > 0 {
        let f = (fuel - 1) as nat;
        lemma_arith_eval(l, st, f);
        let (ra, st1, f1) = eval(l, st, f);
        lemma_arith_eval(r, st1, next_fuel(f1, f));
    }
}

proof fn lemma_straight_block(p: Seq<SStmt>, i: nat, st: SState, fuel: nat)
    requires
        forall|k: int| 0 <= k < p.len() ==> straight(#[trigger] p[k]),
    ensures
        exec_block(p, i, st, fuel).0 is Ok ==> {
            &&& exec_block(p, i, st, fuel).0 == Ok::<Flow, SErr>(Flow::Normal)
            &&& straight_lines(p, i, st.env, st.out) == Ok::<Seq<Seq<char>>, SErr>(exec_block(p, i, st, fuel).1.out)
        },
    decreases fuel,
{
    if fuel > 0 && i < p.len() {
        let f = (fuel - 1) as nat;
        let s = p[i as int];
        assert(straight(s));
        if f > 0 {
            let g = (f - 1) as nat;
            match s {
                SStmt::Let(_, _, e) => lemma_arith_eval(e, st, g),
                SStmt::Assign(_, e) => lemma_arith_eval(e, st, g),
                SStmt::Print(e) => lemma_arith_eval(e, st, g),
                _ => {},
            }
        }
        let (r, st1, f1) = exec_stmt(s, st, f);
        lemma_straight_block(p, i + 1, st1, next_fuel(f1, f));
    }
}

/// A program of `let`, assignment and `print` statements over arithmetic
/// prints, when it runs to the end, one line per `print` in order: the text
/// of the value printed, read directly off the expressions.
pub proof fn law_straight_line_output(p: Seq<SStmt>, fuel: nat)
    requires
        forall|k: int| 0 <= k < p.len() ==> straight(#[trigger] p[k]),
    ensures
        run_program(p, fuel) is Ok ==> ({
            let lines = straight_lines(p, 0, Seq::empty(), Seq::empty());
            &&& lines is Ok
            &&& run_program(p, fuel) == Ok::<Seq<char>, SErr>(join_lines(lines->Ok_0))
        }),
{
    lemma_straight_block(p, 0, crate::semantics::empty_state(), fuel);
}

/// A block runs its statements in order and stops at the first that does
/// not end normally: a `return` (or a failure) there is the block's outcome,
/// and no statement after it runs.
pub proof fn law_block_stops_at_first_return(b: Seq<SStmt>, i: nat, st: SState, fuel: nat)
    requires
        fuel >= 1,
        i < b.len(),
    ensures
        ({
            let f = (fuel - 1) as nat;
            let (r, st1, f1) = exec_stmt(b[i as int], st, f);
            exec_block(b, i, st, fuel) == if r == Ok::<Flow, SErr>(Flow::Normal) {
                exec_block(b, i + 1, st1, next_fuel(f1, f))
            } else {
                (r, st1, f1)
            }
        }),
{
}

/// Each pass of a `while` whose condition is true runs the body; a body that
/// ends normally leads to the next pass, and a `return` ends the whole loop
/// with that value, with nothing after it run.
pub proof fn law_while_pass(cond: SExpr, body: Seq<SStmt>, st: SState, fuel: nat)
    requires
        fuel >= 1,
    ensures
        ({
            let f = (fuel - 1) as nat;
            let (rc, st1, f1) = eval(cond, st, f);
            let (rb, st2, f2) = exec_block(body, 0, st1, next_fuel(f1, f));
            rc == Ok::<SVal, SErr>(SVal::Bool(true)) ==> while_loop(cond, body, st, fuel) == if rb == Ok::<Flow, SErr>(
                Flow::Normal,
            ) {
                while_loop(cond, body, st2, next_fuel(f2, f))
            } else {
                (rb, st2, f2)
            }
        }),
{
}

/// A call's value is that of the first `return` its body reaches, at any
/// depth, or the integer 0 when the body ends without one. The body runs
/// with only the parameters bound to the arguments, evaluated first in the
/// caller; the caller's variables come back unchanged.
pub proof fn law_call_value(name: Seq<char>, args: Seq<SExpr>, st: SState, fuel: nat)
    requires
        fuel >= 1,
        find_func(st.funcs, name, 0) >= 0,
        st.funcs[find_func(st.funcs, name, 0)] is FunctionDef,
        args.len() == st.funcs[find_func(st.funcs, name, 0)]->FunctionDef_1.len(),
    ensures
        ({
            let f = (fuel - 1) as nat;
            let def = st.funcs[find_func(st.funcs, name, 0)];
            let params = def->FunctionDef_1;
            let (ra, st1, f1) = crate::semantics::eval_list(args, 0, Seq::empty(), st, f);
            let callee = with_env(st1, bind_params(params, ra->Ok_0, params.len() as nat));
            let (rb, st2, f2) = exec_block(def->FunctionDef_3, 0, callee, next_fuel(f1, f));
            let back = SState { env: st1.env, funcs: st1.funcs, out: st2.out };
            (ra is Ok && rb is Ok) ==> call(name, args, st, fuel) == (
                Ok::<SVal, SErr>(
                    match rb->Ok_0 {
                        Flow::Return(v) => v,
                        Flow::Normal => SVal::Int(0),
                    },
                ),
                back,
                f2,
            )
        }),
{
}

} // verus!
