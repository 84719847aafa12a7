//! The interpreter: walks the syntax tree, proved to follow the model of
//! `semantics` step for step.
use vstd::prelude::*;
use crate::ast::{
    Type, SStmt,
    block_view, elifs_view, exprs_view, opt_block_view, opt_expr_view, opt_stmt_view, params_view, Expr, SExpr, Stmt,
};
use crate::ops::{apply_assign_index, apply_binop, apply_unop, chars_equal, result_view, Op, RuntimeError, SErr};
use crate::semantics::{
    bind_params, call, def_name, empty_state, eval, eval_assign_index, eval_binary, eval_list, eval_logic, eval_unary,
    exec_block, exec_stmt, find_func, find_var, for_loop, if_chain, next_fuel, set_func, set_var,
    join_lines, run_from, while_loop, with_env, Flow, SState,
};
use crate::value::{push_render, SVal, Value};

verus! {

/// How an executed statement ended.
#[derive(Debug)]
pub enum ControlFlow {
    Normal,
    Return(Value),
}

impl ControlFlow {
    pub open spec fn view(&self) -> Flow {
        match self {
            ControlFlow::Normal => Flow::Normal,
            ControlFlow::Return(v) => Flow::Return(v@),
        }
    }
}

pub open spec fn flow_view(r: Result<ControlFlow, RuntimeError>) -> Result<Flow, SErr> {
    match r {
        Ok(f) => Ok(f@),
        Err(e) => Err(e@),
    }
}

pub open spec fn values_view(vals: Seq<Value>) -> Seq<SVal> {
    Seq::new(vals.len(), |j: int| vals[j]@)
}

pub open spec fn list_view(r: Result<Vec<Value>, RuntimeError>) -> Result<Seq<SVal>, SErr> {
    match r {
        Ok(v) => Ok(values_view(v@)),
        Err(e) => Err(e@),
    }
}

pub open spec fn env_view(env: Seq<(Vec<char>, Value)>) -> Seq<(Seq<char>, SVal)> {
    Seq::new(env.len(), |j: int| (env[j].0@, env[j].1@))
}

pub open spec fn text_view(r: Result<Vec<char>, RuntimeError>) -> Result<Seq<char>, SErr> {
    match r {
        Ok(t) => Ok(t@),
        Err(e) => Err(e@),
    }
}

/// Joins lines with newlines between them.
pub fn join(lines: &Vec<Vec<char>>) -> (r: Vec<char>)
    ensures
        r@ == join_lines(Seq::new(lines.len() as nat, |j: int| lines[j]@)),
{
    let ghost all = Seq::new(lines.len() as nat, |j: int| lines[j]@);
    let mut out: Vec<char> = Vec::new();
    let mut i: usize = 0;
    while i < lines.len()
        invariant
            i <= lines.len(),
            all == Seq::new(lines.len() as nat, |j: int| lines[j]@),
            out@ == join_lines(all.take(i as int)),
        decreases lines.len() - i,
    {
        if i > 0 {
            out.push('\n');
        }
        crate::value::push_str(&lines[i], &mut out);
        proof {
            assert(all.take(i + 1).drop_last() =~= all.take(i as int));
            if i == 0 {
                assert(all.take(0) =~= Seq::<Seq<char>>::empty());
            }
        }
        i += 1;
        proof {
            assert(out@ =~= join_lines(all.take(i as int)));
        }
    }
    proof {
        assert(all.take(i as int) =~= all);
    }
    out
}

/// An executed step agrees with the model: same result and, when it
/// succeeded, the same state and the same budget left.
pub open spec fn agrees<T>(r: Result<T, SErr>, st: SState, left: u64, model: (Result<T, SErr>, SState, nat)) -> bool {
    &&& r == model.0
    &&& r is Ok ==> st == model.1 && left as nat == model.2
}

/// A list that evaluates without failure gives one value per expression.
proof fn lemma_eval_list_len(es: Seq<SExpr>, i: nat, acc: Seq<SVal>, st: SState, fuel: nat)
    requires
        i <= es.len(),
    ensures
        eval_list(es, i, acc, st, fuel).0 is Ok ==> eval_list(es, i, acc, st, fuel).0->Ok_0.len() == acc.len() + es.len() - i,
    decreases fuel,
{
    if fuel > 0 && i < es.len() {
        let f = (fuel - 1) as nat;
        let (r, st1, f1) = eval(es[i as int], st, f);
        if let Ok(v) = r {
            lemma_eval_list_len(es, i + 1, acc.push(v), st1, next_fuel(f1, f));
        }
    }
}

/// The exec counterpart of `next_fuel`.
fn next_budget(left: u64, bound: u64) -> (r: u64)
    ensures
        r as nat == next_fuel(left as nat, bound as nat),
{
    if left < bound {
        left
    } else {
        bound
    }
}

/// Position of `name` in `env`, or `env.len()` when it is not bound.
fn env_find(env: &Vec<(Vec<char>, Value)>, name: &Vec<char>) -> (k: usize)
    ensures
        k <= env.len(),
        find_var(env_view(env@), name@, 0) == if k < env.len() { k as int } else { -1 },
{
    let ghost ev = env_view(env@);
    let mut i: usize = 0;
    while i < env.len()
        invariant
            i <= env.len(),
            ev == env_view(env@),
            find_var(ev, name@, 0) == find_var(ev, name@, i as int),
        decreases env.len() - i,
    {
        if chars_equal(&env[i].0, name) {
            return i;
        }
        i += 1;
    }
    i
}

/// Binds `name` to `v` in `env`.
fn env_set(env: &mut Vec<(Vec<char>, Value)>, name: &Vec<char>, v: Value)
    ensures
        env_view(final(env)@) == set_var(env_view(old(env)@), name@, v@),
{
    let k = env_find(env, name);
    if k < env.len() {
        env.set(k, (name.clone(), v));
    } else {
        env.push((name.clone(), v));
    }
    proof {
        assert(env_view(final(env)@) =~= set_var(env_view(old(env)@), name@, v@));
    }
}

/// A function definition in the function table: its name, its typed
/// parameters, its declared return type (never checked) and its body, all
/// borrowed from the program.
#[derive(Clone, Copy, Debug)]
pub struct FunctionDef<'a> {
    pub name: &'a Vec<char>,
    pub params: &'a Vec<(Vec<char>, Type)>,
    pub return_type: Option<Type>,
    pub body: &'a Vec<Stmt>,
}

impl<'a> FunctionDef<'a> {
    /// The definition as the statement that made it.
    pub open spec fn view(&self) -> SStmt {
        SStmt::FunctionDef(self.name@, params_view(self.params@), self.return_type, block_view(self.body))
    }
}

/// The interpreter's state: the variables of the running activation, the
/// function definitions met so far, and the lines printed.
pub struct Interpreter<'a> {
    env: Vec<(Vec<char>, Value)>,
    functions: Vec<FunctionDef<'a>>,
    output: Vec<Vec<char>>,
}

impl<'a> Interpreter<'a> {
    pub closed spec fn view(&self) -> SState {
        SState {
            env: env_view(self.env@),
            funcs: Seq::new(self.functions.len() as nat, |j: int| self.functions[j]@),
            out: Seq::new(self.output.len() as nat, |j: int| self.output[j]@),
        }
    }

    /// An interpreter with no variables, no functions and no output.
    pub fn new() -> (r: Interpreter<'a>)
        ensures
            r@ == empty_state(),
    {
        let r = Interpreter { env: Vec::new(), functions: Vec::new(), output: Vec::new() };
        proof {
            assert(r@.env =~= empty_state().env);
            assert(r@.funcs =~= empty_state().funcs);
            assert(r@.out =~= empty_state().out);
        }
        r
    }

    /// The lines printed so far.
    pub fn output(&self) -> (r: &Vec<Vec<char>>)
        ensures
            Seq::new(r.len() as nat, |j: int| r[j]@) == self@.out,
    {
        &self.output
    }

    fn set_var(&mut self, name: &Vec<char>, v: Value)
        ensures
            final(self)@ == with_env(old(self)@, set_var(old(self)@.env, name@, v@)),
    {
        env_set(&mut self.env, name, v);
        proof {
            assert(final(self)@.funcs =~= old(self)@.funcs);
            assert(final(self)@.out =~= old(self)@.out);
        }
    }

    fn find_func(&self, name: &Vec<char>) -> (k: usize)
        ensures
            k <= self.functions.len(),
            find_func(self@.funcs, name@, 0) == if k < self.functions.len() { k as int } else { -1 },
    {
        let ghost fs = self@.funcs;
        let mut i: usize = 0;
        while i < self.functions.len()
            invariant
                i <= self.functions.len(),
                fs == self@.funcs,
                find_func(fs, name@, 0) == find_func(fs, name@, i as int),
            decreases self.functions.len() - i,
        {
            let found = chars_equal(self.functions[i].name, name);
            if found {
                proof {
                    assert(def_name(fs[i as int]) == name@);
                }
                return i;
            }
            i += 1;
        }
        i
    }

    fn set_func(&mut self, name: &Vec<char>, def: FunctionDef<'a>)
        requires
            def_name(def@) == name@,
        ensures
            final(self)@ == (SState { env: old(self)@.env, funcs: set_func(old(self)@.funcs, def@), out: old(self)@.out }),
    {
        let k = self.find_func(name);
        if k < self.functions.len() {
            self.functions.set(k, def);
        } else {
            self.functions.push(def);
        }
        proof {
            assert(final(self)@.funcs =~= set_func(old(self)@.funcs, def@));
            assert(final(self)@.env =~= old(self)@.env);
            assert(final(self)@.out =~= old(self)@.out);
        }
    }

    /// Evaluates an expression.
    pub fn eval(&mut self, e: &'a Expr, fuel: u64) -> (r: (Result<Value, RuntimeError>, u64))
        ensures
            agrees::<SVal>(result_view(r.0), final(self)@, r.1, eval(e@, old(self)@, fuel as nat)),
        decreases fuel,
    {
        if fuel == 0 {
            return (Err(RuntimeError::StepLimitExceeded), 0);
        }
        let f = fuel - 1;
        match e {
            Expr::Number(n) => (Ok(Value::Int(*n)), f),
            Expr::Bool(b) => (Ok(Value::Bool(*b)), f),
            Expr::StrLiteral(s) => (Ok(Value::Str(s.clone())), f),
            Expr::Double(d) => (Ok(Value::Double(*d)), f),
            Expr::Var(name) => {
                let k = env_find(&self.env, name);
                if k < self.env.len() {
                    (Ok(self.env[k].1.copy()), f)
                } else {
                    (Err(RuntimeError::UndefinedVariable(name.clone())), f)
                }
            },
            Expr::FunctionCall(name, args) => {
                proof {
                    assert(exprs_view(args@) =~= e@->FunctionCall_1);
                }
                self.call(name, args, f)
            },
            Expr::Add(l, r) => self.eval_binary(Op::Add, l, r, f),
            Expr::Sub(l, r) => self.eval_binary(Op::Sub, l, r, f),
            Expr::Mul(l, r) => self.eval_binary(Op::Mul, l, r, f),
            Expr::Div(l, r) => self.eval_binary(Op::Div, l, r, f),
            Expr::Mod(l, r) => self.eval_binary(Op::Mod, l, r, f),
            Expr::ArrayLiteral(items) => {
                proof {
                    assert(exprs_view(items@) =~= e@->ArrayLiteral_0);
                }
                let (r, f1) = self.eval_list(items, f);
                match r {
                    Ok(vals) => {
                        let v = Value::Array(vals);
                        proof {
                            assert(v@->Array_0 =~= values_view(vals@));
                        }
                        (Ok(v), f1)
                    },
                    Err(err) => (Err(err), f1),
                }
            },
            Expr::Index(a, i) => self.eval_binary(Op::Index, a, i, f),
            Expr::AssignIndex(a, i, v) => self.eval_assign_index(a, i, v, f),
            Expr::Eq(l, r) => self.eval_binary(Op::Equal, l, r, f),
            Expr::LessThan(l, r) => self.eval_binary(Op::Less, l, r, f),
            Expr::GreaterThan(l, r) => self.eval_binary(Op::Greater, l, r, f),
            Expr::LessEqual(l, r) => self.eval_binary(Op::LessEqual, l, r, f),
            Expr::GreaterEqual(l, r) => self.eval_binary(Op::GreaterEqual, l, r, f),
            Expr::Neq(l, r) => self.eval_binary(Op::NotEqual, l, r, f),
            Expr::Neg(x) => self.eval_unary(Op::Neg, x, f),
            Expr::Not(x) => self.eval_unary(Op::Not, x, f),
            Expr::And(l, r) => self.eval_logic(false, l, r, f),
            Expr::Or(l, r) => self.eval_logic(true, l, r, f),
        }
    }

    fn eval_binary(&mut self, op: Op, l: &'a Expr, r: &'a Expr, fuel: u64) -> (res: (Result<Value, RuntimeError>, u64))
        ensures
            agrees::<SVal>(result_view(res.0), final(self)@, res.1, eval_binary(op, l@, r@, old(self)@, fuel as nat)),
        decreases fuel,
    {
        if fuel == 0 {
            return (Err(RuntimeError::StepLimitExceeded), 0);
        }
        let f = fuel - 1;
        let (ra, f1) = self.eval(l, f);
        match ra {
            Err(err) => (Err(err), f1),
            Ok(a) => {
                let (rb, f2) = self.eval(r, next_budget(f1, f));
                match rb {
                    Err(err) => (Err(err), f2),
                    Ok(b) => (apply_binop(op, &a, &b), f2),
                }
            },
        }
    }

    fn eval_unary(&mut self, op: Op, x: &'a Expr, fuel: u64) -> (res: (Result<Value, RuntimeError>, u64))
        ensures
            agrees::<SVal>(result_view(res.0), final(self)@, res.1, eval_unary(op, x@, old(self)@, fuel as nat)),
        decreases fuel,
    {
        if fuel == 0 {
            return (Err(RuntimeError::StepLimitExceeded), 0);
        }
        let (ra, f1) = self.eval(x, fuel - 1);
        match ra {
            Err(err) => (Err(err), f1),
            Ok(a) => (apply_unop(op, &a), f1),
        }
    }

    fn eval_logic(&mut self, is_or: bool, l: &'a Expr, r: &'a Expr, fuel: u64) -> (res: (Result<Value, RuntimeError>, u64))
        ensures
            agrees::<SVal>(result_view(res.0), final(self)@, res.1, eval_logic(is_or, l@, r@, old(self)@, fuel as nat)),
        decreases fuel,
    {
        if fuel == 0 {
            return (Err(RuntimeError::StepLimitExceeded), 0);
        }
        let f = fuel - 1;
        let op = if is_or { Op::Or } else { Op::And };
        let (ra, f1) = self.eval(l, f);
        match ra {
            Err(err) => (Err(err), f1),
            Ok(Value::Bool(a)) => {
                if a == is_or {
                    (Ok(Value::Bool(a)), f1)
                } else {
                    let (rb, f2) = self.eval(r, next_budget(f1, f));
                    match rb {
                        Err(err) => (Err(err), f2),
                        Ok(Value::Bool(b)) => (Ok(Value::Bool(b)), f2),
                        Ok(_) => (Err(RuntimeError::TypeMismatch(op)), f2),
                    }
                }
            },
            Ok(_) => (Err(RuntimeError::TypeMismatch(op)), f1),
        }
    }

    fn eval_assign_index(&mut self, a: &'a Expr, i: &'a Expr, v: &'a Expr, fuel: u64) -> (res: (Result<Value, RuntimeError>, u64))
        ensures
            agrees::<SVal>(result_view(res.0), final(self)@, res.1, eval_assign_index(a@, i@, v@, old(self)@, fuel as nat)),
        decreases fuel,
    {
        if fuel == 0 {
            return (Err(RuntimeError::StepLimitExceeded), 0);
        }
        let f = fuel - 1;
        let (ra, f1) = self.eval(a, f);
        match ra {
            Err(err) => (Err(err), f1),
            Ok(av) => {
                let (ri, f2) = self.eval(i, next_budget(f1, f));
                match ri {
                    Err(err) => (Err(err), f2),
                    Ok(iv) => {
                        let (rv, f3) = self.eval(v, next_budget(f2, f));
                        match rv {
                            Err(err) => (Err(err), f3),
                            Ok(vv) => (apply_assign_index(av, &iv, vv), f3),
                        }
                    },
                }
            },
        }
    }

    /// Evaluates a list of expressions left to right.
    fn eval_list(&mut self, es: &'a Vec<Expr>, budget: u64) -> (res: (Result<Vec<Value>, RuntimeError>, u64))
        ensures
            agrees::<Seq<SVal>>(list_view(res.0), final(self)@, res.1, eval_list(exprs_view(es@), 0, Seq::empty(), old(self)@, budget as nat)),
        decreases budget,
    {
        let ghost model = eval_list(exprs_view(es@), 0, Seq::empty(), self@, budget as nat);
        let mut acc: Vec<Value> = Vec::new();
        let mut i: usize = 0;
        let mut fuel = budget;
        proof {
            assert(values_view(acc@) =~= Seq::<SVal>::empty());
        }
        loop
            invariant
                fuel <= budget,
                model == eval_list(exprs_view(es@), 0, Seq::empty(), old(self)@, budget as nat),
                i <= es.len(),
                model == eval_list(exprs_view(es@), i as nat, values_view(acc@), self@, fuel as nat),
            decreases fuel,
        {
            if fuel == 0 {
                return (Err(RuntimeError::StepLimitExceeded), 0);
            }
            let f = fuel - 1;
            if i >= es.len() {
                return (Ok(acc), f);
            }
            let (r, f1) = self.eval(&es[i], f);
            match r {
                Err(err) => {
                    return (Err(err), f1);
                },
                Ok(v) => {
                    let ghost before = values_view(acc@);
                    acc.push(v);
                    proof {
                        assert(values_view(acc@) =~= before.push(v@));
                    }
                    i += 1;
                    fuel = next_budget(f1, f);
                },
            }
        }
    }

    /// Calls the function `name` on `args`.
    fn call(&mut self, name: &'a Vec<char>, args: &'a Vec<Expr>, fuel: u64) -> (res: (Result<Value, RuntimeError>, u64))
        ensures
            agrees::<SVal>(result_view(res.0), final(self)@, res.1, call(name@, exprs_view(args@), old(self)@, fuel as nat)),
        decreases fuel,
    {
        if fuel == 0 {
            return (Err(RuntimeError::StepLimitExceeded), 0);
        }
        let f = fuel - 1;
        let k = self.find_func(name);
        if k >= self.functions.len() {
            return (Err(RuntimeError::UndefinedFunction(name.clone())), f);
        }
        let def = self.functions[k];
        let params = def.params;
        let body = def.body;
        if args.len() != params.len() {
            return (Err(RuntimeError::ArityMismatch(name.clone(), params.len(), args.len())), f);
        }
        let ghost st0 = self@;
        let (ra, f1) = self.eval_list(args, f);
        match ra {
            Err(err) => (Err(err), f1),
            Ok(vals) => {
                let ghost st1 = self@;
                proof {
                    lemma_eval_list_len(exprs_view(args@), 0, Seq::empty(), st0, f as nat);
                }
                let mut env: Vec<(Vec<char>, Value)> = Vec::new();
                let mut j: usize = 0;
                proof {
                    assert(env_view(env@) =~= bind_params(params_view(params@), values_view(vals@), 0));
                }
                while j < params.len()
                    invariant
                        j <= params.len(),
                        vals.len() == params.len(),
                        env_view(env@) == bind_params(params_view(params@), values_view(vals@), j as nat),
                    decreases params.len() - j,
                {
                    env_set(&mut env, &params[j].0, vals[j].copy());
                    j += 1;
                }
                let mut funcs: Vec<FunctionDef<'a>> = Vec::new();
                let mut j: usize = 0;
                while j < self.functions.len()
                    invariant
                        j <= self.functions.len(),
                        funcs.len() == j,
                        forall|m: int| 0 <= m < j ==> funcs[m]@ == self.functions[m]@,
                    decreases self.functions.len() - j,
                {
                    funcs.push(self.functions[j]);
                    j += 1;
                }
                let mut callee = Interpreter { env, functions: funcs, output: Vec::new() };
                std::mem::swap(&mut self.output, &mut callee.output);
                proof {
                    assert(callee@.funcs =~= st1.funcs);
                    assert(callee@ == with_env(st1, bind_params(params_view(params@), values_view(vals@), params.len() as nat)));
                }
                let (rb, f2) = callee.exec_block(body, next_budget(f1, f));
                let ghost st2 = callee@;
                std::mem::swap(&mut self.output, &mut callee.output);
                proof {
                    assert(self@.out =~= st2.out);
                    assert(self@.env == st1.env);
                    assert(self@.funcs == st1.funcs);
                }
                match rb {
                    Err(err) => (Err(err), f2),
                    Ok(ControlFlow::Return(v)) => (Ok(v), f2),
                    Ok(ControlFlow::Normal) => (Ok(Value::Int(0)), f2),
                }
            },
        }
    }

    /// Runs a block of statements in order, until one returns.
    pub fn exec_block(&mut self, b: &'a Vec<Stmt>, budget: u64) -> (res: (Result<ControlFlow, RuntimeError>, u64))
        ensures
            agrees::<Flow>(flow_view(res.0), final(self)@, res.1, exec_block(block_view(b), 0, old(self)@, budget as nat)),
        decreases budget,
    {
        let ghost model = exec_block(block_view(b), 0, self@, budget as nat);
        let mut i: usize = 0;
        let mut fuel = budget;
        loop
            invariant
                fuel <= budget,
                model == exec_block(block_view(b), 0, old(self)@, budget as nat),
                i <= b.len(),
                model == exec_block(block_view(b), i as nat, self@, fuel as nat),
            decreases fuel,
        {
            if fuel == 0 {
                return (Err(RuntimeError::StepLimitExceeded), 0);
            }
            let f = fuel - 1;
            if i >= b.len() {
                return (Ok(ControlFlow::Normal), f);
            }
            let (r, f1) = self.exec_stmt(&b[i], f);
            match r {
                Ok(ControlFlow::Normal) => {
                    i += 1;
                    fuel = next_budget(f1, f);
                },
                _ => {
                    return (r, f1);
                },
            }
        }
    }

    /// Runs one statement.
    pub fn exec_stmt(&mut self, s: &'a Stmt, fuel: u64) -> (res: (Result<ControlFlow, RuntimeError>, u64))
        ensures
            agrees::<Flow>(flow_view(res.0), final(self)@, res.1, exec_stmt(s@, old(self)@, fuel as nat)),
        decreases fuel,
    {
        if fuel == 0 {
            return (Err(RuntimeError::StepLimitExceeded), 0);
        }
        let f = fuel - 1;
        match s {
            Stmt::Let(_, name, e) => {
                let (r, f1) = self.eval(e, f);
                match r {
                    Err(err) => (Err(err), f1),
                    Ok(v) => {
                        self.set_var(name, v);
                        (Ok(ControlFlow::Normal), f1)
                    },
                }
            },
            Stmt::Assign(name, e) => {
                let (r, f1) = self.eval(e, f);
                match r {
                    Err(err) => (Err(err), f1),
                    Ok(v) => {
                        if env_find(&self.env, name) < self.env.len() {
                            self.set_var(name, v);
                            (Ok(ControlFlow::Normal), f1)
                        } else {
                            (Err(RuntimeError::UndeclaredAssignment(name.clone())), f1)
                        }
                    },
                }
            },
            Stmt::Print(e) => {
                let (r, f1) = self.eval(e, f);
                match r {
                    Err(err) => (Err(err), f1),
                    Ok(v) => {
                        let mut line: Vec<char> = Vec::new();
                        push_render(&v, &mut line);
                        let ghost before = self@;
                        self.output.push(line);
                        proof {
                            assert(line@ =~= crate::value::render(v@));
                            assert(self@.out =~= before.out.push(crate::value::render(v@)));
                            assert(self@.env =~= before.env);
                            assert(self@.funcs =~= before.funcs);
                        }
                        (Ok(ControlFlow::Normal), f1)
                    },
                }
            },
            Stmt::While(cond, body) => self.while_loop(cond, body, f),
            Stmt::For(init, cond, update, body) => match init {
                Some(first) => {
                    let (r, f1) = self.exec_stmt(first, f);
                    match r {
                        Err(err) => (Err(err), f1),
                        Ok(_) => self.for_loop(cond, update, body, next_budget(f1, f)),
                    }
                },
                None => self.for_loop(cond, update, body, f),
            },
            Stmt::If(cond, then_block, elifs, else_block) => {
                proof {
                    assert(elifs_view(elifs) =~= s@->If_2);
                }
                let (r, f1) = self.eval(cond, f);
                match r {
                    Err(err) => (Err(err), f1),
                    Ok(Value::Bool(true)) => self.exec_block(then_block, next_budget(f1, f)),
                    Ok(_) => self.if_chain(elifs, else_block, next_budget(f1, f)),
                }
            },
            Stmt::FunctionDef(name, params, return_type, body) => {
                self.set_func(name, FunctionDef { name, params, return_type: *return_type, body });
                (Ok(ControlFlow::Normal), f)
            },
            Stmt::Return(None) => (Ok(ControlFlow::Return(Value::Int(0))), f),
            Stmt::Return(Some(e)) => {
                let (r, f1) = self.eval(e, f);
                match r {
                    Err(err) => (Err(err), f1),
                    Ok(v) => (Ok(ControlFlow::Return(v)), f1),
                }
            },
            Stmt::ExprStmt(e) => {
                let (r, f1) = self.eval(e, f);
                match r {
                    Err(err) => (Err(err), f1),
                    Ok(_) => (Ok(ControlFlow::Normal), f1),
                }
            },
        }
    }

    fn while_loop(&mut self, cond: &'a Expr, body: &'a Vec<Stmt>, budget: u64) -> (res: (Result<ControlFlow, RuntimeError>, u64))
        ensures
            agrees::<Flow>(flow_view(res.0), final(self)@, res.1, while_loop(cond@, block_view(body), old(self)@, budget as nat)),
        decreases budget,
    {
        let ghost model = while_loop(cond@, block_view(body), self@, budget as nat);
        let mut fuel = budget;
        loop
            invariant
                fuel <= budget,
                model == while_loop(cond@, block_view(body), old(self)@, budget as nat),
                model == while_loop(cond@, block_view(body), self@, fuel as nat),
            decreases fuel,
        {
            if fuel == 0 {
                return (Err(RuntimeError::StepLimitExceeded), 0);
            }
            let f = fuel - 1;
            let (r, f1) = self.eval(cond, f);
            match r {
                Err(err) => {
                    return (Err(err), f1);
                },
                Ok(Value::Bool(true)) => {
                    let (rb, f2) = self.exec_block(body, next_budget(f1, f));
                    match rb {
                        Ok(ControlFlow::Normal) => {
                            fuel = next_budget(f2, f);
                        },
                        _ => {
                            return (rb, f2);
                        },
                    }
                },
                Ok(_) => {
                    return (Ok(ControlFlow::Normal), f1);
                },
            }
        }
    }

    fn for_loop(
        &mut self,
        cond: &'a Option<Expr>,
        update: &'a Option<Box<Stmt>>,
        body: &'a Vec<Stmt>,
        budget: u64,
    ) -> (res: (Result<ControlFlow, RuntimeError>, u64))
        ensures
            agrees::<Flow>(flow_view(res.0), final(self)@, res.1, for_loop(opt_expr_view(*cond), opt_stmt_view(*update), block_view(body), old(self)@, budget as nat)),
        decreases budget,
    {
        let ghost model = for_loop(opt_expr_view(*cond), opt_stmt_view(*update), block_view(body), self@, budget as nat);
        let mut fuel = budget;
        loop
            invariant
                fuel <= budget,
                model == for_loop(opt_expr_view(*cond), opt_stmt_view(*update), block_view(body), old(self)@, budget as nat),
                model == for_loop(opt_expr_view(*cond), opt_stmt_view(*update), block_view(body), self@, fuel as nat),
            decreases fuel,
        {
            if fuel == 0 {
                return (Err(RuntimeError::StepLimitExceeded), 0);
            }
            let f = fuel - 1;
            let (r, f1) = match cond {
                Some(c) => self.eval(c, f),
                None => (Ok(Value::Bool(true)), f),
            };
            match r {
                Err(err) => {
                    return (Err(err), f1);
                },
                Ok(Value::Bool(true)) => {
                    let (rb, f2) = self.exec_block(body, next_budget(f1, f));
                    match rb {
                        Ok(ControlFlow::Normal) => match update {
                            Some(u) => {
                                let (ru, f3) = self.exec_stmt(u, next_budget(f2, f));
                                match ru {
                                    Err(err) => {
                                        return (Err(err), f3);
                                    },
                                    Ok(_) => {
                                        fuel = next_budget(f3, f);
                                    },
                                }
                            },
                            None => {
                                fuel = next_budget(f2, f);
                            },
                        },
                        _ => {
                            return (rb, f2);
                        },
                    }
                },
                Ok(_) => {
                    return (Ok(ControlFlow::Normal), f1);
                },
            }
        }
    }

    fn if_chain(&mut self, elifs: &'a Vec<(Expr, Vec<Stmt>)>, else_block: &'a Option<Vec<Stmt>>, budget: u64) -> (res: (Result<ControlFlow, RuntimeError>, u64))
        ensures
            agrees::<Flow>(flow_view(res.0), final(self)@, res.1, if_chain(elifs_view(elifs), 0, opt_block_view(else_block), old(self)@, budget as nat)),
        decreases budget,
    {
        let ghost model = if_chain(elifs_view(elifs), 0, opt_block_view(else_block), self@, budget as nat);
        let mut i: usize = 0;
        let mut fuel = budget;
        loop
            invariant
                fuel <= budget,
                model == if_chain(elifs_view(elifs), 0, opt_block_view(else_block), old(self)@, budget as nat),
                i <= elifs.len(),
                model == if_chain(elifs_view(elifs), i as nat, opt_block_view(else_block), self@, fuel as nat),
            decreases fuel,
        {
            if fuel == 0 {
                return (Err(RuntimeError::StepLimitExceeded), 0);
            }
            let f = fuel - 1;
            if i < elifs.len() {
                let (r, f1) = self.eval(&elifs[i].0, f);
                match r {
                    Err(err) => {
                        return (Err(err), f1);
                    },
                    Ok(Value::Bool(true)) => {
                        return self.exec_block(&elifs[i].1, next_budget(f1, f));
                    },
                    Ok(_) => {
                        i += 1;
                        fuel = next_budget(f1, f);
                    },
                }
            } else {
                return match else_block {
                    Some(b) => self.exec_block(b, f),
                    None => (Ok(ControlFlow::Normal), f),
                };
            }
        }
    }

    /// Runs a program: what it prints, lines joined by newlines, or the
    /// failure that stopped it. A `return` at the top level ends it.
    pub fn run(&mut self, program: &'a Vec<Stmt>, budget: u64) -> (r: Result<Vec<char>, RuntimeError>)
        ensures
            text_view(r) == run_from(block_view(program), old(self)@, budget as nat),
    {
        let (res, _) = self.exec_block(program, budget);
        match res {
            Err(e) => Err(e),
            Ok(_) => Ok(join(&self.output)),
        }
    }
}

} // verus!
