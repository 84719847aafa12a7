//! Operators on runtime values, and the runtime failures they raise.
use vstd::prelude::*;
use crate::text::{magnitude, nat_digits, push_lit, push_nat_digits, DOUBLE_ONE};
use crate::value::{push_render, push_str, render, SVal, Value};

verus! {

/// The operators whose operands are checked for their kind.
#[derive(Clone, Copy, Debug, PartialEq, Eq, Structural)]
pub enum Op {
    Add,
    Sub,
    Mul,
    Div,
    Mod,
    Less,
    Greater,
    LessEqual,
    GreaterEqual,
    Equal,
    NotEqual,
    Neg,
    Not,
    And,
    Or,
    Index,
    AssignIndex,
}

/// The model of a runtime failure.
pub enum SErr {
    UndefinedVariable(Seq<char>),
    UndeclaredAssignment(Seq<char>),
    UndefinedFunction(Seq<char>),
    ArityMismatch(Seq<char>, nat, nat),
    TypeMismatch(Op),
    DivisionByZero,
    ModuloByZero,
    IndexOutOfBounds,
    Overflow,
    StepLimitExceeded,
}

/// A fatal condition raised while a program runs.
#[derive(Debug)]
pub enum RuntimeError {
    UndefinedVariable(Vec<char>),
    UndeclaredAssignment(Vec<char>),
    UndefinedFunction(Vec<char>),
    /// Function name, parameters expected, arguments given.
    ArityMismatch(Vec<char>, usize, usize),
    TypeMismatch(Op),
    DivisionByZero,
    ModuloByZero,
    IndexOutOfBounds,
    Overflow,
    /// The program ran out of its step budget.
    StepLimitExceeded,
}

impl RuntimeError {
    pub open spec fn view(&self) -> SErr {
        match self {
            RuntimeError::UndefinedVariable(n) => SErr::UndefinedVariable(n@),
            RuntimeError::UndeclaredAssignment(n) => SErr::UndeclaredAssignment(n@),
            RuntimeError::UndefinedFunction(n) => SErr::UndefinedFunction(n@),
            RuntimeError::ArityMismatch(n, e, g) => SErr::ArityMismatch(n@, *e as nat, *g as nat),
            RuntimeError::TypeMismatch(op) => SErr::TypeMismatch(*op),
            RuntimeError::DivisionByZero => SErr::DivisionByZero,
            RuntimeError::ModuloByZero => SErr::ModuloByZero,
            RuntimeError::IndexOutOfBounds => SErr::IndexOutOfBounds,
            RuntimeError::Overflow => SErr::Overflow,
            RuntimeError::StepLimitExceeded => SErr::StepLimitExceeded,
        }
    }
}

/// How an operator is written in messages.
pub open spec fn op_symbol(op: Op) -> Seq<char> {
    match op {
        Op::Add => "+"@,
        Op::Sub => "-"@,
        Op::Mul => "*"@,
        Op::Div => "/"@,
        Op::Mod => "%"@,
        Op::Less => "<"@,
        Op::Greater => ">"@,
        Op::LessEqual => "<="@,
        Op::GreaterEqual => ">="@,
        Op::Equal => "=="@,
        Op::NotEqual => "!="@,
        Op::Neg => "unary -"@,
        Op::Not => "not"@,
        Op::And => "and"@,
        Op::Or => "or"@,
        Op::Index => "indexing"@,
        Op::AssignIndex => "indexed assignment"@,
    }
}

/// The message of a runtime failure.
pub open spec fn runtime_message(e: SErr) -> Seq<char> {
    match e {
        SErr::UndefinedVariable(n) => "Undefined variable: "@ + n,
        SErr::UndeclaredAssignment(n) => "Cannot assign to undeclared variable: "@ + n,
        SErr::UndefinedFunction(n) => "Undefined function: "@ + n,
        SErr::ArityMismatch(n, expected, given) => "Function "@ + n + " expects "@ + nat_digits(expected) + " arguments, got "@
            + nat_digits(given),
        SErr::TypeMismatch(op) => "Unsupported operand types for "@ + op_symbol(op),
        SErr::DivisionByZero => "Division by zero"@,
        SErr::ModuloByZero => "Modulo by zero"@,
        SErr::IndexOutOfBounds => "Index out of bounds"@,
        SErr::Overflow => "Integer overflow"@,
        SErr::StepLimitExceeded => "Step limit exceeded"@,
    }
}

impl Op {
    /// How the operator is written.
    pub fn symbol(&self) -> (r: &'static str)
        ensures
            r@ == op_symbol(*self),
    {
        match self {
            Op::Add => "+",
            Op::Sub => "-",
            Op::Mul => "*",
            Op::Div => "/",
            Op::Mod => "%",
            Op::Less => "<",
            Op::Greater => ">",
            Op::LessEqual => "<=",
            Op::GreaterEqual => ">=",
            Op::Equal => "==",
            Op::NotEqual => "!=",
            Op::Neg => "unary -",
            Op::Not => "not",
            Op::And => "and",
            Op::Or => "or",
            Op::Index => "indexing",
            Op::AssignIndex => "indexed assignment",
        }
    }
}

impl RuntimeError {
    /// A message for people.
    pub fn message(&self) -> (r: Vec<char>)
        ensures
            r@ == runtime_message(self@),
    {
        let mut m: Vec<char> = Vec::new();
        match self {
            RuntimeError::UndefinedVariable(n) => {
                push_lit("Undefined variable: ", &mut m);
                push_str(n, &mut m);
            },
            RuntimeError::UndeclaredAssignment(n) => {
                push_lit("Cannot assign to undeclared variable: ", &mut m);
                push_str(n, &mut m);
            },
            RuntimeError::UndefinedFunction(n) => {
                push_lit("Undefined function: ", &mut m);
                push_str(n, &mut m);
            },
            RuntimeError::ArityMismatch(n, expected, given) => {
                push_lit("Function ", &mut m);
                push_str(n, &mut m);
                push_lit(" expects ", &mut m);
                push_nat_digits(*expected as u64, &mut m);
                push_lit(" arguments, got ", &mut m);
                push_nat_digits(*given as u64, &mut m);
            },
            RuntimeError::TypeMismatch(op) => {
                push_lit("Unsupported operand types for ", &mut m);
                push_lit(op.symbol(), &mut m);
            },
            RuntimeError::DivisionByZero => push_lit("Division by zero", &mut m),
            RuntimeError::ModuloByZero => push_lit("Modulo by zero", &mut m),
            RuntimeError::IndexOutOfBounds => push_lit("Index out of bounds", &mut m),
            RuntimeError::Overflow => push_lit("Integer overflow", &mut m),
            RuntimeError::StepLimitExceeded => push_lit("Step limit exceeded", &mut m),
        }
        proof {
            assert(m@ =~= runtime_message(self@));
        }
        m
    }
}

pub open spec fn abs(a: int) -> int {
    if a < 0 { -a } else { a }
}

/// Division that rounds toward zero.
pub open spec fn trunc_div(a: int, b: int) -> int {
    if (a < 0) == (b < 0) { abs(a) / abs(b) } else { -(abs(a) / abs(b)) }
}

/// The remainder of `trunc_div`: the sign of the dividend, below `b` in size.
pub open spec fn trunc_rem(a: int, b: int) -> int {
    if a < 0 { -(abs(a) % abs(b)) } else { abs(a) % abs(b) }
}

pub open spec fn fits_i64(x: int) -> bool {
    i64::MIN <= x <= i64::MAX
}

pub open spec fn int_result(x: int) -> Result<SVal, SErr> {
    if fits_i64(x) { Ok(SVal::Int(x as i64)) } else { Err(SErr::Overflow) }
}

pub open spec fn double_result(x: int) -> Result<SVal, SErr> {
    if fits_i64(x) { Ok(SVal::Double(x as i64)) } else { Err(SErr::Overflow) }
}

/// What a binary operator gives on two evaluated operands (`and` and `or`
/// are evaluated lazily and are not here).
pub open spec fn binop(op: Op, a: SVal, b: SVal) -> Result<SVal, SErr> {
    match op {
        Op::Add => match (a, b) {
            (SVal::Int(x), SVal::Int(y)) => int_result(x + y),
            (SVal::Double(x), SVal::Double(y)) => double_result(x + y),
            (SVal::Str(x), SVal::Str(y)) => Ok(SVal::Str(x + y)),
            (SVal::Str(x), _) => Ok(SVal::Str(x + render(b))),
            (_, SVal::Str(y)) => Ok(SVal::Str(render(a) + y)),
            _ => Err(SErr::TypeMismatch(op)),
        },
        Op::Sub => match (a, b) {
            (SVal::Int(x), SVal::Int(y)) => int_result(x - y),
            (SVal::Double(x), SVal::Double(y)) => double_result(x - y),
            _ => Err(SErr::TypeMismatch(op)),
        },
        Op::Mul => match (a, b) {
            (SVal::Int(x), SVal::Int(y)) => int_result(x * y),
            (SVal::Double(x), SVal::Double(y)) => double_result(trunc_div(x * y, DOUBLE_ONE as int)),
            _ => Err(SErr::TypeMismatch(op)),
        },
        Op::Div => match (a, b) {
            (SVal::Int(x), SVal::Int(y)) => if y == 0 {
                Err(SErr::DivisionByZero)
            } else {
                int_result(trunc_div(x as int, y as int))
            },
            (SVal::Double(x), SVal::Double(y)) => if y == 0 {
                Err(SErr::DivisionByZero)
            } else {
                double_result(trunc_div(x * DOUBLE_ONE, y as int))
            },
            _ => Err(SErr::TypeMismatch(op)),
        },
        Op::Mod => match (a, b) {
            (SVal::Int(x), SVal::Int(y)) => if y == 0 {
                Err(SErr::ModuloByZero)
            } else {
                int_result(trunc_rem(x as int, y as int))
            },
            _ => Err(SErr::TypeMismatch(op)),
        },
        Op::Less => match (a, b) {
            (SVal::Int(x), SVal::Int(y)) => Ok(SVal::Bool(x < y)),
            (SVal::Double(x), SVal::Double(y)) => Ok(SVal::Bool(x < y)),
            _ => Err(SErr::TypeMismatch(op)),
        },
        Op::Greater => match (a, b) {
            (SVal::Int(x), SVal::Int(y)) => Ok(SVal::Bool(x > y)),
            (SVal::Double(x), SVal::Double(y)) => Ok(SVal::Bool(x > y)),
            _ => Err(SErr::TypeMismatch(op)),
        },
        Op::LessEqual => match (a, b) {
            (SVal::Int(x), SVal::Int(y)) => Ok(SVal::Bool(x <= y)),
            (SVal::Double(x), SVal::Double(y)) => Ok(SVal::Bool(x <= y)),
            _ => Err(SErr::TypeMismatch(op)),
        },
        Op::GreaterEqual => match (a, b) {
            (SVal::Int(x), SVal::Int(y)) => Ok(SVal::Bool(x >= y)),
            (SVal::Double(x), SVal::Double(y)) => Ok(SVal::Bool(x >= y)),
            _ => Err(SErr::TypeMismatch(op)),
        },
        Op::Equal => Ok(SVal::Bool(a == b)),
        Op::NotEqual => Ok(SVal::Bool(a != b)),
        Op::Index => match (a, b) {
            (SVal::Array(items), SVal::Int(i)) => if 0 <= i < items.len() {
                Ok(items[i as int])
            } else {
                Err(SErr::IndexOutOfBounds)
            },
            _ => Err(SErr::TypeMismatch(op)),
        },
        _ => Err(SErr::TypeMismatch(op)),
    }
}

/// What a unary operator gives on an evaluated operand.
pub open spec fn unop(op: Op, a: SVal) -> Result<SVal, SErr> {
    match (op, a) {
        (Op::Neg, SVal::Int(x)) => int_result(-x),
        (Op::Neg, SVal::Double(x)) => double_result(-x),
        (Op::Not, SVal::Bool(b)) => Ok(SVal::Bool(!b)),
        _ => Err(SErr::TypeMismatch(op)),
    }
}

/// `array[index] = value` on evaluated operands: the updated array.
pub open spec fn assign_index(a: SVal, i: SVal, v: SVal) -> Result<SVal, SErr> {
    match (a, i) {
        (SVal::Array(items), SVal::Int(k)) => if 0 <= k < items.len() {
            Ok(SVal::Array(items.update(k as int, v)))
        } else {
            Err(SErr::IndexOutOfBounds)
        },
        _ => Err(SErr::TypeMismatch(Op::AssignIndex)),
    }
}

pub open spec fn result_view(r: Result<Value, RuntimeError>) -> Result<SVal, SErr> {
    match r {
        Ok(v) => Ok(v@),
        Err(e) => Err(e@),
    }
}

impl Value {
    /// A copy of the value.
    pub fn copy(&self) -> (r: Value)
        ensures
            r@ == self@,
        decreases self,
    {
        match self {
            Value::Int(i) => Value::Int(*i),
            Value::Bool(b) => Value::Bool(*b),
            Value::Str(s) => Value::Str(s.clone()),
            Value::Double(d) => Value::Double(*d),
            Value::Array(items) => {
                proof {
                    assert(decreases_to!(*self => *items));
                }
                let mut out: Vec<Value> = Vec::new();
                let mut i: usize = 0;
                while i < items.len()
                    invariant
                        i <= items.len(),
                        decreases_to!(*self => *items),
                        out.len() == i,
                        forall|j: int| 0 <= j < i ==> out[j]@ == items[j]@,
                    decreases items.len() - i,
                {
                    proof {
                        assert(decreases_to!(*items => items[i as int]));
                    }
                    out.push(items[i].copy());
                    i += 1;
                }
                let r = Value::Array(out);
                proof {
                    assert(r@->Array_0 =~= self@->Array_0);
                }
                r
            },
        }
    }

    /// Structural equality of two values.
    pub fn same_as(&self, other: &Value) -> (r: bool)
        ensures
            r == (self@ == other@),
        decreases self,
    {
        match (self, other) {
            (Value::Int(x), Value::Int(y)) => *x == *y,
            (Value::Bool(x), Value::Bool(y)) => *x == *y,
            (Value::Double(x), Value::Double(y)) => *x == *y,
            (Value::Str(x), Value::Str(y)) => {
                let r = chars_equal(x, y);
                r
            },
            (Value::Array(x), Value::Array(y)) => {
                proof {
                    assert(decreases_to!(*self => *x));
                }
                if x.len() != y.len() {
                    proof {
                        assert(self@->Array_0.len() != other@->Array_0.len());
                    }
                    return false;
                }
                let ghost sa = self@->Array_0;
                let ghost oa = other@->Array_0;
                let mut i: usize = 0;
                while i < x.len()
                    invariant
                        i <= x.len(),
                        x.len() == y.len(),
                        self@ == SVal::Array(sa),
                        other@ == SVal::Array(oa),
                        sa.len() == x.len(),
                        oa.len() == y.len(),
                        forall|j: int| 0 <= j < x.len() ==> sa[j] == x[j]@,
                        forall|j: int| 0 <= j < y.len() ==> oa[j] == y[j]@,
                        decreases_to!(*self => *x),
                        forall|j: int| 0 <= j < i ==> x[j]@ == y[j]@,
                    decreases x.len() - i,
                {
                    proof {
                        assert(decreases_to!(*x => x[i as int]));
                    }
                    if !x[i].same_as(&y[i]) {
                        proof {
                            assert(sa[i as int] != oa[i as int]);
                        }
                        return false;
                    }
                    i += 1;
                }
                proof {
                    assert(sa =~= oa);
                }
                true
            },
            _ => false,
        }
    }
}

/// Whether two character sequences are equal.
pub fn chars_equal(a: &Vec<char>, b: &Vec<char>) -> (r: bool)
    ensures
        r == (a@ == b@),
{
    if a.len() != b.len() {
        return false;
    }
    let mut i: usize = 0;
    while i < a.len()
        invariant
            i <= a.len(),
            a.len() == b.len(),
            forall|j: int| 0 <= j < i ==> a@[j] == b@[j],
        decreases a.len() - i,
    {
        if a[i] != b[i] {
            return false;
        }
        i += 1;
    }
    proof {
        assert(a@ =~= b@);
    }
    true
}


pub open spec fn wide(x: int) -> bool {
    -0x4000_0000_0000_0000_0000_0000_0000_0000 <= x <= 0x4000_0000_0000_0000_0000_0000_0000_0000
}

/// Division toward zero on wide integers.
pub fn div_toward_zero(a: i128, b: i128) -> (q: i128)
    requires
        b != 0,
        wide(a as int),
        wide(b as int),
    ensures
        q == trunc_div(a as int, b as int),
{
    let ma: u128 = if a < 0 { (-a) as u128 } else { a as u128 };
    let mb: u128 = if b < 0 { (-b) as u128 } else { b as u128 };
    let m = ma / mb;
    proof {
        assert(m <= ma) by (nonlinear_arith)
            requires m == ma / mb, mb >= 1;
    }
    if (a < 0) == (b < 0) {
        m as i128
    } else {
        -(m as i128)
    }
}

/// The remainder of division toward zero.
pub fn rem_toward_zero(a: i64, b: i64) -> (r: i64)
    requires
        b != 0,
    ensures
        r == trunc_rem(a as int, b as int),
{
    let ma = magnitude(a);
    let mb = magnitude(b);
    let m = ma % mb;
    proof {
        assert(m < mb);
    }
    if a < 0 {
        -(m as i128) as i64
    } else {
        m as i64
    }
}

pub fn int_value(x: i128) -> (r: Result<Value, RuntimeError>)
    ensures
        result_view(r) == int_result(x as int),
{
    if i64::MIN as i128 <= x && x <= i64::MAX as i128 {
        Ok(Value::Int(x as i64))
    } else {
        Err(RuntimeError::Overflow)
    }
}

pub fn double_value(x: i128) -> (r: Result<Value, RuntimeError>)
    ensures
        result_view(r) == double_result(x as int),
{
    if i64::MIN as i128 <= x && x <= i64::MAX as i128 {
        Ok(Value::Double(x as i64))
    } else {
        Err(RuntimeError::Overflow)
    }
}

/// Applies a binary operator to two evaluated operands.
pub fn apply_binop(op: Op, a: &Value, b: &Value) -> (r: Result<Value, RuntimeError>)
    ensures
        result_view(r) == binop(op, a@, b@),
{
    match op {
        Op::Add => match (a, b) {
            (Value::Int(x), Value::Int(y)) => int_value(*x as i128 + *y as i128),
            (Value::Double(x), Value::Double(y)) => double_value(*x as i128 + *y as i128),
            (Value::Str(x), Value::Str(y)) => {
                let mut s = x.clone();
                push_str(y, &mut s);
                Ok(Value::Str(s))
            },
            (Value::Str(x), _) => {
                let mut s = x.clone();
                push_render(b, &mut s);
                Ok(Value::Str(s))
            },
            (_, Value::Str(y)) => {
                let mut s: Vec<char> = Vec::new();
                push_render(a, &mut s);
                push_str(y, &mut s);
                proof {
                    assert(s@ =~= render(a@) + y@);
                }
                Ok(Value::Str(s))
            },
            _ => Err(RuntimeError::TypeMismatch(op)),
        },
        Op::Sub => match (a, b) {
            (Value::Int(x), Value::Int(y)) => int_value(*x as i128 - *y as i128),
            (Value::Double(x), Value::Double(y)) => double_value(*x as i128 - *y as i128),
            _ => Err(RuntimeError::TypeMismatch(op)),
        },
        Op::Mul => match (a, b) {
            (Value::Int(x), Value::Int(y)) => {
                proof {
                    lemma_wide_product(*x as int, *y as int);
                }
                int_value(*x as i128 * *y as i128)
            },
            (Value::Double(x), Value::Double(y)) => {
                proof {
                    lemma_wide_product(*x as int, *y as int);
                }
                double_value(div_toward_zero(*x as i128 * *y as i128, DOUBLE_ONE as i128))
            },
            _ => Err(RuntimeError::TypeMismatch(op)),
        },
        Op::Div => match (a, b) {
            (Value::Int(x), Value::Int(y)) => {
                if *y == 0 {
                    Err(RuntimeError::DivisionByZero)
                } else {
                    int_value(div_toward_zero(*x as i128, *y as i128))
                }
            },
            (Value::Double(x), Value::Double(y)) => {
                if *y == 0 {
                    Err(RuntimeError::DivisionByZero)
                } else {
                    proof {
                        lemma_wide_product(*x as int, DOUBLE_ONE as int);
                    }
                    double_value(div_toward_zero(*x as i128 * DOUBLE_ONE as i128, *y as i128))
                }
            },
            _ => Err(RuntimeError::TypeMismatch(op)),
        },
        Op::Mod => match (a, b) {
            (Value::Int(x), Value::Int(y)) => {
                if *y == 0 {
                    Err(RuntimeError::ModuloByZero)
                } else {
                    Ok(Value::Int(rem_toward_zero(*x, *y)))
                }
            },
            _ => Err(RuntimeError::TypeMismatch(op)),
        },
        Op::Less => match (a, b) {
            (Value::Int(x), Value::Int(y)) => Ok(Value::Bool(*x < *y)),
            (Value::Double(x), Value::Double(y)) => Ok(Value::Bool(*x < *y)),
            _ => Err(RuntimeError::TypeMismatch(op)),
        },
        Op::Greater => match (a, b) {
            (Value::Int(x), Value::Int(y)) => Ok(Value::Bool(*x > *y)),
            (Value::Double(x), Value::Double(y)) => Ok(Value::Bool(*x > *y)),
            _ => Err(RuntimeError::TypeMismatch(op)),
        },
        Op::LessEqual => match (a, b) {
            (Value::Int(x), Value::Int(y)) => Ok(Value::Bool(*x <= *y)),
            (Value::Double(x), Value::Double(y)) => Ok(Value::Bool(*x <= *y)),
            _ => Err(RuntimeError::TypeMismatch(op)),
        },
        Op::GreaterEqual => match (a, b) {
            (Value::Int(x), Value::Int(y)) => Ok(Value::Bool(*x >= *y)),
            (Value::Double(x), Value::Double(y)) => Ok(Value::Bool(*x >= *y)),
            _ => Err(RuntimeError::TypeMismatch(op)),
        },
        Op::Equal => Ok(Value::Bool(a.same_as(b))),
        Op::NotEqual => Ok(Value::Bool(!a.same_as(b))),
        Op::Index => match (a, b) {
            (Value::Array(items), Value::Int(i)) => {
                if 0 <= *i && (*i as u64) < items.len() as u64 {
                    Ok(items[*i as usize].copy())
                } else {
                    Err(RuntimeError::IndexOutOfBounds)
                }
            },
            _ => Err(RuntimeError::TypeMismatch(op)),
        },
        _ => Err(RuntimeError::TypeMismatch(op)),
    }
}

proof fn lemma_wide_product(x: int, y: int)
    requires
        fits_i64(x),
        fits_i64(y),
    ensures
        wide(x * y),
        i128::MIN <= x * y <= i128::MAX,
{
    assert(-0x8000_0000_0000_0000 <= x <= 0x7fff_ffff_ffff_ffff);
    assert(abs(x * y) == abs(x) * abs(y)) by (nonlinear_arith);
    assert(abs(x) * abs(y) <= 0x8000_0000_0000_0000 * 0x8000_0000_0000_0000) by (nonlinear_arith)
        requires abs(x) <= 0x8000_0000_0000_0000, abs(y) <= 0x8000_0000_0000_0000, abs(x) >= 0, abs(y) >= 0;
}

/// Applies a unary operator to an evaluated operand.
pub fn apply_unop(op: Op, a: &Value) -> (r: Result<Value, RuntimeError>)
    ensures
        result_view(r) == unop(op, a@),
{
    match (op, a) {
        (Op::Neg, Value::Int(x)) => int_value(-(*x as i128)),
        (Op::Neg, Value::Double(x)) => double_value(-(*x as i128)),
        (Op::Not, Value::Bool(b)) => Ok(Value::Bool(!*b)),
        _ => Err(RuntimeError::TypeMismatch(op)),
    }
}

/// `array[index] = value` on evaluated operands.
pub fn apply_assign_index(a: Value, i: &Value, v: Value) -> (r: Result<Value, RuntimeError>)
    ensures
        result_view(r) == assign_index(a@, i@, v@),
{
    let ghost av = a@;
    let ghost vv = v@;
    match a {
        Value::Array(mut items) => match i {
            Value::Int(k) => {
                if 0 <= *k && (*k as u64) < items.len() as u64 {
                    items.set(*k as usize, v);
                    let r = Value::Array(items);
                    proof {
                        assert(r@->Array_0 =~= av->Array_0.update(*k as int, vv));
                    }
                    Ok(r)
                } else {
                    Err(RuntimeError::IndexOutOfBounds)
                }
            },
            _ => Err(RuntimeError::TypeMismatch(Op::AssignIndex)),
        },
        _ => Err(RuntimeError::TypeMismatch(Op::AssignIndex)),
    }
}

} // verus!
