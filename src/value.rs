//! Runtime values of the language and their text form.
use vstd::prelude::*;
use crate::text::{double_text, int_text, push_double_text, push_int_text};

verus! {

broadcast use vstd::std_specs::vec::group_vec_axioms, vstd::seq::group_seq_axioms;

/// The mathematical model of a runtime value.
pub enum SVal {
    Int(i64),
    Bool(bool),
    Str(Seq<char>),
    /// A double as a count of millionths.
    Double(i64),
    Array(Seq<SVal>),
}

/// A runtime value: integer, boolean, string, fixed-point double or array.
#[derive(Debug)]
pub enum Value {
    Int(i64),
    Bool(bool),
    Str(Vec<char>),
    /// A double as a count of millionths (six fractional digits).
    Double(i64),
    Array(Vec<Value>),
}

impl Value {
    pub open spec fn view(&self) -> SVal
        decreases self,
    {
        match self {
            Value::Int(i) => SVal::Int(*i),
            Value::Bool(b) => SVal::Bool(*b),
            Value::Str(s) => SVal::Str(s@),
            Value::Double(d) => SVal::Double(*d),
            Value::Array(items) => SVal::Array(
                Seq::new(items.len() as nat, |i: int| if 0 <= i < items.len() { items[i].view() } else { SVal::Int(0) }),
            ),
        }
    }
}

/// The text that `print` shows for a value.
pub open spec fn render(v: SVal) -> Seq<char>
    decreases v,
{
    match v {
        SVal::Int(i) => int_text(i as int),
        SVal::Bool(b) => if b { seq!['t', 'r', 'u', 'e'] } else { seq!['f', 'a', 'l', 's', 'e'] },
        SVal::Str(s) => s,
        SVal::Double(d) => double_text(d as int),
        SVal::Array(items) => seq!['['] + render_items(items) + seq![']'],
    }
}

/// The items of an array, rendered and separated by `, `.
pub open spec fn render_items(items: Seq<SVal>) -> Seq<char>
    decreases items,
{
    if items.len() == 0 {
        Seq::empty()
    } else if items.len() == 1 {
        render(items[0])
    } else {
        render_items(items.drop_last()) + seq![',', ' '] + render(items.last())
    }
}

pub fn push_str(s: &Vec<char>, out: &mut Vec<char>)
    ensures
        final(out)@ == old(out)@ + s@,
{
    let mut i: usize = 0;
    while i < s.len()
        invariant
            i <= s.len(),
            out@ == old(out)@ + s@.take(i as int),
        decreases s.len() - i,
    {
        out.push(s[i]);
        i += 1;
        proof {
            assert(s@.take(i as int) =~= s@.take(i - 1) .push(s@[i - 1]));
        }
    }
    proof {
        assert(s@.take(i as int) =~= s@);
    }
}

/// Appends the text of `v` to `out`.
pub fn push_render(v: &Value, out: &mut Vec<char>)
    ensures
        final(out)@ == old(out)@ + render(v@),
    decreases v,
{
    match v {
        Value::Int(i) => push_int_text(*i, out),
        Value::Bool(b) => {
            if *b {
                out.push('t');
                out.push('r');
                out.push('u');
                out.push('e');
            } else {
                out.push('f');
                out.push('a');
                out.push('l');
                out.push('s');
                out.push('e');
            }
            proof {
                assert(final(out)@ =~= old(out)@ + render(v@));
            }
        },
        Value::Str(s) => push_str(s, out),
        Value::Double(d) => push_double_text(*d, out),
        Value::Array(items) => {
            let ghost start = out@;
            let ghost model = v@->Array_0;
            out.push('[');
            proof {
                assert(decreases_to!(*v => *items));
            }
            let mut i: usize = 0;
            while i < items.len()
                invariant
                    i <= items.len(),
                    decreases_to!(*v => *items),
                    model.len() == items.len(),
                    forall|j: int| 0 <= j < items.len() ==> model[j] == items[j]@,
                    out@ == start + seq!['['] + render_items(model.take(i as int)),
                decreases items.len() - i,
            {
                if i > 0 {
                    out.push(',');
                    out.push(' ');
                }
                proof {
                    assert(decreases_to!(*items => items[i as int]));
                    assert(decreases_to!(*v => items[i as int]));
                }
                push_render(&items[i], out);
                proof {
                    let t = model.take(i + 1);
                    assert(t.drop_last() =~= model.take(i as int));
                    if i == 0 {
                        assert(model.take(i as int) =~= Seq::empty());
                    }
                }
                i += 1;
                proof {
                    assert(out@ =~= start + seq!['['] + render_items(model.take(i as int)));
                }
            }
            out.push(']');
            proof {
                assert(model.take(i as int) =~= model);
                assert(final(out)@ =~= old(out)@ + render(v@));
            }
        },
    }
}

} // verus!
