use vstd::prelude::*;

use crate::command::{operator_of, Operator};
use crate::error::CalcError;
use crate::text::{split_words, string_of, views_of, words};

verus! {

/// The operator a word stands for: a word of one operator symbol and nothing else.
pub open spec fn word_operator(w: Seq<char>) -> Option<Operator> {
    if w.len() == 1 && operator_of(w[0]) is Ok {
        Some(operator_of(w[0])->Ok_0)
    } else {
        None
    }
}

fn operator_word(w: &Vec<char>) -> (r: Option<Operator>)
    ensures
        r == word_operator(w@),
{
    if w.len() == 1 {
        match Operator::from_char(w[0]) {
            Ok(op) => Some(op),
            Err(_) => None,
        }
    } else {
        None
    }
}

/// `r` is a possible outcome of evaluating the words `ws` from position `i` on, with
/// `stack` already built, where numbers are read by `parse`, divisors tested by
/// `is_zero`, and operators computed by `compute`.
///
/// An operator needs two values and replaces them by `a <op> b`, `b` being the top;
/// `/` with a zero divisor fails. Any other word must parse. At the end exactly one
/// value must be left.
pub open spec fn evaluates<T, P, Z, C>(
    ws: Seq<Seq<char>>,
    i: int,
    stack: Seq<T>,
    parse: P,
    is_zero: Z,
    compute: C,
    r: Result<T, CalcError>,
) -> bool where P: Fn(String) -> Option<T>, Z: Fn(T) -> bool, C: Fn(Operator, T, T) -> T
    decreases ws.len() - i,
{
    if i < 0 || i >= ws.len() {
        if stack.len() == 1 {
            r == Ok::<T, CalcError>(stack[0])
        } else {
            r == Err::<T, CalcError>(CalcError::InvalidExpression)
        }
    } else {
        match word_operator(ws[i]) {
            Some(op) => {
                if stack.len() < 2 {
                    r == Err::<T, CalcError>(CalcError::InvalidExpression)
                } else {
                    let a = stack[stack.len() - 2];
                    let b = stack[stack.len() - 1];
                    let rest = stack.take(stack.len() - 2);
                    if op is Div {
                        exists|z: bool|
                            #[trigger] is_zero.ensures((b,), z) && (z ==> r == Err::<
                                T,
                                CalcError,
                            >(CalcError::DivisionByZero)) && (!z ==> exists|v: T|
                                #[trigger] compute.ensures((op, a, b), v) && evaluates(
                                    ws,
                                    i + 1,
                                    rest.push(v),
                                    parse,
                                    is_zero,
                                    compute,
                                    r,
                                ))
                    } else {
                        exists|v: T|
                            #[trigger] compute.ensures((op, a, b), v) && evaluates(
                                ws,
                                i + 1,
                                rest.push(v),
                                parse,
                                is_zero,
                                compute,
                                r,
                            )
                    }
                }
            },
            None => exists|s: String, p: Option<T>|
                #[trigger] parse.ensures((s,), p) && s@ == ws[i] && (p is None ==> r == Err::<
                    T,
                    CalcError,
                >(CalcError::InvalidNumber)) && (p matches Some(v) ==> evaluates(
                    ws,
                    i + 1,
                    stack.push(v),
                    parse,
                    is_zero,
                    compute,
                    r,
                )),
        }
    }
}

/// Evaluates an expression in reverse Polish notation.
///
/// The words of `expression` are read left to right against a stack that starts
/// empty; see `evaluates` for what each word does and which error comes when.
pub fn evaluate<T, P, Z, C>(expression: &str, parse: P, is_zero: Z, compute: C) -> (r: Result<
    T,
    CalcError,
>) where T: Copy, P: Fn(String) -> Option<T>, Z: Fn(T) -> bool, C: Fn(Operator, T, T) -> T
    requires
        forall|s: String| parse.requires((s,)),
        forall|x: T| is_zero.requires((x,)),
        forall|op: Operator, a: T, b: T| compute.requires((op, a, b)),
    ensures
        evaluates(words(expression@), 0, seq![], parse, is_zero, compute, r),
{
    let ws = split_words(expression);
    let ghost vs = words(expression@);
    let mut stack: Vec<T> = Vec::new();
    let mut i: usize = 0;
    while i < ws.len()
        invariant
            vs == words(expression@),
            views_of(ws@) == vs,
            0 <= i <= ws.len(),
            forall|k: int| 0 <= k < ws@.len() ==> vs[k] == ws@[k]@,
            forall|r: Result<T, CalcError>|
                #[trigger] evaluates(vs, i as int, stack@, parse, is_zero, compute, r)
                    ==> evaluates(vs, 0, seq![], parse, is_zero, compute, r),
            forall|s: String| parse.requires((s,)),
            forall|x: T| is_zero.requires((x,)),
            forall|op: Operator, a: T, b: T| compute.requires((op, a, b)),
        decreases ws.len() - i,
    {
        let ghost before = stack@;
        match operator_word(&ws[i]) {
            Some(op) => {
                if stack.len() < 2 {
                    let r = Err::<T, CalcError>(CalcError::InvalidExpression);
                    proof {
                        assert(evaluates(vs, i as int, before, parse, is_zero, compute, r));
                        assert(evaluates(vs, 0, seq![], parse, is_zero, compute, r));
                    }
                    return r;
                }
                let b = stack.pop().unwrap();
                let a = stack.pop().unwrap();
                assert(stack@ == before.take(before.len() - 2));
                if let Operator::Div = op {
                    let z = is_zero(b);
                    if z {
                        proof {
                            let r = Err::<T, CalcError>(CalcError::DivisionByZero);
                            assert(is_zero.ensures((b,), z));
                            assert(evaluates(vs, i as int, before, parse, is_zero, compute, r));
                        }
                        return Err(CalcError::DivisionByZero);
                    }
                    let v = compute(op, a, b);
                    stack.push(v);
                    proof {
                        assert forall|r: Result<T, CalcError>|
                            #[trigger] evaluates(
                                vs,
                                i + 1,
                                stack@,
                                parse,
                                is_zero,
                                compute,
                                r,
                            ) implies evaluates(vs, 0, seq![], parse, is_zero, compute, r) by {
                            assert(is_zero.ensures((b,), z));
                            assert(compute.ensures((op, a, b), v));
                            assert(evaluates(vs, i as int, before, parse, is_zero, compute, r));
                        }
                    }
                } else {
                    let v = compute(op, a, b);
                    stack.push(v);
                    proof {
                        assert forall|r: Result<T, CalcError>|
                            #[trigger] evaluates(
                                vs,
                                i + 1,
                                stack@,
                                parse,
                                is_zero,
                                compute,
                                r,
                            ) implies evaluates(vs, 0, seq![], parse, is_zero, compute, r) by {
                            assert(compute.ensures((op, a, b), v));
                            assert(evaluates(vs, i as int, before, parse, is_zero, compute, r));
                        }
                    }
                }
            },
            None => {
                let s = string_of(&ws[i]);
                let ghost sv = s;
                let p = parse(s);
                match p {
                    Some(v) => {
                        stack.push(v);
                        proof {
                            assert forall|r: Result<T, CalcError>|
                                #[trigger] evaluates(
                                    vs,
                                    i + 1,
                                    stack@,
                                    parse,
                                    is_zero,
                                    compute,
                                    r,
                                ) implies evaluates(vs, 0, seq![], parse, is_zero, compute, r) by {
                                assert(parse.ensures((sv,), p));
                                assert(evaluates(
                                    vs,
                                    i as int,
                                    before,
                                    parse,
                                    is_zero,
                                    compute,
                                    r,
                                ));
                            }
                        }
                    },
                    None => {
                        let r = Err::<T, CalcError>(CalcError::InvalidNumber);
                        proof {
                            
                            assert(parse.ensures((sv,), p));
                            assert(evaluates(vs, i as int, before, parse, is_zero, compute, r));
                            assert(evaluates(vs, 0, seq![], parse, is_zero, compute, r));
                        }
                        return r;
                    },
                }
            },
        }
        i = i + 1;
    }
    if stack.len() != 1 {
        proof {
            let r = Err::<T, CalcError>(CalcError::InvalidExpression);
            assert(evaluates(vs, i as int, stack@, parse, is_zero, compute, r));
        }
        return Err(CalcError::InvalidExpression);
    }
    let r = Ok(stack[0]);
    assert(evaluates(vs, i as int, stack@, parse, is_zero, compute, r));
    r
}

} // verus!
