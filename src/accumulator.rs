use vstd::prelude::*;

use crate::command::{operator_of, Operator};
use crate::error::CalcError;

verus! {

/// The basic calculator's state: a working value and one memory slot.
///
/// The value type is left open; arithmetic on it is handed in by the caller.
#[derive(Clone, Copy, Debug)]
pub struct Accumulator<T> {
    pub current: T,
    pub memory: T,
}

impl<T: Copy> Accumulator<T> {
    pub open spec fn after_store(self) -> Self {
        Accumulator { current: self.current, memory: self.current }
    }

    pub open spec fn after_recall(self) -> Self {
        Accumulator { current: self.memory, memory: self.memory }
    }

    /// A fresh accumulator, both values at `zero`.
    pub fn new(zero: T) -> (r: Self)
        ensures
            r.current == zero,
            r.memory == zero,
    {
        Accumulator { current: zero, memory: zero }
    }

    /// Replaces the working value.
    pub fn set(&mut self, value: T)
        ensures
            final(self).current == value,
            final(self).memory == old(self).memory,
    {
        self.current = value;
    }

    /// Copies the working value into memory and returns it.
    pub fn store(&mut self) -> (r: T)
        ensures
            *final(self) == old(self).after_store(),
            r == final(self).memory,
    {
        self.memory = self.current;
        self.memory
    }

    /// Copies memory into the working value and returns it.
    pub fn recall(&mut self) -> (r: T)
        ensures
            *final(self) == old(self).after_recall(),
            r == final(self).current,
    {
        self.current = self.memory;
        self.current
    }

    /// Applies `current <symbol> operand`, the working value on the left; see `applies`.
    pub fn apply<Z, C>(&mut self, symbol: char, operand: T, is_zero: Z, compute: C) -> (r: Result<
        T,
        CalcError,
    >) where Z: Fn(T) -> bool, C: Fn(Operator, T, T) -> T
        requires
            is_zero.requires((operand,)),
            forall|op: Operator| compute.requires((op, old(self).current, operand)),
        ensures
            applies(*old(self), symbol, operand, is_zero, compute, *final(self), r),
    {
        let op = match Operator::from_char(symbol) {
            Ok(op) => op,
            Err(e) => return Err(e),
        };
        if let Operator::Div = op {
            let z = is_zero(operand);
            if z {
                assert(is_zero.ensures((operand,), z));
                return Err(CalcError::DivisionByZero);
            }
            let v = compute(op, self.current, operand);
            self.current = v;
            assert(is_zero.ensures((operand,), z));
            assert(compute.ensures((op, old(self).current, operand), v));
            return Ok(v);
        }
        let v = compute(op, self.current, operand);
        self.current = v;
        assert(compute.ensures((op, old(self).current, operand), v));
        Ok(v)
    }
}

/// `r` and `new` are a possible outcome of applying `symbol` with `operand` to `old`.
///
/// An unknown symbol gives `InvalidOperator`; `/` by an operand that `is_zero`
/// accepts gives `DivisionByZero`; either way nothing changes. Otherwise the working
/// value becomes what `compute` returns for `(op, current, operand)`, and is returned.
pub open spec fn applies<T, Z, C>(
    old: Accumulator<T>,
    symbol: char,
    operand: T,
    is_zero: Z,
    compute: C,
    new: Accumulator<T>,
    r: Result<T, CalcError>,
) -> bool where Z: Fn(T) -> bool, C: Fn(Operator, T, T) -> T {
    match operator_of(symbol) {
        Err(e) => r == Err::<T, CalcError>(e) && new == old,
        Ok(op) => {
            let computed = exists|v: T|
                #[trigger] compute.ensures((op, old.current, operand), v) && r == Ok::<
                    T,
                    CalcError,
                >(v) && new == Accumulator { current: v, memory: old.memory };
            if op is Div {
                exists|z: bool|
                    #[trigger] is_zero.ensures((operand,), z) && (z ==> r == Err::<
                        T,
                        CalcError,
                    >(CalcError::DivisionByZero) && new == old) && (!z ==> computed)
            } else {
                computed
            }
        },
    }
}

/// Dividing by an operand that `is_zero` can only call non-zero succeeds with the
/// quotient that `compute` gives for `current / operand`, which becomes the working
/// value.
pub proof fn lemma_divide<T, Z, C>(
    old: Accumulator<T>,
    operand: T,
    is_zero: Z,
    compute: C,
    new: Accumulator<T>,
    r: Result<T, CalcError>,
)
    where Z: Fn(T) -> bool, C: Fn(Operator, T, T) -> T
    requires
        applies(old, '/', operand, is_zero, compute, new, r),
        forall|z: bool| #[trigger] is_zero.ensures((operand,), z) ==> !z,
    ensures
        r matches Ok(v) && compute.ensures((Operator::Div, old.current, operand), v)
            && new.current == v && new.memory == old.memory,
{
}

/// Dividing by an operand that `is_zero` can only call zero fails with
/// `DivisionByZero` and changes nothing.
pub proof fn lemma_divide_by_zero<T, Z, C>(
    old: Accumulator<T>,
    operand: T,
    is_zero: Z,
    compute: C,
    new: Accumulator<T>,
    r: Result<T, CalcError>,
)
    where Z: Fn(T) -> bool, C: Fn(Operator, T, T) -> T
    requires
        applies(old, '/', operand, is_zero, compute, new, r),
        forall|z: bool| #[trigger] is_zero.ensures((operand,), z) ==> z,
    ensures
        r == Err::<T, CalcError>(CalcError::DivisionByZero),
        new == old,
{
}

/// Storing and then recalling leaves the working value as it was.
pub proof fn lemma_store_then_recall<T: Copy>(a: Accumulator<T>)
    ensures
        a.after_store().after_recall().current == a.current,
        a.after_store().after_recall() == a.after_store(),
{
}

} // verus!
