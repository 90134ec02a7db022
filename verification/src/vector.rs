//! Sums over vectors of scalars.
//!
//! Every sum here is taken from the first entry to the last, starting at
//! zero, so that its value is fixed even where the scalar's addition is not
//! associative.
use crate::scalar::{below, deterministic, less, number, plus, product, sum, times, zero, Scalar};
use vstd::prelude::*;

verus! {

/// The sum of the first `n` entries of `v`.
pub open spec fn total_upto<T: Scalar>(v: Seq<T>, n: nat) -> T
    decreases n,
{
    if n == 0 {
        zero::<T>()
    } else {
        sum(total_upto(v, (n - 1) as nat), v[n - 1])
    }
}

/// The sum of the entries of `v`.
pub open spec fn total<T: Scalar>(v: Seq<T>) -> T {
    total_upto(v, v.len())
}

/// The sum of `w[i] * x[i]` over the first `n` indices.
pub open spec fn dot_upto<T: Scalar>(w: Seq<T>, x: Seq<T>, n: nat) -> T
    decreases n,
{
    if n == 0 {
        zero::<T>()
    } else {
        sum(dot_upto(w, x, (n - 1) as nat), product(w[n - 1], x[n - 1]))
    }
}

/// The inner product of `w` and `x`.
pub open spec fn dot<T: Scalar>(w: Seq<T>, x: Seq<T>) -> T
    recommends
        w.len() == x.len(),
{
    dot_upto(w, x, w.len())
}

/// The greatest of the first `n` entries of `v`; of equal ones, the first.
pub open spec fn greatest_upto<T: Scalar>(v: Seq<T>, n: nat) -> T
    recommends
        0 < n <= v.len(),
    decreases n,
{
    if n <= 1 {
        v[0]
    } else {
        let best = greatest_upto(v, (n - 1) as nat);
        if less(best, v[n - 1]) {
            v[n - 1]
        } else {
            best
        }
    }
}

/// The greatest entry of `v`.
pub open spec fn greatest<T: Scalar>(v: Seq<T>) -> T
    recommends
        v.len() > 0,
{
    greatest_upto(v, v.len())
}

/// A copy of the entries of `v` from index `from` up to, not including, `to`.
pub fn copy_range<T: Scalar>(v: &Vec<T>, from: usize, to: usize) -> (r: Vec<T>)
    requires
        from <= to <= v.len(),
    ensures
        r@ == v@.subrange(from as int, to as int),
{
    let mut r: Vec<T> = Vec::new();
    let mut i: usize = from;
    while i < to
        invariant
            from <= i <= to <= v.len(),
            r@ == v@.subrange(from as int, i as int),
        decreases to - i,
    {
        r.push(v[i]);
        i += 1;
    }
    r
}

/// A copy of `v`.
pub fn copy<T: Scalar>(v: &Vec<T>) -> (r: Vec<T>)
    ensures
        r@ == v@,
{
    let r = copy_range(v, 0, v.len());
    r
}

/// The sum of the entries of `v`.
pub fn total_of<T: Scalar>(v: &Vec<T>) -> (r: T)
    ensures
        deterministic::<T>() ==> r == total(v@),
{
    let mut acc: T = number::<T>(0);
    let mut i: usize = 0;
    while i < v.len()
        invariant
            i <= v.len(),
            deterministic::<T>() ==> acc == total_upto(v@, i as nat),
        decreases v.len() - i,
    {
        acc = plus(acc, v[i]);
        i += 1;
    }
    acc
}

/// The inner product of `w` and `x`.
pub fn dot_product<T: Scalar>(w: &Vec<T>, x: &Vec<T>) -> (r: T)
    requires
        w.len() == x.len(),
    ensures
        deterministic::<T>() ==> r == dot(w@, x@),
{
    let mut acc: T = number::<T>(0);
    let mut i: usize = 0;
    while i < w.len()
        invariant
            i <= w.len(),
            w.len() == x.len(),
            deterministic::<T>() ==> acc == dot_upto(w@, x@, i as nat),
        decreases w.len() - i,
    {
        acc = plus(acc, times(w[i], x[i]));
        i += 1;
    }
    acc
}

/// The greatest entry of `v`.
pub fn greatest_of<T: Scalar>(v: &Vec<T>) -> (r: T)
    requires
        v.len() > 0,
    ensures
        deterministic::<T>() ==> r == greatest(v@),
{
    let mut best: T = v[0];
    let mut i: usize = 1;
    while i < v.len()
        invariant
            1 <= i <= v.len(),
            deterministic::<T>() ==> best == greatest_upto(v@, i as nat),
        decreases v.len() - i,
    {
        if below(best, v[i]) {
            best = v[i];
        }
        i += 1;
    }
    best
}

} // verus!
