//! The activation functions of a layer.
//!
//! Each activation is a transform `f` of a vector together with a
//! derivative that is computed from the *output* `y = f(x)`, not from `x`.
use crate::scalar::{
    below, deterministic, difference, exp_of, exponential, less, minus, negate, negation, number,
    one, over, plus, product, quotient, sum, times, zero, Scalar,
};
use crate::vector::{copy, greatest, greatest_of, total, total_of};
use vstd::prelude::*;

verus! {

/// The closed set of activation functions.
#[derive(Clone, Copy, Debug, PartialEq, Eq, Structural)]
pub enum Activation {
    /// `f(x) = x`, `f'(y) = 1`.
    Identity,
    /// `f(x) = 1 / (1 + e^-x)`, `f'(y) = y (1 - y)`.
    Sigmoid,
    /// `f(x) = (e^x - e^-x) / (e^x + e^-x)`, `f'(y) = 1 - y^2`.
    Tanh,
    /// `f(x) = max(0, x)`, `f'(y) = 1` where `y > 0`, else `0`.
    Relu,
    /// `f(x)_i = e^(x_i - max x) / sum_k e^(x_k - max x)`, and the diagonal
    /// approximation `f'(y) = y (1 - y)`, which leaves out the cross terms
    /// of the Jacobian.
    Softmax,
}

/// `1 / (1 + e^-x)`.
pub open spec fn sigmoid<T: Scalar>(x: T) -> T {
    quotient(one::<T>(), sum(one::<T>(), exponential(negation(x))))
}

/// `(e^x - e^-x) / (e^x + e^-x)`.
pub open spec fn tanh<T: Scalar>(x: T) -> T {
    quotient(
        difference(exponential(x), exponential(negation(x))),
        sum(exponential(x), exponential(negation(x))),
    )
}

/// `max(0, x)`.
pub open spec fn relu<T: Scalar>(x: T) -> T {
    if less(zero::<T>(), x) {
        x
    } else {
        zero::<T>()
    }
}

/// `e^(x_i - max x)` for each entry of `x`.
pub open spec fn shifted_exponentials<T: Scalar>(x: Seq<T>) -> Seq<T> {
    Seq::new(x.len(), |i: int| exponential(difference(x[i], greatest(x))))
}

/// The softmax of `x`, with the greatest entry subtracted before the
/// exponential is taken.
pub open spec fn softmax<T: Scalar>(x: Seq<T>) -> Seq<T> {
    Seq::new(
        x.len(),
        |i: int| quotient(shifted_exponentials(x)[i], total(shifted_exponentials(x))),
    )
}

/// `y (1 - y)`.
pub open spec fn logistic_slope<T: Scalar>(y: T) -> T {
    product(y, difference(one::<T>(), y))
}

/// `1 - y^2`.
pub open spec fn tanh_slope<T: Scalar>(y: T) -> T {
    difference(one::<T>(), product(y, y))
}

/// `1` where `y > 0`, else `0`.
pub open spec fn relu_slope<T: Scalar>(y: T) -> T {
    if less(zero::<T>(), y) {
        one::<T>()
    } else {
        zero::<T>()
    }
}

impl Activation {
    /// No activation: the identity.
    pub const NONE: Activation = Activation::Identity;

    /// The logistic sigmoid.
    pub const SIGMOID: Activation = Activation::Sigmoid;

    /// The hyperbolic tangent.
    pub const TANH: Activation = Activation::Tanh;

    /// The rectified linear unit.
    pub const RELU: Activation = Activation::Relu;

    /// The softmax.
    pub const SOFTMAX: Activation = Activation::Softmax;

    /// `f(x)`.
    pub open spec fn evaluate<T: Scalar>(self, x: Seq<T>) -> Seq<T> {
        match self {
            Activation::Identity => x,
            Activation::Sigmoid => Seq::new(x.len(), |i: int| sigmoid(x[i])),
            Activation::Tanh => Seq::new(x.len(), |i: int| tanh(x[i])),
            Activation::Relu => Seq::new(x.len(), |i: int| relu(x[i])),
            Activation::Softmax => softmax(x),
        }
    }

    /// `f'`, as a function of the output `y = f(x)`.
    pub open spec fn derivative<T: Scalar>(self, y: Seq<T>) -> Seq<T> {
        match self {
            Activation::Identity => Seq::new(y.len(), |i: int| one::<T>()),
            Activation::Sigmoid => Seq::new(y.len(), |i: int| logistic_slope(y[i])),
            Activation::Tanh => Seq::new(y.len(), |i: int| tanh_slope(y[i])),
            Activation::Relu => Seq::new(y.len(), |i: int| relu_slope(y[i])),
            Activation::Softmax => Seq::new(y.len(), |i: int| logistic_slope(y[i])),
        }
    }

    /// Applies the activation to `x`.
    pub fn func<T: Scalar>(&self, x: &Vec<T>) -> (r: Vec<T>)
        ensures
            r.len() == x.len(),
            deterministic::<T>() ==> r@ == self.evaluate(x@),
    {
        match self {
            Activation::Identity => copy(x),
            Activation::Softmax => softmax_of(x),
            _ => {
                let mut r: Vec<T> = Vec::new();
                let mut i: usize = 0;
                while i < x.len()
                    invariant
                        i <= x.len(),
                        r.len() == i,
                        *self != Activation::Identity,
                        *self != Activation::Softmax,
                        deterministic::<T>() ==> r@ == self.evaluate(x@).take(i as int),
                    decreases x.len() - i,
                {
                    let y = match self {
                        Activation::Sigmoid => sigmoid_of(x[i]),
                        Activation::Tanh => tanh_of(x[i]),
                        _ => relu_of(x[i]),
                    };
                    r.push(y);
                    i += 1;
                }
                r
            },
        }
    }

    /// The derivative of the activation at the output `y`.
    pub fn d_func<T: Scalar>(&self, y: &Vec<T>) -> (r: Vec<T>)
        ensures
            r.len() == y.len(),
            deterministic::<T>() ==> r@ == self.derivative(y@),
    {
        let mut r: Vec<T> = Vec::new();
        let mut i: usize = 0;
        while i < y.len()
            invariant
                i <= y.len(),
                r.len() == i,
                deterministic::<T>() ==> r@ == self.derivative(y@).take(i as int),
            decreases y.len() - i,
        {
            let d = match self {
                Activation::Identity => number::<T>(1),
                Activation::Sigmoid => logistic_slope_of(y[i]),
                Activation::Tanh => tanh_slope_of(y[i]),
                Activation::Relu => relu_slope_of(y[i]),
                Activation::Softmax => logistic_slope_of(y[i]),
            };
            r.push(d);
            i += 1;
        }
        r
    }
}

fn sigmoid_of<T: Scalar>(x: T) -> (r: T)
    ensures
        deterministic::<T>() ==> r == sigmoid(x),
{
    let unit = number::<T>(1);
    over(unit, plus(unit, exp_of(negate(x))))
}

fn tanh_of<T: Scalar>(x: T) -> (r: T)
    ensures
        deterministic::<T>() ==> r == tanh(x),
{
    let up = exp_of(x);
    let down = exp_of(negate(x));
    over(minus(up, down), plus(up, down))
}

fn relu_of<T: Scalar>(x: T) -> (r: T)
    ensures
        deterministic::<T>() ==> r == relu(x),
{
    let origin = number::<T>(0);
    if below(origin, x) {
        x
    } else {
        origin
    }
}

fn logistic_slope_of<T: Scalar>(y: T) -> (r: T)
    ensures
        deterministic::<T>() ==> r == logistic_slope(y),
{
    times(y, minus(number::<T>(1), y))
}

fn tanh_slope_of<T: Scalar>(y: T) -> (r: T)
    ensures
        deterministic::<T>() ==> r == tanh_slope(y),
{
    minus(number::<T>(1), times(y, y))
}

fn relu_slope_of<T: Scalar>(y: T) -> (r: T)
    ensures
        deterministic::<T>() ==> r == relu_slope(y),
{
    if below(number::<T>(0), y) {
        number::<T>(1)
    } else {
        number::<T>(0)
    }
}

fn softmax_of<T: Scalar>(x: &Vec<T>) -> (r: Vec<T>)
    ensures
        r.len() == x.len(),
        deterministic::<T>() ==> r@ == softmax(x@),
{
    if x.len() == 0 {
        let r: Vec<T> = Vec::new();
        return r;
    }
    let top = greatest_of(x);
    let mut exps: Vec<T> = Vec::new();
    let mut i: usize = 0;
    while i < x.len()
        invariant
            i <= x.len(),
            exps.len() == i,
            deterministic::<T>() ==> top == greatest(x@),
            deterministic::<T>() ==> exps@ == shifted_exponentials(x@).take(i as int),
        decreases x.len() - i,
    {
        exps.push(exp_of(minus(x[i], top)));
        i += 1;
    }
    let whole = total_of(&exps);
    let mut r: Vec<T> = Vec::new();
    let mut k: usize = 0;
    while k < exps.len()
        invariant
            k <= exps.len(),
            exps.len() == x.len(),
            r.len() == k,
            deterministic::<T>() ==> exps@ == shifted_exponentials(x@),
            deterministic::<T>() ==> whole == total(exps@),
            deterministic::<T>() ==> r@ == softmax(x@).take(k as int),
        decreases exps.len() - k,
    {
        r.push(over(exps[k], whole));
        k += 1;
    }
    r
}

} // verus!
