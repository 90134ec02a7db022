//! A dense layer: a weight matrix, a bias vector and an activation.
use crate::activation::Activation;
use crate::matrix::{image, rectangular, row_major, rows_of, Matrix};
use crate::scalar::{
    deterministic, difference, minus, number, plus, product, sum, times, zero, Scalar,
};
use crate::text::{decimal, decimal_text};
use crate::vector::{copy, copy_range};
use vstd::prelude::*;
use vstd::string::StringExecFns;

verus! {

/// A dense layer of `out_size` neurons, each reading `in_size` inputs.
pub struct Layer<T> {
    activation: Activation,
    weights: Matrix<T>,
    biases: Vec<T>,
}

/// What a layer is: its input size, its activation, its weights (one row
/// per neuron) and its biases (one per neuron).
pub struct LayerModel<T> {
    pub in_size: nat,
    pub activation: Activation,
    pub weights: Seq<Seq<T>>,
    pub biases: Seq<T>,
}

/// The sum over the first `n` neurons `j` of `w[j][k] * slope[j] * signal[j]`.
pub open spec fn weighted_upto<T: Scalar>(
    w: Seq<Seq<T>>,
    slope: Seq<T>,
    signal: Seq<T>,
    k: int,
    n: nat,
) -> T
    decreases n,
{
    if n == 0 {
        zero::<T>()
    } else {
        sum(
            weighted_upto(w, slope, signal, k, (n - 1) as nat),
            product(product(w[n - 1][k], slope[n - 1]), signal[n - 1]),
        )
    }
}

impl<T: Scalar> LayerModel<T> {
    /// The number of neurons.
    pub open spec fn out_size(self) -> nat {
        self.biases.len()
    }

    /// The weights have one row of `in_size` entries for each bias.
    pub open spec fn wf(self) -> bool {
        &&& self.weights.len() == self.biases.len()
        &&& rectangular(self.weights, self.in_size)
    }

    /// Whether `other` has the sizes and the activation of this layer.
    pub open spec fn same_shape(self, other: Self) -> bool {
        &&& self.in_size == other.in_size
        &&& self.out_size() == other.out_size()
        &&& self.activation == other.activation
    }

    /// The layer in words: `Layer (in_size, out_size)`.
    pub open spec fn text(self) -> Seq<char> {
        "Layer ("@ + decimal_text(self.in_size) + ", "@ + decimal_text(self.out_size()) + ")"@
    }

    /// Whether `weights` has the shape of this layer's weights.
    pub open spec fn weights_fit(self, weights: Seq<Seq<T>>) -> bool {
        weights.len() == self.out_size() && rectangular(weights, self.in_size)
    }

    /// Whether `biases` has the length of this layer's biases.
    pub open spec fn biases_fit(self, biases: Seq<T>) -> bool {
        biases.len() == self.out_size()
    }

    /// Whether `weights` and `biases` have the shapes of this layer's own.
    pub open spec fn accepts(self, weights: Seq<Seq<T>>, biases: Seq<T>) -> bool {
        self.weights_fit(weights) && self.biases_fit(biases)
    }

    /// This layer with other weights and biases.
    pub open spec fn with_parameters(self, weights: Seq<Seq<T>>, biases: Seq<T>) -> Self {
        LayerModel { in_size: self.in_size, activation: self.activation, weights, biases }
    }

    /// `z = W x + b`.
    pub open spec fn preactivation(self, input: Seq<T>) -> Seq<T> {
        Seq::new(self.out_size(), |j: int| sum(image(self.weights, input)[j], self.biases[j]))
    }

    /// The layer's output `f(W x + b)`.
    pub open spec fn forward(self, input: Seq<T>) -> Seq<T> {
        self.activation.evaluate(self.preactivation(input))
    }

    /// The activation's derivative at the layer's output for `input`.
    pub open spec fn slope(self, input: Seq<T>) -> Seq<T> {
        self.activation.derivative(self.forward(input))
    }

    /// The error signal that this layer hands down to its inputs: for each
    /// input `k`, the sum over the neurons `j` of
    /// `W[j][k] * slope[j] * signal[j]`.
    pub open spec fn pulled_back(self, slope: Seq<T>, signal: Seq<T>) -> Seq<T> {
        Seq::new(
            self.in_size,
            |k: int| weighted_upto(self.weights, slope, signal, k, self.out_size()),
        )
    }

    /// The layer after one step of gradient descent:
    /// `W[j][k] - input[k] * slope[j] * signal[j] * rate` and
    /// `b[j] - slope[j] * signal[j] * rate`.
    pub open spec fn descended(
        self,
        input: Seq<T>,
        slope: Seq<T>,
        signal: Seq<T>,
        rate: T,
    ) -> Self {
        LayerModel {
            in_size: self.in_size,
            activation: self.activation,
            weights: Seq::new(
                self.out_size(),
                |j: int|
                    Seq::new(
                        self.in_size,
                        |k: int|
                            difference(
                                self.weights[j][k],
                                product(product(product(input[k], slope[j]), signal[j]), rate),
                            ),
                    ),
            ),
            biases: Seq::new(
                self.out_size(),
                |j: int| difference(self.biases[j], product(product(slope[j], signal[j]), rate)),
            ),
        }
    }
}

impl<T> View for Layer<T> {
    type V = LayerModel<T>;

    closed spec fn view(&self) -> LayerModel<T> {
        LayerModel {
            in_size: self.weights.cols(),
            activation: self.activation,
            weights: self.weights@,
            biases: self.biases@,
        }
    }
}

impl<T: Scalar> Layer<T> {
    /// The shapes of the weights and the biases agree.
    pub open spec fn wf(&self) -> bool {
        self@.wf()
    }

    /// A layer of `out_size` neurons over `in_size` inputs, filled from
    /// `samples`: the weights row by row, then the biases. `None` unless
    /// `samples` holds exactly `out_size * in_size + out_size` entries.
    pub fn new(in_size: usize, out_size: usize, activation: Activation, samples: &Vec<T>) -> (r:
        Option<Self>)
        ensures
            r.is_some() <==> samples.len() == out_size * in_size + out_size,
            r matches Some(l) ==> {
                &&& l.wf()
                &&& l@.in_size == in_size
                &&& l@.activation == activation
                &&& l@.weights == row_major(
                    samples@.take(out_size * in_size),
                    out_size as nat,
                    in_size as nat,
                )
                &&& l@.biases == samples@.skip(out_size * in_size)
            },
    {
        if samples.len() < out_size {
            assert(0 <= out_size * in_size) by (nonlinear_arith)
                requires
                    0 <= out_size,
                    0 <= in_size,
            ;
            return None;
        }
        let split = samples.len() - out_size;
        let head = copy_range(samples, 0, split);
        match Matrix::from_row_major(out_size, in_size, &head) {
            None => None,
            Some(weights) => {
                let biases = copy_range(samples, split, samples.len());
                Some(Layer { activation, weights, biases })
            },
        }
    }

    /// The number of inputs.
    pub fn in_size(&self) -> (r: usize)
        ensures
            r == self@.in_size,
    {
        self.weights.ncols()
    }

    /// The number of neurons.
    pub fn out_size(&self) -> (r: usize)
        ensures
            r == self@.out_size(),
    {
        self.biases.len()
    }

    /// The layer's activation.
    pub fn kind(&self) -> (r: Activation)
        ensures
            r == self@.activation,
    {
        self.activation
    }

    /// The layer in words: `Layer (in_size, out_size)`.
    pub fn to_string(&self) -> (r: String)
        ensures
            r@ == self@.text(),
    {
        String::from_str("Layer (").concat(decimal(self.in_size()).as_str()).concat(", ").concat(
            decimal(self.out_size()).as_str(),
        ).concat(")")
    }

    /// The weights, one row per neuron.
    pub fn weights(&self) -> (r: &Matrix<T>)
        ensures
            r@ == self@.weights,
            r.cols() == self@.in_size,
    {
        &self.weights
    }

    /// The biases, one per neuron.
    pub fn biases(&self) -> (r: &Vec<T>)
        ensures
            r@ == self@.biases,
    {
        &self.biases
    }

    /// The pre-activation sum `W x + b`.
    pub fn sum(&self, input: &Vec<T>) -> (r: Vec<T>)
        requires
            self.wf(),
            input.len() == self@.in_size,
        ensures
            r.len() == self@.out_size(),
            deterministic::<T>() ==> r@ == self@.preactivation(input@),
    {
        let wx = self.weights.apply(input);
        let mut r: Vec<T> = Vec::new();
        let mut j: usize = 0;
        while j < wx.len()
            invariant
                j <= wx.len(),
                wx.len() == self.biases.len(),
                r.len() == j,
                deterministic::<T>() ==> wx@ == image(self@.weights, input@),
                deterministic::<T>() ==> r@ == self@.preactivation(input@).take(j as int),
            decreases wx.len() - j,
        {
            r.push(plus(wx[j], self.biases[j]));
            j += 1;
        }
        r
    }

    /// The activation applied to `x`.
    pub fn activation(&self, x: &Vec<T>) -> (r: Vec<T>)
        ensures
            r.len() == x.len(),
            deterministic::<T>() ==> r@ == self@.activation.evaluate(x@),
    {
        self.activation.func(x)
    }

    /// The activation's derivative at the output that the activation gives
    /// for the pre-activation sum `z`.
    pub fn slope_of_sum(&self, z: &Vec<T>) -> (r: Vec<T>)
        ensures
            r.len() == z.len(),
            deterministic::<T>() ==> r@ == self@.activation.derivative(
                self@.activation.evaluate(z@),
            ),
    {
        let y = self.activation(z);
        self.activation.d_func(&y)
    }

    /// The layer's output for `input`.
    pub fn forward(&self, input: &Vec<T>) -> (r: Vec<T>)
        requires
            self.wf(),
            input.len() == self@.in_size,
        ensures
            r.len() == self@.out_size(),
            deterministic::<T>() ==> r@ == self@.forward(input@),
    {
        self.activation(&self.sum(input))
    }

    /// The activation's derivative at the layer's own output for `input`:
    /// the derivative, taken from the output, at `forward(input)`.
    pub fn d_activation(&self, input: &Vec<T>) -> (r: Vec<T>)
        requires
            self.wf(),
            input.len() == self@.in_size,
        ensures
            r.len() == self@.out_size(),
            deterministic::<T>() ==> r@ == self@.slope(input@),
    {
        self.slope_of_sum(&self.sum(input))
    }

    /// Whether `weights` has the shape of this layer's weights.
    pub fn weights_fit(&self, weights: &Vec<Vec<T>>) -> (r: bool)
        ensures
            r == self@.weights_fit(rows_of(weights@)),
    {
        if weights.len() != self.biases.len() {
            return false;
        }
        let ncols = self.weights.ncols();
        let mut j: usize = 0;
        while j < weights.len()
            invariant
                j <= weights.len(),
                ncols == self@.in_size,
                forall|i: int| 0 <= i < j ==> (#[trigger] rows_of(weights@)[i]).len() == ncols,
            decreases weights.len() - j,
        {
            if weights[j].len() != ncols {
                assert(rows_of(weights@)[j as int].len() != ncols);
                return false;
            }
            j += 1;
        }
        true
    }

    /// Whether `biases` has the length of this layer's biases.
    pub fn biases_fit(&self, biases: &Vec<T>) -> (r: bool)
        ensures
            r == self@.biases_fit(biases@),
    {
        biases.len() == self.biases.len()
    }

    /// Overwrites the weights and the biases by copies of the given ones.
    pub fn replace(&mut self, weights: &Vec<Vec<T>>, biases: &Vec<T>)
        requires
            old(self)@.weights_fit(rows_of(weights@)),
            old(self)@.biases_fit(biases@),
        ensures
            final(self).wf(),
            final(self)@ == old(self)@.with_parameters(rows_of(weights@), biases@),
    {
        let ncols = self.weights.ncols();
        match Matrix::from_rows(weights, ncols) {
            Some(m) => {
                self.weights = m;
                self.biases = copy(biases);
            },
            None => {},
        }
    }

    /// The error signal that this layer hands down to its inputs, from the
    /// derivative `slope` of its activation and the error signal `signal`
    /// at its output. Entry `k` is the sum over the neurons `j`, in order,
    /// of `W[j][k] * slope[j] * signal[j]`.
    pub fn pull_back(&self, slope: &Vec<T>, signal: &Vec<T>) -> (r: Vec<T>)
        requires
            self.wf(),
            slope.len() == self@.out_size(),
            signal.len() == self@.out_size(),
        ensures
            r.len() == self@.in_size,
            deterministic::<T>() ==> r@ == self@.pulled_back(slope@, signal@),
    {
        let n = self.biases.len();
        let m = self.weights.ncols();
        let mut r: Vec<T> = Vec::new();
        let mut k: usize = 0;
        while k < m
            invariant
                self.wf(),
                n == self@.out_size(),
                m == self@.in_size,
                slope.len() == n,
                signal.len() == n,
                k <= m,
                r.len() == k,
                deterministic::<T>() ==> forall|c: int|
                    0 <= c < k ==> #[trigger] r[c] == weighted_upto(
                        self@.weights,
                        slope@,
                        signal@,
                        c,
                        n as nat,
                    ),
            decreases m - k,
        {
            let mut acc: T = number::<T>(0);
            let mut j: usize = 0;
            while j < n
                invariant
                    self.wf(),
                    n == self@.out_size(),
                    m == self@.in_size,
                    slope.len() == n,
                    signal.len() == n,
                    k < m,
                    j <= n,
                    deterministic::<T>() ==> acc == weighted_upto(
                        self@.weights,
                        slope@,
                        signal@,
                        k as int,
                        j as nat,
                    ),
                decreases n - j,
            {
                acc = plus(acc, times(times(self.weights.get(j, k), slope[j]), signal[j]));
                j += 1;
            }
            r.push(acc);
            k += 1;
        }
        r
    }

    /// One step of gradient descent on this layer, in place: from the
    /// layer's `input`, the derivative `slope` of its activation and the
    /// error signal `signal` at its output, every weight `W[j][k]` loses
    /// `input[k] * slope[j] * signal[j] * rate` and every bias `b[j]` loses
    /// `slope[j] * signal[j] * rate`.
    pub fn descend(&mut self, input: &Vec<T>, slope: &Vec<T>, signal: &Vec<T>, rate: T)
        requires
            old(self).wf(),
            input.len() == old(self)@.in_size,
            slope.len() == old(self)@.out_size(),
            signal.len() == old(self)@.out_size(),
        ensures
            final(self).wf(),
            final(self)@.same_shape(old(self)@),
            deterministic::<T>() ==> final(self)@ == old(self)@.descended(
                input@,
                slope@,
                signal@,
                rate,
            ),
    {
        let ghost before = self@;
        let ghost after = self@.descended(input@, slope@, signal@, rate);
        let n = self.biases.len();
        let m = self.weights.ncols();
        let mut j: usize = 0;
        while j < n
            invariant
                before.wf(),
                after == before.descended(input@, slope@, signal@, rate),
                n == before.out_size(),
                m == before.in_size,
                input.len() == m,
                slope.len() == n,
                signal.len() == n,
                j <= n,
                self.activation == before.activation,
                self.weights.cols() == m,
                self.weights@.len() == n,
                rectangular(self.weights@, m as nat),
                self.biases@.len() == n,
                forall|i: int| j <= i < n ==> #[trigger] self.weights@[i] == before.weights[i],
                forall|i: int| j <= i < n ==> #[trigger] self.biases@[i] == before.biases[i],
                deterministic::<T>() ==> forall|i: int|
                    0 <= i < j ==> #[trigger] self.weights@[i] == after.weights[i],
                deterministic::<T>() ==> forall|i: int|
                    0 <= i < j ==> #[trigger] self.biases@[i] == after.biases[i],
            decreases n - j,
        {
            let mut k: usize = 0;
            while k < m
                invariant
                    before.wf(),
                    after == before.descended(input@, slope@, signal@, rate),
                    n == before.out_size(),
                    m == before.in_size,
                    input.len() == m,
                    slope.len() == n,
                    signal.len() == n,
                    j < n,
                    k <= m,
                    self.activation == before.activation,
                    self.weights.cols() == m,
                    self.weights@.len() == n,
                    rectangular(self.weights@, m as nat),
                    self.biases@.len() == n,
                    forall|i: int| j < i < n ==> #[trigger] self.weights@[i] == before.weights[i],
                    forall|i: int| j <= i < n ==> #[trigger] self.biases@[i] == before.biases[i],
                    forall|c: int|
                        k <= c < m ==> #[trigger] self.weights@[j as int][c]
                            == before.weights[j as int][c],
                    deterministic::<T>() ==> forall|c: int|
                        0 <= c < k ==> #[trigger] self.weights@[j as int][c]
                            == after.weights[j as int][c],
                    deterministic::<T>() ==> forall|i: int|
                        0 <= i < j ==> #[trigger] self.weights@[i] == after.weights[i],
                    deterministic::<T>() ==> forall|i: int|
                        0 <= i < j ==> #[trigger] self.biases@[i] == after.biases[i],
                decreases m - k,
            {
                let step = times(times(times(input[k], slope[j]), signal[j]), rate);
                let w = self.weights.get(j, k);
                self.weights.set(j, k, minus(w, step));
                k += 1;
            }
            let step = times(times(slope[j], signal[j]), rate);
            let b = self.biases[j];
            self.biases.set(j, minus(b, step));
            j += 1;
        }
        assert(deterministic::<T>() ==> self@.weights =~= after.weights);
        assert(deterministic::<T>() ==> self@.biases =~= after.biases);
    }
}

} // verus!
