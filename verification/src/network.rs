//! A network: dense layers in a row, each reading the output of the one
//! before it.
use crate::layer::{Layer, LayerModel};
use crate::matrix::rows_of;
use crate::scalar::{
    abs_of, deterministic, difference, magnitude, minus, number, of_int, over, product, quotient,
    times, Scalar,
};
use crate::vector::{copy, total, total_of};
use vstd::prelude::*;
use vstd::string::StringExecFns;

verus! {

/// A feed-forward network.
pub struct Network<T> {
    layers: Vec<Layer<T>>,
}

/// The weights and biases of a network, layer by layer: what is kept of a
/// network between two runs. It holds no sizes and no activations.
pub struct State<T> {
    /// For each layer its weights, one row per neuron.
    pub weights: Vec<Vec<Vec<T>>>,
    /// For each layer its biases, one per neuron.
    pub biases: Vec<Vec<T>>,
}

/// What a [`State`] holds.
pub struct StateModel<T> {
    pub weights: Seq<Seq<Seq<T>>>,
    pub biases: Seq<Seq<T>>,
}

/// Why a [`State`] cannot be loaded into a network: the two differ in
/// architecture.
#[derive(Clone, Copy, Debug, PartialEq, Eq, Structural)]
pub enum LoadError {
    /// The state does not hold one weight matrix and one bias vector for
    /// each layer of the network.
    LayerCount,
    /// The weights for the layer at this index have another shape than the
    /// layer's own, and every layer before it fits.
    WeightShape(usize),
    /// The biases for the layer at this index have another length than the
    /// layer's own; its weights and every layer before it fit.
    BiasLength(usize),
}

/// What each of `layers` is.
pub open spec fn models<T>(layers: Seq<Layer<T>>) -> Seq<LayerModel<T>> {
    Seq::new(layers.len(), |l: int| layers[l]@)
}

/// Layer `l + 1` reads as many inputs as layer `l` has neurons.
pub open spec fn linked<T: Scalar>(layers: Seq<LayerModel<T>>, l: int) -> bool {
    layers[l].out_size() == layers[l + 1].in_size
}

/// Each layer reads as many inputs as the layer before it has neurons.
pub open spec fn chained<T: Scalar>(layers: Seq<LayerModel<T>>) -> bool {
    forall|l: int| 0 <= l < layers.len() - 1 ==> #[trigger] linked(layers, l)
}

/// Every layer is well formed, and the layers are chained.
pub open spec fn well_formed<T: Scalar>(layers: Seq<LayerModel<T>>) -> bool {
    &&& forall|l: int| 0 <= l < layers.len() ==> #[trigger] layers[l].wf()
    &&& chained(layers)
}

/// Whether the two networks have as many layers, of the same sizes and
/// activations.
pub open spec fn same_architecture<T: Scalar>(
    a: Seq<LayerModel<T>>,
    b: Seq<LayerModel<T>>,
) -> bool {
    &&& a.len() == b.len()
    &&& forall|l: int| 0 <= l < a.len() ==> #[trigger] a[l].same_shape(b[l])
}

/// Whether the network takes input vectors of length `n`: a network
/// without layers takes any.
pub open spec fn takes<T: Scalar>(layers: Seq<LayerModel<T>>, n: nat) -> bool {
    layers.len() > 0 ==> n == layers[0].in_size
}

/// The length of the network's output for an input of length `n`.
pub open spec fn output_size<T: Scalar>(layers: Seq<LayerModel<T>>, n: nat) -> nat {
    if layers.len() == 0 {
        n
    } else {
        layers.last().out_size()
    }
}

/// The vector that enters layer `l`: the input for `l == 0`, else the
/// output of layer `l - 1`. For `l == layers.len()` it is the network's
/// output.
pub open spec fn activations<T: Scalar>(layers: Seq<LayerModel<T>>, input: Seq<T>, l: nat) -> Seq<
    T,
>
    decreases l,
{
    if l == 0 {
        input
    } else {
        layers[l - 1].forward(activations(layers, input, (l - 1) as nat))
    }
}

/// The network's output for `input`.
pub open spec fn output<T: Scalar>(layers: Seq<LayerModel<T>>, input: Seq<T>) -> Seq<T> {
    activations(layers, input, layers.len())
}

/// The L1 distance between `actual` and `desired`: the sum of
/// `|actual[i] - desired[i]|`.
pub open spec fn distance<T: Scalar>(actual: Seq<T>, desired: Seq<T>) -> T {
    total(Seq::new(actual.len(), |i: int| magnitude(difference(actual[i], desired[i]))))
}

/// The derivative of the activation of layer `l - 1` at that layer's
/// output, for `1 <= l <= layers.len()`: it is kept under the index of the
/// vector `activations(layers, input, l)` that it belongs to.
pub open spec fn slopes<T: Scalar>(layers: Seq<LayerModel<T>>, input: Seq<T>, l: nat) -> Seq<T> {
    layers[l - 1].slope(activations(layers, input, (l - 1) as nat))
}

/// `2 (actual[i] - desired[i])` for each `i`: the gradient of the squared
/// error with respect to the output.
pub open spec fn doubled_error<T: Scalar>(actual: Seq<T>, desired: Seq<T>) -> Seq<T> {
    Seq::new(actual.len(), |i: int| product(of_int::<T>(2), difference(actual[i], desired[i])))
}

/// The error signal at the vector `activations(layers, input, l)`: at the
/// output it is the doubled error, and below it is what layer `l` hands
/// down from the signal above.
pub open spec fn signal<T: Scalar>(
    layers: Seq<LayerModel<T>>,
    input: Seq<T>,
    desired: Seq<T>,
    l: nat,
) -> Seq<T>
    decreases layers.len() - l,
{
    if l >= layers.len() {
        doubled_error(output(layers, input), desired)
    } else {
        layers[l as int].pulled_back(
            slopes(layers, input, l + 1),
            signal(layers, input, desired, l + 1),
        )
    }
}

/// The network after one step of gradient descent on the example
/// `(input, desired)`: every layer descends along the gradient that the
/// network had before the step.
pub open spec fn trained<T: Scalar>(
    layers: Seq<LayerModel<T>>,
    input: Seq<T>,
    desired: Seq<T>,
    rate: T,
) -> Seq<LayerModel<T>> {
    Seq::new(
        layers.len(),
        |l: int|
            layers[l].descended(
                activations(layers, input, l as nat),
                slopes(layers, input, (l + 1) as nat),
                signal(layers, input, desired, (l + 1) as nat),
                rate,
            ),
    )
}

/// The step size of [`Network::backprop`]: `1 / 10000`.
pub open spec fn learning_rate<T: Scalar>() -> T {
    quotient(of_int::<T>(1), of_int::<T>(10000))
}

/// The lines for the first `n` layers, each a space, the layer in words and
/// a line feed.
pub open spec fn lines_upto<T: Scalar>(layers: Seq<LayerModel<T>>, n: nat) -> Seq<char>
    decreases n,
{
    if n == 0 {
        Seq::empty()
    } else {
        lines_upto(layers, (n - 1) as nat) + " "@ + layers[n - 1].text() + "\n"@
    }
}

/// The network in words: `Network {`, a line for each layer, then `}`.
pub open spec fn text<T: Scalar>(layers: Seq<LayerModel<T>>) -> Seq<char> {
    "Network {\n"@ + lines_upto(layers, layers.len()) + "}"@
}

/// The weights and biases of `layers`.
pub open spec fn state_of<T: Scalar>(layers: Seq<LayerModel<T>>) -> StateModel<T> {
    StateModel {
        weights: Seq::new(layers.len(), |l: int| layers[l].weights),
        biases: Seq::new(layers.len(), |l: int| layers[l].biases),
    }
}

/// Whether `state` holds, for each layer, weights and biases of the
/// layer's own shape.
pub open spec fn fits<T: Scalar>(layers: Seq<LayerModel<T>>, state: StateModel<T>) -> bool {
    &&& state.weights.len() == layers.len()
    &&& state.biases.len() == layers.len()
    &&& forall|l: int|
        0 <= l < layers.len() ==> #[trigger] layers[l].accepts(state.weights[l], state.biases[l])
}

/// Whether layer `l` is the first for which `state` does not fit.
pub open spec fn first_misfit<T: Scalar>(
    layers: Seq<LayerModel<T>>,
    state: StateModel<T>,
    l: int,
) -> bool {
    &&& state.weights.len() == layers.len()
    &&& state.biases.len() == layers.len()
    &&& 0 <= l < layers.len()
    &&& !layers[l].accepts(state.weights[l], state.biases[l])
    &&& forall|i: int|
        0 <= i < l ==> #[trigger] layers[i].accepts(state.weights[i], state.biases[i])
}

/// Whether `error` names the first place at which `state` differs from
/// `layers` in architecture.
pub open spec fn misfit<T: Scalar>(
    layers: Seq<LayerModel<T>>,
    state: StateModel<T>,
    error: LoadError,
) -> bool {
    match error {
        LoadError::LayerCount => state.weights.len() != layers.len() || state.biases.len()
            != layers.len(),
        LoadError::WeightShape(l) => first_misfit(layers, state, l as int) && !layers[l as int]
            .weights_fit(state.weights[l as int]),
        LoadError::BiasLength(l) => first_misfit(layers, state, l as int) && layers[l as int]
            .weights_fit(state.weights[l as int]),
    }
}

/// `layers` with the weights and biases of `state`.
pub open spec fn restored<T: Scalar>(layers: Seq<LayerModel<T>>, state: StateModel<T>) -> Seq<
    LayerModel<T>,
> {
    Seq::new(
        layers.len(),
        |l: int| layers[l].with_parameters(state.weights[l], state.biases[l]),
    )
}

/// The network's output has the length `output_size`: that of the input
/// where there is no layer, else the number of neurons of the last layer.
pub proof fn lemma_output_len<T: Scalar>(layers: Seq<LayerModel<T>>, input: Seq<T>)
    ensures
        output(layers, input).len() == output_size(layers, input.len()),
{
}

/// An error describes only a state that does not fit the network, and no
/// two errors describe the same state: the error that `load` returns is
/// determined by the network and the state.
pub proof fn lemma_misfit_unique<T: Scalar>(
    layers: Seq<LayerModel<T>>,
    state: StateModel<T>,
    e1: LoadError,
    e2: LoadError,
)
    requires
        misfit(layers, state, e1),
    ensures
        !fits(layers, state),
        misfit(layers, state, e2) ==> e1 == e2,
{
    match e1 {
        LoadError::LayerCount => {},
        LoadError::WeightShape(l) => {
        },
        LoadError::BiasLength(l) => {
        },
    }
    if misfit(layers, state, e2) {
        let i1: int = match e1 {
            LoadError::LayerCount => -1,
            LoadError::WeightShape(l) => l as int,
            LoadError::BiasLength(l) => l as int,
        };
        let i2: int = match e2 {
            LoadError::LayerCount => -1,
            LoadError::WeightShape(l) => l as int,
            LoadError::BiasLength(l) => l as int,
        };
        if i1 >= 0 && i2 >= 0 {
            if i1 < i2 {
            }
            if i2 < i1 {
            }
        }
    }
}

/// Saving a network and loading the result into a network of the same
/// architecture succeeds and gives the saved network again: the same
/// weights and biases, and so the same output for every input. Where the
/// scalar's operations are functions, `forward` of the two networks then
/// returns the same vector.
pub proof fn lemma_load_of_save<T: Scalar>(
    saved: Seq<LayerModel<T>>,
    fresh: Seq<LayerModel<T>>,
    input: Seq<T>,
)
    requires
        well_formed(saved),
        well_formed(fresh),
        same_architecture(saved, fresh),
    ensures
        fits(fresh, state_of(saved)),
        restored(fresh, state_of(saved)) == saved,
        output(restored(fresh, state_of(saved)), input) == output(saved, input),
{
    let state = state_of(saved);
    assert forall|l: int| 0 <= l < fresh.len() implies #[trigger] fresh[l].accepts(
        state.weights[l],
        state.biases[l],
    ) by {
        assert(saved[l].same_shape(fresh[l]));
        assert(saved[l].wf());
    }
    assert forall|l: int| 0 <= l < fresh.len() implies restored(fresh, state)[l] == saved[l] by {
        assert(saved[l].same_shape(fresh[l]));
    }
}

impl<T> View for State<T> {
    type V = StateModel<T>;

    open spec fn view(&self) -> StateModel<T> {
        StateModel {
            weights: Seq::new(self.weights@.len(), |l: int| rows_of(self.weights@[l]@)),
            biases: Seq::new(self.biases@.len(), |l: int| self.biases@[l]@),
        }
    }
}

impl<T> View for Network<T> {
    type V = Seq<LayerModel<T>>;

    closed spec fn view(&self) -> Seq<LayerModel<T>> {
        models(self.layers@)
    }
}

impl<T: Scalar> Network<T> {
    /// Every layer is well formed and reads the output of the one before.
    pub open spec fn wf(&self) -> bool {
        well_formed(self@)
    }

    /// A network of the given layers, first to last. `None` where a layer
    /// does not read as many inputs as the layer before it has neurons.
    pub fn new(layers: Vec<Layer<T>>) -> (r: Option<Self>)
        requires
            forall|l: int| 0 <= l < layers.len() ==> #[trigger] layers[l].wf(),
        ensures
            r.is_some() <==> chained(models(layers@)),
            r matches Some(net) ==> net.wf() && net@ == models(layers@),
    {
        let ghost given = models(layers@);
        let mut l: usize = 1;
        while l < layers.len()
            invariant
                1 <= l,
                given == models(layers@),
                forall|i: int|
                    0 <= i < l - 1 && i < given.len() - 1 ==> #[trigger] linked(given, i),
            decreases layers.len() - l,
        {
            if layers[l - 1].out_size() != layers[l].in_size() {
                assert(!linked(given, l - 1));
                return None;
            }
            l += 1;
        }
        assert forall|i: int| 0 <= i < given.len() implies #[trigger] given[i].wf() by {
            assert(layers[i].wf());
        }
        Some(Network { layers })
    }

    /// The layers, first to last.
    pub fn layers(&self) -> (r: &Vec<Layer<T>>)
        ensures
            models(r@) == self@,
    {
        &self.layers
    }

    /// Whether the network takes input vectors of length `n`.
    pub fn takes(&self, n: usize) -> (r: bool)
        ensures
            r == takes(self@, n as nat),
    {
        self.layers.len() == 0 || self.layers[0].in_size() == n
    }

    /// The length of the network's output for an input of length `n`.
    pub fn output_size(&self, n: usize) -> (r: usize)
        ensures
            r == output_size(self@, n as nat),
    {
        if self.layers.len() == 0 {
            n
        } else {
            self.layers[self.layers.len() - 1].out_size()
        }
    }

    /// The network in words: `Network {`, a line for each layer, then `}`.
    pub fn to_string(&self) -> (r: String)
        ensures
            r@ == text(self@),
    {
        let mut lines = String::new();
        let mut l: usize = 0;
        while l < self.layers.len()
            invariant
                l <= self.layers.len(),
                lines@ == lines_upto(self@, l as nat),
            decreases self.layers.len() - l,
        {
            lines.append(" ");
            lines.append(self.layers[l].to_string().as_str());
            lines.append("\n");
            l += 1;
        }
        String::from_str("Network {\n").concat(lines.as_str()).concat("}")
    }

    /// The network's output for `input`.
    pub fn forward(&self, input: &Vec<T>) -> (r: Vec<T>)
        requires
            self.wf(),
            takes(self@, input@.len()),
        ensures
            r.len() == output_size(self@, input@.len()),
            deterministic::<T>() ==> r@ == output(self@, input@),
    {
        let mut x = copy(input);
        let mut l: usize = 0;
        while l < self.layers.len()
            invariant
                self.wf(),
                takes(self@, input@.len()),
                l <= self.layers.len(),
                l == 0 ==> x.len() == input.len(),
                l > 0 ==> x.len() == self@[l - 1].out_size(),
                deterministic::<T>() ==> x@ == activations(self@, input@, l as nat),
            decreases self.layers.len() - l,
        {
            assert(l > 0 ==> linked(self@, l - 1));
            x = self.layers[l].forward(&x);
            l += 1;
        }
        x
    }

    /// The L1 loss of the network's output for `input` against `desired`.
    pub fn loss(&self, input: &Vec<T>, desired: &Vec<T>) -> (r: T)
        requires
            self.wf(),
            takes(self@, input@.len()),
            desired@.len() == output_size(self@, input@.len()),
        ensures
            deterministic::<T>() ==> r == distance(output(self@, input@), desired@),
    {
        let actual = self.forward(input);
        let ghost terms = Seq::new(
            actual@.len(),
            |i: int| magnitude(difference(actual@[i], desired@[i])),
        );
        let mut parts: Vec<T> = Vec::new();
        let mut i: usize = 0;
        while i < actual.len()
            invariant
                i <= actual.len(),
                actual.len() == desired.len(),
                parts.len() == i,
                terms == Seq::new(
                    actual@.len(),
                    |i: int| magnitude(difference(actual@[i], desired@[i])),
                ),
                deterministic::<T>() ==> parts@ == terms.take(i as int),
            decreases actual.len() - i,
        {
            parts.push(abs_of(minus(actual[i], desired[i])));
            i += 1;
        }
        assert(terms.take(actual.len() as int) =~= terms);
        total_of(&parts)
    }

    /// The weights and biases of the network, layer by layer.
    pub fn save(&self) -> (r: State<T>)
        ensures
            r@ == state_of(self@),
    {
        let mut weights: Vec<Vec<Vec<T>>> = Vec::new();
        let mut biases: Vec<Vec<T>> = Vec::new();
        let mut l: usize = 0;
        while l < self.layers.len()
            invariant
                l <= self.layers.len(),
                weights.len() == l,
                biases.len() == l,
                forall|i: int| 0 <= i < l ==> rows_of((#[trigger] weights[i])@) == self@[i].weights,
                forall|i: int| 0 <= i < l ==> (#[trigger] biases[i])@ == self@[i].biases,
            decreases self.layers.len() - l,
        {
            weights.push(self.layers[l].weights().to_rows());
            biases.push(copy(self.layers[l].biases()));
            l += 1;
        }
        let r = State { weights, biases };
        assert(r@.weights =~= state_of(self@).weights);
        assert(r@.biases =~= state_of(self@).biases);
        r
    }

    /// Overwrites the weights and biases of every layer by those of
    /// `state`. Where `state` does not have the architecture of the
    /// network, nothing is changed and the error names the first place at
    /// which the two differ.
    pub fn load(&mut self, state: &State<T>) -> (r: Result<(), LoadError>)
        requires
            old(self).wf(),
        ensures
            final(self).wf(),
            same_architecture(final(self)@, old(self)@),
            r.is_ok() <==> fits(old(self)@, state@),
            r.is_ok() ==> final(self)@ == restored(old(self)@, state@),
            r matches Err(e) ==> final(self)@ == old(self)@ && misfit(old(self)@, state@, e),
    {
        let n = self.layers.len();
        if state.weights.len() != n || state.biases.len() != n {
            return Err(LoadError::LayerCount);
        }
        let ghost before = self@;
        let mut l: usize = 0;
        while l < n
            invariant
                l <= n,
                n == self.layers.len(),
                self@ == before,
                before == old(self)@,
                well_formed(before),
                state@.weights.len() == n,
                state@.biases.len() == n,
                forall|i: int|
                    0 <= i < l ==> #[trigger] before[i].accepts(
                        state@.weights[i],
                        state@.biases[i],
                    ),
            decreases n - l,
        {
            let ghost weights = state@.weights[l as int];
            let ghost biases = state@.biases[l as int];
            if !self.layers[l].weights_fit(&state.weights[l]) {
                assert(!before[l as int].accepts(weights, biases));
                return Err(LoadError::WeightShape(l));
            }
            if !self.layers[l].biases_fit(&state.biases[l]) {
                assert(!before[l as int].accepts(weights, biases));
                return Err(LoadError::BiasLength(l));
            }
            l += 1;
        }
        let ghost after = restored(self@, state@);
        let mut l: usize = 0;
        while l < n
            invariant
                l <= n,
                n == self.layers.len(),
                before.len() == n,
                fits(before, state@),
                well_formed(before),
                after == restored(before, state@),
                forall|i: int| 0 <= i < l ==> #[trigger] self@[i] == after[i],
                forall|i: int| l <= i < n ==> #[trigger] self@[i] == before[i],
            decreases n - l,
        {
            assert(before[l as int].accepts(state@.weights[l as int], state@.biases[l as int]));
            assert(self@[l as int] == self.layers@[l as int]@);
            let ghost prev = self@;
            let ghost prev_layers = self.layers@;
            self.layers[l].replace(&state.weights[l], &state.biases[l]);
            assert forall|i: int| 0 <= i <= l implies #[trigger] self@[i] == after[i] by {
                if i < l {
                    assert(prev[i] == prev_layers[i]@);
                }
            }
            assert forall|i: int| l < i < n implies #[trigger] self@[i] == before[i] by {
                assert(prev[i] == prev_layers[i]@);
            }
            l += 1;
        }
        assert(self@ =~= after);
        assert forall|i: int| 0 <= i < n implies #[trigger] after[i].same_shape(before[i]) by {
            assert(before[i].accepts(state@.weights[i], state@.biases[i]));
        }
        assert forall|i: int| 0 <= i < n implies #[trigger] after[i].wf() by {
            assert(before[i].accepts(state@.weights[i], state@.biases[i]));
        }
        assert forall|i: int| 0 <= i < n - 1 implies #[trigger] linked(after, i) by {
            assert(linked(before, i));
            assert(after[i].same_shape(before[i]));
        }
        Ok(())
    }

    /// One step of gradient descent on the example `(input, desired)`, with
    /// the step size [`learning_rate`].
    pub fn backprop(&mut self, input: &Vec<T>, desired: &Vec<T>)
        requires
            old(self).wf(),
            takes(old(self)@, input@.len()),
            desired@.len() == output_size(old(self)@, input@.len()),
        ensures
            final(self).wf(),
            same_architecture(final(self)@, old(self)@),
            deterministic::<T>() ==> final(self)@ == trained(
                old(self)@,
                input@,
                desired@,
                learning_rate::<T>(),
            ),
    {
        let rate = over(number::<T>(1), number::<T>(10000));
        self.backprop_with_rate(input, desired, rate)
    }

    /// One step of gradient descent on the example `(input, desired)`, with
    /// the step size `rate`. Every gradient is computed from the network as
    /// it is on entry; only then are the weights and biases changed.
    pub fn backprop_with_rate(&mut self, input: &Vec<T>, desired: &Vec<T>, rate: T)
        requires
            old(self).wf(),
            takes(old(self)@, input@.len()),
            desired@.len() == output_size(old(self)@, input@.len()),
        ensures
            final(self).wf(),
            same_architecture(final(self)@, old(self)@),
            deterministic::<T>() ==> final(self)@ == trained(old(self)@, input@, desired@, rate),
    {
        let (a, da, d) = self.gradients(input, desired);
        let ghost before = self@;
        let ghost after = trained(before, input@, desired@, rate);
        let n = self.layers.len();
        let mut l: usize = 0;
        while l < n
            invariant
                l <= n,
                n == self.layers.len(),
                n == before.len(),
                well_formed(before),
                after == trained(before, input@, desired@, rate),
                a.len() == n + 1,
                da.len() == n + 1,
                d.len() == n + 1,
                forall|i: int| 0 <= i < n ==> (#[trigger] a[i]).len() == before[i].in_size,
                forall|i: int| 0 <= i < n ==> (#[trigger] da[i + 1]).len() == before[i].out_size(),
                forall|i: int| 0 <= i < n ==> (#[trigger] d[i + 1]).len() == before[i].out_size(),
                deterministic::<T>() ==> forall|i: int|
                    0 <= i < n ==> (#[trigger] a[i])@ == activations(before, input@, i as nat),
                deterministic::<T>() ==> forall|i: int|
                    0 <= i < n ==> (#[trigger] da[i + 1])@ == slopes(
                        before,
                        input@,
                        (i + 1) as nat,
                    ),
                deterministic::<T>() ==> forall|i: int|
                    0 <= i < n ==> (#[trigger] d[i + 1])@ == signal(
                        before,
                        input@,
                        desired@,
                        (i + 1) as nat,
                    ),
                forall|i: int| 0 <= i < n ==> #[trigger] self@[i].wf(),
                forall|i: int| 0 <= i < n ==> #[trigger] self@[i].same_shape(before[i]),
                forall|i: int| l <= i < n ==> #[trigger] self@[i] == before[i],
                deterministic::<T>() ==> forall|i: int|
                    0 <= i < l ==> #[trigger] self@[i] == after[i],
            decreases n - l,
        {
            let ghost prev = self@;
            assert(prev[l as int] == before[l as int]);
            self.layers[l].descend(&a[l], &da[l + 1], &d[l + 1], rate);
            assert forall|i: int| 0 <= i < n && i != l implies #[trigger] self@[i] == prev[i] by {}
            l += 1;
        }
        assert forall|i: int| 0 <= i < n - 1 implies #[trigger] linked(self@, i) by {
            assert(linked(before, i));
            assert(self@[i].same_shape(before[i]));
            assert(self@[i + 1].same_shape(before[i + 1]));
        }
    }

    /// The forward pass and the backward sweep of backpropagation, on the
    /// network as it is: the vectors `a` that enter each layer (the last is
    /// the output), the activation derivatives `da` and the error signals
    /// `d`, each under the index of the vector of `a` that it belongs to.
    /// `da[0]` belongs to no layer and only keeps the indices aligned.
    fn gradients(&self, input: &Vec<T>, desired: &Vec<T>) -> (r: (
        Vec<Vec<T>>,
        Vec<Vec<T>>,
        Vec<Vec<T>>,
    ))
        requires
            self.wf(),
            takes(self@, input@.len()),
            desired@.len() == output_size(self@, input@.len()),
        ensures
            r.0.len() == self@.len() + 1,
            r.1.len() == self@.len() + 1,
            r.2.len() == self@.len() + 1,
            forall|i: int| 0 <= i < self@.len() ==> (#[trigger] r.0[i]).len() == self@[i].in_size,
            forall|i: int|
                0 <= i < self@.len() ==> (#[trigger] r.1[i + 1]).len() == self@[i].out_size(),
            forall|i: int|
                0 <= i < self@.len() ==> (#[trigger] r.2[i + 1]).len() == self@[i].out_size(),
            deterministic::<T>() ==> forall|i: int|
                0 <= i < self@.len() ==> (#[trigger] r.0[i])@ == activations(
                    self@,
                    input@,
                    i as nat,
                ),
            deterministic::<T>() ==> forall|i: int|
                0 <= i < self@.len() ==> (#[trigger] r.1[i + 1])@ == slopes(
                    self@,
                    input@,
                    (i + 1) as nat,
                ),
            deterministic::<T>() ==> forall|i: int|
                0 <= i < self@.len() ==> (#[trigger] r.2[i + 1])@ == signal(
                    self@,
                    input@,
                    desired@,
                    (i + 1) as nat,
                ),
    {
        let n = self.layers.len();
        let mut a: Vec<Vec<T>> = Vec::new();
        let mut da: Vec<Vec<T>> = Vec::new();
        a.push(copy(input));
        da.push(copy(input));
        let mut l: usize = 0;
        while l < n
            invariant
                self.wf(),
                takes(self@, input@.len()),
                n == self.layers.len(),
                l <= n,
                a.len() == l + 1,
                da.len() == l + 1,
                a[0].len() == input.len(),
                forall|i: int| 1 <= i <= l ==> (#[trigger] a[i]).len() == self@[i - 1].out_size(),
                forall|i: int| 1 <= i <= l ==> (#[trigger] da[i]).len() == self@[i - 1].out_size(),
                deterministic::<T>() ==> forall|i: int|
                    0 <= i <= l ==> (#[trigger] a[i])@ == activations(self@, input@, i as nat),
                deterministic::<T>() ==> forall|i: int|
                    1 <= i <= l ==> (#[trigger] da[i])@ == slopes(self@, input@, i as nat),
            decreases n - l,
        {
            assert(l > 0 ==> linked(self@, l - 1));
            let z = self.layers[l].sum(&a[l]);
            let s = self.layers[l].slope_of_sum(&z);
            let y = self.layers[l].activation(&z);
            da.push(s);
            a.push(y);
            l += 1;
        }
        let mut d: Vec<Vec<T>> = Vec::new();
        d.push(doubled_error_of(&a[n], desired));
        let mut l: usize = n;
        while l > 0
            invariant
                self.wf(),
                takes(self@, input@.len()),
                n == self.layers.len(),
                l <= n,
                a.len() == n + 1,
                da.len() == n + 1,
                d.len() == n - l + 1,
                a[0].len() == input.len(),
                forall|i: int| 1 <= i <= n ==> (#[trigger] da[i]).len() == self@[i - 1].out_size(),
                l == 0 ==> d[0].len() == input.len(),
                forall|i: int|
                    0 <= i <= n - l && l + i > 0 ==> (#[trigger] d[i]).len()
                        == self@[l + i - 1].out_size(),
                deterministic::<T>() ==> forall|i: int|
                    1 <= i <= n ==> (#[trigger] da[i])@ == slopes(self@, input@, i as nat),
                deterministic::<T>() ==> forall|i: int|
                    0 <= i <= n - l ==> (#[trigger] d[i])@ == signal(
                        self@,
                        input@,
                        desired@,
                        (l + i) as nat,
                    ),
            decreases l,
        {
            l -= 1;
            assert(l > 0 ==> linked(self@, l - 1));
            let ghost above = d@;
            let s = self.layers[l].pull_back(&da[l + 1], &d[0]);
            d.insert(0, s);
            assert forall|i: int| 1 <= i <= n - l implies #[trigger] d[i] == above[i - 1] by {}
        }
        assert forall|i: int| 0 <= i < n implies (#[trigger] a[i]).len() == self@[i].in_size by {
            if i > 0 {
                assert(linked(self@, i - 1));
            }
        }
        (a, da, d)
    }
}
/// `2 (actual[i] - desired[i])` for each `i`.
fn doubled_error_of<T: Scalar>(actual: &Vec<T>, desired: &Vec<T>) -> (r: Vec<T>)
    requires
        actual.len() == desired.len(),
    ensures
        r.len() == actual.len(),
        deterministic::<T>() ==> r@ == doubled_error(actual@, desired@),
{
    let mut r: Vec<T> = Vec::new();
    let mut i: usize = 0;
    while i < actual.len()
        invariant
            i <= actual.len(),
            actual.len() == desired.len(),
            r.len() == i,
            deterministic::<T>() ==> r@ == doubled_error(actual@, desired@).take(i as int),
        decreases actual.len() - i,
    {
        r.push(times(number::<T>(2), minus(actual[i], desired[i])));
        i += 1;
    }
    r
}

} // verus!
