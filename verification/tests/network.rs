use nn::activation::Activation;
use nn::layer::Layer;
use nn::network::{LoadError, Network, State};
use nn::scalar::Scalar;

#[derive(Clone, Copy, Debug, PartialEq)]
struct Real(f32);

impl Scalar for Real {
    fn from_int(n: i32) -> Self {
        Real(n as f32)
    }

    fn add(self, rhs: Self) -> Self {
        Real(self.0 + rhs.0)
    }

    fn sub(self, rhs: Self) -> Self {
        Real(self.0 - rhs.0)
    }

    fn mul(self, rhs: Self) -> Self {
        Real(self.0 * rhs.0)
    }

    fn div(self, rhs: Self) -> Self {
        Real(self.0 / rhs.0)
    }

    fn exp(self) -> Self {
        Real(self.0.exp())
    }

    fn less_than(self, rhs: Self) -> bool {
        self.0 < rhs.0
    }
}

fn reals(values: &[f32]) -> Vec<Real> {
    values.iter().map(|v| Real(*v)).collect()
}

fn floats(values: &[Real]) -> Vec<f32> {
    values.iter().map(|v| v.0).collect()
}

fn close(actual: &[f32], expected: &[f32], tolerance: f32) -> bool {
    actual.len() == expected.len()
        && actual.iter().zip(expected).all(|(a, e)| (a - e).abs() <= tolerance)
}

fn layer(in_size: usize, out_size: usize, activation: Activation, samples: &[f32]) -> Layer<Real> {
    Layer::new(in_size, out_size, activation, &reals(samples)).unwrap()
}

fn zero_layer(in_size: usize, out_size: usize, activation: Activation) -> Layer<Real> {
    layer(in_size, out_size, activation, &vec![0.0; out_size * in_size + out_size])
}

fn ramp(count: usize, start: f32, step: f32) -> Vec<f32> {
    (0..count).map(|i| start + step * i as f32).collect()
}

fn three_layers() -> Network<Real> {
    Network::new(vec![
        layer(4, 5, Activation::Tanh, &ramp(25, -0.6, 0.05)),
        layer(5, 3, Activation::Sigmoid, &ramp(18, 0.4, -0.04)),
        layer(3, 2, Activation::Softmax, &ramp(8, -0.2, 0.07)),
    ])
    .unwrap()
}

#[test]
fn layer_is_filled_row_by_row_then_biases() {
    let l = layer(3, 2, Activation::Identity, &[1.0, 2.0, 3.0, 4.0, 5.0, 6.0, 7.0, 8.0]);
    assert_eq!(l.in_size(), 3);
    assert_eq!(l.out_size(), 2);
    assert_eq!(l.kind(), Activation::Identity);
    assert_eq!(l.weights().to_rows(), vec![reals(&[1.0, 2.0, 3.0]), reals(&[4.0, 5.0, 6.0])]);
    assert_eq!(l.biases(), &reals(&[7.0, 8.0]));
}

#[test]
fn layer_needs_the_exact_number_of_samples() {
    assert!(Layer::new(3, 2, Activation::Relu, &reals(&[0.0; 7])).is_none());
    assert!(Layer::new(3, 2, Activation::Relu, &reals(&[0.0; 9])).is_none());
    assert!(Layer::new(3, 2, Activation::Relu, &reals(&[0.0; 1])).is_none());
    assert!(Layer::new(3, 2, Activation::Relu, &reals(&[0.0; 8])).is_some());
    assert!(Layer::new(0, 2, Activation::Relu, &reals(&[0.0; 2])).is_some());
    assert!(Layer::new(2, 0, Activation::Relu, &reals(&[])).is_some());
    assert!(Layer::new(usize::MAX, 2, Activation::Relu, &reals(&[0.0; 4])).is_none());
}

#[test]
fn layer_sum_is_weights_times_input_plus_biases() {
    let l = layer(3, 2, Activation::Relu, &[1.0, 2.0, 3.0, -4.0, -5.0, -6.0, 0.5, 0.25]);
    let x = reals(&[1.0, 0.5, -1.0]);
    assert_eq!(l.sum(&x), reals(&[-0.5, -0.25]));
    assert_eq!(l.forward(&x), reals(&[0.0, 0.0]));
    let y = reals(&[1.0, 1.0, 1.0]);
    assert_eq!(l.sum(&y), reals(&[6.5, -14.75]));
    assert_eq!(l.forward(&y), reals(&[6.5, 0.0]));
}

#[test]
fn layer_activation_and_the_derivative_for_a_sum() {
    let l = zero_layer(2, 3, Activation::Sigmoid);
    let z = reals(&[0.0, 0.0, 0.0]);
    assert_eq!(l.activation(&z), reals(&[0.5, 0.5, 0.5]));
    assert_eq!(l.slope_of_sum(&z), reals(&[0.25, 0.25, 0.25]));
    let r = zero_layer(2, 3, Activation::Relu);
    assert_eq!(r.slope_of_sum(&reals(&[-1.0, 0.0, 4.0])), reals(&[0.0, 0.0, 1.0]));
}

#[test]
fn layer_derivative_reads_the_input_not_the_sum() {
    let l = zero_layer(1, 1, Activation::Sigmoid);
    assert_eq!(l.d_activation(&reals(&[3.0])), reals(&[0.25]));
    let wide = zero_layer(2, 3, Activation::Sigmoid);
    assert_eq!(wide.d_activation(&reals(&[3.0, -1.0])), reals(&[0.25, 0.25, 0.25]));
    let r = layer(2, 3, Activation::Relu, &[1.0, 0.0, 0.0, 1.0, -1.0, -1.0, 0.0, 0.0, 0.5]);
    assert_eq!(r.forward(&reals(&[2.0, -3.0])), reals(&[2.0, 0.0, 1.5]));
    assert_eq!(r.d_activation(&reals(&[2.0, -3.0])), reals(&[1.0, 0.0, 1.0]));
}

#[test]
fn layer_pull_back_sums_over_the_neurons() {
    let l = layer(3, 2, Activation::Identity, &[1.0, 2.0, 3.0, 4.0, 5.0, 6.0, 0.0, 0.0]);
    let slope = reals(&[0.5, 2.0]);
    let signal = reals(&[2.0, -1.0]);
    assert_eq!(l.pull_back(&slope, &signal), reals(&[1.0 - 8.0, 2.0 - 10.0, 3.0 - 12.0]));
}

#[test]
fn layer_descend_moves_every_weight_and_bias() {
    let mut l = layer(2, 2, Activation::Identity, &[1.0, 2.0, 3.0, 4.0, 5.0, 6.0]);
    l.descend(&reals(&[1.0, -1.0]), &reals(&[1.0, 2.0]), &reals(&[4.0, 0.5]), Real(0.5));
    assert_eq!(l.weights().to_rows(), vec![reals(&[-1.0, 4.0]), reals(&[2.5, 4.5])]);
    assert_eq!(l.biases(), &reals(&[3.0, 5.5]));
    assert_eq!(l.in_size(), 2);
    assert_eq!(l.out_size(), 2);
}

#[test]
fn layer_checks_shapes() {
    let l = zero_layer(3, 2, Activation::Tanh);
    assert!(l.weights_fit(&vec![reals(&[1.0; 3]), reals(&[2.0; 3])]));
    assert!(!l.weights_fit(&vec![reals(&[1.0; 3])]));
    assert!(!l.weights_fit(&vec![reals(&[1.0; 3]), reals(&[2.0; 2])]));
    assert!(l.biases_fit(&reals(&[1.0, 2.0])));
    assert!(!l.biases_fit(&reals(&[1.0, 2.0, 3.0])));
}

#[test]
fn layer_replace_overwrites_the_parameters() {
    let mut l = zero_layer(2, 2, Activation::Tanh);
    let weights = vec![reals(&[1.0, 2.0]), reals(&[3.0, 4.0])];
    l.replace(&weights, &reals(&[5.0, 6.0]));
    assert_eq!(l.weights().to_rows(), weights);
    assert_eq!(l.biases(), &reals(&[5.0, 6.0]));
    assert_eq!(l.kind(), Activation::Tanh);
}

#[test]
fn network_sizes() {
    let net = three_layers();
    assert!(net.takes(4));
    assert!(!net.takes(5));
    assert!(!net.takes(0));
    assert_eq!(net.output_size(4), 2);
    let none: Vec<Layer<Real>> = Vec::new();
    let empty = Network::new(none).unwrap();
    assert!(empty.takes(0));
    assert!(empty.takes(7));
    assert_eq!(empty.output_size(7), 7);
}

#[test]
fn network_needs_chained_layers() {
    let broken = Network::new(vec![
        zero_layer(4, 5, Activation::Tanh),
        zero_layer(4, 3, Activation::Tanh),
    ]);
    assert!(broken.is_none());
    let late = Network::new(vec![
        zero_layer(4, 5, Activation::Tanh),
        zero_layer(5, 3, Activation::Tanh),
        zero_layer(2, 3, Activation::Tanh),
    ]);
    assert!(late.is_none());
    let single = Network::new(vec![zero_layer(4, 5, Activation::Tanh)]);
    assert!(single.is_some());
    let none: Vec<Layer<Real>> = Vec::new();
    assert!(Network::new(none).is_some());
    assert_eq!(three_layers().layers().len(), 3);
}

#[test]
fn forward_output_has_the_size_of_the_last_layer() {
    let net = three_layers();
    assert_eq!(net.forward(&reals(&[0.1, 0.2, 0.3, 0.4])).len(), 2);
    let single = Network::new(vec![zero_layer(3, 7, Activation::Relu)]).unwrap();
    assert_eq!(single.forward(&reals(&[1.0, 2.0, 3.0])).len(), 7);
}

#[test]
fn forward_of_no_layers_is_the_input() {
    let none: Vec<Layer<Real>> = Vec::new();
    let net = Network::new(none).unwrap();
    assert_eq!(net.forward(&reals(&[1.0, 2.0])), reals(&[1.0, 2.0]));
    assert_eq!(net.loss(&reals(&[1.0, 2.0]), &reals(&[0.0, 4.0])), Real(3.0));
}

#[test]
fn forward_folds_the_input_through_the_layers() {
    let first = layer(2, 2, Activation::Relu, &[1.0, -1.0, -1.0, 1.0, 0.0, 0.0]);
    let second = layer(2, 1, Activation::Identity, &[2.0, 3.0, 0.5]);
    let net = Network::new(vec![first, second]).unwrap();
    assert_eq!(net.forward(&reals(&[3.0, 1.0])), reals(&[4.5]));
    assert_eq!(net.forward(&reals(&[1.0, 3.0])), reals(&[6.5]));
}

#[test]
fn loss_is_the_sum_of_absolute_differences() {
    let l = layer(2, 3, Activation::Identity, &[1.0, 0.0, 0.0, 1.0, 1.0, 1.0, 0.0, 0.0, 0.0]);
    let net = Network::new(vec![l]).unwrap();
    assert_eq!(net.forward(&reals(&[2.0, -3.0])), reals(&[2.0, -3.0, -1.0]));
    assert_eq!(net.loss(&reals(&[2.0, -3.0]), &reals(&[1.0, 1.0, -1.0])), Real(5.0));
    assert_eq!(net.loss(&reals(&[2.0, -3.0]), &reals(&[2.0, -3.0, -1.0])), Real(0.0));
}

#[test]
fn backprop_single_identity_layer() {
    let mut net = Network::new(vec![zero_layer(3, 2, Activation::Identity)]).unwrap();
    let input = reals(&[1.0, 2.0, 3.0]);
    let desired = reals(&[0.0, 1.0]);
    assert_eq!(net.forward(&input), reals(&[0.0, 0.0]));
    net.backprop(&input, &desired);
    let rows = net.layers()[0].weights().to_rows();
    assert_eq!(floats(&rows[0]), vec![0.0, 0.0, 0.0]);
    assert!(close(&floats(&rows[1]), &[2e-4, 4e-4, 6e-4], 1e-9));
    assert!(close(&floats(net.layers()[0].biases()), &[0.0, 2e-4], 1e-9));
}

#[test]
fn backprop_uses_one_ten_thousandth_as_rate() {
    let input = reals(&[0.3, -0.2, 0.9, 0.5]);
    let desired = reals(&[1.0, 0.0]);
    let mut fixed = three_layers();
    let mut given = three_layers();
    fixed.backprop(&input, &desired);
    given.backprop_with_rate(&input, &desired, Real(1.0 / 10000.0));
    assert_eq!(fixed.save().weights, given.save().weights);
    assert_eq!(fixed.save().biases, given.save().biases);
    assert_eq!(Real(1.0 / 10000.0), Real(1e-4));
}

#[test]
fn backprop_two_layers_by_hand() {
    let first = layer(2, 2, Activation::Relu, &[1.0, 2.0, -1.0, 1.0, 0.0, 1.0]);
    let second = layer(2, 1, Activation::Identity, &[3.0, -2.0, 0.5]);
    let mut net = Network::new(vec![first, second]).unwrap();
    let input = reals(&[1.0, 1.0]);
    // a1 = relu([3, 1]) = [3, 1], output = 9 - 2 + 0.5 = 7.5
    assert_eq!(net.forward(&input), reals(&[7.5]));
    // signal at the output: 2 (7.5 - 5.5) = 4; below it: [12, -8]
    net.backprop_with_rate(&input, &reals(&[5.5]), Real(0.25));
    let state = net.save();
    assert_eq!(state.weights[1], vec![reals(&[3.0 - 3.0, -2.0 - 1.0])]);
    assert_eq!(state.biases[1], reals(&[0.5 - 1.0]));
    assert_eq!(
        state.weights[0],
        vec![reals(&[1.0 - 3.0, 2.0 - 3.0]), reals(&[-1.0 + 2.0, 1.0 + 2.0])]
    );
    assert_eq!(state.biases[0], reals(&[0.0 - 3.0, 1.0 + 2.0]));
}

#[test]
fn backprop_leaves_dead_relu_neurons_alone() {
    let first = layer(1, 2, Activation::Relu, &[1.0, -1.0, 0.0, 0.0]);
    let second = layer(2, 1, Activation::Identity, &[1.0, 1.0, 0.0]);
    let mut net = Network::new(vec![first, second]).unwrap();
    net.backprop_with_rate(&reals(&[2.0]), &reals(&[0.0]), Real(0.5));
    let state = net.save();
    // output 2, signal 4; the second neuron of the first layer gave 0
    assert_eq!(state.weights[0], vec![reals(&[1.0 - 4.0]), reals(&[-1.0])]);
    assert_eq!(state.biases[0], reals(&[-2.0, 0.0]));
    assert_eq!(state.weights[1], vec![reals(&[1.0 - 4.0, 1.0])]);
    assert_eq!(state.biases[1], reals(&[-2.0]));
}

#[test]
fn backprop_of_no_layers_changes_nothing() {
    let none: Vec<Layer<Real>> = Vec::new();
    let mut net = Network::new(none).unwrap();
    net.backprop(&reals(&[1.0, 2.0]), &reals(&[0.0, 0.0]));
    assert_eq!(net.layers().len(), 0);
    assert_eq!(net.forward(&reals(&[1.0, 2.0])), reals(&[1.0, 2.0]));
}

#[test]
fn backprop_keeps_the_architecture() {
    let mut net = three_layers();
    net.backprop(&reals(&[0.3, -0.2, 0.9, 0.5]), &reals(&[1.0, 0.0]));
    let sizes: Vec<(usize, usize, Activation)> =
        net.layers().iter().map(|l| (l.in_size(), l.out_size(), l.kind())).collect();
    assert_eq!(
        sizes,
        vec![(4, 5, Activation::Tanh), (5, 3, Activation::Sigmoid), (3, 2, Activation::Softmax)]
    );
}

#[test]
fn repeated_backprop_does_not_increase_the_loss() {
    let mut net = Network::new(vec![zero_layer(3, 2, Activation::Identity)]).unwrap();
    let input = reals(&[1.0, 2.0, 3.0]);
    let desired = reals(&[0.0, 1.0]);
    let first = net.loss(&input, &desired).0;
    let mut last = first;
    for _ in 0..500 {
        net.backprop(&input, &desired);
        let now = net.loss(&input, &desired).0;
        assert!(now <= last);
        last = now;
    }
    assert_eq!(first, 1.0);
    assert!(last < 0.5 * first);
}

#[test]
fn training_a_deep_network_lowers_the_loss() {
    let mut net = three_layers();
    let input = reals(&[0.3, -0.2, 0.9, 0.5]);
    let desired = reals(&[1.0, 0.0]);
    let first = net.loss(&input, &desired).0;
    for _ in 0..200 {
        net.backprop_with_rate(&input, &desired, Real(0.05));
    }
    assert!(net.loss(&input, &desired).0 < first);
}

#[test]
fn save_lists_weights_and_biases_in_layer_order() {
    let first = layer(2, 1, Activation::Tanh, &[1.0, 2.0, 3.0]);
    let second = layer(1, 2, Activation::Relu, &[4.0, 5.0, 6.0, 7.0]);
    let state = Network::new(vec![first, second]).unwrap().save();
    assert_eq!(state.weights, vec![vec![reals(&[1.0, 2.0])], vec![reals(&[4.0]), reals(&[5.0])]]);
    assert_eq!(state.biases, vec![reals(&[3.0]), reals(&[6.0, 7.0])]);
}

#[test]
fn load_after_save_gives_the_same_outputs() {
    let mut trained = three_layers();
    let example = reals(&[0.3, -0.2, 0.9, 0.5]);
    for _ in 0..20 {
        trained.backprop(&example, &reals(&[1.0, 0.0]));
    }
    let mut fresh = Network::new(vec![
        zero_layer(4, 5, Activation::Tanh),
        zero_layer(5, 3, Activation::Sigmoid),
        zero_layer(3, 2, Activation::Softmax),
    ])
    .unwrap();
    assert_eq!(fresh.load(&trained.save()), Ok(()));
    for probe in [[0.3, -0.2, 0.9, 0.5], [0.0, 0.0, 0.0, 0.0], [-1.0, 2.0, -3.0, 4.0]] {
        assert_eq!(fresh.forward(&reals(&probe)), trained.forward(&reals(&probe)));
    }
    assert_eq!(fresh.save().weights, trained.save().weights);
    assert_eq!(fresh.save().biases, trained.save().biases);
}

#[test]
fn load_rejects_another_number_of_layers() {
    let mut net = three_layers();
    let before = net.save();
    let mut short = three_layers().save();
    short.weights.pop();
    short.biases.pop();
    assert_eq!(net.load(&short), Err(LoadError::LayerCount));
    let mut uneven = three_layers().save();
    uneven.biases.push(reals(&[0.0]));
    assert_eq!(net.load(&uneven), Err(LoadError::LayerCount));
    let empty: State<Real> = State { weights: Vec::new(), biases: Vec::new() };
    assert_eq!(net.load(&empty), Err(LoadError::LayerCount));
    assert_eq!(net.save().weights, before.weights);
    assert_eq!(net.save().biases, before.biases);
}

#[test]
fn load_rejects_weights_of_another_shape() {
    let mut net = three_layers();
    let before = net.save();
    let mut state = three_layers().save();
    state.weights[0][0] = reals(&[9.0; 4]);
    state.weights[1][2].push(Real(1.0));
    state.biases[0].pop();
    assert_eq!(net.load(&state), Err(LoadError::BiasLength(0)));
    state.biases[0].push(Real(0.0));
    assert_eq!(net.load(&state), Err(LoadError::WeightShape(1)));
    state.weights[1][2].pop();
    state.weights[2].push(reals(&[0.0; 3]));
    assert_eq!(net.load(&state), Err(LoadError::WeightShape(2)));
    assert_eq!(net.save().weights, before.weights);
    assert_eq!(net.save().biases, before.biases);
    state.weights[2].pop();
    assert_eq!(net.load(&state), Ok(()));
    assert_eq!(net.save().weights[0][0], reals(&[9.0; 4]));
}

#[test]
fn load_rejects_biases_of_another_length() {
    let mut net = three_layers();
    let before = net.save();
    let mut state = three_layers().save();
    state.biases[2].push(Real(0.0));
    state.weights[0][0] = reals(&[9.0; 4]);
    assert_eq!(net.load(&state), Err(LoadError::BiasLength(2)));
    assert_eq!(net.save().weights, before.weights);
    assert_eq!(net.save().biases, before.biases);
}

#[test]
fn load_overwrites_every_layer() {
    let mut net = Network::new(vec![
        zero_layer(2, 1, Activation::Identity),
        zero_layer(1, 1, Activation::Identity),
    ])
    .unwrap();
    let state = State {
        weights: vec![vec![reals(&[1.0, 2.0])], vec![reals(&[3.0])]],
        biases: vec![reals(&[0.5]), reals(&[-1.0])],
    };
    assert_eq!(net.load(&state), Ok(()));
    assert_eq!(net.forward(&reals(&[1.0, 1.0])), reals(&[9.5]));
}

#[test]
fn layer_in_words() {
    assert_eq!(zero_layer(3, 2, Activation::Tanh).to_string(), "Layer (3, 2)");
    assert_eq!(zero_layer(0, 10, Activation::Tanh).to_string(), "Layer (0, 10)");
    assert_eq!(zero_layer(784, 128, Activation::Sigmoid).to_string(), "Layer (784, 128)");
}

#[test]
fn network_in_words() {
    assert_eq!(
        three_layers().to_string(),
        "Network {\n Layer (4, 5)\n Layer (5, 3)\n Layer (3, 2)\n}"
    );
    let none: Vec<Layer<Real>> = Vec::new();
    assert_eq!(Network::new(none).unwrap().to_string(), "Network {\n}");
}

#[test]
fn layer_derivative_at_its_own_output() {
    let l = layer(2, 2, Activation::Sigmoid, &[1.0, -1.0, 0.0, 0.0, 0.0, 0.0]);
    let x = reals(&[3.0, 3.0]);
    assert_eq!(l.forward(&x), reals(&[0.5, 0.5]));
    assert_eq!(l.d_activation(&x), reals(&[0.25, 0.25]));
    let y = reals(&[0.7, -0.2]);
    assert_eq!(l.d_activation(&y), l.slope_of_sum(&l.sum(&y)));
    assert_eq!(l.d_activation(&y), Activation::Sigmoid.d_func(&l.forward(&y)));
}

#[test]
fn backprop_through_softmax_uses_the_diagonal_derivative() {
    let first = zero_layer(1, 2, Activation::Softmax);
    let second = layer(2, 1, Activation::Identity, &[1.0, 3.0, 0.0]);
    let mut net = Network::new(vec![first, second]).unwrap();
    let input = reals(&[2.0]);
    assert_eq!(net.forward(&input), reals(&[2.0]));
    // signal at the output: 4; below it: [4, 12]; softmax slope: [0.25, 0.25]
    net.backprop_with_rate(&input, &reals(&[0.0]), Real(0.5));
    let state = net.save();
    assert_eq!(state.weights[0], vec![reals(&[-1.0]), reals(&[-3.0])]);
    assert_eq!(state.biases[0], reals(&[-0.5, -1.5]));
    assert_eq!(state.weights[1], vec![reals(&[1.0 - 1.0, 3.0 - 1.0])]);
    assert_eq!(state.biases[1], reals(&[-2.0]));
}
