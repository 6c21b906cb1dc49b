use neural_network::network::{BackpropStep, Network};
use neural_network::shape::Shape;

#[test]
fn init_param_lays_out_one_weight_and_one_bias_per_layer_after_the_input() {
    let net = Network::init_param(&[2, 3, 1]);
    assert_eq!(net.num_layers(), 3);
    assert_eq!(net.weights(), &vec![Shape::new(3, 2), Shape::new(1, 3)]);
    assert_eq!(net.biases(), &vec![Shape::new(3, 1), Shape::new(1, 1)]);
}

#[test]
fn init_param_on_the_smallest_network() {
    let net = Network::init_param(&[1, 1]);
    assert_eq!(net.num_layers(), 2);
    assert_eq!(net.weights(), &vec![Shape::new(1, 1)]);
    assert_eq!(net.biases(), &vec![Shape::new(1, 1)]);
}

#[test]
fn init_param_on_four_layers() {
    let net = Network::init_param(&[784, 100, 50, 10]);
    assert_eq!(net.num_layers(), 4);
    assert_eq!(
        net.weights(),
        &vec![Shape::new(100, 784), Shape::new(50, 100), Shape::new(10, 50)]
    );
    assert_eq!(
        net.biases(),
        &vec![Shape::new(100, 1), Shape::new(50, 1), Shape::new(10, 1)]
    );
}

#[test]
fn layer_size_gives_back_the_sizes() {
    let sizes = [784, 100, 50, 10];
    let net = Network::init_param(&sizes);
    for l in 0..sizes.len() {
        assert_eq!(net.layer_size(l), sizes[l]);
    }
}

#[test]
fn accepts_input_only_a_column_of_the_first_size() {
    let net = Network::init_param(&[2, 3, 1]);
    assert!(net.accepts_input(&Shape::new(2, 1)));
    assert!(!net.accepts_input(&Shape::new(3, 1)));
    assert!(!net.accepts_input(&Shape::new(2, 2)));
    assert!(!net.accepts_input(&Shape::new(1, 2)));
}

#[test]
fn forward_prop_returns_one_activation_per_layer() {
    let net = Network::init_param(&[2, 3, 1]);
    let (activations, zs) = net.forward_prop(&Shape::new(2, 1));
    assert_eq!(activations.len(), 3);
    assert_eq!(zs.len(), 2);
    assert_eq!(
        activations,
        vec![Shape::new(2, 1), Shape::new(3, 1), Shape::new(1, 1)]
    );
    assert_eq!(zs, vec![Shape::new(3, 1), Shape::new(1, 1)]);
}

#[test]
fn forward_prop_on_the_smallest_network() {
    let net = Network::init_param(&[1, 1]);
    let (activations, zs) = net.forward_prop(&Shape::new(1, 1));
    assert_eq!(activations, vec![Shape::new(1, 1), Shape::new(1, 1)]);
    assert_eq!(zs, vec![Shape::new(1, 1)]);
}

#[test]
fn backprop_step_counts_layers_from_the_end() {
    let net = Network::init_param(&[784, 100, 50, 10]);
    assert_eq!(
        net.backprop_step(1),
        BackpropStep { layer: 2, input: 2, output: 3, downstream: None }
    );
    assert_eq!(
        net.backprop_step(2),
        BackpropStep { layer: 1, input: 1, output: 2, downstream: Some(2) }
    );
    assert_eq!(
        net.backprop_step(3),
        BackpropStep { layer: 0, input: 0, output: 1, downstream: Some(1) }
    );
}

#[test]
fn backprop_step_on_the_smallest_network() {
    let net = Network::init_param(&[1, 1]);
    assert_eq!(
        net.backprop_step(1),
        BackpropStep { layer: 0, input: 0, output: 1, downstream: None }
    );
}

#[test]
fn accepts_pass_what_a_forward_pass_returns() {
    let net = Network::init_param(&[2, 3, 1]);
    let (activations, zs) = net.forward_prop(&Shape::new(2, 1));
    assert!(net.accepts_pass(&Shape::new(1, 1), &activations, &zs));
}

#[test]
fn accepts_pass_refuses_other_shapes() {
    let net = Network::init_param(&[2, 3, 1]);
    let (activations, zs) = net.forward_prop(&Shape::new(2, 1));

    assert!(!net.accepts_pass(&Shape::new(2, 1), &activations, &zs));
    assert!(!net.accepts_pass(&Shape::new(1, 2), &activations, &zs));

    let mut short = activations.clone();
    short.pop();
    assert!(!net.accepts_pass(&Shape::new(1, 1), &short, &zs));

    let mut wide = activations.clone();
    wide[1] = Shape::new(3, 2);
    assert!(!net.accepts_pass(&Shape::new(1, 1), &wide, &zs));

    let mut tall = activations.clone();
    tall[0] = Shape::new(3, 1);
    assert!(!net.accepts_pass(&Shape::new(1, 1), &tall, &zs));

    let mut long = zs.clone();
    long.push(Shape::new(1, 1));
    assert!(!net.accepts_pass(&Shape::new(1, 1), &activations, &long));

    let mut off = zs.clone();
    off[0] = Shape::new(1, 3);
    assert!(!net.accepts_pass(&Shape::new(1, 1), &activations, &off));

    assert!(!net.accepts_pass(&Shape::new(1, 1), &zs, &activations));
}

#[test]
fn backprop_returns_the_shapes_of_the_parameters() {
    let net = Network::init_param(&[2, 3, 1]);
    let (activations, zs) = net.forward_prop(&Shape::new(2, 1));
    let (d_b, d_w) = net.backprop(&Shape::new(1, 1), &activations, &zs);
    assert_eq!(&d_b, net.biases());
    assert_eq!(&d_w, net.weights());
    assert_eq!(d_b, vec![Shape::new(3, 1), Shape::new(1, 1)]);
    assert_eq!(d_w, vec![Shape::new(3, 2), Shape::new(1, 3)]);
}

#[test]
fn backprop_on_four_layers() {
    let net = Network::init_param(&[784, 100, 50, 10]);
    let (activations, zs) = net.forward_prop(&Shape::new(784, 1));
    let (d_b, d_w) = net.backprop(&Shape::new(10, 1), &activations, &zs);
    assert_eq!(
        d_b,
        vec![Shape::new(100, 1), Shape::new(50, 1), Shape::new(10, 1)]
    );
    assert_eq!(
        d_w,
        vec![Shape::new(100, 784), Shape::new(50, 100), Shape::new(10, 50)]
    );
}

#[test]
fn accepts_gradients_weights_first() {
    let net = Network::init_param(&[2, 3, 1]);
    let (activations, zs) = net.forward_prop(&Shape::new(2, 1));
    let (d_b, d_w) = net.backprop(&Shape::new(1, 1), &activations, &zs);
    assert!(net.accepts_gradients(&d_w, &d_b));
    assert!(!net.accepts_gradients(&d_b, &d_w));
    assert!(!net.accepts_gradients(&d_w, &d_w));
    assert!(!net.accepts_gradients(&Vec::new(), &d_b));
    let mut short = d_b.clone();
    short.pop();
    assert!(!net.accepts_gradients(&d_w, &short));
}

#[test]
fn update_params_keeps_the_layout() {
    let mut net = Network::init_param(&[2, 3, 1]);
    let (activations, zs) = net.forward_prop(&Shape::new(2, 1));
    let (d_b, d_w) = net.backprop(&Shape::new(1, 1), &activations, &zs);
    net.update_params(&d_w, &d_b);
    assert_eq!(net.num_layers(), 3);
    assert_eq!(net.weights(), &vec![Shape::new(3, 2), Shape::new(1, 3)]);
    assert_eq!(net.biases(), &vec![Shape::new(3, 1), Shape::new(1, 1)]);
    assert!(net.accepts_input(&Shape::new(2, 1)));
}

#[test]
fn save_weights_frames_both_sections() {
    let text = Network::save_weights("[[1.0, 2.0]]", "[[0.5]]");
    assert_eq!(text, "Weight\n[[1.0, 2.0]]\nBias\n[[0.5]]");
}

#[test]
fn save_weights_puts_the_weight_marker_before_the_bias_marker() {
    let text = Network::save_weights("w", "b");
    let weight_at = text.find("Weight").unwrap();
    let bias_at = text.find("Bias").unwrap();
    assert_eq!(weight_at, 0);
    assert!(weight_at < bias_at);
    assert_eq!(text.lines().collect::<Vec<&str>>(), vec!["Weight", "w", "Bias", "b"]);
}

#[test]
fn save_weights_of_empty_sections() {
    assert_eq!(Network::save_weights("", ""), "Weight\n\nBias\n");
}
