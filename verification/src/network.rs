//! The layout of a fully connected feed-forward network, and the shapes and
//! storage indices that one step of stochastic gradient descent runs on.
//!
//! A network over the layer sizes `[n0, n1, .., nL]` stores `L` weight
//! matrices and `L` bias vectors. Storage index `l` holds the parameters that
//! lead from the activation of `n_l` entries to the one of `n_(l+1)` entries.
//!
//! Matrices whose shapes do not fit are a caller's error. The passes rule
//! them out by precondition; `accepts_input`, `accepts_pass` and
//! `accepts_gradients` decide the same conditions at run time, for callers
//! that have to test what they were handed.

use crate::shape::{same_shapes, zero_vec_like, Shape};
use vstd::string::StringExecFns;
use vstd::prelude::*;

verus! {

/// The stored entries that one step of the backward sweep works on.
#[derive(Clone, Copy, Debug, PartialEq, Eq)]
pub struct BackpropStep {
    /// Storage index of the layer: of its pre-activation, its parameters and
    /// the slots that take its bias and weight gradients.
    pub layer: usize,
    /// Index, in the activation sequence, of the activation that enters the
    /// layer.
    pub input: usize,
    /// Index, in the activation sequence, of the activation that leaves the
    /// layer.
    pub output: usize,
    /// Storage index of the weights of the layer after it, through which the
    /// error comes back; `None` at the output layer.
    pub downstream: Option<usize>,
}

/// The dimensions of every weight matrix and bias vector of a network.
#[derive(Debug)]
pub struct Network {
    num_layers: usize,
    biases: Vec<Shape>,
    weights: Vec<Shape>,
}

impl View for Network {
    type V = Seq<usize>;

    /// The layer sizes `[n0, .., nL]`.
    closed spec fn view(&self) -> Seq<usize> {
        self.sizes()
    }
}

impl Network {
    /// The layer sizes, read off the stored weight shapes: the columns of
    /// the first, then the rows of each.
    #[verifier::opaque]
    spec fn sizes(&self) -> Seq<usize> {
        Seq::new(
            self.num_layers as nat,
            |l: int|
                if l == 0 {
                    self.weights@[0].cols
                } else {
                    self.weights@[l - 1].rows
                },
        )
    }

    /// Number of layers, the input layer included.
    pub closed spec fn layers(&self) -> nat {
        self.num_layers as nat
    }

    /// The stored bias shapes, first layer first.
    pub closed spec fn bias_shapes(&self) -> Seq<Shape> {
        self.biases@
    }

    /// The stored weight shapes, first layer first.
    pub closed spec fn weight_shapes(&self) -> Seq<Shape> {
        self.weights@
    }

    /// What holds of a network at all times: it has a layer size for each
    /// layer, at least one layer after the input, and its stored shapes are
    /// those that belong to its layer sizes.
    pub open spec fn wf(&self) -> bool {
        &&& self.layers() >= 2
        &&& self@.len() == self.layers()
        &&& self.weight_shapes() == Self::weights_for(self@)
        &&& self.bias_shapes() == Self::biases_for(self@)
    }

    /// The weight shapes that belong to the layer sizes `sizes`.
    pub open spec fn weights_for(sizes: Seq<usize>) -> Seq<Shape> {
        Seq::new(
            (sizes.len() - 1) as nat,
            |l: int| Shape { rows: sizes[l + 1], cols: sizes[l] },
        )
    }

    /// The bias shapes that belong to the layer sizes `sizes`.
    pub open spec fn biases_for(sizes: Seq<usize>) -> Seq<Shape> {
        Seq::new((sizes.len() - 1) as nat, |l: int| Shape::column(sizes[l + 1]))
    }

    /// Lays out a network over the layer sizes `sizes`: for each layer after
    /// the first a bias column and a weight matrix that maps the layer before
    /// it onto it.
    pub fn init_param(sizes: &[usize]) -> (net: Network)
        requires
            sizes@.len() >= 2,
        ensures
            net.wf(),
            net@ == sizes@,
            net.layers() == sizes@.len(),
            net.weight_shapes() == Self::weights_for(sizes@),
            net.bias_shapes() == Self::biases_for(sizes@),
    {
        let num_layers = sizes.len();
        let mut biases: Vec<Shape> = Vec::new();
        let mut weights: Vec<Shape> = Vec::new();

        for i in 1..num_layers
            invariant
                num_layers == sizes@.len(),
                biases@ == Self::biases_for(sizes@).take(i - 1),
                weights@ == Self::weights_for(sizes@).take(i - 1),
        {
            biases.push(Shape { rows: sizes[i], cols: 1 });
            weights.push(Shape { rows: sizes[i], cols: sizes[i - 1] });
        }

        let net = Network { num_layers, biases, weights };
        proof {
            reveal(Network::sizes);
        }
        assert(net.bias_shapes() =~= Self::biases_for(sizes@));
        assert(net.weight_shapes() =~= Self::weights_for(sizes@));
        assert(net@ =~= sizes@);
        net
    }

    /// Shape of the input vector of a forward pass.
    pub open spec fn input_shape(&self) -> Shape {
        Shape::column(self@[0])
    }

    /// Shape of the output vector, and of a training target.
    pub open spec fn output_shape(&self) -> Shape {
        Shape::column(self@[self.layers() - 1])
    }

    /// Shapes of the activations of a forward pass, the input first.
    pub open spec fn activation_shapes(&self) -> Seq<Shape> {
        Seq::new(self.layers(), |l: int| Shape::column(self@[l]))
    }

    /// Shapes of the pre-activations of a forward pass, one for each layer
    /// after the input.
    pub open spec fn preactivation_shapes(&self) -> Seq<Shape> {
        Seq::new((self.layers() - 1) as nat, |l: int| Shape::column(self@[l + 1]))
    }

    /// Whether `output` has the shape of a training target, and `activations`
    /// and `zs` the shapes that a forward pass through this network returns.
    pub open spec fn matches_forward_pass(
        &self,
        output: Shape,
        activations: Seq<Shape>,
        zs: Seq<Shape>,
    ) -> bool {
        &&& output == self.output_shape()
        &&& activations =~= self.activation_shapes()
        &&& zs =~= self.preactivation_shapes()
    }

    /// Whether `d_w` and `d_b` have a gradient of the right shape for every
    /// weight matrix and every bias vector.
    pub open spec fn matches_parameters(&self, d_w: Seq<Shape>, d_b: Seq<Shape>) -> bool {
        &&& d_w =~= self.weight_shapes()
        &&& d_b =~= self.bias_shapes()
    }

    /// The step of the backward sweep that lies `l` layers from the end,
    /// `l = 1` being the output layer.
    pub open spec fn step_from_end(&self, l: int) -> BackpropStep {
        BackpropStep {
            layer: (self.layers() - 1 - l) as usize,
            input: (self.layers() - 1 - l) as usize,
            output: (self.layers() - l) as usize,
            downstream: if l == 1 {
                None
            } else {
                Some((self.layers() - l) as usize)
            },
        }
    }

    /// In a well-formed network there is one weight matrix and one bias
    /// vector for each layer after the input; weight matrix `l` has as many
    /// rows as bias `l`, which is a column, and as many columns as the layer
    /// before it has entries.
    pub proof fn lemma_layout(&self)
        requires
            self.wf(),
        ensures
            self@.len() == self.layers(),
            self.weight_shapes().len() == self.layers() - 1,
            self.bias_shapes().len() == self.layers() - 1,
            forall|l: int|
                0 <= l < self.layers() - 1 ==> {
                    &&& (#[trigger] self.weight_shapes()[l]).rows == self@[l + 1]
                    &&& self.weight_shapes()[l].cols == self@[l]
                },
            forall|l: int|
                0 <= l < self.layers() - 1 ==> {
                    &&& (#[trigger] self.bias_shapes()[l]).rows == self@[l + 1]
                    &&& self.bias_shapes()[l].cols == 1
                },
    {
    }

    /// Counting the input as layer 0, the step of the backward sweep that
    /// works on layer `m` lies `layers - m` places from the end. It reads the
    /// pre-activation and writes the gradients stored at `m - 1`, reads the
    /// activation of layer `m - 1` as the layer's input and that of layer `m`
    /// as its output, and takes the error back through the weights of layer
    /// `m + 1`, stored at `m`, unless `m` is the output layer.
    pub proof fn lemma_step_of_layer(&self, m: int)
        requires
            self.wf(),
            1 <= m <= self.layers() - 1,
        ensures
            self.step_from_end(self.layers() - m).layer == m - 1,
            self.step_from_end(self.layers() - m).input == m - 1,
            self.step_from_end(self.layers() - m).output == m,
            self.step_from_end(self.layers() - m).downstream == (if m == self.layers() - 1 {
                None
            } else {
                Some(m as usize)
            }),
            self.step_from_end(self.layers() - m).layer < self.weight_shapes().len(),
            self.step_from_end(self.layers() - m).output < self.activation_shapes().len(),
            m < self.layers() - 1 ==> m < self.weight_shapes().len(),
    {
    }

    /// One training step fits together. What a forward pass returns has one
    /// activation for each layer and one pre-activation for each layer after
    /// the input, and with a target of the output's shape it is what the
    /// backward sweep takes. What the sweep returns has, layer by layer, the
    /// shapes of the biases and of the weights, and is what an update takes.
    pub proof fn lemma_training_step(
        &self,
        input: Shape,
        target: Shape,
        activations: Seq<Shape>,
        zs: Seq<Shape>,
        d_b: Seq<Shape>,
        d_w: Seq<Shape>,
    )
        requires
            self.wf(),
            input == self.input_shape(),
            target == self.output_shape(),
            activations == self.activation_shapes(),
            zs == self.preactivation_shapes(),
            d_b == self.bias_shapes(),
            d_w == self.weight_shapes(),
        ensures
            activations.len() == self.layers(),
            zs.len() == self.layers() - 1,
            activations[0] == input,
            activations[self.layers() - 1] == target,
            self.matches_forward_pass(target, activations, zs),
            d_b.len() == self.layers() - 1,
            d_w.len() == self.layers() - 1,
            forall|l: int| 0 <= l < self.layers() - 1 ==> #[trigger] d_b[l] == zs[l],
            forall|l: int|
                0 <= l < self.layers() - 1 ==> #[trigger] d_w[l] == (Shape {
                    rows: self@[l + 1],
                    cols: self@[l],
                }),
            self.matches_parameters(d_w, d_b),
    {
    }

    /// Number of layers, the input layer included.
    pub fn num_layers(&self) -> (n: usize)
        ensures
            n == self.layers(),
    {
        self.num_layers
    }

    /// The stored bias shapes, first layer first.
    pub fn biases(&self) -> (shapes: &Vec<Shape>)
        ensures
            shapes@ == self.bias_shapes(),
    {
        &self.biases
    }

    /// The stored weight shapes, first layer first.
    pub fn weights(&self) -> (shapes: &Vec<Shape>)
        ensures
            shapes@ == self.weight_shapes(),
    {
        &self.weights
    }

    /// Number of entries of layer `l`, the input layer being layer 0.
    pub fn layer_size(&self, l: usize) -> (n: usize)
        requires
            self.wf(),
            l < self.layers(),
        ensures
            n == self@[l as int],
    {
        if l == 0 {
            self.weights[0].cols
        } else {
            self.weights[l - 1].rows
        }
    }

    /// Whether `input` has the shape that a forward pass takes.
    pub fn accepts_input(&self, input: &Shape) -> (ok: bool)
        requires
            self.wf(),
        ensures
            ok == (*input == self.input_shape()),
    {
        input.rows == self.layer_size(0) && input.cols == 1
    }

    /// Whether `output`, `activations` and `zs` have the shapes that the
    /// backward sweep takes: those of a target and of a forward pass through
    /// this network.
    pub fn accepts_pass(&self, output: &Shape, activations: &Vec<Shape>, zs: &Vec<Shape>) -> (ok:
        bool)
        requires
            self.wf(),
        ensures
            ok == self.matches_forward_pass(*output, activations@, zs@),
    {
        let input = Shape { rows: self.layer_size(0), cols: 1 };
        let (expected_activations, expected_zs) = self.forward_prop(&input);
        output.rows == self.layer_size(self.num_layers - 1) && output.cols == 1 && same_shapes(
            activations.as_slice(),
            expected_activations.as_slice(),
        ) && same_shapes(zs.as_slice(), expected_zs.as_slice())
    }

    /// Whether `d_w` and `d_b` hold a gradient of the right shape for every
    /// weight matrix and every bias vector.
    pub fn accepts_gradients(&self, d_w: &Vec<Shape>, d_b: &Vec<Shape>) -> (ok: bool)
        requires
            self.wf(),
        ensures
            ok == self.matches_parameters(d_w@, d_b@),
    {
        same_shapes(d_w.as_slice(), self.weights.as_slice()) && same_shapes(
            d_b.as_slice(),
            self.biases.as_slice(),
        )
    }

    /// Which stored entries the backward sweep works on when it is `l`
    /// layers from the end. The sweep starts at the output layer, `l = 1`,
    /// and ends at the first layer after the input, `l = num_layers - 1`.
    pub fn backprop_step(&self, l: usize) -> (step: BackpropStep)
        requires
            self.wf(),
            1 <= l < self.layers(),
        ensures
            step == self.step_from_end(l as int),
            step.layer + l == self.layers() - 1,
            step.input == step.layer,
            step.output == step.layer + 1,
            step.downstream == (if l == 1 {
                None
            } else {
                Some((step.layer + 1) as usize)
            }),
    {
        let layer = self.weights.len() - l;
        let downstream = if l == 1 {
            None
        } else {
            Some(self.weights.len() - l + 1)
        };
        BackpropStep {
            layer,
            input: self.num_layers - l - 1,
            output: self.num_layers - l,
            downstream,
        }
    }

    /// Shape of the derivative of the cost with respect to the output
    /// activation: the residual between the output and the target.
    fn cost_func(&self, output_activations: &Shape, output: &Shape) -> (residual: Shape)
        requires
            *output_activations == *output,
        ensures
            residual == *output,
    {
        output_activations.elementwise(output)
    }

    /// Runs a forward pass on shapes: each layer multiplies its weights with
    /// the activation before it, adds its bias, and applies the nonlinearity
    /// entry by entry. Returns the shapes of all activations, the input
    /// first, and of all pre-activations.
    pub fn forward_prop(&self, input: &Shape) -> (pass: (Vec<Shape>, Vec<Shape>))
        requires
            self.wf(),
            *input == self.input_shape(),
        ensures
            pass.0@ == self.activation_shapes(),
            pass.1@ == self.preactivation_shapes(),
            pass.0@.len() == self.layers(),
            pass.1@.len() == self.layers() - 1,
            pass.0@[0] == *input,
    {
        let mut activations: Vec<Shape> = Vec::new();
        activations.push(*input);
        let mut zs: Vec<Shape> = Vec::new();

        for i in 0..self.weights.len()
            invariant
                self.wf(),
                activations@.len() == i + 1,
                zs@.len() == i,
                forall|l: int| 0 <= l <= i ==> #[trigger] activations@[l] == Shape::column(self@[l]),
                forall|l: int| 0 <= l < i ==> #[trigger] zs@[l] == Shape::column(self@[l + 1]),
        {
            let z = self.weights[i].dot(&activations[i]).elementwise(&self.biases[i]);
            zs.push(z);
            // the nonlinearity keeps the shape
            activations.push(z);
        }
        (activations, zs)
    }

    /// Runs the backward sweep on shapes, from the output layer to the first
    /// layer after the input. The error of the output layer is the residual
    /// between output and target, scaled entry by entry with the slope of
    /// the nonlinearity at the pre-activation. Each earlier layer takes the
    /// error of the layer after it back through the transpose of that
    /// layer's weights. The bias gradient of a layer is its error, the weight
    /// gradient is the error times the transpose of the activation that
    /// entered the layer. Returns the shapes of the bias gradients and of the
    /// weight gradients, in storage order.
    pub fn backprop(&self, output: &Shape, activations: &Vec<Shape>, zs: &Vec<Shape>) -> (grads: (
        Vec<Shape>,
        Vec<Shape>,
    ))
        requires
            self.wf(),
            self.matches_forward_pass(*output, activations@, zs@),
        ensures
            grads.0@ == self.bias_shapes(),
            grads.1@ == self.weight_shapes(),
    {
        let mut d_b: Vec<Shape> = zero_vec_like(self.biases.as_slice());
        let mut d_w: Vec<Shape> = zero_vec_like(self.weights.as_slice());
        let mut delta = *output;

        for l in 1..self.num_layers
            invariant
                self.wf(),
                self.matches_forward_pass(*output, activations@, zs@),
                d_b@ == self.bias_shapes(),
                d_w@ == self.weight_shapes(),
                l > 1 ==> delta == Shape::column(self@[self.layers() - l + 1]),
        {
            let step = self.backprop_step(l);
            // slope of the nonlinearity at the pre-activation, entry by entry
            let sp = zs[step.layer];
            delta = match step.downstream {
                None => self.cost_func(&activations[step.output], output).elementwise(&sp),
                Some(next) => self.weights[next].reversed_axes().dot(&delta).elementwise(&sp),
            };
            d_b[step.layer] = delta;
            d_w[step.layer] = delta.dot(&activations[step.input].reversed_axes());
        }

        (d_b, d_w)
    }

    /// Applies one gradient step on shapes: from every weight matrix and
    /// bias vector the gradient of the same layer, scaled by the learning
    /// rate, is taken away entry by entry. The layout stays as it was.
    pub fn update_params(&mut self, d_w: &Vec<Shape>, d_b: &Vec<Shape>)
        requires
            old(self).wf(),
            old(self).matches_parameters(d_w@, d_b@),
        ensures
            final(self).wf(),
            final(self)@ == old(self)@,
            final(self).layers() == old(self).layers(),
            final(self).weight_shapes() == old(self).weight_shapes(),
            final(self).bias_shapes() == old(self).bias_shapes(),
    {
        let mut weights: Vec<Shape> = Vec::new();
        for i in 0..self.weights.len()
            invariant
                d_w@ == self.weight_shapes(),
                weights@ == self.weight_shapes().take(i as int),
        {
            // scaling the gradient keeps its shape
            weights.push(self.weights[i].elementwise(&d_w[i]));
        }
        let mut biases: Vec<Shape> = Vec::new();
        for i in 0..self.biases.len()
            invariant
                d_b@ == self.bias_shapes(),
                biases@ == self.bias_shapes().take(i as int),
        {
            biases.push(self.biases[i].elementwise(&d_b[i]));
        }
        assert(weights@ =~= self.weight_shapes());
        assert(biases@ =~= self.bias_shapes());
        self.weights = weights;
        self.biases = biases;
        proof {
            reveal(Network::sizes);
            assert(self@ =~= old(self)@);
        }
    }

    /// The text under which parameters are saved: the marker line `Weight`,
    /// the printed weights, and on new lines the marker `Bias` and the
    /// printed biases.
    pub open spec fn saved_text(weights: Seq<char>, biases: Seq<char>) -> Seq<char> {
        "Weight\n"@ + weights + "\nBias\n"@ + biases
    }

    /// Frames the printed weights and the printed biases as the text that is
    /// written to the weights file.
    pub fn save_weights(weights: &str, biases: &str) -> (text: String)
        ensures
            text@ == Self::saved_text(weights@, biases@),
    {
        let mut text = String::from_str("Weight\n");
        text.append(weights);
        text.append("\nBias\n");
        text.append(biases);
        text
    }
}

} // verus!
