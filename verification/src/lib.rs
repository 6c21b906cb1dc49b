//! Shape and index bookkeeping for a dense feed-forward network trained by
//! stochastic gradient descent.
//!
//! The entries of the matrices are the caller's business. What is decided
//! here is which dimensions every matrix of a training step has, which
//! stored layer each step of the backward sweep touches, and how the saved
//! parameters are framed as text.
//!
//! A caller lays out a network with [`network::Network::init_param`] and
//! allocates its parameters in the shapes that the layout reports. Before a
//! pass it asks the layout whether the matrices at hand have the shapes that
//! the pass takes; the backward sweep walks the layers in the order and at
//! the indices that [`network::Network::backprop_step`] gives.

pub mod network;
pub mod shape;
