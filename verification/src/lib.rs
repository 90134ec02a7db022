//! A small feed-forward neural network: dense layers, a closed set of
//! activation functions, gradient descent by backpropagation and a plain
//! record of the trained weights.
//!
//! The numbers a network computes with are left to the caller: every type
//! here is generic over a [`scalar::Scalar`], which supplies the arithmetic.
//! What is proved is everything around the arithmetic: which entries are
//! combined, in which order and by which operation. A contract states its
//! result as a formula over the scalar's operations, for every scalar whose
//! operations are functions of their operands; lengths and shapes are
//! stated for every scalar.
//!
//! - [`scalar`]: the number type and the names of its operations' results.
//! - [`vector`], [`matrix`]: sums, inner products and the matrix of weights.
//! - [`activation`]: the activation functions and their derivatives.
//! - [`layer`]: one dense layer, its output and its step of gradient descent.
//! - [`network`]: layers in a row; output, loss, backpropagation, and the
//!   saving and loading of weights.
//! - [`text`]: numbers in decimal, for the descriptions of layers.
pub mod activation;
pub mod layer;
pub mod matrix;
pub mod network;
pub mod scalar;
pub mod text;
pub mod vector;
