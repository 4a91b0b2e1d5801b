//! Names of the expression-graph objects of the engine.
use vstd::prelude::*;

verus! {

/// An expression.
pub struct Expr;

/// Storage of a buffer.
pub struct BufferStorage;

/// A plain operator description.
pub struct OpT;

/// An operator.
pub struct Op;

/// A plain network description.
pub struct NetT;

/// A variable of the graph.
pub struct Variable;

} // verus!
