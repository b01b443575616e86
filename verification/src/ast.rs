//! Nodes of the syntax tree that a parser is to build from tokens. Nodes live
//! in an arena and refer to each other by [`NodeId`].

use vstd::prelude::*;
use crate::token::{Token, TokenKind};

verus! {

/// Names a node in an arena: the slot it lives in and the generation of that
/// slot. Generations count from one, so that zero never names a node.
#[derive(Copy, Clone)]
pub struct NodeId {
    pub gen: u32,
    pub offset: u32,
}

impl NodeId {
    /// The generation is not zero.
    pub open spec fn wf(&self) -> bool {
        self.gen != 0
    }
}

/// A literal or a name: one token.
pub struct PrimaryExpr {
    pub value: Token,
}

/// An operator applied to one operand.
pub struct UnaryExpr {
    pub operator: TokenKind,
    pub operand: NodeId,
}

/// An operator applied to two operands.
pub struct BinaryExpr {
    pub operator: TokenKind,
    pub left: NodeId,
    pub right: NodeId,
}

/// A node of the syntax tree.
pub enum Node {
    Primary(PrimaryExpr),
    Unary(UnaryExpr),
    Binary(BinaryExpr),
}

impl Node {
    /// Whether the node is an expression. Every kind of node there is so far
    /// is one.
    pub fn is_expression(&self) -> (r: bool)
        ensures
            r,
    {
        match self {
            Node::Primary(_) | Node::Unary(_) | Node::Binary(_) => true,
        }
    }
}

} // verus!
