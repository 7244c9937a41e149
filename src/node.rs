use vstd::prelude::*;

verus! {

/// One node of a parsed YAML document, with the same variants as the parser's own value type.
#[derive(Debug, PartialEq)]
pub enum Node {
    /// A floating-point scalar, kept as its text.
    Real(String),
    Integer(i64),
    Str(String),
    Boolean(bool),
    List(Vec<Node>),
    /// A mapping, as its entries in document order.
    Dict(Vec<(Node, Node)>),
    Alias(usize),
    Null,
    BadValue,
}

} // verus!
