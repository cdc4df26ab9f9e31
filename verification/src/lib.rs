//! Syntax-tree core for a hardware-description-language parser: zero-copy
//! source spans, an immutable polymorphic node model, a tagged-union layer
//! for generic preorder traversal, and the parser-combinator contract that
//! every grammar-production parser obeys, worked out on the data-type and
//! net-type production family.

pub mod span;
pub mod nodes;
pub mod any_node;
pub mod combinator;
pub mod primaries;
pub mod net_and_variable_types;
