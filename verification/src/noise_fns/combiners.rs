//! Combinators: nodes that wrap two sources of matching dimension and
//! merge their outputs with a fixed binary rule.

pub mod min;
