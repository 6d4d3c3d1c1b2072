//! Resolution of nested text-formatting annotations into a single style
//! state per text run, and construction of the structural tag tree that
//! carries that state in an accessibility-aware output format.

pub mod attr;
pub mod geom;
pub mod laws;
pub mod resolved;
pub mod stack;
pub mod tree;
