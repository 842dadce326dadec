//! Nodes holding typed state, and handovers: named, protocol-tagged
//! transformations from one node's state type into another, which compose.

pub mod guard;
pub mod handover;
pub mod hypergraph;
pub mod mapper;
pub mod node;
pub mod protocol;
pub mod scalar;

pub use guard::{PlasmaState, SymbioticGuard};
pub use handover::{compose_handovers, Handover};
pub use hypergraph::Hypergraph;
pub use mapper::{Chain, Mapper};
pub use node::Node;
pub use protocol::{PreservationProtocol, StateSpace};
pub use scalar::Scalar;
