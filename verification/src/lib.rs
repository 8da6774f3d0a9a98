//! Handshake engine for a grid of compute nodes.
//!
//! Every node exchanges single integers with up to four neighbours over byte
//! pipes. This crate holds the part of a node that decides: where the pipes of
//! a link sit in the descriptor table, what the tokens on the wire mean, how a
//! peer's handshake state moves with each token, and how a node routes a
//! register access to one neighbour or arbitrates among all four. It performs
//! no I/O itself. Each operation is advanced one event at a time and answers
//! with the tokens to put on the wire and the next thing to wait for.
//!
//! * [`side`]: the four directions.
//! * [`layout`]: the descriptors of a link, and the neighbour's descriptors
//!   that an attached link opens.
//! * [`decimal`], [`token`]: the lines on the wire.
//! * [`peer`]: one end of a link and the rules of its handshake.
//! * [`model`]: the node as a state machine; [`node`]: the node itself.
//! * [`exchange`], [`traffic`], [`arbitration`]: what the rules guarantee,
//!   across one link and among four.

pub mod arbitration;
pub mod decimal;
pub mod exchange;
pub mod layout;
pub mod model;
pub mod node;
pub mod peer;
pub mod side;
pub mod token;
pub mod traffic;

pub use crate::model::{Next, Pending, Register, Scan};
pub use crate::node::{Node, PeerPids, Step};
pub use crate::peer::{Emission, Peer, ProtocolViolation};
pub use crate::side::Side;
pub use crate::token::Token;
