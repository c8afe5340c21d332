//! The state of a sequencer's chain and its one transition.
//!
//! A [`State`] holds the chain's parameters, its height, the view of its last
//! block and a commitment to the state before it. [`State::validate_block`]
//! says whether a proposed [`Block`] may follow, [`State::append`] gives the
//! state that then follows, and [`State::commit`] gives the commitment by
//! which the next block names its parent.
//!
//! Every function is verified against a contract over the view of the state,
//! [`StateView`]. The hash under the commitments is the one thing taken on
//! trust: see [`keccak`].

pub mod binding;
pub mod block;
pub mod builder;
pub mod commitment;
pub mod keccak;
pub mod laws;
pub mod state;

pub use block::{Block, ChainVariables, Error, SequencerTransaction, ViewNumber};
pub use builder::CommitmentBuilder;
pub use commitment::Commitment;
pub use state::{State, StateView};
