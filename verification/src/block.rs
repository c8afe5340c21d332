//! What the consensus layer hands to the state: view numbers, chain
//! parameters, transactions and blocks.

use crate::commitment::Commitment;
use vstd::prelude::*;

verus! {

/// The logical clock of the consensus protocol: one tick per round.
#[derive(Clone, Copy, Debug, Hash, PartialEq, Eq, PartialOrd, Ord, Structural)]
pub struct ViewNumber(u64);

impl View for ViewNumber {
    type V = u64;

    closed spec fn view(&self) -> u64 {
        self.0
    }
}

impl ViewNumber {
    /// The view with the given number.
    pub fn new(n: u64) -> (v: ViewNumber)
        ensures
            v@ == n,
    {
        ViewNumber(n)
    }

    /// The view in which a chain starts: number 0.
    pub fn genesis() -> (v: ViewNumber)
        ensures
            v@ == 0,
    {
        ViewNumber(0)
    }

    /// The number of this view.
    pub fn u64(&self) -> (n: u64)
        ensures
            n == self@,
    {
        self.0
    }
}

/// The parameters of a chain.
///
/// The state never looks inside them. It carries them from block to block
/// and binds them into its own commitment through theirs, so they are held
/// here as that commitment. The view is its 32 bytes.
#[derive(Clone, Copy, Debug, Hash, PartialEq, Eq)]
pub struct ChainVariables {
    commitment: Commitment,
}

impl View for ChainVariables {
    type V = Seq<u8>;

    closed spec fn view(&self) -> Seq<u8> {
        self.commitment@
    }
}

impl ChainVariables {
    /// The parameters that `commitment` was computed from.
    pub fn new(commitment: Commitment) -> (cv: ChainVariables)
        ensures
            cv@ == commitment@,
    {
        ChainVariables { commitment }
    }

    /// The commitment to these parameters.
    pub fn commit(&self) -> (c: Commitment)
        ensures
            c@ == self@,
    {
        self.commitment
    }

    /// The commitment to any parameters is 32 bytes long.
    pub proof fn lemma_len(self)
        ensures
            self@.len() == 32,
    {
        self.commitment.lemma_len();
    }
}

impl Default for ChainVariables {
    /// Parameters that nothing was committed to: all 32 bytes are zero.
    fn default() -> (cv: ChainVariables)
        ensures
            cv@ == Seq::new(32, |i: int| 0u8),
    {
        let zero = Commitment::from_raw([0u8; 32]);
        assert(zero@ =~= Seq::new(32, |i: int| 0u8));
        ChainVariables { commitment: zero }
    }
}

/// A transaction as the state sees it: its kind, and a payload that the
/// state carries but never reads.
#[derive(Clone, Debug, Hash, PartialEq, Eq)]
pub enum SequencerTransaction {
    /// Opens a chain. Only the first block holds one, and holds nothing else.
    Genesis(Vec<u8>),
    /// Any other transaction.
    Regular(Vec<u8>),
}

impl SequencerTransaction {
    /// Whether this is a genesis transaction.
    pub fn is_genesis(&self) -> (g: bool)
        ensures
            g == (self is Genesis),
    {
        match self {
            SequencerTransaction::Genesis(_) => true,
            SequencerTransaction::Regular(_) => false,
        }
    }
}

/// A proposed block: the state it was built on, and its transactions in order.
#[derive(Clone, Debug, Hash, PartialEq, Eq)]
pub struct Block {
    /// Commitment to the state that this block extends.
    pub parent_state: Commitment,
    /// The transactions of the block, in order.
    pub transactions: Vec<SequencerTransaction>,
}

impl Block {
    /// The block that extends the state committed to by `parent_state` with
    /// `transactions`.
    pub fn new(parent_state: Commitment, transactions: Vec<SequencerTransaction>) -> (b: Block)
        ensures
            b == (Block { parent_state, transactions }),
    {
        Block { parent_state, transactions }
    }
}

/// Why a state turned a block down.
#[derive(Clone, Copy, Debug, Hash, PartialEq, Eq, Structural)]
pub enum Error {
    /// The block broke one of the rules of the chain.
    ValidationError,
}

} // verus!
