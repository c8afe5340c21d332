//! The state of the chain, and the one way it moves on: by a block that the
//! rules of the chain accept.

use crate::block::{Block, ChainVariables, Error, SequencerTransaction, ViewNumber};
use crate::builder::{
    array_field, commitment_field, digests, label, u64_field, CommitmentBuilder,
};
use crate::commitment::Commitment;
use crate::keccak::keccak256_digest;
use vstd::prelude::*;

verus! {

/// What a [`State`] holds, as plain mathematical values.
pub struct StateView {
    /// The 32 bytes of the commitment to the chain's parameters.
    pub chain_variables: Seq<u8>,
    /// The number of blocks accepted so far.
    pub block_height: u64,
    /// The view in which the last block was accepted.
    pub view_number: u64,
    /// The 32 bytes of the commitment to the state before this one.
    pub prev_state_commitment: Option<Seq<u8>>,
}

/// Whether any transaction of `transactions` is a genesis transaction.
pub open spec fn contains_genesis(transactions: Seq<SequencerTransaction>) -> bool {
    exists|i: int| 0 <= i < transactions.len() && transactions[i] is Genesis
}

/// The rule on genesis transactions. The block on a chain of height 0 is one
/// genesis transaction and nothing else; a block on a chain that has started
/// holds none.
pub open spec fn genesis_rule(block_height: u64, transactions: Seq<SequencerTransaction>) -> bool {
    if block_height == 0 {
        transactions.len() == 1 && transactions[0] is Genesis
    } else {
        !contains_genesis(transactions)
    }
}

impl StateView {
    /// Only the state of a chain without blocks has no predecessor.
    pub open spec fn wf(self) -> bool {
        self.block_height == 0 <==> self.prev_state_commitment is None
    }

    /// Every commitment that the state holds is 32 bytes long.
    pub open spec fn sized(self) -> bool {
        &&& self.chain_variables.len() == 32
        &&& self.prev_state_commitment matches Some(prev) ==> prev.len() == 32
    }

    /// The commitments that the last field of the preimage lists: the
    /// predecessor's, where there is one.
    pub open spec fn predecessors(self) -> Seq<Seq<u8>> {
        match self.prev_state_commitment {
            Some(prev) => seq![prev],
            None => Seq::empty(),
        }
    }

    /// The bytes that the commitment to this state is the digest of.
    pub open spec fn preimage(self) -> Seq<u8> {
        label("State") + commitment_field("chain_variables", self.chain_variables) + u64_field(
            "block_height",
            self.block_height,
        ) + u64_field("view_number", self.view_number) + array_field(
            "prev_state_commitment",
            self.predecessors(),
        )
    }

    /// The commitment to this state.
    pub open spec fn commitment(self) -> Seq<u8> {
        keccak256_digest(self.preimage())
    }

    /// The rules of the chain, for a state whose commitment is `tip`: the
    /// block names this state as its parent, the view is later than the
    /// state's, and the rule on genesis transactions is kept.
    pub open spec fn admits(self, tip: Seq<u8>, block: Block, view_number: u64) -> bool {
        &&& block.parent_state@ == tip
        &&& view_number > self.view_number
        &&& genesis_rule(self.block_height, block.transactions@)
    }

    /// Whether this state accepts `block` in view `view_number`.
    pub open spec fn accepts(self, block: Block, view_number: u64) -> bool {
        self.admits(self.commitment(), block, view_number)
    }

    /// The state one block after this one, accepted in view `view_number`,
    /// where `tip` is the commitment to this state.
    pub open spec fn successor(self, tip: Seq<u8>, view_number: u64) -> StateView {
        StateView {
            chain_variables: self.chain_variables,
            block_height: (self.block_height + 1) as u64,
            view_number,
            prev_state_commitment: Some(tip),
        }
    }

    /// The state that follows this one when a block is accepted in view
    /// `view_number`.
    pub open spec fn next(self, view_number: u64) -> StateView {
        self.successor(self.commitment(), view_number)
    }

    /// What appending `block` in view `view_number` comes to: the next state
    /// if this state accepts the block, and the one error if it does not.
    pub open spec fn append(self, block: Block, view_number: u64) -> Result<StateView, Error> {
        if self.accepts(block, view_number) {
            Ok(self.next(view_number))
        } else {
            Err(Error::ValidationError)
        }
    }
}

/// The state of a chain: its parameters, how many blocks it has accepted, the
/// view of the last one, and a commitment to the state before.
///
/// A state is a value. Nothing changes one; accepting a block makes the next.
#[derive(Debug, Hash, PartialEq, Eq)]
pub struct State {
    chain_variables: ChainVariables,
    block_height: u64,
    view_number: ViewNumber,
    prev_state_commitment: Option<Commitment>,
}

impl View for State {
    type V = StateView;

    closed spec fn view(&self) -> StateView {
        StateView {
            chain_variables: self.chain_variables@,
            block_height: self.block_height,
            view_number: self.view_number@,
            prev_state_commitment: match self.prev_state_commitment {
                Some(prev) => Some(prev@),
                None => None,
            },
        }
    }
}

/// Whether any transaction of `transactions` is a genesis transaction.
fn any_genesis(transactions: &Vec<SequencerTransaction>) -> (found: bool)
    ensures
        found == contains_genesis(transactions@),
{
    let mut i: usize = 0;
    while i < transactions.len()
        invariant
            i <= transactions@.len(),
            forall|j: int| 0 <= j < i ==> !(transactions@[j] is Genesis),
        decreases transactions@.len() - i,
    {
        if transactions[i].is_genesis() {
            return true;
        }
        i += 1;
    }
    false
}

impl State {
    #[verifier::type_invariant]
    spec fn inv(self) -> bool {
        self.block_height == 0 <==> self.prev_state_commitment is None
    }

    /// The view of a state holds commitments of 32 bytes only.
    pub proof fn lemma_sized(self)
        ensures
            self@.sized(),
    {
        self.chain_variables.lemma_len();
        if let Some(prev) = self.prev_state_commitment {
            prev.lemma_len();
        }
    }

    /// The state of a chain with the given parameters before its first block.
    pub fn genesis(chain_variables: ChainVariables) -> (s: State)
        ensures
            s@ == (StateView {
                chain_variables: chain_variables@,
                block_height: 0,
                view_number: 0,
                prev_state_commitment: None,
            }),
    {
        State {
            chain_variables,
            block_height: 0,
            view_number: ViewNumber::genesis(),
            prev_state_commitment: None,
        }
    }

    /// A state with the given contents, if there is one: a state of height 0
    /// has no predecessor, and every other state has one.
    pub fn from_parts(
        chain_variables: ChainVariables,
        block_height: u64,
        view_number: ViewNumber,
        prev_state_commitment: Option<Commitment>,
    ) -> (s: Option<State>)
        ensures
            s is Some <==> (block_height == 0 <==> prev_state_commitment is None),
            s matches Some(state) ==> state@ == (StateView {
                chain_variables: chain_variables@,
                block_height,
                view_number: view_number@,
                prev_state_commitment: match prev_state_commitment {
                    Some(prev) => Some(prev@),
                    None => None,
                },
            }),
    {
        if (block_height == 0) == prev_state_commitment.is_none() {
            Some(State { chain_variables, block_height, view_number, prev_state_commitment })
        } else {
            None
        }
    }

    /// The parameters of the chain.
    pub fn chain_variables(&self) -> (cv: ChainVariables)
        ensures
            cv@ == self@.chain_variables,
    {
        self.chain_variables
    }

    /// The number of blocks accepted so far.
    pub fn block_height(&self) -> (height: u64)
        ensures
            height == self@.block_height,
            self@.wf(),
    {
        proof {
            use_type_invariant(self);
        }
        self.block_height
    }

    /// The view in which the last block was accepted.
    pub fn view_number(&self) -> (view_number: ViewNumber)
        ensures
            view_number@ == self@.view_number,
    {
        self.view_number
    }

    /// The commitment to the state before this one; `None` before the first block.
    pub fn prev_state_commitment(&self) -> (prev: Option<Commitment>)
        ensures
            prev is Some <==> self@.prev_state_commitment is Some,
            prev matches Some(p) ==> self@.prev_state_commitment == Some(p@),
            self@.wf(),
    {
        proof {
            use_type_invariant(self);
        }
        self.prev_state_commitment
    }

    /// The commitment to this state: the Keccak-256 digest of
    /// [`StateView::preimage`].
    pub fn commit(&self) -> (c: Commitment)
        ensures
            c@ == self@.commitment(),
    {
        let mut predecessors: Vec<Commitment> = Vec::new();
        if let Some(prev) = self.prev_state_commitment {
            predecessors.push(prev);
        }
        assert(digests(predecessors@) =~= self@.predecessors());
        CommitmentBuilder::new("State").field(
            "chain_variables",
            &self.chain_variables.commit(),
        ).u64_field("block_height", self.block_height).u64_field(
            "view_number",
            self.view_number.u64(),
        ).array_field("prev_state_commitment", predecessors.as_slice()).finalize()
    }

    /// Checks `block`, proposed in view `view_number`, against the rules of
    /// the chain, given the commitment `tip` to this state.
    pub fn validate_against(&self, tip: &Commitment, block: &Block, view_number: &ViewNumber) -> (ok:
        bool)
        ensures
            ok == self@.admits(tip@, *block, view_number@),
    {
        // The block must have been built on this state.
        if block.parent_state != *tip {
            return false;
        }
        // The view must have moved on.
        if view_number.u64() <= self.view_number.u64() {
            return false;
        }
        if self.block_height == 0 {
            // The first block is one genesis transaction and nothing else.
            if block.transactions.len() != 1 || !block.transactions[0].is_genesis() {
                return false;
            }
        } else {
            // No later block holds a genesis transaction.
            if any_genesis(&block.transactions) {
                return false;
            }
        }
        true
    }

    /// The state one block on from this one, accepted in view `view_number`,
    /// given the commitment `tip` to this state.
    pub fn successor(&self, tip: Commitment, view_number: ViewNumber) -> (next: State)
        requires
            self@.block_height < u64::MAX,
        ensures
            next@ == self@.successor(tip@, view_number@),
            next@.wf(),
    {
        State {
            chain_variables: self.chain_variables,
            block_height: self.block_height + 1,
            view_number,
            prev_state_commitment: Some(tip),
        }
    }

    /// Whether this state accepts `block` in view `view_number`.
    pub fn validate_block(&self, block: &Block, view_number: &ViewNumber) -> (ok: bool)
        ensures
            ok == self@.accepts(*block, view_number@),
    {
        let tip = self.commit();
        self.validate_against(&tip, block, view_number)
    }

    /// Moves the chain on by `block`, proposed in view `view_number`: the
    /// next state if this state accepts the block, and
    /// [`Error::ValidationError`] if it does not. This state stays as it is.
    pub fn append(&self, block: &Block, view_number: &ViewNumber) -> (result: Result<State, Error>)
        requires
            self@.block_height < u64::MAX,
        ensures
            match result {
                Ok(next) => self@.append(*block, view_number@) == Ok::<StateView, Error>(next@)
                    && next@.wf(),
                Err(e) => self@.append(*block, view_number@) == Err::<StateView, Error>(e),
            },
    {
        let tip = self.commit();
        if !self.validate_against(&tip, block, view_number) {
            return Err(Error::ValidationError);
        }
        Ok(self.successor(tip, *view_number))
    }
}

impl Clone for State {
    fn clone(&self) -> (s: State)
        ensures
            s@ == self@,
    {
        proof {
            use_type_invariant(self);
        }
        State {
            chain_variables: self.chain_variables,
            block_height: self.block_height,
            view_number: self.view_number,
            prev_state_commitment: self.prev_state_commitment,
        }
    }
}

impl Default for State {
    /// The state of a chain with default parameters before its first block.
    fn default() -> (s: State)
        ensures
            s@ == (StateView {
                chain_variables: Seq::new(32, |i: int| 0u8),
                block_height: 0,
                view_number: 0,
                prev_state_commitment: None,
            }),
    {
        State::genesis(ChainVariables::default())
    }
}

} // verus!
