//! What holds of every state, block and view: the laws of the chain, proved
//! from the contracts of [`State`].

use crate::block::{Block, Error, ViewNumber};
use crate::state::{contains_genesis, State, StateView};
use vstd::prelude::*;

verus! {

/// Equal states have equal commitments: the commitment depends on nothing
/// but what the state holds.
pub proof fn lemma_commit_deterministic(s1: State, s2: State)
    requires
        s1@ == s2@,
    ensures
        s1@.commitment() == s2@.commitment(),
{
}

/// A chain without blocks accepts a block only if the block is one genesis
/// transaction and nothing else.
pub proof fn lemma_genesis_uniqueness(state: State, block: Block, view_number: ViewNumber)
    requires
        state@.block_height == 0,
        state@.append(block, view_number@) is Ok,
    ensures
        block.transactions@.len() == 1,
        block.transactions@[0] is Genesis,
{
}

/// A chain that has started turns down every block that holds a genesis
/// transaction, whatever else the block holds.
pub proof fn lemma_genesis_exclusion(state: State, block: Block, view_number: ViewNumber)
    requires
        state@.block_height >= 1,
        contains_genesis(block.transactions@),
    ensures
        state@.append(block, view_number@) is Err,
{
}

/// A block proposed in a view that is not later than the state's is turned
/// down, whatever the block holds.
pub proof fn lemma_view_monotonicity(state: State, block: Block, view_number: ViewNumber)
    requires
        view_number@ <= state@.view_number,
    ensures
        state@.append(block, view_number@) is Err,
{
}

/// A block that names another parent than this state is turned down,
/// whatever else holds of it.
pub proof fn lemma_parent_mismatch(state: State, block: Block, view_number: ViewNumber)
    requires
        block.parent_state@ != state@.commitment(),
    ensures
        state@.append(block, view_number@) is Err,
{
}

/// The state that an append gives is one block higher than the state it was
/// given, in a later view, holds the commitment to that state, and has the
/// same chain parameters.
pub proof fn lemma_append_links(state: State, block: Block, view_number: ViewNumber, next: State)
    requires
        state@.block_height < u64::MAX,
        state@.append(block, view_number@) == Ok::<StateView, Error>(next@),
    ensures
        next@.block_height == state@.block_height + 1,
        next@.view_number == view_number@,
        next@.view_number > state@.view_number,
        next@.prev_state_commitment == Some(state@.commitment()),
        next@.chain_variables == state@.chain_variables,
        next@.wf(),
{
}

/// Whether `states` is the history of a chain grown from nothing: the first
/// state has no blocks, and each later state is what the one before it came
/// to by appending the block, in the view, of the same position.
pub open spec fn is_history(states: Seq<State>, blocks: Seq<Block>, views: Seq<ViewNumber>) -> bool {
    &&& states.len() == blocks.len() + 1
    &&& views.len() == blocks.len()
    &&& states[0]@.block_height == 0
    &&& states[0]@.wf()
    &&& forall|i: int| 0 <= i < blocks.len() ==> #[trigger] is_step(states, blocks, views, i)
}

/// Whether appending block `i` in view `i` to state `i` gave state `i + 1`.
pub open spec fn is_step(
    states: Seq<State>,
    blocks: Seq<Block>,
    views: Seq<ViewNumber>,
    i: int,
) -> bool {
    &&& states[i]@.block_height < u64::MAX
    &&& states[i]@.append(blocks[i], views[i]@) == Ok::<StateView, Error>(states[i + 1]@)
}

/// In a history, the state at position `i` has height `i`.
pub proof fn lemma_height_is_position(
    states: Seq<State>,
    blocks: Seq<Block>,
    views: Seq<ViewNumber>,
    i: int,
)
    requires
        is_history(states, blocks, views),
        0 <= i < states.len(),
    ensures
        states[i]@.block_height == i,
    decreases i,
{
    if i > 0 {
        lemma_height_is_position(states, blocks, views, i - 1);
        assert(is_step(states, blocks, views, i - 1));
        lemma_append_links(states[i - 1], blocks[i - 1], views[i - 1], states[i]);
    }
}

/// In a history, every state has the chain parameters of the first.
pub proof fn lemma_chain_variables_kept(
    states: Seq<State>,
    blocks: Seq<Block>,
    views: Seq<ViewNumber>,
    i: int,
)
    requires
        is_history(states, blocks, views),
        0 <= i < states.len(),
    ensures
        states[i]@.chain_variables == states[0]@.chain_variables,
    decreases i,
{
    if i > 0 {
        lemma_chain_variables_kept(states, blocks, views, i - 1);
        assert(is_step(states, blocks, views, i - 1));
        lemma_append_links(states[i - 1], blocks[i - 1], views[i - 1], states[i]);
    }
}

/// The states of a history form a chain: each has the height of its
/// position, each but the first holds the commitment to the one before it
/// and a later view than that one, and only the first has no predecessor.
pub proof fn lemma_chain_linking(states: Seq<State>, blocks: Seq<Block>, views: Seq<ViewNumber>)
    requires
        is_history(states, blocks, views),
    ensures
        forall|i: int| 0 <= i < states.len() ==> (#[trigger] states[i])@.block_height == i,
        forall|i: int|
            1 <= i < states.len() ==> (#[trigger] states[i])@.prev_state_commitment == Some(
                states[i - 1]@.commitment(),
            ),
        forall|i: int|
            1 <= i < states.len() ==> (#[trigger] states[i])@.view_number > states[i
                - 1]@.view_number,
        forall|i: int| 0 <= i < states.len() ==> (#[trigger] states[i])@.wf(),
{
    assert forall|i: int| 0 <= i < states.len() implies (#[trigger] states[i])@.block_height
        == i by {
        lemma_height_is_position(states, blocks, views, i);
    }
    assert forall|i: int| 1 <= i < states.len() implies (#[trigger] states[i])@.prev_state_commitment
        == Some(states[i - 1]@.commitment()) && states[i]@.view_number > states[i
        - 1]@.view_number by {
        assert(is_step(states, blocks, views, i - 1));
        lemma_append_links(states[i - 1], blocks[i - 1], views[i - 1], states[i]);
    }
    assert forall|i: int| 0 <= i < states.len() implies (#[trigger] states[i])@.wf() by {
        if i > 0 {
            assert(is_step(states, blocks, views, i - 1));
            lemma_append_links(states[i - 1], blocks[i - 1], views[i - 1], states[i]);
        }
    }
}

} // verus!
