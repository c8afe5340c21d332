//! What a commitment binds: the preimage of a state determines the state,
//! and is short.

use crate::builder::{array_field, commitment_field, concat, label, u64_field};
use crate::state::{State, StateView};
use vstd::bytes::{
    lemma_auto_spec_u64_to_from_le_bytes, spec_u64_from_le_bytes, spec_u64_to_le_bytes,
};
use vstd::prelude::*;
use vstd::string::StringSliceAdditionalSpecFns;
use vstd::utf8::{is_ascii_chars, is_ascii_chars_encode_utf8};

verus! {

/// Two byte strings that are equal, and whose tails are of one length, have
/// equal heads and equal tails.
proof fn lemma_split(head1: Seq<u8>, tail1: Seq<u8>, head2: Seq<u8>, tail2: Seq<u8>)
    requires
        head1 + tail1 == head2 + tail2,
        tail1.len() == tail2.len(),
    ensures
        head1 == head2,
        tail1 == tail2,
{
    let whole = head1 + tail1;
    let cut = head1.len() as int;
    assert(whole.len() == head1.len() + tail1.len());
    assert((head2 + tail2).len() == head2.len() + tail2.len());
    assert(head1 =~= whole.subrange(0, cut));
    assert(head2 =~= whole.subrange(0, cut));
    assert(tail1 =~= whole.subrange(cut, whole.len() as int));
    assert(tail2 =~= whole.subrange(cut, whole.len() as int));
}

/// Integer fields of the same name and the same bytes hold the same integer.
proof fn lemma_u64_field_injective(name: &str, a: u64, b: u64)
    requires
        u64_field(name, a) == u64_field(name, b),
    ensures
        a == b,
{
    lemma_auto_spec_u64_to_from_le_bytes();
    lemma_split(label(name), spec_u64_to_le_bytes(a), label(name), spec_u64_to_le_bytes(b));
    assert(spec_u64_from_le_bytes(spec_u64_to_le_bytes(a)) == a);
    assert(spec_u64_from_le_bytes(spec_u64_to_le_bytes(b)) == b);
}

/// The last field of the preimage tells whether there is a predecessor, and
/// which.
proof fn lemma_predecessors_injective(s1: StateView, s2: StateView)
    requires
        s1.sized(),
        s2.sized(),
        array_field("prev_state_commitment", s1.predecessors()) == array_field(
            "prev_state_commitment",
            s2.predecessors(),
        ),
    ensures
        s1.prev_state_commitment == s2.prev_state_commitment,
{
    lemma_auto_spec_u64_to_from_le_bytes();
    let name = "prev_state_commitment";
    let last1 = s1.predecessors();
    let last2 = s2.predecessors();
    lemma_concat_one(s1);
    lemma_concat_one(s2);
    lemma_split(
        label(name) + spec_u64_to_le_bytes(last1.len() as u64),
        concat(last1),
        label(name) + spec_u64_to_le_bytes(last2.len() as u64),
        concat(last2),
    );
}

/// The commitments of the last field, one after the other, are the
/// predecessor's bytes where there is one, and nothing where there is none.
proof fn lemma_concat_one(s: StateView)
    ensures
        concat(s.predecessors()) == match s.prev_state_commitment {
            Some(prev) => prev,
            None => Seq::<u8>::empty(),
        },
{
    match s.prev_state_commitment {
        Some(prev) => {
            let one = seq![prev];
            assert(one.drop_last() =~= Seq::<Seq<u8>>::empty());
            assert(concat(one.drop_last()) =~= Seq::<u8>::empty());
            assert(concat(one) =~= prev);
        },
        None => {},
    }
}

/// States with the same preimage hold the same values. So two states have
/// the same commitment only if they are the same, or the hash collides.
pub proof fn lemma_preimage_binds_state(s1: State, s2: State)
    requires
        s1@.preimage() == s2@.preimage(),
    ensures
        s1@ == s2@,
{
    s1.lemma_sized();
    s2.lemma_sized();
    lemma_auto_spec_u64_to_from_le_bytes();
    let (a, b) = (s1@, s2@);
    lemma_concat_one(a);
    lemma_concat_one(b);
    let cv1 = commitment_field("chain_variables", a.chain_variables);
    let cv2 = commitment_field("chain_variables", b.chain_variables);
    let h1 = u64_field("block_height", a.block_height);
    let h2 = u64_field("block_height", b.block_height);
    let v1 = u64_field("view_number", a.view_number);
    let v2 = u64_field("view_number", b.view_number);
    let last1 = array_field("prev_state_commitment", a.predecessors());
    let last2 = array_field("prev_state_commitment", b.predecessors());
    let tag = label("State");
    assert(a.preimage() == tag + cv1 + h1 + v1 + last1);
    assert(b.preimage() == tag + cv2 + h2 + v2 + last2);
    assert(last1.len() == last2.len()) by {
        assert(a.preimage().len() == b.preimage().len());
    }
    lemma_split(tag + cv1 + h1 + v1, last1, tag + cv2 + h2 + v2, last2);
    lemma_split(tag + cv1 + h1, v1, tag + cv2 + h2, v2);
    lemma_split(tag + cv1, h1, tag + cv2, h2);
    lemma_split(tag, cv1, tag, cv2);
    lemma_split(
        label("chain_variables"),
        a.chain_variables,
        label("chain_variables"),
        b.chain_variables,
    );
    lemma_u64_field_injective("block_height", a.block_height, b.block_height);
    lemma_u64_field_injective("view_number", a.view_number, b.view_number);
    lemma_predecessors_injective(a, b);
}

/// The lengths of the five labels of a state's preimage.
proof fn lemma_label_lens()
    ensures
        label("State").len() == 7,
        label("chain_variables").len() == 17,
        label("block_height").len() == 14,
        label("view_number").len() == 13,
        label("prev_state_commitment").len() == 23,
{
    reveal_strlit("State");
    reveal_strlit("chain_variables");
    reveal_strlit("block_height");
    reveal_strlit("view_number");
    reveal_strlit("prev_state_commitment");
    assert(is_ascii_chars("State"@));
    assert(is_ascii_chars("chain_variables"@));
    assert(is_ascii_chars("block_height"@));
    assert(is_ascii_chars("view_number"@));
    assert(is_ascii_chars("prev_state_commitment"@));
    is_ascii_chars_encode_utf8("State"@);
    is_ascii_chars_encode_utf8("chain_variables"@);
    is_ascii_chars_encode_utf8("block_height"@);
    is_ascii_chars_encode_utf8("view_number"@);
    is_ascii_chars_encode_utf8("prev_state_commitment"@);
}

/// The preimage of a state is short: 130 bytes where the state has no
/// predecessor, 162 where it has one.
pub proof fn lemma_preimage_len(state: State)
    ensures
        state@.preimage().len() == (if state@.prev_state_commitment is None {
            130int
        } else {
            162int
        }),
{
    state.lemma_sized();
    lemma_auto_spec_u64_to_from_le_bytes();
    lemma_concat_one(state@);
    lemma_label_lens();
}

} // verus!
