//! The byte format that commitments are computed over.
//!
//! A commitment is the Keccak-256 digest of a preimage. The preimage starts
//! with a label naming the kind of value committed to; each field follows as
//! its own label and its encoding. A label is the UTF-8 text of a name,
//! closed by two bytes that UTF-8 text never holds.

use crate::commitment::Commitment;
use crate::keccak::{keccak256, keccak256_digest};
use vstd::bytes::{spec_u64_to_le_bytes, u64_to_le_bytes};
use vstd::prelude::*;
use vstd::string::StringSliceAdditionalSpecFns;

verus! {

/// The two bytes that close every label. The first, `0xC0`, occurs in no
/// well-formed UTF-8.
pub open spec fn label_end() -> Seq<u8> {
    seq![0xC0u8, 0x7Fu8]
}

/// A name as it stands in a preimage: its UTF-8 bytes, then [`label_end`].
pub open spec fn label(name: &str) -> Seq<u8> {
    name.spec_bytes() + label_end()
}

/// A field holding one commitment: the label, then the 32 digest bytes.
pub open spec fn commitment_field(name: &str, val: Seq<u8>) -> Seq<u8> {
    label(name) + val
}

/// A field holding an integer: the label, then eight bytes, least significant first.
pub open spec fn u64_field(name: &str, val: u64) -> Seq<u8> {
    label(name) + spec_u64_to_le_bytes(val)
}

/// All of `items`, one after the other.
pub open spec fn concat(items: Seq<Seq<u8>>) -> Seq<u8>
    decreases items.len(),
{
    if items.len() == 0 {
        Seq::empty()
    } else {
        concat(items.drop_last()) + items.last()
    }
}

/// A field holding any number of commitments: the label, the count as an
/// eight-byte little-endian integer, then the commitments in order.
pub open spec fn array_field(name: &str, vals: Seq<Seq<u8>>) -> Seq<u8> {
    label(name) + spec_u64_to_le_bytes(vals.len() as u64) + concat(vals)
}

/// The digest bytes of each commitment of `vals`, in order.
pub open spec fn digests(vals: Seq<Commitment>) -> Seq<Seq<u8>> {
    Seq::new(vals.len(), |i: int| vals[i]@)
}

/// Collects the preimage of a commitment field by field.
///
/// Its view is the preimage written so far.
pub struct CommitmentBuilder {
    preimage: Vec<u8>,
}

impl View for CommitmentBuilder {
    type V = Seq<u8>;

    closed spec fn view(&self) -> Seq<u8> {
        self.preimage@
    }
}

/// Appends `src` to `buf`.
fn push_bytes(buf: &mut Vec<u8>, src: &[u8])
    ensures
        final(buf)@ == old(buf)@ + src@,
{
    let mut i: usize = 0;
    while i < src.len()
        invariant
            i <= src@.len(),
            buf@ == old(buf)@ + src@.take(i as int),
        decreases src@.len() - i,
    {
        buf.push(src[i]);
        i += 1;
        assert(src@.take(i as int) =~= src@.take(i - 1).push(src@[i - 1]));
    }
    assert(src@.take(i as int) =~= src@);
}

/// Appends the label for `name` to `buf`.
fn push_label(buf: &mut Vec<u8>, name: &str)
    ensures
        final(buf)@ == old(buf)@ + label(name),
{
    push_bytes(buf, name.as_bytes());
    buf.push(0xC0u8);
    buf.push(0x7Fu8);
    assert(buf@ =~= old(buf)@ + label(name));
}

impl CommitmentBuilder {
    /// Starts the preimage of a value of the kind named `tag`.
    pub fn new(tag: &str) -> (b: CommitmentBuilder)
        ensures
            b@ == label(tag),
    {
        let mut preimage: Vec<u8> = Vec::new();
        push_label(&mut preimage, tag);
        assert(preimage@ =~= label(tag));
        CommitmentBuilder { preimage }
    }

    /// Adds a field that holds the commitment `val`.
    pub fn field(self, name: &str, val: &Commitment) -> (b: CommitmentBuilder)
        ensures
            b@ == self@ + commitment_field(name, val@),
    {
        let mut preimage = self.preimage;
        push_label(&mut preimage, name);
        let bytes = val.into_bytes();
        push_bytes(&mut preimage, bytes.as_slice());
        assert(preimage@ =~= self@ + commitment_field(name, val@));
        CommitmentBuilder { preimage }
    }

    /// Adds a field that holds the integer `val`.
    pub fn u64_field(self, name: &str, val: u64) -> (b: CommitmentBuilder)
        ensures
            b@ == self@ + u64_field(name, val),
    {
        let mut preimage = self.preimage;
        push_label(&mut preimage, name);
        let bytes = u64_to_le_bytes(val);
        push_bytes(&mut preimage, bytes.as_slice());
        assert(preimage@ =~= self@ + u64_field(name, val));
        CommitmentBuilder { preimage }
    }

    /// Adds a field that holds the commitments of `vals`, in order.
    pub fn array_field(self, name: &str, vals: &[Commitment]) -> (b: CommitmentBuilder)
        ensures
            b@ == self@ + array_field(name, digests(vals@)),
    {
        let mut preimage = self.preimage;
        push_label(&mut preimage, name);
        let count = u64_to_le_bytes(vals.len() as u64);
        push_bytes(&mut preimage, count.as_slice());
        let ghost head = self@ + label(name) + spec_u64_to_le_bytes(vals@.len() as u64);
        assert(preimage@ =~= head);
        assert(digests(vals@).take(0) =~= Seq::<Seq<u8>>::empty());
        let mut i: usize = 0;
        while i < vals.len()
            invariant
                i <= vals@.len(),
                preimage@ == head + concat(digests(vals@).take(i as int)),
            decreases vals@.len() - i,
        {
            let bytes = vals[i].into_bytes();
            push_bytes(&mut preimage, bytes.as_slice());
            i += 1;
            proof {
                let done = digests(vals@).take(i as int);
                assert(done.drop_last() =~= digests(vals@).take(i - 1));
                assert(done.last() == vals@[i - 1]@);
                assert(preimage@ =~= head + concat(done));
            }
        }
        assert(digests(vals@).take(i as int) =~= digests(vals@));
        assert(preimage@ =~= self@ + array_field(name, digests(vals@)));
        CommitmentBuilder { preimage }
    }

    /// Hashes the preimage.
    pub fn finalize(self) -> (c: Commitment)
        ensures
            c@ == keccak256_digest(self@),
    {
        Commitment::from_raw(keccak256(self.preimage.as_slice()))
    }
}

} // verus!
