use committable::{Commitment as OutsideCommitment, Committable, RawCommitmentBuilder};
use sequencer::{Commitment, CommitmentBuilder};
use sha3::{Digest, Keccak256};

/// A type for the outside builder to hang its commitments on.
struct Probe;

impl Committable for Probe {
    fn commit(&self) -> OutsideCommitment<Self> {
        RawCommitmentBuilder::new("Probe").finalize()
    }
}

fn keccak(bytes: &[u8]) -> [u8; 32] {
    Keccak256::digest(bytes).into()
}

fn outside(bytes: [u8; 32]) -> OutsideCommitment<Probe> {
    OutsideCommitment::from_raw(bytes)
}

fn counted(first: u8) -> [u8; 32] {
    let mut bytes = [0u8; 32];
    for (i, b) in bytes.iter_mut().enumerate() {
        *b = first.wrapping_add(i as u8);
    }
    bytes
}

#[test]
fn commitment_keeps_its_bytes() {
    let bytes = counted(3);
    assert_eq!(Commitment::from_raw(bytes).into_bytes(), bytes);
}

#[test]
fn commitments_are_equal_when_their_bytes_are() {
    let a = Commitment::from_raw(counted(1));
    let b = Commitment::from_raw(counted(1));
    assert!(a == b);
    assert_eq!(a, b);
}

#[test]
fn commitments_differ_in_any_byte() {
    let base = counted(9);
    for i in 0..32 {
        let mut other = base;
        other[i] ^= 0x40;
        assert!(Commitment::from_raw(base) != Commitment::from_raw(other));
    }
}

#[test]
fn tag_alone_hashes_to_known_digest() {
    let expected: [u8; 32] = [
        0x82, 0x85, 0x47, 0xd6, 0x50, 0xd1, 0x83, 0x5a, 0xbf, 0x09, 0x0a, 0xb5, 0x22, 0xbd, 0x3f,
        0x16, 0x2d, 0x3a, 0xe2, 0xf0, 0x20, 0x5e, 0x10, 0x81, 0x19, 0x18, 0x19, 0x99, 0x10, 0x1c,
        0x4d, 0x69,
    ];
    assert_eq!(CommitmentBuilder::new("T").finalize().into_bytes(), expected);
}

#[test]
fn finalize_hashes_and_does_not_hand_the_preimage_back() {
    let digest = CommitmentBuilder::new("T").finalize().into_bytes();
    assert_eq!(digest, keccak(&[0x54, 0xc0, 0x7f]));
    assert_ne!(&digest[..3], &[0x54, 0xc0, 0x7f]);
}

#[test]
fn u64_field_is_label_then_eight_bytes_least_significant_first() {
    let expected: [u8; 32] = [
        0x91, 0x52, 0x86, 0xbd, 0xb4, 0x91, 0x78, 0xa2, 0xdb, 0xce, 0x84, 0x26, 0xfc, 0xe9, 0x62,
        0xc1, 0xba, 0xf5, 0x1f, 0xa6, 0x86, 0x3a, 0x8f, 0xa9, 0xb1, 0xed, 0xd1, 0x72, 0x65, 0xf5,
        0xf3, 0x7e,
    ];
    let got = CommitmentBuilder::new("State").u64_field("block_height", 5).finalize();
    assert_eq!(got.into_bytes(), expected);

    let mut preimage = Vec::new();
    preimage.extend_from_slice(b"State");
    preimage.extend_from_slice(&[0xc0, 0x7f]);
    preimage.extend_from_slice(b"block_height");
    preimage.extend_from_slice(&[0xc0, 0x7f]);
    preimage.extend_from_slice(&[5, 0, 0, 0, 0, 0, 0, 0]);
    assert_eq!(got.into_bytes(), keccak(&preimage));
}

#[test]
fn u64_field_spreads_a_large_value_over_all_eight_bytes() {
    let value: u64 = 0x0102_0304_0506_0708;
    let got = CommitmentBuilder::new("n").u64_field("v", value).finalize();
    let preimage = [
        b'n', 0xc0, 0x7f, b'v', 0xc0, 0x7f, 0x08, 0x07, 0x06, 0x05, 0x04, 0x03, 0x02, 0x01,
    ];
    assert_eq!(got.into_bytes(), keccak(&preimage));
    let max = CommitmentBuilder::new("n").u64_field("v", u64::MAX).finalize();
    let preimage_max = [
        b'n', 0xc0, 0x7f, b'v', 0xc0, 0x7f, 0xff, 0xff, 0xff, 0xff, 0xff, 0xff, 0xff, 0xff,
    ];
    assert_eq!(max.into_bytes(), keccak(&preimage_max));
}

#[test]
fn commitment_field_is_label_then_the_digest_bytes() {
    let inner = counted(100);
    let got = CommitmentBuilder::new("Outer").field("inner", &Commitment::from_raw(inner)).finalize();
    let mut preimage = Vec::new();
    preimage.extend_from_slice(b"Outer");
    preimage.extend_from_slice(&[0xc0, 0x7f]);
    preimage.extend_from_slice(b"inner");
    preimage.extend_from_slice(&[0xc0, 0x7f]);
    preimage.extend_from_slice(&inner);
    assert_eq!(got.into_bytes(), keccak(&preimage));
}

#[test]
fn array_field_is_label_count_and_items_in_order() {
    let items = [
        Commitment::from_raw(counted(1)),
        Commitment::from_raw(counted(50)),
        Commitment::from_raw(counted(200)),
    ];
    let got = CommitmentBuilder::new("List").array_field("items", &items).finalize();
    let mut preimage = Vec::new();
    preimage.extend_from_slice(b"List");
    preimage.extend_from_slice(&[0xc0, 0x7f]);
    preimage.extend_from_slice(b"items");
    preimage.extend_from_slice(&[0xc0, 0x7f]);
    preimage.extend_from_slice(&[3, 0, 0, 0, 0, 0, 0, 0]);
    preimage.extend_from_slice(&counted(1));
    preimage.extend_from_slice(&counted(50));
    preimage.extend_from_slice(&counted(200));
    assert_eq!(got.into_bytes(), keccak(&preimage));

    let swapped = [items[1], items[0], items[2]];
    let other = CommitmentBuilder::new("List").array_field("items", &swapped).finalize();
    assert_ne!(got, other);
}

#[test]
fn empty_array_field_is_label_and_a_zero_count() {
    let got = CommitmentBuilder::new("List").array_field("items", &[]).finalize();
    let mut preimage = Vec::new();
    preimage.extend_from_slice(b"List");
    preimage.extend_from_slice(&[0xc0, 0x7f]);
    preimage.extend_from_slice(b"items");
    preimage.extend_from_slice(&[0xc0, 0x7f]);
    preimage.extend_from_slice(&[0, 0, 0, 0, 0, 0, 0, 0]);
    assert_eq!(got.into_bytes(), keccak(&preimage));
}

#[test]
fn names_outside_ascii_go_in_as_utf8() {
    let got = CommitmentBuilder::new("\u{e9}tat").u64_field("h\u{f6}he", 1).finalize();
    let mut preimage = Vec::new();
    preimage.extend_from_slice(&[0xc3, 0xa9, b't', b'a', b't', 0xc0, 0x7f]);
    preimage.extend_from_slice(&[b'h', 0xc3, 0xb6, b'h', b'e', 0xc0, 0x7f]);
    preimage.extend_from_slice(&[1, 0, 0, 0, 0, 0, 0, 0]);
    assert_eq!(got.into_bytes(), keccak(&preimage));
}

#[test]
fn field_order_changes_the_commitment() {
    let a = CommitmentBuilder::new("S").u64_field("x", 1).u64_field("y", 2).finalize();
    let b = CommitmentBuilder::new("S").u64_field("y", 2).u64_field("x", 1).finalize();
    assert_ne!(a, b);
}

#[test]
fn labels_keep_fields_apart() {
    let a = CommitmentBuilder::new("ab").u64_field("c", 0).finalize();
    let b = CommitmentBuilder::new("a").u64_field("bc", 0).finalize();
    assert_ne!(a, b);
}

#[test]
fn builder_agrees_with_committable_on_every_kind_of_field() {
    let inner = counted(7);
    let items = [counted(11), counted(99)];

    let ours = CommitmentBuilder::new("Probe")
        .field("inner", &Commitment::from_raw(inner))
        .u64_field("small", 42)
        .u64_field("large", u64::MAX - 1)
        .array_field(
            "items",
            &[Commitment::from_raw(items[0]), Commitment::from_raw(items[1])],
        )
        .array_field("none", &[])
        .finalize();

    let theirs: OutsideCommitment<Probe> = RawCommitmentBuilder::<Probe>::new("Probe")
        .field("inner", outside(inner))
        .u64_field("small", 42)
        .u64_field("large", u64::MAX - 1)
        .array_field("items", &[outside(items[0]), outside(items[1])])
        .array_field::<Probe>("none", &[])
        .finalize();

    let theirs: [u8; 32] = theirs.into();
    assert_eq!(ours.into_bytes(), theirs);
}

#[test]
fn builder_agrees_with_committable_past_one_hash_block() {
    let items: Vec<[u8; 32]> = (0..10u8).map(|i| counted(i.wrapping_mul(25))).collect();
    let ours_items: Vec<Commitment> = items.iter().map(|b| Commitment::from_raw(*b)).collect();
    let their_items: Vec<OutsideCommitment<Probe>> = items.iter().map(|b| outside(*b)).collect();

    let ours = CommitmentBuilder::new("Long").array_field("items", &ours_items).finalize();
    let theirs: [u8; 32] = RawCommitmentBuilder::<Probe>::new("Long")
        .array_field("items", &their_items)
        .finalize()
        .into();
    assert_eq!(ours.into_bytes(), theirs);
}
