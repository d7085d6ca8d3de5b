//! Structural hash accessor.
//!
//! A value's digest is obtained by feeding its structural content, as a
//! sequence of byte chunks, to a fresh general-purpose hasher and reading
//! the 64-bit result. The chunks a value feeds are a pure function of its
//! abstract content, so structurally equal values always hash alike within
//! a process run.
use std::collections::hash_map::DefaultHasher;
use std::hash::Hasher;
use vstd::prelude::*;
use vstd::std_specs::hash::DefaultHasherAdditionalSpecFns;
use vstd::utf8::encode_utf8;

verus! {

/// The little-endian bytes of a 64-bit value: the one chunk every integer
/// feeds to the hasher.
pub open spec fn le_bytes_64(v: u64) -> Seq<u8> {
    seq![
        (v % 256) as u8,
        ((v / 256) % 256) as u8,
        ((v / 65536) % 256) as u8,
        ((v / 16777216) % 256) as u8,
        ((v / 4294967296) % 256) as u8,
        ((v / 1099511627776) % 256) as u8,
        ((v / 281474976710656) % 256) as u8,
        ((v / 72057594037927936) % 256) as u8,
    ]
}

/// The 64-bit two's-complement image of a signed value.
pub open spec fn wide_unsigned(v: int) -> u64
    recommends
        -0x8000000000000000 <= v < 0x8000000000000000,
{
    if v >= 0 {
        v as u64
    } else {
        (v + 0x10000000000000000) as u64
    }
}

/// Feeds the little-endian bytes of `v` to `state` as one chunk.
fn write_u64(state: &mut DefaultHasher, v: u64)
    ensures
        final(state)@ == old(state)@ + seq![le_bytes_64(v)],
{
    let mut chunk: Vec<u8> = Vec::new();
    chunk.push((v % 256) as u8);
    chunk.push(((v / 256) % 256) as u8);
    chunk.push(((v / 65536) % 256) as u8);
    chunk.push(((v / 16777216) % 256) as u8);
    chunk.push(((v / 4294967296) % 256) as u8);
    chunk.push(((v / 1099511627776) % 256) as u8);
    chunk.push(((v / 281474976710656) % 256) as u8);
    chunk.push(((v / 72057594037927936) % 256) as u8);
    proof {
        assert(chunk@ =~= le_bytes_64(v));
        assert(old(state)@.push(le_bytes_64(v)) =~= old(state)@ + seq![le_bytes_64(v)]);
    }
    state.write(chunk.as_slice());
}

/// The 64-bit two's-complement image of `v`, computed.
fn to_wide_unsigned(v: i64) -> (r: u64)
    ensures
        r == wide_unsigned(v as int),
{
    if v >= 0 {
        v as u64
    } else {
        ((v as i128) + 0x10000000000000000) as u64
    }
}

/// Structural hash accessor: a 64-bit digest of a value's content.
pub trait HashCode {
    /// The chunks of bytes this value feeds to a fresh hasher, in order: a
    /// pure function of the value's structural content.
    spec fn hash_writes(&self) -> Seq<Seq<u8>>;

    /// Feeds this value's chunks to `state`.
    fn hash_into(&self, state: &mut DefaultHasher)
        ensures
            final(state)@ == old(state)@ + self.hash_writes(),
    ;

    /// The 64-bit structural digest of this value: the hasher's verdict on
    /// the chunks the value feeds it, and so the same at every call on
    /// structurally equal values.
    fn hashcode(&self) -> (r: u64)
        ensures
            r == DefaultHasher::spec_finish(self.hash_writes()),
    {
        let mut state = DefaultHasher::new();
        self.hash_into(&mut state);
        proof {
            assert(state@ =~= self.hash_writes());
        }
        state.finish()
    }
}

/// Structurally equal values feed the hasher the same chunks and therefore
/// carry the same digest, however many times it is read within one run.
pub proof fn lemma_hashcode_deterministic<T: HashCode + ?Sized>(a: &T, b: &T)
    requires
        a.hash_writes() == b.hash_writes(),
    ensures
        DefaultHasher::spec_finish(a.hash_writes()) == DefaultHasher::spec_finish(b.hash_writes()),
{
}

/// Two strings with the same characters feed the hasher the same chunks
/// and so carry the same digest, however they were built.
pub proof fn lemma_string_hashcode_extensional(a: &String, b: &String)
    requires
        a@ == b@,
    ensures
        DefaultHasher::spec_finish(a.hash_writes()) == DefaultHasher::spec_finish(b.hash_writes()),
{
}

impl HashCode for u8 {
    open spec fn hash_writes(&self) -> Seq<Seq<u8>> {
        seq![le_bytes_64(*self as u64)]
    }

    fn hash_into(&self, state: &mut DefaultHasher) {
        write_u64(state, *self as u64);
    }
}

impl HashCode for u16 {
    open spec fn hash_writes(&self) -> Seq<Seq<u8>> {
        seq![le_bytes_64(*self as u64)]
    }

    fn hash_into(&self, state: &mut DefaultHasher) {
        write_u64(state, *self as u64);
    }
}

impl HashCode for u32 {
    open spec fn hash_writes(&self) -> Seq<Seq<u8>> {
        seq![le_bytes_64(*self as u64)]
    }

    fn hash_into(&self, state: &mut DefaultHasher) {
        write_u64(state, *self as u64);
    }
}

impl HashCode for u64 {
    open spec fn hash_writes(&self) -> Seq<Seq<u8>> {
        seq![le_bytes_64(*self)]
    }

    fn hash_into(&self, state: &mut DefaultHasher) {
        write_u64(state, *self);
    }
}

impl HashCode for usize {
    open spec fn hash_writes(&self) -> Seq<Seq<u8>> {
        seq![le_bytes_64(*self as u64)]
    }

    fn hash_into(&self, state: &mut DefaultHasher) {
        write_u64(state, *self as u64);
    }
}

impl HashCode for i8 {
    open spec fn hash_writes(&self) -> Seq<Seq<u8>> {
        seq![le_bytes_64(wide_unsigned(*self as int))]
    }

    fn hash_into(&self, state: &mut DefaultHasher) {
        write_u64(state, to_wide_unsigned(*self as i64));
    }
}

impl HashCode for i16 {
    open spec fn hash_writes(&self) -> Seq<Seq<u8>> {
        seq![le_bytes_64(wide_unsigned(*self as int))]
    }

    fn hash_into(&self, state: &mut DefaultHasher) {
        write_u64(state, to_wide_unsigned(*self as i64));
    }
}

impl HashCode for i32 {
    open spec fn hash_writes(&self) -> Seq<Seq<u8>> {
        seq![le_bytes_64(wide_unsigned(*self as int))]
    }

    fn hash_into(&self, state: &mut DefaultHasher) {
        write_u64(state, to_wide_unsigned(*self as i64));
    }
}

impl HashCode for i64 {
    open spec fn hash_writes(&self) -> Seq<Seq<u8>> {
        seq![le_bytes_64(wide_unsigned(*self as int))]
    }

    fn hash_into(&self, state: &mut DefaultHasher) {
        write_u64(state, to_wide_unsigned(*self));
    }
}

impl HashCode for isize {
    open spec fn hash_writes(&self) -> Seq<Seq<u8>> {
        seq![le_bytes_64(wide_unsigned(*self as int))]
    }

    fn hash_into(&self, state: &mut DefaultHasher) {
        write_u64(state, to_wide_unsigned(*self as i64));
    }
}

impl HashCode for bool {
    open spec fn hash_writes(&self) -> Seq<Seq<u8>> {
        seq![le_bytes_64(if *self { 1u64 } else { 0u64 })]
    }

    fn hash_into(&self, state: &mut DefaultHasher) {
        write_u64(state, if *self { 1 } else { 0 });
    }
}

/// The chunks a sequence of values feeds to the hasher: each element's
/// chunks in order.
pub open spec fn seq_hash_writes<T: HashCode>(s: Seq<T>) -> Seq<Seq<u8>>
    decreases s.len(),
{
    if s.len() == 0 {
        Seq::empty()
    } else {
        seq_hash_writes(s.drop_last()) + s.last().hash_writes()
    }
}

proof fn lemma_seq_hash_writes_take_step<T: HashCode>(s: Seq<T>, i: int)
    requires
        0 <= i < s.len(),
    ensures
        seq_hash_writes(s.take(i + 1)) == seq_hash_writes(s.take(i)) + s[i].hash_writes(),
{
    assert(s.take(i + 1).drop_last() =~= s.take(i));
    assert(s.take(i + 1).last() == s[i]);
}

/// Two sequences whose elements feed the hasher the same chunks, position
/// by position, feed the same chunks overall: the digest of an ordered
/// container depends only on the structural content of its elements.
pub proof fn lemma_seq_hash_writes_congruent<T: HashCode>(a: Seq<T>, b: Seq<T>)
    requires
        a.len() == b.len(),
        forall|i: int| 0 <= i < a.len() ==> #[trigger] a[i].hash_writes() == b[i].hash_writes(),
    ensures
        seq_hash_writes(a) == seq_hash_writes(b),
    decreases a.len(),
{
    if a.len() > 0 {
        assert(forall|i: int|
            0 <= i < a.drop_last().len() ==> #[trigger] a.drop_last()[i].hash_writes()
                == b.drop_last()[i].hash_writes());
        lemma_seq_hash_writes_congruent(a.drop_last(), b.drop_last());
        assert(a.last().hash_writes() == b.last().hash_writes());
    }
}

/// Two vectors of the same length whose elements feed the hasher the same
/// chunks, position by position, carry the same digest: the digest of an
/// ordered sequence is composed from the content of its elements in order.
pub proof fn lemma_vec_hashcode_congruent<T: HashCode>(a: &Vec<T>, b: &Vec<T>)
    requires
        a@.len() == b@.len(),
        forall|i: int| 0 <= i < a@.len() ==> #[trigger] a@[i].hash_writes() == b@[i].hash_writes(),
    ensures
        DefaultHasher::spec_finish(a.hash_writes()) == DefaultHasher::spec_finish(b.hash_writes()),
{
    lemma_seq_hash_writes_congruent(a@, b@);
}

impl<T: HashCode> HashCode for Vec<T> {
    open spec fn hash_writes(&self) -> Seq<Seq<u8>> {
        seq![le_bytes_64(self@.len() as u64)] + seq_hash_writes(self@)
    }

    fn hash_into(&self, state: &mut DefaultHasher) {
        let ghost base = state@;
        let n = self.len();
        write_u64(state, n as u64);
        let mut i: usize = 0;
        while i < n
            invariant
                n == self@.len(),
                i <= n,
                state@ == base + seq![le_bytes_64(n as u64)] + seq_hash_writes(
                    self@.take(i as int),
                ),
            decreases n - i,
        {
            let elem = &self[i];
            elem.hash_into(state);
            proof {
                lemma_seq_hash_writes_take_step(self@, i as int);
                assert(state@ =~= base + seq![le_bytes_64(n as u64)] + seq_hash_writes(
                    self@.take(i + 1),
                ));
            }
            i += 1;
        }
        proof {
            assert(self@.take(n as int) =~= self@);
            assert(state@ =~= old(state)@ + self.hash_writes());
        }
    }
}

impl HashCode for String {
    open spec fn hash_writes(&self) -> Seq<Seq<u8>> {
        seq![encode_utf8(self@)]
    }

    fn hash_into(&self, state: &mut DefaultHasher) {
        state.write(self.as_str().as_bytes());
        proof {
            assert(state@ =~= old(state)@ + self.hash_writes());
        }
    }
}

impl HashCode for str {
    open spec fn hash_writes(&self) -> Seq<Seq<u8>> {
        seq![encode_utf8(self@)]
    }

    fn hash_into(&self, state: &mut DefaultHasher) {
        state.write(self.as_bytes());
        proof {
            assert(state@ =~= old(state)@ + self.hash_writes());
        }
    }
}

} // verus!
