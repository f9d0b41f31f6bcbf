//! Big-endian integers on the wire.
//!
//! Every multi-byte field of SOCKS4 and SOCKS5 is sent most significant byte
//! first. The conversions themselves are done by the `byteorder` crate; this
//! module states what they compute and proves that reading undoes writing.

use byteorder::{BigEndian, ByteOrder, WriteBytesExt};
use vstd::prelude::*;

verus! {

/// The two bytes of `n`, most significant first.
pub open spec fn be16(n: u16) -> Seq<u8> {
    seq![(n / 256) as u8, (n % 256) as u8]
}

/// The 16-bit value whose big-endian bytes are `hi`, `lo`.
pub open spec fn from_be16(hi: u8, lo: u8) -> u16 {
    (hi * 256 + lo) as u16
}

/// The bytes of a run of 16-bit words, each most significant byte first.
pub open spec fn be16_words(words: Seq<u16>) -> Seq<u8> {
    Seq::new(2 * words.len(), |i: int| be16(words[i / 2])[i % 2])
}

/// The words that `2 * count` big-endian bytes stand for.
pub open spec fn from_be16_words(bytes: Seq<u8>, count: nat) -> Seq<u16> {
    Seq::new(count, |i: int| from_be16(bytes[2 * i], bytes[2 * i + 1]))
}

/// Reading a 16-bit value back from its big-endian bytes gives the value.
pub proof fn lemma_be16_round_trip(n: u16)
    ensures
        be16(n).len() == 2,
        from_be16(be16(n)[0], be16(n)[1]) == n,
{
}

/// Reading a run of words back from its big-endian bytes gives the words.
pub proof fn lemma_be16_words_round_trip(words: Seq<u16>)
    ensures
        be16_words(words).len() == 2 * words.len(),
        from_be16_words(be16_words(words), words.len()) == words,
{
    let bytes = be16_words(words);
    assert forall|i: int| 0 <= i < words.len() implies from_be16(bytes[2 * i], bytes[2 * i + 1])
        == words[i] by {
        lemma_be16_round_trip(words[i]);
        assert((2 * i) / 2 == i && (2 * i) % 2 == 0);
        assert((2 * i + 1) / 2 == i && (2 * i + 1) % 2 == 1);
    }
    assert(from_be16_words(bytes, words.len()) =~= words);
}

/// Appends `n` to `packet` through `byteorder::WriteBytesExt::write_u16`
/// with `BigEndian`. On a `Vec<u8>` that call cannot fail: it appends the
/// two bytes of `n`, most significant first, and leaves the rest as it was.
#[verifier::external_body]
pub(crate) fn put_u16(packet: &mut Vec<u8>, n: u16)
    ensures
        final(packet)@ == old(packet)@ + be16(n),
{
    let _ = packet.write_u16::<BigEndian>(n);
}

/// Appends `bytes` to `packet`.
pub fn put_bytes(packet: &mut Vec<u8>, bytes: &[u8])
    ensures
        final(packet)@ == old(packet)@ + bytes@,
{
    let ghost before = packet@;
    let n = bytes.len();
    let mut i: usize = 0;
    while i < n
        invariant
            i <= n,
            n == bytes@.len(),
            packet@ == before + bytes@.subrange(0, i as int),
        decreases n - i,
    {
        packet.push(bytes[i]);
        assert(bytes@.subrange(0, i + 1) =~= bytes@.subrange(0, i as int).push(bytes@[i as int]));
        i += 1;
    }
    assert(bytes@.subrange(0, n as int) =~= bytes@);
}

/// Reads a 16-bit value through `byteorder::ByteOrder::read_u16` of
/// `BigEndian`, which takes the first two bytes of `buf`, most significant
/// first, and panics on a shorter slice.
#[verifier::external_body]
pub(crate) fn get_u16(buf: &[u8]) -> (n: u16)
    requires
        buf@.len() >= 2,
    ensures
        n == from_be16(buf@[0], buf@[1]),
{
    BigEndian::read_u16(buf)
}

} // verus!
