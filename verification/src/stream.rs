//! Byte-stream semantics over a plaintext held in memory: a read copies the
//! plaintext out in one piece, a write lays the incoming bytes over it from
//! the start.

use vstd::prelude::*;

verus! {

/// Why a read into a string failed.
#[derive(Clone, Copy, Debug, PartialEq, Eq, Structural)]
pub enum StreamError {
    /// The plaintext is not valid UTF-8.
    InvalidData,
}

/// The smaller of two lengths.
pub open spec fn shorter(a: int, b: int) -> int {
    if a <= b {
        a
    } else {
        b
    }
}

/// The buffer after a read: as much of the plaintext as fits, followed by
/// what the buffer held beyond that.
pub open spec fn filled(plain: Seq<u8>, buf: Seq<u8>) -> Seq<u8> {
    let n = shorter(plain.len() as int, buf.len() as int);
    plain.take(n) + buf.skip(n)
}

/// The plaintext after a write: the incoming bytes, followed by what the
/// plaintext held beyond their length. A write longer than the plaintext
/// extends it; a shorter one leaves the tail in place.
pub open spec fn overwritten(plain: Seq<u8>, incoming: Seq<u8>) -> Seq<u8> {
    incoming + plain.skip(shorter(incoming.len() as int, plain.len() as int))
}

/// A write keeps every byte it was given at the start of the plaintext, keeps
/// what lay beyond them, and never shortens the plaintext.
pub proof fn lemma_overwritten(plain: Seq<u8>, incoming: Seq<u8>)
    ensures
        overwritten(plain, incoming).len() == if incoming.len() <= plain.len() {
            plain.len()
        } else {
            incoming.len()
        },
        overwritten(plain, incoming).take(incoming.len() as int) == incoming,
        forall|i: int|
            incoming.len() <= i < plain.len() ==> overwritten(plain, incoming)[i] == plain[i],
{
    assert(overwritten(plain, incoming).take(incoming.len() as int) =~= incoming);
}

/// A read leaves the length of the buffer as it was.
pub proof fn lemma_filled_len(plain: Seq<u8>, buf: Seq<u8>)
    ensures
        filled(plain, buf).len() == buf.len(),
{
}

/// Copies the start of `plain` into the start of `buf`, as far as both reach,
/// and returns the number of bytes copied.
pub fn fill(plain: &[u8], buf: &mut [u8]) -> (n: usize)
    ensures
        n == shorter(plain@.len() as int, old(buf)@.len() as int),
        final(buf)@ == filled(plain@, old(buf)@),
{
    let n = if plain.len() <= buf.len() {
        plain.len()
    } else {
        buf.len()
    };
    let mut i: usize = 0;
    while i < n
        invariant
            i <= n,
            n <= plain@.len(),
            n <= buf@.len(),
            buf@.len() == old(buf)@.len(),
            buf@ == plain@.take(i as int) + old(buf)@.skip(i as int),
        decreases n - i,
    {
        buf[i] = plain[i];
        i += 1;
    }
    n
}

/// Lays `incoming` over `plain` from the start, extending `plain` where
/// `incoming` is the longer, and returns the number of bytes written, which is
/// always the whole of `incoming`.
pub fn overwrite(plain: &mut Vec<u8>, incoming: &[u8]) -> (n: usize)
    ensures
        n == incoming@.len(),
        final(plain)@ == overwritten(old(plain)@, incoming@),
{
    let n = incoming.len();
    let mut i: usize = 0;
    while i < n
        invariant
            i <= n,
            n == incoming@.len(),
            plain@ == overwritten(old(plain)@, incoming@.take(i as int)),
        decreases n - i,
    {
        if i < plain.len() {
            plain[i] = incoming[i];
        } else {
            plain.push(incoming[i]);
        }
        i += 1;
    }
    assert(incoming@.take(n as int) == incoming@);
    n
}

} // verus!
