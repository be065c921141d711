//! Byte buffers that grow and shrink as the codec asks.

use vstd::prelude::*;

verus! {

/// A byte buffer after `resize(n, 0)`: cut to `n` bytes, or padded with
/// zeros up to `n` bytes.
pub open spec fn resized(buf: Seq<u8>, n: int) -> Seq<u8> {
    if n <= buf.len() {
        buf.subrange(0, n)
    } else {
        buf + Seq::new((n - buf.len()) as nat, |i: int| 0u8)
    }
}

/// A resized buffer has exactly the new length, keeps the bytes it had up
/// to that length, and holds zeros past the old end.
pub proof fn lemma_resized(buf: Seq<u8>, n: int)
    requires
        n >= 0,
    ensures
        resized(buf, n).len() == n,
        forall|i: int| 0 <= i < n && i < buf.len() ==> #[trigger] resized(buf, n)[i] == buf[i],
        forall|i: int| buf.len() <= i < n ==> #[trigger] resized(buf, n)[i] == 0u8,
        n >= buf.len() ==> resized(buf, n).subrange(0, buf.len() as int) == buf,
        n <= buf.len() ==> resized(buf, n) == buf.subrange(0, n),
{
    if n >= buf.len() {
        assert(resized(buf, n).subrange(0, buf.len() as int) =~= buf);
    }
}

/// Resize a byte buffer to `n` bytes, padding with zeros: how the ICC
/// profile, pixel and preview buffers are sized to the sizes the codec
/// reports, and how the JPEG and output buffers grow.
pub fn resize_bytes(buf: &mut Vec<u8>, n: usize)
    ensures
        final(buf)@ == resized(old(buf)@, n as int),
        final(buf)@.len() == n,
        forall|i: int| 0 <= i < n && i < old(buf)@.len() ==> #[trigger] final(buf)@[i] == old(
            buf,
        )@[i],
        forall|i: int| old(buf)@.len() <= i < n ==> #[trigger] final(buf)@[i] == 0u8,
{
    proof {
        lemma_resized(old(buf)@, n as int);
    }
    buf.resize(n, 0u8);
    proof {
        if n > old(buf)@.len() {
            assert forall|i: int| old(buf)@.len() <= i < n implies #[trigger] final(buf)@[i] == 0u8 by {
                assert(vstd::pervasive::cloned::<u8>(0u8, final(buf)@[i]));
            }
            assert(final(buf)@ =~= resized(old(buf)@, n as int)) by {
                assert forall|i: int| 0 <= i < n implies #[trigger] final(buf)@[i] == resized(
                    old(buf)@,
                    n as int,
                )[i] by {
                    if i < old(buf)@.len() {
                        assert(final(buf)@.subrange(0, old(buf)@.len() as int)[i] == final(buf)@[i]);
                    }
                }
            }
        }
    }
}

} // verus!
