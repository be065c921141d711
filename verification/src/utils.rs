//! Functions that need neither a decoder nor an encoder.

use vstd::prelude::*;

use crate::types::JxlSignature;

verus! {

/// The twelve bytes that open a JPEG XL container: the signature box.
pub open spec fn container_signature() -> Seq<u8> {
    seq![0x00u8, 0x00, 0x00, 0x0C, 0x4A, 0x58, 0x4C, 0x20, 0x0D, 0x0A, 0x87, 0x0A]
}

/// Whether a byte stream opens with the signature of a bare codestream,
/// the two bytes `FF 0A`.
pub open spec fn starts_with_codestream(buf: Seq<u8>) -> bool {
    buf.len() >= 2 && buf[0] == 0xFFu8 && buf[1] == 0x0Au8
}

/// Whether a byte stream opens with the twelve bytes of the container
/// signature box.
pub open spec fn starts_with_container(buf: Seq<u8>) -> bool {
    buf.len() >= 12 && buf.subrange(0, 12) == container_signature()
}

/// Whether a byte stream is too short to tell: it is empty, or it opens
/// like one of the two signatures and is shorter than it.
pub open spec fn too_short_for_signature(buf: Seq<u8>) -> bool {
    ||| buf.len() == 0
    ||| (buf[0] == 0xFFu8 && buf.len() < 2)
    ||| (buf[0] == 0x00u8 && buf.len() < 12)
}

/// The signature of a byte stream: a bare codestream starts with `FF 0A`,
/// a container starts with the signature box; a stream that starts like one
/// of them but is shorter than its signature needs more bytes.
pub open spec fn spec_signature(buf: Seq<u8>) -> JxlSignature {
    if buf.len() == 0 {
        JxlSignature::NotEnoughBytes
    } else if buf[0] == 0xFF {
        if buf.len() < 2 {
            JxlSignature::NotEnoughBytes
        } else if buf[1] == 0x0A {
            JxlSignature::Codestream
        } else {
            JxlSignature::Invalid
        }
    } else if buf[0] == 0x00 {
        if buf.len() < 12 {
            JxlSignature::NotEnoughBytes
        } else if buf.subrange(0, 12) == container_signature() {
            JxlSignature::Container
        } else {
            JxlSignature::Invalid
        }
    } else {
        JxlSignature::Invalid
    }
}

/// Check the signature of the start of a byte stream.
pub fn check_signature(buf: &[u8]) -> (r: JxlSignature)
    ensures
        r == spec_signature(buf@),
        r == JxlSignature::Codestream <==> starts_with_codestream(buf@),
        r == JxlSignature::Container <==> starts_with_container(buf@),
        r == JxlSignature::NotEnoughBytes <==> too_short_for_signature(buf@),
{
    proof {
        lemma_signature_cases(buf@);
    }
    let len = buf.len();
    if len == 0 {
        return JxlSignature::NotEnoughBytes;
    }
    if buf[0] == 0xFF {
        if len < 2 {
            JxlSignature::NotEnoughBytes
        } else if buf[1] == 0x0A {
            JxlSignature::Codestream
        } else {
            JxlSignature::Invalid
        }
    } else if buf[0] == 0x00 {
        if len < 12 {
            JxlSignature::NotEnoughBytes
        } else {
            let ok = buf[1] == 0x00 && buf[2] == 0x00 && buf[3] == 0x0C && buf[4] == 0x4A && buf[5]
                == 0x58 && buf[6] == 0x4C && buf[7] == 0x20 && buf[8] == 0x0D && buf[9] == 0x0A
                && buf[10] == 0x87 && buf[11] == 0x0A;
            proof {
                if ok {
                    assert(buf@.subrange(0, 12) =~= container_signature());
                } else {
                    assert(buf@.subrange(0, 12) != container_signature()) by {
                        if buf@.subrange(0, 12) == container_signature() {
                            assert(buf@.subrange(0, 12)[1] == buf@[1]);
                            assert(buf@.subrange(0, 12)[2] == buf@[2]);
                            assert(buf@.subrange(0, 12)[3] == buf@[3]);
                            assert(buf@.subrange(0, 12)[4] == buf@[4]);
                            assert(buf@.subrange(0, 12)[5] == buf@[5]);
                            assert(buf@.subrange(0, 12)[6] == buf@[6]);
                            assert(buf@.subrange(0, 12)[7] == buf@[7]);
                            assert(buf@.subrange(0, 12)[8] == buf@[8]);
                            assert(buf@.subrange(0, 12)[9] == buf@[9]);
                            assert(buf@.subrange(0, 12)[10] == buf@[10]);
                            assert(buf@.subrange(0, 12)[11] == buf@[11]);
                        }
                    }
                }
            }
            if ok {
                JxlSignature::Container
            } else {
                JxlSignature::Invalid
            }
        }
    } else {
        JxlSignature::Invalid
    }
}

/// What a signature says of the validity of the input: `None` when more
/// data is needed, `Some(true)` for a codestream or a container.
pub open spec fn spec_valid_signature(buf: Seq<u8>) -> Option<bool> {
    match spec_signature(buf) {
        JxlSignature::NotEnoughBytes => None,
        JxlSignature::Invalid => Some(false),
        JxlSignature::Codestream | JxlSignature::Container => Some(true),
    }
}

/// Check if the signature of the input is valid.
/// Return `None` if it needs more data.
pub fn check_valid_signature(buf: &[u8]) -> (r: Option<bool>)
    ensures
        r == spec_valid_signature(buf@),
        r == Some(true) <==> (starts_with_codestream(buf@) || starts_with_container(buf@)),
        r is None <==> too_short_for_signature(buf@),
{
    proof {
        lemma_signature_cases(buf@);
    }
    match check_signature(buf) {
        JxlSignature::NotEnoughBytes => None,
        JxlSignature::Invalid => Some(false),
        JxlSignature::Codestream | JxlSignature::Container => Some(true),
    }
}

/// The signature of a stream names its kind exactly: it is a codestream
/// when the stream opens with `FF 0A`, a container when it opens with the
/// signature box, undecided when the stream is too short to tell, and
/// invalid otherwise. So a stream is valid when, and only when, it opens with
/// a complete codestream or container signature.
pub proof fn lemma_signature_cases(buf: Seq<u8>)
    ensures
        spec_signature(buf) == JxlSignature::Codestream <==> starts_with_codestream(buf),
        spec_signature(buf) == JxlSignature::Container <==> starts_with_container(buf),
        spec_signature(buf) == JxlSignature::NotEnoughBytes <==> too_short_for_signature(buf),
        spec_valid_signature(buf) == Some(true) <==> (starts_with_codestream(buf)
            || starts_with_container(buf)),
        spec_valid_signature(buf) is None <==> too_short_for_signature(buf),
        spec_valid_signature(buf) == Some(false) <==> !(starts_with_codestream(buf)
            || starts_with_container(buf) || too_short_for_signature(buf)),
{
    if buf.len() >= 12 && buf.subrange(0, 12) == container_signature() {
        assert(buf[0] == buf.subrange(0, 12)[0]);
    }
}

/// Once the signature of a stream is decided, more bytes do not change it;
/// it is undecided only on streams shorter than twelve bytes.
pub proof fn lemma_signature_prefix_stable(buf: Seq<u8>, more: Seq<u8>)
    ensures
        spec_signature(buf) != JxlSignature::NotEnoughBytes ==> spec_signature(buf + more)
            == spec_signature(buf),
        spec_signature(buf) == JxlSignature::NotEnoughBytes ==> buf.len() < 12,
        spec_valid_signature(buf) is Some ==> spec_valid_signature(buf + more)
            == spec_valid_signature(buf),
{
    if buf.len() >= 12 {
        assert((buf + more).subrange(0, 12) =~= buf.subrange(0, 12));
    }
    if buf.len() >= 1 {
        assert((buf + more)[0] == buf[0]);
    }
    if buf.len() >= 2 {
        assert((buf + more)[1] == buf[1]);
    }
}

} // verus!
