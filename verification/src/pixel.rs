//! Pixel normalization: fix the channel order the bitmap readout
//! delivers, and a known alpha defect of older platform versions.

use vstd::prelude::*;
use vstd::pervasive::VecAdditionalExecFns;

verus! {

/// The alpha byte after normalization. Before major version 8 some
/// capture paths leave alpha at zero for fully opaque pixels, so a zero
/// alpha is forced to fully opaque there; from major version 8 on a zero
/// alpha is meaningful transparency and is preserved. (The fix-up is a
/// documented approximation: a legitimately transparent pixel on an old
/// platform is also forced opaque.)
pub open spec fn normalized_alpha(alpha: u8, os_major_version: u8) -> u8 {
    if alpha == 0 && os_major_version < 8 {
        255u8
    } else {
        alpha
    }
}

/// Pixel `p` of `new` is pixel `p` of `old` with channel bytes 0 and 2
/// swapped (blue-green-red-alpha to red-green-blue-alpha) and its alpha
/// normalized.
pub open spec fn pixel_normalized(old: Seq<u8>, new: Seq<u8>, os_major_version: u8, p: int) -> bool
    recommends
        0 <= p,
        4 * p + 4 <= old.len(),
        old.len() == new.len(),
{
    &&& new[4 * p] == old[4 * p + 2]
    &&& new[4 * p + 1] == old[4 * p + 1]
    &&& new[4 * p + 2] == old[4 * p]
    &&& new[4 * p + 3] == normalized_alpha(old[4 * p + 3], os_major_version)
}

/// Byte `i` of the normalized buffer, as a function of the raw buffer:
/// within each 4-byte pixel, bytes 0 and 2 trade places and byte 3 gets
/// its alpha normalized.
pub open spec fn normalized_byte(buf: Seq<u8>, os_major_version: u8, i: int) -> u8
    recommends
        0 <= i < buf.len(),
        buf.len() % 4 == 0,
{
    let p = i / 4;
    let k = i % 4;
    if k == 0 {
        buf[4 * p + 2]
    } else if k == 2 {
        buf[4 * p]
    } else if k == 3 {
        normalized_alpha(buf[i], os_major_version)
    } else {
        buf[i]
    }
}

/// The whole buffer after normalization.
pub open spec fn normalized_seq(buf: Seq<u8>, os_major_version: u8) -> Seq<u8> {
    Seq::new(buf.len(), |i: int| normalized_byte(buf, os_major_version, i))
}

/// The per-pixel normalization facts pin the whole normalized buffer
/// down, byte for byte, whenever the byte count is a whole number of
/// pixels.
pub proof fn lemma_normalized_seq(old: Seq<u8>, new: Seq<u8>, os_major_version: u8)
    requires
        old.len() % 4 == 0,
        new.len() == old.len(),
        forall|p: int|
            0 <= p && 4 * p + 4 <= old.len() ==> #[trigger] pixel_normalized(
                old,
                new,
                os_major_version,
                p,
            ),
    ensures
        new == normalized_seq(old, os_major_version),
{
    assert forall|i: int| 0 <= i < new.len() implies new[i] == normalized_seq(
        old,
        os_major_version,
    )[i] by {
        let p = i / 4;
        let k = i % 4;
        vstd::arithmetic::div_mod::lemma_fundamental_div_mod(i, 4);
        vstd::arithmetic::div_mod::lemma_mod_bound(i, 4);
        vstd::arithmetic::div_mod::lemma_fundamental_div_mod(old.len() as int, 4);
        assert(4 * p + 4 <= old.len());
        assert(pixel_normalized(old, new, os_major_version, p));
    }
    assert(new =~= normalized_seq(old, os_major_version));
}

/// Normalize every complete 4-byte pixel of `buffer` in place; any
/// trailing bytes short of a full pixel are left untouched.
pub fn normalize_pixels(buffer: &mut Vec<u8>, os_major_version: u8)
    ensures
        final(buffer)@.len() == old(buffer)@.len(),
        forall|p: int|
            0 <= p && 4 * p + 4 <= old(buffer)@.len() ==> #[trigger] pixel_normalized(
                old(buffer)@,
                final(buffer)@,
                os_major_version,
                p,
            ),
        forall|j: int|
            0 <= j < old(buffer)@.len() && j >= 4 * (old(buffer)@.len() / 4) ==> final(buffer)@[j]
                == old(buffer)@[j],
        old(buffer)@.len() % 4 == 0 ==> final(buffer)@ == normalized_seq(
            old(buffer)@,
            os_major_version,
        ),
{
    let len: usize = buffer.len();
    let mut i: usize = 0;
    while len - i >= 4
        invariant
            i % 4 == 0,
            i <= len,
            len == buffer@.len(),
            len == old(buffer)@.len(),
            forall|p: int|
                0 <= p && 4 * p < i ==> #[trigger] pixel_normalized(
                    old(buffer)@,
                    buffer@,
                    os_major_version,
                    p,
                ),
            forall|j: int| i <= j < len ==> buffer@[j] == old(buffer)@[j],
        decreases len - i,
    {
        let ghost head = buffer@;
        let b0 = buffer[i];
        let b2 = buffer[i + 2];
        buffer.set(i, b2);
        buffer.set(i + 2, b0);
        let a = buffer[i + 3];
        if a == 0 && os_major_version < 8 {
            buffer.set(i + 3, 255);
        }
        proof {
            let p0 = i as int / 4;
            vstd::arithmetic::div_mod::lemma_fundamental_div_mod(i as int, 4);
            assert(4 * p0 == i);
            assert(pixel_normalized(old(buffer)@, buffer@, os_major_version, p0));
            assert forall|p: int| 0 <= p && 4 * p < i + 4 implies #[trigger] pixel_normalized(
                old(buffer)@,
                buffer@,
                os_major_version,
                p,
            ) by {
                if 4 * p < i {
                    assert(pixel_normalized(old(buffer)@, head, os_major_version, p));
                    assert(4 * p + 4 <= i);
                    assert(buffer@[4 * p] == head[4 * p]);
                    assert(buffer@[4 * p + 1] == head[4 * p + 1]);
                    assert(buffer@[4 * p + 2] == head[4 * p + 2]);
                    assert(buffer@[4 * p + 3] == head[4 * p + 3]);
                } else {
                    assert(p == p0);
                }
            }
        }
        i = i + 4;
    }
    proof {
        vstd::arithmetic::div_mod::lemma_fundamental_div_mod(len as int, 4);
        vstd::arithmetic::div_mod::lemma_fundamental_div_mod(i as int, 4);
        assert(i == 4 * (len as int / 4));
        if len as int % 4 == 0 {
            lemma_normalized_seq(old(buffer)@, buffer@, os_major_version);
        }
    }
}

} // verus!
