//! Bidirectional mapping between symbolic event kinds and the kernel's
//! change-notification mask bits.
//!
//! `encode_mask` builds the registration mask for a requested set of kinds;
//! `decode_mask` turns a kernel-reported result mask back into kinds, in a
//! fixed canonical scan order, falling back to `Unknown` when no recognized
//! bit is set. Both are pure and side-effect free.

use vstd::prelude::*;

use crate::events::EventKind;

verus! {

/// Kernel mask bit: a file was read.
pub const MASK_ACCESS: u32 = 0x0000_0001;
/// Kernel mask bit: a file was written.
pub const MASK_MODIFY: u32 = 0x0000_0002;
/// Kernel mask bit: metadata changed.
pub const MASK_ATTRIB: u32 = 0x0000_0004;
/// Kernel mask bit: a writable file was closed.
pub const MASK_CLOSE_WRITE: u32 = 0x0000_0008;
/// Kernel mask bit: a non-writable file was closed.
pub const MASK_CLOSE_NOWRITE: u32 = 0x0000_0010;
/// Kernel mask bit: a file was opened.
pub const MASK_OPEN: u32 = 0x0000_0020;
/// Kernel mask bit: a file was moved out of the watched directory.
pub const MASK_MOVED_FROM: u32 = 0x0000_0040;
/// Kernel mask bit: a file was moved into the watched directory.
pub const MASK_MOVED_TO: u32 = 0x0000_0080;
/// Kernel mask bit: a file or directory was created.
pub const MASK_CREATE: u32 = 0x0000_0100;
/// Kernel mask bit: a file or directory was deleted.
pub const MASK_DELETE: u32 = 0x0000_0200;
/// Kernel mask bit (report-only): the watch was removed.
pub const MASK_IGNORED: u32 = 0x0000_8000;
/// Kernel mask bit (report-only): the subject of the event is a directory.
pub const MASK_ISDIR: u32 = 0x4000_0000;

/// Every mask bit the decoder recognizes.
pub const MASK_RECOGNIZED: u32 = 0x4000_83ff;

/// The registration-mask bit for a kind, or 0 for kinds that cannot be
/// requested (`WatchRemoved` and `IsDir` are report-only; `Unknown` stands
/// for no bit at all).
pub open spec fn spec_watch_bit(k: EventKind) -> u32 {
    match k {
        EventKind::Create => MASK_CREATE,
        EventKind::Modify => MASK_MODIFY,
        EventKind::Delete => MASK_DELETE,
        EventKind::MovedFrom => MASK_MOVED_FROM,
        EventKind::MovedTo => MASK_MOVED_TO,
        EventKind::Access => MASK_ACCESS,
        EventKind::Attrib => MASK_ATTRIB,
        EventKind::CloseWrite => MASK_CLOSE_WRITE,
        EventKind::CloseNoWrite => MASK_CLOSE_NOWRITE,
        EventKind::Open => MASK_OPEN,
        EventKind::WatchRemoved => 0u32,
        EventKind::IsDir => 0u32,
        EventKind::Unknown => 0u32,
    }
}

/// A kind the encoder can express in a registration mask.
pub open spec fn encodable(k: EventKind) -> bool {
    spec_watch_bit(k) != 0u32
}

/// The registration mask for a requested sequence of kinds: the bitwise OR
/// of each kind's watch bit. Unsupported kinds contribute nothing.
pub open spec fn spec_encode(ks: Seq<EventKind>) -> u32
    decreases ks.len(),
{
    if ks.len() == 0 {
        0u32
    } else {
        spec_encode(ks.drop_last()) | spec_watch_bit(ks.last())
    }
}

/// Whether the reported mask `m` has the recognized bit `bit` set.
pub open spec fn mask_has(m: u32, bit: u32) -> bool {
    m & bit != 0u32
}

/// The kinds whose bits are set in `m`, in the canonical scan order.
pub open spec fn spec_decoded_known(m: u32) -> Seq<EventKind> {
    let s = Seq::<EventKind>::empty();
    let s = if mask_has(m, MASK_CREATE) { s.push(EventKind::Create) } else { s };
    let s = if mask_has(m, MASK_MODIFY) { s.push(EventKind::Modify) } else { s };
    let s = if mask_has(m, MASK_DELETE) { s.push(EventKind::Delete) } else { s };
    let s = if mask_has(m, MASK_MOVED_FROM) { s.push(EventKind::MovedFrom) } else { s };
    let s = if mask_has(m, MASK_MOVED_TO) { s.push(EventKind::MovedTo) } else { s };
    let s = if mask_has(m, MASK_ACCESS) { s.push(EventKind::Access) } else { s };
    let s = if mask_has(m, MASK_ATTRIB) { s.push(EventKind::Attrib) } else { s };
    let s = if mask_has(m, MASK_CLOSE_WRITE) { s.push(EventKind::CloseWrite) } else { s };
    let s = if mask_has(m, MASK_CLOSE_NOWRITE) { s.push(EventKind::CloseNoWrite) } else { s };
    let s = if mask_has(m, MASK_OPEN) { s.push(EventKind::Open) } else { s };
    let s = if mask_has(m, MASK_IGNORED) { s.push(EventKind::WatchRemoved) } else { s };
    let s = if mask_has(m, MASK_ISDIR) { s.push(EventKind::IsDir) } else { s };
    s
}

/// The decoded kinds for a reported mask: the recognized kinds in canonical
/// order, or the single kind `Unknown` when no recognized bit is set. Never
/// empty.
pub open spec fn spec_decode(m: u32) -> Seq<EventKind> {
    if spec_decoded_known(m).len() == 0 {
        seq![EventKind::Unknown]
    } else {
        spec_decoded_known(m)
    }
}

/// The registration-mask bit for one kind (0 when the kind cannot be
/// requested).
pub fn watch_bit(k: EventKind) -> (b: u32)
    ensures
        b == spec_watch_bit(k),
{
    match k {
        EventKind::Create => MASK_CREATE,
        EventKind::Modify => MASK_MODIFY,
        EventKind::Delete => MASK_DELETE,
        EventKind::MovedFrom => MASK_MOVED_FROM,
        EventKind::MovedTo => MASK_MOVED_TO,
        EventKind::Access => MASK_ACCESS,
        EventKind::Attrib => MASK_ATTRIB,
        EventKind::CloseWrite => MASK_CLOSE_WRITE,
        EventKind::CloseNoWrite => MASK_CLOSE_NOWRITE,
        EventKind::Open => MASK_OPEN,
        EventKind::WatchRemoved => 0u32,
        EventKind::IsDir => 0u32,
        EventKind::Unknown => 0u32,
    }
}

/// Build the kernel registration mask for a requested list of kinds.
///
/// Kinds the encoder cannot express are silently ignored: the request is
/// advisory, not validated against capability.
pub fn encode_mask(kinds: &Vec<EventKind>) -> (m: u32)
    ensures
        m == spec_encode(kinds@),
{
    let mut m: u32 = 0;
    let mut i: usize = 0;
    while i < kinds.len()
        invariant
            i <= kinds.len(),
            m == spec_encode(kinds@.take(i as int)),
        decreases kinds.len() - i,
    {
        proof {
            assert(kinds@.take(i + 1).drop_last() =~= kinds@.take(i as int));
            assert(kinds@.take(i + 1).last() == kinds@[i as int]);
        }
        m = m | watch_bit(kinds[i]);
        i = i + 1;
    }
    proof {
        assert(kinds@.take(kinds@.len() as int) =~= kinds@);
    }
    m
}

/// Decode a kernel-reported result mask into the kinds it names, in the
/// canonical scan order; a mask with no recognized bit decodes to the single
/// kind `Unknown`. The result is never empty.
pub fn decode_mask(m: u32) -> (ks: Vec<EventKind>)
    ensures
        ks@ == spec_decode(m),
        ks@.len() >= 1,
{
    let mut ks: Vec<EventKind> = Vec::new();
    if m & MASK_CREATE != 0 {
        ks.push(EventKind::Create);
    }
    if m & MASK_MODIFY != 0 {
        ks.push(EventKind::Modify);
    }
    if m & MASK_DELETE != 0 {
        ks.push(EventKind::Delete);
    }
    if m & MASK_MOVED_FROM != 0 {
        ks.push(EventKind::MovedFrom);
    }
    if m & MASK_MOVED_TO != 0 {
        ks.push(EventKind::MovedTo);
    }
    if m & MASK_ACCESS != 0 {
        ks.push(EventKind::Access);
    }
    if m & MASK_ATTRIB != 0 {
        ks.push(EventKind::Attrib);
    }
    if m & MASK_CLOSE_WRITE != 0 {
        ks.push(EventKind::CloseWrite);
    }
    if m & MASK_CLOSE_NOWRITE != 0 {
        ks.push(EventKind::CloseNoWrite);
    }
    if m & MASK_OPEN != 0 {
        ks.push(EventKind::Open);
    }
    if m & MASK_IGNORED != 0 {
        ks.push(EventKind::WatchRemoved);
    }
    if m & MASK_ISDIR != 0 {
        ks.push(EventKind::IsDir);
    }
    proof {
        assert(ks@ =~= spec_decoded_known(m));
    }
    if ks.len() == 0 {
        ks.push(EventKind::Unknown);
        proof {
            assert(ks@ =~= seq![EventKind::Unknown]);
        }
    }
    ks
}

/// Unknown fallback: a reported mask in which no recognized bit is set
/// decodes to exactly the single kind `Unknown` — never to an empty
/// sequence.
pub proof fn lemma_unknown_fallback(m: u32)
    requires
        m & MASK_RECOGNIZED == 0u32,
    ensures
        spec_decode(m) =~= seq![EventKind::Unknown],
{
    assert((m & 0x4000_83ffu32 == 0u32) ==> (m & 0x0000_0001u32 == 0u32 && m
        & 0x0000_0002u32 == 0u32 && m & 0x0000_0004u32 == 0u32 && m & 0x0000_0008u32 == 0u32 && m
        & 0x0000_0010u32 == 0u32 && m & 0x0000_0020u32 == 0u32 && m & 0x0000_0040u32 == 0u32 && m
        & 0x0000_0080u32 == 0u32 && m & 0x0000_0100u32 == 0u32 && m & 0x0000_0200u32 == 0u32 && m
        & 0x0000_8000u32 == 0u32 && m & 0x4000_0000u32 == 0u32)) by (bit_vector);
}

/// The decoder never yields an empty sequence, whatever the reported mask.
pub proof fn lemma_decode_nonempty(m: u32)
    ensures
        spec_decode(m).len() >= 1,
{
}

/// Mask round-trip: for every kind the encoder can express in a
/// registration mask, decoding the mask built from that one kind yields
/// exactly that kind — no extras, no drops. Report-only kinds
/// (`WatchRemoved`, `IsDir`) and `Unknown` carry no registration bit and are
/// exempt.
pub proof fn lemma_mask_round_trip(k: EventKind)
    requires
        encodable(k),
    ensures
        spec_decode(spec_encode(seq![k])) =~= seq![k],
{
    let m = spec_encode(seq![k]);
    assert(seq![k].drop_last().len() == 0);
    assert(spec_encode(seq![k].drop_last()) == 0u32);
    assert(seq![k].last() == k);
    assert(m == 0u32 | spec_watch_bit(k));
    match k {
        EventKind::Create => {
            assert(0u32 | 0x0000_0100u32 == 0x0000_0100u32 && 0x0000_0100u32
                & 0x0000_0100u32 != 0u32 && 0x0000_0100u32 & 0x0000_0001u32 == 0u32
                && 0x0000_0100u32 & 0x0000_0002u32 == 0u32 && 0x0000_0100u32 & 0x0000_0004u32
                == 0u32 && 0x0000_0100u32 & 0x0000_0008u32 == 0u32 && 0x0000_0100u32
                & 0x0000_0010u32 == 0u32 && 0x0000_0100u32 & 0x0000_0020u32 == 0u32
                && 0x0000_0100u32 & 0x0000_0040u32 == 0u32 && 0x0000_0100u32 & 0x0000_0080u32
                == 0u32 && 0x0000_0100u32 & 0x0000_0200u32 == 0u32 && 0x0000_0100u32
                & 0x0000_8000u32 == 0u32 && 0x0000_0100u32 & 0x4000_0000u32 == 0u32) by (
            bit_vector);
        },
        EventKind::Modify => {
            assert(0u32 | 0x0000_0002u32 == 0x0000_0002u32 && 0x0000_0002u32
                & 0x0000_0002u32 != 0u32 && 0x0000_0002u32 & 0x0000_0001u32 == 0u32
                && 0x0000_0002u32 & 0x0000_0004u32 == 0u32 && 0x0000_0002u32 & 0x0000_0008u32
                == 0u32 && 0x0000_0002u32 & 0x0000_0010u32 == 0u32 && 0x0000_0002u32
                & 0x0000_0020u32 == 0u32 && 0x0000_0002u32 & 0x0000_0040u32 == 0u32
                && 0x0000_0002u32 & 0x0000_0080u32 == 0u32 && 0x0000_0002u32 & 0x0000_0100u32
                == 0u32 && 0x0000_0002u32 & 0x0000_0200u32 == 0u32 && 0x0000_0002u32
                & 0x0000_8000u32 == 0u32 && 0x0000_0002u32 & 0x4000_0000u32 == 0u32) by (
            bit_vector);
        },
        EventKind::Delete => {
            assert(0u32 | 0x0000_0200u32 == 0x0000_0200u32 && 0x0000_0200u32
                & 0x0000_0200u32 != 0u32 && 0x0000_0200u32 & 0x0000_0001u32 == 0u32
                && 0x0000_0200u32 & 0x0000_0002u32 == 0u32 && 0x0000_0200u32 & 0x0000_0004u32
                == 0u32 && 0x0000_0200u32 & 0x0000_0008u32 == 0u32 && 0x0000_0200u32
                & 0x0000_0010u32 == 0u32 && 0x0000_0200u32 & 0x0000_0020u32 == 0u32
                && 0x0000_0200u32 & 0x0000_0040u32 == 0u32 && 0x0000_0200u32 & 0x0000_0080u32
                == 0u32 && 0x0000_0200u32 & 0x0000_0100u32 == 0u32 && 0x0000_0200u32
                & 0x0000_8000u32 == 0u32 && 0x0000_0200u32 & 0x4000_0000u32 == 0u32) by (
            bit_vector);
        },
        EventKind::MovedFrom => {
            assert(0u32 | 0x0000_0040u32 == 0x0000_0040u32 && 0x0000_0040u32
                & 0x0000_0040u32 != 0u32 && 0x0000_0040u32 & 0x0000_0001u32 == 0u32
                && 0x0000_0040u32 & 0x0000_0002u32 == 0u32 && 0x0000_0040u32 & 0x0000_0004u32
                == 0u32 && 0x0000_0040u32 & 0x0000_0008u32 == 0u32 && 0x0000_0040u32
                & 0x0000_0010u32 == 0u32 && 0x0000_0040u32 & 0x0000_0020u32 == 0u32
                && 0x0000_0040u32 & 0x0000_0080u32 == 0u32 && 0x0000_0040u32 & 0x0000_0100u32
                == 0u32 && 0x0000_0040u32 & 0x0000_0200u32 == 0u32 && 0x0000_0040u32
                & 0x0000_8000u32 == 0u32 && 0x0000_0040u32 & 0x4000_0000u32 == 0u32) by (
            bit_vector);
        },
        EventKind::MovedTo => {
            assert(0u32 | 0x0000_0080u32 == 0x0000_0080u32 && 0x0000_0080u32
                & 0x0000_0080u32 != 0u32 && 0x0000_0080u32 & 0x0000_0001u32 == 0u32
                && 0x0000_0080u32 & 0x0000_0002u32 == 0u32 && 0x0000_0080u32 & 0x0000_0004u32
                == 0u32 && 0x0000_0080u32 & 0x0000_0008u32 == 0u32 && 0x0000_0080u32
                & 0x0000_0010u32 == 0u32 && 0x0000_0080u32 & 0x0000_0020u32 == 0u32
                && 0x0000_0080u32 & 0x0000_0040u32 == 0u32 && 0x0000_0080u32 & 0x0000_0100u32
                == 0u32 && 0x0000_0080u32 & 0x0000_0200u32 == 0u32 && 0x0000_0080u32
                & 0x0000_8000u32 == 0u32 && 0x0000_0080u32 & 0x4000_0000u32 == 0u32) by (
            bit_vector);
        },
        EventKind::Access => {
            assert(0u32 | 0x0000_0001u32 == 0x0000_0001u32 && 0x0000_0001u32
                & 0x0000_0001u32 != 0u32 && 0x0000_0001u32 & 0x0000_0002u32 == 0u32
                && 0x0000_0001u32 & 0x0000_0004u32 == 0u32 && 0x0000_0001u32 & 0x0000_0008u32
                == 0u32 && 0x0000_0001u32 & 0x0000_0010u32 == 0u32 && 0x0000_0001u32
                & 0x0000_0020u32 == 0u32 && 0x0000_0001u32 & 0x0000_0040u32 == 0u32
                && 0x0000_0001u32 & 0x0000_0080u32 == 0u32 && 0x0000_0001u32 & 0x0000_0100u32
                == 0u32 && 0x0000_0001u32 & 0x0000_0200u32 == 0u32 && 0x0000_0001u32
                & 0x0000_8000u32 == 0u32 && 0x0000_0001u32 & 0x4000_0000u32 == 0u32) by (
            bit_vector);
        },
        EventKind::Attrib => {
            assert(0u32 | 0x0000_0004u32 == 0x0000_0004u32 && 0x0000_0004u32
                & 0x0000_0004u32 != 0u32 && 0x0000_0004u32 & 0x0000_0001u32 == 0u32
                && 0x0000_0004u32 & 0x0000_0002u32 == 0u32 && 0x0000_0004u32 & 0x0000_0008u32
                == 0u32 && 0x0000_0004u32 & 0x0000_0010u32 == 0u32 && 0x0000_0004u32
                & 0x0000_0020u32 == 0u32 && 0x0000_0004u32 & 0x0000_0040u32 == 0u32
                && 0x0000_0004u32 & 0x0000_0080u32 == 0u32 && 0x0000_0004u32 & 0x0000_0100u32
                == 0u32 && 0x0000_0004u32 & 0x0000_0200u32 == 0u32 && 0x0000_0004u32
                & 0x0000_8000u32 == 0u32 && 0x0000_0004u32 & 0x4000_0000u32 == 0u32) by (
            bit_vector);
        },
        EventKind::CloseWrite => {
            assert(0u32 | 0x0000_0008u32 == 0x0000_0008u32 && 0x0000_0008u32
                & 0x0000_0008u32 != 0u32 && 0x0000_0008u32 & 0x0000_0001u32 == 0u32
                && 0x0000_0008u32 & 0x0000_0002u32 == 0u32 && 0x0000_0008u32 & 0x0000_0004u32
                == 0u32 && 0x0000_0008u32 & 0x0000_0010u32 == 0u32 && 0x0000_0008u32
                & 0x0000_0020u32 == 0u32 && 0x0000_0008u32 & 0x0000_0040u32 == 0u32
                && 0x0000_0008u32 & 0x0000_0080u32 == 0u32 && 0x0000_0008u32 & 0x0000_0100u32
                == 0u32 && 0x0000_0008u32 & 0x0000_0200u32 == 0u32 && 0x0000_0008u32
                & 0x0000_8000u32 == 0u32 && 0x0000_0008u32 & 0x4000_0000u32 == 0u32) by (
            bit_vector);
        },
        EventKind::CloseNoWrite => {
            assert(0u32 | 0x0000_0010u32 == 0x0000_0010u32 && 0x0000_0010u32
                & 0x0000_0010u32 != 0u32 && 0x0000_0010u32 & 0x0000_0001u32 == 0u32
                && 0x0000_0010u32 & 0x0000_0002u32 == 0u32 && 0x0000_0010u32 & 0x0000_0004u32
                == 0u32 && 0x0000_0010u32 & 0x0000_0008u32 == 0u32 && 0x0000_0010u32
                & 0x0000_0020u32 == 0u32 && 0x0000_0010u32 & 0x0000_0040u32 == 0u32
                && 0x0000_0010u32 & 0x0000_0080u32 == 0u32 && 0x0000_0010u32 & 0x0000_0100u32
                == 0u32 && 0x0000_0010u32 & 0x0000_0200u32 == 0u32 && 0x0000_0010u32
                & 0x0000_8000u32 == 0u32 && 0x0000_0010u32 & 0x4000_0000u32 == 0u32) by (
            bit_vector);
        },
        EventKind::Open => {
            assert(0u32 | 0x0000_0020u32 == 0x0000_0020u32 && 0x0000_0020u32
                & 0x0000_0020u32 != 0u32 && 0x0000_0020u32 & 0x0000_0001u32 == 0u32
                && 0x0000_0020u32 & 0x0000_0002u32 == 0u32 && 0x0000_0020u32 & 0x0000_0004u32
                == 0u32 && 0x0000_0020u32 & 0x0000_0008u32 == 0u32 && 0x0000_0020u32
                & 0x0000_0010u32 == 0u32 && 0x0000_0020u32 & 0x0000_0040u32 == 0u32
                && 0x0000_0020u32 & 0x0000_0080u32 == 0u32 && 0x0000_0020u32 & 0x0000_0100u32
                == 0u32 && 0x0000_0020u32 & 0x0000_0200u32 == 0u32 && 0x0000_0020u32
                & 0x0000_8000u32 == 0u32 && 0x0000_0020u32 & 0x4000_0000u32 == 0u32) by (
            bit_vector);
        },
        EventKind::WatchRemoved => {
            assert(false);
        },
        EventKind::IsDir => {
            assert(false);
        },
        EventKind::Unknown => {
            assert(false);
        },
    }
}

} // verus!
