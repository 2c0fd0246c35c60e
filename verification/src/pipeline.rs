//! The interrupt timing pipelines.
//!
//! A pipeline is a 16-bit shift register paired with a fixed recognition
//! mask. A pin assertion is latched as one bit near the input end; every
//! non-stalled cycle the register shifts one position toward the recognition
//! window; the interrupt is serviceable while any latched bit sits under the
//! mask. Bits shifted past the register width are lost: a request simply
//! ages out of its window, as on the physical chip. The maskable-interrupt
//! window covers exactly one bit position; the non-maskable window covers a
//! contiguous range of trailing positions, the chip's more forgiving
//! edge-triggered recognition.

use vstd::prelude::*;

verus! {

/// The bit latched into the register when a request pin is active.
pub const PIPELINE_INPUT_BIT: u16 = 0x0100;

/// Everything below this boundary survives a trim; bits at or above the
/// recognition windows are cleared so an accepted request cannot be
/// recognized twice.
pub const PIPELINE_TRIM_MASK: u16 = 0x03ff;

/// The recognition mask of the maskable-interrupt pipeline: a single bit
/// position, the chip's exact-timing polling point.
pub const IRQ_MASK: u16 = 0x0400;

/// The recognition mask of the non-maskable-interrupt pipeline: a contiguous
/// range of trailing positions, the chip's wider tolerance.
pub const NMI_MASK: u16 = 0xfc00;

/// A timing pipeline controlling when one class of interrupt is serviced.
#[derive(Debug, Clone, Copy, PartialEq, Eq, Structural)]
pub struct Pipeline {
    /// The fixed recognition mask of this pipeline.
    pub mask: u16,
    /// The shift register holding the latched request history.
    pub data: u16,
}

impl Pipeline {
    /// An empty pipeline with the given recognition mask.
    pub fn new(mask: u16) -> (r: Pipeline)
        ensures
            r.mask == mask,
            r.data == 0,
    {
        Pipeline { mask, data: 0 }
    }

    /// Latches a request onto the pipeline if its pin is active this cycle.
    ///
    /// Only the fixed input bit is ever set, by OR: repeated assertions
    /// before a shift still set that one bit.
    pub fn register_with(&mut self, pin: bool)
        ensures
            final(self).mask == old(self).mask,
            final(self).data == (if pin {
                old(self).data | PIPELINE_INPUT_BIT
            } else {
                old(self).data
            }),
    {
        if pin {
            self.data = self.data | PIPELINE_INPUT_BIT;
        }
    }

    /// Reports whether the interrupt of this pipeline can be serviced: true
    /// iff any bit under the recognition mask is set.
    #[must_use]
    pub fn is_serviceable(&self) -> (r: bool)
        ensures
            r == ((self.data & self.mask) != 0),
    {
        self.data & self.mask != 0
    }

    /// Clears every bit at or above the recognition boundary, so the
    /// request just accepted cannot be serviced again.
    pub fn trim(&mut self)
        ensures
            final(self).mask == old(self).mask,
            final(self).data == (old(self).data & PIPELINE_TRIM_MASK),
    {
        self.data = self.data & PIPELINE_TRIM_MASK;
    }

    /// Shifts the latched history one position toward the recognition
    /// window; the topmost bit is lost.
    pub fn shift(&mut self)
        ensures
            final(self).mask == old(self).mask,
            final(self).data == (old(self).data << 1u16),
    {
        self.data = self.data << 1u16;
    }

    /// Reverses one shift, for a cycle retroactively treated as not having
    /// happened; must be called at most once per uncommitted shift.
    pub fn undo(&mut self)
        ensures
            final(self).mask == old(self).mask,
            final(self).data == (old(self).data >> 1u16),
    {
        self.data = self.data >> 1u16;
    }
}

/// The register value after `k` shifts of `d`.
pub open spec fn shifted(d: u16, k: nat) -> u16
    decreases k,
{
    if k == 0 {
        d
    } else {
        shifted(d, (k - 1) as nat) << 1u16
    }
}

/// Law: a shift followed by an undo restores the register exactly, for any
/// register value whose topmost bit is clear (a set topmost bit is lost by
/// the shift and cannot be restored). The latched input bit set by a
/// registration before the pair is preserved with the rest.
pub proof fn lemma_register_shift_undo(d: u16, pin: bool)
    requires
        d & 0x8000 == 0,
    ensures
        (((if pin {
            d | PIPELINE_INPUT_BIT
        } else {
            d
        }) << 1u16) >> 1u16) == (if pin {
            d | PIPELINE_INPUT_BIT
        } else {
            d
        }),
{
    if pin {
        assert(d & 0x8000 == 0 ==> (((d | 0x0100u16) << 1u16) >> 1u16) == (d | 0x0100u16))
            by (bit_vector);
    } else {
        assert(d & 0x8000 == 0 ==> ((d << 1u16) >> 1u16) == d) by (bit_vector);
    }
}

/// Law: a single latched request, starting from an empty register, is under
/// the maskable-interrupt recognition window after exactly two shifts, and
/// under it at no other time — the single-cycle exact-timing window.
pub proof fn lemma_irq_recognition_window(k: nat)
    ensures
        ((shifted(PIPELINE_INPUT_BIT, k) & IRQ_MASK) != 0) <==> (k == 2),
{
    lemma_shifted_is_power(k);
    if k < 8 {
        let kk = k as u16;
        assert(kk < 8 ==> (((0x0100u16 << kk) & 0x0400u16 != 0) <==> (kk == 2)))
            by (bit_vector);
    } else {
        assert((0u16 & 0x0400u16) == 0) by (bit_vector);
    }
}

/// Law: a single latched request, starting from an empty register, sits
/// under the non-maskable recognition window from two to seven shifts after
/// the latch — the wider, more forgiving window — and outside it before and
/// after.
pub proof fn lemma_nmi_recognition_window(k: nat)
    ensures
        ((shifted(PIPELINE_INPUT_BIT, k) & NMI_MASK) != 0) <==> (2 <= k <= 7),
{
    lemma_shifted_is_power(k);
    if k < 8 {
        let kk = k as u16;
        assert(kk < 8 ==> (((0x0100u16 << kk) & 0xfc00u16 != 0) <==> (2 <= kk <= 7)))
            by (bit_vector);
    } else {
        assert((0u16 & 0xfc00u16) == 0) by (bit_vector);
    }
}

/// The single latched bit after `k` shifts: still a single bit `k` positions
/// higher, or gone once shifted past the register width.
proof fn lemma_shifted_is_power(k: nat)
    ensures
        k < 8 ==> shifted(PIPELINE_INPUT_BIT, k) == (0x0100u16 << (k as u16)),
        k >= 8 ==> shifted(PIPELINE_INPUT_BIT, k) == 0,
    decreases k,
{
    if k == 0 {
        assert(0x0100u16 << 0u16 == 0x0100u16) by (bit_vector);
    } else {
        lemma_shifted_is_power((k - 1) as nat);
        if k < 8 {
            let j = (k - 1) as u16;
            assert(j < 7 ==> ((0x0100u16 << j) << 1u16) == (0x0100u16 << ((j + 1) as u16)))
                by (bit_vector);
        } else if k == 8 {
            assert(((0x0100u16 << 7u16) << 1u16) == 0) by (bit_vector);
        } else {
            assert((0u16 << 1u16) == 0) by (bit_vector);
        }
    }
}

} // verus!
