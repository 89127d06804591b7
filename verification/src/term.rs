//! Terminal mode guard: the flag arithmetic behind raw-mode switching.
//!
//! The watcher captures the terminal's local-mode flag word, clears the
//! canonical-input and echo bits for the duration of its run, and restores
//! the captured word — bit for bit — exactly once when the run ends. A
//! process-wide abnormal-termination path instead forces the canonical and
//! echo bits back on whatever flags the terminal holds at that moment. The
//! mask (which bits mean canonical input and echo) is the platform's and is
//! passed in by the caller that talks to the terminal.

use vstd::prelude::*;

verus! {

/// The raw-mode flag word: the captured flags with the masked bits cleared.
pub open spec fn spec_raw_flags(lflag: u32, mask: u32) -> u32 {
    lflag & !mask
}

/// The forced canonical flag word: the current flags with the masked bits set.
pub open spec fn spec_canonical_flags(lflag: u32, mask: u32) -> u32 {
    lflag | mask
}

/// A captured snapshot of the terminal's local-mode flags, held so the exact
/// prior word can be restored when raw mode ends.
#[derive(Debug, Clone, Copy, PartialEq, Eq)]
pub struct TermGuard {
    pub saved: u32,
}

impl TermGuard {
    /// Capture the flags the terminal holds before raw mode begins.
    pub fn capture(current: u32) -> (guard: TermGuard)
        ensures
            guard.saved == current,
    {
        TermGuard { saved: current }
    }

    /// The flag word to apply for raw (non-canonical, non-echoing) input:
    /// every masked bit is cleared, every other bit is kept.
    pub fn raw_flags(&self, mask: u32) -> (raw: u32)
        ensures
            raw == spec_raw_flags(self.saved, mask),
            raw & mask == 0,
    {
        let saved = self.saved;
        proof {
            assert((saved & !mask) & mask == 0) by (bit_vector);
        }
        saved & !mask
    }

    /// The flag word to apply when the watcher exits: the captured word
    /// itself, bit for bit.
    pub fn restore_flags(&self) -> (restored: u32)
        ensures
            restored == self.saved,
    {
        self.saved
    }
}

/// The flag word the abnormal-termination path applies: canonical input and
/// echo forced on, whatever else the flags hold.
pub fn forced_canonical_flags(current: u32, mask: u32) -> (forced: u32)
    ensures
        forced == spec_canonical_flags(current, mask),
        forced & mask == mask,
{
    proof {
        assert((current | mask) & mask == mask) by (bit_vector);
    }
    current | mask
}

/// Restoration is exact on both exit paths. Entering raw mode touches only
/// the masked bits, so restoring the captured word after the watcher's loop
/// is bit-for-bit by construction; and if the terminal held the masked bits
/// set before raw mode began (a canonical, echoing terminal), then forcing
/// them back on during a fault also yields the prior word bit for bit.
pub proof fn lemma_terminal_restored(lflag: u32, mask: u32)
    ensures
        spec_raw_flags(lflag, mask) & !mask == lflag & !mask,
        lflag & mask == mask ==> spec_canonical_flags(spec_raw_flags(lflag, mask), mask) == lflag,
{
    assert((lflag & !mask) & !mask == lflag & !mask) by (bit_vector);
    assert(lflag & mask == mask ==> ((lflag & !mask) | mask) == lflag) by (bit_vector);
}

} // verus!
