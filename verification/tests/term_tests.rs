use echo_ports::term::{forced_canonical_flags, TermGuard};

// The two masked bits stand for canonical input and local echo; the mask is
// whatever the platform defines, so these tests pick arbitrary bit positions.
const MASK: u32 = 0b0000_1010;

#[test]
fn raw_mode_clears_only_the_masked_bits() {
    let guard = TermGuard::capture(0b1111_1111);
    let raw = guard.raw_flags(MASK);
    assert_eq!(raw & MASK, 0);
    assert_eq!(raw, 0b1111_0101);
}

#[test]
fn normal_exit_restores_bit_for_bit() {
    let before: u32 = 0xdead_beef;
    let guard = TermGuard::capture(before);
    let _raw = guard.raw_flags(MASK);
    assert_eq!(guard.restore_flags(), before);
}

#[test]
fn fault_path_forces_canonical_bits_on() {
    let forced = forced_canonical_flags(0b0100_0001, MASK);
    assert_eq!(forced & MASK, MASK);
    assert_eq!(forced, 0b0100_1011);
}

#[test]
fn fault_while_raw_restores_a_canonical_terminal_exactly() {
    // A terminal that was canonical and echoing before raw mode began comes
    // back bit-for-bit when the abnormal-termination path forces those bits.
    let before: u32 = 0b1010_1111;
    assert_eq!(before & MASK, MASK);
    let guard = TermGuard::capture(before);
    let raw = guard.raw_flags(MASK);
    assert_eq!(forced_canonical_flags(raw, MASK), before);
}
