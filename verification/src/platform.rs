//! The platform's encoding of terminal settings, read from `nix`.

use crate::attributes::TerminalLayout;
use nix::sys::termios::{
    ControlFlags, InputFlags, LocalFlags, OutputFlags, SpecialCharacterIndices,
};
use vstd::prelude::*;

verus! {

/// Trusted: the bits of `nix::sys::termios::LocalFlags::ECHO`, as `bits()`
/// gives them, widened to 64 bits. The value is the platform's own:
/// nothing is claimed of it.
#[verifier::external_body]
fn echo_bits() -> (bits: u64) {
    LocalFlags::ECHO.bits() as u64
}

/// Trusted: the bits of `nix::sys::termios::LocalFlags::ICANON`, as `bits()`
/// gives them, widened to 64 bits. The value is the platform's own:
/// nothing is claimed of it.
#[verifier::external_body]
fn icanon_bits() -> (bits: u64) {
    LocalFlags::ICANON.bits() as u64
}

/// Trusted: the bits of `nix::sys::termios::LocalFlags::IEXTEN`, as `bits()`
/// gives them, widened to 64 bits. The value is the platform's own:
/// nothing is claimed of it.
#[verifier::external_body]
fn iexten_bits() -> (bits: u64) {
    LocalFlags::IEXTEN.bits() as u64
}

/// Trusted: the bits of `nix::sys::termios::LocalFlags::ISIG`, as `bits()`
/// gives them, widened to 64 bits. The value is the platform's own:
/// nothing is claimed of it.
#[verifier::external_body]
fn isig_bits() -> (bits: u64) {
    LocalFlags::ISIG.bits() as u64
}

/// Trusted: the bits of `nix::sys::termios::InputFlags::BRKINT`, as `bits()`
/// gives them, widened to 64 bits. The value is the platform's own:
/// nothing is claimed of it.
#[verifier::external_body]
fn brkint_bits() -> (bits: u64) {
    InputFlags::BRKINT.bits() as u64
}

/// Trusted: the bits of `nix::sys::termios::InputFlags::ICRNL`, as `bits()`
/// gives them, widened to 64 bits. The value is the platform's own:
/// nothing is claimed of it.
#[verifier::external_body]
fn icrnl_bits() -> (bits: u64) {
    InputFlags::ICRNL.bits() as u64
}

/// Trusted: the bits of `nix::sys::termios::InputFlags::INPCK`, as `bits()`
/// gives them, widened to 64 bits. The value is the platform's own:
/// nothing is claimed of it.
#[verifier::external_body]
fn inpck_bits() -> (bits: u64) {
    InputFlags::INPCK.bits() as u64
}

/// Trusted: the bits of `nix::sys::termios::InputFlags::ISTRIP`, as `bits()`
/// gives them, widened to 64 bits. The value is the platform's own:
/// nothing is claimed of it.
#[verifier::external_body]
fn istrip_bits() -> (bits: u64) {
    InputFlags::ISTRIP.bits() as u64
}

/// Trusted: the bits of `nix::sys::termios::InputFlags::IXON`, as `bits()`
/// gives them, widened to 64 bits. The value is the platform's own:
/// nothing is claimed of it.
#[verifier::external_body]
fn ixon_bits() -> (bits: u64) {
    InputFlags::IXON.bits() as u64
}

/// Trusted: the bits of `nix::sys::termios::OutputFlags::OPOST`, as `bits()`
/// gives them, widened to 64 bits. The value is the platform's own:
/// nothing is claimed of it.
#[verifier::external_body]
fn opost_bits() -> (bits: u64) {
    OutputFlags::OPOST.bits() as u64
}

/// Trusted: the bits of `nix::sys::termios::ControlFlags::CS8`, as `bits()`
/// gives them, widened to 64 bits. The value is the platform's own:
/// nothing is claimed of it.
#[verifier::external_body]
fn cs8_bits() -> (bits: u64) {
    ControlFlags::CS8.bits() as u64
}

/// Trusted: `nix::sys::termios::SpecialCharacterIndices::VMIN` as an index
/// into the control-character array. The value is the platform's own:
/// nothing is claimed of it.
#[verifier::external_body]
fn vmin_index() -> (index: usize) {
    SpecialCharacterIndices::VMIN as usize
}

/// Trusted: `nix::sys::termios::SpecialCharacterIndices::VTIME` as an index
/// into the control-character array. The value is the platform's own:
/// nothing is claimed of it.
#[verifier::external_body]
fn vtime_index() -> (index: usize) {
    SpecialCharacterIndices::VTIME as usize
}

/// Reads the platform's layout: the bit of every flag that raw mode
/// clears and the positions of the two control characters it sets. The
/// values are the platform's own; what is done with them is stated by the
/// functions that take a layout.
pub fn platform_layout() -> (layout: TerminalLayout) {
    TerminalLayout {
        echo: echo_bits(),
        icanon: icanon_bits(),
        iexten: iexten_bits(),
        isig: isig_bits(),
        brkint: brkint_bits(),
        icrnl: icrnl_bits(),
        inpck: inpck_bits(),
        istrip: istrip_bits(),
        ixon: ixon_bits(),
        opost: opost_bits(),
        cs8: cs8_bits(),
        vmin: vmin_index(),
        vtime: vtime_index(),
    }
}

} // verus!
