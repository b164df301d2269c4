//! Terminal attributes as plain values, and the two computations on them:
//! deriving the raw-mode attributes and restoring the original ones.

use vstd::prelude::*;

verus! {

/// The tracked settings of a terminal device: the four flag words and the
/// control-character array.
#[derive(Clone, Debug, PartialEq, Eq)]
pub struct TerminalAttributes {
    /// Input processing flags.
    pub input_flags: u64,
    /// Output processing flags.
    pub output_flags: u64,
    /// Control flags.
    pub control_flags: u64,
    /// Local (line discipline) flags.
    pub local_flags: u64,
    /// Control characters, indexed as the platform lays them out.
    pub control_chars: Vec<u8>,
}

/// Mathematical value of a `TerminalAttributes`.
pub ghost struct AttributesView {
    pub input_flags: u64,
    pub output_flags: u64,
    pub control_flags: u64,
    pub local_flags: u64,
    pub control_chars: Seq<u8>,
}

impl View for TerminalAttributes {
    type V = AttributesView;

    open spec fn view(&self) -> AttributesView {
        AttributesView {
            input_flags: self.input_flags,
            output_flags: self.output_flags,
            control_flags: self.control_flags,
            local_flags: self.local_flags,
            control_chars: self.control_chars@,
        }
    }
}

/// How the platform encodes the terminal settings that raw mode touches:
/// the bit of each flag, and the positions of the two control characters
/// that govern a read.
#[derive(Clone, Copy, Debug, PartialEq, Eq)]
pub struct TerminalLayout {
    /// Local flag: echo input characters.
    pub echo: u64,
    /// Local flag: canonical (line-buffered) input.
    pub icanon: u64,
    /// Local flag: extended input processing.
    pub iexten: u64,
    /// Local flag: generate signals from control characters.
    pub isig: u64,
    /// Input flag: a break condition raises an interrupt.
    pub brkint: u64,
    /// Input flag: translate carriage return to newline.
    pub icrnl: u64,
    /// Input flag: parity checking.
    pub inpck: u64,
    /// Input flag: strip the eighth bit.
    pub istrip: u64,
    /// Input flag: software flow control on output.
    pub ixon: u64,
    /// Output flag: post-process output.
    pub opost: u64,
    /// Control flag bits: eight-bit character size.
    pub cs8: u64,
    /// Position of the minimum-read-count control character.
    pub vmin: usize,
    /// Position of the read-timeout control character.
    pub vtime: usize,
}

/// Minimum number of bytes a raw-mode read waits for.
pub const RAW_READ_MIN: u8 = 0;

/// Raw-mode read timeout, in tenths of a second.
pub const RAW_READ_TIMEOUT: u8 = 1;

impl TerminalLayout {
    /// The local flags that raw mode clears.
    pub open spec fn local_mask(self) -> u64 {
        self.echo | self.icanon | self.iexten | self.isig
    }

    /// The input flags that raw mode clears.
    pub open spec fn input_mask(self) -> u64 {
        self.brkint | self.icrnl | self.inpck | self.istrip | self.ixon
    }

    /// The output flags that raw mode clears.
    pub open spec fn output_mask(self) -> u64 {
        self.opost
    }

    /// The control flags that raw mode clears.
    pub open spec fn control_mask(self) -> u64 {
        self.cs8
    }

    /// Both control-character positions lie inside `attributes`' array.
    pub open spec fn fits(self, attributes: AttributesView) -> bool {
        self.vmin < attributes.control_chars.len() && self.vtime < attributes.control_chars.len()
    }

    /// Tells whether both control-character positions lie inside
    /// `attributes`' array.
    pub fn check_fits(&self, attributes: &TerminalAttributes) -> (ok: bool)
        ensures
            ok == self.fits(attributes@),
    {
        self.vmin < attributes.control_chars.len() && self.vtime < attributes.control_chars.len()
    }
}

/// The raw-mode attributes derived from `original`: the masked flags are
/// cleared, all other flag bits kept, the minimum read count is 0 and the
/// read timeout is one tenth of a second.
pub open spec fn raw_spec(original: AttributesView, layout: TerminalLayout) -> AttributesView {
    AttributesView {
        input_flags: original.input_flags & !layout.input_mask(),
        output_flags: original.output_flags & !layout.output_mask(),
        control_flags: original.control_flags & !layout.control_mask(),
        local_flags: original.local_flags & !layout.local_mask(),
        control_chars: original.control_chars.update(layout.vmin as int, 0u8).update(
            layout.vtime as int,
            1u8,
        ),
    }
}

/// The attributes to apply on restore: every tracked field of `current`
/// overwritten with its value in `original`.
pub open spec fn restored_spec(current: AttributesView, original: AttributesView) -> AttributesView {
    AttributesView {
        input_flags: original.input_flags,
        output_flags: original.output_flags,
        control_flags: original.control_flags,
        local_flags: original.local_flags,
        control_chars: original.control_chars,
        ..current
    }
}

impl TerminalAttributes {
    /// An independent copy with the same value.
    pub fn duplicate(&self) -> (copy: TerminalAttributes)
        ensures
            copy@ == self@,
    {
        let mut control_chars: Vec<u8> = Vec::new();
        let mut i: usize = 0;
        while i < self.control_chars.len()
            invariant
                i <= self.control_chars.len(),
                control_chars@ == self.control_chars@.subrange(0, i as int),
            decreases self.control_chars.len() - i,
        {
            control_chars.push(self.control_chars[i]);
            i += 1;
            assert(control_chars@ =~= self.control_chars@.subrange(0, i as int));
        }
        assert(control_chars@ =~= self.control_chars@);
        TerminalAttributes {
            input_flags: self.input_flags,
            output_flags: self.output_flags,
            control_flags: self.control_flags,
            local_flags: self.local_flags,
            control_chars,
        }
    }
}

/// Computes the raw-mode attributes from the captured original.
pub fn raw_mode_attributes(original: &TerminalAttributes, layout: &TerminalLayout) -> (raw:
    TerminalAttributes)
    requires
        layout.fits(original@),
    ensures
        raw@ == raw_spec(original@, *layout),
{
    let mut raw = original.duplicate();
    raw.local_flags = raw.local_flags & !(layout.echo | layout.icanon | layout.iexten
        | layout.isig);
    raw.input_flags = raw.input_flags & !(layout.brkint | layout.icrnl | layout.inpck
        | layout.istrip | layout.ixon);
    raw.output_flags = raw.output_flags & !layout.opost;
    raw.control_flags = raw.control_flags & !layout.cs8;
    raw.control_chars.set(layout.vmin, RAW_READ_MIN);
    raw.control_chars.set(layout.vtime, RAW_READ_TIMEOUT);
    raw
}

/// Computes the attributes that restore the terminal: the freshly queried
/// `current` attributes with the five tracked fields overwritten by those
/// of the captured `original`.
pub fn restored_attributes(current: &TerminalAttributes, original: &TerminalAttributes) -> (restored:
    TerminalAttributes)
    ensures
        restored@ == restored_spec(current@, original@),
        restored@ == original@,
{
    let mut restored = current.duplicate();
    let copy = original.duplicate();
    restored.input_flags = copy.input_flags;
    restored.output_flags = copy.output_flags;
    restored.control_flags = copy.control_flags;
    restored.local_flags = copy.local_flags;
    restored.control_chars = copy.control_chars;
    restored
}

/// Enabling raw mode from the captured original and then restoring gives
/// back the original in all five tracked fields, whatever else the
/// terminal's current attributes hold.
pub proof fn lemma_restore_undoes_raw(original: AttributesView, layout: TerminalLayout)
    ensures
        restored_spec(raw_spec(original, layout), original) == original,
        restored_spec(raw_spec(original, layout), original).input_flags == original.input_flags,
        restored_spec(raw_spec(original, layout), original).output_flags == original.output_flags,
        restored_spec(raw_spec(original, layout), original).control_flags
            == original.control_flags,
        restored_spec(raw_spec(original, layout), original).local_flags == original.local_flags,
        restored_spec(raw_spec(original, layout), original).control_chars
            == original.control_chars,
{
}

/// Restoring is idempotent: a second restore on top of the first changes
/// nothing.
pub proof fn lemma_restore_idempotent(current: AttributesView, original: AttributesView)
    ensures
        restored_spec(restored_spec(current, original), original) == restored_spec(
            current,
            original,
        ),
{
}

/// Raw mode clears every masked flag and leaves every other flag bit as
/// it was; it sets the two read-governing control characters and leaves
/// the others as they were.
pub proof fn lemma_raw_clears_flags(original: AttributesView, layout: TerminalLayout)
    requires
        layout.fits(original),
    ensures
        raw_spec(original, layout).local_flags & layout.local_mask() == 0,
        raw_spec(original, layout).input_flags & layout.input_mask() == 0,
        raw_spec(original, layout).output_flags & layout.output_mask() == 0,
        raw_spec(original, layout).control_flags & layout.control_mask() == 0,
        raw_spec(original, layout).local_flags | (original.local_flags & layout.local_mask())
            == original.local_flags,
        raw_spec(original, layout).input_flags | (original.input_flags & layout.input_mask())
            == original.input_flags,
        raw_spec(original, layout).output_flags | (original.output_flags & layout.output_mask())
            == original.output_flags,
        raw_spec(original, layout).control_flags | (original.control_flags
            & layout.control_mask()) == original.control_flags,
        raw_spec(original, layout).control_chars.len() == original.control_chars.len(),
        raw_spec(original, layout).control_chars[layout.vtime as int] == 1u8,
        layout.vmin != layout.vtime ==> raw_spec(original, layout).control_chars[layout.vmin as int]
            == 0u8,
        forall|i: int|
            0 <= i < original.control_chars.len() && i != layout.vmin && i != layout.vtime
                ==> raw_spec(original, layout).control_chars[i] == original.control_chars[i],
{
    lemma_clear_mask(original.local_flags, layout.local_mask());
    lemma_clear_mask(original.input_flags, layout.input_mask());
    lemma_clear_mask(original.output_flags, layout.output_mask());
    lemma_clear_mask(original.control_flags, layout.control_mask());
}

/// Clearing a mask leaves none of its bits set and loses only its bits.
proof fn lemma_clear_mask(flags: u64, mask: u64)
    ensures
        (flags & !mask) & mask == 0,
        (flags & !mask) | (flags & mask) == flags,
{
    assert((flags & !mask) & mask == 0) by (bit_vector);
    assert((flags & !mask) | (flags & mask) == flags) by (bit_vector);
}

} // verus!
