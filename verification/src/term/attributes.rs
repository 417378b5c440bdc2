//! Terminal attributes as a value, and the rule that copies them.

use vstd::prelude::*;
use libc::{cc_t, speed_t, tcflag_t};
use crate::term::flags::Platform;

verus! {

/// A snapshot of a terminal driver's configuration.
#[derive(Debug, PartialEq, Eq)]
pub struct TerminalAttributes {
    /// Input modes.
    pub input_flags: tcflag_t,
    /// Output modes.
    pub output_flags: tcflag_t,
    /// Control modes.
    pub control_flags: tcflag_t,
    /// Local modes.
    pub local_flags: tcflag_t,
    /// The line discipline, on targets that have one, and zero elsewhere.
    pub line_discipline: cc_t,
    /// The control characters, by their index.
    pub control_chars: Vec<cc_t>,
    /// Input line speed.
    pub input_speed: speed_t,
    /// Output line speed.
    pub output_speed: speed_t,
}

/// The mathematical content of a [`TerminalAttributes`].
pub struct Attributes {
    pub input_flags: tcflag_t,
    pub output_flags: tcflag_t,
    pub control_flags: tcflag_t,
    pub local_flags: tcflag_t,
    pub line_discipline: cc_t,
    pub control_chars: Seq<cc_t>,
    pub input_speed: speed_t,
    pub output_speed: speed_t,
}

impl View for TerminalAttributes {
    type V = Attributes;

    open spec fn view(&self) -> Attributes {
        Attributes {
            input_flags: self.input_flags,
            output_flags: self.output_flags,
            control_flags: self.control_flags,
            local_flags: self.local_flags,
            line_discipline: self.line_discipline,
            control_chars: self.control_chars@,
            input_speed: self.input_speed,
            output_speed: self.output_speed,
        }
    }
}

impl TerminalAttributes {
    /// A copy of these attributes.
    pub fn duplicate(&self) -> (out: TerminalAttributes)
        ensures
            out@ == self@,
    {
        TerminalAttributes {
            input_flags: self.input_flags,
            output_flags: self.output_flags,
            control_flags: self.control_flags,
            local_flags: self.local_flags,
            line_discipline: self.line_discipline,
            control_chars: copy_chars(&self.control_chars),
            input_speed: self.input_speed,
            output_speed: self.output_speed,
        }
    }
}

impl Clone for TerminalAttributes {
    fn clone(&self) -> (out: TerminalAttributes)
        ensures
            out@ == self@,
    {
        self.duplicate()
    }
}

/// The size of a terminal window.
#[derive(Clone, Copy, Debug, PartialEq, Eq, Structural)]
pub struct WindowSize {
    pub rows: u16,
    pub columns: u16,
    pub x_pixels: u16,
    pub y_pixels: u16,
}

/// `dst` with the bits of `mask` replaced by those of `src`.
pub open spec fn merged(dst: tcflag_t, src: tcflag_t, mask: tcflag_t) -> tcflag_t {
    (dst & !mask) | (src & mask)
}

/// Replaces the bits of `mask` in `dst` by those of `src`.
pub fn merge_flags(dst: tcflag_t, src: tcflag_t, mask: tcflag_t) -> (out: tcflag_t)
    ensures
        out == merged(dst, src, mask),
{
    (dst & !mask) | (src & mask)
}

/// The output speed that is written for a source speed of `speed`: a hang-up
/// is replaced by the fallback speed.
pub open spec fn carried_speed(platform: Platform, speed: speed_t) -> speed_t {
    if speed == platform.speeds().hangup {
        platform.speeds().fallback
    } else {
        speed
    }
}

/// What `dst` becomes when the settings of `src` are copied onto it: the
/// carried flags of each mode come from `src` and all other flags stay, and
/// so does the line discipline; the control characters and the input speed
/// are those of `src`; so is the output speed, unless it would hang up the
/// line.
pub open spec fn copied(platform: Platform, src: Attributes, dst: Attributes) -> Attributes {
    Attributes {
        input_flags: merged(dst.input_flags, src.input_flags, platform.input().mask()),
        output_flags: merged(dst.output_flags, src.output_flags, platform.output().mask()),
        control_flags: merged(dst.control_flags, src.control_flags, platform.control().mask()),
        local_flags: merged(dst.local_flags, src.local_flags, platform.local().mask()),
        line_discipline: dst.line_discipline,
        control_chars: src.control_chars,
        input_speed: src.input_speed,
        output_speed: carried_speed(platform, src.output_speed),
    }
}

/// A copy of `chars`.
fn copy_chars(chars: &Vec<cc_t>) -> (out: Vec<cc_t>)
    ensures
        out@ == chars@,
{
    let mut out: Vec<cc_t> = Vec::new();
    let mut i: usize = 0;
    while i < chars.len()
        invariant
            i <= chars.len(),
            out@ == chars@.take(i as int),
        decreases chars.len() - i,
    {
        out.push(chars[i]);
        i = i + 1;
    }
    out
}

/// Copies the settings of `src` onto `dst` and returns the attributes to
/// write to the destination terminal. Their output speed is never zero.
pub fn copy_settings(
    platform: &Platform,
    src: &TerminalAttributes,
    dst: &TerminalAttributes,
) -> (out: TerminalAttributes)
    ensures
        out@ == copied(*platform, src@, dst@),
        out.output_speed != 0,
{
    let speeds = platform.line_speeds();
    let output_speed = if src.output_speed == speeds.hangup {
        speeds.fallback
    } else {
        src.output_speed
    };
    TerminalAttributes {
        input_flags: merge_flags(dst.input_flags, src.input_flags, platform.input_bits().all()),
        output_flags: merge_flags(
            dst.output_flags,
            src.output_flags,
            platform.output_bits().all(),
        ),
        control_flags: merge_flags(
            dst.control_flags,
            src.control_flags,
            platform.control_bits().all(),
        ),
        local_flags: merge_flags(dst.local_flags, src.local_flags, platform.local_bits().all()),
        line_discipline: dst.line_discipline,
        control_chars: copy_chars(&src.control_chars),
        input_speed: src.input_speed,
        output_speed,
    }
}

/// Merging twice is merging once.
pub proof fn lemma_merge_idempotent(dst: tcflag_t, src: tcflag_t, mask: tcflag_t)
    ensures
        merged(merged(dst, src, mask), src, mask) == merged(dst, src, mask),
{
    assert((((dst & !mask) | (src & mask)) & !mask) | (src & mask) == (dst & !mask) | (src
        & mask)) by (bit_vector);
}

/// A merge takes the bits of the mask from the source and leaves all others.
pub proof fn lemma_merge_bits(dst: tcflag_t, src: tcflag_t, mask: tcflag_t)
    ensures
        merged(dst, src, mask) & mask == src & mask,
        merged(dst, src, mask) & !mask == dst & !mask,
{
    assert(((dst & !mask) | (src & mask)) & mask == src & mask) by (bit_vector);
    assert(((dst & !mask) | (src & mask)) & !mask == dst & !mask) by (bit_vector);
}

/// Copying is idempotent: with the source unchanged, copying onto the result
/// of a copy changes nothing.
pub proof fn lemma_copy_idempotent(platform: Platform, src: Attributes, dst: Attributes)
    ensures
        copied(platform, src, copied(platform, src, dst)) == copied(platform, src, dst),
{
    lemma_merge_idempotent(dst.input_flags, src.input_flags, platform.input().mask());
    lemma_merge_idempotent(dst.output_flags, src.output_flags, platform.output().mask());
    lemma_merge_idempotent(dst.control_flags, src.control_flags, platform.control().mask());
    lemma_merge_idempotent(dst.local_flags, src.local_flags, platform.local().mask());
}

/// A hang-up is never copied: whatever the source's output speed, the
/// destination's is not zero afterwards, and a source speed of zero becomes
/// the fallback speed.
pub proof fn lemma_copy_never_hangs_up(platform: Platform, src: Attributes, dst: Attributes)
    requires
        platform.wf(),
    ensures
        copied(platform, src, dst).output_speed != 0,
        src.output_speed == 0 ==> copied(platform, src, dst).output_speed
            == platform.speeds().fallback,
        src.output_speed != 0 ==> copied(platform, src, dst).output_speed == src.output_speed,
{
}

} // verus!
