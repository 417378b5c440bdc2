//! Raw mode, restoring, and copying settings between terminals.
//!
//! A [`TerminalController`] owns the terminal driver, the attributes that were
//! in force before raw mode was first entered, and a ghost journal of every
//! exchange with the driver. The journal exists only in proofs: it is what the
//! contracts of [`term_copy`], [`term_raw`] and [`term_restore`] are stated
//! over. It is kept by a [`DeviceRecord`], so that the functions here can
//! neither call the driver unseen nor write the journal themselves.

use vstd::prelude::*;
use crate::term::attributes::{
    copied, copy_settings, Attributes, TerminalAttributes, WindowSize,
};
use crate::journal::lemma_appended;
use crate::term::flags::Platform;
use crate::term::record::DeviceRecord;
use crate::term::setter::{SetMode, TermError};

verus! {

/// The operations that this crate needs from the terminal driver.
///
/// Nothing is assumed about what an implementation returns: every function
/// that drives a device is verified for all results.
pub trait TerminalDevice {
    /// Reads the attributes of the terminal open at `fd`.
    fn get_attributes(&mut self, fd: i32) -> Result<TerminalAttributes, TermError>;

    /// Applies the platform's raw-mode transform to `attributes`: no canonical
    /// processing, no echo, no signal generation.
    fn make_raw(&mut self, attributes: TerminalAttributes) -> TerminalAttributes;

    /// Writes `attributes` to the terminal open at `fd`, and fails with
    /// `NotForeground` if the terminal rejects the change because the process
    /// is not in its foreground process group.
    fn set_attributes(&mut self, fd: i32, mode: SetMode, attributes: &TerminalAttributes) -> Result<
        (),
        TermError,
    >;

    /// Reads the window size of the terminal open at `fd`.
    fn get_window_size(&mut self, fd: i32) -> Result<WindowSize, TermError>;

    /// Writes the window size of the terminal open at `fd`.
    fn set_window_size(&mut self, fd: i32, size: &WindowSize) -> Result<(), TermError>;
}

/// One call of the terminal driver, with what it was given and what it
/// returned.
#[allow(inconsistent_fields)]
pub enum Exchange {
    /// The attributes of `fd` were read.
    Read { fd: i32, result: Result<Attributes, TermError> },
    /// The raw-mode transform turned `input` into `output`.
    MadeRaw { input: Attributes, output: Attributes },
    /// `attributes` were written to `fd`.
    Written { fd: i32, mode: SetMode, attributes: Attributes, result: Result<(), TermError> },
    /// The window size of `fd` was read.
    SizeRead { fd: i32, result: Result<WindowSize, TermError> },
    /// `size` was written to `fd`.
    SizeWritten { fd: i32, size: WindowSize, result: Result<(), TermError> },
}

/// Attributes to write to a terminal, and when they take effect.
#[derive(Debug)]
pub struct SetRequest {
    pub mode: SetMode,
    pub attributes: TerminalAttributes,
}

/// The attributes that a terminal had before raw mode was first entered.
///
/// The slot is either untouched or saved. It is filled once and never changed
/// after that.
pub struct OriginalTerminalSlot {
    saved: Option<TerminalAttributes>,
}

impl OriginalTerminalSlot {
    /// The saved attributes, if there are any.
    pub closed spec fn snapshot(self) -> Option<Attributes> {
        match self.saved {
            Some(attributes) => Some(attributes@),
            None => None,
        }
    }

    /// Whether attributes have been saved.
    pub open spec fn is_saved(self) -> bool {
        self.snapshot() is Some
    }

    /// An untouched slot.
    pub fn new() -> (slot: Self)
        ensures
            slot.snapshot() is None,
    {
        OriginalTerminalSlot { saved: None }
    }

    /// Whether attributes have been saved.
    pub fn saved(&self) -> (saved: bool)
        ensures
            saved == self.is_saved(),
    {
        self.saved.is_some()
    }

    /// Saves `attributes` in an untouched slot. A saved slot keeps what it has.
    pub fn save(&mut self, attributes: TerminalAttributes)
        ensures
            final(self).snapshot() == match old(self).snapshot() {
                Some(saved) => Some(saved),
                None => Some(attributes@),
            },
    {
        if self.saved.is_none() {
            self.saved = Some(attributes);
        }
    }

    /// A copy of the saved attributes, if there are any.
    pub fn original(&self) -> (attributes: Option<TerminalAttributes>)
        ensures
            attributes_of(attributes) == self.snapshot(),
    {
        match &self.saved {
            Some(attributes) => Some(attributes.duplicate()),
            None => None,
        }
    }

    /// The write that restores the terminal: none on an untouched slot, else
    /// the saved attributes in the mode that `flush` selects.
    pub fn restore_request(&self, flush: bool) -> (request: Option<SetRequest>)
        ensures
            self.snapshot() is None ==> request is None,
            self.snapshot() matches Some(saved) ==> request matches Some(r) && r.mode
                == restore_mode_of(flush) && r.attributes@ == saved,
    {
        match &self.saved {
            Some(attributes) => Some(
                SetRequest { mode: restore_mode(flush), attributes: attributes.duplicate() },
            ),
            None => None,
        }
    }
}

/// The content of optional attributes.
pub open spec fn attributes_of(attributes: Option<TerminalAttributes>) -> Option<Attributes> {
    match attributes {
        Some(a) => Some(a@),
        None => None,
    }
}

/// The content of attributes that were read, or the error of the read.
pub open spec fn read_of(result: Result<TerminalAttributes, TermError>) -> Result<
    Attributes,
    TermError,
> {
    match result {
        Ok(a) => Ok(a@),
        Err(e) => Err(e),
    }
}

/// What raw mode is entered with: `raw`, the outcome of the raw-mode transform,
/// with signal generation switched on again among the local modes if signals
/// were asked for, and nothing else changed.
pub open spec fn raw_mode(platform: Platform, raw: Attributes, with_signals: bool) -> Attributes {
    if with_signals {
        Attributes { local_flags: raw.local_flags | platform.local().isig, ..raw }
    } else {
        raw
    }
}

/// Completes the attributes of raw mode from `raw`, the outcome of the
/// raw-mode transform: with `with_signals`, the keys that interrupt, quit and
/// suspend generate their signals as before.
pub fn raw_attributes(platform: &Platform, raw: TerminalAttributes, with_signals: bool) -> (out:
    TerminalAttributes)
    ensures
        out@ == raw_mode(*platform, raw@, with_signals),
{
    let mut out = raw;
    if with_signals {
        out.local_flags = out.local_flags | platform.local_bits().isig;
    }
    out
}

/// The write that enters raw mode: the attributes of [`raw_attributes`], in
/// force once the queued output has been written.
pub fn raw_request(platform: &Platform, raw: TerminalAttributes, with_signals: bool) -> (request:
    SetRequest)
    ensures
        request.mode == SetMode::Drain,
        request.attributes@ == raw_mode(*platform, raw@, with_signals),
{
    SetRequest { mode: SetMode::Drain, attributes: raw_attributes(platform, raw, with_signals) }
}

/// The write that copies the settings of `src` onto a terminal that has the
/// attributes `dst`: the attributes of [`copy_settings`], discarding the
/// terminal's unread input.
pub fn copy_request(
    platform: &Platform,
    src: &TerminalAttributes,
    dst: &TerminalAttributes,
) -> (request: SetRequest)
    ensures
        request.mode == SetMode::Flush,
        request.attributes@ == copied(*platform, src@, dst@),
        request.attributes.output_speed != 0,
{
    SetRequest { mode: SetMode::Flush, attributes: copy_settings(platform, src, dst) }
}

/// The mode in which saved attributes are written back.
pub open spec fn restore_mode_of(flush: bool) -> SetMode {
    if flush {
        SetMode::Flush
    } else {
        SetMode::Drain
    }
}

/// Chooses how saved attributes are written back: discarding unread input if
/// `flush` is set, else only after the queued output.
pub fn restore_mode(flush: bool) -> (mode: SetMode)
    ensures
        mode == restore_mode_of(flush),
{
    if flush {
        SetMode::Flush
    } else {
        SetMode::Drain
    }
}

/// The one owner of a terminal driver and of the original attributes.
///
/// The driver is held in a [`DeviceRecord`], which lets nothing reach it but
/// through calls that are entered in the journal.
pub struct TerminalController<D: TerminalDevice> {
    record: DeviceRecord<D>,
    platform: Platform,
    slot: OriginalTerminalSlot,
}

impl<D: TerminalDevice> TerminalController<D> {
    /// Every exchange with the driver so far, in order.
    pub closed spec fn journal(self) -> Seq<Exchange> {
        self.record.journal()
    }

    /// The driver that the controller owns.
    pub closed spec fn driver(self) -> D {
        self.record.driver()
    }

    /// The numbering of flags and speeds in use.
    pub closed spec fn platform(self) -> Platform {
        self.platform
    }

    /// The saved original attributes, if there are any.
    pub closed spec fn snapshot(self) -> Option<Attributes> {
        self.slot.snapshot()
    }

    /// The exchanges made since the controller was in the state `before`.
    pub open spec fn since(self, before: Self) -> Seq<Exchange> {
        self.journal().skip(before.journal().len() as int)
    }

    /// Whether this state comes after `before`: the journal has only grown and
    /// the numbering is the same.
    pub open spec fn follows(self, before: Self) -> bool {
        &&& self.platform() == before.platform()
        &&& before.journal().len() <= self.journal().len()
        &&& self.journal().take(before.journal().len() as int) == before.journal()
    }

    /// A controller for `device` with the numbering of this target, an
    /// untouched slot and an empty journal.
    pub fn new(device: D) -> (controller: Self)
        ensures
            controller.driver() == device,
            controller.platform().wf(),
            controller.snapshot() is None,
            controller.journal() == Seq::<Exchange>::empty(),
    {
        TerminalController {
            record: DeviceRecord::new(device),
            platform: Platform::native(),
            slot: OriginalTerminalSlot::new(),
        }
    }

    /// A controller for `device` with the numbering `platform`, which is well
    /// formed as every numbering is.
    pub fn with_platform(device: D, platform: Platform) -> (controller: Self)
        ensures
            controller.driver() == device,
            controller.platform() == platform,
            controller.platform().wf(),
            controller.snapshot() is None,
            controller.journal() == Seq::<Exchange>::empty(),
    {
        proof {
            use_type_invariant(&platform);
        }
        TerminalController {
            record: DeviceRecord::new(device),
            platform,
            slot: OriginalTerminalSlot::new(),
        }
    }

    /// The driver.
    pub fn device(&self) -> (device: &D)
        ensures
            *device == self.driver(),
    {
        self.record.device()
    }

    /// Whether original attributes have been saved.
    pub fn saved(&self) -> (saved: bool)
        ensures
            saved == self.snapshot() is Some,
    {
        self.slot.saved()
    }

    /// A copy of the saved original attributes, if there are any.
    pub fn original(&self) -> (attributes: Option<TerminalAttributes>)
        ensures
            attributes_of(attributes) == self.snapshot(),
    {
        self.slot.original()
    }
}

/// Whether `steps` are the exchanges of copying the settings of the terminal
/// at `src` to the terminal at `dst`, ending in `result`.
///
/// Both terminals are read, source first. The destination is written with the
/// attributes of [`copied`], discarding its unread input. Then the window size
/// of the source is read and written to the destination. The first exchange
/// that fails is the last, and its error is the result.
pub open spec fn copy_steps(
    platform: Platform,
    src: i32,
    dst: i32,
    steps: Seq<Exchange>,
    result: Result<(), TermError>,
) -> bool {
    &&& steps.len() >= 1
    &&& steps[0] matches Exchange::Read { fd: fd0, result: source }
    &&& fd0 == src
    &&& match source {
        Err(e) => steps.len() == 1 && result == Err::<(), TermError>(e),
        Ok(a) => {
            &&& steps.len() >= 2
            &&& steps[1] matches Exchange::Read { fd: fd1, result: destination }
            &&& fd1 == dst
            &&& match destination {
                Err(e) => steps.len() == 2 && result == Err::<(), TermError>(e),
                Ok(b) => {
                    &&& steps.len() >= 3
                    &&& steps[2] matches Exchange::Written {
                        fd: fd2,
                        mode,
                        attributes,
                        result: written,
                    }
                    &&& fd2 == dst
                    &&& mode == SetMode::Flush
                    &&& attributes == copied(platform, a, b)
                    &&& match written {
                        Err(e) => steps.len() == 3 && result == Err::<(), TermError>(e),
                        Ok(()) => {
                            &&& steps.len() >= 4
                            &&& steps[3] matches Exchange::SizeRead { fd: fd3, result: measured }
                            &&& fd3 == src
                            &&& match measured {
                                Err(e) => steps.len() == 4 && result == Err::<(), TermError>(e),
                                Ok(size) => {
                                    &&& steps.len() == 5
                                    &&& steps[4] == Exchange::SizeWritten { fd: dst, size, result }
                                },
                            }
                        },
                    }
                },
            }
        },
    }
}

/// Whether `steps` are the exchanges of entering raw mode on the terminal at
/// `fd` from a slot that held `before`, ending in `result` and a slot that
/// holds `after`.
///
/// On an untouched slot the terminal is read first; if that fails, nothing
/// more is done. The raw-mode transform is applied to the saved attributes,
/// or else to those just read, and the attributes of [`raw_mode`] are written
/// once the queued output is out. What was read is saved only if that write
/// succeeds; a saved slot always stays as it is.
pub open spec fn raw_steps(
    platform: Platform,
    fd: i32,
    with_signals: bool,
    before: Option<Attributes>,
    steps: Seq<Exchange>,
    result: Result<(), TermError>,
    after: Option<Attributes>,
) -> bool {
    match before {
        Some(saved) => {
            &&& after == before
            &&& entering_steps(platform, fd, with_signals, saved, steps, result)
        },
        None => {
            &&& steps.len() >= 1
            &&& steps[0] matches Exchange::Read { fd: fd0, result: current }
            &&& fd0 == fd
            &&& match current {
                Err(e) => steps.len() == 1 && result == Err::<(), TermError>(e) && after is None,
                Ok(a) => {
                    &&& entering_steps(platform, fd, with_signals, a, steps.skip(1), result)
                    &&& after == if result is Ok {
                        Some(a)
                    } else {
                        None
                    }
                },
            }
        },
    }
}

/// Whether `steps` are the two exchanges that put the terminal at `fd` into
/// raw mode starting from the attributes `original`.
pub open spec fn entering_steps(
    platform: Platform,
    fd: i32,
    with_signals: bool,
    original: Attributes,
    steps: Seq<Exchange>,
    result: Result<(), TermError>,
) -> bool {
    &&& steps.len() == 2
    &&& steps[0] matches Exchange::MadeRaw { input, output }
    &&& input == original
    &&& steps[1] == Exchange::Written {
        fd,
        mode: SetMode::Drain,
        attributes: raw_mode(platform, output, with_signals),
        result,
    }
}

/// Copies the settings of the terminal at `src` to the terminal at `dst`.
/// The numbering in use is well formed, so what is written never has an
/// output speed of zero.
pub fn term_copy<D: TerminalDevice>(
    controller: &mut TerminalController<D>,
    src: i32,
    dst: i32,
) -> (result: Result<(), TermError>)
    ensures
        final(controller).follows(*old(controller)),
        final(controller).platform().wf(),
        final(controller).snapshot() == old(controller).snapshot(),
        copy_steps(
            old(controller).platform(),
            src,
            dst,
            final(controller).since(*old(controller)),
            result,
        ),
{
    let ghost start = controller.journal();
    let platform = controller.platform;
    proof {
        use_type_invariant(&platform);
    }
    let read_source = controller.record.read(src);
    let ghost x0 = Exchange::Read { fd: src, result: read_of(read_source) };
    let source = match read_source {
        Ok(attributes) => attributes,
        Err(e) => {
            proof {
                assert(controller.journal() =~= start + seq![x0]);
                lemma_appended(start, controller.journal(), seq![x0]);
            }
            return Err(e);
        },
    };
    let read_destination = controller.record.read(dst);
    let ghost x1 = Exchange::Read { fd: dst, result: read_of(read_destination) };
    let destination = match read_destination {
        Ok(attributes) => attributes,
        Err(e) => {
            proof {
                assert(controller.journal() =~= start + seq![x0, x1]);
                lemma_appended(start, controller.journal(), seq![x0, x1]);
            }
            return Err(e);
        },
    };
    let request = copy_request(&platform, &source, &destination);
    let written = controller.record.write(dst, &request);
    let ghost x2 = Exchange::Written {
        fd: dst,
        mode: request.mode,
        attributes: request.attributes@,
        result: written,
    };
    if let Err(e) = written {
        proof {
            assert(controller.journal() =~= start + seq![x0, x1, x2]);
            lemma_appended(start, controller.journal(), seq![x0, x1, x2]);
        }
        return Err(e);
    }
    let measured = controller.record.read_size(src);
    let ghost x3 = Exchange::SizeRead { fd: src, result: measured };
    let size = match measured {
        Ok(size) => size,
        Err(e) => {
            proof {
                assert(controller.journal() =~= start + seq![x0, x1, x2, x3]);
                lemma_appended(start, controller.journal(), seq![x0, x1, x2, x3]);
            }
            return Err(e);
        },
    };
    let result = controller.record.write_size(dst, &size);
    proof {
        let x4 = Exchange::SizeWritten { fd: dst, size, result };
        assert(controller.journal() =~= start + seq![x0, x1, x2, x3, x4]);
        lemma_appended(start, controller.journal(), seq![x0, x1, x2, x3, x4]);
    }
    result
}

/// Puts the terminal at `fd` into raw mode, with signal generation left on if
/// `with_signals` is set.
///
/// The original attributes are saved the first time this succeeds and never
/// again, so that entering raw mode on a terminal that is already raw does not
/// replace them.
pub fn term_raw<D: TerminalDevice>(
    controller: &mut TerminalController<D>,
    fd: i32,
    with_signals: bool,
) -> (result: Result<(), TermError>)
    ensures
        final(controller).follows(*old(controller)),
        raw_steps(
            old(controller).platform(),
            fd,
            with_signals,
            old(controller).snapshot(),
            final(controller).since(*old(controller)),
            result,
            final(controller).snapshot(),
        ),
        old(controller).snapshot() is Some ==> final(controller).snapshot() == old(
            controller,
        ).snapshot(),
        result is Ok ==> final(controller).snapshot() is Some,
        result is Err ==> final(controller).snapshot() == old(controller).snapshot(),
{
    let ghost start = controller.journal();
    let platform = controller.platform;
    let ghost mut head: Seq<Exchange> = Seq::empty();
    let original = match controller.slot.original() {
        Some(saved) => saved,
        None => {
            let current = controller.record.read(fd);
            proof {
                head = seq![Exchange::Read { fd, result: read_of(current) }];
                assert(controller.journal() =~= start + head);
            }
            match current {
                Ok(attributes) => attributes,
                Err(e) => {
                    proof {
                        lemma_appended(start, controller.journal(), head);
                    }
                    return Err(e);
                },
            }
        },
    };
    let raw = controller.record.make_raw(original.duplicate());
    let ghost x1 = Exchange::MadeRaw { input: original@, output: raw@ };
    let request = raw_request(&platform, raw, with_signals);
    let result = controller.record.write(fd, &request);
    proof {
        let x2 = Exchange::Written {
            fd,
            mode: request.mode,
            attributes: request.attributes@,
            result,
        };
        let steps = head + seq![x1, x2];
        assert(controller.journal() =~= start + steps);
        lemma_appended(start, controller.journal(), steps);
        if head.len() == 1 {
            assert(steps.skip(1) =~= seq![x1, x2]);
        } else {
            assert(steps =~= seq![x1, x2]);
        }
    }
    if result.is_ok() {
        controller.slot.save(original);
    }
    result
}

/// Writes the saved original attributes back to the terminal at `fd`.
///
/// With nothing saved this does nothing and succeeds. Otherwise the saved
/// attributes are written, discarding unread input if `flush` is set and else
/// only after the queued output; the result is that of the write. What is
/// saved stays saved, so the terminal can be restored any number of times.
pub fn term_restore<D: TerminalDevice>(
    controller: &mut TerminalController<D>,
    fd: i32,
    flush: bool,
) -> (result: Result<(), TermError>)
    ensures
        final(controller).follows(*old(controller)),
        final(controller).snapshot() == old(controller).snapshot(),
        match old(controller).snapshot() {
            None => {
                &&& result is Ok
                &&& final(controller).journal() == old(controller).journal()
                &&& final(controller).driver() == old(controller).driver()
            },
            Some(saved) => final(controller).journal() == old(controller).journal().push(
                Exchange::Written {
                    fd,
                    mode: restore_mode_of(flush),
                    attributes: saved,
                    result,
                },
            ),
        },
{
    let ghost start = controller.journal();
    match controller.slot.restore_request(flush) {
        Some(request) => {
            let result = controller.record.write(fd, &request);
            proof {
                assert(controller.journal().take(start.len() as int) =~= start);
            }
            result
        },
        None => {
            proof {
                assert(controller.journal().take(start.len() as int) =~= start);
            }
            Ok(())
        },
    }
}

/// The original attributes are saved once: entering raw mode never changes
/// attributes that are saved, saves on an untouched slot exactly what it read
/// from the terminal and only when raw mode was entered, and leaves a slot
/// untouched when it fails. So however often raw mode is entered, the slot
/// goes from untouched to saved at most once and then stays as it is.
pub proof fn lemma_saved_once(
    platform: Platform,
    fd: i32,
    with_signals: bool,
    before: Option<Attributes>,
    steps: Seq<Exchange>,
    result: Result<(), TermError>,
    after: Option<Attributes>,
)
    requires
        raw_steps(platform, fd, with_signals, before, steps, result, after),
    ensures
        before is Some ==> after == before,
        result is Ok ==> after is Some,
        result is Err ==> after == before,
        before is None && after is Some ==> steps[0] == (Exchange::Read {
            fd,
            result: Ok(after->0),
        }),
        before is Some ==> !(steps[0] is Read),
{
}

} // verus!
