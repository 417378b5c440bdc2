//! A terminal driver together with the journal of its calls.
//!
//! The two are private to this module, and every way to the driver from
//! outside it makes one call and enters that one call in the journal. So a
//! contract over the journal is a contract over the calls that were made.

use vstd::prelude::*;
use crate::term::attributes::{TerminalAttributes, WindowSize};
use crate::term::control::{read_of, Exchange, SetRequest, TerminalDevice};
use crate::term::setter::TermError;

verus! {

/// A terminal driver and every exchange with it so far.
pub(crate) struct DeviceRecord<D: TerminalDevice> {
    device: D,
    journal: Ghost<Seq<Exchange>>,
}

impl<D: TerminalDevice> DeviceRecord<D> {
    /// Every exchange with the driver so far, in order.
    pub(crate) closed spec fn journal(self) -> Seq<Exchange> {
        self.journal@
    }

    /// The driver.
    pub(crate) closed spec fn driver(self) -> D {
        self.device
    }

    /// A record for `device` with an empty journal.
    pub(crate) fn new(device: D) -> (record: Self)
        ensures
            record.driver() == device,
            record.journal() == Seq::<Exchange>::empty(),
    {
        DeviceRecord { device, journal: Ghost(Seq::empty()) }
    }

    /// The driver, to look at.
    pub(crate) fn device(&self) -> (device: &D)
        ensures
            *device == self.driver(),
    {
        &self.device
    }

    /// Reads the attributes of the terminal at `fd`.
    pub(crate) fn read(&mut self, fd: i32) -> (result: Result<TerminalAttributes, TermError>)
        ensures
            final(self).journal() == old(self).journal().push(
                Exchange::Read { fd, result: read_of(result) },
            ),
    {
        let result = self.device.get_attributes(fd);
        self.journal = Ghost(self.journal@.push(Exchange::Read { fd, result: read_of(result) }));
        result
    }

    /// Applies the raw-mode transform to `attributes`.
    pub(crate) fn make_raw(&mut self, attributes: TerminalAttributes) -> (raw: TerminalAttributes)
        ensures
            final(self).journal() == old(self).journal().push(
                Exchange::MadeRaw { input: attributes@, output: raw@ },
            ),
    {
        let ghost input = attributes@;
        let raw = self.device.make_raw(attributes);
        self.journal = Ghost(self.journal@.push(Exchange::MadeRaw { input, output: raw@ }));
        raw
    }

    /// Writes the attributes of `request` to the terminal at `fd`, in the mode
    /// of `request`.
    pub(crate) fn write(&mut self, fd: i32, request: &SetRequest) -> (result: Result<(), TermError>)
        ensures
            final(self).journal() == old(self).journal().push(
                Exchange::Written {
                    fd,
                    mode: request.mode,
                    attributes: request.attributes@,
                    result,
                },
            ),
    {
        let result = self.device.set_attributes(fd, request.mode, &request.attributes);
        self.journal = Ghost(
            self.journal@.push(
                Exchange::Written {
                    fd,
                    mode: request.mode,
                    attributes: request.attributes@,
                    result,
                },
            ),
        );
        result
    }

    /// Reads the window size of the terminal at `fd`.
    pub(crate) fn read_size(&mut self, fd: i32) -> (result: Result<WindowSize, TermError>)
        ensures
            final(self).journal() == old(self).journal().push(Exchange::SizeRead { fd, result }),
    {
        let result = self.device.get_window_size(fd);
        self.journal = Ghost(self.journal@.push(Exchange::SizeRead { fd, result }));
        result
    }

    /// Writes `size` to the terminal at `fd`.
    pub(crate) fn write_size(&mut self, fd: i32, size: &WindowSize) -> (result: Result<
        (),
        TermError,
    >)
        ensures
            final(self).journal() == old(self).journal().push(
                Exchange::SizeWritten { fd, size: *size, result },
            ),
    {
        let result = self.device.set_window_size(fd, size);
        self.journal = Ghost(
            self.journal@.push(Exchange::SizeWritten { fd, size: *size, result }),
        );
        result
    }
}

} // verus!
