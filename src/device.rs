//! Calls into the escpos crate: the printer behind its three drivers, its error,
//! and one wrapper for each printer command that the library issues.

use vstd::prelude::*;
use escpos::driver::{ConsoleDriver, NativeUsbDriver, NetworkDriver};
use escpos::errors::PrinterError;
use escpos::printer::Printer;
use escpos::utils::Protocol;
use crate::ticket::Command;

verus! {

#[verifier::external_type_specification]
#[verifier::external_body]
pub struct ExPrinterError(PrinterError);

#[verifier::external_type_specification]
#[verifier::external_body]
pub struct ExConsoleDriver(ConsoleDriver);

#[verifier::external_type_specification]
#[verifier::external_body]
pub struct ExNetworkDriver(NetworkDriver);

#[verifier::external_type_specification]
#[verifier::external_body]
pub struct ExNativeUsbDriver(NativeUsbDriver);

/// One of the three ways to reach a printer.
pub enum Backend<C, N, U> {
    Console(C),
    Network(N),
    Usb(U),
}

/// Exclusive access to one printer device: an escpos printer over the console,
/// a network socket or a USB connection. The printer queues commands and
/// writes them to the device when a ticket is cut.
#[verifier::external_body]
pub struct PrinterHandle {
    backend: Backend<Printer<ConsoleDriver>, Printer<NetworkDriver>, Printer<NativeUsbDriver>>,
}

/// The commands that the printer holds in its buffer, not yet written to the
/// device, oldest first.
pub uninterp spec fn printer_queue(h: PrinterHandle) -> Seq<Command>;

/// The commands that the printer has written to the device, oldest first.
pub uninterp spec fn printer_output(h: PrinterHandle) -> Seq<Command>;

/// Relies on escpos `Printer::new`: a printer over the console driver, with the
/// default protocol and options; nothing is sent to the device.
#[verifier::external_body]
pub fn console_printer(driver: ConsoleDriver) -> (r: PrinterHandle)
    ensures
        printer_queue(r) == Seq::<Command>::empty(),
        printer_output(r) == Seq::<Command>::empty(),
{
    PrinterHandle { backend: Backend::Console(Printer::new(driver, Protocol::default(), None)) }
}

/// Relies on escpos `Printer::new`: a printer over a network driver, with the
/// default protocol and options; nothing is sent to the device.
#[verifier::external_body]
pub fn network_printer(driver: NetworkDriver) -> (r: PrinterHandle)
    ensures
        printer_queue(r) == Seq::<Command>::empty(),
        printer_output(r) == Seq::<Command>::empty(),
{
    PrinterHandle { backend: Backend::Network(Printer::new(driver, Protocol::default(), None)) }
}

/// Relies on escpos `Printer::new`: a printer over a USB driver, with the
/// default protocol and options; nothing is sent to the device.
#[verifier::external_body]
pub fn usb_printer(driver: NativeUsbDriver) -> (r: PrinterHandle)
    ensures
        printer_queue(r) == Seq::<Command>::empty(),
        printer_output(r) == Seq::<Command>::empty(),
{
    PrinterHandle { backend: Backend::Usb(Printer::new(driver, Protocol::default(), None)) }
}

/// Relies on escpos `Printer::init`: queues the hardware initialisation command.
/// Without a page code in the printer's options (the constructors above give
/// none, and nothing sets one) queueing cannot fail.
#[verifier::external_body]
pub(crate) fn dev_init(h: &mut PrinterHandle) -> (r: Result<(), PrinterError>)
    ensures
        r is Ok,
        printer_queue(*final(h)) == printer_queue(*old(h)).push(Command::Init),
        printer_output(*final(h)) == printer_output(*old(h)),
{
    match &mut h.backend {
        Backend::Console(p) => p.init().map(|_| ()),
        Backend::Network(p) => p.init().map(|_| ()),
        Backend::Usb(p) => p.init().map(|_| ()),
    }
}

/// Relies on escpos `Printer::smoothing`: queues the smoothing-mode command,
/// which cannot fail.
#[verifier::external_body]
pub(crate) fn dev_smoothing(h: &mut PrinterHandle, on: bool) -> (r: Result<(), PrinterError>)
    ensures
        r is Ok,
        printer_queue(*final(h)) == printer_queue(*old(h)).push(Command::Smoothing(on)),
        printer_output(*final(h)) == printer_output(*old(h)),
{
    match &mut h.backend {
        Backend::Console(p) => p.smoothing(on).map(|_| ()),
        Backend::Network(p) => p.smoothing(on).map(|_| ()),
        Backend::Usb(p) => p.smoothing(on).map(|_| ()),
    }
}

/// Relies on escpos `Printer::bold`: queues the bold on / off command, which
/// cannot fail.
#[verifier::external_body]
pub(crate) fn dev_bold(h: &mut PrinterHandle, on: bool) -> (r: Result<(), PrinterError>)
    ensures
        r is Ok,
        printer_queue(*final(h)) == printer_queue(*old(h)).push(Command::Bold(on)),
        printer_output(*final(h)) == printer_output(*old(h)),
{
    match &mut h.backend {
        Backend::Console(p) => p.bold(on).map(|_| ()),
        Backend::Network(p) => p.bold(on).map(|_| ()),
        Backend::Usb(p) => p.bold(on).map(|_| ()),
    }
}

/// Relies on escpos `Printer::size`: queues the character size command; escpos
/// refuses a multiplier outside 1 to 8.
#[verifier::external_body]
pub(crate) fn dev_size(h: &mut PrinterHandle, width: u8, height: u8) -> (r: Result<(), PrinterError>)
    ensures
        r is Ok <==> (1 <= width <= 8 && 1 <= height <= 8),
        r is Ok ==> printer_queue(*final(h)) == printer_queue(*old(h)).push(Command::Size(width, height)),
        r is Err ==> printer_queue(*final(h)) == printer_queue(*old(h)),
        printer_output(*final(h)) == printer_output(*old(h)),
{
    match &mut h.backend {
        Backend::Console(p) => p.size(width, height).map(|_| ()),
        Backend::Network(p) => p.size(width, height).map(|_| ()),
        Backend::Usb(p) => p.size(width, height).map(|_| ()),
    }
}

/// Relies on escpos `Printer::writeln`: queues the text followed by a line feed.
/// With no page code set, the default protocol encodes text as UTF-8, which
/// passes every string through as its bytes and cannot fail.
#[verifier::external_body]
pub(crate) fn dev_writeln(h: &mut PrinterHandle, text: &str) -> (r: Result<(), PrinterError>)
    ensures
        r is Ok,
        printer_queue(*final(h)) == printer_queue(*old(h)).push(Command::Line(text@)),
        printer_output(*final(h)) == printer_output(*old(h)),
{
    match &mut h.backend {
        Backend::Console(p) => p.writeln(text).map(|_| ()),
        Backend::Network(p) => p.writeln(text).map(|_| ()),
        Backend::Usb(p) => p.writeln(text).map(|_| ()),
    }
}

/// Relies on escpos `Printer::feed`: queues one line feed, which cannot fail.
#[verifier::external_body]
pub(crate) fn dev_feed(h: &mut PrinterHandle) -> (r: Result<(), PrinterError>)
    ensures
        r is Ok,
        printer_queue(*final(h)) == printer_queue(*old(h)).push(Command::Feed),
        printer_output(*final(h)) == printer_output(*old(h)),
{
    match &mut h.backend {
        Backend::Console(p) => p.feed().map(|_| ()),
        Backend::Network(p) => p.feed().map(|_| ()),
        Backend::Usb(p) => p.feed().map(|_| ()),
    }
}

/// Relies on escpos `Printer::print_cut`: queues a full cut, then writes every
/// queued command to the driver and flushes it; the buffer is emptied only when
/// all of it was written. This is the one command that reaches the device, and
/// so the one that fails when the device does; what was written before a
/// failure is not known.
#[verifier::external_body]
pub(crate) fn dev_print_cut(h: &mut PrinterHandle) -> (r: Result<(), PrinterError>)
    ensures
        r is Ok ==> printer_queue(*final(h)) == Seq::<Command>::empty(),
        r is Ok ==> printer_output(*final(h)) == printer_output(*old(h)) + printer_queue(
            *old(h),
        ).push(Command::PrintCut),
        r is Err ==> printer_queue(*final(h)) == printer_queue(*old(h)).push(Command::PrintCut),
{
    match &mut h.backend {
        Backend::Console(p) => p.print_cut().map(|_| ()),
        Backend::Network(p) => p.print_cut().map(|_| ()),
        Backend::Usb(p) => p.print_cut().map(|_| ()),
    }
}

/// Relies on escpos `Printer::driver` and `Printer::new`: drops everything the
/// printer holds in its buffer by building a new printer, with the default
/// protocol and options, over the same driver (escpos's drivers are clones
/// that share one connection). Nothing is written to the device.
#[verifier::external_body]
pub(crate) fn dev_discard(h: &mut PrinterHandle)
    ensures
        printer_queue(*final(h)) == Seq::<Command>::empty(),
        printer_output(*final(h)) == printer_output(*old(h)),
{
    match &mut h.backend {
        Backend::Console(p) => *p = Printer::new(p.clone().driver(), Protocol::default(), None),
        Backend::Network(p) => *p = Printer::new(p.clone().driver(), Protocol::default(), None),
        Backend::Usb(p) => *p = Printer::new(p.clone().driver(), Protocol::default(), None),
    }
}

} // verus!
