//! The print sink: exclusive access to one printer, with a record of every
//! ticket it was asked to render.

use vstd::prelude::*;
use escpos::errors::PrinterError;
use crate::device::{
    dev_bold, dev_discard, dev_feed, dev_init, dev_print_cut, dev_size, dev_smoothing,
    dev_writeln, printer_output, printer_queue, PrinterHandle,
};
use crate::ticket::{commands_of, ticket_layout, Command, Step, Ticket};

verus! {

/// The device refused a command or could not be written to.
pub struct DeviceError {
    pub cause: PrinterError,
}

/// Whether the printer takes a command into its buffer whatever the device's
/// state: every command but the cut, which writes the buffer out, and a size
/// outside 1 to 8.
pub open spec fn always_accepted(c: Command) -> bool {
    match c {
        Command::PrintCut => false,
        Command::Size(w, h) => 1 <= w <= 8 && 1 <= h <= 8,
        _ => true,
    }
}

/// The result of one device command, with the library's error.
fn device_result(r: Result<(), PrinterError>) -> (out: Result<(), DeviceError>)
    ensures
        out is Ok <==> r is Ok,
        r matches Err(e) ==> out == Err::<(), DeviceError>((DeviceError { cause: e })),
{
    match r {
        Ok(()) => Ok(()),
        Err(cause) => Err(DeviceError { cause }),
    }
}

pub struct PrintSink {
    device: PrinterHandle,
    jobs: Ghost<Seq<(Seq<char>, Seq<char>)>>,
}

impl PrintSink {
    /// The commands that the printer holds in its buffer, oldest first.
    pub closed spec fn queue(&self) -> Seq<Command> {
        printer_queue(self.device)
    }

    /// The commands that the printer has written to the device, oldest first.
    pub closed spec fn output(&self) -> Seq<Command> {
        printer_output(self.device)
    }

    /// Header and body of every ticket handed to `render`, oldest first,
    /// whether it printed or not.
    pub closed spec fn jobs(&self) -> Seq<(Seq<char>, Seq<char>)> {
        self.jobs@
    }

    /// A sink over `device`.
    pub fn new(device: PrinterHandle) -> (s: PrintSink)
        ensures
            s.queue() == printer_queue(device),
            s.output() == printer_output(device),
            s.jobs() == Seq::<(Seq<char>, Seq<char>)>::empty(),
    {
        PrintSink { device, jobs: Ghost(Seq::empty()) }
    }

    /// Issues one command. Every command but the cut joins the printer's
    /// buffer; the cut joins it too and then writes the whole buffer out.
    fn send(&mut self, step: &Step) -> (r: Result<(), DeviceError>)
        ensures
            always_accepted(step@) ==> r is Ok,
            step@ != Command::PrintCut ==> final(self).output() == old(self).output(),
            step@ != Command::PrintCut && r is Ok ==> final(self).queue() == old(self).queue().push(
                step@,
            ),
            step@ != Command::PrintCut && r is Err ==> final(self).queue() == old(self).queue(),
            step@ == Command::PrintCut && r is Ok ==> final(self).queue() == Seq::<
                Command,
            >::empty() && final(self).output() == old(self).output() + old(self).queue().push(
                Command::PrintCut,
            ),
            step@ == Command::PrintCut && r is Err ==> final(self).queue() == old(
                self,
            ).queue().push(Command::PrintCut),
            final(self).jobs() == old(self).jobs(),
    {
        let res = match step {
            Step::Init => dev_init(&mut self.device),
            Step::Smoothing(on) => dev_smoothing(&mut self.device, *on),
            Step::Bold(on) => dev_bold(&mut self.device, *on),
            Step::Size(w, h) => dev_size(&mut self.device, *w, *h),
            Step::Line(text) => dev_writeln(&mut self.device, text.as_str()),
            Step::Feed => dev_feed(&mut self.device),
            Step::PrintCut => dev_print_cut(&mut self.device),
        };
        device_result(res)
    }

    /// Prepares the device for output; may be called any number of times. The
    /// reset is queued and reaches the device with the next ticket.
    pub fn initialize(&mut self) -> (r: Result<(), DeviceError>)
        ensures
            r is Ok,
            final(self).queue() == old(self).queue().push(Command::Init),
            final(self).output() == old(self).output(),
            final(self).jobs() == old(self).jobs(),
    {
        self.send(&Step::Init)
    }

    /// Prints `ticket`: queues its layout command by command, and the final
    /// cut writes it to the device together with whatever was queued before.
    /// The body goes to the device as it is. Only the cut, which reaches the
    /// device, can fail; the ticket is then dropped from the buffer, so that a
    /// failed job is lost and not printed again with the next one.
    pub fn render(&mut self, ticket: &Ticket) -> (r: Result<(), DeviceError>)
        ensures
            final(self).jobs() == old(self).jobs().push((ticket.header@, ticket.body@)),
            final(self).queue() == Seq::<Command>::empty(),
            r is Ok ==> final(self).output() == old(self).output() + old(self).queue()
                + ticket_layout(ticket.header@, ticket.body@),
    {
        let ghost layout = ticket_layout(ticket.header@, ticket.body@);
        let ghost start = self.queue();
        self.jobs = Ghost(self.jobs@.push((ticket.header@, ticket.body@)));
        let steps = ticket.steps();
        assert(steps@.len() == layout.len());
        let mut i: usize = 0;
        while i + 1 < steps.len()
            invariant
                layout == ticket_layout(ticket.header@, ticket.body@),
                commands_of(steps@) == layout,
                0 <= i <= 11,
                steps.len() == 12,
                start == old(self).queue(),
                self.queue() == start + layout.take(i as int),
                self.output() == old(self).output(),
                self.jobs() == old(self).jobs().push((ticket.header@, ticket.body@)),
            decreases steps.len() - i,
        {
            assert(steps@[i as int]@ == layout[i as int]);
            let r = self.send(&steps[i]);
            assert(layout.take(i as int + 1) =~= layout.take(i as int).push(steps@[i as int]@));
            assert(start + layout.take(i as int + 1) =~= (start + layout.take(i as int)).push(
                steps@[i as int]@,
            ));
            i = i + 1;
        }
        assert(steps@[11]@ == layout[11]);
        let r = self.send(&steps[i]);
        assert(layout.take(11).push(Command::PrintCut) =~= layout);
        assert(start + layout =~= (start + layout.take(11)).push(Command::PrintCut));
        if r.is_err() {
            dev_discard(&mut self.device);
        }
        r
    }
}

} // verus!
