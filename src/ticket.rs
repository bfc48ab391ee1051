//! A ticket: the unit printed for one inbound message, and the printer commands
//! that lay it out.

use vstd::prelude::*;

verus! {

broadcast use vstd::string::group_string_axioms;

/// What the device is asked to do by one command, as a value.
pub enum Command {
    Init,
    Smoothing(bool),
    Bold(bool),
    Size(u8, u8),
    Line(Seq<char>),
    Feed,
    PrintCut,
}

/// One printer command of a ticket's layout.
pub enum Step {
    /// Reset the device to its defaults.
    Init,
    /// Smoothing mode on or off.
    Smoothing(bool),
    /// Bold text on or off.
    Bold(bool),
    /// Character width and height multipliers.
    Size(u8, u8),
    /// A line of text followed by a line feed.
    Line(String),
    /// One line feed.
    Feed,
    /// A full cut, after which every queued command is sent to the device.
    PrintCut,
}

impl View for Step {
    type V = Command;

    open spec fn view(&self) -> Command {
        match self {
            Step::Init => Command::Init,
            Step::Smoothing(on) => Command::Smoothing(*on),
            Step::Bold(on) => Command::Bold(*on),
            Step::Size(w, h) => Command::Size(*w, *h),
            Step::Line(text) => Command::Line(text@),
            Step::Feed => Command::Feed,
            Step::PrintCut => Command::PrintCut,
        }
    }
}

/// The commands of a sequence of steps.
pub open spec fn commands_of(steps: Seq<Step>) -> Seq<Command> {
    steps.map_values(|s: Step| s@)
}

/// The label printed at the top of every ticket.
pub open spec fn header_label() -> Seq<char> {
    "NEW MESSAGE"@
}

/// The layout of a ticket: a defensive reset, the header bold and enlarged to
/// twice the normal width and height, a blank line, the body as it came at the
/// normal size, a trailing feed, and a cut.
pub open spec fn ticket_layout(header: Seq<char>, body: Seq<char>) -> Seq<Command> {
    seq![
        Command::Init,
        Command::Smoothing(true),
        Command::Bold(true),
        Command::Size(2, 2),
        Command::Line(header),
        Command::Bold(false),
        Command::Size(1, 1),
        Command::Feed,
        Command::Line(body),
        Command::Feed,
        Command::Feed,
        Command::PrintCut,
    ]
}

/// The printed form of one inbound text message.
pub struct Ticket {
    pub header: String,
    pub body: String,
}

impl Ticket {
    /// The ticket for a message whose text is `body`, under the fixed header.
    pub fn new(body: &str) -> (t: Ticket)
        ensures
            t.header@ == header_label(),
            t.body@ == body@,
    {
        Ticket { header: "NEW MESSAGE".to_string(), body: body.to_string() }
    }

    /// The printer commands that print this ticket, in order.
    pub fn steps(&self) -> (r: Vec<Step>)
        ensures
            commands_of(r@) == ticket_layout(self.header@, self.body@),
    {
        let mut r: Vec<Step> = Vec::new();
        r.push(Step::Init);
        r.push(Step::Smoothing(true));
        r.push(Step::Bold(true));
        r.push(Step::Size(2, 2));
        r.push(Step::Line(self.header.clone()));
        r.push(Step::Bold(false));
        r.push(Step::Size(1, 1));
        r.push(Step::Feed);
        r.push(Step::Line(self.body.clone()));
        r.push(Step::Feed);
        r.push(Step::Feed);
        r.push(Step::PrintCut);
        assert(commands_of(r@) =~= ticket_layout(self.header@, self.body@));
        r
    }
}

} // verus!
