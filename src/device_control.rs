//! Decoder for a device control string: the bytes that follow `ESC P`, up to
//! the string terminator `ESC \`.
//!
//! Two replies are recognised: `>|name` (the terminal's name and version) and
//! `1+r524742...` (the terminal confirms the `RGB` capability, that is 24-bit
//! colour). Any other string is consumed and dropped.
use std::ops::ControlFlow;
use vstd::prelude::*;

use crate::event::{
    Event, EventView, FlowView, ParseControlFlow, TerminalEvent, TerminalEventView, flow_view,
    option_event_view,
};

verus! {

/// Bytes of a string that are kept; the rest, up to the terminator, is read
/// and dropped, so that the state stays bounded.
pub const MAX_PAYLOAD: usize = 256;

/// `ESC \` ends the string; `>|` leads a name reply.
pub const ESCAPE: u8 = 0x1b;
pub const TERMINATOR: u8 = 0x5c;
pub const NAME_LEAD: u8 = 0x3e;
pub const NAME_SEPARATOR: u8 = 0x7c;

/// Model of a [`DeviceControl`].
pub struct DeviceControlView {
    pub payload: Seq<u8>,
    pub escape: bool,
}

/// A device control string in progress: the bytes kept so far, and whether
/// the last byte was an `ESC`.
#[derive(Debug)]
pub struct DeviceControl {
    pub payload: Vec<u8>,
    pub escape: bool,
}

impl View for DeviceControl {
    type V = DeviceControlView;

    open spec fn view(&self) -> DeviceControlView {
        DeviceControlView { payload: self.payload@, escape: self.escape }
    }
}

/// The name reply: `>` and `|` lead it.
pub open spec fn is_name_reply(p: Seq<u8>) -> bool {
    p.len() >= 2 && p[0] == NAME_LEAD && p[1] == NAME_SEPARATOR
}

/// The positive answer to the query for the `RGB` capability.
pub open spec fn true_color_reply() -> Seq<u8> {
    seq![0x31u8, 0x2b, 0x72, 0x35, 0x32, 0x34, 0x37, 0x34, 0x32]
}

/// The characters of a name, one for each byte.
pub open spec fn name_chars(bytes: Seq<u8>) -> Seq<char> {
    bytes.map_values(|b: u8| b as char)
}

/// What a complete string reports.
pub open spec fn reply_view(p: Seq<u8>) -> Option<EventView> {
    if is_name_reply(p) {
        Some(EventView::Terminal(TerminalEventView::Name(name_chars(p.skip(2)))))
    } else if true_color_reply().is_prefix_of(p) {
        Some(EventView::Terminal(TerminalEventView::TrueColorSupported))
    } else {
        None
    }
}

impl DeviceControlView {
    pub open spec fn fresh() -> DeviceControlView {
        DeviceControlView { payload: Seq::empty(), escape: false }
    }

    /// One step of the decoder: the next state and what it signals. An `ESC`
    /// followed by anything but `\` abandons the string.
    pub open spec fn next(self, b: u8) -> (DeviceControlView, FlowView) {
        if self.escape {
            if b == TERMINATOR {
                (self, ControlFlow::Break(reply_view(self.payload)))
            } else {
                (self, ControlFlow::Break(None))
            }
        } else if b == ESCAPE {
            (DeviceControlView { escape: true, ..self }, ControlFlow::Continue(None))
        } else if self.payload.len() < MAX_PAYLOAD {
            (DeviceControlView { payload: self.payload.push(b), ..self }, ControlFlow::Continue(None))
        } else {
            (self, ControlFlow::Continue(None))
        }
    }
}

/// Relies on `String::push`: appends the character to the end of the string.
#[verifier::external_body]
fn push_char(s: &mut String, c: char)
    ensures
        final(s)@ == old(s)@.push(c),
{
    s.push(c)
}

fn name_of(bytes: &Vec<u8>, start: usize) -> (name: String)
    requires
        start <= bytes@.len(),
    ensures
        name@ == name_chars(bytes@.skip(start as int)),
{
    let mut name = String::new();
    let mut i: usize = start;
    while i < bytes.len()
        invariant
            start <= i <= bytes@.len(),
            name@ == name_chars(bytes@.subrange(start as int, i as int)),
        decreases bytes@.len() - i,
    {
        push_char(&mut name, bytes[i] as char);
        assert(bytes@.subrange(start as int, i + 1) =~= bytes@.subrange(start as int, i as int).push(bytes@[i as int]));
        assert(name_chars(bytes@.subrange(start as int, i + 1)) =~= name_chars(bytes@.subrange(start as int, i as int)).push(bytes@[i as int] as char));
        i = i + 1;
    }
    assert(bytes@.subrange(start as int, i as int) =~= bytes@.skip(start as int));
    name
}

fn has_true_color_prefix(p: &Vec<u8>) -> (r: bool)
    ensures
        r == true_color_reply().is_prefix_of(p@),
{
    let reply: [u8; 9] = [0x31, 0x2b, 0x72, 0x35, 0x32, 0x34, 0x37, 0x34, 0x32];
    assert(reply@ =~= true_color_reply());
    if p.len() < 9 {
        return false;
    }
    let mut i: usize = 0;
    while i < 9
        invariant
            i <= 9 <= p@.len(),
            reply@ == true_color_reply(),
            forall|j: int| 0 <= j < i ==> p@[j] == true_color_reply()[j],
        decreases 9 - i,
    {
        if p[i] != reply[i] {
            return false;
        }
        i = i + 1;
    }
    true
}

fn reply(p: &Vec<u8>) -> (e: Option<Event>)
    ensures
        option_event_view(e) == reply_view(p@),
{
    if p.len() >= 2 && p[0] == NAME_LEAD && p[1] == NAME_SEPARATOR {
        Some(Event::Terminal(TerminalEvent::Name(name_of(p, 2))))
    } else if has_true_color_prefix(p) {
        Some(Event::Terminal(TerminalEvent::TrueColorSupported))
    } else {
        None
    }
}

impl DeviceControl {
    pub fn new() -> (d: DeviceControl)
        ensures
            d@ == DeviceControlView::fresh(),
    {
        DeviceControl { payload: Vec::new(), escape: false }
    }

    /// Feeds one byte of the string to the decoder.
    pub fn parse(&mut self, b: u8) -> (flow: ParseControlFlow)
        ensures
            (final(self)@, flow_view(flow)) == old(self)@.next(b),
    {
        if self.escape {
            if b == TERMINATOR {
                ControlFlow::Break(reply(&self.payload))
            } else {
                ControlFlow::Break(None)
            }
        } else if b == ESCAPE {
            self.escape = true;
            ControlFlow::Continue(None)
        } else if self.payload.len() < MAX_PAYLOAD {
            self.payload.push(b);
            ControlFlow::Continue(None)
        } else {
            ControlFlow::Continue(None)
        }
    }
}

} // verus!
