//! The top-level state machine: plain keys, escape sequences, and delegation
//! to the mouse and device-control decoders.
use std::ops::ControlFlow;
use vstd::prelude::*;

use crate::device_control::{DeviceControl, DeviceControlView};
use crate::event::{Event, EventView, FlowView, emit, events_view, option_view};
use crate::mouse::Mouse;

verus! {

/// Bytes of the input that the state machine tells apart.
pub const ESC: u8 = 0x1b;
pub const INTERRUPT: u8 = 0x03;
pub const CONTROL_INTRODUCER: u8 = 0x5b;
pub const DEVICE_CONTROL_INTRODUCER: u8 = 0x50;
pub const MOUSE_INTRODUCER: u8 = 0x3c;
pub const ARROW_UP: u8 = 0x41;
pub const ARROW_DOWN: u8 = 0x42;
pub const ARROW_RIGHT: u8 = 0x43;
pub const ARROW_LEFT: u8 = 0x44;
/// Key codes that the arrow keys are reported as.
pub const KEY_UP: u8 = 0x26;
pub const KEY_DOWN: u8 = 0x28;
pub const KEY_RIGHT: u8 = 0x27;
pub const KEY_LEFT: u8 = 0x25;

/// Model of the parser's state between two bytes.
pub enum ParseState {
    Char,
    Escape,
    Control,
    Mouse(Mouse),
    DeviceControl(DeviceControlView),
}

/// The parser's state between two bytes: exactly one variant is live.
#[derive(Debug)]
enum Sequence {
    Char,
    Escape,
    Control,
    Mouse(Mouse),
    DeviceControl(DeviceControl),
}

impl View for Sequence {
    type V = ParseState;

    closed spec fn view(&self) -> ParseState {
        match self {
            Sequence::Char => ParseState::Char,
            Sequence::Escape => ParseState::Escape,
            Sequence::Control => ParseState::Control,
            Sequence::Mouse(m) => ParseState::Mouse(*m),
            Sequence::DeviceControl(d) => ParseState::DeviceControl(d@),
        }
    }
}

/// Where control goes after a sub-parser signalled `flow` and left the
/// sub-state `sub`, and what is emitted.
pub open spec fn delegate(sub: ParseState, flow: FlowView) -> (ParseState, Seq<EventView>) {
    match flow {
        ControlFlow::Continue(e) => (sub, option_view(e)),
        ControlFlow::Break(e) => (ParseState::Char, option_view(e)),
    }
}

/// One transition of the state machine on byte `b`: the next state and the
/// events emitted, in order.
pub open spec fn transition(s: ParseState, b: u8) -> (ParseState, Seq<EventView>) {
    match s {
        ParseState::Char => {
            if b == ESC {
                (ParseState::Escape, seq![])
            } else if b == INTERRUPT {
                (ParseState::Char, seq![EventView::Exit])
            } else {
                (ParseState::Char, seq![EventView::KeyPress { key: b }])
            }
        },
        ParseState::Escape => {
            if b == CONTROL_INTRODUCER {
                (ParseState::Control, seq![])
            } else if b == DEVICE_CONTROL_INTRODUCER {
                (ParseState::DeviceControl(DeviceControlView::fresh()), seq![])
            } else if b == ESC {
                (ParseState::Escape, seq![EventView::KeyPress { key: ESC }])
            } else {
                (ParseState::Char, seq![EventView::KeyPress { key: ESC }, EventView::KeyPress { key: b }])
            }
        },
        ParseState::Control => {
            if b == MOUSE_INTRODUCER {
                (ParseState::Mouse(Mouse::fresh()), seq![])
            } else if b == ARROW_UP {
                (ParseState::Char, seq![EventView::KeyPress { key: KEY_UP }])
            } else if b == ARROW_DOWN {
                (ParseState::Char, seq![EventView::KeyPress { key: KEY_DOWN }])
            } else if b == ARROW_RIGHT {
                (ParseState::Char, seq![EventView::KeyPress { key: KEY_RIGHT }])
            } else if b == ARROW_LEFT {
                (ParseState::Char, seq![EventView::KeyPress { key: KEY_LEFT }])
            } else {
                (ParseState::Char, seq![])
            }
        },
        ParseState::Mouse(m) => {
            let (m2, flow) = m.next(b);
            delegate(ParseState::Mouse(m2), flow)
        },
        ParseState::DeviceControl(d) => {
            let (d2, flow) = d.next(b);
            delegate(ParseState::DeviceControl(d2), flow)
        },
    }
}

/// Feeding `bytes` one by one from state `s`: the final state and all the
/// events emitted, in order.
pub open spec fn feed(s: ParseState, bytes: Seq<u8>) -> (ParseState, Seq<EventView>)
    decreases bytes.len(),
{
    if bytes.len() == 0 {
        (s, seq![])
    } else {
        let (s1, e1) = feed(s, bytes.drop_last());
        let (s2, e2) = transition(s1, bytes.last());
        (s2, e1 + e2)
    }
}

/// Carries out one transition on `b`, appending the events to `events`.
fn advance(state: Sequence, b: u8, events: &mut Vec<Event>) -> (next: Sequence)
    ensures
        next@ == transition(state@, b).0,
        events_view(final(events)@) == events_view(old(events)@) + transition(state@, b).1,
{
    let ghost e0 = events_view(events@);
    let ghost t = transition(state@, b);
    let next = match state {
        Sequence::Char => {
            if b == ESC {
                Sequence::Escape
            } else if b == INTERRUPT {
                emit(events, Event::Exit);
                Sequence::Char
            } else {
                emit(events, Event::KeyPress { key: b });
                Sequence::Char
            }
        },
        Sequence::Escape => {
            if b == CONTROL_INTRODUCER {
                Sequence::Control
            } else if b == DEVICE_CONTROL_INTRODUCER {
                Sequence::DeviceControl(DeviceControl::new())
            } else if b == ESC {
                emit(events, Event::KeyPress { key: ESC });
                Sequence::Escape
            } else {
                emit(events, Event::KeyPress { key: ESC });
                emit(events, Event::KeyPress { key: b });
                Sequence::Char
            }
        },
        Sequence::Control => {
            if b == MOUSE_INTRODUCER {
                Sequence::Mouse(Mouse::new())
            } else if b == ARROW_UP {
                emit(events, Event::KeyPress { key: KEY_UP });
                Sequence::Char
            } else if b == ARROW_DOWN {
                emit(events, Event::KeyPress { key: KEY_DOWN });
                Sequence::Char
            } else if b == ARROW_RIGHT {
                emit(events, Event::KeyPress { key: KEY_RIGHT });
                Sequence::Char
            } else if b == ARROW_LEFT {
                emit(events, Event::KeyPress { key: KEY_LEFT });
                Sequence::Char
            } else {
                Sequence::Char
            }
        },
        Sequence::Mouse(mut m) => {
            let flow = m.parse(b);
            match flow {
                ControlFlow::Break(None) => Sequence::Char,
                ControlFlow::Break(Some(e)) => {
                    emit(events, e);
                    Sequence::Char
                },
                ControlFlow::Continue(None) => Sequence::Mouse(m),
                ControlFlow::Continue(Some(e)) => {
                    emit(events, e);
                    Sequence::Mouse(m)
                },
            }
        },
        Sequence::DeviceControl(mut d) => {
            let flow = d.parse(b);
            match flow {
                ControlFlow::Break(None) => Sequence::Char,
                ControlFlow::Break(Some(e)) => {
                    emit(events, e);
                    Sequence::Char
                },
                ControlFlow::Continue(None) => Sequence::DeviceControl(d),
                ControlFlow::Continue(Some(e)) => {
                    emit(events, e);
                    Sequence::DeviceControl(d)
                },
            }
        },
    };
    assert(events_view(events@) =~= e0 + t.1);
    next
}

/// Decoder of a terminal's input stream into events. It keeps the state of a
/// sequence that is not complete yet from one call of [`Parser::parse`] to the
/// next.
#[derive(Debug)]
pub struct Parser {
    sequence: Sequence,
}

impl View for Parser {
    type V = ParseState;

    closed spec fn view(&self) -> ParseState {
        self.sequence@
    }
}

impl Parser {
    /// A parser that waits for plain input.
    pub fn new() -> (p: Parser)
        ensures
            p@ == ParseState::Char,
    {
        Parser { sequence: Sequence::Char }
    }

    /// Decodes the chunk `input`: returns the events that it completes, in
    /// order, and keeps what is left of an unfinished sequence for the next
    /// call. Malformed and unknown sequences are dropped.
    pub fn parse(&mut self, input: &[u8]) -> (events: Vec<Event>)
        ensures
            final(self)@ == feed(old(self)@, input@).0,
            events_view(events@) == feed(old(self)@, input@).1,
    {
        let ghost s0 = self@;
        let mut events: Vec<Event> = Vec::new();
        let mut sequence = Sequence::Char;
        std::mem::swap(&mut sequence, &mut self.sequence);
        let mut i: usize = 0;
        while i < input.len()
            invariant
                i <= input@.len(),
                sequence@ == feed(s0, input@.subrange(0, i as int)).0,
                events_view(events@) == feed(s0, input@.subrange(0, i as int)).1,
            decreases input@.len() - i,
        {
            assert(input@.subrange(0, i + 1).drop_last() =~= input@.subrange(0, i as int));
            sequence = advance(sequence, input[i], &mut events);
            i = i + 1;
        }
        assert(input@.subrange(0, i as int) =~= input@);
        self.sequence = sequence;
        events
    }
}

impl Default for Parser {
    fn default() -> (p: Parser)
        ensures
            p@ == ParseState::Char,
    {
        Parser::new()
    }
}

} // verus!
