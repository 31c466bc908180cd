//! The events that the parser emits, and their mathematical models.
use std::ops::ControlFlow;
use vstd::prelude::*;

verus! {

/// An out-of-band report from the terminal about itself.
#[derive(Debug, PartialEq, Eq)]
pub enum TerminalEvent {
    /// The terminal's name and version, as it reported them.
    Name(String),
    /// The terminal answered that it can draw 24-bit colour.
    TrueColorSupported,
}

/// A decoded unit of terminal input.
#[derive(Debug, PartialEq, Eq)]
pub enum Event {
    KeyPress { key: u8 },
    MouseUp { row: usize, col: usize },
    MouseDown { row: usize, col: usize },
    MouseMove { row: usize, col: usize },
    Scroll { delta: isize },
    Terminal(TerminalEvent),
    Exit,
}

/// Model of a [`TerminalEvent`]: the name is a sequence of characters.
pub enum TerminalEventView {
    Name(Seq<char>),
    TrueColorSupported,
}

/// Model of an [`Event`].
pub enum EventView {
    KeyPress { key: u8 },
    MouseUp { row: usize, col: usize },
    MouseDown { row: usize, col: usize },
    MouseMove { row: usize, col: usize },
    Scroll { delta: isize },
    Terminal(TerminalEventView),
    Exit,
}

impl View for TerminalEvent {
    type V = TerminalEventView;

    open spec fn view(&self) -> TerminalEventView {
        match self {
            TerminalEvent::Name(name) => TerminalEventView::Name(name@),
            TerminalEvent::TrueColorSupported => TerminalEventView::TrueColorSupported,
        }
    }
}

impl View for Event {
    type V = EventView;

    open spec fn view(&self) -> EventView {
        match self {
            Event::KeyPress { key } => EventView::KeyPress { key: *key },
            Event::MouseUp { row, col } => EventView::MouseUp { row: *row, col: *col },
            Event::MouseDown { row, col } => EventView::MouseDown { row: *row, col: *col },
            Event::MouseMove { row, col } => EventView::MouseMove { row: *row, col: *col },
            Event::Scroll { delta } => EventView::Scroll { delta: *delta },
            Event::Terminal(info) => EventView::Terminal(info@),
            Event::Exit => EventView::Exit,
        }
    }
}

/// The models of a sequence of events, in order.
pub open spec fn events_view(events: Seq<Event>) -> Seq<EventView> {
    events.map_values(|e: Event| e@)
}

/// The models of an optional event: empty, or the one event.
pub open spec fn option_view(event: Option<EventView>) -> Seq<EventView> {
    match event {
        Some(e) => seq![e],
        None => Seq::empty(),
    }
}

/// Appends `event` to `events`.
pub(crate) fn emit(events: &mut Vec<Event>, event: Event)
    ensures
        events_view(final(events)@) == events_view(old(events)@).push(event@),
{
    events.push(event);
    assert(events_view(events@) =~= events_view(old(events)@).push(event@));
}

/// What a sub-parser says after one byte: `Continue` while its sequence goes
/// on, `Break` once it is complete or abandoned; either may carry an event.
pub type ParseControlFlow = ControlFlow<Option<Event>, Option<Event>>;

/// Model of a [`ParseControlFlow`].
pub type FlowView = ControlFlow<Option<EventView>, Option<EventView>>;

pub open spec fn option_event_view(e: Option<Event>) -> Option<EventView> {
    match e {
        Some(e) => Some(e@),
        None => None,
    }
}

pub open spec fn flow_view(flow: ParseControlFlow) -> FlowView {
    match flow {
        ControlFlow::Continue(e) => ControlFlow::Continue(option_event_view(e)),
        ControlFlow::Break(e) => ControlFlow::Break(option_event_view(e)),
    }
}

} // verus!
