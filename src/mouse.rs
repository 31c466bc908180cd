//! Decoder for an SGR mouse report: the bytes that follow `ESC [ <`.
//!
//! A report reads `Cb ; Cx ; Cy` and ends in `M` (pressed) or `m`
//! (released). `Cb` is the button code, `Cx` the column and `Cy` the row, as
//! decimal numbers; the coordinates are passed on as the terminal sent them.
use std::ops::ControlFlow;
use vstd::prelude::*;

use crate::event::{Event, EventView, FlowView, ParseControlFlow, flow_view};

verus! {

/// Bytes of a report: the digits, `;` and the two terminators.
pub const DIGIT_ZERO: u8 = 0x30;
pub const DIGIT_NINE: u8 = 0x39;
pub const SEPARATOR: u8 = 0x3b;
pub const PRESS_END: u8 = 0x4d;
pub const RELEASE_END: u8 = 0x6d;

/// A mouse report in progress: the three numbers read so far, and which of
/// them the digits now go to (0: button, 1: column, 2 or more: row).
#[derive(Debug, Clone, Copy, PartialEq, Eq)]
pub struct Mouse {
    pub button: usize,
    pub col: usize,
    pub row: usize,
    pub field: u8,
}

/// The event that a complete report stands for. Bit 64 of the button code
/// marks the wheel (bit 1 set: down, else up), bit 32 a motion; otherwise a
/// press or a release.
pub open spec fn report_view(button: usize, col: usize, row: usize, pressed: bool) -> EventView {
    if button & 64 != 0 {
        EventView::Scroll { delta: if button & 1 == 0 { -1isize } else { 1isize } }
    } else if button & 32 != 0 {
        EventView::MouseMove { row, col }
    } else if pressed {
        EventView::MouseDown { row, col }
    } else {
        EventView::MouseUp { row, col }
    }
}

fn report(button: usize, col: usize, row: usize, pressed: bool) -> (e: Event)
    ensures
        e@ == report_view(button, col, row, pressed),
{
    if button & 64 != 0 {
        Event::Scroll { delta: if button & 1 == 0 { -1 } else { 1 } }
    } else if button & 32 != 0 {
        Event::MouseMove { row, col }
    } else if pressed {
        Event::MouseDown { row, col }
    } else {
        Event::MouseUp { row, col }
    }
}

impl Mouse {
    /// The state at the start of a report.
    pub open spec fn fresh() -> Mouse {
        Mouse { button: 0, col: 0, row: 0, field: 0 }
    }

    /// The number that digits are being added to.
    pub open spec fn current(self) -> usize {
        if self.field == 0 {
            self.button
        } else if self.field == 1 {
            self.col
        } else {
            self.row
        }
    }

    /// The state with the number that digits go to replaced by `v`.
    pub open spec fn with_current(self, v: usize) -> Mouse {
        if self.field == 0 {
            Mouse { button: v, ..self }
        } else if self.field == 1 {
            Mouse { col: v, ..self }
        } else {
            Mouse { row: v, ..self }
        }
    }

    /// One step of the decoder: the next state and what it signals.
    /// A number too large for `usize`, a fourth field, a terminator before the
    /// third field or any other byte abandons the report.
    pub open spec fn next(self, b: u8) -> (Mouse, FlowView) {
        if DIGIT_ZERO <= b <= DIGIT_NINE {
            let v = self.current() * 10 + (b - DIGIT_ZERO);
            if v <= usize::MAX {
                (self.with_current(v as usize), ControlFlow::Continue(None))
            } else {
                (self, ControlFlow::Break(None))
            }
        } else if b == SEPARATOR && self.field < 2 {
            (Mouse { field: (self.field + 1) as u8, ..self }, ControlFlow::Continue(None))
        } else if (b == PRESS_END || b == RELEASE_END) && self.field >= 2 {
            (self, ControlFlow::Break(Some(report_view(self.button, self.col, self.row, b == PRESS_END))))
        } else {
            (self, ControlFlow::Break(None))
        }
    }

    pub fn new() -> (m: Mouse)
        ensures
            m == Mouse::fresh(),
    {
        Mouse { button: 0, col: 0, row: 0, field: 0 }
    }

    /// Feeds one byte of the report to the decoder.
    pub fn parse(&mut self, b: u8) -> (flow: ParseControlFlow)
        ensures
            (*final(self), flow_view(flow)) == old(self).next(b),
    {
        if DIGIT_ZERO <= b && b <= DIGIT_NINE {
            let d = (b - DIGIT_ZERO) as usize;
            let cur = if self.field == 0 {
                self.button
            } else if self.field == 1 {
                self.col
            } else {
                self.row
            };
            match cur.checked_mul(10) {
                Some(t) => match t.checked_add(d) {
                    Some(v) => {
                        if self.field == 0 {
                            self.button = v;
                        } else if self.field == 1 {
                            self.col = v;
                        } else {
                            self.row = v;
                        }
                        ControlFlow::Continue(None)
                    },
                    None => ControlFlow::Break(None),
                },
                None => ControlFlow::Break(None),
            }
        } else if b == SEPARATOR && self.field < 2 {
            self.field = self.field + 1;
            ControlFlow::Continue(None)
        } else if (b == PRESS_END || b == RELEASE_END) && self.field >= 2 {
            ControlFlow::Break(Some(report(self.button, self.col, self.row, b == PRESS_END)))
        } else {
            ControlFlow::Break(None)
        }
    }
}

} // verus!
