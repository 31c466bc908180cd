//! Laws of the parser, stated over its model and proved.
use vstd::prelude::*;

use crate::device_control::DeviceControlView;
use crate::event::EventView;
use crate::mouse::Mouse;
use crate::parser::{
    CONTROL_INTRODUCER, DEVICE_CONTROL_INTRODUCER, ESC, INTERRUPT, MOUSE_INTRODUCER, ParseState,
    feed, transition,
};

verus! {

/// Feeding the chunks one call after another from state `s`: the final state
/// and the events of all the calls, concatenated in order.
pub open spec fn feed_chunks(s: ParseState, chunks: Seq<Seq<u8>>) -> (ParseState, Seq<EventView>)
    decreases chunks.len(),
{
    if chunks.len() == 0 {
        (s, seq![])
    } else {
        let (s1, e1) = feed(s, chunks[0]);
        let (s2, e2) = feed_chunks(s1, chunks.drop_first());
        (s2, e1 + e2)
    }
}

/// Where a chunk ends does not matter: feeding `a` and then `b` from `s`
/// ends in the state that feeding `a + b` at once ends in, and emits the same
/// events in the same order.
pub proof fn lemma_feed_split(s: ParseState, a: Seq<u8>, b: Seq<u8>)
    ensures
        feed(s, a + b).0 == feed(feed(s, a).0, b).0,
        feed(s, a + b).1 == feed(s, a).1 + feed(feed(s, a).0, b).1,
    decreases b.len(),
{
    if b.len() == 0 {
        assert(a + b =~= a);
        assert(feed(s, a).1 + feed(feed(s, a).0, b).1 =~= feed(s, a).1);
    } else {
        lemma_feed_split(s, a, b.drop_last());
        assert((a + b).drop_last() =~= a + b.drop_last());
        assert((a + b).last() == b.last());
        let mid = feed(s, a).0;
        let t = transition(feed(mid, b.drop_last()).0, b.last());
        assert(feed(s, a + b).1 =~= feed(s, a).1 + (feed(mid, b.drop_last()).1 + t.1));
    }
}

/// No byte is lost across chunking: for any partition of a byte stream into
/// chunks, feeding the chunks in successive calls yields the final state and
/// the concatenated events of feeding the whole stream in one call.
pub proof fn lemma_chunking(s: ParseState, chunks: Seq<Seq<u8>>)
    ensures
        feed_chunks(s, chunks) == feed(s, chunks.flatten()),
    decreases chunks.len(),
{
    if chunks.len() == 0 {
    } else {
        lemma_chunking(feed(s, chunks[0]).0, chunks.drop_first());
        lemma_feed_split(s, chunks[0], chunks.drop_first().flatten());
        let s1 = feed(s, chunks[0]).0;
        assert(feed_chunks(s, chunks).1 == feed(s, chunks[0]).1 + feed(s1, chunks.drop_first().flatten()).1);
    }
}

/// Bytes that are neither `ESC` nor the interrupt byte.
pub open spec fn is_plain(bytes: Seq<u8>) -> bool {
    forall|i: int| 0 <= i < bytes.len() ==> bytes[i] != ESC && bytes[i] != INTERRUPT
}

/// The key presses of `bytes`, one for each byte, in order.
pub open spec fn key_presses(bytes: Seq<u8>) -> Seq<EventView> {
    bytes.map_values(|b: u8| EventView::KeyPress { key: b })
}

/// Plain text passes through: from the plain state, bytes that hold neither
/// `ESC` nor the interrupt byte yield one key press per byte, in order and
/// value for value, and leave the parser in the plain state.
pub proof fn lemma_plain_text(bytes: Seq<u8>)
    requires
        is_plain(bytes),
    ensures
        feed(ParseState::Char, bytes) == (ParseState::Char, key_presses(bytes)),
    decreases bytes.len(),
{
    if bytes.len() == 0 {
        assert(key_presses(bytes) =~= seq![]);
    } else {
        let init = bytes.drop_last();
        assert(is_plain(init)) by {
            assert forall|i: int| 0 <= i < init.len() implies init[i] != ESC && init[i] != INTERRUPT by {
                assert(init[i] == bytes[i]);
            }
        }
        lemma_plain_text(init);
        assert(bytes.last() == bytes[bytes.len() - 1]);
        assert(key_presses(bytes) =~= key_presses(init) + seq![EventView::KeyPress { key: bytes.last() }]);
    }
}

/// Once `ESC [ <` has been read, whatever follows, in this chunk or a later
/// one, goes to a fresh mouse decoder, and nothing was emitted before it.
pub proof fn lemma_mouse_lead_in(rest: Seq<u8>)
    ensures
        feed(ParseState::Char, seq![ESC, CONTROL_INTRODUCER, MOUSE_INTRODUCER] + rest)
            == feed(ParseState::Mouse(Mouse::fresh()), rest),
{
    let lead = seq![ESC, CONTROL_INTRODUCER, MOUSE_INTRODUCER];
    assert(lead.drop_last() =~= seq![ESC, CONTROL_INTRODUCER]);
    assert(lead.drop_last().drop_last() =~= seq![ESC]);
    assert(lead.drop_last().drop_last().drop_last() =~= seq![]);
    let one = lead.drop_last().drop_last();
    let two = lead.drop_last();
    assert(one.last() == ESC && two.last() == CONTROL_INTRODUCER && lead.last() == MOUSE_INTRODUCER);
    assert(feed(ParseState::Char, one.drop_last()) == (ParseState::Char, Seq::<EventView>::empty()));
    assert(feed(ParseState::Char, one).1 =~= Seq::<EventView>::empty());
    assert(feed(ParseState::Char, one).0 == ParseState::Escape);
    assert(feed(ParseState::Char, two).1 =~= Seq::<EventView>::empty());
    assert(feed(ParseState::Char, two).0 == ParseState::Control);
    assert(feed(ParseState::Char, lead).1 =~= Seq::<EventView>::empty());
    lemma_feed_split(ParseState::Char, lead, rest);
    assert(Seq::<EventView>::empty() + feed(ParseState::Mouse(Mouse::fresh()), rest).1
        =~= feed(ParseState::Mouse(Mouse::fresh()), rest).1);
}

/// Once `ESC P` has been read, whatever follows, in this chunk or a later one,
/// goes to a fresh device-control decoder, and nothing was emitted before it.
pub proof fn lemma_device_control_lead_in(rest: Seq<u8>)
    ensures
        feed(ParseState::Char, seq![ESC, DEVICE_CONTROL_INTRODUCER] + rest)
            == feed(ParseState::DeviceControl(DeviceControlView::fresh()), rest),
{
    let lead = seq![ESC, DEVICE_CONTROL_INTRODUCER];
    let fresh = ParseState::DeviceControl(DeviceControlView::fresh());
    assert(lead.drop_last() =~= seq![ESC]);
    assert(lead.drop_last().drop_last() =~= seq![]);
    let one = lead.drop_last();
    assert(one.last() == ESC && lead.last() == DEVICE_CONTROL_INTRODUCER);
    assert(feed(ParseState::Char, one.drop_last()) == (ParseState::Char, Seq::<EventView>::empty()));
    assert(feed(ParseState::Char, one).1 =~= Seq::<EventView>::empty());
    assert(feed(ParseState::Char, one).0 == ParseState::Escape);
    assert(feed(ParseState::Char, lead).1 =~= Seq::<EventView>::empty());
    assert(feed(ParseState::Char, lead).0 == fresh);
    lemma_feed_split(ParseState::Char, lead, rest);
    assert(Seq::<EventView>::empty() + feed(fresh, rest).1 =~= feed(fresh, rest).1);
}

} // verus!
