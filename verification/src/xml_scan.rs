//! The decision of the XML well-formedness check: a stream passes when it
//! reaches its end without a parse error and holds at least one element.

use vstd::prelude::*;

verus! {

/// One event of an XML reader, reduced to what the check needs.
#[derive(PartialEq, Eq, Structural, Clone, Copy, Debug)]
pub enum XmlEvent {
    /// An opening tag.
    Start,
    /// A self-closing tag.
    Empty,
    /// Any other event: text, comments, closing tags and so on.
    Other,
    /// The end of the input.
    Eof,
    /// A parse error.
    Error,
}

/// Where the check stands after an event.
#[derive(PartialEq, Eq, Structural, Clone, Copy, Debug)]
pub enum ScanStep {
    /// Read on; the flag tells whether an element was seen.
    Continue(bool),
    /// The check is over, with this result.
    Done(bool),
}

/// The step the check takes on `event` after having seen an element or not.
pub open spec fn scan_step_spec(saw_element: bool, event: XmlEvent) -> ScanStep {
    match event {
        XmlEvent::Eof => ScanStep::Done(saw_element),
        XmlEvent::Error => ScanStep::Done(false),
        XmlEvent::Start | XmlEvent::Empty => ScanStep::Continue(true),
        XmlEvent::Other => ScanStep::Continue(saw_element),
    }
}

/// One step of the check: the end of input gives the flag, an error gives
/// `false`, an element sets the flag, any other event keeps it.
pub fn scan_step(saw_element: bool, event: XmlEvent) -> (r: ScanStep)
    ensures
        r == scan_step_spec(saw_element, event),
{
    match event {
        XmlEvent::Eof => ScanStep::Done(saw_element),
        XmlEvent::Error => ScanStep::Done(false),
        XmlEvent::Start | XmlEvent::Empty => ScanStep::Continue(true),
        XmlEvent::Other => ScanStep::Continue(saw_element),
    }
}

/// Steps the check through `events` from a flag: the result once an event
/// ends it, or `None` when the events run out first.
pub open spec fn run_scan(saw_element: bool, events: Seq<XmlEvent>) -> Option<bool>
    decreases events.len(),
{
    if events.len() == 0 {
        None
    } else {
        match scan_step_spec(saw_element, events[0]) {
            ScanStep::Done(b) => Some(b),
            ScanStep::Continue(s) => run_scan(s, events.drop_first()),
        }
    }
}

/// Whether the event is an element.
pub open spec fn is_element(e: XmlEvent) -> bool {
    e == XmlEvent::Start || e == XmlEvent::Empty
}

/// Whether the event ends the stream.
pub open spec fn is_final(e: XmlEvent) -> bool {
    e == XmlEvent::Eof || e == XmlEvent::Error
}

/// The index of the first event that ends the stream.
pub open spec fn end_index(events: Seq<XmlEvent>, k: int) -> bool {
    0 <= k < events.len() && is_final(events[k]) && forall|j: int| 0 <= j < k ==> !is_final(#[trigger] events[j])
}

/// The check accepts a stream exactly when its first ending event is the
/// end of input (not an error) and an element comes before it; it
/// refuses one whose first ending event is an error or that holds no
/// element before its end.
pub proof fn scan_accepts_exactly_well_formed(saw_element: bool, events: Seq<XmlEvent>, k: int)
    requires
        end_index(events, k),
    ensures
        run_scan(saw_element, events) == Some(
            events[k] == XmlEvent::Eof && (saw_element || exists|j: int| 0 <= j < k && is_element(#[trigger] events[j])),
        ),
    decreases events.len(),
{
    if k > 0 {
        let rest = events.drop_first();
        let s = is_element(events[0]) || saw_element;
        assert(end_index(rest, k - 1)) by {
            assert forall|j: int| 0 <= j < k - 1 implies !is_final(#[trigger] rest[j]) by {
                assert(rest[j] == events[j + 1]);
            }
        }
        scan_accepts_exactly_well_formed(s, rest, k - 1);
        assert(!is_final(events[0]));
        if exists|j: int| 0 <= j < k - 1 && is_element(#[trigger] rest[j]) {
            let j = choose|j: int| 0 <= j < k - 1 && is_element(#[trigger] rest[j]);
            assert(is_element(events[j + 1]));
        }
        if exists|j: int| 0 <= j < k && is_element(#[trigger] events[j]) {
            let j = choose|j: int| 0 <= j < k && is_element(#[trigger] events[j]);
            if j > 0 {
                assert(is_element(rest[j - 1]));
            }
        }
    }
}

} // verus!
