use vstd::prelude::*;

use core::cmp::Ordering;

use crate::event_type::{
    event_order_value, event_type_to_raw, order_value, EventType, EVENT_EOS_ORDER,
    EVENT_SEGMENT_ORDER, EVENT_STREAM_START_ORDER, EVENT_TYPE_SERIALIZED,
};
use vstd::std_specs::cmp::PartialOrdSpecImpl;

verus! {

/// The order of two serialized event types, if they are ordered: the types
/// from stream start to segment are ordered by their C value read as
/// unsigned, an end of stream
/// comes after every other type, and other types are not ordered.
pub open spec fn event_type_order(a: EventType, b: EventType) -> Option<Ordering> {
    let ra = event_type_to_raw(a);
    let rb = event_type_to_raw(b);
    if ra & EVENT_TYPE_SERIALIZED == 0 || rb & EVENT_TYPE_SERIALIZED == 0 {
        None
    } else {
        let v1 = event_order_value(ra);
        let v2 = event_order_value(rb);
        if (EVENT_STREAM_START_ORDER <= v1 <= EVENT_SEGMENT_ORDER) || (EVENT_STREAM_START_ORDER <= v2 <= EVENT_SEGMENT_ORDER) {
            Some(int_order(v1, v2))
        } else if v1 == EVENT_EOS_ORDER || v2 == EVENT_EOS_ORDER {
            if v1 == v2 {
                Some(Ordering::Equal)
            } else if v1 == EVENT_EOS_ORDER {
                Some(Ordering::Greater)
            } else {
                Some(Ordering::Less)
            }
        } else {
            None
        }
    }
}

/// The order of two integers.
pub open spec fn int_order(a: i64, b: i64) -> Ordering {
    if a < b {
        Ordering::Less
    } else if a == b {
        Ordering::Equal
    } else {
        Ordering::Greater
    }
}

/// Compares two integers.
fn compare_i64(a: i64, b: i64) -> (r: Ordering)
    ensures
        r == int_order(a, b),
{
    if a < b {
        Ordering::Less
    } else if a == b {
        Ordering::Equal
    } else {
        Ordering::Greater
    }
}

impl PartialOrd for EventType {
    fn partial_cmp(&self, other: &EventType) -> (r: Option<Ordering>) {
        if !self.is_serialized() || !other.is_serialized() {
            return None;
        }
        let v1 = order_value(self.into_glib());
        let v2 = order_value(other.into_glib());
        if (EVENT_STREAM_START_ORDER <= v1 && v1 <= EVENT_SEGMENT_ORDER) || (EVENT_STREAM_START_ORDER <= v2 && v2 <= EVENT_SEGMENT_ORDER) {
            Some(compare_i64(v1, v2))
        } else if v1 == EVENT_EOS_ORDER || v2 == EVENT_EOS_ORDER {
            if v1 == v2 {
                Some(Ordering::Equal)
            } else if v1 == EVENT_EOS_ORDER {
                Some(Ordering::Greater)
            } else {
                Some(Ordering::Less)
            }
        } else {
            None
        }
    }
}

impl PartialOrdSpecImpl for EventType {
    open spec fn obeys_partial_cmp_spec() -> bool {
        true
    }

    open spec fn partial_cmp_spec(&self, other: &EventType) -> Option<Ordering> {
        event_type_order(*self, *other)
    }
}


/// The ordering value of an event type is its C value read as unsigned,
/// except that an instant rate change comes right after a segment; the
/// bounds of the ordered range are the values of stream start and segment,
/// and end of stream has its own value.
pub proof fn lemma_event_order_values(v: i32)
    ensures
        v != event_type_to_raw(EventType::InstantRateChange) ==> event_order_value(v) == (if v >= 0 {
            v as int
        } else {
            v + 0x1_0000_0000
        }),
        event_order_value(event_type_to_raw(EventType::InstantRateChange))
            == event_order_value(event_type_to_raw(EventType::Segment)) + 1,
        EVENT_STREAM_START_ORDER == event_order_value(event_type_to_raw(EventType::StreamStart)),
        EVENT_SEGMENT_ORDER == event_order_value(event_type_to_raw(EventType::Segment)),
        EVENT_EOS_ORDER == event_order_value(event_type_to_raw(EventType::Eos)),
        EVENT_TYPE_SERIALIZED == 4,
{
}

/// An event type that is not serialized is not ordered with any other.
pub proof fn lemma_event_order_unserialized(a: EventType, b: EventType)
    requires
        event_type_to_raw(a) & EVENT_TYPE_SERIALIZED == 0 || event_type_to_raw(b)
            & EVENT_TYPE_SERIALIZED == 0,
    ensures
        event_type_order(a, b) is None,
{
}

/// Two serialized event types, one of which lies from stream start to
/// segment (both included), are ordered as their ordering values are.
pub proof fn lemma_event_order_in_range(a: EventType, b: EventType)
    requires
        event_type_to_raw(a) & EVENT_TYPE_SERIALIZED != 0,
        event_type_to_raw(b) & EVENT_TYPE_SERIALIZED != 0,
        EVENT_STREAM_START_ORDER <= event_order_value(event_type_to_raw(a)) <= EVENT_SEGMENT_ORDER
            || EVENT_STREAM_START_ORDER <= event_order_value(event_type_to_raw(b))
            <= EVENT_SEGMENT_ORDER,
    ensures
        ({
            let v1 = event_order_value(event_type_to_raw(a));
            let v2 = event_order_value(event_type_to_raw(b));
            &&& event_type_order(a, b) is Some
            &&& event_type_order(a, b) == Some(Ordering::Less) <==> v1 < v2
            &&& event_type_order(a, b) == Some(Ordering::Equal) <==> v1 == v2
            &&& event_type_order(a, b) == Some(Ordering::Greater) <==> v1 > v2
        }),
{
}

/// Outside the range from stream start to segment, an end of stream comes
/// after every other serialized event type, and other types are not
/// ordered.
pub proof fn lemma_event_order_out_of_range(a: EventType, b: EventType)
    requires
        event_type_to_raw(a) & EVENT_TYPE_SERIALIZED != 0,
        event_type_to_raw(b) & EVENT_TYPE_SERIALIZED != 0,
        !(EVENT_STREAM_START_ORDER <= event_order_value(event_type_to_raw(a))
            <= EVENT_SEGMENT_ORDER),
        !(EVENT_STREAM_START_ORDER <= event_order_value(event_type_to_raw(b))
            <= EVENT_SEGMENT_ORDER),
    ensures
        ({
            let a_eos = event_order_value(event_type_to_raw(a)) == EVENT_EOS_ORDER;
            let b_eos = event_order_value(event_type_to_raw(b)) == EVENT_EOS_ORDER;
            &&& a_eos && b_eos ==> event_type_order(a, b) == Some(Ordering::Equal)
            &&& a_eos && !b_eos ==> event_type_order(a, b) == Some(Ordering::Greater)
            &&& !a_eos && b_eos ==> event_type_order(a, b) == Some(Ordering::Less)
            &&& !a_eos && !b_eos ==> event_type_order(a, b) is None
        }),
{
}

/// A serialized event type in the ordered range, or an end of stream, is
/// equal to itself.
pub proof fn lemma_event_order_reflexive(a: EventType)
    requires
        event_type_to_raw(a) & EVENT_TYPE_SERIALIZED != 0,
        EVENT_STREAM_START_ORDER <= event_order_value(event_type_to_raw(a)) <= EVENT_SEGMENT_ORDER
            || event_order_value(event_type_to_raw(a)) == EVENT_EOS_ORDER,
    ensures
        event_type_order(a, a) == Some(Ordering::Equal),
{
}

} // verus!
