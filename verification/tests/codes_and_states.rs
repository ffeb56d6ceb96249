use std::cmp::Ordering;

use gstreamer::event_type::{EventType, MessageType};
use gstreamer::format_kind::Format;
use gstreamer::return_codes::{
    ClockError, ClockReturn, ClockSuccess, FlowError, FlowReturn, FlowSuccess, PadLinkError,
    PadLinkReturn, PadLinkSuccess, StateChangeError, StateChangeReturn, StateChangeSuccess,
};
use gstreamer::states::{State, StateChange};
use gstreamer::type_find::TypeFindProbability;

#[test]
fn flow_return_from_glib_maps_unknown_codes() {
    assert_eq!(FlowReturn::from_glib(0), FlowReturn::Okay);
    assert_eq!(FlowReturn::from_glib(-2), FlowReturn::Flushing);
    assert_eq!(FlowReturn::from_glib(-7), FlowReturn::Error);
    assert_eq!(FlowReturn::from_glib(-99), FlowReturn::Error);
    assert_eq!(FlowReturn::from_glib(-103), FlowReturn::Error);
    assert_eq!(FlowReturn::from_glib(-101), FlowReturn::CustomError1);
    assert_eq!(FlowReturn::from_glib(1), FlowReturn::Okay);
    assert_eq!(FlowReturn::from_glib(99), FlowReturn::Okay);
    assert_eq!(FlowReturn::from_glib(103), FlowReturn::Okay);
    assert_eq!(FlowReturn::from_glib(102), FlowReturn::CustomSuccess2);
}

#[test]
fn flow_return_glib_roundtrip() {
    for v in [102, 101, 100, 0, -1, -2, -3, -4, -5, -6, -100, -101, -102] {
        assert_eq!(FlowReturn::from_glib(v).into_glib(), v);
    }
}

#[test]
fn flow_return_result_split() {
    assert_eq!(FlowReturn::Okay.into_result(), Ok(FlowSuccess::Okay));
    assert_eq!(FlowReturn::Eos.into_result(), Err(FlowError::Eos));
    assert_eq!(FlowReturn::CustomSuccess.into_result(), Ok(FlowSuccess::CustomSuccess));
    assert_eq!(FlowReturn::from_error(FlowError::NotNegotiated), FlowReturn::NotNegotiated);
    assert_eq!(FlowReturn::from_ok(FlowSuccess::CustomSuccess1), FlowReturn::CustomSuccess1);
    assert_eq!(FlowReturn::from_result(Err(FlowError::Flushing)), FlowReturn::Flushing);
    assert_eq!(FlowReturn::from_result(Ok(FlowSuccess::Okay)), FlowReturn::Okay);
}

#[test]
fn pad_link_return_codes() {
    assert_eq!(PadLinkReturn::Okay.into_glib(), 0);
    assert_eq!(PadLinkReturn::Refused.into_glib(), -6);
    assert_eq!(PadLinkReturn::from_glib(-3), PadLinkReturn::WrongDirection);
    assert_eq!(PadLinkReturn::Okay.into_result(), Ok(PadLinkSuccess));
    assert_eq!(PadLinkReturn::WasLinked.into_result(), Err(PadLinkError::WasLinked));
    assert_eq!(PadLinkReturn::from_error(PadLinkError::Nosched), PadLinkReturn::Nosched);
    assert_eq!(PadLinkReturn::from_ok(PadLinkSuccess), PadLinkReturn::Okay);
}

#[test]
fn state_change_and_clock_returns() {
    assert_eq!(StateChangeReturn::Failure.into_result(), Err(StateChangeError));
    assert_eq!(StateChangeReturn::Async.into_result(), Ok(StateChangeSuccess::Async));
    assert_eq!(StateChangeReturn::from_error(StateChangeError), StateChangeReturn::Failure);
    assert_eq!(StateChangeReturn::from_ok(StateChangeSuccess::NoPreroll), StateChangeReturn::NoPreroll);
    assert_eq!(ClockReturn::Done.into_result(), Ok(ClockSuccess::Done));
    assert_eq!(ClockReturn::Early.into_result(), Err(ClockError::Early));
    assert_eq!(ClockReturn::from_error(ClockError::Busy), ClockReturn::Busy);
    assert_eq!(ClockReturn::from_ok(ClockSuccess::Okay), ClockReturn::Okay);
}

#[test]
fn state_next_moves_one_step() {
    assert_eq!(State::Null.next(State::Playing), State::Ready);
    assert_eq!(State::Ready.next(State::Playing), State::Paused);
    assert_eq!(State::Playing.next(State::Null), State::Paused);
    assert_eq!(State::Paused.next(State::Paused), State::Paused);
    assert_eq!(State::from_glib(4), State::Playing);
    assert_eq!(State::from_glib(7).into_glib(), 7);
    assert_eq!(State::VoidPending.into_glib(), 0);
}

#[test]
fn state_change_parts() {
    let c = StateChange::new(State::Ready, State::Paused);
    assert_eq!(c, StateChange::ReadyToPaused);
    assert_eq!(c.into_glib(), 19);
    assert_eq!(c.current(), State::Ready);
    assert_eq!(c.next(), State::Paused);
    let p = StateChange::new(State::Playing, State::Paused);
    assert_eq!(p, StateChange::PlayingToPaused);
    assert_eq!(p.current(), State::Playing);
    assert_eq!(p.next(), State::Paused);
    assert_eq!(StateChange::from_glib(9), StateChange::NullToNull);
    assert_eq!(StateChange::from_glib(11).into_glib(), 11);
}

#[test]
fn type_find_probability_arithmetic() {
    assert_eq!(TypeFindProbability::from_glib(50), TypeFindProbability::Possible);
    assert_eq!(TypeFindProbability::Likely.into_glib(), 80);
    assert!(TypeFindProbability::Likely > TypeFindProbability::Possible);
    assert!(TypeFindProbability::NotFound < TypeFindProbability::Minimum);
    assert_eq!(TypeFindProbability::Possible + 30u32, TypeFindProbability::Likely);
    assert_eq!(TypeFindProbability::Likely - 30u32, TypeFindProbability::Possible);
    assert_eq!(TypeFindProbability::Minimum - 5u32, TypeFindProbability::NotFound);
    assert_eq!((TypeFindProbability::Maximum + 5u32).into_glib(), 105);
}

#[test]
fn message_and_event_type_values() {
    assert_eq!(MessageType::Eos.into_glib(), 1);
    assert_eq!(MessageType::from_glib(1), MessageType::Eos);
    assert_eq!(MessageType::from_glib(2147483654), MessageType::Redirect);
    assert_eq!(MessageType::from_glib(3).into_glib(), 3);
    assert_eq!(EventType::Eos.into_glib(), 28174);
    assert_eq!(EventType::from_glib(28174), EventType::Eos);
    assert_eq!(EventType::from_glib(7).into_glib(), 7);
    assert!(EventType::Seek.is_upstream());
    assert!(!EventType::Seek.is_downstream());
    assert!(EventType::Caps.is_serialized());
    assert!(EventType::Caps.is_sticky());
    assert!(!EventType::FlushStart.is_serialized());
}

#[test]
fn event_type_partial_order() {
    assert_eq!(EventType::StreamStart.partial_cmp(&EventType::Caps), Some(Ordering::Less));
    assert_eq!(EventType::Segment.partial_cmp(&EventType::Caps), Some(Ordering::Greater));
    assert_eq!(EventType::Eos.partial_cmp(&EventType::Tag), Some(Ordering::Greater));
    assert_eq!(EventType::Eos.partial_cmp(&EventType::Eos), Some(Ordering::Equal));
    assert_eq!(EventType::Tag.partial_cmp(&EventType::Toc), None);
    assert_eq!(EventType::Seek.partial_cmp(&EventType::Caps), None);
    assert_eq!(EventType::__Unknown(-4).partial_cmp(&EventType::Segment), Some(Ordering::Greater));
    assert_eq!(EventType::Segment.partial_cmp(&EventType::__Unknown(-4)), Some(Ordering::Less));
}

#[test]
fn format_glib_values() {
    assert_eq!(Format::Time.into_glib(), 3);
    assert_eq!(Format::from_glib(2), Format::Bytes);
    assert_eq!(Format::from_glib(42).into_glib(), 42);
}
