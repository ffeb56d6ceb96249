use vstd::prelude::*;

verus! {

/// The kind of a bus message.
#[derive(Debug, PartialEq, Eq, Structural, Hash, Clone, Copy)]
pub enum MessageType {
    Unknown,
    Eos,
    Error,
    Warning,
    Info,
    Tag,
    Buffering,
    StateChanged,
    StateDirty,
    StepDone,
    ClockProvide,
    ClockLost,
    NewClock,
    StructureChange,
    StreamStatus,
    Application,
    Element,
    SegmentStart,
    SegmentDone,
    DurationChanged,
    Latency,
    AsyncStart,
    AsyncDone,
    RequestState,
    StepStart,
    Qos,
    Progress,
    Toc,
    ResetTime,
    StreamStart,
    NeedContext,
    HaveContext,
    Extended,
    DeviceAdded,
    DeviceRemoved,
    PropertyNotify,
    StreamCollection,
    StreamsSelected,
    Redirect,
    __Unknown(i32),
}

/// The C value of a message type: a single bit, or an extended kind above
/// bit 31.
pub open spec fn message_type_to_raw(t: MessageType) -> u32 {
    match t {
        MessageType::Unknown => 0u32,
        MessageType::Eos => 1u32,
        MessageType::Error => 2u32,
        MessageType::Warning => 4u32,
        MessageType::Info => 8u32,
        MessageType::Tag => 16u32,
        MessageType::Buffering => 32u32,
        MessageType::StateChanged => 64u32,
        MessageType::StateDirty => 128u32,
        MessageType::StepDone => 256u32,
        MessageType::ClockProvide => 512u32,
        MessageType::ClockLost => 1024u32,
        MessageType::NewClock => 2048u32,
        MessageType::StructureChange => 4096u32,
        MessageType::StreamStatus => 8192u32,
        MessageType::Application => 16384u32,
        MessageType::Element => 32768u32,
        MessageType::SegmentStart => 65536u32,
        MessageType::SegmentDone => 131072u32,
        MessageType::DurationChanged => 262144u32,
        MessageType::Latency => 524288u32,
        MessageType::AsyncStart => 1048576u32,
        MessageType::AsyncDone => 2097152u32,
        MessageType::RequestState => 4194304u32,
        MessageType::StepStart => 8388608u32,
        MessageType::Qos => 16777216u32,
        MessageType::Progress => 33554432u32,
        MessageType::Toc => 67108864u32,
        MessageType::ResetTime => 134217728u32,
        MessageType::StreamStart => 268435456u32,
        MessageType::NeedContext => 536870912u32,
        MessageType::HaveContext => 1073741824u32,
        MessageType::Extended => 2147483648u32,
        MessageType::DeviceAdded => 2147483649u32,
        MessageType::DeviceRemoved => 2147483650u32,
        MessageType::PropertyNotify => 2147483651u32,
        MessageType::StreamCollection => 2147483652u32,
        MessageType::StreamsSelected => 2147483653u32,
        MessageType::Redirect => 2147483654u32,
        MessageType::__Unknown(v) => i32_bits_as_u32(v),
    }
}

/// The message type of a C value; values of no known type are kept.
pub open spec fn message_type_from_raw(v: u32) -> MessageType {
    if v == 0u32 {
        MessageType::Unknown
    } else if v == 1u32 {
        MessageType::Eos
    } else if v == 2u32 {
        MessageType::Error
    } else if v == 4u32 {
        MessageType::Warning
    } else if v == 8u32 {
        MessageType::Info
    } else if v == 16u32 {
        MessageType::Tag
    } else if v == 32u32 {
        MessageType::Buffering
    } else if v == 64u32 {
        MessageType::StateChanged
    } else if v == 128u32 {
        MessageType::StateDirty
    } else if v == 256u32 {
        MessageType::StepDone
    } else if v == 512u32 {
        MessageType::ClockProvide
    } else if v == 1024u32 {
        MessageType::ClockLost
    } else if v == 2048u32 {
        MessageType::NewClock
    } else if v == 4096u32 {
        MessageType::StructureChange
    } else if v == 8192u32 {
        MessageType::StreamStatus
    } else if v == 16384u32 {
        MessageType::Application
    } else if v == 32768u32 {
        MessageType::Element
    } else if v == 65536u32 {
        MessageType::SegmentStart
    } else if v == 131072u32 {
        MessageType::SegmentDone
    } else if v == 262144u32 {
        MessageType::DurationChanged
    } else if v == 524288u32 {
        MessageType::Latency
    } else if v == 1048576u32 {
        MessageType::AsyncStart
    } else if v == 2097152u32 {
        MessageType::AsyncDone
    } else if v == 4194304u32 {
        MessageType::RequestState
    } else if v == 8388608u32 {
        MessageType::StepStart
    } else if v == 16777216u32 {
        MessageType::Qos
    } else if v == 33554432u32 {
        MessageType::Progress
    } else if v == 67108864u32 {
        MessageType::Toc
    } else if v == 134217728u32 {
        MessageType::ResetTime
    } else if v == 268435456u32 {
        MessageType::StreamStart
    } else if v == 536870912u32 {
        MessageType::NeedContext
    } else if v == 1073741824u32 {
        MessageType::HaveContext
    } else if v == 2147483648u32 {
        MessageType::Extended
    } else if v == 2147483649u32 {
        MessageType::DeviceAdded
    } else if v == 2147483650u32 {
        MessageType::DeviceRemoved
    } else if v == 2147483651u32 {
        MessageType::PropertyNotify
    } else if v == 2147483652u32 {
        MessageType::StreamCollection
    } else if v == 2147483653u32 {
        MessageType::StreamsSelected
    } else if v == 2147483654u32 {
        MessageType::Redirect
    } else {
        MessageType::__Unknown(u32_bits_as_i32(v))
    }
}

/// The `u32` with the bits of `v`.
pub open spec fn i32_bits_as_u32(v: i32) -> u32 {
    if v >= 0 {
        v as u32
    } else {
        (v + 0x1_0000_0000) as u32
    }
}

/// The `i32` with the bits of `v`.
pub open spec fn u32_bits_as_i32(v: u32) -> i32 {
    if v <= 0x7fff_ffff {
        v as i32
    } else {
        (v - 0x1_0000_0000) as i32
    }
}

/// Reading the bits of an `i32` as a `u32`, and back, gives the value back.
pub proof fn lemma_u32_i32_bits(v: u32)
    ensures
        i32_bits_as_u32(u32_bits_as_i32(v)) == v,
{
}

/// Casts an `i32` to the `u32` with the same bits.
pub(crate) fn i32_to_u32_bits(v: i32) -> (r: u32)
    ensures
        r == i32_bits_as_u32(v),
{
    if v >= 0 {
        v as u32
    } else {
        ((v as i64) + 0x1_0000_0000i64) as u32
    }
}

/// Casts a `u32` to the `i32` with the same bits.
pub(crate) fn u32_to_i32_bits(v: u32) -> (r: i32)
    ensures
        r == u32_bits_as_i32(v),
{
    if v <= 0x7fff_ffff {
        v as i32
    } else {
        ((v as i64) - 0x1_0000_0000i64) as i32
    }
}

impl MessageType {
    /// Returns the C value of the message type.
    pub fn into_glib(self) -> (r: u32)
        ensures
            r == message_type_to_raw(self),
    {
        match self {
            MessageType::Unknown => 0u32,
            MessageType::Eos => 1u32,
            MessageType::Error => 2u32,
            MessageType::Warning => 4u32,
            MessageType::Info => 8u32,
            MessageType::Tag => 16u32,
            MessageType::Buffering => 32u32,
            MessageType::StateChanged => 64u32,
            MessageType::StateDirty => 128u32,
            MessageType::StepDone => 256u32,
            MessageType::ClockProvide => 512u32,
            MessageType::ClockLost => 1024u32,
            MessageType::NewClock => 2048u32,
            MessageType::StructureChange => 4096u32,
            MessageType::StreamStatus => 8192u32,
            MessageType::Application => 16384u32,
            MessageType::Element => 32768u32,
            MessageType::SegmentStart => 65536u32,
            MessageType::SegmentDone => 131072u32,
            MessageType::DurationChanged => 262144u32,
            MessageType::Latency => 524288u32,
            MessageType::AsyncStart => 1048576u32,
            MessageType::AsyncDone => 2097152u32,
            MessageType::RequestState => 4194304u32,
            MessageType::StepStart => 8388608u32,
            MessageType::Qos => 16777216u32,
            MessageType::Progress => 33554432u32,
            MessageType::Toc => 67108864u32,
            MessageType::ResetTime => 134217728u32,
            MessageType::StreamStart => 268435456u32,
            MessageType::NeedContext => 536870912u32,
            MessageType::HaveContext => 1073741824u32,
            MessageType::Extended => 2147483648u32,
            MessageType::DeviceAdded => 2147483649u32,
            MessageType::DeviceRemoved => 2147483650u32,
            MessageType::PropertyNotify => 2147483651u32,
            MessageType::StreamCollection => 2147483652u32,
            MessageType::StreamsSelected => 2147483653u32,
            MessageType::Redirect => 2147483654u32,
            MessageType::__Unknown(v) => i32_to_u32_bits(v),
        }
    }

    /// Returns the message type of a C value; values of no known type are
    /// kept in `__Unknown`.
    pub fn from_glib(value: u32) -> (r: MessageType)
        ensures
            r == message_type_from_raw(value),
    {
        if value == 0u32 {
            MessageType::Unknown
        } else if value == 1u32 {
            MessageType::Eos
        } else if value == 2u32 {
            MessageType::Error
        } else if value == 4u32 {
            MessageType::Warning
        } else if value == 8u32 {
            MessageType::Info
        } else if value == 16u32 {
            MessageType::Tag
        } else if value == 32u32 {
            MessageType::Buffering
        } else if value == 64u32 {
            MessageType::StateChanged
        } else if value == 128u32 {
            MessageType::StateDirty
        } else if value == 256u32 {
            MessageType::StepDone
        } else if value == 512u32 {
            MessageType::ClockProvide
        } else if value == 1024u32 {
            MessageType::ClockLost
        } else if value == 2048u32 {
            MessageType::NewClock
        } else if value == 4096u32 {
            MessageType::StructureChange
        } else if value == 8192u32 {
            MessageType::StreamStatus
        } else if value == 16384u32 {
            MessageType::Application
        } else if value == 32768u32 {
            MessageType::Element
        } else if value == 65536u32 {
            MessageType::SegmentStart
        } else if value == 131072u32 {
            MessageType::SegmentDone
        } else if value == 262144u32 {
            MessageType::DurationChanged
        } else if value == 524288u32 {
            MessageType::Latency
        } else if value == 1048576u32 {
            MessageType::AsyncStart
        } else if value == 2097152u32 {
            MessageType::AsyncDone
        } else if value == 4194304u32 {
            MessageType::RequestState
        } else if value == 8388608u32 {
            MessageType::StepStart
        } else if value == 16777216u32 {
            MessageType::Qos
        } else if value == 33554432u32 {
            MessageType::Progress
        } else if value == 67108864u32 {
            MessageType::Toc
        } else if value == 134217728u32 {
            MessageType::ResetTime
        } else if value == 268435456u32 {
            MessageType::StreamStart
        } else if value == 536870912u32 {
            MessageType::NeedContext
        } else if value == 1073741824u32 {
            MessageType::HaveContext
        } else if value == 2147483648u32 {
            MessageType::Extended
        } else if value == 2147483649u32 {
            MessageType::DeviceAdded
        } else if value == 2147483650u32 {
            MessageType::DeviceRemoved
        } else if value == 2147483651u32 {
            MessageType::PropertyNotify
        } else if value == 2147483652u32 {
            MessageType::StreamCollection
        } else if value == 2147483653u32 {
            MessageType::StreamsSelected
        } else if value == 2147483654u32 {
            MessageType::Redirect
        } else {
            MessageType::__Unknown(u32_to_i32_bits(value))
        }
    }
}

/// Every C value is given back by the message type read from it.
pub proof fn lemma_message_type_raw_roundtrip(v: u32)
    ensures
        message_type_to_raw(message_type_from_raw(v)) == v,
{
}

/// A message type is given back by reading its C value, unless it is an
/// unknown value that holds the C value of a known one.
pub proof fn lemma_message_type_value_roundtrip(t: MessageType)
    requires
        t matches MessageType::__Unknown(v) ==> message_type_from_raw(i32_bits_as_u32(v)) is __Unknown,
    ensures
        message_type_from_raw(message_type_to_raw(t)) == t,
{
}

/// The kind of an event; its C value holds a number above bit 8 and the
/// event's direction and serialization flags in the low bits.
#[derive(Debug, PartialEq, Eq, Structural, Hash, Clone, Copy)]
pub enum EventType {
    Unknown,
    FlushStart,
    FlushStop,
    StreamStart,
    Caps,
    Segment,
    StreamCollection,
    Tag,
    Buffersize,
    SinkMessage,
    StreamGroupDone,
    Eos,
    Toc,
    Protection,
    SegmentDone,
    Gap,
    InstantRateChange,
    Qos,
    Seek,
    Navigation,
    Latency,
    Step,
    Reconfigure,
    TocSelect,
    SelectStreams,
    InstantRateSyncTime,
    CustomUpstream,
    CustomDownstream,
    CustomDownstreamOob,
    CustomDownstreamSticky,
    CustomBoth,
    CustomBothOob,
    __Unknown(i32),
}

/// The C value of an event type.
pub open spec fn event_type_to_raw(t: EventType) -> i32 {
    match t {
        EventType::Unknown => 0i32,
        EventType::FlushStart => 2563i32,
        EventType::FlushStop => 5127i32,
        EventType::StreamStart => 10254i32,
        EventType::Caps => 12814i32,
        EventType::Segment => 17934i32,
        EventType::StreamCollection => 19230i32,
        EventType::Tag => 20510i32,
        EventType::Buffersize => 23054i32,
        EventType::SinkMessage => 25630i32,
        EventType::StreamGroupDone => 26894i32,
        EventType::Eos => 28174i32,
        EventType::Toc => 30750i32,
        EventType::Protection => 33310i32,
        EventType::SegmentDone => 38406i32,
        EventType::Gap => 40966i32,
        EventType::InstantRateChange => 46090i32,
        EventType::Qos => 48641i32,
        EventType::Seek => 51201i32,
        EventType::Navigation => 53761i32,
        EventType::Latency => 56321i32,
        EventType::Step => 58881i32,
        EventType::Reconfigure => 61441i32,
        EventType::TocSelect => 64001i32,
        EventType::SelectStreams => 66561i32,
        EventType::InstantRateSyncTime => 66817i32,
        EventType::CustomUpstream => 69121i32,
        EventType::CustomDownstream => 71686i32,
        EventType::CustomDownstreamOob => 74242i32,
        EventType::CustomDownstreamSticky => 76830i32,
        EventType::CustomBoth => 79367i32,
        EventType::CustomBothOob => 81923i32,
        EventType::__Unknown(v) => v,
    }
}

/// The event type of a C value; values of no known type are kept.
pub open spec fn event_type_from_raw(v: i32) -> EventType {
    if v == 0i32 {
        EventType::Unknown
    } else if v == 2563i32 {
        EventType::FlushStart
    } else if v == 5127i32 {
        EventType::FlushStop
    } else if v == 10254i32 {
        EventType::StreamStart
    } else if v == 12814i32 {
        EventType::Caps
    } else if v == 17934i32 {
        EventType::Segment
    } else if v == 19230i32 {
        EventType::StreamCollection
    } else if v == 20510i32 {
        EventType::Tag
    } else if v == 23054i32 {
        EventType::Buffersize
    } else if v == 25630i32 {
        EventType::SinkMessage
    } else if v == 26894i32 {
        EventType::StreamGroupDone
    } else if v == 28174i32 {
        EventType::Eos
    } else if v == 30750i32 {
        EventType::Toc
    } else if v == 33310i32 {
        EventType::Protection
    } else if v == 38406i32 {
        EventType::SegmentDone
    } else if v == 40966i32 {
        EventType::Gap
    } else if v == 46090i32 {
        EventType::InstantRateChange
    } else if v == 48641i32 {
        EventType::Qos
    } else if v == 51201i32 {
        EventType::Seek
    } else if v == 53761i32 {
        EventType::Navigation
    } else if v == 56321i32 {
        EventType::Latency
    } else if v == 58881i32 {
        EventType::Step
    } else if v == 61441i32 {
        EventType::Reconfigure
    } else if v == 64001i32 {
        EventType::TocSelect
    } else if v == 66561i32 {
        EventType::SelectStreams
    } else if v == 66817i32 {
        EventType::InstantRateSyncTime
    } else if v == 69121i32 {
        EventType::CustomUpstream
    } else if v == 71686i32 {
        EventType::CustomDownstream
    } else if v == 74242i32 {
        EventType::CustomDownstreamOob
    } else if v == 76830i32 {
        EventType::CustomDownstreamSticky
    } else if v == 79367i32 {
        EventType::CustomBoth
    } else if v == 81923i32 {
        EventType::CustomBothOob
    } else {
        EventType::__Unknown(v)
    }
}

/// The flag of events travelling upstream.
pub const EVENT_TYPE_UPSTREAM: i32 = 1;

/// The flag of events travelling downstream.
pub const EVENT_TYPE_DOWNSTREAM: i32 = 2;

/// The flag of events serialized with the data flow.
pub const EVENT_TYPE_SERIALIZED: i32 = 4;

/// The flag of sticky events.
pub const EVENT_TYPE_STICKY: i32 = 8;

/// The flag of sticky events of which several may be stored.
pub const EVENT_TYPE_STICKY_MULTI: i32 = 16;

/// The ordering value of a stream start event.
pub const EVENT_STREAM_START_ORDER: i64 = 10254;

/// The ordering value of a segment event.
pub const EVENT_SEGMENT_ORDER: i64 = 17934;

/// The ordering value of an end of stream event.
pub const EVENT_EOS_ORDER: i64 = 28174;

/// The value of a serialized event type used for ordering: its C value read
/// as unsigned, except that an instant rate change sorts right after a
/// segment.
pub open spec fn event_order_value(v: i32) -> i64 {
    if v == 46090i32 {
        (EVENT_SEGMENT_ORDER + 1) as i64
    } else {
        i32_bits_as_u32(v) as i64
    }
}


impl EventType {
    /// Returns the C value of the event type.
    pub fn into_glib(self) -> (r: i32)
        ensures
            r == event_type_to_raw(self),
    {
        match self {
            EventType::Unknown => 0i32,
            EventType::FlushStart => 2563i32,
            EventType::FlushStop => 5127i32,
            EventType::StreamStart => 10254i32,
            EventType::Caps => 12814i32,
            EventType::Segment => 17934i32,
            EventType::StreamCollection => 19230i32,
            EventType::Tag => 20510i32,
            EventType::Buffersize => 23054i32,
            EventType::SinkMessage => 25630i32,
            EventType::StreamGroupDone => 26894i32,
            EventType::Eos => 28174i32,
            EventType::Toc => 30750i32,
            EventType::Protection => 33310i32,
            EventType::SegmentDone => 38406i32,
            EventType::Gap => 40966i32,
            EventType::InstantRateChange => 46090i32,
            EventType::Qos => 48641i32,
            EventType::Seek => 51201i32,
            EventType::Navigation => 53761i32,
            EventType::Latency => 56321i32,
            EventType::Step => 58881i32,
            EventType::Reconfigure => 61441i32,
            EventType::TocSelect => 64001i32,
            EventType::SelectStreams => 66561i32,
            EventType::InstantRateSyncTime => 66817i32,
            EventType::CustomUpstream => 69121i32,
            EventType::CustomDownstream => 71686i32,
            EventType::CustomDownstreamOob => 74242i32,
            EventType::CustomDownstreamSticky => 76830i32,
            EventType::CustomBoth => 79367i32,
            EventType::CustomBothOob => 81923i32,
            EventType::__Unknown(v) => v,
        }
    }

    /// Returns the event type of a C value; values of no known type are
    /// kept in `__Unknown`.
    pub fn from_glib(value: i32) -> (r: EventType)
        ensures
            r == event_type_from_raw(value),
    {
        if value == 0i32 {
            EventType::Unknown
        } else if value == 2563i32 {
            EventType::FlushStart
        } else if value == 5127i32 {
            EventType::FlushStop
        } else if value == 10254i32 {
            EventType::StreamStart
        } else if value == 12814i32 {
            EventType::Caps
        } else if value == 17934i32 {
            EventType::Segment
        } else if value == 19230i32 {
            EventType::StreamCollection
        } else if value == 20510i32 {
            EventType::Tag
        } else if value == 23054i32 {
            EventType::Buffersize
        } else if value == 25630i32 {
            EventType::SinkMessage
        } else if value == 26894i32 {
            EventType::StreamGroupDone
        } else if value == 28174i32 {
            EventType::Eos
        } else if value == 30750i32 {
            EventType::Toc
        } else if value == 33310i32 {
            EventType::Protection
        } else if value == 38406i32 {
            EventType::SegmentDone
        } else if value == 40966i32 {
            EventType::Gap
        } else if value == 46090i32 {
            EventType::InstantRateChange
        } else if value == 48641i32 {
            EventType::Qos
        } else if value == 51201i32 {
            EventType::Seek
        } else if value == 53761i32 {
            EventType::Navigation
        } else if value == 56321i32 {
            EventType::Latency
        } else if value == 58881i32 {
            EventType::Step
        } else if value == 61441i32 {
            EventType::Reconfigure
        } else if value == 64001i32 {
            EventType::TocSelect
        } else if value == 66561i32 {
            EventType::SelectStreams
        } else if value == 66817i32 {
            EventType::InstantRateSyncTime
        } else if value == 69121i32 {
            EventType::CustomUpstream
        } else if value == 71686i32 {
            EventType::CustomDownstream
        } else if value == 74242i32 {
            EventType::CustomDownstreamOob
        } else if value == 76830i32 {
            EventType::CustomDownstreamSticky
        } else if value == 79367i32 {
            EventType::CustomBoth
        } else if value == 81923i32 {
            EventType::CustomBothOob
        } else {
            EventType::__Unknown(value)
        }
    }

    /// Returns whether events of this type travel upstream.
    pub fn is_upstream(self) -> (r: bool)
        ensures
            r == (event_type_to_raw(self) & EVENT_TYPE_UPSTREAM != 0),
    {
        self.into_glib() & EVENT_TYPE_UPSTREAM != 0
    }

    /// Returns whether events of this type travel downstream.
    pub fn is_downstream(self) -> (r: bool)
        ensures
            r == (event_type_to_raw(self) & EVENT_TYPE_DOWNSTREAM != 0),
    {
        self.into_glib() & EVENT_TYPE_DOWNSTREAM != 0
    }

    /// Returns whether events of this type are serialized with the data flow.
    pub fn is_serialized(self) -> (r: bool)
        ensures
            r == (event_type_to_raw(self) & EVENT_TYPE_SERIALIZED != 0),
    {
        self.into_glib() & EVENT_TYPE_SERIALIZED != 0
    }

    /// Returns whether events of this type are sticky.
    pub fn is_sticky(self) -> (r: bool)
        ensures
            r == (event_type_to_raw(self) & EVENT_TYPE_STICKY != 0),
    {
        self.into_glib() & EVENT_TYPE_STICKY != 0
    }

    /// Returns whether several events of this type may be stored as sticky.
    pub fn is_sticky_multi(self) -> (r: bool)
        ensures
            r == (event_type_to_raw(self) & EVENT_TYPE_STICKY_MULTI != 0),
    {
        self.into_glib() & EVENT_TYPE_STICKY_MULTI != 0
    }
}

/// Returns the ordering value of a serialized event type.
pub fn order_value(v: i32) -> (r: i64)
    ensures
        r == event_order_value(v),
{
    if v == 46090i32 {
        EVENT_SEGMENT_ORDER + 1
    } else {
        i32_to_u32_bits(v) as i64
    }
}


/// Every C value is given back by the event type read from it.
pub proof fn lemma_event_type_raw_roundtrip(v: i32)
    ensures
        event_type_to_raw(event_type_from_raw(v)) == v,
{
}

/// A event type is given back by reading its C value, unless it is an
/// unknown value that holds the C value of a known one.
pub proof fn lemma_event_type_value_roundtrip(t: EventType)
    requires
        t matches EventType::__Unknown(v) ==> event_type_from_raw(v) is __Unknown,
    ensures
        event_type_from_raw(event_type_to_raw(t)) == t,
{
}


/// The C values of the known message types are those of GStreamer's C
/// headers, and each is read back as its own message type.
pub proof fn lemma_message_type_c_values()
    ensures
        message_type_to_raw(MessageType::Unknown) == 0u32,
        message_type_from_raw(0u32) == MessageType::Unknown,
        message_type_to_raw(MessageType::Eos) == 1u32,
        message_type_from_raw(1u32) == MessageType::Eos,
        message_type_to_raw(MessageType::Error) == 2u32,
        message_type_from_raw(2u32) == MessageType::Error,
        message_type_to_raw(MessageType::Warning) == 4u32,
        message_type_from_raw(4u32) == MessageType::Warning,
        message_type_to_raw(MessageType::Info) == 8u32,
        message_type_from_raw(8u32) == MessageType::Info,
        message_type_to_raw(MessageType::Tag) == 16u32,
        message_type_from_raw(16u32) == MessageType::Tag,
        message_type_to_raw(MessageType::Buffering) == 32u32,
        message_type_from_raw(32u32) == MessageType::Buffering,
        message_type_to_raw(MessageType::StateChanged) == 64u32,
        message_type_from_raw(64u32) == MessageType::StateChanged,
        message_type_to_raw(MessageType::StateDirty) == 128u32,
        message_type_from_raw(128u32) == MessageType::StateDirty,
        message_type_to_raw(MessageType::StepDone) == 256u32,
        message_type_from_raw(256u32) == MessageType::StepDone,
        message_type_to_raw(MessageType::ClockProvide) == 512u32,
        message_type_from_raw(512u32) == MessageType::ClockProvide,
        message_type_to_raw(MessageType::ClockLost) == 1024u32,
        message_type_from_raw(1024u32) == MessageType::ClockLost,
        message_type_to_raw(MessageType::NewClock) == 2048u32,
        message_type_from_raw(2048u32) == MessageType::NewClock,
        message_type_to_raw(MessageType::StructureChange) == 4096u32,
        message_type_from_raw(4096u32) == MessageType::StructureChange,
        message_type_to_raw(MessageType::StreamStatus) == 8192u32,
        message_type_from_raw(8192u32) == MessageType::StreamStatus,
        message_type_to_raw(MessageType::Application) == 16384u32,
        message_type_from_raw(16384u32) == MessageType::Application,
        message_type_to_raw(MessageType::Element) == 32768u32,
        message_type_from_raw(32768u32) == MessageType::Element,
        message_type_to_raw(MessageType::SegmentStart) == 65536u32,
        message_type_from_raw(65536u32) == MessageType::SegmentStart,
        message_type_to_raw(MessageType::SegmentDone) == 131072u32,
        message_type_from_raw(131072u32) == MessageType::SegmentDone,
        message_type_to_raw(MessageType::DurationChanged) == 262144u32,
        message_type_from_raw(262144u32) == MessageType::DurationChanged,
        message_type_to_raw(MessageType::Latency) == 524288u32,
        message_type_from_raw(524288u32) == MessageType::Latency,
        message_type_to_raw(MessageType::AsyncStart) == 1048576u32,
        message_type_from_raw(1048576u32) == MessageType::AsyncStart,
        message_type_to_raw(MessageType::AsyncDone) == 2097152u32,
        message_type_from_raw(2097152u32) == MessageType::AsyncDone,
        message_type_to_raw(MessageType::RequestState) == 4194304u32,
        message_type_from_raw(4194304u32) == MessageType::RequestState,
        message_type_to_raw(MessageType::StepStart) == 8388608u32,
        message_type_from_raw(8388608u32) == MessageType::StepStart,
        message_type_to_raw(MessageType::Qos) == 16777216u32,
        message_type_from_raw(16777216u32) == MessageType::Qos,
        message_type_to_raw(MessageType::Progress) == 33554432u32,
        message_type_from_raw(33554432u32) == MessageType::Progress,
        message_type_to_raw(MessageType::Toc) == 67108864u32,
        message_type_from_raw(67108864u32) == MessageType::Toc,
        message_type_to_raw(MessageType::ResetTime) == 134217728u32,
        message_type_from_raw(134217728u32) == MessageType::ResetTime,
        message_type_to_raw(MessageType::StreamStart) == 268435456u32,
        message_type_from_raw(268435456u32) == MessageType::StreamStart,
        message_type_to_raw(MessageType::NeedContext) == 536870912u32,
        message_type_from_raw(536870912u32) == MessageType::NeedContext,
        message_type_to_raw(MessageType::HaveContext) == 1073741824u32,
        message_type_from_raw(1073741824u32) == MessageType::HaveContext,
        message_type_to_raw(MessageType::Extended) == 2147483648u32,
        message_type_from_raw(2147483648u32) == MessageType::Extended,
        message_type_to_raw(MessageType::DeviceAdded) == 2147483649u32,
        message_type_from_raw(2147483649u32) == MessageType::DeviceAdded,
        message_type_to_raw(MessageType::DeviceRemoved) == 2147483650u32,
        message_type_from_raw(2147483650u32) == MessageType::DeviceRemoved,
        message_type_to_raw(MessageType::PropertyNotify) == 2147483651u32,
        message_type_from_raw(2147483651u32) == MessageType::PropertyNotify,
        message_type_to_raw(MessageType::StreamCollection) == 2147483652u32,
        message_type_from_raw(2147483652u32) == MessageType::StreamCollection,
        message_type_to_raw(MessageType::StreamsSelected) == 2147483653u32,
        message_type_from_raw(2147483653u32) == MessageType::StreamsSelected,
        message_type_to_raw(MessageType::Redirect) == 2147483654u32,
        message_type_from_raw(2147483654u32) == MessageType::Redirect,
{
}


/// The C values of the known event types are those of GStreamer's C
/// headers, and each is read back as its own event type.
pub proof fn lemma_event_type_c_values()
    ensures
        event_type_to_raw(EventType::Unknown) == 0i32,
        event_type_from_raw(0i32) == EventType::Unknown,
        event_type_to_raw(EventType::FlushStart) == 2563i32,
        event_type_from_raw(2563i32) == EventType::FlushStart,
        event_type_to_raw(EventType::FlushStop) == 5127i32,
        event_type_from_raw(5127i32) == EventType::FlushStop,
        event_type_to_raw(EventType::StreamStart) == 10254i32,
        event_type_from_raw(10254i32) == EventType::StreamStart,
        event_type_to_raw(EventType::Caps) == 12814i32,
        event_type_from_raw(12814i32) == EventType::Caps,
        event_type_to_raw(EventType::Segment) == 17934i32,
        event_type_from_raw(17934i32) == EventType::Segment,
        event_type_to_raw(EventType::StreamCollection) == 19230i32,
        event_type_from_raw(19230i32) == EventType::StreamCollection,
        event_type_to_raw(EventType::Tag) == 20510i32,
        event_type_from_raw(20510i32) == EventType::Tag,
        event_type_to_raw(EventType::Buffersize) == 23054i32,
        event_type_from_raw(23054i32) == EventType::Buffersize,
        event_type_to_raw(EventType::SinkMessage) == 25630i32,
        event_type_from_raw(25630i32) == EventType::SinkMessage,
        event_type_to_raw(EventType::StreamGroupDone) == 26894i32,
        event_type_from_raw(26894i32) == EventType::StreamGroupDone,
        event_type_to_raw(EventType::Eos) == 28174i32,
        event_type_from_raw(28174i32) == EventType::Eos,
        event_type_to_raw(EventType::Toc) == 30750i32,
        event_type_from_raw(30750i32) == EventType::Toc,
        event_type_to_raw(EventType::Protection) == 33310i32,
        event_type_from_raw(33310i32) == EventType::Protection,
        event_type_to_raw(EventType::SegmentDone) == 38406i32,
        event_type_from_raw(38406i32) == EventType::SegmentDone,
        event_type_to_raw(EventType::Gap) == 40966i32,
        event_type_from_raw(40966i32) == EventType::Gap,
        event_type_to_raw(EventType::InstantRateChange) == 46090i32,
        event_type_from_raw(46090i32) == EventType::InstantRateChange,
        event_type_to_raw(EventType::Qos) == 48641i32,
        event_type_from_raw(48641i32) == EventType::Qos,
        event_type_to_raw(EventType::Seek) == 51201i32,
        event_type_from_raw(51201i32) == EventType::Seek,
        event_type_to_raw(EventType::Navigation) == 53761i32,
        event_type_from_raw(53761i32) == EventType::Navigation,
        event_type_to_raw(EventType::Latency) == 56321i32,
        event_type_from_raw(56321i32) == EventType::Latency,
        event_type_to_raw(EventType::Step) == 58881i32,
        event_type_from_raw(58881i32) == EventType::Step,
        event_type_to_raw(EventType::Reconfigure) == 61441i32,
        event_type_from_raw(61441i32) == EventType::Reconfigure,
        event_type_to_raw(EventType::TocSelect) == 64001i32,
        event_type_from_raw(64001i32) == EventType::TocSelect,
        event_type_to_raw(EventType::SelectStreams) == 66561i32,
        event_type_from_raw(66561i32) == EventType::SelectStreams,
        event_type_to_raw(EventType::InstantRateSyncTime) == 66817i32,
        event_type_from_raw(66817i32) == EventType::InstantRateSyncTime,
        event_type_to_raw(EventType::CustomUpstream) == 69121i32,
        event_type_from_raw(69121i32) == EventType::CustomUpstream,
        event_type_to_raw(EventType::CustomDownstream) == 71686i32,
        event_type_from_raw(71686i32) == EventType::CustomDownstream,
        event_type_to_raw(EventType::CustomDownstreamOob) == 74242i32,
        event_type_from_raw(74242i32) == EventType::CustomDownstreamOob,
        event_type_to_raw(EventType::CustomDownstreamSticky) == 76830i32,
        event_type_from_raw(76830i32) == EventType::CustomDownstreamSticky,
        event_type_to_raw(EventType::CustomBoth) == 79367i32,
        event_type_from_raw(79367i32) == EventType::CustomBoth,
        event_type_to_raw(EventType::CustomBothOob) == 81923i32,
        event_type_from_raw(81923i32) == EventType::CustomBothOob,
{
}

} // verus!
