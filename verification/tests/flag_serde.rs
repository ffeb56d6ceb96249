use gstreamer::flag_types::{BinFlags, BufferCopyFlags, BufferFlags, BufferPoolAcquireFlags, ClockFlags, DebugColorFlags, DebugGraphDetails, ElementFlags, EventTypeFlags, GapFlags, MemoryFlags, MetaFlags, ObjectFlags, PadFlags, PadLinkCheck, PadProbeType, ParseFlags, PluginAPIFlags, PluginDependencyFlags, PluginFlags, SchedulingFlags, SeekFlags, SegmentFlags, SerializeFlags, StackTraceFlags, StreamFlags, StreamType};

#[test]
fn flag_serde_test_serialize() {
    let actual = serde_json::to_string(&(BinFlags::empty()).serialize()).unwrap();
    assert_eq!(actual, "\"\"");
    let actual = serde_json::to_string(&(BinFlags::all()).serialize()).unwrap();
    assert_eq!(actual, "\"no-resync+streams-aware\"");
    let actual = serde_json::to_string(&(BufferCopyFlags::all()).serialize()).unwrap();
    assert_eq!(actual, "\"flags+timestamps+meta+memory+merge+deep\"");
    let actual = serde_json::to_string(&(BufferFlags::all()).serialize()).unwrap();
    assert_eq!(actual, "\"live+decode-only+discont+resync+corrupted+marker+header+gap+droppable+delta-unit+tag-memory+sync-after+non-droppable\"");
    let actual = serde_json::to_string(&(BufferPoolAcquireFlags::all()).serialize()).unwrap();
    assert_eq!(actual, "\"key-unit+dontwait+discont\"");
    let actual = serde_json::to_string(&(ClockFlags::all()).serialize()).unwrap();
    assert_eq!(actual, "\"can-do-single-sync+can-do-single-async+can-do-periodic-sync+can-do-periodic-async+can-set-resolution+can-set-master+needs-startup-sync\"");
    let actual = serde_json::to_string(&(DebugColorFlags::all()).serialize()).unwrap();
    assert_eq!(actual, "\"fg-white+bg-white+bold+underline\"");
    let actual = serde_json::to_string(&(DebugColorFlags::FG_MAGENTA() | DebugColorFlags::BOLD()).serialize()).unwrap();
    assert_eq!(actual, "\"fg-magenta+bg-black+bold\"");
    let actual = serde_json::to_string(&(DebugColorFlags::FG_RED() | DebugColorFlags::FG_BLUE() | DebugColorFlags::BG_BLACK()).serialize()).unwrap();
    assert_eq!(actual, "\"fg-magenta+bg-black\"");
    let actual = serde_json::to_string(&(DebugGraphDetails::all()).serialize()).unwrap();
    assert_eq!(actual, "\"verbose\"");
    let actual = serde_json::to_string(&(DebugGraphDetails::MEDIA_TYPE() | DebugGraphDetails::CAPS_DETAILS() | DebugGraphDetails::NON_DEFAULT_PARAMS() | DebugGraphDetails::STATES() | DebugGraphDetails::FULL_PARAMS() | DebugGraphDetails::ALL()).serialize()).unwrap();
    assert_eq!(actual, "\"all+full-params\"");
    let actual = serde_json::to_string(&(DebugGraphDetails::MEDIA_TYPE() | DebugGraphDetails::CAPS_DETAILS() | DebugGraphDetails::NON_DEFAULT_PARAMS() | DebugGraphDetails::STATES() | DebugGraphDetails::FULL_PARAMS()).serialize()).unwrap();
    assert_eq!(actual, "\"all+full-params\"");
    let actual = serde_json::to_string(&(ElementFlags::all()).serialize()).unwrap();
    assert_eq!(actual, "\"locked-state+sink+source+provide-clock+require-clock+indexable\"");
    let actual = serde_json::to_string(&(EventTypeFlags::all()).serialize()).unwrap();
    assert_eq!(actual, "\"upstream+downstream+serialized+sticky+sticky-multi\"");
    let actual = serde_json::to_string(&(GapFlags::all()).serialize()).unwrap();
    assert_eq!(actual, "\"data\"");
    let actual = serde_json::to_string(&(MemoryFlags::all()).serialize()).unwrap();
    assert_eq!(actual, "\"readonly+no-share+zero-prefixed+zero-padded+physically-contiguous+not-mappable\"");
    let actual = serde_json::to_string(&(MetaFlags::all()).serialize()).unwrap();
    assert_eq!(actual, "\"readonly+pooled+locked\"");
    let actual = serde_json::to_string(&(ObjectFlags::all()).serialize()).unwrap();
    assert_eq!(actual, "\"may-be-leaked\"");
    let actual = serde_json::to_string(&(PadFlags::all()).serialize()).unwrap();
    assert_eq!(actual, "\"blocked+flushing+eos+blocking+need-parent+need-reconfigure+pending-events+fixed-caps+proxy-caps+proxy-allocation+proxy-scheduling+accept-intersect+accept-template\"");
    let actual = serde_json::to_string(&(PadLinkCheck::all()).serialize()).unwrap();
    assert_eq!(actual, "\"hierarchy+template-caps+caps+no-reconfigure\"");
    let actual = serde_json::to_string(&(PadProbeType::all()).serialize()).unwrap();
    assert_eq!(actual, "\"idle+block+buffer+buffer-list+event-downstream+event-upstream+event-flush+query-downstream+query-upstream+push+pull\"");
    let actual = serde_json::to_string(&(ParseFlags::all()).serialize()).unwrap();
    assert_eq!(actual, "\"fatal-errors+no-single-element-bins+place-in-bin\"");
    let actual = serde_json::to_string(&(PluginAPIFlags::all()).serialize()).unwrap();
    assert_eq!(actual, "\"members\"");
    let actual = serde_json::to_string(&(PluginDependencyFlags::all()).serialize()).unwrap();
    assert_eq!(actual, "\"recurse+paths-are-default-only+file-name-is-suffix+file-name-is-prefix+paths-are-relative-to-exe\"");
    let actual = serde_json::to_string(&(PluginFlags::all()).serialize()).unwrap();
    assert_eq!(actual, "\"cached+blacklisted\"");
    let actual = serde_json::to_string(&(SchedulingFlags::all()).serialize()).unwrap();
    assert_eq!(actual, "\"seekable+sequential+bandwidth-limited\"");
    let actual = serde_json::to_string(&(SeekFlags::all()).serialize()).unwrap();
    assert_eq!(actual, "\"flush+accurate+key-unit+segment+trickmode+snap-before+snap-after+trickmode-key-units+trickmode-no-audio+trickmode-forward-predicted+instant-rate-change\"");
    let actual = serde_json::to_string(&(SegmentFlags::all()).serialize()).unwrap();
    assert_eq!(actual, "\"reset+trickmode+segment+trickmode-key-units+trickmode-forward-predicted+trickmode-no-audio\"");
    let actual = serde_json::to_string(&(SerializeFlags::all()).serialize()).unwrap();
    assert_eq!(actual, "\"backward-compat\"");
    let actual = serde_json::to_string(&(StackTraceFlags::all()).serialize()).unwrap();
    assert_eq!(actual, "\"full\"");
    let actual = serde_json::to_string(&(StreamFlags::all()).serialize()).unwrap();
    assert_eq!(actual, "\"sparse+select+unselect\"");
    let actual = serde_json::to_string(&(StreamType::all()).serialize()).unwrap();
    assert_eq!(actual, "\"unknown+audio+video+container+text\"");
}

#[test]
fn flag_serde_test_deserialize() {
    let s: String = serde_json::from_str("\"\"").unwrap();
    let actual = BinFlags::deserialize(&s).unwrap();
    assert_eq!(actual, BinFlags::empty());
    let s: String = serde_json::from_str("\"no-resync+streams-aware\"").unwrap();
    let actual = BinFlags::deserialize(&s).unwrap();
    assert_eq!(actual, BinFlags::all());
    let s: String = serde_json::from_str("\"flags+timestamps+meta+memory+merge+deep\"").unwrap();
    let actual = BufferCopyFlags::deserialize(&s).unwrap();
    assert_eq!(actual, BufferCopyFlags::all());
    let s: String = serde_json::from_str("\"live+decode-only+discont+resync+corrupted+marker+header+gap+droppable+delta-unit+tag-memory+sync-after+non-droppable\"").unwrap();
    let actual = BufferFlags::deserialize(&s).unwrap();
    assert_eq!(actual, BufferFlags::all());
    let s: String = serde_json::from_str("\"key-unit+dontwait+discont\"").unwrap();
    let actual = BufferPoolAcquireFlags::deserialize(&s).unwrap();
    assert_eq!(actual, BufferPoolAcquireFlags::all());
    let s: String = serde_json::from_str("\"can-do-single-sync+can-do-single-async+can-do-periodic-sync+can-do-periodic-async+can-set-resolution+can-set-master+needs-startup-sync\"").unwrap();
    let actual = ClockFlags::deserialize(&s).unwrap();
    assert_eq!(actual, ClockFlags::all());
    let s: String = serde_json::from_str("\"fg-white+bg-white+bold+underline\"").unwrap();
    let actual = DebugColorFlags::deserialize(&s).unwrap();
    assert_eq!(actual, DebugColorFlags::all());
    let s: String = serde_json::from_str("\"fg-magenta+bg-black+bold\"").unwrap();
    let actual = DebugColorFlags::deserialize(&s).unwrap();
    assert_eq!(actual, DebugColorFlags::FG_MAGENTA() | DebugColorFlags::BOLD());
    let s: String = serde_json::from_str("\"fg-magenta+bg-black\"").unwrap();
    let actual = DebugColorFlags::deserialize(&s).unwrap();
    assert_eq!(actual, DebugColorFlags::FG_RED() | DebugColorFlags::FG_BLUE() | DebugColorFlags::BG_BLACK());
    let s: String = serde_json::from_str("\"verbose\"").unwrap();
    let actual = DebugGraphDetails::deserialize(&s).unwrap();
    assert_eq!(actual, DebugGraphDetails::all());
    let s: String = serde_json::from_str("\"all+full-params\"").unwrap();
    let actual = DebugGraphDetails::deserialize(&s).unwrap();
    assert_eq!(actual, DebugGraphDetails::MEDIA_TYPE() | DebugGraphDetails::CAPS_DETAILS() | DebugGraphDetails::NON_DEFAULT_PARAMS() | DebugGraphDetails::STATES() | DebugGraphDetails::FULL_PARAMS() | DebugGraphDetails::ALL());
    let s: String = serde_json::from_str("\"all+full-params\"").unwrap();
    let actual = DebugGraphDetails::deserialize(&s).unwrap();
    assert_eq!(actual, DebugGraphDetails::MEDIA_TYPE() | DebugGraphDetails::CAPS_DETAILS() | DebugGraphDetails::NON_DEFAULT_PARAMS() | DebugGraphDetails::STATES() | DebugGraphDetails::FULL_PARAMS());
    let s: String = serde_json::from_str("\"locked-state+sink+source+provide-clock+require-clock+indexable\"").unwrap();
    let actual = ElementFlags::deserialize(&s).unwrap();
    assert_eq!(actual, ElementFlags::all());
    let s: String = serde_json::from_str("\"upstream+downstream+serialized+sticky+sticky-multi\"").unwrap();
    let actual = EventTypeFlags::deserialize(&s).unwrap();
    assert_eq!(actual, EventTypeFlags::all());
    let s: String = serde_json::from_str("\"data\"").unwrap();
    let actual = GapFlags::deserialize(&s).unwrap();
    assert_eq!(actual, GapFlags::all());
    let s: String = serde_json::from_str("\"readonly+no-share+zero-prefixed+zero-padded+physically-contiguous+not-mappable\"").unwrap();
    let actual = MemoryFlags::deserialize(&s).unwrap();
    assert_eq!(actual, MemoryFlags::all());
    let s: String = serde_json::from_str("\"readonly+pooled+locked\"").unwrap();
    let actual = MetaFlags::deserialize(&s).unwrap();
    assert_eq!(actual, MetaFlags::all());
    let s: String = serde_json::from_str("\"may-be-leaked\"").unwrap();
    let actual = ObjectFlags::deserialize(&s).unwrap();
    assert_eq!(actual, ObjectFlags::all());
    let s: String = serde_json::from_str("\"blocked+flushing+eos+blocking+need-parent+need-reconfigure+pending-events+fixed-caps+proxy-caps+proxy-allocation+proxy-scheduling+accept-intersect+accept-template\"").unwrap();
    let actual = PadFlags::deserialize(&s).unwrap();
    assert_eq!(actual, PadFlags::all());
    let s: String = serde_json::from_str("\"hierarchy+template-caps+caps+no-reconfigure\"").unwrap();
    let actual = PadLinkCheck::deserialize(&s).unwrap();
    assert_eq!(actual, PadLinkCheck::all());
    let s: String = serde_json::from_str("\"idle+block+buffer+buffer-list+event-downstream+event-upstream+event-flush+query-downstream+query-upstream+push+pull\"").unwrap();
    let actual = PadProbeType::deserialize(&s).unwrap();
    assert_eq!(actual, PadProbeType::all());
    let s: String = serde_json::from_str("\"fatal-errors+no-single-element-bins+place-in-bin\"").unwrap();
    let actual = ParseFlags::deserialize(&s).unwrap();
    assert_eq!(actual, ParseFlags::all());
    let s: String = serde_json::from_str("\"members\"").unwrap();
    let actual = PluginAPIFlags::deserialize(&s).unwrap();
    assert_eq!(actual, PluginAPIFlags::all());
    let s: String = serde_json::from_str("\"recurse+paths-are-default-only+file-name-is-suffix+file-name-is-prefix+paths-are-relative-to-exe\"").unwrap();
    let actual = PluginDependencyFlags::deserialize(&s).unwrap();
    assert_eq!(actual, PluginDependencyFlags::all());
    let s: String = serde_json::from_str("\"cached+blacklisted\"").unwrap();
    let actual = PluginFlags::deserialize(&s).unwrap();
    assert_eq!(actual, PluginFlags::all());
    let s: String = serde_json::from_str("\"seekable+sequential+bandwidth-limited\"").unwrap();
    let actual = SchedulingFlags::deserialize(&s).unwrap();
    assert_eq!(actual, SchedulingFlags::all());
    let s: String = serde_json::from_str("\"flush+accurate+key-unit+segment+trickmode+snap-before+snap-after+trickmode-key-units+trickmode-no-audio+trickmode-forward-predicted+instant-rate-change\"").unwrap();
    let actual = SeekFlags::deserialize(&s).unwrap();
    assert_eq!(actual, SeekFlags::all());
    let s: String = serde_json::from_str("\"reset+trickmode+segment+trickmode-key-units+trickmode-forward-predicted+trickmode-no-audio\"").unwrap();
    let actual = SegmentFlags::deserialize(&s).unwrap();
    assert_eq!(actual, SegmentFlags::all());
    let s: String = serde_json::from_str("\"backward-compat\"").unwrap();
    let actual = SerializeFlags::deserialize(&s).unwrap();
    assert_eq!(actual, SerializeFlags::all());
    let s: String = serde_json::from_str("\"full\"").unwrap();
    let actual = StackTraceFlags::deserialize(&s).unwrap();
    assert_eq!(actual, StackTraceFlags::all());
    let s: String = serde_json::from_str("\"sparse+select+unselect\"").unwrap();
    let actual = StreamFlags::deserialize(&s).unwrap();
    assert_eq!(actual, StreamFlags::all());
    let s: String = serde_json::from_str("\"unknown+audio+video+container+text\"").unwrap();
    let actual = StreamType::deserialize(&s).unwrap();
    assert_eq!(actual, StreamType::all());
}

#[test]
fn flag_serde_test_serde_roundtrip() {
    let flags = BinFlags::empty();
    let json = serde_json::to_string(&flags.serialize()).unwrap();
    let s: String = serde_json::from_str(&json).unwrap();
    assert_eq!(BinFlags::deserialize(&s).unwrap(), flags);
    let flags = BinFlags::all();
    let json = serde_json::to_string(&flags.serialize()).unwrap();
    let s: String = serde_json::from_str(&json).unwrap();
    assert_eq!(BinFlags::deserialize(&s).unwrap(), flags);
    let flags = BufferCopyFlags::all();
    let json = serde_json::to_string(&flags.serialize()).unwrap();
    let s: String = serde_json::from_str(&json).unwrap();
    assert_eq!(BufferCopyFlags::deserialize(&s).unwrap(), flags);
    let flags = BufferFlags::all();
    let json = serde_json::to_string(&flags.serialize()).unwrap();
    let s: String = serde_json::from_str(&json).unwrap();
    assert_eq!(BufferFlags::deserialize(&s).unwrap(), flags);
    let flags = BufferPoolAcquireFlags::all();
    let json = serde_json::to_string(&flags.serialize()).unwrap();
    let s: String = serde_json::from_str(&json).unwrap();
    assert_eq!(BufferPoolAcquireFlags::deserialize(&s).unwrap(), flags);
    let flags = ClockFlags::all();
    let json = serde_json::to_string(&flags.serialize()).unwrap();
    let s: String = serde_json::from_str(&json).unwrap();
    assert_eq!(ClockFlags::deserialize(&s).unwrap(), flags);
    let flags = DebugColorFlags::all();
    let json = serde_json::to_string(&flags.serialize()).unwrap();
    let s: String = serde_json::from_str(&json).unwrap();
    assert_eq!(DebugColorFlags::deserialize(&s).unwrap(), flags);
    let flags = DebugColorFlags::FG_MAGENTA() | DebugColorFlags::BOLD();
    let json = serde_json::to_string(&flags.serialize()).unwrap();
    let s: String = serde_json::from_str(&json).unwrap();
    assert_eq!(DebugColorFlags::deserialize(&s).unwrap(), flags);
    let flags = DebugColorFlags::FG_RED() | DebugColorFlags::FG_BLUE() | DebugColorFlags::BG_BLACK();
    let json = serde_json::to_string(&flags.serialize()).unwrap();
    let s: String = serde_json::from_str(&json).unwrap();
    assert_eq!(DebugColorFlags::deserialize(&s).unwrap(), flags);
    let flags = DebugGraphDetails::all();
    let json = serde_json::to_string(&flags.serialize()).unwrap();
    let s: String = serde_json::from_str(&json).unwrap();
    assert_eq!(DebugGraphDetails::deserialize(&s).unwrap(), flags);
    let flags = DebugGraphDetails::MEDIA_TYPE() | DebugGraphDetails::CAPS_DETAILS() | DebugGraphDetails::NON_DEFAULT_PARAMS() | DebugGraphDetails::STATES() | DebugGraphDetails::FULL_PARAMS() | DebugGraphDetails::ALL();
    let json = serde_json::to_string(&flags.serialize()).unwrap();
    let s: String = serde_json::from_str(&json).unwrap();
    assert_eq!(DebugGraphDetails::deserialize(&s).unwrap(), flags);
    let flags = DebugGraphDetails::MEDIA_TYPE() | DebugGraphDetails::CAPS_DETAILS() | DebugGraphDetails::NON_DEFAULT_PARAMS() | DebugGraphDetails::STATES() | DebugGraphDetails::FULL_PARAMS();
    let json = serde_json::to_string(&flags.serialize()).unwrap();
    let s: String = serde_json::from_str(&json).unwrap();
    assert_eq!(DebugGraphDetails::deserialize(&s).unwrap(), flags);
    let flags = ElementFlags::all();
    let json = serde_json::to_string(&flags.serialize()).unwrap();
    let s: String = serde_json::from_str(&json).unwrap();
    assert_eq!(ElementFlags::deserialize(&s).unwrap(), flags);
    let flags = EventTypeFlags::all();
    let json = serde_json::to_string(&flags.serialize()).unwrap();
    let s: String = serde_json::from_str(&json).unwrap();
    assert_eq!(EventTypeFlags::deserialize(&s).unwrap(), flags);
    let flags = GapFlags::all();
    let json = serde_json::to_string(&flags.serialize()).unwrap();
    let s: String = serde_json::from_str(&json).unwrap();
    assert_eq!(GapFlags::deserialize(&s).unwrap(), flags);
    let flags = MemoryFlags::all();
    let json = serde_json::to_string(&flags.serialize()).unwrap();
    let s: String = serde_json::from_str(&json).unwrap();
    assert_eq!(MemoryFlags::deserialize(&s).unwrap(), flags);
    let flags = MetaFlags::all();
    let json = serde_json::to_string(&flags.serialize()).unwrap();
    let s: String = serde_json::from_str(&json).unwrap();
    assert_eq!(MetaFlags::deserialize(&s).unwrap(), flags);
    let flags = ObjectFlags::all();
    let json = serde_json::to_string(&flags.serialize()).unwrap();
    let s: String = serde_json::from_str(&json).unwrap();
    assert_eq!(ObjectFlags::deserialize(&s).unwrap(), flags);
    let flags = PadFlags::all();
    let json = serde_json::to_string(&flags.serialize()).unwrap();
    let s: String = serde_json::from_str(&json).unwrap();
    assert_eq!(PadFlags::deserialize(&s).unwrap(), flags);
    let flags = PadLinkCheck::all();
    let json = serde_json::to_string(&flags.serialize()).unwrap();
    let s: String = serde_json::from_str(&json).unwrap();
    assert_eq!(PadLinkCheck::deserialize(&s).unwrap(), flags);
    let flags = PadProbeType::all();
    let json = serde_json::to_string(&flags.serialize()).unwrap();
    let s: String = serde_json::from_str(&json).unwrap();
    assert_eq!(PadProbeType::deserialize(&s).unwrap(), flags);
    let flags = ParseFlags::all();
    let json = serde_json::to_string(&flags.serialize()).unwrap();
    let s: String = serde_json::from_str(&json).unwrap();
    assert_eq!(ParseFlags::deserialize(&s).unwrap(), flags);
    let flags = PluginAPIFlags::all();
    let json = serde_json::to_string(&flags.serialize()).unwrap();
    let s: String = serde_json::from_str(&json).unwrap();
    assert_eq!(PluginAPIFlags::deserialize(&s).unwrap(), flags);
    let flags = PluginDependencyFlags::all();
    let json = serde_json::to_string(&flags.serialize()).unwrap();
    let s: String = serde_json::from_str(&json).unwrap();
    assert_eq!(PluginDependencyFlags::deserialize(&s).unwrap(), flags);
    let flags = PluginFlags::all();
    let json = serde_json::to_string(&flags.serialize()).unwrap();
    let s: String = serde_json::from_str(&json).unwrap();
    assert_eq!(PluginFlags::deserialize(&s).unwrap(), flags);
    let flags = SchedulingFlags::all();
    let json = serde_json::to_string(&flags.serialize()).unwrap();
    let s: String = serde_json::from_str(&json).unwrap();
    assert_eq!(SchedulingFlags::deserialize(&s).unwrap(), flags);
    let flags = SeekFlags::all();
    let json = serde_json::to_string(&flags.serialize()).unwrap();
    let s: String = serde_json::from_str(&json).unwrap();
    assert_eq!(SeekFlags::deserialize(&s).unwrap(), flags);
    let flags = SegmentFlags::all();
    let json = serde_json::to_string(&flags.serialize()).unwrap();
    let s: String = serde_json::from_str(&json).unwrap();
    assert_eq!(SegmentFlags::deserialize(&s).unwrap(), flags);
    let flags = SerializeFlags::all();
    let json = serde_json::to_string(&flags.serialize()).unwrap();
    let s: String = serde_json::from_str(&json).unwrap();
    assert_eq!(SerializeFlags::deserialize(&s).unwrap(), flags);
    let flags = StackTraceFlags::all();
    let json = serde_json::to_string(&flags.serialize()).unwrap();
    let s: String = serde_json::from_str(&json).unwrap();
    assert_eq!(StackTraceFlags::deserialize(&s).unwrap(), flags);
    let flags = StreamFlags::all();
    let json = serde_json::to_string(&flags.serialize()).unwrap();
    let s: String = serde_json::from_str(&json).unwrap();
    assert_eq!(StreamFlags::deserialize(&s).unwrap(), flags);
    let flags = StreamType::all();
    let json = serde_json::to_string(&flags.serialize()).unwrap();
    let s: String = serde_json::from_str(&json).unwrap();
    assert_eq!(StreamType::deserialize(&s).unwrap(), flags);
}
