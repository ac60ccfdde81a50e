use ekrano::frame_trace::{FrameTrace, Mode, TraceRing, RING_CAP};

#[test]
fn settings_choose_the_mode() {
    assert_eq!(Mode::from_setting(None), Mode::Off);
    for off in ["", "  ", "0", "False", " OFF "] {
        assert_eq!(Mode::from_setting(Some(off)), Mode::Off);
    }
    assert_eq!(Mode::from_setting(Some(" Ring\n")), Mode::LogRing);
    assert_eq!(Mode::from_setting(Some("1")), Mode::Log);
    assert_eq!(Mode::from_setting(Some("rings")), Mode::Log);
    assert!(!Mode::Off.enabled());
    assert!(Mode::Log.enabled());
}

#[test]
fn lines_show_the_time_of_each_segment() {
    let mut ring = TraceRing::new();
    let mut trace = FrameTrace::begin(Mode::Log);
    trace.mark("prepare", 100);
    trace.mark("coarse", 250);
    trace.mark("odd", 200);
    let line = trace.emit(&mut ring, 7, 9).unwrap();
    assert_eq!(line, "[FTRACE] frame=7 timeline=9 prepare=100ns coarse=150ns odd=0ns total=200ns");
    assert!(ring.last_frame().is_none());
}

#[test]
fn nothing_is_traced_when_off() {
    let mut ring = TraceRing::new();
    let mut trace = FrameTrace::begin(Mode::Off);
    trace.mark("prepare", 100);
    assert!(trace.marks.is_empty());
    assert_eq!(trace.emit(&mut ring, 1, 1), None);
    assert_eq!(FrameTrace::begin(Mode::LogRing).emit(&mut ring, 1, 1), None);
}

#[test]
fn the_ring_keeps_the_last_frames() {
    let mut ring = TraceRing::new();
    for frame in 0..(RING_CAP as u64 + 2) {
        let mut trace = FrameTrace::begin(Mode::LogRing);
        trace.mark("submit", frame);
        assert!(trace.emit(&mut ring, frame, frame + 1).is_some());
    }
    assert_eq!(ring.records.len(), RING_CAP);
    assert_eq!(ring.records[0].frame_num, 2);
    let last = ring.last_frame().unwrap();
    assert_eq!((last.frame_num, last.timeline, last.total_ns), (257, 258, 257));
    assert_eq!(last.checkpoints, vec![("submit", 257)]);
}
