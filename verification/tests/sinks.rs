use cadence::{
    BufferingMetricSink, ErrorKind, MetricSink, NopMetricSink, QueuingMetricSink,
    RecordingMetricSink,
};

#[test]
fn test_nop_metric_sink() {
    let mut sink = NopMetricSink::new();
    assert_eq!(0, sink.emit("baz:4|c").unwrap());
}

#[test]
fn nop_metric_sink_takes_anything() {
    let mut sink = NopMetricSink::new();
    assert_eq!(0, sink.emit("").unwrap());
    assert_eq!(0, sink.emit("not even a metric line").unwrap());
    sink.flush().unwrap();
}

#[test]
fn recording_sink_reports_length_and_keeps_payload() {
    let mut sink = RecordingMetricSink::new();
    assert_eq!(7, sink.emit("a.b:1|c").unwrap());
    assert_eq!(vec![String::from("a.b:1|c")], sink.received);
}

#[test]
fn buffering_sink_batches_lines_until_flush() {
    let mut sink = BufferingMetricSink::new(RecordingMetricSink::new(), 64);
    assert_eq!(0, sink.emit("a.b:1|c").unwrap());
    assert_eq!(0, sink.emit("a.b:2|c").unwrap());
    assert_eq!(0, sink.emit("a.b:3|c").unwrap());
    assert!(sink.wrapped.received.is_empty());
    sink.flush().unwrap();
    assert_eq!(
        vec![String::from("a.b:1|c\na.b:2|c\na.b:3|c")],
        sink.wrapped.received
    );
}

#[test]
fn buffering_sink_flush_on_empty_buffer_is_a_no_op() {
    let mut sink = BufferingMetricSink::new(RecordingMetricSink::new(), 64);
    sink.flush().unwrap();
    assert!(sink.wrapped.received.is_empty());
    sink.emit("a:1|c").unwrap();
    sink.flush().unwrap();
    sink.flush().unwrap();
    sink.flush().unwrap();
    assert_eq!(vec![String::from("a:1|c")], sink.wrapped.received);
}

#[test]
fn buffering_sink_overflow_flushes_prior_contents_first() {
    let mut sink = BufferingMetricSink::new(RecordingMetricSink::new(), 10);
    assert_eq!(0, sink.emit("12345").unwrap());
    // five more characters would need a separator too: 5 + 1 + 6 > 10
    let written = sink.emit("123456").unwrap();
    // the triggered flush's result is what this emit call reports
    assert_eq!(5, written);
    assert_eq!(vec![String::from("12345")], sink.wrapped.received);
    sink.flush().unwrap();
    assert_eq!(
        vec![String::from("12345"), String::from("123456")],
        sink.wrapped.received
    );
}

#[test]
fn buffering_sink_oversize_line_passes_straight_through() {
    let mut sink = BufferingMetricSink::new(RecordingMetricSink::new(), 4);
    sink.emit("ab").unwrap();
    let written = sink.emit("123456").unwrap();
    assert_eq!(6, written);
    // the oversize line skipped the buffer, which still holds the short one
    assert_eq!(vec![String::from("123456")], sink.wrapped.received);
    sink.flush().unwrap();
    assert_eq!(
        vec![String::from("123456"), String::from("ab")],
        sink.wrapped.received
    );
}

#[test]
fn queuing_sink_delivers_in_order_on_flush() {
    let mut sink = QueuingMetricSink::new(RecordingMetricSink::new(), 8);
    assert_eq!(0, sink.emit("first:1|c").unwrap());
    assert_eq!(0, sink.emit("second:2|c").unwrap());
    assert_eq!(0, sink.emit("third:3|c").unwrap());
    assert!(sink.wrapped.received.is_empty());
    sink.flush().unwrap();
    assert_eq!(
        vec![
            String::from("first:1|c"),
            String::from("second:2|c"),
            String::from("third:3|c"),
        ],
        sink.wrapped.received
    );
    assert!(sink.worker_errors.is_empty());
}

#[test]
fn queuing_sink_rejects_when_queue_is_full() {
    let mut sink = QueuingMetricSink::new(RecordingMetricSink::new(), 2);
    sink.emit("a:1|c").unwrap();
    sink.emit("b:2|c").unwrap();
    let err = sink.emit("c:3|c").unwrap_err();
    assert_eq!(ErrorKind::IoError, err.kind());
    assert_eq!("bounded queue at capacity", err.description());
    // nothing was lost or delivered early
    sink.flush().unwrap();
    assert_eq!(
        vec![String::from("a:1|c"), String::from("b:2|c")],
        sink.wrapped.received
    );
}

#[test]
fn queuing_sink_shutdown_drains_then_rejects_new_lines() {
    let mut sink = QueuingMetricSink::new(RecordingMetricSink::new(), 8);
    sink.emit("a:1|c").unwrap();
    sink.emit("b:2|c").unwrap();
    sink.shutdown().unwrap();
    assert_eq!(
        vec![String::from("a:1|c"), String::from("b:2|c")],
        sink.wrapped.received
    );
    let err = sink.emit("late:9|c").unwrap_err();
    assert_eq!(ErrorKind::IoError, err.kind());
    assert_eq!("emit on a closed queuing sink", err.description());
    // shutting down again changes nothing and still succeeds
    sink.shutdown().unwrap();
    assert_eq!(2, sink.wrapped.received.len());
}

#[test]
fn queuing_sink_process_next_takes_the_oldest_line() {
    let mut sink = QueuingMetricSink::new(RecordingMetricSink::new(), 8);
    sink.emit("a:1|c").unwrap();
    sink.emit("b:2|c").unwrap();
    assert!(sink.process_next());
    assert_eq!(vec![String::from("a:1|c")], sink.wrapped.received);
    assert!(sink.process_next());
    assert!(!sink.process_next());
}

#[test]
fn queuing_of_buffering_composes() {
    let buffering = BufferingMetricSink::new(RecordingMetricSink::new(), 64);
    let mut sink = QueuingMetricSink::new(buffering, 8);
    sink.emit("a:1|c").unwrap();
    sink.emit("b:2|c").unwrap();
    sink.flush().unwrap();
    assert_eq!(
        vec![String::from("a:1|c\nb:2|c")],
        sink.wrapped.wrapped.received
    );
}

#[test]
fn buffering_sink_buffers_empty_lines_too() {
    let mut sink = BufferingMetricSink::new(RecordingMetricSink::new(), 8);
    assert_eq!(0, sink.emit("").unwrap());
    assert_eq!(0, sink.emit("").unwrap());
    assert_eq!(0, sink.emit("").unwrap());
    sink.flush().unwrap();
    // three empty lines joined by two separators
    assert_eq!(vec![String::from("\n\n")], sink.wrapped.received);
}

#[test]
fn nop_sink_can_be_cloned() {
    let sink = NopMetricSink::new();
    let mut copy = sink.clone();
    assert_eq!(0, copy.emit("baz:4|c").unwrap());
}
