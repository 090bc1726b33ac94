use switchroot::klog::{encode_priority, format_record, Level, LogRecord, KMSG_USER_FACILITY};

#[test]
fn facility_marker_is_preshifted_user() {
    assert_eq!(KMSG_USER_FACILITY, 1 << 3);
}

#[test]
fn error_encodes_to_eleven() {
    assert_eq!(encode_priority(Level::Error), 11);
}

#[test]
fn debug_encodes_to_fifteen() {
    assert_eq!(encode_priority(Level::Debug), 15);
}

#[test]
fn all_levels_encode_as_documented() {
    assert_eq!(encode_priority(Level::Error), 8 | 3);
    assert_eq!(encode_priority(Level::Warn), 8 | 4);
    assert_eq!(encode_priority(Level::Info), 8 | 6);
    assert_eq!(encode_priority(Level::Debug), 8 | 7);
    assert_eq!(encode_priority(Level::Trace), 8 | 7);
}

#[test]
fn encoding_is_independent_of_message_content() {
    let a = format_record(
        b"initrd",
        &LogRecord { level: Level::Error, text: b"one message".to_vec() },
    );
    let b = format_record(
        b"other",
        &LogRecord { level: Level::Error, text: b"an entirely different text".to_vec() },
    );
    assert_eq!(&a[..4], b"<11>");
    assert_eq!(&b[..4], b"<11>");
}

#[test]
fn record_line_has_exact_shape() {
    let line = format_record(
        b"initrd",
        &LogRecord { level: Level::Info, text: b"using init \"/init\"".to_vec() },
    );
    assert_eq!(line, b"<14>initrd: using init \"/init\"\n".to_vec());
}

#[test]
fn empty_text_still_forms_a_line() {
    let line = format_record(b"p", &LogRecord { level: Level::Trace, text: Vec::new() });
    assert_eq!(line, b"<15>p: \n".to_vec());
}
