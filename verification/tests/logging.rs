use regor::logging::{classify, InstallState, Level, LineBuffer, LogFilter, LogFormat};

#[test]
fn severity_is_taken_from_the_line_prefix() {
    assert_eq!(classify("Error: bad operator"), Level::Error);
    assert_eq!(classify("  [warning] unsupported"), Level::Warning);
    assert_eq!(classify("Debug: scheduling"), Level::Debug);
}

#[test]
fn unlabelled_lines_report_as_info() {
    assert_eq!(classify("compiling subgraph 3"), Level::Info);
}

#[test]
fn every_severity_prefix_is_recognised() {
    assert_eq!(classify("FATAL: out of memory"), Level::Error);
    assert_eq!(classify("(error) x"), Level::Error);
    assert_eq!(classify("[[(WARN"), Level::Warning);
    assert_eq!(classify("\t trace: step"), Level::Debug);
    assert_eq!(classify("err"), Level::Info);
    assert_eq!(classify(""), Level::Info);
    assert_eq!(classify("info: warn later"), Level::Info);
    assert_eq!(classify("\u{3000}Error in full-width space"), Level::Error);
}

#[test]
fn chunks_are_joined_into_whole_lines() {
    let mut buffer = LineBuffer::new();
    assert!(buffer.push_text("Warn").is_empty());
    assert!(buffer.push_text("ing: split ").is_empty());
    let lines = buffer.push_text("line  \r\n\n  \nnext");
    assert_eq!(lines, vec![(Level::Warning, "Warning: split line".to_string())]);
    let lines = buffer.push_bytes(b" part\nDebug: done\n");
    assert_eq!(
        lines,
        vec![
            (Level::Info, "next part".to_string()),
            (Level::Debug, "Debug: done".to_string())
        ]
    );
    assert!(buffer.push_text("").is_empty());
}

#[test]
fn chunking_does_not_change_the_lines() {
    let text = "Error: a\nwarning b\n\nc\r\ntrailing";
    let mut whole = LineBuffer::new();
    let all = whole.push_text(text);
    for cut in 0..=text.len() {
        let mut parts = LineBuffer::new();
        let mut got = parts.push_text(&text[..cut]);
        got.extend(parts.push_text(&text[cut..]));
        assert_eq!(got, all, "cut at {cut}");
    }
    assert_eq!(all.len(), 3);
}

#[test]
fn invalid_utf8_in_a_chunk_is_replaced() {
    let mut buffer = LineBuffer::new();
    let lines = buffer.push_bytes(&[b'E', b'r', b'r', b'o', b'r', 0xff, b'\n']);
    assert_eq!(lines, vec![(Level::Error, "Error\u{fffd}".to_string())]);
}

#[test]
fn an_implicit_install_never_overrides_an_explicit_one() {
    let mut state = InstallState::new();
    assert!(state.should_install(false));
    state.record_installed(false);
    assert!(!state.should_install(false));
    assert!(state.should_install(true));
    state.record_installed(true);
    assert_eq!(state, InstallState { installed: true, explicit: true });
    assert!(!state.should_install(false));

    let fresh = InstallState { installed: false, explicit: true };
    assert!(!fresh.should_install(false));
}

#[test]
fn log_filter_bits() {
    let f = LogFilter::error() | LogFilter::warning();
    assert_eq!(f.bits(), 3);
    assert!(f.contains(LogFilter::warning()));
    assert!(!f.contains(LogFilter::debug()));
    assert_eq!(LogFilter::all().bits(), 15);
    assert_eq!(LogFilter::info().union(LogFilter::debug()).bits(), 12);
    assert!(LogFilter::empty().is_empty());
    assert!(LogFilter::default().is_empty());
}

#[test]
fn log_format_numbers() {
    assert_eq!(LogFormat::Text.to_raw(), 0);
    assert_eq!(LogFormat::Terminal.to_raw(), 1);
    assert_eq!(LogFormat::default(), LogFormat::Text);
}

#[test]
fn log_filter_bit_operations() {
    let a = LogFilter::error() | LogFilter::warning();
    let b = LogFilter::warning() | LogFilter::info();
    assert_eq!(a & b, LogFilter::warning());
    assert_eq!(a.intersection(b), LogFilter::warning());
    assert_eq!(a - b, LogFilter::error());
    assert_eq!(a.difference(b), LogFilter::error());
    assert!(a.intersects(b));
    assert!(!LogFilter::debug().intersects(a));
    assert_eq!(!a, LogFilter::info() | LogFilter::debug());
    assert_eq!(a.complement(), LogFilter::info() | LogFilter::debug());
    let mut f = LogFilter::empty();
    f.insert(LogFilter::debug());
    f.insert(LogFilter::error());
    assert_eq!(f.bits(), 9);
    f.remove(LogFilter::debug());
    assert_eq!(f, LogFilter::error());
    f.toggle(LogFilter::error() | LogFilter::info());
    assert_eq!(f, LogFilter::info());
}

#[test]
fn log_filter_from_bits() {
    assert_eq!(LogFilter::from_bits(3), Some(LogFilter::error() | LogFilter::warning()));
    assert_eq!(LogFilter::from_bits(16), None);
    assert_eq!(LogFilter::from_bits_truncate(0xFF), LogFilter::all());
    assert_eq!(LogFilter::from_bits_truncate(0x18), LogFilter::debug());
}

#[test]
fn log_filter_iterates_in_declaration_order() {
    assert_eq!(
        (LogFilter::debug() | LogFilter::error()).iter(),
        vec![LogFilter::error(), LogFilter::debug()]
    );
    assert!(LogFilter::empty().iter().is_empty());
    assert_eq!(LogFilter::all().iter().len(), 4);
}
