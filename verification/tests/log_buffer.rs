use libre_wallet::log_buffer::{format_event, tag_line, LogBuffer, Stream, LOG_CAPACITY};

fn numbered(i: usize) -> String {
    format!("line {}", i)
}

#[test]
fn new_log_is_empty() {
    let log = LogBuffer::new();
    assert!(log.is_empty());
    assert_eq!(log.len(), 0);
    assert_eq!(log.snapshot_logs(), Vec::<String>::new());
}

#[test]
fn capacity_is_one_hundred() {
    assert_eq!(LOG_CAPACITY, 100);
}

#[test]
fn append_keeps_arrival_order() {
    let mut log = LogBuffer::new();
    log.append_log("first".to_string());
    log.append_log("second".to_string());
    log.append_log("third".to_string());
    assert!(!log.is_empty());
    assert_eq!(log.len(), 3);
    assert_eq!(log.snapshot_logs(), vec!["first", "second", "third"]);
}

#[test]
fn one_hundred_lines_all_stay() {
    let mut log = LogBuffer::new();
    for i in 0..100 {
        log.append_log(numbered(i));
    }
    let expected: Vec<String> = (0..100).map(numbered).collect();
    assert_eq!(log.len(), 100);
    assert_eq!(log.snapshot_logs(), expected);
}

#[test]
fn one_line_beyond_capacity_evicts_the_oldest() {
    let mut log = LogBuffer::new();
    for i in 0..101 {
        log.append_log(numbered(i));
    }
    let expected: Vec<String> = (1..101).map(numbered).collect();
    assert_eq!(log.len(), 100);
    assert_eq!(log.snapshot_logs(), expected);
}

#[test]
fn one_hundred_fifty_lines_leave_the_last_hundred() {
    let mut log = LogBuffer::new();
    for i in 0..150 {
        log.append_log(numbered(i));
    }
    let kept = log.snapshot_logs();
    let expected: Vec<String> = (50..150).map(numbered).collect();
    assert_eq!(kept.len(), 100);
    assert_eq!(kept, expected);
}

#[test]
fn length_never_exceeds_capacity() {
    let mut log = LogBuffer::new();
    for i in 0..350 {
        log.append_log(numbered(i));
        assert_eq!(log.len(), std::cmp::min(i + 1, 100));
    }
}

#[test]
fn snapshot_is_a_copy() {
    let mut log = LogBuffer::new();
    log.append_log("before".to_string());
    let mut snapshot = log.snapshot_logs();
    log.append_log("after".to_string());
    assert_eq!(snapshot, vec!["before"]);
    snapshot.push("mine".to_string());
    assert_eq!(log.snapshot_logs(), vec!["before", "after"]);
}

#[test]
fn tag_marks_the_stream() {
    assert_eq!(tag_line(Stream::Stdout, "accepted"), "xmrig: accepted");
    assert_eq!(tag_line(Stream::Stderr, "accepted"), "xmrig err: accepted");
    assert_eq!(tag_line(Stream::Stdout, ""), "xmrig: ");
}

#[test]
fn event_line_has_time_in_brackets() {
    assert_eq!(format_event("12:34:56", "Mining started."), "[12:34:56] Mining started.");
    assert_eq!(format_event("", ""), "[] ");
}

#[test]
fn stdout_lines_keep_their_order() {
    let mut log = LogBuffer::new();
    for line in ["a", "b", "c"] {
        log.record_output::<String>(Stream::Stdout, Ok(line.to_string()));
    }
    assert_eq!(log.snapshot_logs(), vec!["xmrig: a", "xmrig: b", "xmrig: c"]);
}

#[test]
fn stderr_lines_are_tagged_as_errors() {
    let mut log = LogBuffer::new();
    log.record_output::<String>(Stream::Stderr, Ok("out of memory".to_string()));
    assert_eq!(log.snapshot_logs(), vec!["xmrig err: out of memory"]);
}

#[test]
fn failed_read_is_skipped_and_reading_goes_on() {
    let mut log = LogBuffer::new();
    log.record_output::<String>(Stream::Stdout, Ok("a".to_string()));
    log.record_output(Stream::Stdout, Err("stream did not contain valid UTF-8"));
    log.record_output::<String>(Stream::Stdout, Ok("b".to_string()));
    assert_eq!(log.snapshot_logs(), vec!["xmrig: a", "xmrig: b"]);
}

#[test]
fn interleaved_streams_keep_arrival_order() {
    let mut log = LogBuffer::new();
    log.record_output::<String>(Stream::Stdout, Ok("1".to_string()));
    log.record_output::<String>(Stream::Stderr, Ok("2".to_string()));
    log.record_output::<String>(Stream::Stdout, Ok("3".to_string()));
    assert_eq!(log.snapshot_logs(), vec!["xmrig: 1", "xmrig err: 2", "xmrig: 3"]);
}

#[test]
fn recorded_output_is_bounded_too() {
    let mut log = LogBuffer::new();
    for i in 0..120 {
        log.record_output::<String>(Stream::Stdout, Ok(numbered(i)));
    }
    let kept = log.snapshot_logs();
    assert_eq!(kept.len(), 100);
    assert_eq!(kept[0], "xmrig: line 20");
    assert_eq!(kept[99], "xmrig: line 119");
}

#[test]
fn event_at_a_given_time() {
    let mut log = LogBuffer::new();
    log.log_event_at("07:08:09", "Mining stopped.");
    assert_eq!(log.snapshot_logs(), vec!["[07:08:09] Mining stopped."]);
}

#[test]
fn event_is_stamped_with_a_time_of_day() {
    let mut log = LogBuffer::new();
    log.log_event("Mining started.");
    let lines = log.snapshot_logs();
    assert_eq!(lines.len(), 1);
    let line: Vec<char> = lines[0].chars().collect();
    assert_eq!(line.len(), 11 + "Mining started.".len());
    assert_eq!(line[0], '[');
    for i in [1, 2, 4, 5, 7, 8] {
        assert!(line[i].is_ascii_digit());
    }
    assert_eq!(line[3], ':');
    assert_eq!(line[6], ':');
    assert_eq!(line[9], ']');
    assert_eq!(line[10], ' ');
    let message: String = line[11..].iter().collect();
    assert_eq!(message, "Mining started.");
    let hour: u32 = lines[0][1..3].parse().unwrap();
    let minute: u32 = lines[0][4..6].parse().unwrap();
    let second: u32 = lines[0][7..9].parse().unwrap();
    assert!(hour < 24 && minute < 60 && second <= 60);
}

#[test]
fn events_are_bounded_too() {
    let mut log = LogBuffer::new();
    for i in 0..100 {
        log.append_log(numbered(i));
    }
    log.log_event("No miner process running.");
    let kept = log.snapshot_logs();
    assert_eq!(kept.len(), 100);
    assert_eq!(kept[0], "line 1");
    assert!(kept[99].ends_with("] No miner process running."));
}
