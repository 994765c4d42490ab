use cmdbridge::relay::split_lines;

fn join(lines: &Vec<Vec<u8>>) -> Vec<u8> {
    let mut joined: Vec<u8> = Vec::new();
    for line in lines {
        joined.extend_from_slice(line);
    }
    joined
}

#[test]
fn splits_terminated_and_partial_lines() {
    let stream = b"a\nbb\nccc".to_vec();
    let lines = split_lines(&stream);
    assert_eq!(lines.len(), 3);
    assert_eq!(lines[0], b"a\n".to_vec());
    assert_eq!(lines[1], b"bb\n".to_vec());
    assert_eq!(lines[2], b"ccc".to_vec());
}

#[test]
fn empty_stream_has_no_lines() {
    let lines = split_lines(&Vec::new());
    assert!(lines.is_empty());
}

#[test]
fn blank_lines_are_kept() {
    let stream = b"\n\n".to_vec();
    let lines = split_lines(&stream);
    assert_eq!(lines.len(), 2);
    assert_eq!(lines[0], b"\n".to_vec());
    assert_eq!(lines[1], b"\n".to_vec());
}

#[test]
fn relay_reproduces_both_streams_exactly() {
    // A child that writes three known lines on one stream and two on the
    // other: relaying each stream's lines in order reproduces it exactly,
    // with no line dropped, duplicated, or reordered.
    let child_stdout = b"one\ntwo\nthree\n".to_vec();
    let child_stderr = b"warn: a\nerr: b\n".to_vec();
    let out_lines = split_lines(&child_stdout);
    let err_lines = split_lines(&child_stderr);
    assert_eq!(out_lines.len(), 3);
    assert_eq!(err_lines.len(), 2);
    assert_eq!(out_lines[0], b"one\n".to_vec());
    assert_eq!(out_lines[1], b"two\n".to_vec());
    assert_eq!(out_lines[2], b"three\n".to_vec());
    assert_eq!(join(&out_lines), child_stdout);
    assert_eq!(join(&err_lines), child_stderr);
}

#[test]
fn round_trip_holds_for_assorted_streams() {
    let streams: Vec<Vec<u8>> = vec![
        b"".to_vec(),
        b"\n".to_vec(),
        b"no terminator".to_vec(),
        b"mixed\npartial".to_vec(),
        b"\nleading".to_vec(),
        vec![0, 10, 255, 10, 10, 7],
    ];
    for stream in &streams {
        let lines = split_lines(stream);
        assert_eq!(&join(&lines), stream);
    }
}
