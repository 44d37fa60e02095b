use bazel_run::logs::{demux, route, LogChunk, Sink, StreamKind};

fn chunk(kind: StreamKind, s: &str) -> LogChunk {
    LogChunk { kind, bytes: s.as_bytes().to_vec() }
}

#[test]
fn each_tag_goes_to_its_own_stream() {
    assert_eq!(route(StreamKind::StdOut), Some(Sink::Stdout));
    assert_eq!(route(StreamKind::StdErr), Some(Sink::Stderr));
}

#[test]
fn input_chunks_are_dropped() {
    assert_eq!(route(StreamKind::StdIn), None);
    let out = demux(&vec![chunk(StreamKind::StdIn, "echo"), chunk(StreamKind::StdIn, "more")]);
    assert!(out.stdout.is_empty());
    assert!(out.stderr.is_empty());
}

#[test]
fn demux_keeps_order_within_each_stream() {
    let chunks = vec![
        chunk(StreamKind::StdOut, "a"),
        chunk(StreamKind::StdErr, "x"),
        chunk(StreamKind::StdIn, "typed"),
        chunk(StreamKind::StdOut, "b"),
        chunk(StreamKind::StdErr, "y"),
        chunk(StreamKind::StdOut, "c"),
    ];
    let out = demux(&chunks);
    assert_eq!(out.stdout, b"abc".to_vec());
    assert_eq!(out.stderr, b"xy".to_vec());
}

#[test]
fn error_chunks_never_reach_standard_output() {
    let out = demux(&vec![chunk(StreamKind::StdErr, "boom"), chunk(StreamKind::StdErr, "!")]);
    assert!(out.stdout.is_empty());
    assert_eq!(out.stderr, b"boom!".to_vec());
}

#[test]
fn output_chunks_never_reach_standard_error() {
    let out = demux(&vec![chunk(StreamKind::StdOut, "ok")]);
    assert!(out.stderr.is_empty());
    assert_eq!(out.stdout, b"ok".to_vec());
}

#[test]
fn no_chunks_give_empty_streams() {
    let out = demux(&Vec::new());
    assert!(out.stdout.is_empty() && out.stderr.is_empty());
}
