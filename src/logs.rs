//! Routing of the container's tagged output to the local streams.
use vstd::prelude::*;

verus! {

/// The stream a chunk of the container's output was tagged with.
#[derive(Clone, Copy, Debug, PartialEq, Eq, Structural)]
pub enum StreamKind {
    StdOut,
    StdErr,
    /// Input echoed back on the wire: never forwarded.
    StdIn,
}

/// A local output stream.
#[derive(Clone, Copy, Debug, PartialEq, Eq, Structural)]
pub enum Sink {
    Stdout,
    Stderr,
}

/// One piece of the container's output.
pub struct LogChunk {
    pub kind: StreamKind,
    pub bytes: Vec<u8>,
}

pub open spec fn route_spec(kind: StreamKind) -> Option<Sink> {
    match kind {
        StreamKind::StdOut => Some(Sink::Stdout),
        StreamKind::StdErr => Some(Sink::Stderr),
        StreamKind::StdIn => None,
    }
}

/// Where a chunk of the given kind is written; `None` for chunks that are
/// dropped.
pub fn route(kind: StreamKind) -> (r: Option<Sink>)
    ensures
        r == route_spec(kind),
{
    match kind {
        StreamKind::StdOut => Some(Sink::Stdout),
        StreamKind::StdErr => Some(Sink::Stderr),
        StreamKind::StdIn => None,
    }
}

/// The bytes that `sink` receives from `chunks`, in arrival order.
pub open spec fn forwarded(chunks: Seq<LogChunk>, sink: Sink) -> Seq<u8>
    decreases chunks.len(),
{
    if chunks.len() == 0 {
        Seq::empty()
    } else {
        let last = chunks.last();
        forwarded(chunks.drop_last(), sink) + if route_spec(last.kind) == Some(sink) {
            last.bytes@
        } else {
            Seq::empty()
        }
    }
}

/// The chunks of `chunks` tagged `kind`, in order.
pub open spec fn of_kind(chunks: Seq<LogChunk>, kind: StreamKind) -> Seq<LogChunk> {
    chunks.filter(|c: LogChunk| c.kind == kind)
}

/// Output is never crossed: what standard output receives is exactly what
/// the chunks tagged standard output carry, and standard error likewise;
/// chunks of any other tag, input echoes included, reach neither stream.
pub proof fn lemma_streams_kept_apart(chunks: Seq<LogChunk>)
    ensures
        forwarded(chunks, Sink::Stdout) == forwarded(of_kind(chunks, StreamKind::StdOut), Sink::Stdout),
        forwarded(chunks, Sink::Stderr) == forwarded(of_kind(chunks, StreamKind::StdErr), Sink::Stderr),
        forwarded(of_kind(chunks, StreamKind::StdErr), Sink::Stdout) == Seq::<u8>::empty(),
        forwarded(of_kind(chunks, StreamKind::StdOut), Sink::Stderr) == Seq::<u8>::empty(),
        forwarded(of_kind(chunks, StreamKind::StdIn), Sink::Stdout) == Seq::<u8>::empty(),
        forwarded(of_kind(chunks, StreamKind::StdIn), Sink::Stderr) == Seq::<u8>::empty(),
    decreases chunks.len(),
{
    reveal(Seq::filter);
    if chunks.len() > 0 {
        lemma_streams_kept_apart(chunks.drop_last());
        let last = chunks.last();
        assert(of_kind(chunks, StreamKind::StdOut) == if last.kind == StreamKind::StdOut {
            of_kind(chunks.drop_last(), StreamKind::StdOut).push(last)
        } else {
            of_kind(chunks.drop_last(), StreamKind::StdOut)
        });
        assert(of_kind(chunks, StreamKind::StdErr) == if last.kind == StreamKind::StdErr {
            of_kind(chunks.drop_last(), StreamKind::StdErr).push(last)
        } else {
            of_kind(chunks.drop_last(), StreamKind::StdErr)
        });
        assert(of_kind(chunks, StreamKind::StdIn) == if last.kind == StreamKind::StdIn {
            of_kind(chunks.drop_last(), StreamKind::StdIn).push(last)
        } else {
            of_kind(chunks.drop_last(), StreamKind::StdIn)
        });
        assert forall|k: StreamKind, s: Sink| true implies forwarded(of_kind(chunks.drop_last(), k).push(last), s)
            == forwarded(of_kind(chunks.drop_last(), k), s) + if route_spec(last.kind) == Some(s) {
            last.bytes@
        } else {
            Seq::empty()
        } by {
            assert(of_kind(chunks.drop_last(), k).push(last).drop_last() =~= of_kind(chunks.drop_last(), k));
        }
        assert(forwarded(chunks, Sink::Stdout) =~= forwarded(of_kind(chunks, StreamKind::StdOut), Sink::Stdout));
        assert(forwarded(chunks, Sink::Stderr) =~= forwarded(of_kind(chunks, StreamKind::StdErr), Sink::Stderr));
        assert(forwarded(of_kind(chunks, StreamKind::StdErr), Sink::Stdout) =~= Seq::<u8>::empty());
        assert(forwarded(of_kind(chunks, StreamKind::StdOut), Sink::Stderr) =~= Seq::<u8>::empty());
        assert(forwarded(of_kind(chunks, StreamKind::StdIn), Sink::Stdout) =~= Seq::<u8>::empty());
        assert(forwarded(of_kind(chunks, StreamKind::StdIn), Sink::Stderr) =~= Seq::<u8>::empty());
    }
}

/// What the two local streams hold after a sequence of chunks.
pub struct Demuxed {
    pub stdout: Vec<u8>,
    pub stderr: Vec<u8>,
}

fn append_bytes(dst: &mut Vec<u8>, src: &Vec<u8>)
    ensures
        final(dst)@ == old(dst)@ + src@,
{
    let mut i: usize = 0;
    while i < src.len()
        invariant
            i <= src.len(),
            dst@ == old(dst)@ + src@.subrange(0, i as int),
        decreases src.len() - i,
    {
        dst.push(src[i]);
        i = i + 1;
        assert(src@.subrange(0, i as int) =~= src@.subrange(0, i - 1) + seq![src@[i - 1]]);
    }
    assert(src@.subrange(0, src@.len() as int) =~= src@);
}

/// Splits `chunks` over the two local streams: standard output receives the
/// chunks tagged as such, standard error likewise, each in arrival order;
/// input chunks go nowhere.
pub fn demux(chunks: &Vec<LogChunk>) -> (r: Demuxed)
    ensures
        r.stdout@ == forwarded(chunks@, Sink::Stdout),
        r.stderr@ == forwarded(chunks@, Sink::Stderr),
{
    let mut r = Demuxed { stdout: Vec::new(), stderr: Vec::new() };
    let mut i: usize = 0;
    while i < chunks.len()
        invariant
            i <= chunks.len(),
            r.stdout@ == forwarded(chunks@.subrange(0, i as int), Sink::Stdout),
            r.stderr@ == forwarded(chunks@.subrange(0, i as int), Sink::Stderr),
        decreases chunks.len() - i,
    {
        let chunk = &chunks[i];
        assert(chunks@.subrange(0, i + 1).drop_last() =~= chunks@.subrange(0, i as int));
        match route(chunk.kind) {
            Some(Sink::Stdout) => append_bytes(&mut r.stdout, &chunk.bytes),
            Some(Sink::Stderr) => append_bytes(&mut r.stderr, &chunk.bytes),
            None => {},
        }
        i = i + 1;
    }
    assert(chunks@.subrange(0, chunks@.len() as int) =~= chunks@);
    r
}

} // verus!
