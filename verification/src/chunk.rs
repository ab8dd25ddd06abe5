//! Fragmentation of a byte buffer into bounded segments, and reassembly.

use vstd::prelude::*;

verus! {

/// One fragment of a chunked payload: its bytes (the true length is the
/// length of `data`) and the terminal flag.
#[derive(Debug, PartialEq, Eq)]
pub struct Segment {
    pub data: Vec<u8>,
    pub last: bool,
}

impl View for Segment {
    type V = (Seq<u8>, bool);

    open spec fn view(&self) -> (Seq<u8>, bool) {
        (self.data@, self.last)
    }
}

/// The views of a sequence of segments, in order.
pub open spec fn segment_views(segs: Seq<Segment>) -> Seq<(Seq<u8>, bool)> {
    Seq::new(segs.len(), |i: int| segs[i]@)
}

/// The fragmentation of `data` with maximum segment size `max`: full
/// segments without the terminal flag, then one terminal segment holding the
/// rest (which is empty only when `data` is).
pub open spec fn segments(data: Seq<u8>, max: nat) -> Seq<(Seq<u8>, bool)>
    decreases data.len(),
{
    if max == 0 || data.len() <= max {
        seq![(data, true)]
    } else {
        seq![(data.take(max as int), false)] + segments(data.skip(max as int), max)
    }
}

/// The concatenation of the segments' bytes, in order.
pub open spec fn reassembled(segs: Seq<(Seq<u8>, bool)>) -> Seq<u8>
    decreases segs.len(),
{
    if segs.len() == 0 {
        Seq::empty()
    } else {
        segs[0].0 + reassembled(segs.skip(1))
    }
}

/// The number of segments that a buffer of `len` bytes takes: the quotient
/// of `len` by `max` rounded up, and one (empty) segment for an empty buffer.
pub open spec fn segment_count(len: nat, max: nat) -> nat {
    if len == 0 {
        1
    } else {
        ((len + max - 1) / (max as int)) as nat
    }
}

proof fn lemma_count_step(len: nat, max: nat)
    requires
        max > 0,
        len > max,
    ensures
        segment_count(len, max) == 1 + segment_count((len - max) as nat, max),
{
    let a: int = len - max + max - 1;
    assert((a + max) / (max as int) == a / (max as int) + 1) by (nonlinear_arith)
        requires
            max > 0,
            a >= 0,
    ;
    assert(a / (max as int) >= 0) by (nonlinear_arith)
        requires
            max > 0,
            a >= 0,
    ;
}

/// Fragmenting and reassembling gives the buffer back; the number of
/// segments is `segment_count`; every segment but the final one holds
/// exactly `max` bytes and none holds more; the terminal flag stands on the
/// final segment and on no other.
pub proof fn lemma_chunking_round_trip(data: Seq<u8>, max: nat)
    requires
        max > 0,
    ensures
        reassembled(segments(data, max)) == data,
        segments(data, max).len() == segment_count(data.len(), max),
        forall|k: int|
            0 <= k < segments(data, max).len() ==> (#[trigger] segments(data, max)[k]).1 == (k
                == segments(data, max).len() - 1),
        forall|k: int|
            0 <= k < segments(data, max).len() - 1 ==> (#[trigger] segments(data, max)[k]).0.len()
                == max,
        segments(data, max).last().0.len() <= max,
        data.len() > 0 ==> segments(data, max).last().0.len() > 0,
    decreases data.len(),
{
    let segs = segments(data, max);
    if data.len() <= max {
        assert(segs.skip(1) =~= Seq::empty());
        assert(reassembled(segs.skip(1)) =~= Seq::empty());
        assert(reassembled(segs) =~= data);
        if data.len() > 0 {
            assert((data.len() + max - 1) / (max as int) == 1) by (nonlinear_arith)
                requires
                    0 < data.len() <= max,
            ;
        }
    } else {
        let head = data.take(max as int);
        let rest = data.skip(max as int);
        let tail = segments(rest, max);
        lemma_chunking_round_trip(rest, max);
        lemma_count_step(data.len(), max);
        assert(segs.skip(1) =~= tail);
        assert(head + rest =~= data);
        assert(reassembled(segs) == data);
        assert forall|k: int| 0 <= k < segs.len() implies (#[trigger] segs[k]).1 == (k == segs.len()
            - 1) by {
            if k > 0 {
                assert(segs[k] == tail[k - 1]);
            }
        }
        assert forall|k: int| 0 <= k < segs.len() - 1 implies (#[trigger] segs[k]).0.len()
            == max by {
            if k > 0 {
                assert(segs[k] == tail[k - 1]);
            }
        }
        assert(segs.last() == tail.last());
    }
}

/// A copy of `data[from..to]`.
pub fn copy_range(data: &[u8], from: usize, to: usize) -> (out: Vec<u8>)
    requires
        from <= to <= data@.len(),
    ensures
        out@ == data@.subrange(from as int, to as int),
{
    let mut out: Vec<u8> = Vec::new();
    let mut i: usize = from;
    while i < to
        invariant
            from <= i <= to <= data@.len(),
            out@ == data@.subrange(from as int, i as int),
        decreases to - i,
    {
        out.push(data[i]);
        i += 1;
        assert(out@ =~= data@.subrange(from as int, i as int));
    }
    out
}

/// Splits `data` into sequential segments of at most `max` bytes. Only the
/// final segment carries the terminal flag and only it may be shorter than
/// `max`; an empty buffer gives one empty terminal segment.
pub fn partition_data(data: &[u8], max: usize) -> (out: Vec<Segment>)
    requires
        max > 0,
    ensures
        segment_views(out@) == segments(data@, max as nat),
{
    let mut out: Vec<Segment> = Vec::new();
    let mut i: usize = 0;
    assert(data@.skip(0) =~= data@);
    assert(segment_views(out@) =~= Seq::empty());
    while data.len() - i > max
        invariant
            max > 0,
            i <= data@.len(),
            segment_views(out@) + segments(data@.skip(i as int), max as nat) == segments(
                data@,
                max as nat,
            ),
        decreases data@.len() - i,
    {
        let ghost before = out@;
        let ghost rest = data@.skip(i as int);
        let bytes = copy_range(data, i, i + max);
        out.push(Segment { data: bytes, last: false });
        proof {
            assert(bytes@ =~= rest.take(max as int));
            assert(rest.skip(max as int) =~= data@.skip(i + max));
            assert(segment_views(out@) =~= segment_views(before) + seq![
                (rest.take(max as int), false),
            ]);
            assert(segment_views(out@) + segments(data@.skip(i + max), max as nat)
                =~= segment_views(before) + segments(rest, max as nat));
        }
        i += max;
    }
    let ghost before = out@;
    let bytes = copy_range(data, i, data.len());
    out.push(Segment { data: bytes, last: true });
    proof {
        assert(bytes@ =~= data@.skip(i as int));
        assert(segment_views(out@) =~= segment_views(before) + seq![(data@.skip(i as int), true)]);
    }
    out
}

/// Concatenates the bytes of `segs`, in order.
pub fn reassemble(segs: &Vec<Segment>) -> (out: Vec<u8>)
    ensures
        out@ == reassembled(segment_views(segs@)),
{
    let mut out: Vec<u8> = Vec::new();
    let mut i: usize = 0;
    proof {
        lemma_reassembled_prefix(segment_views(segs@), 0);
    }
    while i < segs.len()
        invariant
            i <= segs.len(),
            out@ == reassembled(segment_views(segs@).take(i as int)),
        decreases segs.len() - i,
    {
        out.extend_from_slice(segs[i].data.as_slice());
        proof {
            lemma_reassembled_prefix(segment_views(segs@), i as int + 1);
        }
        i += 1;
    }
    assert(segment_views(segs@).take(i as int) =~= segment_views(segs@));
    out
}

/// Reassembling a prefix that is one segment longer appends that segment.
proof fn lemma_reassembled_prefix(segs: Seq<(Seq<u8>, bool)>, n: int)
    requires
        0 <= n <= segs.len(),
    ensures
        n == 0 ==> reassembled(segs.take(n)) == Seq::<u8>::empty(),
        n > 0 ==> reassembled(segs.take(n)) == reassembled(segs.take(n - 1)) + segs[n - 1].0,
    decreases n,
{
    if n == 0 {
    } else if n == 1 {
        assert(segs.take(1).skip(1) =~= Seq::empty());
        assert(reassembled(segs.take(1).skip(1)) =~= Seq::empty());
        assert(reassembled(segs.take(0)) =~= Seq::empty());
        assert(reassembled(segs.take(1)) =~= segs[0].0);
    } else {
        let tail = segs.skip(1);
        lemma_reassembled_prefix(tail, n - 1);
        assert(segs.take(n).skip(1) =~= tail.take(n - 1));
        assert(segs.take(n - 1).skip(1) =~= tail.take(n - 2));
        assert(reassembled(segs.take(n)) == segs[0].0 + reassembled(tail.take(n - 1)));
        assert(reassembled(segs.take(n - 1)) == segs[0].0 + reassembled(tail.take(n - 2)));
        assert(segs[0].0 + (reassembled(tail.take(n - 2)) + tail[n - 2].0) =~= (segs[0].0
            + reassembled(tail.take(n - 2))) + tail[n - 2].0);
    }
}

} // verus!
