use crate::stream::Phase;
use vstd::prelude::*;

verus! {

/// What the sink needs to know of one buffer of a sample.
#[derive(Clone, Copy, Debug, PartialEq, Eq, Structural)]
pub struct BufferInfo {
    /// The buffer is marked as a discontinuity.
    pub discont: bool,
    /// The buffer is marked as a header.
    pub header: bool,
    /// The size of the buffer's payload in bytes.
    pub size: usize,
}

/// Whether `buffer` is an initialization payload: it carries both marks.
pub open spec fn is_init(buffer: BufferInfo) -> bool {
    buffer.discont && buffer.header
}

/// Whether the first buffer of `batch` is taken as the initialization
/// payload: the stream has had no media segment yet, and the buffer carries
/// both marks.
pub open spec fn leads_with_init(phase: Phase, batch: Seq<BufferInfo>) -> bool {
    phase == Phase::AwaitingInit && batch.len() > 0 && is_init(batch[0])
}

/// The place in `batch` of the first buffer that belongs to the media
/// segment.
pub open spec fn media_start(phase: Phase, batch: Seq<BufferInfo>) -> int {
    if leads_with_init(phase, batch) {
        1
    } else {
        0
    }
}

/// The sizes of `buffers`, added up.
pub open spec fn total_size(buffers: Seq<BufferInfo>) -> nat
    decreases buffers.len(),
{
    if buffers.len() == 0 {
        0
    } else {
        total_size(buffers.drop_last()) + buffers.last().size as nat
    }
}

/// The size of the media segment that `batch` holds.
pub open spec fn media_size(phase: Phase, batch: Seq<BufferInfo>) -> nat {
    total_size(batch.skip(media_start(phase, batch)))
}

/// A part of a batch is no larger than the batch.
pub proof fn lemma_total_size_of_part(buffers: Seq<BufferInfo>, from: int, to: int)
    requires
        0 <= from <= to <= buffers.len(),
    ensures
        total_size(buffers.subrange(from, to)) <= total_size(buffers),
    decreases buffers.len(),
{
    if to < buffers.len() {
        let front = buffers.drop_last();
        lemma_total_size_of_part(front, from, to);
        assert(front.subrange(from, to) =~= buffers.subrange(from, to));
    } else if from < to {
        let front = buffers.drop_last();
        lemma_total_size_of_part(front, from, to - 1);
        assert(buffers.subrange(from, to).drop_last() =~= front.subrange(from, to - 1));
    } else {
        assert(buffers.subrange(from, to) =~= Seq::<BufferInfo>::empty());
    }
}

/// Whether the first buffer of `batch` is taken as the initialization
/// payload of a stream in `phase`.
pub fn starts_with_init(phase: Phase, batch: &Vec<BufferInfo>) -> (init: bool)
    ensures
        init == leads_with_init(phase, batch@),
{
    match phase {
        Phase::AwaitingInit => batch.len() > 0 && batch[0].discont && batch[0].header,
        Phase::Streaming => false,
    }
}

/// Adds up the sizes of the buffers of `batch` from `first` on, if the sum
/// fits.
pub fn payload_size(batch: &Vec<BufferInfo>, first: usize) -> (size: Option<usize>)
    requires
        first <= batch@.len(),
    ensures
        size is Some <==> total_size(batch@.skip(first as int)) <= usize::MAX,
        size matches Some(s) ==> s == total_size(batch@.skip(first as int)),
{
    let ghost part = batch@.skip(first as int);
    let mut sum: usize = 0;
    let mut i: usize = first;
    assert(part.take(0) =~= Seq::<BufferInfo>::empty());
    while i < batch.len()
        invariant
            first <= i <= batch.len(),
            part == batch@.skip(first as int),
            sum == total_size(part.take(i - first)),
        decreases batch.len() - i,
    {
        let ghost grown = part.take(i - first + 1);
        proof {
            assert(grown.drop_last() =~= part.take(i - first));
            assert(grown.last() == batch@[i as int]);
            lemma_total_size_of_part(part, 0, i - first + 1);
            assert(part.subrange(0, i - first + 1) =~= grown);
        }
        match sum.checked_add(batch[i].size) {
            Some(more) => {
                sum = more;
            },
            None => {
                return None;
            },
        }
        i = i + 1;
    }
    assert(part.take(batch.len() - first) =~= part);
    Some(sum)
}

} // verus!
