//! The three stages together.
//!
//! The channels hand on every message in the order in which it was offered.
//! What the reading stage offers is therefore what the other two stages
//! receive, and the laws here follow: the writing stage hands on the input
//! as it was read, the reporting stage ends with its length as the total,
//! and each channel carries one sentinel, at its end.

use vstd::prelude::*;
use crate::reader::{ReadOutcome, ReaderView};
use crate::stats::{bytes_in, lemma_total_of_prefix, StatsView};
use crate::writer::WriterView;

verus! {

/// The reads that `input` is taken in when every read fills a buffer of
/// `size` bytes as far as the input goes.
pub open spec fn chunked(input: Seq<u8>, size: nat) -> Seq<Seq<u8>>
    decreases input.len(),
{
    if size == 0 || input.len() == 0 {
        Seq::empty()
    } else if input.len() <= size {
        seq![input]
    } else {
        seq![input.take(size as int)] + chunked(input.skip(size as int), size)
    }
}

/// The number of bytes of each read.
pub open spec fn lengths(reads: Seq<Seq<u8>>) -> Seq<usize> {
    Seq::new(reads.len(), |i: int| reads[i].len() as usize)
}

/// Whether every read of `reads` brought bytes, and no more than a buffer
/// can hold.
pub open spec fn all_bring_bytes(reads: Seq<Seq<u8>>) -> bool {
    forall|i: int| 0 <= i < reads.len() ==> 0 < (#[trigger] reads[i]).len() <= usize::MAX
}

/// The reading stage after it has read `input` to its end with a buffer of
/// `size` bytes.
pub open spec fn relayed(input: Seq<u8>, size: nat) -> ReaderView {
    ReaderView::fresh().fed(chunked(input, size)).ended()
}

/// The reads of an input are the input cut into pieces: each holds a byte at
/// least and `size` bytes at most, and laid end to end they are the input.
pub proof fn lemma_chunked_is_input(input: Seq<u8>, size: nat)
    requires
        size >= 1,
    ensures
        chunked(input, size).flatten() == input,
        forall|i: int|
            0 <= i < chunked(input, size).len() ==> 0 < (#[trigger] chunked(input, size)[i]).len()
                <= size,
    decreases input.len(),
{
    if input.len() == 0 {
        assert(chunked(input, size).flatten() =~= input);
    } else if input.len() <= size {
        seq![input].lemma_flatten_one_element();
    } else {
        let head = input.take(size as int);
        let rest = input.skip(size as int);
        lemma_chunked_is_input(rest, size);
        let pieces = chunked(input, size);
        assert(pieces.first() == head);
        assert(pieces.drop_first() =~= chunked(rest, size));
        assert(pieces.flatten() =~= head + rest);
        assert(head + rest =~= input);
        assert forall|i: int| 0 <= i < pieces.len() implies 0 < (#[trigger] pieces[i]).len()
            <= size by {
            if i > 0 {
                assert(pieces[i] == chunked(rest, size)[i - 1]);
            }
        }
    }
}

/// The counts of some reads add up to the bytes that the reads hold.
pub proof fn lemma_lengths_add_up(reads: Seq<Seq<u8>>)
    requires
        reads.flatten().len() <= usize::MAX,
    ensures
        bytes_in(lengths(reads)) == reads.flatten().len(),
    decreases reads.len(),
{
    if reads.len() > 0 {
        let front = reads.drop_last();
        assert(reads =~= front.push(reads.last()));
        front.lemma_flatten_push(reads.last());
        assert(lengths(reads).drop_last() =~= lengths(front));
        lemma_lengths_add_up(front);
    }
}

/// While every read brings bytes and every chunk is taken, the reading stage
/// goes on, and it has offered each read to the data channel and its length
/// to the count channel.
pub proof fn lemma_reader_offers_reads(reads: Seq<Seq<u8>>)
    requires
        all_bring_bytes(reads),
    ensures
        ReaderView::fresh().fed(reads) == (ReaderView {
            finished: false,
            counts: lengths(reads),
            chunks: reads,
        }),
    decreases reads.len(),
{
    let fed = ReaderView::fresh().fed(reads);
    if reads.len() == 0 {
        assert(fed.counts =~= lengths(reads));
        assert(fed.chunks =~= reads);
    } else {
        let front = reads.drop_last();
        let last = reads.last();
        lemma_reader_offers_reads(front);
        assert(last.take(last.len() as int) =~= last);
        assert(fed.counts =~= lengths(reads));
        assert(fed.chunks =~= reads);
    }
}

/// While every chunk that arrives holds bytes, the writing stage goes on,
/// and it has handed on the chunks laid end to end.
pub proof fn lemma_writer_hands_on_chunks(chunks: Seq<Seq<u8>>)
    requires
        forall|i: int| 0 <= i < chunks.len() ==> (#[trigger] chunks[i]).len() > 0,
    ensures
        WriterView::fresh().taken(chunks) == (WriterView {
            finished: false,
            handed: chunks.flatten(),
        }),
    decreases chunks.len(),
{
    if chunks.len() == 0 {
        assert(chunks.flatten() =~= Seq::<u8>::empty());
    } else {
        let front = chunks.drop_last();
        lemma_writer_hands_on_chunks(front);
        assert(chunks =~= front.push(chunks.last()));
        front.lemma_flatten_push(chunks.last());
    }
}

/// Round trip: whatever the size of the buffer, the writing stage hands on
/// the input byte for byte, and ends, when it receives what the reading stage
/// offers for that input.
pub proof fn lemma_round_trip(input: Seq<u8>, size: nat)
    requires
        1 <= size <= usize::MAX,
    ensures
        WriterView::fresh().taken(relayed(input, size).chunks).handed == input,
        WriterView::fresh().taken(relayed(input, size).chunks).finished,
{
    let reads = chunked(input, size);
    lemma_chunked_is_input(input, size);
    lemma_reader_offers_reads(reads);
    lemma_writer_hands_on_chunks(reads);
    let messages = relayed(input, size).chunks;
    assert(messages =~= reads.push(Seq::empty()));
    assert(messages.drop_last() =~= reads);
}

/// The running total of the reporting stage is the length of the input, and
/// the stage has ended, when it receives what the reading stage offers for
/// that input. The counts may arrive at any times.
pub proof fn lemma_total_is_input_length(input: Seq<u8>, size: nat, silent: bool, gaps: Seq<nat>)
    requires
        1 <= size <= usize::MAX,
        input.len() <= usize::MAX,
        gaps.len() == relayed(input, size).counts.len(),
    ensures
        StatsView::fresh(silent).after(relayed(input, size).counts, gaps).total == input.len(),
        StatsView::fresh(silent).after(relayed(input, size).counts, gaps).done,
{
    let reads = chunked(input, size);
    lemma_chunked_is_input(input, size);
    lemma_reader_offers_reads(reads);
    lemma_lengths_add_up(reads);
    let counts = relayed(input, size).counts;
    assert(counts =~= lengths(reads).push(0));
    assert(counts.take(reads.len() as int) =~= lengths(reads));
    lemma_total_of_prefix(silent, counts, gaps, reads.len());
}

/// One sentinel, and at the end: once the reading stage has finished, the
/// last message offered to each channel is its sentinel, and no message
/// before it is one. A stage that has not finished has offered no sentinel.
pub proof fn lemma_sentinel_is_last(reader: ReaderView)
    requires
        reader.well_formed(),
    ensures
        reader.finished ==> reader.counts.len() > 0 && reader.counts.last() == 0
            && reader.chunks.last().len() == 0,
        forall|i: int|
            0 <= i < reader.counts.len() && !(reader.finished && i == reader.counts.len() - 1)
                ==> reader.counts[i] != 0 && reader.chunks[i].len() != 0,
        reader.closed().closed() == reader.closed(),
        forall|data: Seq<u8>, outcome: ReadOutcome, delivered: bool|
            reader.finished ==> #[trigger] reader.stepped(data, outcome, delivered) == reader,
{
}

/// Every step of the reading stage keeps its logs well formed, and a stage
/// that stops has finished.
pub proof fn lemma_step_keeps_logs(
    reader: ReaderView,
    data: Seq<u8>,
    outcome: ReadOutcome,
    delivered: bool,
)
    requires
        reader.well_formed(),
        outcome matches ReadOutcome::Bytes(n) ==> n <= data.len(),
    ensures
        reader.stepped(data, outcome, delivered).well_formed(),
        reader.closed().well_formed(),
        !(reader.publishes(outcome) && delivered) ==> reader.stepped(
            data,
            outcome,
            delivered,
        ).finished,
{
}

/// The reading stage has finished after an input was read to its end, its
/// logs are well formed, and so each channel was offered one sentinel, last.
pub proof fn lemma_relayed_ends_with_sentinel(input: Seq<u8>, size: nat)
    requires
        1 <= size <= usize::MAX,
    ensures
        relayed(input, size).finished,
        relayed(input, size).well_formed(),
        relayed(input, size).chunks == chunked(input, size).push(Seq::empty()),
        relayed(input, size).counts == lengths(chunked(input, size)).push(0),
{
    let reads = chunked(input, size);
    lemma_chunked_is_input(input, size);
    lemma_reader_offers_reads(reads);
    assert(relayed(input, size).chunks =~= reads.push(Seq::empty()));
    assert(relayed(input, size).counts =~= lengths(reads).push(0));
}

} // verus!
