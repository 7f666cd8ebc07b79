//! The reading stage: what becomes of each read of the input.
//!
//! The caller reads the input into a buffer and hands every outcome to the
//! stage. For a read that brought bytes the stage offers their number to the
//! count channel and a copy of them to the data channel. When the input is at
//! its end, when a read fails or when the data channel takes no more, the
//! stage closes both channels with their sentinels, the count zero and the
//! empty chunk, and stops.

use vstd::prelude::*;
use vstd::slice::{slice_subrange, slice_to_vec};
use crossbeam::channel::Sender;
use crate::channel::offer;
use crate::flow::Flow;

verus! {

/// The most bytes that one read is asked for.
pub const CHUNK_SIZE: usize = 16384;

/// How a read of the input ended.
#[derive(Clone, Copy, Debug, PartialEq, Eq, Structural)]
pub enum ReadOutcome {
    /// The read put this many bytes at the start of the buffer. None at all
    /// means that the input is at its end.
    Bytes(usize),
    /// The read failed.
    Fault,
}

/// What the reading stage has done so far.
pub struct ReaderView {
    /// Whether the stage has closed its channels.
    pub finished: bool,
    /// The messages offered to the count channel, in order.
    pub counts: Seq<usize>,
    /// The messages offered to the data channel, in order.
    pub chunks: Seq<Seq<u8>>,
}

impl ReaderView {
    /// The stage at its start: nothing offered yet.
    pub open spec fn fresh() -> ReaderView {
        ReaderView { finished: false, counts: Seq::empty(), chunks: Seq::empty() }
    }

    /// Whether the outcome of a read is published: the stage is running and
    /// the read brought bytes.
    pub open spec fn publishes(self, outcome: ReadOutcome) -> bool {
        &&& !self.finished
        &&& outcome matches ReadOutcome::Bytes(n)
        &&& n != 0
    }

    /// The stage after it has dealt with a read into a buffer that holds
    /// `data`: where the outcome is published, the number of bytes read and
    /// a copy of them have been offered.
    pub open spec fn published(self, data: Seq<u8>, outcome: ReadOutcome) -> ReaderView {
        if self.publishes(outcome) {
            ReaderView {
                finished: false,
                counts: self.counts.push(outcome->Bytes_0),
                chunks: self.chunks.push(data.take(outcome->Bytes_0 as int)),
            }
        } else {
            self
        }
    }

    /// The stage after it has been closed: a running stage has offered the
    /// two sentinels, a finished one nothing more.
    pub open spec fn closed(self) -> ReaderView {
        if self.finished {
            self
        } else {
            ReaderView {
                finished: true,
                counts: self.counts.push(0),
                chunks: self.chunks.push(Seq::empty()),
            }
        }
    }

    /// The stage after one step: it goes on where the outcome is published
    /// and the data channel took the chunk, and is closed otherwise.
    pub open spec fn stepped(
        self,
        data: Seq<u8>,
        outcome: ReadOutcome,
        delivered: bool,
    ) -> ReaderView {
        if self.publishes(outcome) && delivered {
            self.published(data, outcome)
        } else {
            self.published(data, outcome).closed()
        }
    }

    /// The stage after every read of `reads` has been published in order and
    /// taken by the data channel.
    pub open spec fn fed(self, reads: Seq<Seq<u8>>) -> ReaderView
        decreases reads.len(),
    {
        if reads.len() == 0 {
            self
        } else {
            self.fed(reads.drop_last()).stepped(
                reads.last(),
                ReadOutcome::Bytes(reads.last().len() as usize),
                true,
            )
        }
    }

    /// The stage after the end of the input has been found.
    pub open spec fn ended(self) -> ReaderView {
        self.stepped(Seq::empty(), ReadOutcome::Bytes(0), true)
    }

    /// Whether the two channels have been offered the same chunks, one as
    /// counts and one as data, with no sentinel among them but the one that
    /// closes a finished stage.
    pub open spec fn well_formed(self) -> bool {
        &&& self.counts.len() == self.chunks.len()
        &&& forall|i: int| 0 <= i < self.counts.len() ==> self.counts[i] == self.chunks[i].len()
        &&& forall|i: int|
            0 <= i < self.counts.len() ==> (self.counts[i] == 0 <==> self.finished && i
                == self.counts.len() - 1)
        &&& self.finished ==> self.counts.len() > 0
    }
}

/// The reading stage.
pub struct Reader {
    finished: bool,
    counts: Ghost<Seq<usize>>,
    chunks: Ghost<Seq<Seq<u8>>>,
}

impl View for Reader {
    type V = ReaderView;

    closed spec fn view(&self) -> ReaderView {
        ReaderView { finished: self.finished, counts: self.counts@, chunks: self.chunks@ }
    }
}

/// A copy of the first `n` bytes of `buffer`.
pub fn copy_prefix(buffer: &[u8], n: usize) -> (chunk: Vec<u8>)
    requires
        n <= buffer@.len(),
    ensures
        chunk@ == buffer@.take(n as int),
{
    let chunk = slice_to_vec(slice_subrange(buffer, 0, n));
    assert(chunk@ =~= buffer@.take(n as int));
    chunk
}

impl Reader {
    #[verifier::type_invariant]
    spec fn logs_agree(self) -> bool {
        self@.well_formed()
    }

    /// A stage that has offered nothing yet.
    pub fn new() -> (reader: Reader)
        ensures
            reader@ == ReaderView::fresh(),
    {
        Reader { finished: false, counts: Ghost(Seq::empty()), chunks: Ghost(Seq::empty()) }
    }

    /// Whether the stage has closed its channels.
    pub fn is_finished(&self) -> (finished: bool)
        ensures
            finished == self@.finished,
    {
        self.finished
    }

    /// Deals with one read into `buffer`. Bytes that were read are published:
    /// their number is offered to the count channel, whether or not it is
    /// taken, and a copy of them to the data channel. The stage goes on only
    /// where the data channel took the chunk. In every other case it closes
    /// both channels and stops. A finished stage offers nothing.
    pub fn step(
        &mut self,
        buffer: &[u8],
        outcome: ReadOutcome,
        stats_tx: &Sender<usize>,
        write_tx: &Sender<Vec<u8>>,
    ) -> (flow: Flow)
        requires
            outcome matches ReadOutcome::Bytes(n) ==> n <= buffer@.len(),
        ensures
            final(self)@ == old(self)@.stepped(buffer@, outcome, flow == Flow::Continue),
            flow == Flow::Continue ==> old(self)@.publishes(outcome),
            flow == Flow::Stop ==> final(self)@.finished,
            final(self)@.well_formed(),
    {
        proof {
            use_type_invariant(&*self);
        }
        if self.finished {
            return Flow::Stop;
        }
        match outcome {
            ReadOutcome::Bytes(n) => {
                if n == 0 {
                    self.close(stats_tx, write_tx);
                    Flow::Stop
                } else {
                    let chunk = copy_prefix(buffer, n);
                    let _ = offer(stats_tx, n);
                    let ghost sent = chunk@;
                    let delivered = offer(write_tx, chunk);
                    proof {
                        use_type_invariant(&*self);
                    }
                    *self = Reader {
                        finished: false,
                        counts: Ghost(self.counts@.push(n)),
                        chunks: Ghost(self.chunks@.push(sent)),
                    };
                    self.settle(delivered, stats_tx, write_tx)
                }
            },
            ReadOutcome::Fault => {
                self.close(stats_tx, write_tx);
                Flow::Stop
            },
        }
    }

    /// Decides how the stage goes on after a chunk was offered: it goes on
    /// where the data channel took the chunk, and closes both channels and
    /// stops where it did not.
    pub fn settle(
        &mut self,
        delivered: bool,
        stats_tx: &Sender<usize>,
        write_tx: &Sender<Vec<u8>>,
    ) -> (flow: Flow)
        ensures
            delivered && !old(self)@.finished ==> flow == Flow::Continue && final(self)@ == old(
                self,
            )@,
            !(delivered && !old(self)@.finished) ==> flow == Flow::Stop && final(self)@ == old(
                self,
            )@.closed(),
            final(self)@.well_formed(),
    {
        proof {
            use_type_invariant(&*self);
        }
        if delivered && !self.finished {
            Flow::Continue
        } else {
            self.close(stats_tx, write_tx);
            Flow::Stop
        }
    }

    /// Closes a running stage: offers the count zero and then the empty chunk
    /// to the channels, whether or not they are taken. A finished stage
    /// offers nothing.
    pub fn close(&mut self, stats_tx: &Sender<usize>, write_tx: &Sender<Vec<u8>>)
        ensures
            final(self)@ == old(self)@.closed(),
            final(self)@.finished,
            final(self)@.well_formed(),
    {
        proof {
            use_type_invariant(&*self);
        }
        if !self.finished {
            let _ = offer(stats_tx, 0);
            let _ = offer(write_tx, Vec::new());
            proof {
                use_type_invariant(&*self);
            }
            *self = Reader {
                finished: true,
                counts: Ghost(self.counts@.push(0)),
                chunks: Ghost(self.chunks@.push(Seq::empty())),
            };
        }
    }
}

} // verus!
