//! The writing stage: what becomes of each chunk that arrives.
//!
//! The stage takes chunks from the data channel one by one and hands each on
//! to the caller, who writes it to the destination and reports how the write
//! ended. The empty chunk is the sentinel that ends the stage. A destination
//! whose reader has gone away ends it too, without fault; any other failed
//! write is fatal.

use vstd::prelude::*;
use crossbeam::channel::Receiver;
use crate::channel::take;
use crate::flow::Flow;

verus! {

/// Why a write to the destination failed.
#[derive(Clone, Copy, Debug, PartialEq, Eq, Structural)]
pub enum WriteFault {
    /// Whoever read the destination has gone away.
    BrokenPipe,
    /// Anything else.
    Other,
}

/// Why the stage failed.
#[derive(Clone, Copy, Debug, PartialEq, Eq, Structural)]
pub enum WriterError {
    /// The data channel was closed before the sentinel arrived.
    ChannelClosed,
    /// A write to the destination failed, and not because its reader had
    /// gone away.
    WriteFailed,
}

/// What the caller is to do after the stage has taken a message.
#[derive(Debug, PartialEq, Eq)]
pub enum WriterStep {
    /// Write all of this chunk to the destination, then report how the write
    /// ended.
    Write(Vec<u8>),
    /// The stage has ended; nothing more is to be written.
    Stop,
}

/// A [`WriterStep`] with the chunk as a sequence of bytes.
pub enum WriterTask {
    Write(Seq<u8>),
    Stop,
}

impl View for WriterStep {
    type V = WriterTask;

    open spec fn view(&self) -> WriterTask {
        match self {
            WriterStep::Write(chunk) => WriterTask::Write(chunk@),
            WriterStep::Stop => WriterTask::Stop,
        }
    }
}

/// What arrived from the data channel, as a sequence of bytes: a chunk, or
/// nothing where the channel is closed.
pub open spec fn arrival(message: Option<Vec<u8>>) -> Option<Seq<u8>> {
    match message {
        Some(chunk) => Some(chunk@),
        None => None,
    }
}

/// The answer of the stage to a message, with the chunk as a sequence of
/// bytes.
pub open spec fn task_of(step: Result<WriterStep, WriterError>) -> Result<WriterTask, WriterError> {
    match step {
        Ok(step) => Ok(step@),
        Err(e) => Err(e),
    }
}

/// What the writing stage has done so far.
pub struct WriterView {
    /// Whether the stage has ended.
    pub finished: bool,
    /// All bytes handed on for writing, in order.
    pub handed: Seq<u8>,
}

impl WriterView {
    /// The stage at its start: nothing handed on yet.
    pub open spec fn fresh() -> WriterView {
        WriterView { finished: false, handed: Seq::empty() }
    }

    /// The stage after `message` has arrived. A chunk with bytes in it is
    /// handed on, the empty chunk ends the stage, and a closed channel or
    /// a message for a stage that has ended changes nothing.
    pub open spec fn accepted(self, message: Option<Seq<u8>>) -> WriterView {
        if self.finished {
            self
        } else {
            match message {
                None => self,
                Some(chunk) => if chunk.len() == 0 {
                    WriterView { finished: true, ..self }
                } else {
                    WriterView { handed: self.handed + chunk, ..self }
                },
            }
        }
    }

    /// What the stage asks of the caller when `message` arrives.
    pub open spec fn task(self, message: Option<Seq<u8>>) -> Result<WriterTask, WriterError> {
        if self.finished {
            Ok(WriterTask::Stop)
        } else {
            match message {
                None => Err(WriterError::ChannelClosed),
                Some(chunk) => if chunk.len() == 0 {
                    Ok(WriterTask::Stop)
                } else {
                    Ok(WriterTask::Write(chunk))
                },
            }
        }
    }

    /// The stage after every message of `messages` has arrived in order.
    pub open spec fn taken(self, messages: Seq<Seq<u8>>) -> WriterView
        decreases messages.len(),
    {
        if messages.len() == 0 {
            self
        } else {
            self.taken(messages.drop_last()).accepted(Some(messages.last()))
        }
    }

    /// The stage after a write has ended with `outcome`: a failed write ends
    /// the stage.
    pub open spec fn settled(self, outcome: Result<(), WriteFault>) -> WriterView {
        match outcome {
            Ok(_) => self,
            Err(_) => WriterView { finished: true, ..self },
        }
    }
}

/// How the stage goes on after a write has ended with `outcome`: on after a
/// good write, to a clean end where the reader of the destination has gone
/// away, and to a failure after any other fault.
pub open spec fn verdict(outcome: Result<(), WriteFault>) -> Result<Flow, WriterError> {
    match outcome {
        Ok(_) => Ok(Flow::Continue),
        Err(WriteFault::BrokenPipe) => Ok(Flow::Stop),
        Err(WriteFault::Other) => Err(WriterError::WriteFailed),
    }
}

/// The writing stage.
pub struct Writer {
    finished: bool,
    handed: Ghost<Seq<u8>>,
}

impl View for Writer {
    type V = WriterView;

    closed spec fn view(&self) -> WriterView {
        WriterView { finished: self.finished, handed: self.handed@ }
    }
}

impl Writer {
    /// A stage that has handed on nothing yet.
    pub fn new() -> (writer: Writer)
        ensures
            writer@ == WriterView::fresh(),
    {
        Writer { finished: false, handed: Ghost(Seq::empty()) }
    }

    /// Whether the stage has ended.
    pub fn is_finished(&self) -> (finished: bool)
        ensures
            finished == self@.finished,
    {
        self.finished
    }

    /// Takes the next message from the channel and does with it as
    /// [`Writer::accept`] does. A stage that has ended leaves the channel
    /// alone.
    pub fn receive(&mut self, rx: &Receiver<Vec<u8>>) -> (step: Result<WriterStep, WriterError>)
        ensures
            old(self)@.finished ==> final(self)@ == old(self)@ && task_of(step) == Ok::<
                WriterTask,
                WriterError,
            >(WriterTask::Stop),
            exists|message: Option<Seq<u8>>|
                {
                    &&& final(self)@ == old(self)@.accepted(message)
                    &&& task_of(step) == old(self)@.task(message)
                },
    {
        if self.finished {
            assert(self@ == self@.accepted(None));
            assert(self@.task(None) == Ok::<WriterTask, WriterError>(WriterTask::Stop));
            return Ok(WriterStep::Stop);
        }
        let message = take(rx);
        let ghost arrived = arrival(message);
        let step = self.accept(message);
        assert(self@ == old(self)@.accepted(arrived));
        assert(task_of(step) == old(self)@.task(arrived));
        step
    }

    /// Deals with one message from the data channel. A chunk with bytes in
    /// it is handed on for writing. The empty chunk ends the stage. A closed
    /// channel is an error and changes nothing. A stage that has ended hands
    /// on nothing more.
    pub fn accept(&mut self, message: Option<Vec<u8>>) -> (step: Result<WriterStep, WriterError>)
        ensures
            final(self)@ == old(self)@.accepted(arrival(message)),
            task_of(step) == old(self)@.task(arrival(message)),
    {
        if self.finished {
            return Ok(WriterStep::Stop);
        }
        match message {
            None => Err(WriterError::ChannelClosed),
            Some(chunk) => {
                if chunk.len() == 0 {
                    self.finished = true;
                    Ok(WriterStep::Stop)
                } else {
                    self.handed = Ghost(self.handed@ + chunk@);
                    Ok(WriterStep::Write(chunk))
                }
            },
        }
    }

    /// Takes note of how a write ended. After a good write the stage goes
    /// on. A destination whose reader has gone away ends the stage without
    /// fault. Any other fault ends it with an error.
    pub fn settle(&mut self, outcome: Result<(), WriteFault>) -> (next: Result<Flow, WriterError>)
        ensures
            final(self)@ == old(self)@.settled(outcome),
            next == verdict(outcome),
    {
        match outcome {
            Ok(()) => Ok(Flow::Continue),
            Err(WriteFault::BrokenPipe) => {
                self.finished = true;
                Ok(Flow::Stop)
            },
            Err(WriteFault::Other) => {
                self.finished = true;
                Err(WriterError::WriteFailed)
            },
        }
    }
}

/// A destination whose reader has gone away ends the stage cleanly: the
/// stage stops without an error, keeps what it has handed on until then, and
/// hands on nothing that arrives later.
pub proof fn lemma_broken_pipe_is_clean_end(writer: WriterView, later: Option<Seq<u8>>)
    ensures
        verdict(Err(WriteFault::BrokenPipe)) == Ok::<Flow, WriterError>(Flow::Stop),
        writer.settled(Err(WriteFault::BrokenPipe)).finished,
        writer.settled(Err(WriteFault::BrokenPipe)).handed == writer.handed,
        writer.settled(Err(WriteFault::BrokenPipe)).accepted(later) == writer.settled(
            Err(WriteFault::BrokenPipe),
        ),
        writer.settled(Err(WriteFault::BrokenPipe)).task(later) == Ok::<WriterTask, WriterError>(
            WriterTask::Stop,
        ),
{
}

} // verus!
