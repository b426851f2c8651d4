//! The sample queue between the orchestrator, which records at the pace of
//! the simulation, and the audio sink, which consumes at a fixed rate; and
//! the decision by which the sampling cadence is retuned.
//!
//! A sample is carried as the bit pattern of a 32-bit float, so silence is
//! zero.
use vstd::prelude::*;
use std::collections::VecDeque;
use crate::SAMPLE_RATE;

verus! {

/// The queue length past which a second record in a row counts as the
/// producer outrunning the consumer: one video frame's worth of samples.
pub const FRAME_SAMPLES: u32 = SAMPLE_RATE / 60;

/// Something that hands out one sample at a time.
pub trait APUChannel {
    fn get_output(&mut self) -> u32;
}

/// A channel that is driven by the chip's clock.
pub trait TimedAPUChannel: APUChannel {
    fn timer_clock(&mut self);
}

/// How the cadence offset moves at a controller tick.
#[derive(Clone, Copy, Debug, PartialEq, Eq, Structural)]
pub enum CadenceAdjustment {
    /// The consumer found the queue empty: sample more often.
    Raise,
    /// The producer outran the consumer: sample less often.
    Lower,
    Hold,
}

impl CadenceAdjustment {
    /// The adjustment that the two health flags call for; an empty queue
    /// outweighs a growing one.
    pub open spec fn of(overusing: bool, underusing: bool) -> Self {
        if overusing {
            CadenceAdjustment::Raise
        } else if underusing {
            CadenceAdjustment::Lower
        } else {
            CadenceAdjustment::Hold
        }
    }

    /// The change of the offset in ten-thousandths: a raise is five times a
    /// lowering, so the queue rather grows than runs dry.
    pub open spec fn spec_ten_thousandths(self) -> int {
        match self {
            CadenceAdjustment::Raise => 10,
            CadenceAdjustment::Lower => -2,
            CadenceAdjustment::Hold => 0,
        }
    }

    pub fn ten_thousandths(self) -> (steps: i32)
        ensures
            steps == self.spec_ten_thousandths(),
    {
        match self {
            CadenceAdjustment::Raise => 10,
            CadenceAdjustment::Lower => -2,
            CadenceAdjustment::Hold => 0,
        }
    }
}

/// What a `BufferedChannel` holds.
pub struct BufferState {
    pub queue: Seq<u32>,
    pub last_sample: u32,
    pub overusing: bool,
    pub underusing: bool,
    pub recent_record: bool,
    pub recent_output: bool,
}

impl BufferState {
    /// The two health flags are never raised together.
    pub open spec fn wf(self) -> bool {
        !(self.overusing && self.underusing)
    }

    pub open spec fn empty() -> Self {
        BufferState {
            queue: Seq::empty(),
            last_sample: 0,
            overusing: false,
            underusing: false,
            recent_record: false,
            recent_output: false,
        }
    }

    /// After a record of `sample`: it joins the back of the queue. The
    /// producer is marked as outrunning the consumer when the record before
    /// this one left its latch set, the queue is now longer than a frame's
    /// worth, and the consumer has not been found starved. The record latch
    /// then takes over the output latch, which is cleared.
    pub open spec fn recorded(self, sample: u32) -> Self {
        BufferState {
            queue: self.queue.push(sample),
            last_sample: self.last_sample,
            overusing: self.overusing,
            underusing: self.underusing || (self.recent_record && self.queue.len() + 1
                > FRAME_SAMPLES && !self.overusing),
            recent_record: self.recent_output,
            recent_output: false,
        }
    }

    /// The sample that the next output hands out: the front of the queue,
    /// or the sample held last where the queue is empty.
    pub open spec fn output(self) -> u32 {
        if self.queue.len() == 0 {
            self.last_sample
        } else {
            self.queue[0]
        }
    }

    /// After an output: the output latch is set. An empty queue marks the
    /// consumer as starved and takes the other mark back; otherwise the
    /// front leaves the queue, and is held as the last sample if it was the
    /// only one.
    pub open spec fn consumed(self) -> Self {
        if self.queue.len() == 0 {
            BufferState { overusing: true, underusing: false, recent_output: true, ..self }
        } else {
            BufferState {
                queue: self.queue.subrange(1, self.queue.len() as int),
                last_sample: if self.queue.len() == 1 {
                    self.queue[0]
                } else {
                    self.last_sample
                },
                recent_output: true,
                ..self
            }
        }
    }

    /// With both health flags cleared.
    pub open spec fn cleared(self) -> Self {
        BufferState { overusing: false, underusing: false, ..self }
    }

    /// With the queue emptied.
    pub open spec fn drained(self) -> Self {
        BufferState { queue: Seq::empty(), ..self }
    }
}

/// A saved `BufferedChannel`, with the queue oldest first.
pub struct BufferSnapshot {
    pub queue: Vec<u32>,
    pub last_sample: u32,
    pub overusing: bool,
    pub underusing: bool,
    pub recent_record: bool,
    pub recent_output: bool,
}

impl View for BufferSnapshot {
    type V = BufferState;

    open spec fn view(&self) -> BufferState {
        BufferState {
            queue: self.queue@,
            last_sample: self.last_sample,
            overusing: self.overusing,
            underusing: self.underusing,
            recent_record: self.recent_record,
            recent_output: self.recent_output,
        }
    }
}

pub struct BufferedChannel {
    buffer: VecDeque<u32>,
    overusing: bool,
    underusing: bool,
    last: u32,
    recent_record: bool,
    recent_output: bool,
}

impl View for BufferedChannel {
    type V = BufferState;

    closed spec fn view(&self) -> BufferState {
        BufferState {
            queue: self.buffer@,
            last_sample: self.last,
            overusing: self.overusing,
            underusing: self.underusing,
            recent_record: self.recent_record,
            recent_output: self.recent_output,
        }
    }
}

impl BufferedChannel {
    pub fn new() -> (channel: Self)
        ensures
            channel@ == BufferState::empty(),
            channel@.wf(),
    {
        BufferedChannel {
            buffer: VecDeque::new(),
            overusing: false,
            underusing: false,
            last: 0,
            recent_record: false,
            recent_output: false,
        }
    }

    pub fn get_is_overusing(&self) -> (overusing: bool)
        ensures
            overusing == self@.overusing,
    {
        self.overusing
    }

    pub fn get_is_underusing(&self) -> (underusing: bool)
        ensures
            underusing == self@.underusing,
    {
        self.underusing
    }

    pub fn clear_using_flags(&mut self)
        ensures
            final(self)@ == old(self)@.cleared(),
            final(self)@.wf(),
    {
        self.overusing = false;
        self.underusing = false;
    }

    /// The controller's tick: says how the cadence offset is to move and
    /// clears both health flags.
    pub fn controller_tick(&mut self) -> (adjustment: CadenceAdjustment)
        ensures
            adjustment == CadenceAdjustment::of(old(self)@.overusing, old(self)@.underusing),
            final(self)@ == old(self)@.cleared(),
            final(self)@.wf(),
    {
        let adjustment: CadenceAdjustment = if self.get_is_overusing() {
            CadenceAdjustment::Raise
        } else if self.get_is_underusing() {
            CadenceAdjustment::Lower
        } else {
            CadenceAdjustment::Hold
        };
        self.clear_using_flags();
        adjustment
    }

    /// The number of samples that wait in the queue.
    pub fn len(&self) -> (n: usize)
        ensures
            n == self@.queue.len(),
    {
        self.buffer.len()
    }

    pub fn recored_sample(&mut self, sample: u32)
        ensures
            final(self)@ == old(self)@.recorded(sample),
            old(self)@.wf() ==> final(self)@.wf(),
    {
        self.buffer.push_back(sample);
        if self.recent_record {
            if self.buffer.len() > (FRAME_SAMPLES as usize) && !self.overusing {
                self.underusing = true;
            }
            self.recent_record = false;
        }
        if self.recent_output {
            self.recent_output = false;
            self.recent_record = true;
        }
    }

    /// A copy of everything the channel holds, for a saved state.
    pub fn snapshot(&self) -> (saved: BufferSnapshot)
        ensures
            saved@ == self@,
    {
        let mut queue: Vec<u32> = Vec::new();
        let mut i: usize = 0;
        while i < self.buffer.len()
            invariant
                i <= self.buffer@.len(),
                queue@ == self.buffer@.subrange(0, i as int),
            decreases self.buffer@.len() - i,
        {
            queue.push(self.buffer[i]);
            i = i + 1;
            assert(queue@ =~= self.buffer@.subrange(0, i as int));
        }
        assert(queue@ =~= self.buffer@);
        BufferSnapshot {
            queue,
            last_sample: self.last,
            overusing: self.overusing,
            underusing: self.underusing,
            recent_record: self.recent_record,
            recent_output: self.recent_output,
        }
    }

    /// The channel that `saved` was taken from.
    pub fn restore(saved: &BufferSnapshot) -> (channel: Self)
        ensures
            channel@ == saved@,
    {
        let mut buffer: VecDeque<u32> = VecDeque::new();
        let mut i: usize = 0;
        while i < saved.queue.len()
            invariant
                i <= saved.queue@.len(),
                buffer@ == saved.queue@.subrange(0, i as int),
            decreases saved.queue@.len() - i,
        {
            buffer.push_back(saved.queue[i]);
            i = i + 1;
            assert(buffer@ =~= saved.queue@.subrange(0, i as int));
        }
        assert(buffer@ =~= saved.queue@);
        BufferedChannel {
            buffer,
            overusing: saved.overusing,
            underusing: saved.underusing,
            last: saved.last_sample,
            recent_record: saved.recent_record,
            recent_output: saved.recent_output,
        }
    }

    /// Hands out every waiting sample, oldest first, and leaves the queue
    /// empty; the flags and the sample held last stay.
    pub fn take_buffer(&mut self) -> (samples: Vec<u32>)
        ensures
            samples@ == old(self)@.queue,
            final(self)@ == old(self)@.drained(),
            old(self)@.wf() ==> final(self)@.wf(),
    {
        let mut samples: Vec<u32> = Vec::new();
        while self.buffer.len() > 0
            invariant
                samples@ + self.buffer@ == old(self).buffer@,
                self.overusing == old(self).overusing,
                self.underusing == old(self).underusing,
                self.last == old(self).last,
                self.recent_record == old(self).recent_record,
                self.recent_output == old(self).recent_output,
            decreases self.buffer.len(),
        {
            let ghost before = self.buffer@;
            let front: Option<u32> = self.buffer.pop_front();
            match front {
                Some(sample) => {
                    samples.push(sample);
                    assert(samples@ + self.buffer@ =~= old(self).buffer@) by {
                        assert(before =~= seq![before[0]] + before.subrange(1, before.len() as int));
                    }
                },
                None => {},
            }
        }
        assert(samples@ =~= old(self).buffer@);
        assert(self.buffer@ =~= Seq::empty());
        samples
    }
}

impl APUChannel for BufferedChannel {
    /// Hands out the next sample. An empty queue repeats the sample held
    /// last and marks the consumer as starved.
    fn get_output(&mut self) -> (sample: u32)
        ensures
            sample == old(self)@.output(),
            final(self)@ == old(self)@.consumed(),
            old(self)@.wf() ==> final(self)@.wf(),
    {
        self.recent_output = true;
        if self.buffer.len() == 0 {
            self.overusing = true;
            self.underusing = false;
            self.last
        } else if self.buffer.len() == 1 {
            let front: Option<u32> = self.buffer.pop_front();
            match front {
                Some(sample) => {
                    self.last = sample;
                },
                None => {},
            }
            self.last
        } else {
            let front: Option<u32> = self.buffer.pop_front();
            match front {
                Some(sample) => sample,
                None => self.last,
            }
        }
    }
}

/// On an empty queue an output repeats the sample held last and marks the
/// consumer as starved. After a record of `x` on an empty queue the first
/// output is `x`, and the second is `x` again, with the consumer marked.
pub proof fn lemma_output_falls_back_to_last(b: BufferState, x: u32)
    requires
        b.queue.len() == 0,
    ensures
        b.output() == b.last_sample,
        b.consumed().overusing,
        !b.consumed().underusing,
        b.consumed().last_sample == b.last_sample,
        b.recorded(x).output() == x,
        b.recorded(x).consumed().output() == x,
        b.recorded(x).consumed().overusing == b.overusing,
        b.recorded(x).consumed().consumed().overusing,
        b.recorded(x).consumed().consumed().queue.len() == 0,
{
}

/// A second record in a row after an output, on a queue that it takes past
/// a frame's worth, marks the producer as outrunning the consumer unless the
/// consumer is marked as starved; the controller's tick then lowers the
/// offset, by two ten-thousandths, and leaves both flags clear.
pub proof fn lemma_outrunning_producer_lowers_offset(b: BufferState, x: u32, y: u32)
    requires
        b.recent_output,
        !b.overusing,
        b.queue.len() + 2 > FRAME_SAMPLES,
    ensures
        b.recorded(x).recorded(y).underusing,
        !b.recorded(x).recorded(y).overusing,
        CadenceAdjustment::of(
            b.recorded(x).recorded(y).overusing,
            b.recorded(x).recorded(y).underusing,
        ) == CadenceAdjustment::Lower,
        CadenceAdjustment::Lower.spec_ten_thousandths() == -2,
        !b.recorded(x).recorded(y).cleared().overusing,
        !b.recorded(x).recorded(y).cleared().underusing,
{
}

/// Recording and consuming never clear the mark of a starved consumer, and
/// neither raises one health flag beside the other.
pub proof fn lemma_flags_stay_exclusive(b: BufferState, x: u32)
    requires
        b.wf(),
    ensures
        b.recorded(x).wf(),
        b.consumed().wf(),
        b.cleared().wf(),
        b.overusing ==> b.recorded(x).overusing && b.consumed().overusing,
{
}

} // verus!
