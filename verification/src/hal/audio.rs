//! Audio streamer driver.
//!
//! The audio streamer peripheral owns a hardware FIFO that drains samples
//! to the DAC autonomously at the playback rate.  This module wraps it in
//! a typestate driver: there is at most one live handle, writes are only
//! possible in the `Initialized` state, and the backpressure-aware burst
//! write never puts more samples into the FIFO than the room the hardware
//! has vouched for.
//!
//! The FIFO itself is carried as explicit model state ([`AudioQueue`]):
//! the queue depth, the control word, and the log of every sample the
//! hardware has accepted since it was last configured.  The autonomous
//! drain of a real board is modelled by [`AudioQueue::drain`], which the
//! driver never calls on its own: from the driver's point of view the
//! reported room is only ever a safe lower bound.

use vstd::prelude::*;

verus! {

use crate::hal::dac::AudioDac;
use crate::hal::typesafe::Sealed;
use crate::pac::audio_control;

/// Queue depth of the hardware FIFO in mono samples.
pub const MONO_QUEUE_CAPACITY: usize = 1024;

/// Queue depth of the hardware FIFO in stereo sample pairs.
pub const STEREO_QUEUE_CAPACITY: usize = 512;

/// How many samples a burst may write on the strength of an `Empty`
/// status alone.  An `Empty` read carries no precise headroom figure, so
/// this hardware-conservative default is used instead; it is a protocol
/// constant, not a tuning knob.
pub const EMPTY_BURST: usize = 32;

/// Marker trait for the audio streamer lifecycle states.
pub trait AudioStreamerState: Sealed {}

/// Lifecycle state: the peripheral is not enabled and cannot be written.
pub struct Uninitialized;

/// Lifecycle state: the peripheral is enabled and accepts samples.  In
/// mono mode every write is stamped with the wrapping write id kept here.
pub struct Initialized {
    wid: u8,
}

impl Sealed for Uninitialized {}

impl Sealed for Initialized {}

impl AudioStreamerState for Uninitialized {}

impl AudioStreamerState for Initialized {}

/// Marker trait for the audio modes.
pub trait AudioMode: Sealed {}

/// Two independent 8-bit channel samples per write.
pub struct Stereo;

/// One 8-bit sample per write, stamped with a sequence id.
pub struct Mono;

impl Sealed for Stereo {}

impl Sealed for Mono {}

impl AudioMode for Stereo {}

impl AudioMode for Mono {}

/// Answer of a fill-level query on the hardware queue.
///
/// `Available(n)` is a conservative lower bound on how many samples can
/// be written without risk of overflow, never an exact figure: the queue
/// drains concurrently with the read, so the true room may be larger.
pub enum AudioBufferStatus {
    /// The queue holds no pending samples.
    Empty,
    /// At least `n` samples may be written safely; the true room may be
    /// larger.
    Available(usize),
    /// No safe write is currently guaranteed.
    Full,
}

/// Model of the hardware sample queue.
///
/// `control` holds the writable control-register fields (bit 0 enable,
/// bit 1 mode).  Any control write reconfigures the peripheral and
/// flushes the FIFO, so `pending` and the acceptance logs always describe
/// the current configuration session.
pub struct AudioQueue {
    control: u8,
    pending: usize,
    mono: Vec<u8>,
    wids: Vec<u8>,
    stereo: Vec<(u8, u8)>,
}

impl AudioQueue {
    /// The writable control-register fields.
    pub closed spec fn spec_control(&self) -> u8 {
        self.control
    }

    /// Samples queued and not yet drained to the DAC.
    pub closed spec fn spec_pending(&self) -> int {
        self.pending as int
    }

    /// Every mono sample accepted since the last control write, in order.
    pub closed spec fn spec_mono(&self) -> Seq<u8> {
        self.mono@
    }

    /// The write id stamped on each accepted mono sample.
    pub closed spec fn spec_wids(&self) -> Seq<u8> {
        self.wids@
    }

    /// Every stereo pair accepted since the last control write, in order.
    pub closed spec fn spec_stereo(&self) -> Seq<(u8, u8)> {
        self.stereo@
    }

    /// Whether the queue is configured for stereo mode.
    pub open spec fn spec_stereo_mode(&self) -> bool {
        (self.spec_control() >> 1) & 1 != 0
    }

    /// Queue depth in the current mode.
    pub open spec fn spec_capacity(&self) -> int {
        if self.spec_stereo_mode() {
            STEREO_QUEUE_CAPACITY as int
        } else {
            MONO_QUEUE_CAPACITY as int
        }
    }

    /// The fill level never exceeds the capacity of the current mode.
    pub open spec fn wf(&self) -> bool {
        0 <= self.spec_pending() <= self.spec_capacity()
    }

    /// A queue in its reset state: disabled, empty, nothing accepted.
    pub fn new() -> (q: AudioQueue)
        ensures
            q.wf(),
            q.spec_control() == 0,
            q.spec_pending() == 0,
            q.spec_mono() == Seq::<u8>::empty(),
            q.spec_wids() == Seq::<u8>::empty(),
            q.spec_stereo() == Seq::<(u8, u8)>::empty(),
    {
        AudioQueue {
            control: 0,
            pending: 0,
            mono: Vec::new(),
            wids: Vec::new(),
            stereo: Vec::new(),
        }
    }

    /// Write the control register.  Reconfiguring the peripheral flushes
    /// the FIFO, so the fill level and the acceptance logs restart.
    pub fn write_control(&mut self, w: audio_control::W)
        ensures
            final(self).wf(),
            final(self).spec_control() == w.spec_bits() & 3,
            final(self).spec_pending() == 0,
            final(self).spec_mono() == Seq::<u8>::empty(),
            final(self).spec_wids() == Seq::<u8>::empty(),
            final(self).spec_stereo() == Seq::<(u8, u8)>::empty(),
    {
        self.control = w.bits() & 3;
        self.pending = 0;
        self.mono = Vec::new();
        self.wids = Vec::new();
        self.stereo = Vec::new();
    }

    /// The status word as the control register reads it: the writable
    /// fields plus the queue flags derived from the fill level.
    pub open spec fn spec_status_word(&self) -> u8 {
        let free = self.spec_capacity() - self.spec_pending();
        let empty_bit: u8 = if self.spec_pending() == 0 { 0x20 } else { 0 };
        let full_bit: u8 = if self.spec_stereo_mode() {
            if free < 32 { 0x04 } else { 0 }
        } else {
            if free == 0 { 0x04 } else { 0 }
        };
        let almost_full_bit: u8 = if free < 32 { 0x08 } else { 0 };
        let almost_empty_bit: u8 = if self.spec_pending() < 32 { 0x10 } else { 0 };
        ((self.spec_control() & 3) | empty_bit | full_bit | almost_full_bit | almost_empty_bit) as u8
    }

    /// Read the control register.  This is a pure read: the queue flags
    /// are a snapshot that the autonomous drain may already have
    /// overtaken, which is why they may only ever be read as lower
    /// bounds on the available room.
    pub fn read_control(&self) -> (r: audio_control::R)
        requires
            self.wf(),
        ensures
            r.spec_bits() == self.spec_status_word(),
            ((r.spec_bits() >> 5) & 1 != 0) == (self.spec_pending() == 0),
            ((r.spec_bits() >> 2) & 1 != 0) == if self.spec_stereo_mode() {
                self.spec_capacity() - self.spec_pending() < 32
            } else {
                self.spec_capacity() - self.spec_pending() == 0
            },
            ((r.spec_bits() >> 3) & 1 != 0) == (self.spec_capacity() - self.spec_pending() < 32),
            ((r.spec_bits() >> 4) & 1 != 0) == (self.spec_pending() < 32),
    {
        let stereo_mode: bool = (self.control >> 1) & 1 != 0;
        let capacity: usize = if stereo_mode {
            STEREO_QUEUE_CAPACITY
        } else {
            MONO_QUEUE_CAPACITY
        };
        let free: usize = capacity - self.pending;
        let empty_bit: u8 = if self.pending == 0 { 0x20 } else { 0 };
        let full_bit: u8 = if stereo_mode {
            if free < 32 { 0x04 } else { 0 }
        } else {
            if free == 0 { 0x04 } else { 0 }
        };
        let almost_full_bit: u8 = if free < 32 { 0x08 } else { 0 };
        let almost_empty_bit: u8 = if self.pending < 32 { 0x10 } else { 0 };
        let control_word: u8 = self.control;
        let low: u8 = control_word & 3;
        let bits: u8 = low | empty_bit | full_bit | almost_full_bit | almost_empty_bit;
        proof {
            assert(control_word & 3 < 4) by (bit_vector);
            assert(((low | empty_bit | full_bit | almost_full_bit | almost_empty_bit) >> 5) & 1
                == if empty_bit == 0x20 { 1u8 } else { 0u8 }) by (bit_vector)
                requires
                    low < 4,
                    empty_bit == 0 || empty_bit == 0x20,
                    full_bit == 0 || full_bit == 0x04,
                    almost_full_bit == 0 || almost_full_bit == 0x08,
                    almost_empty_bit == 0 || almost_empty_bit == 0x10,
            ;
            assert(((low | empty_bit | full_bit | almost_full_bit | almost_empty_bit) >> 2) & 1
                == if full_bit == 0x04 { 1u8 } else { 0u8 }) by (bit_vector)
                requires
                    low < 4,
                    empty_bit == 0 || empty_bit == 0x20,
                    full_bit == 0 || full_bit == 0x04,
                    almost_full_bit == 0 || almost_full_bit == 0x08,
                    almost_empty_bit == 0 || almost_empty_bit == 0x10,
            ;
            assert(((low | empty_bit | full_bit | almost_full_bit | almost_empty_bit) >> 3) & 1
                == if almost_full_bit == 0x08 { 1u8 } else { 0u8 }) by (bit_vector)
                requires
                    low < 4,
                    empty_bit == 0 || empty_bit == 0x20,
                    full_bit == 0 || full_bit == 0x04,
                    almost_full_bit == 0 || almost_full_bit == 0x08,
                    almost_empty_bit == 0 || almost_empty_bit == 0x10,
            ;
            assert(((low | empty_bit | full_bit | almost_full_bit | almost_empty_bit) >> 4) & 1
                == if almost_empty_bit == 0x10 { 1u8 } else { 0u8 }) by (bit_vector)
                requires
                    low < 4,
                    empty_bit == 0 || empty_bit == 0x20,
                    full_bit == 0 || full_bit == 0x04,
                    almost_full_bit == 0 || almost_full_bit == 0x08,
                    almost_empty_bit == 0 || almost_empty_bit == 0x10,
            ;
        }
        audio_control::R::new(bits)
    }

    /// The hardware accepts one mono sample.  Room in the queue is the
    /// caller's responsibility.
    pub fn push_mono(&mut self, sample: u8, wid: u8)
        requires
            old(self).wf(),
            !old(self).spec_stereo_mode(),
            old(self).spec_pending() < MONO_QUEUE_CAPACITY as int,
        ensures
            final(self).wf(),
            final(self).spec_control() == old(self).spec_control(),
            final(self).spec_pending() == old(self).spec_pending() + 1,
            final(self).spec_mono() == old(self).spec_mono().push(sample),
            final(self).spec_wids() == old(self).spec_wids().push(wid),
            final(self).spec_stereo() == old(self).spec_stereo(),
    {
        self.pending = self.pending + 1;
        self.mono.push(sample);
        self.wids.push(wid);
    }

    /// The hardware accepts one stereo pair.  Room in the queue is the
    /// caller's responsibility.
    pub fn push_stereo(&mut self, left: u8, right: u8)
        requires
            old(self).wf(),
            old(self).spec_stereo_mode(),
            old(self).spec_pending() < STEREO_QUEUE_CAPACITY as int,
        ensures
            final(self).wf(),
            final(self).spec_control() == old(self).spec_control(),
            final(self).spec_pending() == old(self).spec_pending() + 1,
            final(self).spec_stereo() == old(self).spec_stereo().push((left, right)),
            final(self).spec_mono() == old(self).spec_mono(),
            final(self).spec_wids() == old(self).spec_wids(),
    {
        self.pending = self.pending + 1;
        self.stereo.push((left, right));
    }

    /// The autonomous drain: the DAC side consumes up to `k` queued
    /// samples.  What was accepted stays accepted — draining touches the
    /// fill level only.
    pub fn drain(&mut self, k: usize)
        requires
            old(self).wf(),
        ensures
            final(self).wf(),
            final(self).spec_control() == old(self).spec_control(),
            final(self).spec_pending() == if k as int <= old(self).spec_pending() {
                old(self).spec_pending() - k as int
            } else {
                0
            },
            final(self).spec_mono() == old(self).spec_mono(),
            final(self).spec_wids() == old(self).spec_wids(),
            final(self).spec_stereo() == old(self).spec_stereo(),
    {
        if k <= self.pending {
            self.pending = self.pending - k;
        } else {
            self.pending = 0;
        }
    }

    /// The writable control-register fields as last written.
    pub fn control_word(&self) -> (c: u8)
        ensures
            c == self.spec_control(),
    {
        self.control
    }

    /// Current fill level of the queue.
    pub fn pending(&self) -> (p: usize)
        ensures
            p as int == self.spec_pending(),
    {
        self.pending
    }

    /// The mono samples accepted since the last control write.
    pub fn mono_samples(&self) -> (v: &Vec<u8>)
        ensures
            v@ == self.spec_mono(),
    {
        &self.mono
    }

    /// The write ids stamped on the accepted mono samples.
    pub fn wid_log(&self) -> (v: &Vec<u8>)
        ensures
            v@ == self.spec_wids(),
    {
        &self.wids
    }

    /// The stereo pairs accepted since the last control write.
    pub fn stereo_samples(&self) -> (v: &Vec<(u8, u8)>)
        ensures
            v@ == self.spec_stereo(),
    {
        &self.stereo
    }
}

/// Exclusive handle on the audio streamer peripheral.
///
/// It captures the DAC peripheral, so at most one streamer can drive the
/// audio output path, and the type parameters pin down the configured
/// mode and lifecycle state.
pub struct AudioStreamer<Mode: AudioMode, State: AudioStreamerState> {
    dac: AudioDac,
    mode: Mode,
    state: State,
    queue: AudioQueue,
}

impl<Mode: AudioMode, State: AudioStreamerState> AudioStreamer<Mode, State> {
    /// The hardware queue behind this handle.
    pub closed spec fn spec_queue(&self) -> AudioQueue {
        self.queue
    }

    /// The DAC peripheral captured by this handle.
    pub closed spec fn spec_dac(&self) -> AudioDac {
        self.dac
    }

    /// The lifecycle state value held by this handle.
    pub closed spec fn spec_state(&self) -> State {
        self.state
    }

    /// Inspect the hardware queue model.
    pub fn hw_queue(&self) -> (q: &AudioQueue)
        ensures
            *q == self.spec_queue(),
    {
        &self.queue
    }

    /// Let the DAC side consume up to `k` queued samples; see
    /// [`AudioQueue::drain`].
    pub fn drain(&mut self, k: usize)
        requires
            old(self).spec_queue().wf(),
        ensures
            final(self).spec_queue().wf(),
            final(self).spec_dac() == old(self).spec_dac(),
            final(self).spec_state() == old(self).spec_state(),
            final(self).spec_queue().spec_control() == old(self).spec_queue().spec_control(),
            final(self).spec_queue().spec_pending() == if k as int
                <= old(self).spec_queue().spec_pending() {
                old(self).spec_queue().spec_pending() - k as int
            } else {
                0
            },
            final(self).spec_queue().spec_mono() == old(self).spec_queue().spec_mono(),
            final(self).spec_queue().spec_wids() == old(self).spec_queue().spec_wids(),
            final(self).spec_queue().spec_stereo() == old(self).spec_queue().spec_stereo(),
    {
        self.queue.drain(k);
    }
}

/// The fixed decision table that classifies a mono status word, written
/// over the fill level it reflects: `queue_empty` wins, then
/// `queue_full`, then `queue_almost_empty`, then `queue_almost_full`.
pub open spec fn spec_mono_status(pending: int) -> AudioBufferStatus {
    if pending == 0 {
        AudioBufferStatus::Empty
    } else if MONO_QUEUE_CAPACITY as int - pending == 0 {
        AudioBufferStatus::Full
    } else if pending < 32 {
        AudioBufferStatus::Available(512)
    } else if MONO_QUEUE_CAPACITY as int - pending < 32 {
        AudioBufferStatus::Available(1)
    } else {
        AudioBufferStatus::Available(32)
    }
}

/// The fixed decision table that classifies a stereo status word:
/// `queue_empty` wins, then `queue_full`, then `queue_almost_empty`.
pub open spec fn spec_stereo_status(pending: int) -> AudioBufferStatus {
    if pending == 0 {
        AudioBufferStatus::Empty
    } else if STEREO_QUEUE_CAPACITY as int - pending < 32 {
        AudioBufferStatus::Full
    } else if pending < 32 {
        AudioBufferStatus::Available(480)
    } else {
        AudioBufferStatus::Available(32)
    }
}

/// No-overflow bound of the mono decision table: whatever a fill-level
/// query answers, acting on it cannot overflow the queue.  An `Empty`
/// answer leaves room for at least [`EMPTY_BURST`] samples, and an
/// `Available(n)` answer leaves room for at least `n` — the reported
/// figure is a safe lower bound on the true free room.
pub proof fn lemma_mono_status_is_lower_bound(pending: int)
    requires
        0 <= pending <= MONO_QUEUE_CAPACITY as int,
    ensures
        spec_mono_status(pending) is Empty ==> EMPTY_BURST as int <= MONO_QUEUE_CAPACITY as int
            - pending,
        spec_mono_status(pending) matches AudioBufferStatus::Available(n) ==> n as int
            <= MONO_QUEUE_CAPACITY as int - pending,
        spec_mono_status(pending) is Full ==> pending == MONO_QUEUE_CAPACITY as int,
{
}

/// No-overflow bound of the stereo decision table; see
/// [`lemma_mono_status_is_lower_bound`].
pub proof fn lemma_stereo_status_is_lower_bound(pending: int)
    requires
        0 <= pending <= STEREO_QUEUE_CAPACITY as int,
    ensures
        spec_stereo_status(pending) is Empty ==> EMPTY_BURST as int <= STEREO_QUEUE_CAPACITY as int
            - pending,
        spec_stereo_status(pending) matches AudioBufferStatus::Available(n) ==> n as int
            <= STEREO_QUEUE_CAPACITY as int - pending,
{
}

/// Folds the constant bit arithmetic of the control-word values the
/// driver writes: disabled (0), enabled mono (1), enabled stereo (3).
proof fn lemma_control_constants()
    by (bit_vector)
    ensures
        (0u8 & 0xfe) | 0u8 == 0u8,
        (0u8 & 0xfe) | 1u8 == 1u8,
        (1u8 & 0xfd) | 2u8 == 3u8,
        (1u8 & 0xfd) | 0u8 == 1u8,
        0u8 & 3 == 0u8,
        1u8 & 3 == 1u8,
        3u8 & 3 == 3u8,
        (0u8 >> 1) & 1 == 0u8,
        (1u8 >> 1) & 1 == 0u8,
        (3u8 >> 1) & 1 == 1u8,
{
}

/// The write ids stamped on a mono session wrap upward one by one: the
/// id at position `i` is the first id plus `i`, modulo 256.
pub open spec fn spec_wids_consecutive(wids: Seq<u8>) -> bool {
    forall|i: int| 0 <= i < wids.len() ==> #[trigger] wids[i] == ((wids[0] + i) % 256) as u8
}

/// The id sequence a mono session stamps from `start` on: `count` ids
/// wrapping upward one by one.
pub open spec fn spec_wid_run(start: u8, count: int) -> Seq<u8> {
    Seq::new(count as nat, |i: int| ((start + i) % 256) as u8)
}

/// Two adjacent id runs lie end to end as one run: the second starts
/// where the first left off.
pub proof fn lemma_wid_run_extend(start: u8, a: int, b: int)
    requires
        0 <= a,
        0 <= b,
    ensures
        spec_wid_run(start, a) + spec_wid_run(((start + a) % 256) as u8, b) == spec_wid_run(
            start,
            a + b,
        ),
{
    let joint = spec_wid_run(start, a) + spec_wid_run(((start + a) % 256) as u8, b);
    let whole = spec_wid_run(start, a + b);
    assert forall|i: int| 0 <= i < a + b implies joint[i] == whole[i] by {
        if i >= a {
            vstd::arithmetic::div_mod::lemma_add_mod_noop(start + a, i - a, 256);
            vstd::arithmetic::div_mod::lemma_add_mod_noop_right(
                (start + a) % 256,
                i - a,
                256,
            );
        }
    }
    assert(joint =~= whole);
}

impl<Mode: AudioMode> AudioStreamer<Mode, Uninitialized> {
    /// Brings down the streamer, releasing the DAC peripheral.
    pub fn release(self) -> (d: AudioDac)
        ensures
            d == self.spec_dac(),
    {
        self.dac
    }

    /// Convert the streamer into stereo mode.  While uninitialized the
    /// hardware is untouched: only the type changes.
    pub fn into_stereo(self) -> (r: AudioStreamer<Stereo, Uninitialized>)
        ensures
            r.spec_dac() == self.spec_dac(),
            r.spec_queue() == self.spec_queue(),
    {
        AudioStreamer { dac: self.dac, mode: Stereo, state: self.state, queue: self.queue }
    }

    /// Convert the streamer into mono mode.  While uninitialized the
    /// hardware is untouched: only the type changes.
    pub fn into_mono(self) -> (r: AudioStreamer<Mono, Uninitialized>)
        ensures
            r.spec_dac() == self.spec_dac(),
            r.spec_queue() == self.spec_queue(),
    {
        AudioStreamer { dac: self.dac, mode: Mono, state: self.state, queue: self.queue }
    }
}

impl<Mode: AudioMode> AudioStreamer<Mode, Initialized> {
    /// Disable the streamer: the control register is cleared, so the DAC
    /// and the queue are no longer driven by it.  Always succeeds.
    pub fn disable(self) -> (r: AudioStreamer<Mode, Uninitialized>)
        ensures
            r.spec_dac() == self.spec_dac(),
            r.spec_queue().wf(),
            r.spec_queue().spec_control() == 0,
            r.spec_queue().spec_pending() == 0,
            r.spec_queue().spec_mono() == Seq::<u8>::empty(),
            r.spec_queue().spec_wids() == Seq::<u8>::empty(),
            r.spec_queue().spec_stereo() == Seq::<(u8, u8)>::empty(),
    {
        proof {
            lemma_control_constants();
        }
        let mut queue = self.queue;
        queue.write_control(audio_control::W::zero().enable(false));
        AudioStreamer { dac: self.dac, mode: self.mode, state: Uninitialized, queue }
    }

    /// Brings down the streamer, releasing the DAC peripheral.
    pub fn release(self) -> (d: AudioDac)
        ensures
            d == self.spec_dac(),
    {
        self.disable().release()
    }

    /// Switch the enabled streamer to stereo mode.  Reprogramming the
    /// control register flushes the queue and all its acceptance logs;
    /// the write-id counter carries over, as stereo writes do not use
    /// it.
    pub fn into_stereo(self) -> (r: AudioStreamer<Stereo, Initialized>)
        ensures
            r.wf(),
            r.spec_dac() == self.spec_dac(),
            r.spec_state() == self.spec_state(),
            r.spec_queue().spec_pending() == 0,
            r.spec_queue().spec_stereo() == Seq::<(u8, u8)>::empty(),
            r.spec_queue().spec_mono() == Seq::<u8>::empty(),
            r.spec_queue().spec_wids() == Seq::<u8>::empty(),
    {
        proof {
            lemma_control_constants();
        }
        let mut queue = self.queue;
        queue.write_control(audio_control::W::zero().enable(true).mode(true));
        AudioStreamer { dac: self.dac, mode: Stereo, state: self.state, queue }
    }

    /// Switch the enabled streamer to mono mode.  Reprogramming the
    /// control register flushes the queue and its logs, so the id
    /// sequence of the new session starts from the carried counter.
    pub fn into_mono(self) -> (r: AudioStreamer<Mono, Initialized>)
        ensures
            r.wf(),
            r.spec_dac() == self.spec_dac(),
            r.spec_state() == self.spec_state(),
            r.spec_queue().spec_pending() == 0,
            r.spec_queue().spec_mono() == Seq::<u8>::empty(),
            r.spec_queue().spec_wids() == Seq::<u8>::empty(),
            r.spec_queue().spec_stereo() == Seq::<(u8, u8)>::empty(),
    {
        proof {
            lemma_control_constants();
        }
        let mut queue = self.queue;
        queue.write_control(audio_control::W::zero().enable(true).mode(false));
        AudioStreamer { dac: self.dac, mode: Mono, state: self.state, queue }
    }
}

impl AudioStreamer<Stereo, Uninitialized> {
    /// Create a streamer in stereo mode by capturing the DAC peripheral.
    pub fn new_stereo(dac: AudioDac) -> (r: AudioStreamer<Stereo, Uninitialized>)
        ensures
            r.spec_dac() == dac,
            r.spec_queue().wf(),
            r.spec_queue().spec_control() == 0,
            r.spec_queue().spec_pending() == 0,
            r.spec_queue().spec_stereo() == Seq::<(u8, u8)>::empty(),
    {
        AudioStreamer { dac, mode: Stereo, state: Uninitialized, queue: AudioQueue::new() }
    }

    /// Initialize the streamer in stereo mode: program the enable and
    /// mode bits.  No error path — the register write cannot fail.
    pub fn initialize(self) -> (r: AudioStreamer<Stereo, Initialized>)
        ensures
            r.wf(),
            r.spec_dac() == self.spec_dac(),
            r.spec_queue().spec_pending() == 0,
            r.spec_queue().spec_stereo() == Seq::<(u8, u8)>::empty(),
    {
        proof {
            lemma_control_constants();
        }
        let mut queue = self.queue;
        queue.write_control(audio_control::W::zero().enable(true).mode(true));
        AudioStreamer { dac: self.dac, mode: Stereo, state: Initialized { wid: 0 }, queue }
    }
}

impl AudioStreamer<Mono, Uninitialized> {
    /// Create a streamer in mono mode by capturing the DAC peripheral.
    pub fn new_mono(dac: AudioDac) -> (r: AudioStreamer<Mono, Uninitialized>)
        ensures
            r.spec_dac() == dac,
            r.spec_queue().wf(),
            r.spec_queue().spec_control() == 0,
            r.spec_queue().spec_pending() == 0,
            r.spec_queue().spec_mono() == Seq::<u8>::empty(),
            r.spec_queue().spec_wids() == Seq::<u8>::empty(),
    {
        AudioStreamer { dac, mode: Mono, state: Uninitialized, queue: AudioQueue::new() }
    }

    /// Initialize the streamer in mono mode: program the enable and mode
    /// bits and reset the write id to zero.  No error path — the
    /// register write cannot fail.
    pub fn initialize(self) -> (r: AudioStreamer<Mono, Initialized>)
        ensures
            r.wf(),
            r.spec_dac() == self.spec_dac(),
            r.spec_wid() == 0,
            r.spec_queue().spec_pending() == 0,
            r.spec_queue().spec_mono() == Seq::<u8>::empty(),
            r.spec_queue().spec_wids() == Seq::<u8>::empty(),
    {
        proof {
            lemma_control_constants();
        }
        let mut queue = self.queue;
        queue.write_control(audio_control::W::zero().enable(true).mode(false));
        AudioStreamer { dac: self.dac, mode: Mono, state: Initialized { wid: 0 }, queue }
    }
}

impl AudioStreamer<Stereo, Initialized> {
    /// The stereo pairs the hardware has accepted this session.
    pub open spec fn spec_samples(&self) -> Seq<(u8, u8)> {
        self.spec_queue().spec_stereo()
    }

    /// The fill level of the hardware queue, in pairs.
    pub open spec fn spec_pending(&self) -> int {
        self.spec_queue().spec_pending()
    }

    /// An initialized stereo streamer drives an enabled queue in stereo
    /// mode whose fill level is within bounds.
    pub open spec fn wf(&self) -> bool {
        &&& self.spec_queue().wf()
        &&& self.spec_queue().spec_control() == 3
    }

    /// Write one pair of samples directly to the data register, without
    /// any capacity check: room in the queue is the caller's
    /// responsibility, stated here as a precondition.
    pub fn write_sample_unchecked(&mut self, left: u8, right: u8)
        requires
            old(self).wf(),
            old(self).spec_pending() < STEREO_QUEUE_CAPACITY as int,
        ensures
            final(self).wf(),
            final(self).spec_dac() == old(self).spec_dac(),
            final(self).spec_state() == old(self).spec_state(),
            final(self).spec_pending() == old(self).spec_pending() + 1,
            final(self).spec_samples() == old(self).spec_samples().push((left, right)),
    {
        proof {
            lemma_control_constants();
        }
        self.queue.push_stereo(left, right);
    }

    /// Classify the current fill level of the queue, per the fixed
    /// decision table over the hardware status bits.  Pure read, no side
    /// effect; the answer is a conservative snapshot.
    pub fn buffer_status(&self) -> (r: AudioBufferStatus)
        requires
            self.wf(),
        ensures
            r == spec_stereo_status(self.spec_pending()),
    {
        proof {
            lemma_control_constants();
        }
        let status = self.queue.read_control();
        if status.queue_empty() {
            AudioBufferStatus::Empty
        } else if status.queue_full() {
            AudioBufferStatus::Full
        } else if status.queue_almost_empty() {
            AudioBufferStatus::Available(480)
        } else {
            // In any other case, at least 32 pairs can be safely written.
            AudioBufferStatus::Available(32)
        }
    }

    /// Write one pair of samples after a capacity check.  Returns
    /// `Err(())` exactly when the queue reports full, in which case
    /// nothing is written.
    pub fn write_sample(&mut self, left: u8, right: u8) -> (r: Result<(), ()>)
        requires
            old(self).wf(),
        ensures
            final(self).wf(),
            final(self).spec_dac() == old(self).spec_dac(),
            final(self).spec_state() == old(self).spec_state(),
            r is Err <==> spec_stereo_status(old(self).spec_pending()) is Full,
            r is Err ==> final(self).spec_samples() == old(self).spec_samples()
                && final(self).spec_pending() == old(self).spec_pending(),
            r is Ok ==> final(self).spec_samples() == old(self).spec_samples().push((left, right))
                && final(self).spec_pending() == old(self).spec_pending() + 1,
    {
        match self.buffer_status() {
            AudioBufferStatus::Full => Err(()),
            _ => {
                self.write_sample_unchecked(left, right);
                Ok(())
            },
        }
    }

    /// Burst-write as many of `samples` as the backpressure protocol
    /// allows: query the status, write at most the room it vouches for,
    /// re-query, and stop at the first `Full` answer.
    ///
    /// The count returned is conservation itself: exactly the first
    /// `written` pairs, in order, were handed to the hardware, never
    /// more than the room the queue had free, and a short count means
    /// the queue was left full.  Never panics, never blocks.
    pub fn write_samples(&mut self, samples: &[(u8, u8)]) -> (written: usize)
        requires
            old(self).wf(),
        ensures
            final(self).wf(),
            final(self).spec_dac() == old(self).spec_dac(),
            final(self).spec_state() == old(self).spec_state(),
            written <= samples@.len(),
            written as int <= STEREO_QUEUE_CAPACITY as int - old(self).spec_pending(),
            final(self).spec_pending() == old(self).spec_pending() + written,
            final(self).spec_samples() == old(self).spec_samples() + samples@.subrange(
                0,
                written as int,
            ),
            written < samples@.len() ==> spec_stereo_status(final(self).spec_pending()) is Full,
            spec_stereo_status(old(self).spec_pending()) is Full ==> written == 0 && final(self).spec_samples() == old(self).spec_samples(),
    {
        proof {
            lemma_control_constants();
        }
        let ghost samples0 = self.spec_samples();
        let ghost pending0 = self.spec_pending();
        let ghost dac0 = self.spec_dac();
        let ghost state0 = self.spec_state();
        let mut written: usize = 0;
        while written < samples.len()
            invariant_except_break
                self.wf(),
                written <= samples@.len(),
                self.spec_pending() == pending0 + written,
                self.spec_samples() == samples0 + samples@.subrange(0, written as int),
                self.spec_dac() == dac0,
                self.spec_state() == state0,
                spec_stereo_status(pending0) is Full ==> written == 0,
            ensures
                self.wf(),
                written <= samples@.len(),
                self.spec_pending() == pending0 + written,
                self.spec_samples() == samples0 + samples@.subrange(0, written as int),
                self.spec_dac() == dac0,
                self.spec_state() == state0,
                written == samples@.len() || spec_stereo_status(self.spec_pending()) is Full,
                spec_stereo_status(pending0) is Full ==> written == 0,
            decreases samples@.len() - written,
        {
            match self.buffer_status() {
                AudioBufferStatus::Full => {
                    // Queue is full, cannot write more pairs.
                    break ;
                },
                AudioBufferStatus::Available(available) => {
                    // Write as many pairs as the reported room allows.
                    let remaining = samples.len() - written;
                    let to_write = if available < remaining {
                        available
                    } else {
                        remaining
                    };
                    self.write_burst(samples, written, to_write);
                    written = written + to_write;
                },
                AudioBufferStatus::Empty => {
                    // An empty queue vouches for EMPTY_BURST pairs.
                    let remaining = samples.len() - written;
                    let to_write = if EMPTY_BURST < remaining {
                        EMPTY_BURST
                    } else {
                        remaining
                    };
                    self.write_burst(samples, written, to_write);
                    written = written + to_write;
                },
            }
            proof {
                assert(samples0 + samples@.subrange(0, written as int) =~= self.spec_samples());
            }
        }
        proof {
            if spec_stereo_status(pending0) is Full {
                assert(samples0 + samples@.subrange(0, 0) =~= samples0);
            }
        }
        written
    }

    /// Write `count` pairs starting at `from` through the unchecked
    /// path.  The caller has already established the room.
    fn write_burst(&mut self, samples: &[(u8, u8)], from: usize, count: usize)
        requires
            old(self).wf(),
            from + count <= samples@.len(),
            count as int <= STEREO_QUEUE_CAPACITY as int - old(self).spec_pending(),
        ensures
            final(self).wf(),
            final(self).spec_dac() == old(self).spec_dac(),
            final(self).spec_state() == old(self).spec_state(),
            final(self).spec_pending() == old(self).spec_pending() + count,
            final(self).spec_samples() == old(self).spec_samples() + samples@.subrange(
                from as int,
                from as int + count,
            ),
    {
        proof {
            lemma_control_constants();
        }
        let slice_len = samples.len();
        let ghost samples0 = self.spec_samples();
        let ghost pending0 = self.spec_pending();
        let ghost dac0 = self.spec_dac();
        let ghost state0 = self.spec_state();
        let mut i: usize = 0;
        while i < count
            invariant
                self.wf(),
                i <= count,
                slice_len == samples@.len(),
                from + count <= slice_len,
                count as int <= STEREO_QUEUE_CAPACITY as int - pending0,
                self.spec_pending() == pending0 + i,
                self.spec_samples() == samples0 + samples@.subrange(from as int, from as int + i),
                self.spec_dac() == dac0,
                self.spec_state() == state0,
            decreases count - i,
        {
            let pair = samples[from + i];
            self.write_sample_unchecked(pair.0, pair.1);
            proof {
                assert(samples@.subrange(from as int, from as int + i + 1)
                    =~= samples@.subrange(from as int, from as int + i).push(
                    samples@[from as int + i],
                ));
            }
            i = i + 1;
        }
    }
}

impl AudioStreamer<Mono, Initialized> {
    /// The write id the next accepted sample will be stamped with.
    pub closed spec fn spec_wid(&self) -> u8 {
        self.state.wid
    }

    /// The mono samples the hardware has accepted this session.
    pub open spec fn spec_samples(&self) -> Seq<u8> {
        self.spec_queue().spec_mono()
    }

    /// The write ids stamped on the accepted samples.
    pub open spec fn spec_wids(&self) -> Seq<u8> {
        self.spec_queue().spec_wids()
    }

    /// The fill level of the hardware queue, in samples.
    pub open spec fn spec_pending(&self) -> int {
        self.spec_queue().spec_pending()
    }

    /// An initialized mono streamer drives an enabled queue in mono mode
    /// whose fill level is within bounds, one id was stamped per
    /// accepted sample, the stamped ids wrap upward one by one, and the
    /// counter carried in the handle continues that sequence.
    pub open spec fn wf(&self) -> bool {
        &&& self.spec_queue().wf()
        &&& self.spec_queue().spec_control() == 1
        &&& self.spec_wids().len() == self.spec_samples().len()
        &&& spec_wids_consecutive(self.spec_wids())
        &&& self.spec_wids().len() > 0 ==> self.spec_wid() == ((self.spec_wids()[0]
            + self.spec_wids().len()) % 256) as u8
    }

    /// Write one sample directly to the data register, stamped with the
    /// current write id, without any capacity check: room in the queue
    /// is the caller's responsibility, stated here as a precondition.
    /// The id advances by exactly one per accepted sample, wrapping at
    /// 256, and is never reused for two different samples.
    pub fn write_sample_unchecked(&mut self, sample: u8)
        requires
            old(self).wf(),
            old(self).spec_pending() < MONO_QUEUE_CAPACITY as int,
        ensures
            final(self).wf(),
            final(self).spec_dac() == old(self).spec_dac(),
            final(self).spec_pending() == old(self).spec_pending() + 1,
            final(self).spec_samples() == old(self).spec_samples().push(sample),
            final(self).spec_wids() == old(self).spec_wids().push(old(self).spec_wid()),
            final(self).spec_wid() == ((old(self).spec_wid() + 1) % 256) as u8,
    {
        proof {
            lemma_control_constants();
        }
        let wid = self.state.wid;
        self.queue.push_mono(sample, wid);
        self.state.wid = wid.wrapping_add(1);
        proof {
            let wids = old(self).spec_wids();
            let n = wids.len() as int;
            if n == 0 {
                vstd::arithmetic::div_mod::lemma_small_mod(wid as nat, 256);
            } else {
                vstd::arithmetic::div_mod::lemma_add_mod_noop(wids[0] + n, 1, 256);
            }
            assert(spec_wids_consecutive(self.spec_wids()));
        }
    }

    /// Classify the current fill level of the queue, per the fixed
    /// decision table over the hardware status bits.  Pure read, no side
    /// effect; the answer is a conservative snapshot that the autonomous
    /// drain may already have overtaken, so `Available(n)` is a lower
    /// bound, never an exact figure.
    pub fn buffer_status(&self) -> (r: AudioBufferStatus)
        requires
            self.wf(),
        ensures
            r == spec_mono_status(self.spec_pending()),
    {
        proof {
            lemma_control_constants();
        }
        let status = self.queue.read_control();
        if status.queue_empty() {
            AudioBufferStatus::Empty
        } else if status.queue_full() {
            AudioBufferStatus::Full
        } else if status.queue_almost_empty() {
            AudioBufferStatus::Available(512)
        } else if status.queue_almost_full() {
            AudioBufferStatus::Available(1)
        } else {
            // In any other case, at least 32 samples can be safely written.
            AudioBufferStatus::Available(32)
        }
    }

    /// Write one sample after a capacity check.  Returns `Err(())`
    /// exactly when the queue reports full, in which case nothing is
    /// written and the id is not consumed.
    pub fn write_sample(&mut self, sample: u8) -> (r: Result<(), ()>)
        requires
            old(self).wf(),
        ensures
            final(self).wf(),
            final(self).spec_dac() == old(self).spec_dac(),
            r is Err <==> spec_mono_status(old(self).spec_pending()) is Full,
            r is Err ==> final(self).spec_samples() == old(self).spec_samples()
                && final(self).spec_pending() == old(self).spec_pending()
                && final(self).spec_wid() == old(self).spec_wid(),
            r is Ok ==> final(self).spec_samples() == old(self).spec_samples().push(sample)
                && final(self).spec_wids() == old(self).spec_wids().push(old(self).spec_wid())
                && final(self).spec_pending() == old(self).spec_pending() + 1
                && final(self).spec_wid() == ((old(self).spec_wid() + 1) % 256) as u8,
    {
        match self.buffer_status() {
            AudioBufferStatus::Full => Err(()),
            _ => {
                self.write_sample_unchecked(sample);
                Ok(())
            },
        }
    }

    /// Burst-write as many of `samples` as the backpressure protocol
    /// allows: query the status, write at most the room it vouches for,
    /// re-query, and stop at the first `Full` answer.
    ///
    /// The count returned is conservation itself: exactly the first
    /// `written` samples, in order, were handed to the hardware, never
    /// more than the room the queue had free, and a short count means
    /// the queue was left full.  The ids stamped on the way are the
    /// next `written` values of the wrapping counter, which advances by
    /// exactly that much — so a full queue accepts nothing and consumes
    /// no id.  Never panics, never blocks.
    pub fn write_samples(&mut self, samples: &[u8]) -> (written: usize)
        requires
            old(self).wf(),
        ensures
            final(self).wf(),
            final(self).spec_dac() == old(self).spec_dac(),
            written <= samples@.len(),
            written as int <= MONO_QUEUE_CAPACITY as int - old(self).spec_pending(),
            final(self).spec_pending() == old(self).spec_pending() + written,
            final(self).spec_samples() == old(self).spec_samples() + samples@.subrange(
                0,
                written as int,
            ),
            final(self).spec_wids() == old(self).spec_wids() + spec_wid_run(
                old(self).spec_wid(),
                written as int,
            ),
            final(self).spec_wid() == ((old(self).spec_wid() + written) % 256) as u8,
            written < samples@.len() ==> spec_mono_status(final(self).spec_pending()) is Full,
            spec_mono_status(old(self).spec_pending()) is Full ==> written == 0 && final(self).spec_samples() == old(self).spec_samples() && final(self).spec_wids() == old(self).spec_wids() && final(self).spec_wid() == old(self).spec_wid(),
    {
        proof {
            lemma_control_constants();
        }
        let ghost samples0 = self.spec_samples();
        let ghost pending0 = self.spec_pending();
        let ghost dac0 = self.spec_dac();
        let ghost wids0 = self.spec_wids();
        let ghost wid0 = self.spec_wid();
        proof {
            assert(wids0 + spec_wid_run(wid0, 0) =~= wids0);
            vstd::arithmetic::div_mod::lemma_small_mod(wid0 as nat, 256);
        }
        let mut written: usize = 0;
        while written < samples.len()
            invariant_except_break
                self.wf(),
                written <= samples@.len(),
                self.spec_pending() == pending0 + written,
                self.spec_samples() == samples0 + samples@.subrange(0, written as int),
                self.spec_wids() == wids0 + spec_wid_run(wid0, written as int),
                self.spec_wid() == ((wid0 + written) % 256) as u8,
                self.spec_dac() == dac0,
                spec_mono_status(pending0) is Full ==> written == 0,
            ensures
                self.wf(),
                written <= samples@.len(),
                self.spec_pending() == pending0 + written,
                self.spec_samples() == samples0 + samples@.subrange(0, written as int),
                self.spec_wids() == wids0 + spec_wid_run(wid0, written as int),
                self.spec_wid() == ((wid0 + written) % 256) as u8,
                self.spec_dac() == dac0,
                written == samples@.len() || spec_mono_status(self.spec_pending()) is Full,
                spec_mono_status(pending0) is Full ==> written == 0,
            decreases samples@.len() - written,
        {
            let ghost written_before = written as int;
            match self.buffer_status() {
                AudioBufferStatus::Full => {
                    // Queue is full, cannot write more samples.
                    break ;
                },
                AudioBufferStatus::Available(available) => {
                    // Write as many samples as the reported room allows.
                    let remaining = samples.len() - written;
                    let to_write = if available < remaining {
                        available
                    } else {
                        remaining
                    };
                    self.write_burst(samples, written, to_write);
                    written = written + to_write;
                },
                AudioBufferStatus::Empty => {
                    // An empty queue vouches for EMPTY_BURST samples.
                    let remaining = samples.len() - written;
                    let to_write = if EMPTY_BURST < remaining {
                        EMPTY_BURST
                    } else {
                        remaining
                    };
                    self.write_burst(samples, written, to_write);
                    written = written + to_write;
                },
            }
            proof {
                assert(samples0 + samples@.subrange(0, written as int) =~= self.spec_samples());
                lemma_wid_run_extend(wid0, written_before, written - written_before);
                assert(wids0 + spec_wid_run(wid0, written as int) =~= self.spec_wids());
                vstd::arithmetic::div_mod::lemma_add_mod_noop(
                    wid0 + written_before,
                    written - written_before,
                    256,
                );
                vstd::arithmetic::div_mod::lemma_add_mod_noop_right(
                    (wid0 + written_before) % 256,
                    written - written_before,
                    256,
                );
            }
        }
        proof {
            if spec_mono_status(pending0) is Full {
                assert(samples0 + samples@.subrange(0, 0) =~= samples0);
                assert(wids0 + spec_wid_run(wid0, 0) =~= wids0);
                vstd::arithmetic::div_mod::lemma_small_mod(wid0 as nat, 256);
            }
        }
        written
    }

    /// Write `count` samples starting at `from` through the unchecked
    /// path.  The caller has already established the room.
    fn write_burst(&mut self, samples: &[u8], from: usize, count: usize)
        requires
            old(self).wf(),
            from + count <= samples@.len(),
            count as int <= MONO_QUEUE_CAPACITY as int - old(self).spec_pending(),
        ensures
            final(self).wf(),
            final(self).spec_dac() == old(self).spec_dac(),
            final(self).spec_pending() == old(self).spec_pending() + count,
            final(self).spec_samples() == old(self).spec_samples() + samples@.subrange(
                from as int,
                from as int + count,
            ),
            final(self).spec_wids() == old(self).spec_wids() + spec_wid_run(
                old(self).spec_wid(),
                count as int,
            ),
            final(self).spec_wid() == ((old(self).spec_wid() + count) % 256) as u8,
    {
        proof {
            lemma_control_constants();
            vstd::arithmetic::div_mod::lemma_small_mod(old(self).spec_wid() as nat, 256);
        }
        let slice_len = samples.len();
        let ghost samples0 = self.spec_samples();
        let ghost pending0 = self.spec_pending();
        let ghost dac0 = self.spec_dac();
        let ghost wids0 = self.spec_wids();
        let ghost wid0 = self.spec_wid();
        proof {
            assert(wids0 + spec_wid_run(wid0, 0) =~= wids0);
        }
        let mut i: usize = 0;
        while i < count
            invariant
                self.wf(),
                i <= count,
                slice_len == samples@.len(),
                from + count <= slice_len,
                count as int <= MONO_QUEUE_CAPACITY as int - pending0,
                self.spec_pending() == pending0 + i,
                self.spec_samples() == samples0 + samples@.subrange(from as int, from as int + i),
                self.spec_wids() == wids0 + spec_wid_run(wid0, i as int),
                self.spec_wid() == ((wid0 + i) % 256) as u8,
                self.spec_dac() == dac0,
            decreases count - i,
        {
            self.write_sample_unchecked(samples[from + i]);
            proof {
                assert(samples@.subrange(from as int, from as int + i + 1)
                    =~= samples@.subrange(from as int, from as int + i).push(
                    samples@[from as int + i],
                ));
                assert(spec_wid_run(wid0, i + 1) =~= spec_wid_run(wid0, i as int).push(
                    ((wid0 + i) % 256) as u8,
                ));
                assert(wids0 + spec_wid_run(wid0, i + 1) =~= (wids0 + spec_wid_run(
                    wid0,
                    i as int,
                )).push(((wid0 + i) % 256) as u8));
                vstd::arithmetic::div_mod::lemma_add_mod_noop(wid0 + i, 1, 256);
            }
            i = i + 1;
        }
    }
}

/// Two mono handles in the same lifecycle state carry the same write
/// id: the id lives in the state value alone.
pub proof fn lemma_wid_of_state(a: &AudioStreamer<Mono, Initialized>, b: &AudioStreamer<Mono, Initialized>)
    requires
        a.spec_state() == b.spec_state(),
    ensures
        a.spec_wid() == b.spec_wid(),
{
}

/// Sequence-id monotonicity: within one session of a mono streamer, each
/// accepted sample's stamped id is the previous accepted id plus one,
/// modulo 256.  (Initializing a streamer resets the id to zero, so each
/// session's sequence starts afresh; see
/// [`AudioStreamer::<Mono, Uninitialized>::initialize`].)
pub proof fn lemma_wid_monotonic(wids: Seq<u8>, i: int)
    requires
        spec_wids_consecutive(wids),
        0 <= i,
        i + 1 < wids.len(),
    ensures
        wids[i + 1] == ((wids[i] + 1) % 256) as u8,
{
    vstd::arithmetic::div_mod::lemma_add_mod_noop(wids[0] + i, 1, 256);
}

} // verus!
