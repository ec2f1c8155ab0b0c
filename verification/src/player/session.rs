//! The playback session and its scheduler loop.
//!
//! One session owns the open storage stream and the transport state
//! (volume, paused, debounce counters).  Each iteration of the loop polls
//! the six control lines, then — unless paused — reads one block, scales
//! it, and drains it entirely into the audio queue, then periodically
//! reports progress.  The loop ends on end-of-stream, on a storage error
//! or on cancel, and every ending funnels through the same teardown.

use vstd::prelude::*;

verus! {

use crate::hal::audio::AudioStreamer;
use crate::hal::audio::Initialized;
use crate::hal::audio::Mono;
use crate::player::progress::ProgressUpdate;
use crate::player::stream::StorageStream;
use crate::player::volume::apply_volume;
use crate::player::volume::spec_scaled;

/// Bytes pulled from the storage stream per iteration.
pub const BLOCK_SIZE: usize = 512;

/// Samples per second of the raw PCM tracks.
pub const AUDIO_SAMPLE_RATE: u32 = 48000;

/// Channel count of the raw PCM tracks.
pub const AUDIO_CHANNELS: u32 = 1;

/// Bits per sample of the raw PCM tracks.
pub const AUDIO_BIT_DEPTH: u32 = 8;

/// Bytes of track data per second of audio.
pub const AUDIO_DATA_RATE: u32 = AUDIO_SAMPLE_RATE * AUDIO_CHANNELS * (AUDIO_BIT_DEPTH / 8);

/// Bytes a seek button skips: about ten seconds of audio.
pub const SEEK_DELTA_BYTES: i64 = 938 * 512;

/// Iterations the volume level stays on the LEDs after a change.
pub const VOLUME_SHOW_ITERATIONS: u32 = 48 * 4;

/// While the volume indication counter is at or above this, further
/// volume presses are ignored (hold-down debounce, counted in loop
/// iterations rather than wall-clock time).
pub const VOLUME_DEBOUNCE_ITERATIONS: u32 = 24 * 7;

/// A progress snapshot is pushed once the iteration counter wraps: about
/// every half second of audio.
pub const PROGRESS_INTERVAL: u32 = 47;

/// The six debounced button lines of the control surface, as read in one
/// poll.
#[derive(Clone, Copy)]
pub struct ControlInputs {
    /// Toggle pause/resume.
    pub pause: bool,
    /// Cancel playback and go back.
    pub back: bool,
    /// Seek forward.
    pub forward: bool,
    /// Seek backward.
    pub backward: bool,
    /// Volume up.
    pub vol_up: bool,
    /// Volume down.
    pub vol_down: bool,
}

impl ControlInputs {
    /// No button pressed.
    pub fn none() -> (c: ControlInputs)
        ensures
            !c.pause && !c.back && !c.forward && !c.backward && !c.vol_up && !c.vol_down,
    {
        ControlInputs {
            pause: false,
            back: false,
            forward: false,
            backward: false,
            vol_up: false,
            vol_down: false,
        }
    }
}

/// What the LEDs should show after an iteration.
pub enum LedIndication {
    /// Leave the LEDs as they are.
    Unchanged,
    /// Turn every LED off (the volume indication just timed out).
    AllOff,
    /// Show this volume level as a bar of lit LEDs.
    VolumeLevel(u8),
}

/// What a control poll decided beyond the session state itself.
pub struct ControlEffect {
    /// Playback is cancelled; tear the session down.
    pub cancel: bool,
    /// A button needs its fixed settle delay before the next poll.
    pub debounce: bool,
    /// What the LEDs should show.
    pub leds: LedIndication,
}

/// Why the playback loop ended.
pub enum ExitReason {
    /// The stream handed back zero bytes: the track is over.
    EndOfStream,
    /// The storage layer reported an error; treated like end-of-stream.
    StorageFailure,
    /// The user pressed cancel.
    Cancelled,
}

/// What one scheduler iteration produced.
pub struct TickReport {
    /// The loop ends with this reason, if any.
    pub exit: Option<ExitReason>,
    /// A button needs its fixed settle delay before the next poll.
    pub debounce: bool,
    /// What the LEDs should show.
    pub leds: LedIndication,
    /// A progress snapshot for the display, when one is due.
    pub progress: Option<ProgressUpdate>,
}

/// Where a relative seek by `delta` lands: on the target when it stays
/// within the stream, otherwise the cursor does not move (a boundary
/// seek is tolerated as a no-op).
pub open spec fn spec_seek_target(pos: int, len: int, delta: int) -> int {
    if 0 <= pos + delta && pos + delta <= len {
        pos + delta
    } else {
        pos
    }
}

/// The cursor after the seek buttons of one poll were honoured.
pub open spec fn spec_pos_after_controls(s: StorageStream, inputs: ControlInputs) -> int {
    if inputs.forward {
        spec_seek_target(s.spec_pos(), s.spec_data().len() as int, SEEK_DELTA_BYTES as int)
    } else if inputs.backward {
        spec_seek_target(s.spec_pos(), s.spec_data().len() as int, -(SEEK_DELTA_BYTES as int))
    } else {
        s.spec_pos()
    }
}

/// Volume, indication counter and LED outcome after the volume buttons
/// of one poll were honoured: presses are ignored inside the hold-down
/// debounce window, the level is clamped to `1..=8`, a change arms the
/// indication counter, and the counter then burns down one step, turning
/// the LEDs off exactly when it runs out.
pub open spec fn spec_controls_after(volume: u8, timeout: u32, inputs: ControlInputs) -> (
    u8,
    u32,
    LedIndication,
) {
    let v = if timeout >= VOLUME_DEBOUNCE_ITERATIONS {
        volume
    } else if inputs.vol_up {
        if volume < 8 {
            (volume + 1) as u8
        } else {
            volume
        }
    } else if inputs.vol_down {
        if volume > 1 {
            (volume - 1) as u8
        } else {
            volume
        }
    } else {
        volume
    };
    let t = if timeout >= VOLUME_DEBOUNCE_ITERATIONS {
        timeout
    } else if inputs.vol_up || inputs.vol_down {
        VOLUME_SHOW_ITERATIONS
    } else {
        timeout
    };
    if t > 0 {
        if t == 1 {
            (v, 0u32, LedIndication::AllOff)
        } else {
            (v, (t - 1) as u32, LedIndication::VolumeLevel(v))
        }
    } else {
        (v, t, LedIndication::Unchanged)
    }
}

/// The LED bar that shows a volume level: LED `i` is lit exactly when
/// the level is above `i`.
pub fn volume_led_pattern(volume: u8) -> (v: Vec<bool>)
    ensures
        v@.len() == 8,
        forall|i: int| 0 <= i < 8 ==> v@[i] == (volume as int >= i + 1),
{
    let mut v: Vec<bool> = Vec::new();
    let mut n: u8 = 0;
    while n < 8
        invariant
            n <= 8,
            v@.len() == n as int,
            forall|i: int| 0 <= i < n as int ==> v@[i] == (volume as int >= i + 1),
        decreases 8 - n,
    {
        v.push(volume >= n + 1);
        n = n + 1;
    }
    v
}

/// Orchestrator state of one playback: the open stream and the
/// transport controls that shape what reaches the hardware.
pub struct PlaybackSession {
    stream: StorageStream,
    bytes_per_second: u32,
    volume: u8,
    paused: bool,
    vol_led_timeout: u32,
    cycle: u32,
}

impl PlaybackSession {
    /// The storage stream the session plays from.
    pub closed spec fn spec_stream(&self) -> StorageStream {
        self.stream
    }

    /// Bytes of track data per second of audio.
    pub closed spec fn spec_bytes_per_second(&self) -> u32 {
        self.bytes_per_second
    }

    /// The volume level, within `1..=8`.
    pub closed spec fn spec_volume(&self) -> u8 {
        self.volume
    }

    /// Whether playback is paused.
    pub closed spec fn spec_paused(&self) -> bool {
        self.paused
    }

    /// Iterations the volume indication stays lit.
    pub closed spec fn spec_vol_led_timeout(&self) -> u32 {
        self.vol_led_timeout
    }

    /// Where in the progress-reporting cycle the session stands.
    pub closed spec fn spec_cycle(&self) -> u32 {
        self.cycle
    }

    /// A session is well-formed when its stream is, the volume is within
    /// its band, the byte rate is positive, the counters are within
    /// their periods, and the track is small enough for second
    /// arithmetic in 32 bits.
    pub open spec fn wf(&self) -> bool {
        &&& self.spec_stream().wf()
        &&& 1 <= self.spec_volume() <= 8
        &&& self.spec_bytes_per_second() > 0
        &&& self.spec_vol_led_timeout() <= VOLUME_SHOW_ITERATIONS
        &&& self.spec_cycle() <= PROGRESS_INTERVAL
        &&& self.spec_stream().spec_data().len() <= u32::MAX
    }

    /// Start a session over an open track: full volume, not paused,
    /// ready to report progress immediately.
    pub fn new(stream: StorageStream) -> (s: PlaybackSession)
        requires
            stream.wf(),
            stream.spec_data().len() <= u32::MAX,
        ensures
            s.wf(),
            s.spec_stream() == stream,
            s.spec_bytes_per_second() == AUDIO_DATA_RATE,
            s.spec_volume() == 8,
            !s.spec_paused(),
            s.spec_vol_led_timeout() == 0,
            s.spec_cycle() == 0,
    {
        PlaybackSession {
            stream,
            bytes_per_second: AUDIO_DATA_RATE,
            volume: 8,
            paused: false,
            vol_led_timeout: 0,
            cycle: 0,
        }
    }

    /// The volume level currently in force.
    pub fn volume(&self) -> (v: u8)
        ensures
            v == self.spec_volume(),
    {
        self.volume
    }

    /// Whether playback is paused.
    pub fn paused(&self) -> (p: bool)
        ensures
            p == self.spec_paused(),
    {
        self.paused
    }

    /// Bytes of track data per second of audio.
    pub fn bytes_per_second(&self) -> (b: u32)
        ensures
            b == self.spec_bytes_per_second(),
    {
        self.bytes_per_second
    }

    /// Inspect the storage stream the session plays from.
    pub fn stream(&self) -> (s: &StorageStream)
        ensures
            *s == self.spec_stream(),
    {
        &self.stream
    }

    /// Poll the control surface once and honour what it says: pause
    /// toggles, cancel wins over everything after it, the seek buttons
    /// move the cursor by a fixed delta (boundary seeks are tolerated as
    /// no-ops), and the volume buttons step the clamped level.
    pub fn poll_controls(&mut self, inputs: ControlInputs) -> (e: ControlEffect)
        requires
            old(self).wf(),
            old(self).spec_stream().spec_open(),
        ensures
            final(self).wf(),
            final(self).spec_stream().spec_open(),
            final(self).spec_stream().spec_data() == old(self).spec_stream().spec_data(),
            final(self).spec_stream().spec_fail_reads() == old(self).spec_stream().spec_fail_reads(),
            final(self).spec_bytes_per_second() == old(self).spec_bytes_per_second(),
            final(self).spec_paused() == (if inputs.pause {
                !old(self).spec_paused()
            } else {
                old(self).spec_paused()
            }),
            e.cancel == inputs.back,
            e.debounce == (inputs.pause || (!inputs.back && (inputs.forward || inputs.backward))),
            final(self).spec_cycle() == if inputs.pause || (!inputs.back && (inputs.forward
                || inputs.backward)) {
                0int
            } else {
                old(self).spec_cycle() as int
            },
            inputs.back ==> final(self).spec_stream().spec_pos() == old(self).spec_stream().spec_pos() && final(self).spec_volume() == old(self).spec_volume()
                && final(self).spec_vol_led_timeout() == old(self).spec_vol_led_timeout()
                && (e.leds is Unchanged),
            !inputs.back ==> final(self).spec_stream().spec_pos() == spec_pos_after_controls(
                old(self).spec_stream(),
                inputs,
            ),
            !inputs.back ==> (final(self).spec_volume(), final(self).spec_vol_led_timeout(), e.leds)
                == spec_controls_after(
                old(self).spec_volume(),
                old(self).spec_vol_led_timeout(),
                inputs,
            ),
    {
        // Pause/resume is honoured first, with its settle delay.
        let mut debounce = false;
        if inputs.pause {
            self.paused = !self.paused;
            debounce = true;
            self.cycle = 0;  // report progress right away after a toggle
        }
        // Cancel breaks out before anything further is honoured.
        if inputs.back {
            return ControlEffect { cancel: true, debounce, leds: LedIndication::Unchanged };
        }
        // Seeks move the cursor by a fixed delta; a boundary seek is
        // tolerated silently and the cursor stays where it was.
        if inputs.forward {
            let _ = self.stream.seek_relative(SEEK_DELTA_BYTES);
            debounce = true;
            self.cycle = 0;
        } else if inputs.backward {
            let _ = self.stream.seek_relative(-SEEK_DELTA_BYTES);
            debounce = true;
            self.cycle = 0;
        }
        // Volume presses are ignored inside the hold-down debounce
        // window; otherwise they step the clamped level and arm the
        // indication counter.
        if self.vol_led_timeout >= VOLUME_DEBOUNCE_ITERATIONS {
            // Within the debounce window: ignore the volume buttons.
        } else if inputs.vol_up {
            if self.volume < 8 {
                self.volume = self.volume + 1;
            }
            self.vol_led_timeout = VOLUME_SHOW_ITERATIONS;
        } else if inputs.vol_down {
            if self.volume > 1 {
                self.volume = self.volume - 1;
            }
            self.vol_led_timeout = VOLUME_SHOW_ITERATIONS;
        }
        // Burn the indication counter down one step; the LEDs go dark
        // exactly when it runs out.
        let leds = if self.vol_led_timeout > 0 {
            self.vol_led_timeout = self.vol_led_timeout - 1;
            if self.vol_led_timeout == 0 {
                LedIndication::AllOff
            } else {
                LedIndication::VolumeLevel(self.volume)
            }
        } else {
            LedIndication::Unchanged
        };
        ControlEffect { cancel: false, debounce, leds }
    }

    /// Read one block, scale it, and drain all of it into the audio
    /// queue; paused sessions read and write nothing, which starves the
    /// hardware to silence without losing the stream position.
    ///
    /// `drain_rate` is how many samples the autonomous hardware drain
    /// consumes between two retries of a stalled burst; any positive
    /// rate keeps the spin-retry finite.
    pub fn stream_block(
        &mut self,
        streamer: &mut AudioStreamer<Mono, Initialized>,
        drain_rate: usize,
    ) -> (r: Option<ExitReason>)
        requires
            old(self).wf(),
            old(self).spec_stream().spec_open(),
            old(streamer).wf(),
            drain_rate >= 1,
        ensures
            final(self).wf(),
            final(streamer).wf(),
            final(self).spec_stream().spec_open(),
            final(self).spec_stream().spec_data() == old(self).spec_stream().spec_data(),
            final(self).spec_stream().spec_fail_reads() == old(self).spec_stream().spec_fail_reads(),
            final(self).spec_volume() == old(self).spec_volume(),
            final(self).spec_paused() == old(self).spec_paused(),
            final(self).spec_vol_led_timeout() == old(self).spec_vol_led_timeout(),
            final(self).spec_cycle() == old(self).spec_cycle(),
            final(self).spec_bytes_per_second() == old(self).spec_bytes_per_second(),
            final(streamer).spec_dac() == old(streamer).spec_dac(),
            old(self).spec_paused() ==> r is None && final(self).spec_stream().spec_pos() == old(self).spec_stream().spec_pos() && final(streamer).spec_samples() == old(streamer).spec_samples() && final(streamer).spec_pending() == old(streamer).spec_pending(),
            !old(self).spec_paused() && old(self).spec_stream().spec_fail_reads() ==> r
                == Option::Some(ExitReason::StorageFailure) && final(self).spec_stream().spec_pos()
                == old(self).spec_stream().spec_pos() && final(streamer).spec_samples() == old(streamer).spec_samples(),
            !old(self).spec_paused() && !old(self).spec_stream().spec_fail_reads() && old(self).spec_stream().spec_pos() == old(self).spec_stream().spec_data().len() ==> r
                == Option::Some(ExitReason::EndOfStream) && final(self).spec_stream().spec_pos()
                == old(self).spec_stream().spec_pos() && final(streamer).spec_samples() == old(streamer).spec_samples(),
            !old(self).spec_paused() && !old(self).spec_stream().spec_fail_reads() && old(self).spec_stream().spec_pos() < old(self).spec_stream().spec_data().len() ==> {
                let pos = old(self).spec_stream().spec_pos();
                let len = old(self).spec_stream().spec_data().len() as int;
                let n = if BLOCK_SIZE as int <= len - pos {
                    BLOCK_SIZE as int
                } else {
                    len - pos
                };
                &&& r is None
                &&& final(self).spec_stream().spec_pos() == pos + n
                &&& final(streamer).spec_samples() == old(streamer).spec_samples() + old(self).spec_stream().spec_data().subrange(pos, pos + n).map_values(
                    |b: u8| spec_scaled(b, old(self).spec_volume()),
                )
            },
    {
        if self.paused {
            return None;
        }
        // A fixed-size block buffer; the read fills its front.
        let mut buf: Vec<u8> = Vec::new();
        while buf.len() < BLOCK_SIZE
            invariant
                buf@.len() <= BLOCK_SIZE,
            decreases BLOCK_SIZE - buf@.len(),
        {
            buf.push(0);
        }
        let read = self.stream.read(&mut buf);
        match read {
            Result::Err(_) => {
                // A storage error ends the session like end-of-stream.
                Some(ExitReason::StorageFailure)
            },
            Result::Ok(n) => {
                if n == 0 {
                    // End of the track.
                    return Some(ExitReason::EndOfStream);
                }
                // Scale the block in place, then hand every byte of it
                // to the hardware, spinning while the queue backs up.
                apply_volume(&mut buf, n, self.volume);
                let ghost samples0 = streamer.spec_samples();
                let ghost block = buf@.subrange(0, n as int);
                let mut written: usize = 0;
                while written < n
                    invariant
                        streamer.wf(),
                        written <= n,
                        n <= buf@.len(),
                        drain_rate >= 1,
                        streamer.spec_dac() == old(streamer).spec_dac(),
                        streamer.spec_samples() == samples0 + buf@.subrange(0, written as int),
                    decreases n - written, streamer.spec_pending(),
                {
                    let slice = vstd::slice::slice_subrange(buf.as_slice(), written, n);
                    let w = streamer.write_samples(slice);
                    proof {
                        assert(buf@.subrange(written as int, n as int).subrange(0, w as int)
                            =~= buf@.subrange(written as int, written as int + w));
                        assert(samples0 + buf@.subrange(0, written as int) + buf@.subrange(
                            written as int,
                            written as int + w,
                        ) =~= samples0 + buf@.subrange(0, written as int + w));
                    }
                    written = written + w;
                    if written < n {
                        // The queue reported full; let the autonomous
                        // drain consume a little and try again.
                        let ghost before = *streamer;
                        streamer.drain(drain_rate);
                        proof {
                            crate::hal::audio::lemma_wid_of_state(&before, streamer);
                        }
                    }
                }
                proof {
                    assert(streamer.spec_samples() =~= samples0 + old(self).spec_stream().spec_data().subrange(
                        old(self).spec_stream().spec_pos(),
                        old(self).spec_stream().spec_pos() + n,
                    ).map_values(|b: u8| spec_scaled(b, old(self).spec_volume())));
                }
                None
            },
        }
    }

    /// One iteration of the playback loop: poll the controls, then —
    /// unless paused — stream one block, then report progress when one
    /// is due.  Cancel wins immediately; end-of-stream and storage
    /// errors surface as the exit reason; pausing starves the hardware
    /// without consuming a byte.
    pub fn playback_tick(
        &mut self,
        streamer: &mut AudioStreamer<Mono, Initialized>,
        inputs: ControlInputs,
        drain_rate: usize,
    ) -> (t: TickReport)
        requires
            old(self).wf(),
            old(self).spec_stream().spec_open(),
            old(streamer).wf(),
            drain_rate >= 1,
        ensures
            final(self).wf(),
            final(streamer).wf(),
            final(self).spec_stream().spec_open(),
            final(self).spec_stream().spec_data() == old(self).spec_stream().spec_data(),
            final(self).spec_stream().spec_fail_reads() == old(self).spec_stream().spec_fail_reads(),
            final(self).spec_bytes_per_second() == old(self).spec_bytes_per_second(),
            final(streamer).spec_dac() == old(streamer).spec_dac(),
            final(self).spec_paused() == (if inputs.pause {
                !old(self).spec_paused()
            } else {
                old(self).spec_paused()
            }),
            (t.exit == Option::Some(ExitReason::Cancelled)) <==> inputs.back,
            inputs.back ==> final(self).spec_stream().spec_pos() == old(self).spec_stream().spec_pos() && final(streamer).spec_samples() == old(streamer).spec_samples() && final(self).spec_volume() == old(self).spec_volume(),
            !inputs.back ==> final(self).spec_volume() == spec_controls_after(
                old(self).spec_volume(),
                old(self).spec_vol_led_timeout(),
                inputs,
            ).0,
            ({
                let paused_after = if inputs.pause {
                    !old(self).spec_paused()
                } else {
                    old(self).spec_paused()
                };
                let pos_mid = spec_pos_after_controls(old(self).spec_stream(), inputs);
                let len = old(self).spec_stream().spec_data().len() as int;
                let fail = old(self).spec_stream().spec_fail_reads();
                &&& (!inputs.back && paused_after) ==> t.exit is None && final(self).spec_stream().spec_pos() == pos_mid && final(streamer).spec_samples() == old(streamer).spec_samples()
                &&& (!inputs.back && !paused_after && fail) ==> t.exit == Option::Some(
                    ExitReason::StorageFailure,
                ) && final(self).spec_stream().spec_pos() == pos_mid
                &&& (!inputs.back && !paused_after && !fail && pos_mid == len) ==> t.exit
                    == Option::Some(ExitReason::EndOfStream) && final(self).spec_stream().spec_pos() == pos_mid && final(streamer).spec_samples() == old(streamer).spec_samples()
                &&& (!inputs.back && !paused_after && !fail && pos_mid < len) ==> {
                    let n = if BLOCK_SIZE as int <= len - pos_mid {
                        BLOCK_SIZE as int
                    } else {
                        len - pos_mid
                    };
                    let vol = spec_controls_after(
                        old(self).spec_volume(),
                        old(self).spec_vol_led_timeout(),
                        inputs,
                    ).0;
                    &&& t.exit is None
                    &&& final(self).spec_stream().spec_pos() == pos_mid + n
                    &&& final(streamer).spec_samples() == old(streamer).spec_samples() + old(self).spec_stream().spec_data().subrange(pos_mid, pos_mid + n).map_values(
                        |b: u8| spec_scaled(b, vol),
                    )
                }
            }),
            t.progress matches Option::Some(p) ==> p.elapsed == final(self).spec_stream().spec_pos() / old(self).spec_bytes_per_second() as int && p.total
                == old(self).spec_stream().spec_data().len() as int / old(self).spec_bytes_per_second() as int && p.playing == !final(self).spec_paused(),
            t.exit is None ==> ((t.progress is Some) <==> (inputs.pause || (!inputs.back
                && (inputs.forward || inputs.backward)) || old(self).spec_cycle() == 0)),
    {
        let effect = self.poll_controls(inputs);
        if effect.cancel {
            return TickReport {
                exit: Some(ExitReason::Cancelled),
                debounce: effect.debounce,
                leds: effect.leds,
                progress: None,
            };
        }
        let exit = self.stream_block(streamer, drain_rate);
        match exit {
            Option::Some(reason) => TickReport {
                exit: Some(reason),
                debounce: effect.debounce,
                leds: effect.leds,
                progress: None,
            },
            Option::None => {
                // Best-effort progress snapshot, once per interval.
                let progress = if self.cycle == 0 {
                    let offset = self.stream.current_offset();
                    let len = self.stream.length();
                    proof {
                        vstd::arithmetic::div_mod::lemma_div_nonincreasing(
                            offset as int,
                            self.bytes_per_second as int,
                        );
                        vstd::arithmetic::div_mod::lemma_div_nonincreasing(
                            len as int,
                            self.bytes_per_second as int,
                        );
                    }
                    let elapsed = crate::player::progress::elapsed_seconds(
                        offset,
                        self.bytes_per_second,
                    );
                    let total = crate::player::progress::elapsed_seconds(
                        len,
                        self.bytes_per_second,
                    );
                    Some(ProgressUpdate { elapsed, total, playing: !self.paused })
                } else {
                    None
                };
                self.cycle = self.cycle + 1;
                if self.cycle >= PROGRESS_INTERVAL {
                    self.cycle = 0;
                }
                TickReport { exit: None, debounce: effect.debounce, leds: effect.leds, progress }
            },
        }
    }

    /// Tear the session down: the stream handle is closed, exactly once,
    /// whatever ended the loop.
    pub fn finish(&mut self)
        ensures
            final(self).wf() == old(self).wf(),
            !final(self).spec_stream().spec_open(),
            final(self).spec_stream().spec_data() == old(self).spec_stream().spec_data(),
            final(self).spec_stream().spec_pos() == old(self).spec_stream().spec_pos(),
            final(self).spec_volume() == old(self).spec_volume(),
            final(self).spec_paused() == old(self).spec_paused(),
            final(self).spec_bytes_per_second() == old(self).spec_bytes_per_second(),
    {
        self.stream.close();
    }

    /// Drive the playback loop to its end: each iteration takes the next
    /// entry of the control script (no buttons once the script runs
    /// out), and the loop ends on end-of-stream, storage error or
    /// cancel, tearing the session down exactly once on the way out.
    /// `max_iterations` bounds the run; `None` means the bound was hit
    /// before the track ended, with the session still open.
    ///
    /// For an undisturbed run — empty script, not paused, storage
    /// healthy — the loop is guaranteed to end once the bound leaves
    /// room for every block plus the read that detects the end, and the
    /// whole remainder of the track reaches the hardware: the ensures
    /// below pin the exit to end-of-stream and the accepted samples to
    /// the volume-scaled image of every byte from the starting position
    /// to the end of the stream.
    pub fn run_playback(
        &mut self,
        streamer: &mut AudioStreamer<Mono, Initialized>,
        script: &Vec<ControlInputs>,
        drain_rate: usize,
        max_iterations: usize,
    ) -> (r: Option<ExitReason>)
        requires
            old(self).wf(),
            old(self).spec_stream().spec_open(),
            old(streamer).wf(),
            drain_rate >= 1,
        ensures
            final(self).wf(),
            final(streamer).wf(),
            final(streamer).spec_dac() == old(streamer).spec_dac(),
            final(self).spec_stream().spec_data() == old(self).spec_stream().spec_data(),
            final(self).spec_bytes_per_second() == old(self).spec_bytes_per_second(),
            script@.len() == 0 ==> final(self).spec_volume() == old(self).spec_volume()
                && final(self).spec_paused() == old(self).spec_paused(),
            r is Some ==> !final(self).spec_stream().spec_open(),
            r is None ==> final(self).spec_stream().spec_open(),
            (script@.len() == 0 && !old(self).spec_paused() && !old(self).spec_stream().spec_fail_reads()
                && max_iterations as int > (old(self).spec_stream().spec_data().len() - old(self).spec_stream().spec_pos())
                / (BLOCK_SIZE as int) + 1) ==> r is Some,
            (script@.len() == 0 && !old(self).spec_paused() && !old(self).spec_stream().spec_fail_reads() && r is Some) ==> r == Option::Some(
                ExitReason::EndOfStream,
            ) && final(self).spec_stream().spec_pos() == old(self).spec_stream().spec_data().len()
                && final(streamer).spec_samples() == old(streamer).spec_samples() + old(self).spec_stream().spec_data().subrange(
                old(self).spec_stream().spec_pos(),
                old(self).spec_stream().spec_data().len() as int,
            ).map_values(|b: u8| spec_scaled(b, old(self).spec_volume())),
    {
        let ghost data0 = self.spec_stream().spec_data();
        let ghost pos0 = self.spec_stream().spec_pos();
        let ghost samples0 = streamer.spec_samples();
        let ghost vol0 = self.spec_volume();
        let ghost paused0 = self.spec_paused();
        let ghost fail0 = self.spec_stream().spec_fail_reads();
        let ghost dac0 = streamer.spec_dac();
        let mut it: usize = 0;
        while it < max_iterations
            invariant
                self.wf(),
                self.spec_stream().spec_open(),
                streamer.wf(),
                drain_rate >= 1,
                data0 == old(self).spec_stream().spec_data(),
                pos0 == old(self).spec_stream().spec_pos(),
                samples0 == old(streamer).spec_samples(),
                vol0 == old(self).spec_volume(),
                paused0 == old(self).spec_paused(),
                fail0 == old(self).spec_stream().spec_fail_reads(),
                dac0 == old(streamer).spec_dac(),
                streamer.spec_dac() == dac0,
                self.spec_stream().spec_data() == data0,
                self.spec_stream().spec_fail_reads() == fail0,
                self.spec_bytes_per_second() == old(self).spec_bytes_per_second(),
                script@.len() == 0 ==> self.spec_volume() == vol0 && self.spec_paused()
                    == paused0,
                (script@.len() == 0 && !paused0 && !fail0) ==> !self.spec_paused()
                    && self.spec_volume() == vol0 && 0 <= pos0 <= self.spec_stream().spec_pos()
                    && streamer.spec_samples() == samples0 + data0.subrange(
                    pos0,
                    self.spec_stream().spec_pos(),
                ).map_values(|b: u8| spec_scaled(b, vol0)),
                (script@.len() == 0 && !paused0 && !fail0) ==> (self.spec_stream().spec_pos()
                    >= pos0 + it * (BLOCK_SIZE as int) || self.spec_stream().spec_pos()
                    == data0.len()),
                (script@.len() == 0 && !paused0 && !fail0 && self.spec_stream().spec_pos()
                    == data0.len()) ==> data0.len() - pos0 > (it - 1) * (BLOCK_SIZE as int),
            decreases max_iterations - it,
        {
            let inputs = if it < script.len() {
                script[it]
            } else {
                ControlInputs::none()
            };
            let ghost pos_before = self.spec_stream().spec_pos();
            let t = self.playback_tick(streamer, inputs, drain_rate);
            proof {
                if script@.len() == 0 {
                    assert(!inputs.pause && !inputs.back && !inputs.forward && !inputs.backward
                        && !inputs.vol_up && !inputs.vol_down);
                    assert(forall|tm: u32|
                        #[trigger] spec_controls_after(vol0, tm, inputs).0 == vol0);
                }
                if script@.len() == 0 && !paused0 && !fail0 {
                    assert(pos_before <= self.spec_stream().spec_pos() <= data0.len());
                    assert(streamer.spec_samples() == samples0 + data0.subrange(
                        pos0,
                        pos_before,
                    ).map_values(|b: u8| spec_scaled(b, vol0)) + data0.subrange(
                        pos_before,
                        self.spec_stream().spec_pos(),
                    ).map_values(|b: u8| spec_scaled(b, vol0)));
                    crate::player::volume::lemma_scaled_concat(
                        data0,
                        pos0,
                        pos_before,
                        self.spec_stream().spec_pos(),
                        vol0,
                    );
                    assert(samples0 + data0.subrange(pos0, pos_before).map_values(
                        |b: u8| spec_scaled(b, vol0),
                    ) + data0.subrange(pos_before, self.spec_stream().spec_pos()).map_values(
                        |b: u8| spec_scaled(b, vol0),
                    ) =~= samples0 + data0.subrange(pos0, self.spec_stream().spec_pos()).map_values(
                        |b: u8| spec_scaled(b, vol0),
                    ));
                }
            }
            match t.exit {
                Option::Some(reason) => {
                    self.finish();
                    return Some(reason);
                },
                Option::None => {},
            }
            it = it + 1;
        }
        proof {
            // An undisturbed run cannot exhaust a bound that leaves
            // room for every block plus the read that detects the end:
            // each iteration either returned or moved the cursor a full
            // block forward (or onto the end), so the cursor would have
            // to stand past the end of the track.
            if script@.len() == 0 && !paused0 && !fail0 && max_iterations as int > (data0.len()
                - pos0) / (BLOCK_SIZE as int) + 1 {
                let d = data0.len() - pos0;
                let b = BLOCK_SIZE as int;
                vstd::arithmetic::div_mod::lemma_fundamental_div_mod(d, b);
                assert(max_iterations as int >= d / b + 2);
                assert((d / b + 2) * b == (d / b) * b + 2 * b);
                assert(max_iterations as int * b >= (d / b + 2) * b)
                    by (nonlinear_arith)
                    requires
                        max_iterations as int >= d / b + 2,
                        b > 0,
                ;
                assert(false);
            }
        }
        None
    }
}

} // verus!
