//! The frame processor: playback state on the wall clock, and the step
//! from a decoded frame to the tiles that show it.
//!
//! The processor does not own the frame source. At each display tick the
//! driver calls `poll_frame` with the timestamp of the source's next frame;
//! while the answer is `Poll::Decode` it pulls one frame from the source,
//! hands it to `feed`, and polls again.

use crate::playback::{
    clip_at, cue_clip, cue_due, cue_recorded, elapsed_in, halted, pace, resumed, started,
    AudioCues, FramePacer, Phase, PlaybackClock, PollAction,
};
use crate::palette::FIRST_SELECTABLE;
use crate::quantizer::{quantized, selectable_only, ColourTable};
use crate::tiles::{pack, packed, packed_cell, TILE_AREA};
use crate::util::Colour;
use std::time::{Duration, Instant};
use vstd::prelude::*;

verus! {

/// A point on the machine's monotonic clock. Opaque to the proofs.
#[verifier::external_type_specification]
#[verifier::external_body]
pub struct ExInstant(std::time::Instant);

/// `Instant::now`. Trusted to return; nothing is claimed of the reading.
#[verifier::external_body]
fn clock_reading() -> (reading: Instant) {
    Instant::now()
}

/// `Instant::elapsed`. Trusted to return; nothing is claimed of the span.
#[verifier::external_body]
fn time_since(origin: &Instant) -> (span: Duration) {
    origin.elapsed()
}

/// `Duration::as_nanos`. Trusted to return; nothing is claimed of the
/// number.
#[verifier::external_body]
fn whole_nanos(span: &Duration) -> (nanos: u128) {
    span.as_nanos()
}

/// A decoded frame: its pixels in row-major order and its presentation
/// timestamp in nanoseconds since the start of the stream.
#[derive(Debug)]
pub struct Frame {
    pub pixels: Vec<Colour>,
    pub time: u64,
}

/// Tiles made from selectable palette indices hold no reserved index:
/// every cell is a pixel's index or black.
pub proof fn lemma_tiles_hold_no_reserved_index(
    indices: Seq<u8>,
    width: int,
    height: int,
    tile: int,
    cell: int,
)
    requires
        selectable_only(indices),
        0 <= tile < packed(indices, width, height).len(),
        0 <= cell < TILE_AREA,
    ensures
        packed(indices, width, height)[tile][cell] >= FIRST_SELECTABLE,
{
    assert(packed(indices, width, height)[tile][cell] == packed_cell(
        indices,
        width,
        height,
        tile,
        cell,
    ));
}

/// The tiles that show `pixels` at the given resolution: every pixel
/// classified by `table`, then laid onto the tile grid.
pub fn render(table: &ColourTable, pixels: &Vec<Colour>, width: u32, height: u32) -> (tiles: Vec<
    Vec<u8>,
>)
    ensures
        tiles.deep_view() == packed(quantized(table@, pixels@), width as int, height as int),
        forall|tile: int, cell: int|
            0 <= tile < tiles.deep_view().len() && 0 <= cell < TILE_AREA
                ==> #[trigger] tiles.deep_view()[tile][cell] >= FIRST_SELECTABLE,
{
    let indices = table.quantize(pixels);
    let tiles = pack(&indices, width, height);
    assert forall|tile: int, cell: int|
        0 <= tile < tiles.deep_view().len() && 0 <= cell < TILE_AREA
        implies #[trigger] tiles.deep_view()[tile][cell] >= FIRST_SELECTABLE by {
        lemma_tiles_hold_no_reserved_index(indices@, width as int, height as int, tile, cell);
    }
    tiles
}

/// What a display tick yields.
#[derive(Debug)]
pub enum Poll {
    /// Nothing to show at this tick, and nothing to pull.
    NotYetDue,
    /// The source's next frame is due: pull it, feed it in, poll again.
    Decode,
    /// The tiles of the frame to show, in row-major order of the grid.
    Frame(Vec<Vec<u8>>),
    /// The stream has ended and nothing is left to show.
    Finished,
}

/// The processor's state as the contracts see it.
pub struct ProcessorState {
    pub phase: Phase,
    pub held: Option<u64>,
    pub exhausted: bool,
    pub last_played: Option<usize>,
    pub clip_length: usize,
    pub pixels: Seq<Colour>,
    pub table: Seq<u8>,
    pub width: u32,
    pub height: u32,
}

impl ProcessorState {
    /// The state after a start command at clock reading `now`.
    pub open spec fn after_start(self, now: u64) -> ProcessorState {
        ProcessorState { phase: started(self.phase, now), ..self }
    }

    /// The state after a pause command at clock reading `now`.
    pub open spec fn after_pause(self, now: u64) -> ProcessorState {
        ProcessorState { phase: halted(self.phase, now), ..self }
    }

    /// The state after an unpause command at clock reading `now`.
    pub open spec fn after_unpause(self, now: u64) -> ProcessorState {
        ProcessorState { phase: resumed(self.phase, now), ..self }
    }

    /// The clip that plays at clock reading `now`.
    pub open spec fn clip(self, now: u64) -> usize {
        clip_at(elapsed_in(self.phase, now), self.clip_length)
    }

    /// What an audio poll at clock reading `now` returns.
    pub open spec fn cue(self, now: u64) -> (bool, usize) {
        (cue_due(self.last_played, self.clip(now)), cue_clip(self.last_played, self.clip(now)))
    }

    /// The state after an audio poll at clock reading `now`.
    pub open spec fn after_cue(self, now: u64) -> ProcessorState {
        ProcessorState { last_played: cue_recorded(self.last_played, self.clip(now)), ..self }
    }

    /// What a frame poll at clock reading `now` decides.
    pub open spec fn action(self, now: u64, upcoming: u64) -> PollAction {
        pace(
            self.held,
            self.exhausted,
            self.phase is Running,
            elapsed_in(self.phase, now),
            upcoming,
        ).0
    }

    /// The state after a frame poll at clock reading `now`.
    pub open spec fn after_poll(self, now: u64, upcoming: u64) -> ProcessorState {
        ProcessorState {
            held: pace(
                self.held,
                self.exhausted,
                self.phase is Running,
                elapsed_in(self.phase, now),
                upcoming,
            ).1,
            ..self
        }
    }

    /// The state after the source's answer to a `Decode` was fed in.
    pub open spec fn after_feed(self, frame: Option<(Seq<Colour>, u64)>) -> ProcessorState {
        if self.exhausted {
            self
        } else {
            match frame {
                Some((pixels, time)) => ProcessorState { held: Some(time), pixels, ..self },
                None => ProcessorState { exhausted: true, ..self },
            }
        }
    }

    /// The tiles of the frame that was fed in last.
    pub open spec fn tiles(self) -> Seq<Seq<u8>> {
        packed(quantized(self.table, self.pixels), self.width as int, self.height as int)
    }

    /// `outcome` is what a frame poll deciding `action` hands out.
    pub open spec fn yields(self, action: PollAction, outcome: Poll) -> bool {
        match action {
            PollAction::NotYetDue => outcome is NotYetDue,
            PollAction::Decode => outcome is Decode,
            PollAction::Finished => outcome is Finished,
            PollAction::Present => outcome is Frame && outcome->Frame_0.deep_view()
                == self.tiles(),
        }
    }
}

/// Playback of one stream at a fixed resolution: the clock, the audio cue
/// schedule, the frame in hand and the colour table.
pub struct FrameProcessor {
    table: ColourTable,
    width: u32,
    height: u32,
    origin: Instant,
    clock: PlaybackClock,
    cues: AudioCues,
    pacer: FramePacer,
    pixels: Vec<Colour>,
}

impl View for FrameProcessor {
    type V = ProcessorState;

    closed spec fn view(&self) -> ProcessorState {
        ProcessorState {
            phase: self.clock@,
            held: self.pacer.held(),
            exhausted: self.pacer.exhausted(),
            last_played: self.cues.last_played(),
            clip_length: self.cues.clip_length(),
            pixels: self.pixels@,
            table: self.table@,
            width: self.width,
            height: self.height,
        }
    }
}

impl FrameProcessor {
    /// A processor for frames of `width` by `height` pixels and audio clips
    /// of `audio_clip_length` seconds. Playback has not started.
    pub fn new(table: ColourTable, width: u32, height: u32, audio_clip_length: usize) -> (processor:
        FrameProcessor)
        requires
            audio_clip_length > 0,
        ensures
            processor@ == (ProcessorState {
                phase: Phase::NotStarted,
                held: None,
                exhausted: false,
                last_played: None,
                clip_length: audio_clip_length,
                pixels: Seq::empty(),
                table: table@,
                width,
                height,
            }),
    {
        FrameProcessor {
            table,
            width,
            height,
            origin: clock_reading(),
            clock: PlaybackClock::new(),
            cues: AudioCues::new(audio_clip_length),
            pacer: FramePacer::new(),
            pixels: Vec::new(),
        }
    }

    /// Width of the frames, in pixels.
    pub fn width(&self) -> (width: u32)
        ensures
            width == self@.width,
    {
        self.width
    }

    /// Height of the frames, in pixels.
    pub fn height(&self) -> (height: u32)
        ensures
            height == self@.height,
    {
        self.height
    }

    /// Whether no frames advance: playback was never started or is halted.
    pub fn paused(&self) -> (paused: bool)
        ensures
            paused == !(self@.phase is Running),
    {
        !self.clock.is_running()
    }

    /// The clock reading: nanoseconds since the processor was made, at
    /// most `u64::MAX`.
    fn now(&self) -> (now: u64) {
        let span = time_since(&self.origin);
        clock_nanos(whole_nanos(&span))
    }

    /// Playback time now, in nanoseconds: zero before the first start,
    /// frozen while playback is halted.
    pub fn elapsed(&self) -> (elapsed: u64)
        ensures
            self@.phase is NotStarted ==> elapsed == 0,
            self@.phase matches Phase::Paused { elapsed: frozen } ==> elapsed == frozen,
            exists|now: u64| elapsed == #[trigger] elapsed_in(self@.phase, now),
    {
        let now = self.now();
        self.clock.elapsed(now)
    }

    /// Starts or resumes playback. Returns whether this was the first
    /// start; a later start only resumes, and playback time is not reset.
    pub fn start(&mut self) -> (first: bool)
        ensures
            first == (old(self)@.phase is NotStarted),
            final(self)@.phase is Running,
            exists|now: u64| final(self)@ == #[trigger] old(self)@.after_start(now),
    {
        let now = self.now();
        let first = self.clock.start(now);
        assert(self@ == old(self)@.after_start(now));
        first
    }

    /// Halts playback, keeping the playback time reached.
    pub fn pause(&mut self)
        ensures
            !(final(self)@.phase is Running),
            exists|now: u64| final(self)@ == #[trigger] old(self)@.after_pause(now),
    {
        let now = self.now();
        self.clock.pause(now);
        assert(self@ == old(self)@.after_pause(now));
    }

    /// Takes halted playback up again. Playback that never started stays
    /// so: only `start` starts it.
    pub fn unpause(&mut self)
        ensures
            final(self)@.phase is NotStarted <==> old(self)@.phase is NotStarted,
            final(self)@.phase is Running <==> !(old(self)@.phase is NotStarted),
            exists|now: u64| final(self)@ == #[trigger] old(self)@.after_unpause(now),
    {
        let now = self.now();
        self.clock.resume(now);
        assert(self@ == old(self)@.after_unpause(now));
    }

    /// Polls the audio cue schedule. Returns whether a clip is to be played
    /// now, and which. The first poll cues clip 0; after that a clip is
    /// cued once, when playback time first reaches or passes its start.
    pub fn should_play_audio(&mut self) -> (cue: (bool, usize))
        ensures
            old(self)@.last_played is None ==> cue == (true, 0usize),
            cue.0 ==> final(self)@.last_played == Some(cue.1),
            !cue.0 ==> cue.1 == 0 && final(self)@ == old(self)@,
            exists|now: u64|
                cue == #[trigger] old(self)@.cue(now) && final(self)@ == old(self)@.after_cue(now),
    {
        let now = self.now();
        let elapsed = self.clock.elapsed(now);
        let cue = self.cues.poll(elapsed);
        assert(cue == old(self)@.cue(now) && self@ == old(self)@.after_cue(now));
        cue
    }

    /// Decides what this display tick shows, given the timestamp of the
    /// frame that the source would produce next. A frame is shown when it
    /// is the latest one that is due and it is not behind by more than the
    /// slack; it is handed out as tiles. Once the stream has ended and
    /// nothing is left in hand, every poll reports the end, whether
    /// playback runs or not; short of that, no frame advances while
    /// playback is halted.
    pub fn poll_frame(&mut self, upcoming: u64) -> (outcome: Poll)
        ensures
            old(self)@.exhausted && old(self)@.held is None ==> outcome is Finished
                && final(self)@ == old(self)@,
            outcome is Finished ==> old(self)@.exhausted && final(self)@.held is None,
            !(old(self)@.phase is Running) && !(old(self)@.exhausted && old(self)@.held is None)
                ==> outcome is NotYetDue && final(self)@ == old(self)@,
            exists|now: u64|
                old(self)@.yields(#[trigger] old(self)@.action(now, upcoming), outcome)
                    && final(self)@ == old(self)@.after_poll(now, upcoming),
    {
        let now = self.now();
        let elapsed = self.clock.elapsed(now);
        let running = self.clock.is_running();
        let action = self.pacer.poll(running, elapsed, upcoming);
        let outcome = match action {
            PollAction::NotYetDue => Poll::NotYetDue,
            PollAction::Decode => Poll::Decode,
            PollAction::Finished => Poll::Finished,
            PollAction::Present => Poll::Frame(
                render(&self.table, &self.pixels, self.width, self.height),
            ),
        };
        assert(action == old(self)@.action(now, upcoming));
        outcome
    }

    /// Takes in the source's answer to a `Decode`: the next frame, which
    /// replaces the frame in hand, or `None` at the end of the stream.
    /// Ignored once the end of the stream was fed in.
    pub fn feed(&mut self, frame: Option<Frame>)
        ensures
            final(self)@ == old(self)@.after_feed(
                match frame {
                    Some(f) => Some((f.pixels@, f.time)),
                    None => None,
                },
            ),
    {
        if self.pacer.is_exhausted() {
            return ;
        }
        match frame {
            Some(f) => {
                self.pacer.feed(Some(f.time));
                self.pixels = f.pixels;
            },
            None => {
                self.pacer.feed(None);
            },
        }
    }
}

/// A span of `nanos` nanoseconds as a clock reading: the same number,
/// held at `u64::MAX` where it would not fit.
pub open spec fn reading_of(nanos: u128) -> u64 {
    if nanos > u64::MAX {
        u64::MAX
    } else {
        nanos as u64
    }
}

/// Turns a span in nanoseconds into a clock reading.
pub fn clock_nanos(nanos: u128) -> (reading: u64)
    ensures
        reading == reading_of(nanos),
{
    if nanos > u64::MAX as u128 {
        u64::MAX
    } else {
        nanos as u64
    }
}

} // verus!
