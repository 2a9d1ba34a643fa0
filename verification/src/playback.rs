//! Playback pacing on plain values: the playback clock, the choice of the
//! frame to show at a tick, and the audio cue schedule.
//!
//! Times are nanoseconds. `now` is a reading of any monotonic clock;
//! `elapsed` is playback time: the time spent running since the first
//! start. A pause freezes playback time, and a later start or unpause
//! takes it up where it stood.
//!
//! A frame is due once playback time has reached its timestamp. At each
//! tick the frames that are due are pulled from the source one by one, each
//! replacing the one before; the last of them is shown, unless it lies
//! more than `FRAME_SLACK` behind playback time, in which case it is
//! dropped as well. A frame that is not due yet is never pulled. While
//! playback is halted no frame advances; the end of the stream, once
//! nothing is left in hand, is reported all the same.

use vstd::prelude::*;

verus! {

/// Nanoseconds in a second.
pub const NANOS_PER_SECOND: u64 = 1_000_000_000;

/// How far behind playback time a frame may be and still be shown.
pub const FRAME_SLACK: u64 = 50_000_000;

/// Where playback stands.
#[derive(Clone, Copy, Debug, PartialEq, Eq, Structural)]
pub enum Phase {
    /// No start command has arrived yet.
    NotStarted,
    /// Playing since clock reading `since`, with `carried` nanoseconds of
    /// playback time from before that.
    Running { since: u64, carried: u64 },
    /// Halted with `elapsed` nanoseconds of playback time.
    Paused { elapsed: u64 },
}

/// Playback time in `phase` when the clock reads `now`.
pub open spec fn elapsed_in(phase: Phase, now: u64) -> u64 {
    match phase {
        Phase::NotStarted => 0,
        Phase::Running { since, carried } => if now < since {
            carried
        } else if carried + (now - since) > u64::MAX {
            u64::MAX
        } else {
            (carried + (now - since)) as u64
        },
        Phase::Paused { elapsed } => elapsed,
    }
}

/// The phase after a start command at clock reading `now`.
pub open spec fn started(phase: Phase, now: u64) -> Phase {
    match phase {
        Phase::NotStarted => Phase::Running { since: now, carried: 0 },
        Phase::Running { .. } => phase,
        Phase::Paused { elapsed } => Phase::Running { since: now, carried: elapsed },
    }
}

/// The phase after an unpause command at clock reading `now`: playback
/// that was halted goes on; playback that never started stays so.
pub open spec fn resumed(phase: Phase, now: u64) -> Phase {
    match phase {
        Phase::Paused { elapsed } => Phase::Running { since: now, carried: elapsed },
        _ => phase,
    }
}

/// The phase after a pause command at clock reading `now`.
pub open spec fn halted(phase: Phase, now: u64) -> Phase {
    match phase {
        Phase::Running { .. } => Phase::Paused { elapsed: elapsed_in(phase, now) },
        _ => phase,
    }
}

/// After a start command playback runs, so a second start command never
/// signals a first start, whenever it comes, and changes nothing.
pub proof fn lemma_start_signals_once(phase: Phase, first: u64, second: u64)
    ensures
        started(phase, first) is Running,
        !(started(phase, first) is NotStarted),
        started(started(phase, first), second) == started(phase, first),
{
}

/// A pause freezes playback time, and the next start takes it up where it
/// stood.
pub proof fn lemma_pause_freezes(phase: Phase, pause_at: u64, later: u64, resume_at: u64)
    requires
        phase is Running,
    ensures
        elapsed_in(halted(phase, pause_at), later) == elapsed_in(phase, pause_at),
        elapsed_in(started(halted(phase, pause_at), resume_at), resume_at) == elapsed_in(
            phase,
            pause_at,
        ),
{
}

/// While running without a pause, playback time is the clock time since
/// the first start.
pub proof fn lemma_elapsed_since_start(start_at: u64, now: u64)
    requires
        start_at <= now,
    ensures
        elapsed_in(started(Phase::NotStarted, start_at), now) == now - start_at,
{
}

/// The playback clock: a three-state machine driven by start and pause
/// commands.
pub struct PlaybackClock {
    phase: Phase,
}

impl View for PlaybackClock {
    type V = Phase;

    closed spec fn view(&self) -> Phase {
        self.phase
    }
}

impl PlaybackClock {
    /// A clock that has not been started.
    pub fn new() -> (clock: PlaybackClock)
        ensures
            clock@ == Phase::NotStarted,
    {
        PlaybackClock { phase: Phase::NotStarted }
    }

    /// The clock's phase.
    pub fn phase(&self) -> (phase: Phase)
        ensures
            phase == self@,
    {
        self.phase
    }

    /// Whether frames advance.
    pub fn is_running(&self) -> (running: bool)
        ensures
            running == (self@ is Running),
    {
        match self.phase {
            Phase::Running { .. } => true,
            _ => false,
        }
    }

    /// Whether a start command has ever arrived.
    pub fn has_started(&self) -> (yes: bool)
        ensures
            yes == !(self@ is NotStarted),
    {
        match self.phase {
            Phase::NotStarted => false,
            _ => true,
        }
    }

    /// Starts or resumes playback at clock reading `now`. Returns whether
    /// this was the first start.
    pub fn start(&mut self, now: u64) -> (first: bool)
        ensures
            first == (old(self)@ is NotStarted),
            final(self)@ == started(old(self)@, now),
    {
        match self.phase {
            Phase::NotStarted => {
                self.phase = Phase::Running { since: now, carried: 0 };
                true
            },
            Phase::Running { .. } => false,
            Phase::Paused { elapsed } => {
                self.phase = Phase::Running { since: now, carried: elapsed };
                false
            },
        }
    }

    /// Takes halted playback up again at clock reading `now`. Does nothing
    /// unless the clock is paused.
    pub fn resume(&mut self, now: u64)
        ensures
            final(self)@ == resumed(old(self)@, now),
    {
        match self.phase {
            Phase::Paused { elapsed } => {
                self.phase = Phase::Running { since: now, carried: elapsed };
            },
            _ => {},
        }
    }

    /// Halts playback at clock reading `now`, keeping the playback time
    /// reached. Does nothing unless the clock is running.
    pub fn pause(&mut self, now: u64)
        ensures
            final(self)@ == halted(old(self)@, now),
    {
        match self.phase {
            Phase::Running { .. } => {
                let elapsed = self.elapsed(now);
                self.phase = Phase::Paused { elapsed };
            },
            _ => {},
        }
    }

    /// Playback time at clock reading `now`.
    pub fn elapsed(&self, now: u64) -> (elapsed: u64)
        ensures
            elapsed == elapsed_in(self@, now),
    {
        match self.phase {
            Phase::NotStarted => 0,
            Phase::Running { since, carried } => if now < since {
                carried
            } else {
                carried.saturating_add(now - since)
            },
            Phase::Paused { elapsed } => elapsed,
        }
    }
}

/// What the driver does next at a tick.
#[derive(Clone, Copy, Debug, PartialEq, Eq, Structural)]
pub enum PollAction {
    /// Nothing to show at this tick, and nothing to pull.
    NotYetDue,
    /// Pull the next frame from the source and feed it in.
    Decode,
    /// Show the frame that was fed in last.
    Present,
    /// The source is exhausted and nothing is left to show.
    Finished,
}

/// A frame with this timestamp may be shown at playback time `elapsed`.
pub open spec fn is_due(frame_time: u64, elapsed: u64) -> bool {
    frame_time <= elapsed
}

/// A frame with this timestamp is too far behind `elapsed` to be shown.
pub open spec fn is_stale(frame_time: u64, elapsed: u64) -> bool {
    frame_time + FRAME_SLACK < elapsed
}

/// The action at a tick, and the timestamp of the frame kept in hand
/// after it. `held` is the timestamp of the frame in hand, `upcoming` the
/// timestamp of the frame that the source would produce next.
pub open spec fn pace(
    held: Option<u64>,
    exhausted: bool,
    running: bool,
    elapsed: u64,
    upcoming: u64,
) -> (PollAction, Option<u64>) {
    if exhausted && held is None {
        (PollAction::Finished, None)
    } else if !running {
        (PollAction::NotYetDue, held)
    } else if !exhausted && is_due(upcoming, elapsed) {
        (PollAction::Decode, held)
    } else if held is Some && !is_due(held->0, elapsed) {
        (PollAction::NotYetDue, held)
    } else if held is Some && !is_stale(held->0, elapsed) {
        (PollAction::Present, None)
    } else if exhausted {
        (PollAction::Finished, None)
    } else {
        (PollAction::NotYetDue, None)
    }
}

/// The frame in hand and the source's state after a frame, or the end of
/// the stream, was fed in.
pub open spec fn fed(held: Option<u64>, exhausted: bool, frame_time: Option<u64>) -> (
    Option<u64>,
    bool,
) {
    if exhausted {
        (held, true)
    } else if frame_time is Some {
        (frame_time, false)
    } else {
        (held, true)
    }
}

/// The frame shown is the most recent one whose time has come: it is due,
/// it is within the slack, and the source has no other due frame.
pub proof fn lemma_present_is_latest_due(
    held: Option<u64>,
    exhausted: bool,
    running: bool,
    elapsed: u64,
    upcoming: u64,
)
    requires
        pace(held, exhausted, running, elapsed, upcoming).0 == PollAction::Present,
    ensures
        running,
        held is Some,
        is_due(held->0, elapsed),
        !is_stale(held->0, elapsed),
        exhausted || !is_due(upcoming, elapsed),
        pace(held, exhausted, running, elapsed, upcoming).1 is None,
{
}

/// A tick asks the source for a frame exactly when playback runs, the
/// source has not ended and its next frame is due. With nothing in hand
/// and the next frame still ahead, the tick ends as not yet due.
pub proof fn lemma_source_untouched_until_due(
    held: Option<u64>,
    exhausted: bool,
    running: bool,
    elapsed: u64,
    upcoming: u64,
)
    ensures
        pace(held, exhausted, running, elapsed, upcoming).0 == PollAction::Decode <==> running
            && !exhausted && is_due(upcoming, elapsed),
        held is None && !exhausted && running && !is_due(upcoming, elapsed) ==> pace(
            held,
            exhausted,
            running,
            elapsed,
            upcoming,
        ) == (PollAction::NotYetDue, None::<u64>),
{
}

/// Once a tick reports the end, every later tick does, whether playback
/// runs or is halted, and whatever is fed in or asked.
pub proof fn lemma_finished_is_permanent(
    held: Option<u64>,
    exhausted: bool,
    running: bool,
    elapsed: u64,
    upcoming: u64,
    offered: Option<u64>,
    later_running: bool,
    later: u64,
    later_upcoming: u64,
)
    requires
        pace(held, exhausted, running, elapsed, upcoming).0 == PollAction::Finished,
    ensures
        exhausted,
        pace(held, exhausted, running, elapsed, upcoming).1 is None,
        fed(None, exhausted, offered) == (None::<u64>, true),
        pace(None, true, later_running, later, later_upcoming) == (
            PollAction::Finished,
            None::<u64>,
        ),
{
}

/// The end of the stream is told apart from waiting in every phase: with
/// the source ended and nothing in hand a tick reports the end, and a tick
/// reports the end only when the source has ended.
pub proof fn lemma_end_is_reported(
    held: Option<u64>,
    exhausted: bool,
    running: bool,
    elapsed: u64,
    upcoming: u64,
)
    ensures
        exhausted && held is None ==> pace(held, exhausted, running, elapsed, upcoming) == (
            PollAction::Finished,
            None::<u64>,
        ),
        pace(held, exhausted, running, elapsed, upcoming).0 == PollAction::Finished ==> exhausted,
        !running && !(exhausted && held is None) ==> pace(
            held,
            exhausted,
            running,
            elapsed,
            upcoming,
        ) == (PollAction::NotYetDue, held),
{
}

/// Chooses, tick by tick, which decoded frame to show.
pub struct FramePacer {
    held: Option<u64>,
    exhausted: bool,
}

impl FramePacer {
    /// Timestamp of the frame in hand, if any.
    pub closed spec fn held(&self) -> Option<u64> {
        self.held
    }

    /// Whether the source has reported its end.
    pub closed spec fn exhausted(&self) -> bool {
        self.exhausted
    }

    /// A pacer with no frame in hand and a fresh source.
    pub fn new() -> (pacer: FramePacer)
        ensures
            pacer.held() is None,
            !pacer.exhausted(),
    {
        FramePacer { held: None, exhausted: false }
    }

    /// Timestamp of the frame in hand, if any.
    pub fn held_time(&self) -> (held: Option<u64>)
        ensures
            held == self.held(),
    {
        self.held
    }

    /// Whether the source has reported its end.
    pub fn is_exhausted(&self) -> (exhausted: bool)
        ensures
            exhausted == self.exhausted(),
    {
        self.exhausted
    }

    /// Decides what to do at a tick with playback time `elapsed`, when the
    /// source's next frame has timestamp `upcoming`.
    pub fn poll(&mut self, running: bool, elapsed: u64, upcoming: u64) -> (action: PollAction)
        ensures
            (action, final(self).held()) == pace(
                old(self).held(),
                old(self).exhausted(),
                running,
                elapsed,
                upcoming,
            ),
            final(self).exhausted() == old(self).exhausted(),
    {
        if self.exhausted && self.held.is_none() {
            return PollAction::Finished;
        }
        if !running {
            return PollAction::NotYetDue;
        }
        if !self.exhausted && upcoming <= elapsed {
            return PollAction::Decode;
        }
        match self.held {
            Some(time) => {
                if time > elapsed {
                    return PollAction::NotYetDue;
                }
                self.held = None;
                if elapsed - time <= FRAME_SLACK {
                    return PollAction::Present;
                }
            },
            None => {},
        }
        if self.exhausted {
            PollAction::Finished
        } else {
            PollAction::NotYetDue
        }
    }

    /// Takes in what the source produced after a `Decode`: the timestamp of
    /// a frame, which replaces the frame in hand, or `None` at the end of
    /// the stream. Ignored once the source has reported its end.
    pub fn feed(&mut self, frame_time: Option<u64>)
        ensures
            (final(self).held(), final(self).exhausted()) == fed(
                old(self).held(),
                old(self).exhausted(),
                frame_time,
            ),
    {
        if self.exhausted {
            return ;
        }
        match frame_time {
            Some(time) => {
                self.held = Some(time);
            },
            None => {
                self.exhausted = true;
            },
        }
    }
}

/// Index of the clip that plays at playback time `elapsed`, for clips of
/// `clip_length` seconds.
pub open spec fn clip_at(elapsed: u64, clip_length: usize) -> usize {
    let clip = elapsed as int / NANOS_PER_SECOND as int / clip_length as int;
    if clip > usize::MAX {
        usize::MAX
    } else {
        clip as usize
    }
}

/// Whether a cue is due when clip `current` plays and `last` was cued last.
pub open spec fn cue_due(last: Option<usize>, current: usize) -> bool {
    last is None || current > last->0
}

/// The clip to cue, or 0 when none is due.
pub open spec fn cue_clip(last: Option<usize>, current: usize) -> usize {
    if last is Some && current > last->0 {
        current
    } else {
        0
    }
}

/// The clip cued last, after a poll.
pub open spec fn cue_recorded(last: Option<usize>, current: usize) -> Option<usize> {
    if last is None {
        Some(0usize)
    } else if current > last->0 {
        Some(current)
    } else {
        last
    }
}

/// Once the first poll has been made, a poll leaves the schedule such
/// that a further poll at the same or an earlier clip cues nothing and
/// changes nothing: no clip is cued twice.
pub proof fn lemma_cue_once(last: Option<usize>, current: usize, again: usize)
    requires
        last is Some,
        again <= current,
    ensures
        !cue_due(cue_recorded(last, current), again),
        cue_clip(cue_recorded(last, current), again) == 0,
        cue_recorded(cue_recorded(last, current), again) == cue_recorded(last, current),
{
}

/// The very first poll cues clip 0, whatever the time.
pub proof fn lemma_first_cue(current: usize)
    ensures
        cue_due(None, current),
        cue_clip(None, current) == 0,
        cue_recorded(None, current) == Some(0usize),
{
}

/// A cue that comes after the first names the clip that plays now, and
/// that clip lies beyond every clip cued before, however many clips went
/// by unpolled.
pub proof fn lemma_cue_jumps(last: Option<usize>, current: usize)
    requires
        last is Some,
        cue_due(last, current),
    ensures
        cue_clip(last, current) == current,
        cue_recorded(last, current) == Some(current),
        current > last->0,
{
}

/// Decides when to cue the next audio clip.
pub struct AudioCues {
    clip_length: usize,
    last_played: Option<usize>,
}

impl AudioCues {
    #[verifier::type_invariant]
    closed spec fn wf(self) -> bool {
        self.clip_length > 0
    }

    /// Length of a clip, in seconds.
    pub closed spec fn clip_length(&self) -> usize {
        self.clip_length
    }

    /// The clip cued last, if any.
    pub closed spec fn last_played(&self) -> Option<usize> {
        self.last_played
    }

    /// A schedule for clips of `clip_length` seconds, with nothing cued yet.
    pub fn new(clip_length: usize) -> (cues: AudioCues)
        requires
            clip_length > 0,
        ensures
            cues.clip_length() == clip_length,
            cues.last_played() is None,
    {
        AudioCues { clip_length, last_played: None }
    }

    /// Index of the clip that plays at playback time `elapsed`.
    pub fn clip_index(&self, elapsed: u64) -> (clip: usize)
        ensures
            clip == clip_at(elapsed, self.clip_length()),
    {
        proof {
            use_type_invariant(self);
        }
        let clip: u64 = elapsed / NANOS_PER_SECOND / (self.clip_length as u64);
        if clip > usize::MAX as u64 {
            usize::MAX
        } else {
            clip as usize
        }
    }

    /// Polls the schedule at playback time `elapsed`. Returns whether a
    /// clip is to be played now, and which; the index is 0 when none is.
    pub fn poll(&mut self, elapsed: u64) -> (cue: (bool, usize))
        ensures
            cue.0 == cue_due(old(self).last_played(), clip_at(elapsed, old(self).clip_length())),
            cue.1 == cue_clip(old(self).last_played(), clip_at(elapsed, old(self).clip_length())),
            final(self).last_played() == cue_recorded(
                old(self).last_played(),
                clip_at(elapsed, old(self).clip_length()),
            ),
            final(self).clip_length() == old(self).clip_length(),
    {
        proof {
            use_type_invariant(&*self);
        }
        let current = self.clip_index(elapsed);
        match self.last_played {
            None => {
                self.last_played = Some(0);
                (true, 0)
            },
            Some(last) => {
                if current > last {
                    self.last_played = Some(current);
                    (true, current)
                } else {
                    (false, 0)
                }
            },
        }
    }
}

} // verus!
