use mcvideo::playback::{AudioCues, FramePacer, Phase, PlaybackClock, PollAction, FRAME_SLACK, NANOS_PER_SECOND};

const MS: u64 = 1_000_000;
const SEC: u64 = 1_000_000_000;

/// A frame source over a list of timestamps, with the bookkeeping a driver
/// does around the pacer.
struct Feed {
    times: Vec<u64>,
    cursor: usize,
}

impl Feed {
    fn new(times_ms: &[u64]) -> Feed {
        Feed { times: times_ms.iter().map(|t| t * MS).collect(), cursor: 0 }
    }

    fn upcoming(&self) -> u64 {
        match self.times.get(self.cursor) {
            Some(&t) => t,
            None => self.times.last().map_or(0, |t| t + 33 * MS),
        }
    }

    fn next(&mut self) -> Option<u64> {
        let frame = self.times.get(self.cursor).copied();
        if frame.is_some() {
            self.cursor += 1;
        }
        frame
    }

    /// One display tick: the action it ends with, and the frame shown.
    fn tick(&mut self, pacer: &mut FramePacer, elapsed_ms: u64) -> (PollAction, Option<u64>) {
        loop {
            let held = pacer.held_time();
            match pacer.poll(true, elapsed_ms * MS, self.upcoming()) {
                PollAction::Decode => {
                    let frame = self.next();
                    pacer.feed(frame);
                }
                PollAction::Present => return (PollAction::Present, held.map(|t| t / MS)),
                other => return (other, None),
            }
        }
    }
}

#[test]
fn constants() {
    assert_eq!(NANOS_PER_SECOND, 1_000_000_000);
    assert_eq!(FRAME_SLACK, 50_000_000);
}

#[test]
fn second_poll_shows_the_latest_due_frame_and_skips_the_earlier_one() {
    let mut feed = Feed::new(&[0, 33, 66, 100]);
    let mut pacer = FramePacer::new();
    assert_eq!(feed.tick(&mut pacer, 0), (PollAction::Present, Some(0)));
    assert_eq!(feed.cursor, 1);
    assert_eq!(feed.tick(&mut pacer, 80), (PollAction::Present, Some(66)));
    assert_eq!(feed.cursor, 3);
    // At 250 ms the last frame is 150 ms behind: dropped, and the stream is over.
    assert_eq!(feed.tick(&mut pacer, 250), (PollAction::Finished, None));
    assert_eq!(feed.tick(&mut pacer, 251), (PollAction::Finished, None));
}

#[test]
fn poll_before_the_next_frame_is_due_leaves_the_source_alone() {
    let mut feed = Feed::new(&[0, 33, 66, 100]);
    let mut pacer = FramePacer::new();
    assert_eq!(feed.tick(&mut pacer, 0), (PollAction::Present, Some(0)));
    assert_eq!(feed.tick(&mut pacer, 10), (PollAction::NotYetDue, None));
    assert_eq!(feed.cursor, 1);
    assert_eq!(pacer.held_time(), None);
    assert_eq!(feed.tick(&mut pacer, 32), (PollAction::NotYetDue, None));
    assert_eq!(feed.cursor, 1);
    assert_eq!(feed.tick(&mut pacer, 33), (PollAction::Present, Some(33)));
    assert_eq!(feed.cursor, 2);
}

#[test]
fn every_frame_is_shown_when_ticks_keep_up() {
    let mut feed = Feed::new(&[0, 33, 66, 100]);
    let mut pacer = FramePacer::new();
    let mut shown = Vec::new();
    for elapsed in (0..=120).step_by(10) {
        if let (PollAction::Present, Some(t)) = feed.tick(&mut pacer, elapsed) {
            shown.push((elapsed, t));
        }
    }
    assert_eq!(shown, vec![(0, 0), (40, 33), (70, 66), (100, 100)]);
    assert_eq!(feed.tick(&mut pacer, 140), (PollAction::Finished, None));
}

#[test]
fn pacer_poll_decides_from_its_arguments() {
    let mut pacer = FramePacer::new();
    assert_eq!(pacer.held_time(), None);
    assert!(!pacer.is_exhausted());
    // Not running: nothing advances, whatever is due.
    assert_eq!(pacer.poll(false, 100 * MS, 0), PollAction::NotYetDue);
    // The next frame is due exactly now.
    assert_eq!(pacer.poll(true, 100 * MS, 100 * MS), PollAction::Decode);
    assert_eq!(pacer.poll(true, 100 * MS, 100 * MS + 1), PollAction::NotYetDue);
    pacer.feed(Some(100 * MS));
    assert_eq!(pacer.held_time(), Some(100 * MS));
    // A later frame is due too: it supersedes the one in hand.
    assert_eq!(pacer.poll(true, 140 * MS, 133 * MS), PollAction::Decode);
    assert_eq!(pacer.held_time(), Some(100 * MS));
    // Not running keeps the frame in hand.
    assert_eq!(pacer.poll(false, 140 * MS, 166 * MS), PollAction::NotYetDue);
    assert_eq!(pacer.held_time(), Some(100 * MS));
    // Exactly at the slack the frame is still shown.
    assert_eq!(pacer.poll(true, 150 * MS, 166 * MS), PollAction::Present);
    assert_eq!(pacer.held_time(), None);
    // One nanosecond past the slack it is dropped.
    pacer.feed(Some(100 * MS));
    assert_eq!(pacer.poll(true, 150 * MS + 1, 166 * MS), PollAction::NotYetDue);
    assert_eq!(pacer.held_time(), None);
    // A frame in hand that is not due yet is kept.
    pacer.feed(Some(200 * MS));
    assert_eq!(pacer.poll(true, 199 * MS, 233 * MS), PollAction::NotYetDue);
    assert_eq!(pacer.held_time(), Some(200 * MS));
    assert_eq!(pacer.poll(true, 200 * MS, 233 * MS), PollAction::Present);
}

#[test]
fn end_of_stream_is_permanent() {
    let mut pacer = FramePacer::new();
    pacer.feed(Some(0));
    pacer.feed(None);
    assert!(pacer.is_exhausted());
    // The frame in hand is still shown, then the stream is over for good.
    assert_eq!(pacer.poll(true, 10 * MS, 0), PollAction::Present);
    assert_eq!(pacer.poll(true, 10 * MS, 0), PollAction::Finished);
    pacer.feed(Some(20 * MS));
    assert_eq!(pacer.held_time(), None);
    assert!(pacer.is_exhausted());
    assert_eq!(pacer.poll(true, 20 * MS, 0), PollAction::Finished);
    assert_eq!(pacer.poll(true, u64::MAX, u64::MAX), PollAction::Finished);
}

#[test]
fn start_twice_signals_first_start_once() {
    let mut clock = PlaybackClock::new();
    assert_eq!(clock.phase(), Phase::NotStarted);
    assert!(!clock.has_started());
    assert!(!clock.is_running());
    assert!(clock.start(5 * SEC));
    assert!(!clock.start(5 * SEC));
    assert!(!clock.start(9 * SEC));
    assert!(clock.has_started());
    assert!(clock.is_running());
    // The second start did not reset playback time.
    assert_eq!(clock.elapsed(12 * SEC), 7 * SEC);
    assert_eq!(clock.phase(), Phase::Running { since: 5 * SEC, carried: 0 });
}

#[test]
fn elapsed_is_zero_before_the_first_start() {
    let clock = PlaybackClock::new();
    assert_eq!(clock.elapsed(0), 0);
    assert_eq!(clock.elapsed(77 * SEC), 0);
}

#[test]
fn pause_freezes_playback_time_and_start_resumes_it() {
    let mut clock = PlaybackClock::new();
    clock.pause(1 * SEC);
    assert_eq!(clock.phase(), Phase::NotStarted);
    assert!(clock.start(10 * SEC));
    assert_eq!(clock.elapsed(13 * SEC), 3 * SEC);
    clock.pause(14 * SEC);
    assert_eq!(clock.phase(), Phase::Paused { elapsed: 4 * SEC });
    assert!(!clock.is_running());
    assert!(clock.has_started());
    assert_eq!(clock.elapsed(14 * SEC), 4 * SEC);
    assert_eq!(clock.elapsed(100 * SEC), 4 * SEC);
    clock.pause(50 * SEC);
    assert_eq!(clock.elapsed(100 * SEC), 4 * SEC);
    assert!(!clock.start(100 * SEC));
    assert_eq!(clock.elapsed(100 * SEC), 4 * SEC);
    assert_eq!(clock.elapsed(101 * SEC), 5 * SEC);
}

#[test]
fn elapsed_never_runs_backwards_or_overflows() {
    let mut clock = PlaybackClock::new();
    clock.start(10 * SEC);
    assert_eq!(clock.elapsed(9 * SEC), 0);
    clock.pause(u64::MAX);
    assert_eq!(clock.elapsed(0), u64::MAX - 10 * SEC);
    clock.start(0);
    assert_eq!(clock.elapsed(20 * SEC), u64::MAX);
}

#[test]
fn clip_index_is_whole_seconds_over_clip_length() {
    let cues = AudioCues::new(20);
    assert_eq!(cues.clip_index(0), 0);
    assert_eq!(cues.clip_index(20 * SEC - 1), 0);
    assert_eq!(cues.clip_index(20 * SEC), 1);
    assert_eq!(cues.clip_index(45 * SEC), 2);
    assert_eq!(AudioCues::new(7).clip_index(50 * SEC + 999_999_999), 7);
    assert_eq!(AudioCues::new(1).clip_index(u64::MAX), 18_446_744_073);
}

#[test]
fn first_audio_poll_cues_clip_zero_whatever_the_time() {
    assert_eq!(AudioCues::new(20).poll(0), (true, 0));
    assert_eq!(AudioCues::new(20).poll(45 * SEC), (true, 0));
    assert_eq!(AudioCues::new(1).poll(u64::MAX), (true, 0));
}

#[test]
fn skipped_clips_are_jumped_over_and_each_clip_is_cued_once() {
    let mut cues = AudioCues::new(20);
    assert_eq!(cues.poll(0), (true, 0));
    // Clip 1 went by without a poll.
    assert_eq!(cues.poll(45 * SEC), (true, 2));
    assert_eq!(cues.poll(45 * SEC), (false, 0));
    assert_eq!(cues.poll(59 * SEC), (false, 0));
    assert_eq!(cues.poll(60 * SEC), (true, 3));
    assert_eq!(cues.poll(60 * SEC), (false, 0));
    // Playback time that falls back cues nothing.
    assert_eq!(cues.poll(5 * SEC), (false, 0));
}

#[test]
fn no_cue_within_the_first_clip_after_the_first_poll() {
    let mut cues = AudioCues::new(20);
    assert_eq!(cues.poll(3 * SEC), (true, 0));
    assert_eq!(cues.poll(4 * SEC), (false, 0));
    assert_eq!(cues.poll(19 * SEC + 999_999_999), (false, 0));
    assert_eq!(cues.poll(20 * SEC), (true, 1));
}

#[test]
fn resume_only_acts_on_paused_playback() {
    let mut clock = PlaybackClock::new();
    clock.resume(3 * SEC);
    assert_eq!(clock.phase(), Phase::NotStarted);
    clock.start(10 * SEC);
    clock.resume(11 * SEC);
    assert_eq!(clock.phase(), Phase::Running { since: 10 * SEC, carried: 0 });
    clock.pause(12 * SEC);
    clock.resume(20 * SEC);
    assert_eq!(clock.phase(), Phase::Running { since: 20 * SEC, carried: 2 * SEC });
    assert_eq!(clock.elapsed(21 * SEC), 3 * SEC);
}

/// The schedule written with two flags and whole seconds.
struct Flags {
    last_played_audio: Option<usize>,
    audio_clip_length: usize,
}

impl Flags {
    fn should_play_audio(&mut self, elapsed_secs: u64) -> (bool, usize) {
        let Some(last_played_audio) = self.last_played_audio.as_mut() else {
            self.last_played_audio = Some(0);
            return (true, 0);
        };
        let playing_audio = elapsed_secs as usize / self.audio_clip_length;
        if playing_audio > *last_played_audio {
            *last_played_audio = playing_audio;
            return (true, playing_audio);
        }
        (false, 0)
    }
}

#[test]
fn cues_agree_with_the_two_flag_schedule() {
    for clip_length in [1usize, 7, 20] {
        let mut cues = AudioCues::new(clip_length);
        let mut flags = Flags { last_played_audio: None, audio_clip_length: clip_length };
        let mut elapsed = 0u64;
        for step in 0..400u64 {
            elapsed += (step * 7919) % 9_000_000_000;
            assert_eq!(cues.poll(elapsed), flags.should_play_audio(elapsed / SEC));
        }
    }
}

#[test]
fn the_end_is_reported_while_playback_is_halted() {
    let mut pacer = FramePacer::new();
    pacer.feed(None);
    assert_eq!(pacer.poll(true, 10 * MS, 0), PollAction::Finished);
    assert_eq!(pacer.poll(false, 10 * MS, 0), PollAction::Finished);
    assert_eq!(pacer.poll(false, 0, u64::MAX), PollAction::Finished);
    assert_eq!(pacer.poll(true, 20 * MS, 0), PollAction::Finished);
    assert_eq!(pacer.held_time(), None);
    assert!(pacer.is_exhausted());
    // A pacer that was never polled while running reports the end as well.
    let mut fresh = FramePacer::new();
    fresh.feed(None);
    assert_eq!(fresh.poll(false, 0, 0), PollAction::Finished);
}

#[test]
fn a_frame_in_hand_at_the_end_waits_through_a_halt() {
    let mut pacer = FramePacer::new();
    pacer.feed(Some(100 * MS));
    pacer.feed(None);
    // Halted: the frame in hand is still to be shown, so this is not the end.
    assert_eq!(pacer.poll(false, 100 * MS, 0), PollAction::NotYetDue);
    assert_eq!(pacer.held_time(), Some(100 * MS));
    assert_eq!(pacer.poll(true, 100 * MS, 0), PollAction::Present);
    assert_eq!(pacer.poll(false, 100 * MS, 0), PollAction::Finished);
    assert_eq!(pacer.poll(true, 100 * MS, 0), PollAction::Finished);
}

#[test]
fn a_halted_pacer_with_a_live_source_waits() {
    let mut pacer = FramePacer::new();
    assert_eq!(pacer.poll(false, u64::MAX, 0), PollAction::NotYetDue);
    pacer.feed(Some(0));
    assert_eq!(pacer.poll(false, u64::MAX, 0), PollAction::NotYetDue);
    assert_eq!(pacer.held_time(), Some(0));
    assert!(!pacer.is_exhausted());
}
