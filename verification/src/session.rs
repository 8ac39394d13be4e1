//! The decisions of the main loop: what the function keys do to the
//! playback clock and to the recording, and when a timed recording ends.
use crate::align::{align_to, align_up};
use crate::duration::{lemma_split_nanos, max_nanos, Duration, NANOS_PER_SEC};
use crate::image::ImageDimensions;
use vstd::prelude::*;

verus! {

/// The named keys that the main loop acts on; every other is `Other`.
#[derive(Debug, Clone, Copy, PartialEq, Eq, Structural)]
pub enum NamedKey {
    F1,
    F2,
    F3,
    F4,
    F6,
    F9,
    F10,
    F11,
    Other,
}

/// What the main loop does after a key.
#[derive(Debug, Clone, Copy)]
pub enum KeyAction {
    /// Nothing beyond the change of the playback state.
    Nothing,
    /// Print the shader parameters.
    PrintParameters,
    /// Copy the shaders into a dump folder.
    SaveShaders,
    /// Capture the current frame into a picture.
    TakeScreenshot,
    /// Restart the clock so that it reads the given time now.
    ResumeFrom(Duration),
    /// Put position, time and frame back to zero and restart the clock;
    /// then report the clock through `Playback::restart`.
    Restart,
    /// Start recording frames of these dimensions.
    StartRecording(ImageDimensions),
    /// Finish the recording.
    FinishRecording,
}

/// The playback state: whether the clock is paused, the time it shows while
/// paused, and whether a video is being recorded.
#[derive(Debug, Clone, Copy)]
pub struct Playback {
    pub pause: bool,
    pub backup_time: Duration,
    pub video_recording: bool,
}

/// The span of `n` nanoseconds, in whole seconds and the nanoseconds beyond.
pub open spec fn duration_of(n: int) -> Duration {
    Duration { secs: (n / NANOS_PER_SEC as int) as u64, nanos: (n % NANOS_PER_SEC as int) as u32 }
}

/// The time the paused clock shows after a step: the time it showed, or the
/// running time `elapsed` where it was running.
pub open spec fn held_time(before: Playback, elapsed: Duration) -> Duration {
    if before.pause {
        before.backup_time
    } else {
        elapsed
    }
}

/// The state and action after `key`, with the clock at `elapsed`, a frame
/// lasting `frame_step`, and the swapchain images of `dims`.
pub open spec fn key_outcome(
    before: Playback,
    key: NamedKey,
    elapsed: Duration,
    frame_step: Duration,
    dims: ImageDimensions,
) -> (Playback, KeyAction) {
    match key {
        NamedKey::F1 => if !before.pause {
            (Playback { pause: true, backup_time: elapsed, ..before }, KeyAction::Nothing)
        } else {
            (Playback { pause: false, ..before }, KeyAction::ResumeFrom(before.backup_time))
        },
        NamedKey::F2 => {
            let held = held_time(before, elapsed)@;
            let stepped = if held >= frame_step@ {
                held - frame_step@
            } else {
                0
            };
            (Playback { pause: true, backup_time: duration_of(stepped), ..before }, KeyAction::Nothing)
        },
        NamedKey::F3 => {
            let stepped = held_time(before, elapsed)@ + frame_step@;
            (Playback { pause: true, backup_time: duration_of(stepped), ..before }, KeyAction::Nothing)
        },
        NamedKey::F4 => (before, KeyAction::Restart),
        NamedKey::F6 => (before, KeyAction::PrintParameters),
        NamedKey::F9 => (before, KeyAction::SaveShaders),
        NamedKey::F11 => (before, KeyAction::TakeScreenshot),
        NamedKey::F10 => if !before.video_recording {
            (
                Playback { video_recording: true, ..before },
                KeyAction::StartRecording(
                    ImageDimensions {
                        width: align_up(dims.width as int, 2) as usize,
                        height: align_up(dims.height as int, 2) as usize,
                        ..dims
                    },
                ),
            )
        } else {
            (Playback { video_recording: false, ..before }, KeyAction::FinishRecording)
        },
        NamedKey::Other => (before, KeyAction::Nothing),
    }
}

/// What `key` needs of its inputs to be handled without overflow: a step
/// forward must stay within the range of a duration, and the frame size of
/// a recording must round up to even numbers in range.
pub open spec fn key_handled(
    before: Playback,
    key: NamedKey,
    elapsed: Duration,
    frame_step: Duration,
    dims: ImageDimensions,
) -> bool {
    &&& key == NamedKey::F3 ==> held_time(before, elapsed)@ + frame_step@ <= max_nanos()
    &&& key == NamedKey::F10 && !before.video_recording ==> {
        &&& dims.width % 2 != 0 ==> dims.width + 2 <= usize::MAX
        &&& dims.height % 2 != 0 ==> dims.height + 2 <= usize::MAX
    }
}

/// A well-formed span is the span of its length.
pub proof fn lemma_duration_of_view(d: Duration)
    requires
        d.wf(),
    ensures
        duration_of(d@) == d,
{
    lemma_split_nanos(d.secs as int, d.nanos as int);
}

impl Playback {
    /// Every span the state holds is well formed.
    pub open spec fn wf(&self) -> bool {
        self.backup_time.wf()
    }

    /// Playback at the start: running, showing zero while paused, and
    /// recording where a recording length was asked for.
    pub fn new(video_recording: bool) -> (playback: Self)
        ensures
            playback.wf(),
            !playback.pause,
            playback.backup_time@ == 0,
            playback.video_recording == video_recording,
    {
        Playback { pause: false, backup_time: Duration::from_secs(0), video_recording }
    }

    /// Handles `key`: F1 pauses (holding the running time) or resumes from
    /// the held time, F2 and F3 pause and step the held time one frame back
    /// (not below zero) or forward, F4 restarts, F10 starts a recording with
    /// the frame size rounded up to even numbers or finishes it, and F6, F9
    /// and F11 print the parameters, save the shaders and take a screenshot.
    pub fn on_key(
        &mut self,
        key: NamedKey,
        elapsed: Duration,
        frame_step: Duration,
        image_dimensions: ImageDimensions,
    ) -> (action: KeyAction)
        requires
            old(self).wf(),
            elapsed.wf(),
            frame_step.wf(),
            key_handled(*old(self), key, elapsed, frame_step, image_dimensions),
        ensures
            final(self).wf(),
            (*final(self), action) == key_outcome(
                *old(self),
                key,
                elapsed,
                frame_step,
                image_dimensions,
            ),
    {
        match key {
            NamedKey::F1 => {
                if !self.pause {
                    self.backup_time = elapsed;
                    self.pause = true;
                    KeyAction::Nothing
                } else {
                    self.pause = false;
                    KeyAction::ResumeFrom(self.backup_time)
                }
            },
            NamedKey::F2 => {
                if !self.pause {
                    self.backup_time = elapsed;
                    self.pause = true;
                }
                self.backup_time = self.backup_time.saturating_sub(frame_step);
                proof {
                    lemma_duration_of_view(self.backup_time);
                }
                KeyAction::Nothing
            },
            NamedKey::F3 => {
                if !self.pause {
                    self.backup_time = elapsed;
                    self.pause = true;
                }
                match self.backup_time.checked_add(frame_step) {
                    Some(sum) => {
                        self.backup_time = sum;
                        proof {
                            lemma_duration_of_view(sum);
                        }
                    },
                    None => {},
                }
                KeyAction::Nothing
            },
            NamedKey::F4 => KeyAction::Restart,
            NamedKey::F6 => KeyAction::PrintParameters,
            NamedKey::F9 => KeyAction::SaveShaders,
            NamedKey::F11 => KeyAction::TakeScreenshot,
            NamedKey::F10 => {
                if !self.video_recording {
                    let mut dims = image_dimensions;
                    dims.width = align_to(dims.width, 2);
                    dims.height = align_to(dims.height, 2);
                    self.video_recording = true;
                    KeyAction::StartRecording(dims)
                } else {
                    self.video_recording = false;
                    KeyAction::FinishRecording
                }
            },
            NamedKey::Other => KeyAction::Nothing,
        }
    }

    /// Whether `key` can be handled with the clock at `elapsed`, a frame
    /// lasting `frame_step` and images of `image_dimensions`: a step forward
    /// stays within the range of a duration, and a recording's frame size
    /// rounds up to even numbers in range.
    pub fn can_handle(
        &self,
        key: NamedKey,
        elapsed: Duration,
        frame_step: Duration,
        image_dimensions: ImageDimensions,
    ) -> (handled: bool)
        requires
            self.wf(),
            elapsed.wf(),
            frame_step.wf(),
        ensures
            handled == key_handled(*self, key, elapsed, frame_step, image_dimensions),
    {
        match key {
            NamedKey::F3 => {
                let held = if self.pause {
                    self.backup_time
                } else {
                    elapsed
                };
                held.checked_add(frame_step).is_some()
            },
            NamedKey::F10 => {
                if self.video_recording {
                    true
                } else {
                    (image_dimensions.width % 2 == 0 || image_dimensions.width <= usize::MAX - 2)
                        && (image_dimensions.height % 2 == 0 || image_dimensions.height
                        <= usize::MAX - 2)
                }
            },
            _ => true,
        }
    }

    /// After a restart, the clock reads `elapsed` and the paused clock
    /// shows that too.
    pub fn restart(&mut self, elapsed: Duration)
        ensures
            final(self).backup_time == elapsed,
            final(self).pause == old(self).pause,
            final(self).video_recording == old(self).video_recording,
    {
        self.backup_time = elapsed;
    }

    /// The time handed to the shaders: the running time, or the held time
    /// while paused.
    pub fn shader_time(&self, elapsed: Duration) -> (time: Duration)
        ensures
            time == held_time(*self, elapsed),
    {
        if !self.pause {
            elapsed
        } else {
            self.backup_time
        }
    }
}

/// The frame size a recording of images of `dims` is made in: width and
/// height rounded up to even numbers; `None` where that leaves `usize`.
pub fn recording_dimensions(dims: ImageDimensions) -> (even: Option<ImageDimensions>)
    ensures
        match even {
            Some(d) => d == ImageDimensions {
                width: align_up(dims.width as int, 2) as usize,
                height: align_up(dims.height as int, 2) as usize,
                ..dims
            },
            None => !((dims.width % 2 != 0 ==> dims.width + 2 <= usize::MAX) && (dims.height % 2
                != 0 ==> dims.height + 2 <= usize::MAX)),
        },
{
    if (dims.width % 2 != 0 && dims.width > usize::MAX - 2) || (dims.height % 2 != 0
        && dims.height > usize::MAX - 2) {
        return None;
    }
    let mut even = dims;
    even.width = align_to(dims.width, 2);
    even.height = align_to(dims.height, 2);
    Some(even)
}

/// A timed recording is over: a length was asked for, the clock has reached
/// it, and the recorder is still recording.
pub fn recording_limit_reached(elapsed: Duration, limit: Option<Duration>, recorder_active: bool) -> (over: bool)
    requires
        elapsed.wf(),
        limit matches Some(l) ==> l.wf(),
    ensures
        over == (limit matches Some(l) && elapsed@ >= l@ && recorder_active),
{
    match limit {
        Some(limit) => elapsed.ge(&limit) && recorder_active,
        None => false,
    }
}

/// Stepping one frame back and then one frame forward returns the paused
/// clock to the time it showed, where that time was at least one frame.
pub proof fn lemma_step_back_then_forward(
    before: Playback,
    elapsed: Duration,
    frame_step: Duration,
    dims: ImageDimensions,
)
    requires
        before.wf(),
        elapsed.wf(),
        frame_step.wf(),
        held_time(before, elapsed)@ >= frame_step@,
    ensures
        ({
            let (back, _) = key_outcome(before, NamedKey::F2, elapsed, frame_step, dims);
            let (forward, _) = key_outcome(back, NamedKey::F3, elapsed, frame_step, dims);
            &&& forward.pause
            &&& forward.backup_time == held_time(before, elapsed)
        }),
{
    let held = held_time(before, elapsed);
    let n = held@ - frame_step@;
    assert(n >= 0);
    lemma_split_nanos(n / NANOS_PER_SEC as int, n % NANOS_PER_SEC as int);
    vstd::arithmetic::div_mod::lemma_fundamental_div_mod(n, NANOS_PER_SEC as int);
    assert(n / (NANOS_PER_SEC as int) <= u64::MAX) by {
        vstd::arithmetic::div_mod::lemma_div_is_ordered(n, held@, NANOS_PER_SEC as int);
        lemma_split_nanos(held.secs as int, held.nanos as int);
    }
    assert(duration_of(n)@ == n);
    assert(duration_of(n).wf());
    lemma_duration_of_view(held);
}

/// Pausing and then resuming hands the clock back the time it ran when it
/// was paused, and leaves the clock running again.
pub proof fn lemma_pause_then_resume(
    before: Playback,
    at_pause: Duration,
    at_resume: Duration,
    frame_step: Duration,
    dims: ImageDimensions,
)
    requires
        !before.pause,
    ensures
        ({
            let (paused, _) = key_outcome(before, NamedKey::F1, at_pause, frame_step, dims);
            let (resumed, action) = key_outcome(paused, NamedKey::F1, at_resume, frame_step, dims);
            &&& paused.pause
            &&& !resumed.pause
            &&& action == KeyAction::ResumeFrom(at_pause)
        }),
{
}

/// Pressing F10 twice starts and then finishes a recording, and leaves the
/// recording flag as it was.
pub proof fn lemma_record_toggle(
    before: Playback,
    elapsed: Duration,
    frame_step: Duration,
    dims: ImageDimensions,
)
    requires
        !before.video_recording,
    ensures
        ({
            let (started, start) = key_outcome(before, NamedKey::F10, elapsed, frame_step, dims);
            let (finished, finish) = key_outcome(started, NamedKey::F10, elapsed, frame_step, dims);
            &&& start is StartRecording
            &&& finish is FinishRecording
            &&& finished == before
        }),
{
}

} // verus!
