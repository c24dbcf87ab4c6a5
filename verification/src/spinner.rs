use vstd::prelude::*;

verus! {

/// The spinner's lifecycle: it starts `Stopped`, runs while animating,
/// and ends `Stopped` again — or `Failed` when stopped with a failure
/// status. Only `Running` animates.
#[derive(Clone, Copy, PartialEq, Eq, Structural, Debug)]
pub enum SpinnerState {
    Stopped,
    Running,
    Failed,
}

/// The frame index after one animation tick: one step forward through the
/// glyph sequence, wrapping from the last glyph back to the first.
pub open spec fn next_frame(index: int, frame_count: int) -> int {
    if index + 1 < frame_count {
        index + 1
    } else {
        0
    }
}

/// Spinner liveness: with at least two glyphs, a tick always lands on a
/// different frame than the one it left, so two tick intervals show two
/// distinct frames.
pub proof fn lemma_tick_changes_frame(index: int, frame_count: int)
    requires
        frame_count >= 2,
        0 <= index < frame_count,
    ensures
        next_frame(index, frame_count) != index,
        0 <= next_frame(index, frame_count) < frame_count,
{
}

/// An indeterminate progress indicator animated on a fixed interval.
///
/// This type holds only the animation state; the periodic timer and the
/// terminal writes live with the caller. While the spinner is `Running`,
/// a background ticker calls [`Spinner::tick`] once per interval and
/// redraws the single status line from [`Spinner::frame_glyph`] and
/// [`Spinner::message_text`]; the foreground must not write to the
/// terminal during that window. [`Spinner::stop`] and [`Spinner::fail`]
/// end the animation; a tick on a spinner that is not running changes
/// nothing, so no frame changes after the stop.
pub struct Spinner {
    frames: Vec<char>,
    frame_index: usize,
    message: String,
    state: SpinnerState,
}

impl Spinner {
    /// At least two glyphs, so that the animation is visibly live, and
    /// the frame index always inside the glyph sequence.
    pub closed spec fn wf(&self) -> bool {
        &&& self.frames@.len() >= 2
        &&& self.frame_index < self.frames@.len()
    }

    /// The glyph sequence the animation cycles through.
    pub closed spec fn spec_frames(&self) -> Seq<char> {
        self.frames@
    }

    /// The current frame index.
    pub closed spec fn frame_at(&self) -> int {
        self.frame_index as int
    }

    /// The current status message.
    pub closed spec fn spec_message(&self) -> Seq<char> {
        self.message@
    }

    /// The current lifecycle state.
    pub closed spec fn spec_state(&self) -> SpinnerState {
        self.state
    }

    /// A stopped spinner on the first frame of a default glyph sequence.
    pub fn new() -> (r: Self)
        ensures
            r.wf(),
            r.frame_at() == 0,
            r.spec_message() == Seq::<char>::empty(),
            r.spec_state() == SpinnerState::Stopped,
    {
        let mut frames: Vec<char> = Vec::new();
        frames.push('\u{280b}');
        frames.push('\u{2819}');
        frames.push('\u{2839}');
        frames.push('\u{2838}');
        frames.push('\u{283c}');
        frames.push('\u{2834}');
        frames.push('\u{2826}');
        frames.push('\u{2827}');
        frames.push('\u{2807}');
        frames.push('\u{280f}');
        Spinner { frames, frame_index: 0, message: String::new(), state: SpinnerState::Stopped }
    }

    /// Begins the animation: the spinner becomes `Running` on the first
    /// frame, under the given status message.
    pub fn start(&mut self, message: &str)
        requires
            old(self).wf(),
        ensures
            final(self).wf(),
            final(self).spec_frames() == old(self).spec_frames(),
            final(self).spec_state() == SpinnerState::Running,
            final(self).frame_at() == 0,
            final(self).spec_message() == message@,
    {
        self.message = message.to_owned();
        self.frame_index = 0;
        self.state = SpinnerState::Running;
    }

    /// One animation tick. While running, the frame index moves one step
    /// through the glyph sequence, as [`next_frame`] says, and nothing
    /// else changes; on a spinner that is not running, a tick changes
    /// nothing at all.
    pub fn tick(&mut self)
        requires
            old(self).wf(),
        ensures
            final(self).wf(),
            old(self).spec_state() == SpinnerState::Running ==> {
                &&& final(self).frame_at() == next_frame(
                    old(self).frame_at(),
                    old(self).spec_frames().len() as int,
                )
                &&& final(self).spec_frames() == old(self).spec_frames()
                &&& final(self).spec_message() == old(self).spec_message()
                &&& final(self).spec_state() == SpinnerState::Running
            },
            old(self).spec_state() != SpinnerState::Running ==> *final(self) == *old(self),
    {
        if matches!(self.state, SpinnerState::Running) {
            let n = self.frames.len();
            if self.frame_index < n - 1 {
                self.frame_index = self.frame_index + 1;
            } else {
                self.frame_index = 0;
            }
        }
    }

    /// Ends the animation with a success status and a closing message;
    /// later ticks change nothing.
    pub fn stop(&mut self, message: &str)
        requires
            old(self).wf(),
        ensures
            final(self).wf(),
            final(self).spec_frames() == old(self).spec_frames(),
            final(self).frame_at() == old(self).frame_at(),
            final(self).spec_state() == SpinnerState::Stopped,
            final(self).spec_message() == message@,
    {
        self.message = message.to_owned();
        self.state = SpinnerState::Stopped;
    }

    /// Ends the animation with a failure status and a closing message;
    /// later ticks change nothing.
    pub fn fail(&mut self, message: &str)
        requires
            old(self).wf(),
        ensures
            final(self).wf(),
            final(self).spec_frames() == old(self).spec_frames(),
            final(self).frame_at() == old(self).frame_at(),
            final(self).spec_state() == SpinnerState::Failed,
            final(self).spec_message() == message@,
    {
        self.message = message.to_owned();
        self.state = SpinnerState::Failed;
    }

    /// The glyph of the current frame, for rendering.
    pub fn frame_glyph(&self) -> (r: char)
        requires
            self.wf(),
        ensures
            r == self.spec_frames()[self.frame_at()],
    {
        self.frames[self.frame_index]
    }

    /// The current frame index.
    pub fn frame_index(&self) -> (r: usize)
        ensures
            r == self.frame_at(),
    {
        self.frame_index
    }

    /// The current status message, for rendering.
    pub fn message_text(&self) -> (r: &str)
        ensures
            r@ == self.spec_message(),
    {
        self.message.as_str()
    }

    /// The current lifecycle state.
    pub fn state(&self) -> (r: SpinnerState)
        ensures
            r == self.spec_state(),
    {
        self.state
    }

    /// True while the animation is live.
    pub fn is_running(&self) -> (r: bool)
        ensures
            r == (self.spec_state() == SpinnerState::Running),
    {
        matches!(self.state, SpinnerState::Running)
    }
}

} // verus!
