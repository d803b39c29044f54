//! The state of a capture session: the active flag, the buffer of samples,
//! and the controller that owns both.
//!
//! The flag and the buffer are two cells of their own, so that a program can
//! guard each with its own lock: the capture loop tests the flag on every
//! round, and a drain of the buffer never stands in its way. Each operation
//! on a cell is one step; under a lock the steps of several callers happen
//! one after another, in some order. The steps of the controller are
//! operations on the cells (`ActiveFlag::begin_start`, `complete_start` and
//! `stop`, `SampleBuffer::take`), so that a program that shares the cells
//! with a worker takes the same steps as `CaptureSession`, which puts the
//! cells together with the format of the session. `SessionState` says what a
//! session is and how each operation changes it.

use vstd::prelude::*;
use crate::adapters::audio::device::{resolve_device_index, selected_index};
use crate::error::CaptureError;
use crate::ports::audio::{AudioBuffer, AudioFormat};
use crate::ports::sample::Sample;

verus! {

/// Tells whether a session is active. Start sets it, stop clears it, and
/// the capture loop runs while it is set.
#[derive(Debug)]
pub struct ActiveFlag {
    active: bool,
}

impl ActiveFlag {
    /// Whether the flag is set.
    pub closed spec fn view(&self) -> bool {
        self.active
    }

    /// A cleared flag.
    pub fn new() -> (flag: ActiveFlag)
        ensures
            !flag@,
    {
        ActiveFlag { active: false }
    }

    /// Tells whether the flag is set.
    pub fn is_active(&self) -> (b: bool)
        ensures
            b == self@,
    {
        self.active
    }

    /// Tests and sets the flag in one step: fails with `AlreadyCapturing`
    /// where the flag is set already, and sets it otherwise.
    pub fn try_activate(&mut self) -> (r: Result<(), CaptureError>)
        ensures
            final(self)@,
            old(self)@ ==> r == Err::<(), CaptureError>(CaptureError::AlreadyCapturing),
            !old(self)@ ==> r is Ok,
    {
        if self.active {
            Err(CaptureError::AlreadyCapturing)
        } else {
            self.active = true;
            Ok(())
        }
    }

    /// Clears the flag in one step, and tells whether it was set.
    pub fn deactivate(&mut self) -> (was_active: bool)
        ensures
            !final(self)@,
            was_active == old(self)@,
    {
        let was_active = self.active;
        self.active = false;
        was_active
    }

    /// The first step of a start: tests and sets the flag and resolves the
    /// selector. Fails with `AlreadyCapturing` where the flag is set already;
    /// otherwise the flag is set and the index of the chosen device is
    /// returned, for which the caller starts the worker.
    pub fn begin_start(&mut self, selector: &Option<String>) -> (r: Result<usize, CaptureError>)
        ensures
            final(self)@,
            !old(self)@ ==> r == Ok::<usize, CaptureError>(selected_index(*selector)),
            old(self)@ ==> r == Err::<usize, CaptureError>(CaptureError::AlreadyCapturing),
    {
        match self.try_activate() {
            Ok(()) => Ok(resolve_device_index(selector)),
            Err(e) => Err(e),
        }
    }

    /// The last step of a start: takes what the worker reported once it had
    /// tried to acquire the device and to negotiate the format, and hands it
    /// on. A failure clears the flag, so that no session is left behind.
    pub fn complete_start(&mut self, outcome: Result<AudioFormat, CaptureError>) -> (r: Result<
        AudioFormat,
        CaptureError,
    >)
        ensures
            r == outcome,
            final(self)@ == (outcome is Ok && old(self)@),
    {
        match outcome {
            Ok(format) => Ok(format),
            Err(e) => {
                self.deactivate();
                Err(e)
            },
        }
    }

    /// A stop: clears the flag and tells whether a worker is to be joined
    /// before the stop is complete, which is so where the flag was set and a
    /// worker is attached.
    pub fn stop(&mut self, worker_attached: bool) -> (join_worker: bool)
        ensures
            !final(self)@,
            join_worker == (old(self)@ && worker_attached),
    {
        let was_active = self.deactivate();
        was_active && worker_attached
    }
}

/// The samples captured and not yet taken out, in the order of capture.
#[derive(Debug)]
pub struct SampleBuffer {
    samples: Vec<Sample>,
}

impl SampleBuffer {
    /// The samples held, oldest first.
    pub closed spec fn view(&self) -> Seq<Sample> {
        self.samples@
    }

    /// An empty buffer.
    pub fn new() -> (buffer: SampleBuffer)
        ensures
            buffer@ == Seq::<Sample>::empty(),
    {
        SampleBuffer { samples: Vec::new() }
    }

    /// The number of samples held.
    pub fn len(&self) -> (n: usize)
        ensures
            n == self@.len(),
    {
        self.samples.len()
    }

    /// Tells whether the buffer holds no sample.
    pub fn is_empty(&self) -> (b: bool)
        ensures
            b == (self@.len() == 0),
    {
        self.samples.len() == 0
    }

    /// Puts the samples of `chunk` behind those held, in their order.
    pub fn append(&mut self, chunk: Vec<Sample>)
        ensures
            final(self)@ == old(self)@ + chunk@,
    {
        let mut chunk = chunk;
        self.samples.append(&mut chunk);
    }

    /// Takes out all samples held, in one step: `None` where there is none,
    /// otherwise all of them in the order of capture. The buffer is empty
    /// afterwards, so no sample is handed out twice and none is lost.
    pub fn drain(&mut self) -> (taken: Option<Vec<Sample>>)
        ensures
            final(self)@ == Seq::<Sample>::empty(),
            old(self)@.len() == 0 ==> taken is None,
            old(self)@.len() > 0 ==> taken is Some && taken->0@ == old(self)@,
    {
        if self.samples.len() == 0 {
            None
        } else {
            let mut taken: Vec<Sample> = Vec::new();
            taken.append(&mut self.samples);
            assert(taken@ =~= old(self)@);
            Some(taken)
        }
    }

    /// Takes out all samples held, in one step, as a buffer in the given
    /// format: `None` where there is none.
    pub fn take(&mut self, format: AudioFormat) -> (taken: Option<AudioBuffer>)
        ensures
            final(self)@ == Seq::<Sample>::empty(),
            old(self)@.len() == 0 ==> taken is None,
            old(self)@.len() > 0 ==> taken is Some && taken->0.samples@ == old(self)@
                && taken->0.format == format,
    {
        match self.drain() {
            Some(samples) => Some(AudioBuffer { samples, format }),
            None => None,
        }
    }
}

/// What a session is: whether it is active, whether a worker is attached,
/// the format it reports, and the samples that wait to be taken out.
pub struct SessionState {
    pub active: bool,
    pub worker: bool,
    pub format: AudioFormat,
    pub pending: Seq<Sample>,
}

/// The placeholder format of a session that has not started.
pub open spec fn placeholder_format() -> AudioFormat {
    AudioFormat { sample_rate: 16000, channels: 1, bits_per_sample: 16 }
}

impl SessionState {
    /// A session that has not started.
    pub open spec fn idle() -> SessionState {
        SessionState {
            active: false,
            worker: false,
            format: placeholder_format(),
            pending: Seq::empty(),
        }
    }

    /// A start succeeds on an inactive session, and on no other.
    pub open spec fn can_start(self) -> bool {
        !self.active
    }

    /// The session after a start was asked for: active with a worker where
    /// the start succeeds, unchanged where it is refused.
    pub open spec fn started(self) -> SessionState {
        if self.active {
            self
        } else {
            SessionState { active: true, worker: true, ..self }
        }
    }

    /// The session after its worker has reported how acquiring the device
    /// and negotiating the format went: with the negotiated format, or
    /// inactive and without a worker.
    pub open spec fn settled(self, outcome: Result<AudioFormat, CaptureError>) -> SessionState {
        match outcome {
            Ok(format) => SessionState { format, ..self },
            Err(_) => self.start_failed(),
        }
    }

    /// The session after a start that failed: inactive and without a
    /// worker, its format and its buffer as they were.
    pub open spec fn start_failed(self) -> SessionState {
        SessionState { active: false, worker: false, ..self }
    }

    /// The session after a stop: inactive with its worker joined where it
    /// was active, unchanged where it was not.
    pub open spec fn stopped(self) -> SessionState {
        if self.active {
            SessionState { active: false, worker: false, ..self }
        } else {
            self
        }
    }

    /// The session after its worker has appended `chunk`.
    pub open spec fn appended(self, chunk: Seq<Sample>) -> SessionState {
        SessionState { pending: self.pending + chunk, ..self }
    }

    /// The session after a drain.
    pub open spec fn drained(self) -> SessionState {
        SessionState { pending: Seq::empty(), ..self }
    }
}

/// A capture session on one controller: at most one is active at a time.
#[derive(Debug)]
pub struct CaptureSession {
    flag: ActiveFlag,
    buffer: SampleBuffer,
    format: AudioFormat,
    worker: bool,
}

impl CaptureSession {
    /// What the session is.
    pub closed spec fn view(&self) -> SessionState {
        SessionState {
            active: self.flag@,
            worker: self.worker,
            format: self.format,
            pending: self.buffer@,
        }
    }

    /// A session that has not started: inactive, with the placeholder format
    /// and nothing captured.
    pub fn new() -> (session: CaptureSession)
        ensures
            session@ == SessionState::idle(),
    {
        CaptureSession {
            flag: ActiveFlag::new(),
            buffer: SampleBuffer::new(),
            format: AudioFormat::default(),
            worker: false,
        }
    }

    /// Tells whether a session is active.
    pub fn is_capturing(&self) -> (b: bool)
        ensures
            b == self@.active,
    {
        self.flag.is_active()
    }

    /// The format of the session: the placeholder until a start has
    /// negotiated one.
    pub fn get_format(&self) -> (format: AudioFormat)
        ensures
            format == self@.format,
    {
        self.format
    }

    /// Tells whether a worker is attached and has to be joined.
    pub fn has_worker(&self) -> (b: bool)
        ensures
            b == self@.worker,
    {
        self.worker
    }

    /// The first half of a start: tests and sets the active flag in one
    /// step and resolves the selector. Fails with `AlreadyCapturing`, and
    /// changes nothing, where a session is active; otherwise the session is
    /// active and the index of the chosen device is returned, for which the
    /// caller starts the worker.
    pub fn begin_start(&mut self, selector: &Option<String>) -> (r: Result<usize, CaptureError>)
        ensures
            final(self)@ == old(self)@.started(),
            old(self)@.can_start() ==> r == Ok::<usize, CaptureError>(selected_index(*selector)),
            !old(self)@.can_start() ==> r == Err::<usize, CaptureError>(
                CaptureError::AlreadyCapturing,
            ),
    {
        match self.flag.begin_start(selector) {
            Ok(index) => {
                self.worker = true;
                Ok(index)
            },
            Err(e) => Err(e),
        }
    }

    /// The second half of a start: takes what the worker reported once it had
    /// tried to acquire the device and to negotiate the format. On success the
    /// negotiated format becomes the format of the session. On failure the
    /// session is inactive again with its worker joined, nothing has been
    /// captured, and the error is returned.
    pub fn complete_start(&mut self, outcome: Result<AudioFormat, CaptureError>) -> (r: Result<
        (),
        CaptureError,
    >)
        ensures
            final(self)@ == old(self)@.settled(outcome),
            match outcome {
                Ok(_) => r is Ok,
                Err(e) => r == Err::<(), CaptureError>(e),
            },
    {
        match self.flag.complete_start(outcome) {
            Ok(format) => {
                self.format = format;
                Ok(())
            },
            Err(e) => {
                self.worker = false;
                Err(e)
            },
        }
    }

    /// Stops the session: clears the active flag and tells whether a worker
    /// is to be joined before the stop is complete. On an inactive session
    /// nothing changes and nothing is to be joined, so a stop can be asked
    /// for any number of times.
    pub fn stop_capture(&mut self) -> (join_worker: bool)
        ensures
            final(self)@ == old(self)@.stopped(),
            join_worker == (old(self)@.active && old(self)@.worker),
    {
        let was_active = self.flag.is_active();
        let join_worker = self.flag.stop(self.worker);
        if was_active {
            self.worker = false;
        }
        join_worker
    }

    /// What the worker does when a read fails in the middle of a run, or
    /// when it could not start: clears the active flag.
    pub fn worker_stopped(&mut self)
        ensures
            final(self)@ == (SessionState { active: false, ..old(self)@ }),
    {
        self.flag.deactivate();
    }

    /// What the worker does with the samples of a chunk: puts them behind
    /// those that wait.
    pub fn append_samples(&mut self, chunk: Vec<Sample>)
        ensures
            final(self)@ == old(self)@.appended(chunk@),
    {
        self.buffer.append(chunk);
    }

    /// Takes out everything captured since the last call, with the format of
    /// the session: `None` where nothing is new.
    pub fn get_audio_buffer(&mut self) -> (taken: Option<AudioBuffer>)
        ensures
            final(self)@ == old(self)@.drained(),
            old(self)@.pending.len() == 0 ==> taken is None,
            old(self)@.pending.len() > 0 ==> taken is Some && taken->0.samples@ == old(
                self,
            )@.pending && taken->0.format == old(self)@.format,
    {
        self.buffer.take(self.format)
    }
}

/// A stop of a stopped session changes nothing: the second of two stops in a
/// row is a no-op.
pub proof fn lemma_stop_is_idempotent(s: SessionState)
    ensures
        !s.stopped().active,
        s.stopped().stopped() == s.stopped(),
        !s.active ==> s.stopped() == s,
{
}

/// Of two starts in a row on a session, at most one succeeds; on an
/// inactive session the first succeeds and the second is refused.
pub proof fn lemma_second_start_is_refused(s: SessionState)
    ensures
        !s.started().can_start(),
        !(s.can_start() && s.started().can_start()),
        s.started().started() == s.started(),
{
}

/// A drain of a session with nothing captured gives nothing; after an
/// append of at least one sample the next drain gives all that waits, and
/// the drain after that gives nothing again.
pub proof fn lemma_drain_after_append(s: SessionState, chunk: Seq<Sample>)
    requires
        chunk.len() > 0,
    ensures
        SessionState::idle().pending.len() == 0,
        s.appended(chunk).pending.len() > 0,
        s.appended(chunk).pending == s.pending + chunk,
        s.appended(chunk).drained().pending.len() == 0,
{
}

/// One operation on a session, as it takes effect.
pub enum SessionStep {
    /// A start tests and sets the active flag.
    Start,
    /// A stop clears the active flag.
    Stop,
    /// The worker appends a chunk.
    Append(Seq<Sample>),
    /// The consumer drains the buffer.
    Drain,
}

impl SessionState {
    /// The session after one operation has taken effect.
    pub open spec fn after(self, step: SessionStep) -> SessionState {
        match step {
            SessionStep::Start => self.started(),
            SessionStep::Stop => self.stopped(),
            SessionStep::Append(chunk) => self.appended(chunk),
            SessionStep::Drain => self.drained(),
        }
    }

    /// The session after the operations of `steps` have taken effect, one
    /// after another.
    pub open spec fn after_all(self, steps: Seq<SessionStep>) -> SessionState
        decreases steps.len(),
    {
        if steps.len() == 0 {
            self
        } else {
            self.after_all(steps.drop_last()).after(steps.last())
        }
    }
}

/// The number of starts among `steps` that succeeded: those that found the
/// session inactive.
pub open spec fn starts_succeeded(s: SessionState, steps: Seq<SessionStep>) -> nat
    decreases steps.len(),
{
    if steps.len() == 0 {
        0
    } else {
        let before = steps.drop_last();
        if steps.last() is Start && s.after_all(before).can_start() {
            starts_succeeded(s, before) + 1
        } else {
            starts_succeeded(s, before)
        }
    }
}

/// The number of stops among `steps` that ended a session: those that found
/// the session active.
pub open spec fn sessions_ended(s: SessionState, steps: Seq<SessionStep>) -> nat
    decreases steps.len(),
{
    if steps.len() == 0 {
        0
    } else {
        let before = steps.drop_last();
        if steps.last() is Stop && s.after_all(before).active {
            sessions_ended(s, before) + 1
        } else {
            sessions_ended(s, before)
        }
    }
}

/// All samples that the appends among `steps` have put in, in order.
pub open spec fn appended_by(steps: Seq<SessionStep>) -> Seq<Sample>
    decreases steps.len(),
{
    if steps.len() == 0 {
        Seq::empty()
    } else {
        match steps.last() {
            SessionStep::Append(chunk) => appended_by(steps.drop_last()) + chunk,
            _ => appended_by(steps.drop_last()),
        }
    }
}

/// All samples that the drains among `steps` have handed out, in order.
pub open spec fn delivered_by(s: SessionState, steps: Seq<SessionStep>) -> Seq<Sample>
    decreases steps.len(),
{
    if steps.len() == 0 {
        Seq::empty()
    } else {
        let before = steps.drop_last();
        match steps.last() {
            SessionStep::Drain => delivered_by(s, before) + s.after_all(before).pending,
            _ => delivered_by(s, before),
        }
    }
}

/// In whatever order the operations of several callers take effect on an
/// inactive session: every start that succeeded, but for the one whose
/// session is still active, has been followed by a stop that ended its
/// session. So no two sessions are active at a time.
pub proof fn lemma_one_session_at_a_time(s: SessionState, steps: Seq<SessionStep>)
    requires
        !s.active,
    ensures
        starts_succeeded(s, steps) == sessions_ended(s, steps) + (if s.after_all(steps).active {
            1nat
        } else {
            0nat
        }),
    decreases steps.len(),
{
    if steps.len() > 0 {
        lemma_one_session_at_a_time(s, steps.drop_last());
    }
}

/// Of two starts on an inactive session with nothing between them, exactly
/// one succeeds.
pub proof fn lemma_one_of_two_starts_succeeds(s: SessionState)
    requires
        !s.active,
    ensures
        starts_succeeded(s, seq![SessionStep::Start, SessionStep::Start]) == 1,
{
    let two = seq![SessionStep::Start, SessionStep::Start];
    let one = two.drop_last();
    let none = one.drop_last();
    assert(one.len() == 1 && none.len() == 0);
    assert(one.last() is Start && two.last() is Start);
    assert(s.after_all(none) == s);
    assert(starts_succeeded(s, none) == 0);
    assert(starts_succeeded(s, one) == 1);
    assert(s.after_all(one) == s.started());
}

/// In whatever order appends and drains take effect: what was handed out,
/// followed by what still waits, is what waited at first followed by what
/// was put in. So each drain hands out a run of the captured samples in
/// their order, none twice and none left out.
pub proof fn lemma_drains_conserve_samples(s: SessionState, steps: Seq<SessionStep>)
    ensures
        delivered_by(s, steps) + s.after_all(steps).pending == s.pending + appended_by(steps),
    decreases steps.len(),
{
    if steps.len() > 0 {
        let before = steps.drop_last();
        lemma_drains_conserve_samples(s, before);
        let delivered = delivered_by(s, before);
        let pending = s.after_all(before).pending;
        match steps.last() {
            SessionStep::Append(chunk) => {
                assert(delivered + (pending + chunk) =~= (delivered + pending) + chunk);
                assert((s.pending + appended_by(before)) + chunk =~= s.pending + (appended_by(
                    before,
                ) + chunk));
            },
            SessionStep::Drain => {
                assert((delivered + pending) + Seq::<Sample>::empty() =~= delivered + pending);
            },
            _ => {},
        }
    } else {
        assert(Seq::<Sample>::empty() + s.pending =~= s.pending + Seq::<Sample>::empty());
    }
}

} // verus!
