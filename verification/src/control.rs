use vstd::prelude::*;

verus! {

/// Why an engine refused a request.
#[derive(Clone, Copy, Debug, PartialEq, Eq, Structural)]
pub enum EngineError {
    /// A sender is active already; it is left as it is.
    SenderAlreadyRunning,
    /// A receiver is active already; it is left as it is.
    ReceiverAlreadyRunning,
    /// No sender is active, so there is no queue to put a frame on.
    NotActive,
    /// The queue of the sender no longer takes frames.
    IngressClosed,
}

/// What an engine error says of itself.
pub open spec fn engine_error_message(error: EngineError) -> Seq<char> {
    match error {
        EngineError::SenderAlreadyRunning => "sender loop already running"@,
        EngineError::ReceiverAlreadyRunning => "receiver loop already running"@,
        EngineError::NotActive => "sender is not active; call start_sankaku_sender first"@,
        EngineError::IngressClosed => "sender frame ingress channel is closed"@,
    }
}

impl EngineError {
    /// The error in words.
    pub fn message(&self) -> (msg: String)
        ensures
            msg@ == engine_error_message(*self),
    {
        match *self {
            EngineError::SenderAlreadyRunning => String::from_str("sender loop already running"),
            EngineError::ReceiverAlreadyRunning => String::from_str(
                "receiver loop already running",
            ),
            EngineError::NotActive => String::from_str(
                "sender is not active; call start_sankaku_sender first",
            ),
            EngineError::IngressClosed => String::from_str(
                "sender frame ingress channel is closed",
            ),
        }
    }
}

/// The process-wide state of the sender role: the two handles through which
/// frames are queued for the active sender, and the flag that tells it to
/// go on. `Video` and `Audio` are the types of the handles.
pub struct SenderControl<Video, Audio> {
    video_tx: Option<Video>,
    audio_tx: Option<Audio>,
    should_run: bool,
}

/// The content of a [`SenderControl`].
pub struct SenderControlView<Video, Audio> {
    pub video_tx: Option<Video>,
    pub audio_tx: Option<Audio>,
    pub should_run: bool,
}

impl<Video, Audio> SenderControlView<Video, Audio> {
    /// A sender is active while one of its handles is installed.
    pub open spec fn is_active(self) -> bool {
        self.video_tx is Some || self.audio_tx is Some
    }

    /// The state after an attempt to start a sender with the given handles:
    /// unchanged while a sender is active, else both handles installed and
    /// the flag set.
    pub open spec fn begun(self, video: Video, audio: Audio) -> Self {
        if self.is_active() {
            self
        } else {
            SenderControlView { video_tx: Some(video), audio_tx: Some(audio), should_run: true }
        }
    }

    /// What an attempt to start a sender returns.
    pub open spec fn begin_result(self) -> Result<(), EngineError> {
        if self.is_active() {
            Err(EngineError::SenderAlreadyRunning)
        } else {
            Ok(())
        }
    }

    /// The state after the sender has released the role, or was told to
    /// stop: no handle, flag cleared.
    pub open spec fn released(self) -> Self {
        SenderControlView { video_tx: None, audio_tx: None, should_run: false }
    }
}

impl<Video, Audio> View for SenderControl<Video, Audio> {
    type V = SenderControlView<Video, Audio>;

    closed spec fn view(&self) -> SenderControlView<Video, Audio> {
        SenderControlView {
            video_tx: self.video_tx,
            audio_tx: self.audio_tx,
            should_run: self.should_run,
        }
    }
}

impl<Video, Audio> SenderControl<Video, Audio> {
    /// The state in which no sender is active.
    pub fn new() -> (control: Self)
        ensures
            !control@.is_active(),
            !control@.should_run,
    {
        SenderControl { video_tx: None, audio_tx: None, should_run: false }
    }

    /// Whether a sender is active.
    pub fn is_active(&self) -> (active: bool)
        ensures
            active == self@.is_active(),
    {
        self.video_tx.is_some() || self.audio_tx.is_some()
    }

    /// Whether the active sender is to go on.
    pub fn should_run(&self) -> (go_on: bool)
        ensures
            go_on == self@.should_run,
    {
        self.should_run
    }

    /// The handle through which video frames are queued; `NotActive`
    /// without a sender.
    pub fn video_tx(&self) -> (handle: Result<&Video, EngineError>)
        ensures
            match handle {
                Ok(tx) => self@.video_tx == Some(*tx),
                Err(error) => self@.video_tx is None && error == EngineError::NotActive,
            },
    {
        match &self.video_tx {
            Some(tx) => Ok(tx),
            None => Err(EngineError::NotActive),
        }
    }

    /// The handle through which audio frames are queued; `NotActive`
    /// without a sender.
    pub fn audio_tx(&self) -> (handle: Result<&Audio, EngineError>)
        ensures
            match handle {
                Ok(tx) => self@.audio_tx == Some(*tx),
                Err(error) => self@.audio_tx is None && error == EngineError::NotActive,
            },
    {
        match &self.audio_tx {
            Some(tx) => Ok(tx),
            None => Err(EngineError::NotActive),
        }
    }
}

/// Installs the handle for video frames, unless one is installed.
pub fn install_hevc_frame_tx<Video, Audio>(
    control: &mut SenderControl<Video, Audio>,
    tx: Video,
) -> (result: Result<(), EngineError>)
    ensures
        old(control)@.video_tx is Some ==> result == Err::<(), EngineError>(
            EngineError::SenderAlreadyRunning,
        ) && final(control)@ == old(control)@,
        old(control)@.video_tx is None ==> result is Ok && final(control)@ == (SenderControlView {
            video_tx: Some(tx),
            ..old(control)@
        }),
{
    if control.video_tx.is_some() {
        return Err(EngineError::SenderAlreadyRunning);
    }
    control.video_tx = Some(tx);
    Ok(())
}

/// Removes the handle for video frames.
pub fn clear_hevc_frame_tx<Video, Audio>(control: &mut SenderControl<Video, Audio>)
    ensures
        final(control)@ == (SenderControlView { video_tx: None, ..old(control)@ }),
{
    control.video_tx = None;
}

/// Installs the handle for audio frames, unless one is installed.
pub fn install_audio_frame_tx<Video, Audio>(
    control: &mut SenderControl<Video, Audio>,
    tx: Audio,
) -> (result: Result<(), EngineError>)
    ensures
        old(control)@.audio_tx is Some ==> result == Err::<(), EngineError>(
            EngineError::SenderAlreadyRunning,
        ) && final(control)@ == old(control)@,
        old(control)@.audio_tx is None ==> result is Ok && final(control)@ == (SenderControlView {
            audio_tx: Some(tx),
            ..old(control)@
        }),
{
    if control.audio_tx.is_some() {
        return Err(EngineError::SenderAlreadyRunning);
    }
    control.audio_tx = Some(tx);
    Ok(())
}

/// Removes the handle for audio frames.
pub fn clear_audio_frame_tx<Video, Audio>(control: &mut SenderControl<Video, Audio>)
    ensures
        final(control)@ == (SenderControlView { audio_tx: None, ..old(control)@ }),
{
    control.audio_tx = None;
}

/// Claims the sender role: installs both handles and sets the flag. While
/// a sender is active the claim fails and nothing changes.
pub fn begin_sender<Video, Audio>(
    control: &mut SenderControl<Video, Audio>,
    video: Video,
    audio: Audio,
) -> (result: Result<(), EngineError>)
    ensures
        result == old(control)@.begin_result(),
        final(control)@ == old(control)@.begun(video, audio),
{
    if control.is_active() {
        return Err(EngineError::SenderAlreadyRunning);
    }
    install_hevc_frame_tx(control, video)?;
    install_audio_frame_tx(control, audio)?;
    control.should_run = true;
    Ok(())
}

/// Gives the sender role up: what a sender does on every way out of its
/// loop.
pub fn release_sender<Video, Audio>(control: &mut SenderControl<Video, Audio>)
    ensures
        final(control)@ == old(control)@.released(),
{
    clear_hevc_frame_tx(control);
    clear_audio_frame_tx(control);
    control.should_run = false;
}

/// Tells the active sender to stop and detaches its queues, so that no
/// frame can be queued any more. Without a sender this changes nothing
/// that can be seen. It never fails.
pub fn stop_sankaku_sender<Video, Audio>(control: &mut SenderControl<Video, Audio>) -> (result:
    Result<(), EngineError>)
    ensures
        result is Ok,
        final(control)@ == old(control)@.released(),
{
    control.should_run = false;
    clear_hevc_frame_tx(control);
    clear_audio_frame_tx(control);
    Ok(())
}

/// A second start while a sender is active is refused and leaves the state
/// of the first untouched; once the first has released the role, a start
/// succeeds again.
pub proof fn lemma_sender_single_instance<Video, Audio>(
    idle: SenderControlView<Video, Audio>,
    first_video: Video,
    first_audio: Audio,
    second_video: Video,
    second_audio: Audio,
)
    requires
        !idle.is_active(),
    ensures
        idle.begin_result() is Ok,
        idle.begun(first_video, first_audio).is_active(),
        idle.begun(first_video, first_audio).begin_result() == Err::<(), EngineError>(
            EngineError::SenderAlreadyRunning,
        ),
        idle.begun(first_video, first_audio).begun(second_video, second_audio) == idle.begun(
            first_video,
            first_audio,
        ),
        idle.begun(first_video, first_audio).released().begin_result() is Ok,
        idle.begun(first_video, first_audio).released().begun(second_video, second_audio)
            == (SenderControlView {
            video_tx: Some(second_video),
            audio_tx: Some(second_audio),
            should_run: true,
        }),
{
}

/// The process-wide state of the receiver role: whether a receiver is
/// active, and the flag that tells it to go on.
#[derive(Clone, Copy, Debug, PartialEq, Eq, Structural)]
pub struct ReceiverControl {
    pub active: bool,
    pub should_run: bool,
}

impl ReceiverControl {
    /// The state after an attempt to start a receiver: unchanged while one
    /// is active, else active with the flag set.
    pub open spec fn begun(self) -> Self {
        if self.active {
            self
        } else {
            ReceiverControl { active: true, should_run: true }
        }
    }

    /// What an attempt to start a receiver returns.
    pub open spec fn begin_result(self) -> Result<(), EngineError> {
        if self.active {
            Err(EngineError::ReceiverAlreadyRunning)
        } else {
            Ok(())
        }
    }

    /// The state after the receiver has released the role.
    pub open spec fn released(self) -> Self {
        ReceiverControl { active: false, should_run: false }
    }

    /// The state after the receiver was told to stop: it stays active until
    /// it sees the flag and releases the role.
    pub open spec fn stop_requested(self) -> Self {
        ReceiverControl { should_run: false, ..self }
    }

    /// The state in which no receiver is active.
    pub fn new() -> (control: Self)
        ensures
            control == (ReceiverControl { active: false, should_run: false }),
    {
        ReceiverControl { active: false, should_run: false }
    }
}

/// Claims the receiver role and sets the flag. While a receiver is active
/// the claim fails and nothing changes.
pub fn begin_receiver(control: &mut ReceiverControl) -> (result: Result<(), EngineError>)
    ensures
        result == old(control).begin_result(),
        *final(control) == old(control).begun(),
{
    if control.active {
        return Err(EngineError::ReceiverAlreadyRunning);
    }
    control.active = true;
    control.should_run = true;
    Ok(())
}

/// Gives the receiver role up: what a receiver does on every way out of
/// its loop.
pub fn release_receiver(control: &mut ReceiverControl)
    ensures
        *final(control) == old(control).released(),
{
    control.active = false;
    control.should_run = false;
}

/// Tells the active receiver to stop. It never fails, and asking twice is
/// the same as asking once.
pub fn stop_sankaku_receiver(control: &mut ReceiverControl) -> (result: Result<(), EngineError>)
    ensures
        result is Ok,
        *final(control) == old(control).stop_requested(),
{
    control.should_run = false;
    Ok(())
}

/// A second start while a receiver is active is refused and leaves the
/// state of the first untouched, also after a stop was asked for; once the
/// first has released the role, a start succeeds again.
pub proof fn lemma_receiver_single_instance(idle: ReceiverControl)
    requires
        !idle.active,
    ensures
        idle.begin_result() is Ok,
        idle.begun().begin_result() == Err::<(), EngineError>(EngineError::ReceiverAlreadyRunning),
        idle.begun().begun() == idle.begun(),
        idle.begun().stop_requested().begin_result() == Err::<(), EngineError>(
            EngineError::ReceiverAlreadyRunning,
        ),
        idle.begun().stop_requested().begun() == idle.begun().stop_requested(),
        idle.begun().released().begin_result() is Ok,
        idle.begun().released().begun() == idle.begun(),
        idle.begun().stop_requested().released().begin_result() is Ok,
{
}

/// Stopping is idempotent for both roles.
pub proof fn lemma_stop_is_idempotent<Video, Audio>(
    sender: SenderControlView<Video, Audio>,
    receiver: ReceiverControl,
)
    ensures
        sender.released().released() == sender.released(),
        receiver.stop_requested().stop_requested() == receiver.stop_requested(),
{
}

} // verus!
