//! The capture coordinator: which backend a platform gets, and the steps by
//! which one capture session is negotiated, runs and ends.
//!
//! The coordinator never touches a device. It names the next operation, the
//! host performs it and reports the answer, and the coordinator decides what
//! follows. A session passes from idle through negotiation to streaming and
//! ends stopped; no step leads back.

use vstd::prelude::*;
use vstd::string::StringExecFns;
use crate::devices::{is_monitor, is_monitor_name, DeviceQuery};
use crate::samples::{conversion_of, format_name, Conversion, SampleFormat};

verus! {

/// The platforms that are told apart.
#[derive(Clone, Copy, Debug, PartialEq, Eq, Structural)]
pub enum Platform {
    MacOs,
    Linux,
    Other,
}

/// The ways of capturing system audio.
#[derive(Clone, Copy, Debug, PartialEq, Eq, Structural)]
pub enum Backend {
    /// An audio tap that is read sample by sample.
    Tap,
    /// A monitor device that delivers batches to a callback.
    MonitorDevice,
    /// No capture on this platform.
    Unimplemented,
}

/// The backend of each platform.
pub open spec fn backend_of(platform: Platform) -> Backend {
    match platform {
        Platform::MacOs => Backend::Tap,
        Platform::Linux => Backend::MonitorDevice,
        Platform::Other => Backend::Unimplemented,
    }
}

/// The kinds of failure that starting a capture or listing devices can end in.
#[derive(Clone, Copy, Debug, PartialEq, Eq, Structural)]
pub enum CaptureErrorKind {
    EnumerationError,
    NoMonitorDeviceFound,
    DeviceConfigError,
    UnsupportedSampleFormat,
    StreamBuildError,
    PlatformUnsupported,
}

/// A failure with the message shown to the caller.
#[derive(Clone, Debug, PartialEq, Eq)]
pub struct CaptureError {
    pub kind: CaptureErrorKind,
    pub message: String,
}

/// The coarse course of a session.
#[derive(Clone, Copy, Debug, PartialEq, Eq, Structural)]
pub enum Phase {
    Idle,
    Negotiating,
    Streaming,
    Stopped,
}

/// Where a session stands, with what the next step needs.
#[derive(Clone, Copy, Debug, PartialEq, Eq, Structural)]
pub enum CaptureState {
    Idle,
    /// The input devices have been asked for.
    ListingInputs,
    /// The default input configuration of the device at `device` has been
    /// asked for.
    QueryingConfig { device: usize },
    /// An input stream at `sample_rate` is being built.
    BuildingStream { sample_rate: u32 },
    /// The built stream is being started.
    StartingStream { sample_rate: u32 },
    /// The tap is being opened.
    OpeningTap,
    Streaming { sample_rate: u32 },
    Stopped,
}

/// The phase that a state belongs to.
pub open spec fn phase_of(state: CaptureState) -> Phase {
    match state {
        CaptureState::Idle => Phase::Idle,
        CaptureState::Streaming { .. } => Phase::Streaming,
        CaptureState::Stopped => Phase::Stopped,
        _ => Phase::Negotiating,
    }
}

/// How far along a phase is. Every step of a session keeps or raises it.
pub open spec fn phase_rank(phase: Phase) -> int {
    match phase {
        Phase::Idle => 0,
        Phase::Negotiating => 1,
        Phase::Streaming => 2,
        Phase::Stopped => 3,
    }
}

/// The live handle of a session: the rate that was negotiated, and whether
/// the stop signal has been sent.
#[derive(Clone, Copy, Debug, PartialEq, Eq, Structural)]
pub struct SystemAudioStream {
    pub sample_rate: u32,
    pub stop_sent: bool,
}

impl SystemAudioStream {
    /// The native rate of the backend, fixed for the session.
    pub fn sample_rate(&self) -> (rate: u32)
        ensures
            rate == self.sample_rate,
    {
        self.sample_rate
    }

    /// Called when the handle is let go. Says whether the stop signal is to
    /// be sent now: the first time only.
    pub fn stop(&mut self) -> (send: bool)
        ensures
            send == !old(self).stop_sent,
            final(self).stop_sent,
            final(self).sample_rate == old(self).sample_rate,
    {
        let send = !self.stop_sent;
        self.stop_sent = true;
        send
    }
}

/// What the host is to do next.
#[derive(Clone, Debug, PartialEq, Eq)]
pub enum CaptureAction {
    /// Nothing: the report did not answer what was asked.
    Ignore,
    /// Enumerate the input devices and report with `inputs_listed`.
    ListInputs,
    /// Ask the device at `device` of that enumeration for its default input
    /// configuration and report with `config_answered`.
    QueryDefaultConfig { device: usize },
    /// Build an input stream on that device whose callback applies
    /// `conversion`, and report with `stream_built`.
    BuildStream { conversion: Conversion },
    /// Start the stream and report with `stream_started`.
    StartStream,
    /// Open the tap and report with `tap_opened`.
    OpenTap,
    /// The session is established: hand this to the caller.
    Deliver(SystemAudioStream),
    /// The session could not be established.
    Fail(CaptureError),
}

/// What a `CaptureAction` stands for in contracts.
pub enum CaptureActionView {
    Ignore,
    ListInputs,
    QueryDefaultConfig { device: usize },
    BuildStream { conversion: Conversion },
    StartStream,
    OpenTap,
    Deliver(SystemAudioStream),
    Fail(CaptureErrorKind, Seq<char>),
}

impl View for CaptureAction {
    type V = CaptureActionView;

    open spec fn view(&self) -> CaptureActionView {
        match self {
            CaptureAction::Ignore => CaptureActionView::Ignore,
            CaptureAction::ListInputs => CaptureActionView::ListInputs,
            CaptureAction::QueryDefaultConfig { device } => CaptureActionView::QueryDefaultConfig {
                device: *device,
            },
            CaptureAction::BuildStream { conversion } => CaptureActionView::BuildStream {
                conversion: *conversion,
            },
            CaptureAction::StartStream => CaptureActionView::StartStream,
            CaptureAction::OpenTap => CaptureActionView::OpenTap,
            CaptureAction::Deliver(stream) => CaptureActionView::Deliver(*stream),
            CaptureAction::Fail(error) => CaptureActionView::Fail(error.kind, error.message@),
        }
    }
}

/// Whether an action sets up or touches a stream.
pub open spec fn touches_stream(action: CaptureActionView) -> bool {
    action is QueryDefaultConfig || action is BuildStream || action is StartStream
        || action is Deliver
}

/// The first device of `found` whose name marks a monitor source.
pub open spec fn first_monitor(found: Seq<Option<Seq<char>>>) -> Option<int>
    decreases found.len(),
{
    if found.len() == 0 {
        None
    } else {
        match first_monitor(found.drop_last()) {
            Some(i) => Some(i),
            None => match found.last() {
                Some(name) if is_monitor_name(name) => Some(found.len() - 1),
                _ => None,
            },
        }
    }
}

/// The message when no input device is a monitor source.
pub open spec fn no_monitor_message() -> Seq<char> {
    "No system audio monitor device found. Make sure PulseAudio/PipeWire is running."@
}

/// The message on a platform without a backend.
pub open spec fn platform_message() -> Seq<char> {
    "System audio capture not yet implemented for this platform"@
}

/// The first step of a session on `backend`.
pub open spec fn first_step(backend: Backend) -> (CaptureState, CaptureActionView) {
    match backend {
        Backend::Tap => (CaptureState::OpeningTap, CaptureActionView::OpenTap),
        Backend::MonitorDevice => (CaptureState::ListingInputs, CaptureActionView::ListInputs),
        Backend::Unimplemented => (
            CaptureState::Stopped,
            CaptureActionView::Fail(CaptureErrorKind::PlatformUnsupported, platform_message()),
        ),
    }
}

/// The step after the input devices were listed.
pub open spec fn step_inputs(found: Seq<Option<Seq<char>>>) -> (CaptureState, CaptureActionView) {
    match first_monitor(found) {
        Some(i) => (
            CaptureState::QueryingConfig { device: i as usize },
            CaptureActionView::QueryDefaultConfig { device: i as usize },
        ),
        None => (
            CaptureState::Stopped,
            CaptureActionView::Fail(CaptureErrorKind::NoMonitorDeviceFound, no_monitor_message()),
        ),
    }
}

/// The step after the device answered for its configuration.
pub open spec fn step_config(answer: Result<(u32, SampleFormat), Seq<char>>) -> (
    CaptureState,
    CaptureActionView,
) {
    match answer {
        Ok((sample_rate, format)) => match conversion_of(format) {
            Some(conversion) => (
                CaptureState::BuildingStream { sample_rate },
                CaptureActionView::BuildStream { conversion },
            ),
            None => (
                CaptureState::Stopped,
                CaptureActionView::Fail(
                    CaptureErrorKind::UnsupportedSampleFormat,
                    "Unsupported sample format: "@ + format_name(format),
                ),
            ),
        },
        Err(detail) => (
            CaptureState::Stopped,
            CaptureActionView::Fail(
                CaptureErrorKind::DeviceConfigError,
                "Failed to get default config: "@ + detail,
            ),
        ),
    }
}

/// The step after a stream operation that gives nothing back: go on to `next`
/// with `action`, or fail with the detail behind `prefix`.
pub open spec fn step_stream(
    outcome: Option<Seq<char>>,
    next: CaptureState,
    action: CaptureActionView,
    prefix: Seq<char>,
) -> (CaptureState, CaptureActionView) {
    match outcome {
        None => (next, action),
        Some(detail) => (
            CaptureState::Stopped,
            CaptureActionView::Fail(CaptureErrorKind::StreamBuildError, prefix + detail),
        ),
    }
}

/// The step after the tap answered.
pub open spec fn step_tap(answer: Result<u32, Seq<char>>) -> (CaptureState, CaptureActionView) {
    match answer {
        Ok(sample_rate) => (
            CaptureState::Streaming { sample_rate },
            CaptureActionView::Deliver(SystemAudioStream { sample_rate, stop_sent: false }),
        ),
        Err(detail) => (
            CaptureState::Stopped,
            CaptureActionView::Fail(CaptureErrorKind::StreamBuildError, detail),
        ),
    }
}

/// The detail of a failed operation, `None` where it succeeded.
pub open spec fn failure_of<T>(outcome: Result<T, String>) -> Option<Seq<char>> {
    match outcome {
        Ok(_) => None,
        Err(detail) => Some(detail@),
    }
}

/// Picks the backend of a platform.
pub fn select_backend(platform: Platform) -> (backend: Backend)
    ensures
        backend == backend_of(platform),
{
    match platform {
        Platform::MacOs => Backend::Tap,
        Platform::Linux => Backend::MonitorDevice,
        Platform::Other => Backend::Unimplemented,
    }
}

/// Builds a failure whose message is `prefix` followed by `detail`.
pub fn failure(kind: CaptureErrorKind, prefix: &str, detail: &str) -> (error: CaptureError)
    ensures
        error.kind == kind,
        error.message@ == prefix@ + detail@,
{
    CaptureError { kind, message: String::from_str(prefix).concat(detail) }
}

/// Builds a failure with `message` as its whole message.
pub fn plain_failure(kind: CaptureErrorKind, message: &str) -> (error: CaptureError)
    ensures
        error.kind == kind,
        error.message@ == message@,
{
    CaptureError { kind, message: String::from_str(message) }
}

/// Finds the first input device whose name marks a monitor source.
pub fn find_monitor(found: &Vec<Option<String>>) -> (at: Option<usize>)
    ensures
        match at {
            Some(i) => first_monitor(found.deep_view()) == Some(i as int) && i < found.len(),
            None => first_monitor(found.deep_view()) is None,
        },
{
    let ghost all = found.deep_view();
    let mut i: usize = 0;
    while i < found.len()
        invariant
            i <= found.len(),
            all == found.deep_view(),
            first_monitor(all.take(i as int)) is None,
        decreases found.len() - i,
    {
        assert(all.take(i + 1).drop_last() =~= all.take(i as int));
        let hit = match &found[i] {
            Some(name) => {
                assert(all[i as int] == Some(name@));
                is_monitor(name.as_str())
            },
            None => {
                assert(all[i as int] == None::<Seq<char>>);
                false
            },
        };
        if hit {
            proof {
                lemma_first_monitor_stays(all, i + 1);
            }
            return Some(i);
        }
        i += 1;
    }
    assert(all.take(found.len() as int) =~= all);
    None
}

/// A monitor found among the first `n` devices is the first of all.
proof fn lemma_first_monitor_stays(found: Seq<Option<Seq<char>>>, n: int)
    requires
        0 <= n <= found.len(),
        first_monitor(found.take(n)) is Some,
    ensures
        first_monitor(found) == first_monitor(found.take(n)),
    decreases found.len() - n,
{
    if n < found.len() {
        assert(found.take(n + 1).drop_last() =~= found.take(n));
        lemma_first_monitor_stays(found, n + 1);
    } else {
        assert(found.take(n) =~= found);
    }
}

/// Starts and follows one capture session.
#[derive(Clone, Copy, Debug, PartialEq, Eq, Structural)]
pub struct SystemAudioCapture {
    pub backend: Backend,
    pub state: CaptureState,
}

impl SystemAudioCapture {
    /// A coordinator for `platform`, idle.
    pub fn new(platform: Platform) -> (capture: SystemAudioCapture)
        ensures
            capture.backend == backend_of(platform),
            capture.state == CaptureState::Idle,
    {
        SystemAudioCapture { backend: select_backend(platform), state: CaptureState::Idle }
    }

    /// The names of the output devices, those that gave one, in order.
    pub fn list_system_devices(outputs: &DeviceQuery) -> (names: Result<Vec<String>, CaptureError>)
        ensures
            match *outputs {
                DeviceQuery::Failed(detail) => names matches Err(e) && e.kind
                    == CaptureErrorKind::EnumerationError && e.message@
                    == "Failed to enumerate output devices: "@ + detail@,
                DeviceQuery::Found(devices) => names matches Ok(list) && list.deep_view()
                    == named(devices.deep_view()),
            },
    {
        match outputs {
            DeviceQuery::Failed(detail) => Err(
                failure(
                    CaptureErrorKind::EnumerationError,
                    "Failed to enumerate output devices: ",
                    detail.as_str(),
                ),
            ),
            DeviceQuery::Found(devices) => {
                let ghost all = devices.deep_view();
                let mut list: Vec<String> = Vec::new();
                let mut i: usize = 0;
                while i < devices.len()
                    invariant
                        i <= devices.len(),
                        all == devices.deep_view(),
                        list.deep_view() == named(all.take(i as int)),
                    decreases devices.len() - i,
                {
                    proof {
                        all.lemma_filter_map_take_succ(|d: Option<Seq<char>>| d, i as int);
                    }
                    match &devices[i] {
                        Some(name) => {
                            assert(all[i as int] == Some(name@));
                            let ghost before = list.deep_view();
                            list.push(name.clone());
                            assert(list.deep_view() =~= before.push(name@));
                        },
                        None => {
                            assert(all[i as int] == None::<Seq<char>>);
                        },
                    }
                    i += 1;
                }
                assert(all.take(devices.len() as int) =~= all);
                Ok(list)
            },
        }
    }

    /// Whether the output devices could be enumerated.
    pub fn check_system_audio_permissions(outputs: &DeviceQuery) -> (granted: bool)
        ensures
            granted == (*outputs is Found),
    {
        match outputs {
            DeviceQuery::Found(_) => true,
            DeviceQuery::Failed(_) => false,
        }
    }

    /// Begins the session. Only an idle coordinator begins one.
    pub fn start_system_audio_capture(&mut self) -> (action: CaptureAction)
        ensures
            final(self).backend == old(self).backend,
            phase_rank(phase_of(final(self).state)) >= phase_rank(phase_of(old(self).state)),
            (final(self).state, action@) == if old(self).state == CaptureState::Idle {
                first_step(old(self).backend)
            } else {
                (old(self).state, CaptureActionView::Ignore)
            },
    {
        match self.state {
            CaptureState::Idle => match self.backend {
                Backend::Tap => {
                    self.state = CaptureState::OpeningTap;
                    CaptureAction::OpenTap
                },
                Backend::MonitorDevice => {
                    self.state = CaptureState::ListingInputs;
                    CaptureAction::ListInputs
                },
                Backend::Unimplemented => {
                    self.state = CaptureState::Stopped;
                    CaptureAction::Fail(
                        plain_failure(
                            CaptureErrorKind::PlatformUnsupported,
                            "System audio capture not yet implemented for this platform",
                        ),
                    )
                },
            },
            _ => CaptureAction::Ignore,
        }
    }

    /// The input devices were enumerated, or could not be.
    pub fn inputs_listed(&mut self, inputs: &DeviceQuery) -> (action: CaptureAction)
        ensures
            final(self).backend == old(self).backend,
            phase_rank(phase_of(final(self).state)) >= phase_rank(phase_of(old(self).state)),
            (final(self).state, action@) == if old(self).state == CaptureState::ListingInputs {
                step_inputs(inputs.found())
            } else {
                (old(self).state, CaptureActionView::Ignore)
            },
    {
        match self.state {
            CaptureState::ListingInputs => {
                let at = match inputs {
                    DeviceQuery::Found(found) => find_monitor(found),
                    DeviceQuery::Failed(_) => None,
                };
                match at {
                    Some(device) => {
                        self.state = CaptureState::QueryingConfig { device };
                        CaptureAction::QueryDefaultConfig { device }
                    },
                    None => {
                        self.state = CaptureState::Stopped;
                        CaptureAction::Fail(
                            plain_failure(
                                CaptureErrorKind::NoMonitorDeviceFound,
                                "No system audio monitor device found. Make sure PulseAudio/PipeWire is running.",
                            ),
                        )
                    },
                }
            },
            _ => CaptureAction::Ignore,
        }
    }

    /// The device gave its default input configuration, or could not.
    pub fn config_answered(&mut self, answer: &Result<(u32, SampleFormat), String>) -> (action:
        CaptureAction)
        ensures
            final(self).backend == old(self).backend,
            phase_rank(phase_of(final(self).state)) >= phase_rank(phase_of(old(self).state)),
            (final(self).state, action@) == if old(self).state is QueryingConfig {
                step_config(
                    match *answer {
                        Ok(config) => Ok(config),
                        Err(detail) => Err(detail@),
                    },
                )
            } else {
                (old(self).state, CaptureActionView::Ignore)
            },
    {
        match self.state {
            CaptureState::QueryingConfig { .. } => match answer {
                Ok((sample_rate, format)) => match format.conversion() {
                    Some(conversion) => {
                        self.state = CaptureState::BuildingStream { sample_rate: *sample_rate };
                        CaptureAction::BuildStream { conversion }
                    },
                    None => {
                        self.state = CaptureState::Stopped;
                        CaptureAction::Fail(
                            failure(
                                CaptureErrorKind::UnsupportedSampleFormat,
                                "Unsupported sample format: ",
                                format.name(),
                            ),
                        )
                    },
                },
                Err(detail) => {
                    self.state = CaptureState::Stopped;
                    CaptureAction::Fail(
                        failure(
                            CaptureErrorKind::DeviceConfigError,
                            "Failed to get default config: ",
                            detail.as_str(),
                        ),
                    )
                },
            },
            _ => CaptureAction::Ignore,
        }
    }

    /// The input stream was built, or could not be.
    pub fn stream_built(&mut self, outcome: &Result<(), String>) -> (action: CaptureAction)
        ensures
            final(self).backend == old(self).backend,
            phase_rank(phase_of(final(self).state)) >= phase_rank(phase_of(old(self).state)),
            (final(self).state, action@) == match old(self).state {
                CaptureState::BuildingStream { sample_rate } => step_stream(
                    failure_of(*outcome),
                    CaptureState::StartingStream { sample_rate },
                    CaptureActionView::StartStream,
                    "Failed to build input stream: "@,
                ),
                _ => (old(self).state, CaptureActionView::Ignore),
            },
    {
        match self.state {
            CaptureState::BuildingStream { sample_rate } => match outcome {
                Ok(_) => {
                    self.state = CaptureState::StartingStream { sample_rate };
                    CaptureAction::StartStream
                },
                Err(detail) => {
                    self.state = CaptureState::Stopped;
                    CaptureAction::Fail(
                        failure(
                            CaptureErrorKind::StreamBuildError,
                            "Failed to build input stream: ",
                            detail.as_str(),
                        ),
                    )
                },
            },
            _ => CaptureAction::Ignore,
        }
    }

    /// The stream was started, or could not be.
    pub fn stream_started(&mut self, outcome: &Result<(), String>) -> (action: CaptureAction)
        ensures
            final(self).backend == old(self).backend,
            phase_rank(phase_of(final(self).state)) >= phase_rank(phase_of(old(self).state)),
            (final(self).state, action@) == match old(self).state {
                CaptureState::StartingStream { sample_rate } => step_stream(
                    failure_of(*outcome),
                    CaptureState::Streaming { sample_rate },
                    CaptureActionView::Deliver(SystemAudioStream { sample_rate, stop_sent: false }),
                    "Failed to start stream: "@,
                ),
                _ => (old(self).state, CaptureActionView::Ignore),
            },
    {
        match self.state {
            CaptureState::StartingStream { sample_rate } => match outcome {
                Ok(_) => {
                    self.state = CaptureState::Streaming { sample_rate };
                    CaptureAction::Deliver(SystemAudioStream { sample_rate, stop_sent: false })
                },
                Err(detail) => {
                    self.state = CaptureState::Stopped;
                    CaptureAction::Fail(
                        failure(
                            CaptureErrorKind::StreamBuildError,
                            "Failed to start stream: ",
                            detail.as_str(),
                        ),
                    )
                },
            },
            _ => CaptureAction::Ignore,
        }
    }

    /// The tap was opened and gave its rate, or could not be opened.
    pub fn tap_opened(&mut self, answer: &Result<u32, String>) -> (action: CaptureAction)
        ensures
            final(self).backend == old(self).backend,
            phase_rank(phase_of(final(self).state)) >= phase_rank(phase_of(old(self).state)),
            (final(self).state, action@) == if old(self).state == CaptureState::OpeningTap {
                step_tap(
                    match *answer {
                        Ok(sample_rate) => Ok(sample_rate),
                        Err(detail) => Err(detail@),
                    },
                )
            } else {
                (old(self).state, CaptureActionView::Ignore)
            },
    {
        match self.state {
            CaptureState::OpeningTap => match answer {
                Ok(sample_rate) => {
                    self.state = CaptureState::Streaming { sample_rate: *sample_rate };
                    CaptureAction::Deliver(
                        SystemAudioStream { sample_rate: *sample_rate, stop_sent: false },
                    )
                },
                Err(detail) => {
                    self.state = CaptureState::Stopped;
                    CaptureAction::Fail(
                        plain_failure(CaptureErrorKind::StreamBuildError, detail.as_str()),
                    )
                },
            },
            _ => CaptureAction::Ignore,
        }
    }

    /// The session is over: the handle was let go, or the backend's stream
    /// ended. A streaming session stops; nothing else changes.
    pub fn session_over(&mut self)
        ensures
            final(self).backend == old(self).backend,
            phase_rank(phase_of(final(self).state)) >= phase_rank(phase_of(old(self).state)),
            final(self).state == if old(self).state is Streaming {
                CaptureState::Stopped
            } else {
                old(self).state
            },
    {
        match self.state {
            CaptureState::Streaming { .. } => {
                self.state = CaptureState::Stopped;
            },
            _ => {},
        }
    }
}

/// The names among `devices`, in order.
pub open spec fn named(devices: Seq<Option<Seq<char>>>) -> Seq<Seq<char>> {
    devices.filter_map(|d: Option<Seq<char>>| d)
}

/// Creates a coordinator for `platform` and begins its session.
pub fn start_system_audio_capture(platform: Platform) -> (started: (
    SystemAudioCapture,
    CaptureAction,
))
    ensures
        started.0.backend == backend_of(platform),
        (started.0.state, started.1@) == first_step(backend_of(platform)),
{
    let mut capture = SystemAudioCapture::new(platform);
    let action = capture.start_system_audio_capture();
    (capture, action)
}

/// The names of the output devices, or the failure to enumerate them.
pub fn list_system_audio_devices(outputs: &DeviceQuery) -> (names: Result<Vec<String>, CaptureError>)
    ensures
        match *outputs {
            DeviceQuery::Failed(detail) => names matches Err(e) && e.kind
                == CaptureErrorKind::EnumerationError && e.message@
                == "Failed to enumerate output devices: "@ + detail@,
            DeviceQuery::Found(devices) => names matches Ok(list) && list.deep_view() == named(
                devices.deep_view(),
            ),
        },
{
    SystemAudioCapture::list_system_devices(outputs)
}

/// Whether the output devices could be enumerated.
pub fn check_system_audio_permissions(outputs: &DeviceQuery) -> (granted: bool)
    ensures
        granted == (*outputs is Found),
{
    SystemAudioCapture::check_system_audio_permissions(outputs)
}

/// With no monitor device among the inputs the session fails with
/// `NoMonitorDeviceFound`, stops, and no stream is set up.
pub proof fn lemma_no_monitor_no_setup(found: Seq<Option<Seq<char>>>)
    requires
        forall|i: int|
            0 <= i < found.len() ==> !(#[trigger] found[i] matches Some(name) && is_monitor_name(
                name,
            )),
    ensures
        step_inputs(found) == (
            CaptureState::Stopped,
            CaptureActionView::Fail(CaptureErrorKind::NoMonitorDeviceFound, no_monitor_message()),
        ),
        !touches_stream(step_inputs(found).1),
{
    lemma_first_monitor_none(found);
}

/// Where no name marks a monitor source, none is chosen.
proof fn lemma_first_monitor_none(found: Seq<Option<Seq<char>>>)
    requires
        forall|i: int|
            0 <= i < found.len() ==> !(#[trigger] found[i] matches Some(name) && is_monitor_name(
                name,
            )),
    ensures
        first_monitor(found) is None,
    decreases found.len(),
{
    if found.len() > 0 {
        lemma_first_monitor_none(found.drop_last());
        assert(found.last() == found[found.len() - 1]);
    }
}

/// The device that is chosen is the first whose name marks a monitor source.
pub proof fn lemma_first_monitor_is_first(found: Seq<Option<Seq<char>>>)
    ensures
        first_monitor(found) matches Some(i) ==> 0 <= i < found.len() && (found[i] matches Some(
            name,
        ) && is_monitor_name(name)) && forall|j: int|
            0 <= j < i ==> !(#[trigger] found[j] matches Some(other) && is_monitor_name(other)),
    decreases found.len(),
{
    if found.len() > 0 {
        let front = found.drop_last();
        lemma_first_monitor_is_first(front);
        if first_monitor(front) is None {
            lemma_none_means_no_monitor(front);
        }
        if first_monitor(found) is Some {
            let i = first_monitor(found)->0;
            assert forall|j: int| 0 <= j < i implies !(#[trigger] found[j] matches Some(other)
                && is_monitor_name(other)) by {
                assert(front[j] == found[j]);
            }
            if i < front.len() {
                assert(front[i] == found[i]);
            }
        }
    }
}

/// Where none is chosen, no name marks a monitor source.
proof fn lemma_none_means_no_monitor(found: Seq<Option<Seq<char>>>)
    requires
        first_monitor(found) is None,
    ensures
        forall|j: int|
            0 <= j < found.len() ==> !(#[trigger] found[j] matches Some(other) && is_monitor_name(
                other,
            )),
    decreases found.len(),
{
    if found.len() > 0 {
        let front = found.drop_last();
        lemma_none_means_no_monitor(front);
        assert forall|j: int| 0 <= j < found.len() implies !(#[trigger] found[j] matches Some(
            other,
        ) && is_monitor_name(other)) by {
            if j < front.len() {
                assert(front[j] == found[j]);
            }
        }
    }
}

} // verus!
