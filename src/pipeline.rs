//! The initialization sequence as a state machine: the caller performs the
//! driver call that an `Action` asks for and feeds its outcome back as an
//! `Event`. Resources are acquired in a fixed order and released in reverse.
use vstd::prelude::*;
use crate::error::{ComputeStep, Domain, DriverModule, PipelineError};
use crate::preset::{
    codec_h264, codec_supported, override_bitrate, preset_low_latency, spec_codec_h264,
    spec_preset_low_latency, with_bitrate, EncoderPresetConfig, Guid,
};
use crate::version::{
    capture_api_version, capture_struct_version, encode_api_version, encode_struct_version,
    nvenc_struct_version, nvenc_version, nvfbc_struct_version, nvfbc_version,
    NVENCAPI_MAJOR_VERSION, NVENCAPI_MINOR_VERSION, NVFBC_VERSION_MAJOR, NVFBC_VERSION_MINOR,
};

verus! {

/// Status every driver API uses for success.
pub const STATUS_SUCCESS: u32 = 0;
/// Capture-API status for hardware or a driver without capture support.
pub const CAPTURE_STATUS_UNSUPPORTED: u32 = 7;

/// Revision of the capture API's create-handle parameters.
pub const CREATE_HANDLE_REVISION: u32 = 2;
/// Revision of the capture API's get-status parameters.
pub const GET_STATUS_REVISION: u32 = 2;
/// Revision of the capture API's create-capture-session parameters.
pub const CREATE_CAPTURE_SESSION_REVISION: u32 = 6;
/// Revision of the capture API's GPU-memory transfer setup parameters.
pub const TO_CUDA_SETUP_REVISION: u32 = 1;
/// Revision of the encode API's function list.
pub const ENCODE_FUNCTION_LIST_REVISION: u32 = 2;
/// Revision of the encode API's open-session parameters.
pub const OPEN_SESSION_REVISION: u32 = 1;
/// Revision of the encode API's preset configuration.
pub const PRESET_CONFIG_REVISION: u32 = 4;
/// Revision of the encode API's encoder configuration.
pub const ENCODE_CONFIG_REVISION: u32 = 6;
/// Flag the encode API expects on the versions of its large structures.
pub const ENCODE_LARGE_STRUCT_FLAG: u32 = 0x8000_0000;

/// Caller-chosen parameters of the pipeline.
#[derive(Clone, Copy, Debug, PartialEq, Eq, Structural)]
pub struct PipelineConfig {
    pub device_ordinal: u32,
    pub frame_width: u32,
    pub frame_height: u32,
    pub capture_cursor: bool,
    pub average_bitrate_bps: u32,
    pub max_bitrate_bps: u32,
}

/// Byte sizes of the capture API's request structures, as the binding
/// layer lays them out; each goes into the structure's version tag.
#[derive(Clone, Copy, Debug, PartialEq, Eq, Structural)]
pub struct CaptureStructSizes {
    pub create_handle: u32,
    pub get_status: u32,
    pub create_capture_session: u32,
    pub to_cuda_setup: u32,
}

/// A resource that has to be released once acquired.
#[derive(Clone, Copy, Debug, PartialEq, Eq, Structural)]
pub enum Resource {
    ComputeContext,
    CaptureInstance,
    EncodeInstance,
    CaptureHandle,
    CaptureSession,
    EncodeSession,
}

/// Where capture frames land.
#[derive(Clone, Copy, Debug, PartialEq, Eq, Structural)]
pub enum CaptureType {
    SystemMemory,
    SharedGpuMemory,
}

/// How the capture session follows the display.
#[derive(Clone, Copy, Debug, PartialEq, Eq, Structural)]
pub enum TrackingMode {
    Default,
    Output,
    Screen,
}

/// Pixel format of the frames handed to the encoder.
#[derive(Clone, Copy, Debug, PartialEq, Eq, Structural)]
pub enum BufferFormat {
    Argb,
    Nv12,
    Yuv444p,
}

/// The driver call whose outcome the machine waits for, or where it stopped.
#[derive(Clone, Copy, Debug, PartialEq, Eq, Structural)]
pub enum Stage {
    ResolveCompute,
    ResolveCapture,
    ResolveEncode,
    InitCompute,
    GetDevice,
    CreateContext,
    CreateCaptureInstance,
    CreateEncodeInstance,
    CreateCaptureHandle,
    ProbeCapture,
    CreateCaptureSession,
    SetUpCapture,
    OpenEncodeSession,
    QueryCodecs,
    QueryPreset,
    Ready,
    Failed,
    Finished,
}

/// What the caller is to do next.
#[derive(Clone, Debug)]
pub enum Action {
    /// Locate and load a driver module.
    Resolve { module: DriverModule },
    /// Initialize the compute driver.
    InitCompute,
    /// Select the compute device.
    GetDevice { ordinal: u32 },
    /// Create the compute context on the selected device.
    CreateContext,
    /// Create the capture API's function table.
    CreateCaptureInstance { version: u32 },
    /// Create the encode API's function table.
    CreateEncodeInstance { version: u32 },
    /// Create the capture session handle.
    CreateCaptureHandle { version: u32 },
    /// Ask the capture driver whether a session can be created.
    ProbeCapture { version: u32 },
    /// Create the capture session.
    CreateCaptureSession {
        version: u32,
        capture_type: CaptureType,
        with_cursor: bool,
        width: u32,
        height: u32,
        tracking: TrackingMode,
    },
    /// Configure the GPU-memory output of the capture session.
    SetUpCapture { version: u32, format: BufferFormat },
    /// Open an encoder session bound to the compute context.
    OpenEncodeSession { version: u32, api_version: u32, context: u64 },
    /// List the codecs the encoder offers.
    QueryCodecs,
    /// Fetch the vendor preset for a codec and preset pair.
    QueryPreset { version: u32, config_version: u32, codec: Guid, preset: Guid },
    /// Everything is acquired; this is the configuration to encode with.
    Ready { config: EncoderPresetConfig },
    /// Initialization failed; release what is held (see `teardown`).
    Abort { error: PipelineError },
    /// Nothing to do: the machine has stopped.
    Idle,
}

/// The outcome of the driver call an `Action` asked for.
#[derive(Clone, Debug)]
pub enum Event {
    ModuleFound,
    ModuleMissing,
    /// A call that returns only a status; the capture driver's last-error
    /// string where there is one.
    Status { status: u32, last_error: Option<String> },
    /// Context creation, with the context handle.
    Context { status: u32, context: u64 },
    /// The capture status probe.
    Probe { status: u32, can_create: bool, last_error: Option<String> },
    /// The codec enumeration.
    Codecs { status: u32, codecs: Vec<Guid> },
    /// The preset query, with the vendor baseline.
    Preset { status: u32, config: EncoderPresetConfig },
}

/// The state of the initialization sequence.
pub struct Pipeline {
    config: PipelineConfig,
    sizes: CaptureStructSizes,
    stage: Stage,
    held: Vec<Resource>,
    context: u64,
}

/// The mathematical state of a `Pipeline`.
pub struct PipelineView {
    pub config: PipelineConfig,
    pub sizes: CaptureStructSizes,
    pub stage: Stage,
    pub held: Seq<Resource>,
    pub context: u64,
}

impl View for Pipeline {
    type V = PipelineView;

    closed spec fn view(&self) -> PipelineView {
        PipelineView {
            config: self.config,
            sizes: self.sizes,
            stage: self.stage,
            held: self.held@,
            context: self.context,
        }
    }
}

/// The order in which resources are acquired.
pub open spec fn acquisition_order() -> Seq<Resource> {
    seq![
        Resource::ComputeContext,
        Resource::CaptureInstance,
        Resource::EncodeInstance,
        Resource::CaptureHandle,
        Resource::CaptureSession,
        Resource::EncodeSession,
    ]
}

/// Whether the machine still waits for a driver call's outcome.
pub open spec fn in_progress(s: Stage) -> bool {
    !(s is Ready || s is Failed || s is Finished)
}

/// How many resources are held while waiting at stage `s`.
pub open spec fn acquired_count(s: Stage) -> nat {
    match s {
        Stage::ResolveCompute | Stage::ResolveCapture | Stage::ResolveEncode
        | Stage::InitCompute | Stage::GetDevice | Stage::CreateContext => 0,
        Stage::CreateCaptureInstance => 1,
        Stage::CreateEncodeInstance => 2,
        Stage::CreateCaptureHandle => 3,
        Stage::ProbeCapture | Stage::CreateCaptureSession => 4,
        Stage::SetUpCapture | Stage::OpenEncodeSession => 5,
        _ => 6,
    }
}

/// The resource a successful outcome at stage `s` acquires.
pub open spec fn acquired_at(s: Stage) -> Option<Resource> {
    match s {
        Stage::CreateContext => Some(Resource::ComputeContext),
        Stage::CreateCaptureInstance => Some(Resource::CaptureInstance),
        Stage::CreateEncodeInstance => Some(Resource::EncodeInstance),
        Stage::CreateCaptureHandle => Some(Resource::CaptureHandle),
        Stage::CreateCaptureSession => Some(Resource::CaptureSession),
        Stage::OpenEncodeSession => Some(Resource::EncodeSession),
        _ => None,
    }
}

/// The stage that follows a successful outcome at stage `s`.
pub open spec fn successor(s: Stage) -> Stage {
    match s {
        Stage::ResolveCompute => Stage::ResolveCapture,
        Stage::ResolveCapture => Stage::ResolveEncode,
        Stage::ResolveEncode => Stage::InitCompute,
        Stage::InitCompute => Stage::GetDevice,
        Stage::GetDevice => Stage::CreateContext,
        Stage::CreateContext => Stage::CreateCaptureInstance,
        Stage::CreateCaptureInstance => Stage::CreateEncodeInstance,
        Stage::CreateEncodeInstance => Stage::CreateCaptureHandle,
        Stage::CreateCaptureHandle => Stage::ProbeCapture,
        Stage::ProbeCapture => Stage::CreateCaptureSession,
        Stage::CreateCaptureSession => Stage::SetUpCapture,
        Stage::SetUpCapture => Stage::OpenEncodeSession,
        Stage::OpenEncodeSession => Stage::QueryCodecs,
        Stage::QueryCodecs => Stage::QueryPreset,
        Stage::QueryPreset => Stage::Ready,
        _ => s,
    }
}

/// Whether `e` answers the call pending at stage `s`.
pub open spec fn answers(s: Stage, e: Event) -> bool {
    match s {
        Stage::ResolveCompute | Stage::ResolveCapture | Stage::ResolveEncode => e is ModuleFound
            || e is ModuleMissing,
        Stage::CreateContext => e is Context,
        Stage::ProbeCapture => e is Probe,
        Stage::QueryCodecs => e is Codecs,
        Stage::QueryPreset => e is Preset,
        _ => e is Status,
    }
}

/// The module resolved at stage `s`.
pub open spec fn module_at(s: Stage) -> DriverModule {
    match s {
        Stage::ResolveCompute => DriverModule::Compute,
        Stage::ResolveCapture => DriverModule::Capture,
        _ => DriverModule::Encode,
    }
}

/// The error for a non-success `status` of the status-only call at stage `s`.
pub open spec fn status_error(s: Stage, status: u32, last_error: Option<String>)
    -> PipelineError
{
    match s {
        Stage::InitCompute => PipelineError::DriverInit { step: ComputeStep::Init, status },
        Stage::GetDevice => PipelineError::DriverInit { step: ComputeStep::DeviceGet, status },
        Stage::CreateCaptureInstance | Stage::CreateCaptureHandle
        | Stage::CreateCaptureSession => if status == CAPTURE_STATUS_UNSUPPORTED {
            PipelineError::UnsupportedHardware { domain: Domain::Capture, status, last_error }
        } else {
            PipelineError::Driver { domain: Domain::Capture, status, last_error }
        },
        Stage::SetUpCapture => PipelineError::Driver {
            domain: Domain::Capture,
            status,
            last_error,
        },
        _ => PipelineError::Driver { domain: Domain::Encode, status, last_error },
    }
}

/// The failure that event `e` means at stage `s`, or `None` if it reports
/// success.
pub open spec fn failure(s: Stage, e: Event) -> Option<PipelineError> {
    if !answers(s, e) {
        Some(PipelineError::UnexpectedEvent)
    } else {
        match e {
            Event::ModuleFound => None,
            Event::ModuleMissing => Some(PipelineError::ModuleLoad { module: module_at(s) }),
            Event::Status { status, last_error } => if status == STATUS_SUCCESS {
                None
            } else {
                Some(status_error(s, status, last_error))
            },
            Event::Context { status, context } => if status != STATUS_SUCCESS {
                Some(PipelineError::DriverInit { step: ComputeStep::ContextCreate, status })
            } else if context == 0 {
                Some(PipelineError::InvalidContext)
            } else {
                None
            },
            Event::Probe { status, can_create, last_error } => if status != STATUS_SUCCESS {
                Some(PipelineError::Driver { domain: Domain::Capture, status, last_error })
            } else if !can_create {
                Some(PipelineError::CaptureUnavailable)
            } else {
                None
            },
            Event::Codecs { status, codecs } => if status != STATUS_SUCCESS {
                Some(PipelineError::Driver { domain: Domain::Encode, status, last_error: None })
            } else if !codecs@.contains(spec_codec_h264()) {
                Some(PipelineError::ConfigurationUnsupported { codec: spec_codec_h264() })
            } else {
                None
            },
            Event::Preset { status, config } => if status != STATUS_SUCCESS {
                Some(PipelineError::Driver { domain: Domain::Encode, status, last_error: None })
            } else {
                None
            },
        }
    }
}

/// The capture-API version tag for a structure of `size` bytes at `revision`.
pub open spec fn capture_tag(size: u32, revision: u32) -> u32 {
    capture_struct_version(
        size,
        revision,
        capture_api_version(NVFBC_VERSION_MAJOR, NVFBC_VERSION_MINOR),
    )
}

/// The encode-API version tag for a structure at `revision`.
pub open spec fn encode_tag(revision: u32) -> u32 {
    encode_struct_version(revision, encode_api_version(NVENCAPI_MAJOR_VERSION, NVENCAPI_MINOR_VERSION))
}

/// The request issued on entering the stage of `p`.
pub open spec fn request(p: PipelineView) -> Action {
    match p.stage {
        Stage::ResolveCompute => Action::Resolve { module: DriverModule::Compute },
        Stage::ResolveCapture => Action::Resolve { module: DriverModule::Capture },
        Stage::ResolveEncode => Action::Resolve { module: DriverModule::Encode },
        Stage::InitCompute => Action::InitCompute,
        Stage::GetDevice => Action::GetDevice { ordinal: p.config.device_ordinal },
        Stage::CreateContext => Action::CreateContext,
        Stage::CreateCaptureInstance => Action::CreateCaptureInstance {
            version: capture_api_version(NVFBC_VERSION_MAJOR, NVFBC_VERSION_MINOR),
        },
        Stage::CreateEncodeInstance => Action::CreateEncodeInstance {
            version: encode_tag(ENCODE_FUNCTION_LIST_REVISION),
        },
        Stage::CreateCaptureHandle => Action::CreateCaptureHandle {
            version: capture_tag(p.sizes.create_handle, CREATE_HANDLE_REVISION),
        },
        Stage::ProbeCapture => Action::ProbeCapture {
            version: capture_tag(p.sizes.get_status, GET_STATUS_REVISION),
        },
        Stage::CreateCaptureSession => Action::CreateCaptureSession {
            version: capture_tag(p.sizes.create_capture_session, CREATE_CAPTURE_SESSION_REVISION),
            capture_type: CaptureType::SharedGpuMemory,
            with_cursor: p.config.capture_cursor,
            width: p.config.frame_width,
            height: p.config.frame_height,
            tracking: TrackingMode::Default,
        },
        Stage::SetUpCapture => Action::SetUpCapture {
            version: capture_tag(p.sizes.to_cuda_setup, TO_CUDA_SETUP_REVISION),
            format: BufferFormat::Nv12,
        },
        Stage::OpenEncodeSession => Action::OpenEncodeSession {
            version: encode_tag(OPEN_SESSION_REVISION),
            api_version: encode_api_version(NVENCAPI_MAJOR_VERSION, NVENCAPI_MINOR_VERSION),
            context: p.context,
        },
        Stage::QueryCodecs => Action::QueryCodecs,
        Stage::QueryPreset => Action::QueryPreset {
            version: encode_tag(PRESET_CONFIG_REVISION) | ENCODE_LARGE_STRUCT_FLAG,
            config_version: encode_tag(ENCODE_CONFIG_REVISION) | ENCODE_LARGE_STRUCT_FLAG,
            codec: spec_codec_h264(),
            preset: spec_preset_low_latency(),
        },
        _ => Action::Idle,
    }
}

/// The state after a successful outcome `e` at the stage of `p`.
pub open spec fn advanced(p: PipelineView, e: Event) -> PipelineView {
    PipelineView {
        stage: successor(p.stage),
        held: match acquired_at(p.stage) {
            Some(r) => p.held.push(r),
            None => p.held,
        },
        context: match e {
            Event::Context { context, .. } => context,
            _ => p.context,
        },
        ..p
    }
}

/// The state and action after event `e` arrives in state `p`.
pub open spec fn next(p: PipelineView, e: Event) -> (PipelineView, Action) {
    if !in_progress(p.stage) {
        (p, Action::Idle)
    } else {
        match failure(p.stage, e) {
            Some(error) => (PipelineView { stage: Stage::Failed, ..p }, Action::Abort { error }),
            None => {
                let q = advanced(p, e);
                match e {
                    Event::Preset { config, .. } => (
                        q,
                        Action::Ready {
                            config: with_bitrate(
                                config,
                                p.config.average_bitrate_bps,
                                p.config.max_bitrate_bps,
                            ),
                        },
                    ),
                    _ => (q, request(q)),
                }
            },
        }
    }
}

impl PipelineView {
    /// The resources held are those acquired so far, in acquisition order;
    /// while the sequence runs or is ready their number is fixed by the
    /// stage; once torn down nothing is held; a held compute context is
    /// never null.
    pub open spec fn wf(&self) -> bool {
        &&& self.held.len() <= acquisition_order().len()
        &&& self.held == acquisition_order().take(self.held.len() as int)
        &&& (in_progress(self.stage) || self.stage is Ready) ==> self.held.len()
            == acquired_count(self.stage)
        &&& self.stage is Finished ==> self.held.len() == 0
        &&& self.held.len() > 0 ==> self.context != 0
    }
}

impl Pipeline {
    /// A pipeline that has acquired nothing and first asks for the compute
    /// module.
    pub fn new(config: PipelineConfig, sizes: CaptureStructSizes) -> (r: Pipeline)
        ensures
            r@.wf(),
            r@.config == config,
            r@.sizes == sizes,
            r@.stage == Stage::ResolveCompute,
            r@.held.len() == 0,
    {
        let r = Pipeline {
            config,
            sizes,
            stage: Stage::ResolveCompute,
            held: Vec::new(),
            context: 0,
        };
        assert(r.held@ =~= acquisition_order().take(0));
        r
    }

    /// Feeds the outcome of the pending driver call to the machine and
    /// returns what to do next. A failure stops the sequence for good: the
    /// machine then asks for nothing more, and `teardown` releases what is
    /// held.
    pub fn step(&mut self, event: Event) -> (a: Action)
        requires
            old(self)@.wf(),
        ensures
            final(self)@.wf(),
            (final(self)@, a) == next(old(self)@, event),
    {
        if !stage_in_progress(self.stage) {
            return Action::Idle;
        }
        let ghost before = self@;
        match check(self.stage, event) {
            Err(error) => {
                self.stage = Stage::Failed;
                Action::Abort { error }
            },
            Ok(ev) => {
                let stage = self.stage;
                proof {
                    lemma_acquired_at_extends(stage);
                }
                match stage_acquisition(stage) {
                    Some(r) => {
                        self.held.push(r);
                    },
                    None => {},
                }
                if let Event::Context { context, .. } = &ev {
                    self.context = *context;
                }
                self.stage = stage_successor(stage);
                assert(self@ == advanced(before, event));
                assert(self.held@ =~= acquisition_order().take(self.held@.len() as int));
                match ev {
                    Event::Preset { config, .. } => Action::Ready {
                        config: override_bitrate(
                            config,
                            self.config.average_bitrate_bps,
                            self.config.max_bitrate_bps,
                        ),
                    },
                    _ => self.request(),
                }
            },
        }
    }

    /// Releases everything held, most recently acquired first, and returns
    /// the release order. The machine ends `Finished`, or stays `Failed`.
    pub fn teardown(&mut self) -> (r: Vec<Resource>)
        requires
            old(self)@.wf(),
        ensures
            final(self)@.wf(),
            r@ == old(self)@.held.reverse(),
            final(self)@.held.len() == 0,
            final(self)@.stage == (if old(self)@.stage is Failed {
                Stage::Failed
            } else {
                Stage::Finished
            }),
            final(self)@.config == old(self)@.config,
            final(self)@.sizes == old(self)@.sizes,
            final(self)@.context == old(self)@.context,
    {
        let ghost all = self.held@;
        let ghost start = self@;
        let mut r: Vec<Resource> = Vec::new();
        while self.held.len() > 0
            invariant
                self@ == (PipelineView { held: self.held@, ..start }),
                self.held@ == all.take(self.held@.len() as int),
                r@.len() + self.held@.len() == all.len(),
                forall|i: int| 0 <= i < r@.len() ==> r@[i] == all[all.len() - 1 - i],
            decreases self.held@.len(),
        {
            let x = self.held.pop().unwrap();
            r.push(x);
            assert(self.held@ =~= all.take(self.held@.len() as int));
        }
        if self.stage != Stage::Failed {
            self.stage = Stage::Finished;
        }
        assert(r@ =~= all.reverse());
        assert(self.held@ =~= acquisition_order().take(0));
        r
    }

    /// The stage the machine is at.
    pub fn stage(&self) -> (r: Stage)
        ensures
            r == self@.stage,
    {
        self.stage
    }

    /// The resources held, in acquisition order.
    pub fn held(&self) -> (r: &Vec<Resource>)
        ensures
            r@ == self@.held,
    {
        &self.held
    }

    /// The first request: resolve the compute module.
    pub fn start(&self) -> (a: Action)
        ensures
            a == request(self@),
    {
        self.request()
    }

    /// The request for the current stage.
    fn request(&self) -> (a: Action)
        ensures
            a == request(self@),
    {
        match self.stage {
            Stage::ResolveCompute => Action::Resolve { module: DriverModule::Compute },
            Stage::ResolveCapture => Action::Resolve { module: DriverModule::Capture },
            Stage::ResolveEncode => Action::Resolve { module: DriverModule::Encode },
            Stage::InitCompute => Action::InitCompute,
            Stage::GetDevice => Action::GetDevice { ordinal: self.config.device_ordinal },
            Stage::CreateContext => Action::CreateContext,
            Stage::CreateCaptureInstance => Action::CreateCaptureInstance {
                version: nvfbc_version(),
            },
            Stage::CreateEncodeInstance => Action::CreateEncodeInstance {
                version: nvenc_struct_version(ENCODE_FUNCTION_LIST_REVISION),
            },
            Stage::CreateCaptureHandle => Action::CreateCaptureHandle {
                version: nvfbc_struct_version(self.sizes.create_handle, CREATE_HANDLE_REVISION),
            },
            Stage::ProbeCapture => Action::ProbeCapture {
                version: nvfbc_struct_version(self.sizes.get_status, GET_STATUS_REVISION),
            },
            Stage::CreateCaptureSession => Action::CreateCaptureSession {
                version: nvfbc_struct_version(
                    self.sizes.create_capture_session,
                    CREATE_CAPTURE_SESSION_REVISION,
                ),
                capture_type: CaptureType::SharedGpuMemory,
                with_cursor: self.config.capture_cursor,
                width: self.config.frame_width,
                height: self.config.frame_height,
                tracking: TrackingMode::Default,
            },
            Stage::SetUpCapture => Action::SetUpCapture {
                version: nvfbc_struct_version(self.sizes.to_cuda_setup, TO_CUDA_SETUP_REVISION),
                format: BufferFormat::Nv12,
            },
            Stage::OpenEncodeSession => Action::OpenEncodeSession {
                version: nvenc_struct_version(OPEN_SESSION_REVISION),
                api_version: nvenc_version(),
                context: self.context,
            },
            Stage::QueryCodecs => Action::QueryCodecs,
            Stage::QueryPreset => Action::QueryPreset {
                version: nvenc_struct_version(PRESET_CONFIG_REVISION) | ENCODE_LARGE_STRUCT_FLAG,
                config_version: nvenc_struct_version(ENCODE_CONFIG_REVISION)
                    | ENCODE_LARGE_STRUCT_FLAG,
                codec: codec_h264(),
                preset: preset_low_latency(),
            },
            _ => Action::Idle,
        }
    }
}

/// The state reached by feeding `events` to the machine in state `p`.
pub open spec fn run(p: PipelineView, events: Seq<Event>) -> PipelineView
    decreases events.len(),
{
    if events.len() == 0 {
        p
    } else {
        run(next(p, events[0]).0, events.drop_first())
    }
}

/// The resources acquired while feeding `events` to the machine in state
/// `p`, in the order in which the events acquired them.
pub open spec fn acquisitions(p: PipelineView, events: Seq<Event>) -> Seq<Resource>
    decreases events.len(),
{
    if events.len() == 0 {
        Seq::empty()
    } else {
        let q = next(p, events[0]).0;
        let gained = if q.held.len() > p.held.len() {
            seq![q.held.last()]
        } else {
            Seq::empty()
        };
        gained + acquisitions(q, events.drop_first())
    }
}

/// One event keeps the machine well formed, and either leaves the held
/// resources as they are or acquires exactly one more.
pub proof fn lemma_next_keeps_wf(p: PipelineView, e: Event)
    requires
        p.wf(),
    ensures
        next(p, e).0.wf(),
        next(p, e).0.held == p.held || (next(p, e).0.held.len() == p.held.len() + 1
            && next(p, e).0.held == p.held.push(next(p, e).0.held.last())),
{
    if in_progress(p.stage) && failure(p.stage, e) is None {
        lemma_acquired_at_extends(p.stage);
        let q = advanced(p, e);
        assert(q.held =~= acquisition_order().take(q.held.len() as int));
        if acquired_at(p.stage) is Some {
            assert(q.held.last() == acquisition_order()[acquired_count(p.stage) as int]);
        }
    }
}

/// Whatever events arrive, successful or failing midway, the resources held
/// afterwards are those held before followed by the ones acquired on the
/// way, in acquisition order; `teardown` releases the held ones in exactly
/// the reverse order.
pub proof fn lemma_release_reverses_acquisition(p: PipelineView, events: Seq<Event>)
    requires
        p.wf(),
    ensures
        run(p, events).wf(),
        run(p, events).held == p.held + acquisitions(p, events),
        run(p, events).held.reverse() == (p.held + acquisitions(p, events)).reverse(),
    decreases events.len(),
{
    if events.len() > 0 {
        let q = next(p, events[0]).0;
        lemma_next_keeps_wf(p, events[0]);
        lemma_release_reverses_acquisition(q, events.drop_first());
        if q.held.len() > p.held.len() {
            assert(p.held + acquisitions(p, events) =~= q.held + acquisitions(
                q,
                events.drop_first(),
            ));
        } else {
            assert(p.held + acquisitions(p, events) =~= q.held + acquisitions(
                q,
                events.drop_first(),
            ));
        }
    } else {
        assert(p.held + acquisitions(p, events) =~= p.held);
    }
}

/// An encoder session is only ever requested once the compute context, and
/// the capture session before it, have been acquired, and it is bound to
/// that non-null context.
pub proof fn lemma_encode_session_needs_context(p: PipelineView, e: Event)
    requires
        p.wf(),
    ensures
        next(p, e).1 is OpenEncodeSession ==> {
            let q = next(p, e).0;
            &&& q.held.contains(Resource::ComputeContext)
            &&& q.held.contains(Resource::CaptureSession)
            &&& q.context != 0
            &&& next(p, e).1->OpenEncodeSession_context == q.context
        },
{
    lemma_next_keeps_wf(p, e);
    let q = next(p, e).0;
    if next(p, e).1 is OpenEncodeSession {
        assert(q.held[0] == Resource::ComputeContext);
        assert(q.held[4] == Resource::CaptureSession);
    }
}

/// A failing outcome stops the sequence: the machine keeps what it held,
/// to be torn down, and answers every later event with nothing to do.
pub proof fn lemma_failure_stops(p: PipelineView, e: Event, later: Event)
    requires
        p.wf(),
    ensures
        next(p, e).1 is Abort ==> {
            let q = next(p, e).0;
            &&& q.stage is Failed
            &&& q.held == p.held
            &&& next(q, later) == (q, Action::Idle)
        },
{
}

fn stage_in_progress(s: Stage) -> (r: bool)
    ensures
        r == in_progress(s),
{
    match s {
        Stage::Ready | Stage::Failed | Stage::Finished => false,
        _ => true,
    }
}

fn stage_acquisition(s: Stage) -> (r: Option<Resource>)
    ensures
        r == acquired_at(s),
{
    match s {
        Stage::CreateContext => Some(Resource::ComputeContext),
        Stage::CreateCaptureInstance => Some(Resource::CaptureInstance),
        Stage::CreateEncodeInstance => Some(Resource::EncodeInstance),
        Stage::CreateCaptureHandle => Some(Resource::CaptureHandle),
        Stage::CreateCaptureSession => Some(Resource::CaptureSession),
        Stage::OpenEncodeSession => Some(Resource::EncodeSession),
        _ => None,
    }
}

fn stage_successor(s: Stage) -> (r: Stage)
    ensures
        r == successor(s),
{
    match s {
        Stage::ResolveCompute => Stage::ResolveCapture,
        Stage::ResolveCapture => Stage::ResolveEncode,
        Stage::ResolveEncode => Stage::InitCompute,
        Stage::InitCompute => Stage::GetDevice,
        Stage::GetDevice => Stage::CreateContext,
        Stage::CreateContext => Stage::CreateCaptureInstance,
        Stage::CreateCaptureInstance => Stage::CreateEncodeInstance,
        Stage::CreateEncodeInstance => Stage::CreateCaptureHandle,
        Stage::CreateCaptureHandle => Stage::ProbeCapture,
        Stage::ProbeCapture => Stage::CreateCaptureSession,
        Stage::CreateCaptureSession => Stage::SetUpCapture,
        Stage::SetUpCapture => Stage::OpenEncodeSession,
        Stage::OpenEncodeSession => Stage::QueryCodecs,
        Stage::QueryCodecs => Stage::QueryPreset,
        Stage::QueryPreset => Stage::Ready,
        _ => s,
    }
}

fn event_answers(s: Stage, e: &Event) -> (r: bool)
    ensures
        r == answers(s, *e),
{
    match s {
        Stage::ResolveCompute | Stage::ResolveCapture | Stage::ResolveEncode => match e {
            Event::ModuleFound | Event::ModuleMissing => true,
            _ => false,
        },
        Stage::CreateContext => match e {
            Event::Context { .. } => true,
            _ => false,
        },
        Stage::ProbeCapture => match e {
            Event::Probe { .. } => true,
            _ => false,
        },
        Stage::QueryCodecs => match e {
            Event::Codecs { .. } => true,
            _ => false,
        },
        Stage::QueryPreset => match e {
            Event::Preset { .. } => true,
            _ => false,
        },
        _ => match e {
            Event::Status { .. } => true,
            _ => false,
        },
    }
}

fn stage_module(s: Stage) -> (r: DriverModule)
    ensures
        r == module_at(s),
{
    match s {
        Stage::ResolveCompute => DriverModule::Compute,
        Stage::ResolveCapture => DriverModule::Capture,
        _ => DriverModule::Encode,
    }
}

fn stage_status_error(s: Stage, status: u32, last_error: Option<String>) -> (r: PipelineError)
    ensures
        r == status_error(s, status, last_error),
{
    match s {
        Stage::InitCompute => PipelineError::DriverInit { step: ComputeStep::Init, status },
        Stage::GetDevice => PipelineError::DriverInit { step: ComputeStep::DeviceGet, status },
        Stage::CreateCaptureInstance | Stage::CreateCaptureHandle
        | Stage::CreateCaptureSession => if status == CAPTURE_STATUS_UNSUPPORTED {
            PipelineError::UnsupportedHardware { domain: Domain::Capture, status, last_error }
        } else {
            PipelineError::Driver { domain: Domain::Capture, status, last_error }
        },
        Stage::SetUpCapture => PipelineError::Driver {
            domain: Domain::Capture,
            status,
            last_error,
        },
        _ => PipelineError::Driver { domain: Domain::Encode, status, last_error },
    }
}

/// Splits an outcome at stage `s` into success, handing the event back,
/// and the failure it means.
fn check(s: Stage, event: Event) -> (r: Result<Event, PipelineError>)
    ensures
        match r {
            Ok(e) => failure(s, event) is None && e == event,
            Err(error) => failure(s, event) == Some(error),
        },
{
    if !event_answers(s, &event) {
        return Err(PipelineError::UnexpectedEvent);
    }
    match event {
        Event::ModuleFound => Ok(Event::ModuleFound),
        Event::ModuleMissing => Err(PipelineError::ModuleLoad { module: stage_module(s) }),
        Event::Status { status, last_error } => if status == STATUS_SUCCESS {
            Ok(Event::Status { status, last_error })
        } else {
            Err(stage_status_error(s, status, last_error))
        },
        Event::Context { status, context } => if status != STATUS_SUCCESS {
            Err(PipelineError::DriverInit { step: ComputeStep::ContextCreate, status })
        } else if context == 0 {
            Err(PipelineError::InvalidContext)
        } else {
            Ok(Event::Context { status, context })
        },
        Event::Probe { status, can_create, last_error } => if status != STATUS_SUCCESS {
            Err(PipelineError::Driver { domain: Domain::Capture, status, last_error })
        } else if !can_create {
            Err(PipelineError::CaptureUnavailable)
        } else {
            Ok(Event::Probe { status, can_create, last_error })
        },
        Event::Codecs { status, codecs } => if status != STATUS_SUCCESS {
            Err(PipelineError::Driver { domain: Domain::Encode, status, last_error: None })
        } else if !codec_supported(&codecs, &codec_h264()) {
            Err(PipelineError::ConfigurationUnsupported { codec: codec_h264() })
        } else {
            Ok(Event::Codecs { status, codecs })
        },
        Event::Preset { status, config } => if status != STATUS_SUCCESS {
            Err(PipelineError::Driver { domain: Domain::Encode, status, last_error: None })
        } else {
            Ok(Event::Preset { status, config })
        },
    }
}

/// A stage that acquires a resource acquires the next one in order, and
/// each stage's count of held resources follows from its predecessor's.
proof fn lemma_acquired_at_extends(s: Stage)
    requires
        in_progress(s),
    ensures
        acquired_at(s) is Some ==> acquired_count(s) < acquisition_order().len()
            && acquired_at(s) == Some(acquisition_order()[acquired_count(s) as int])
            && acquired_count(successor(s)) == acquired_count(s) + 1,
        acquired_at(s) is None ==> acquired_count(successor(s)) == acquired_count(s),
{
}

} // verus!
