//! The WS `{id, type, payload}` envelope, the one contract with the editor. No arduino-cli types
//! appear here, so the editor stays ignorant of the daemon.

use vstd::prelude::*;

use crate::text;

verus! {

/// A browser → helper message. `id` correlates it with its streamed responses and terminal reply.
#[derive(Debug)]
pub struct Request {
    pub id: String,
    pub body: RequestBody,
}

/// Request bodies.
#[derive(Debug)]
pub enum RequestBody {
    ListBoards { pnpid: Vec<String> },
    Connect { port: String },
    Disconnect {},
    Compile {
        fqbn: String,
        /// The decoded options, or the decoder's words on why they are none, which make it a
        /// plain compile.
        options: Result<CompileOptions, String>,
        source: String,
        /// Vendored lib dirs under the resource root, read in place.
        libs: Vec<LibRef>,
    },
    Upload { fqbn: String, port: String, upload_speed: u32, artifact: Artifact },
    /// Flashes a prebuilt image that a device pack ships, skipping compile. `pack` and `file`
    /// resolve under the resource root, since the browser can't name a helper path.
    FlashFirmware { fqbn: String, port: String, upload_speed: u32, pack: String, file: String },
    MonitorOpen { port: String, baud_rate: u32 },
    MonitorWrite { data: String },
    MonitorClose {},
    /// Installs a boards platform (e.g. `esp32:esp32`). Serialized daemon-wide: a second install
    /// while one runs is rejected.
    InstallPlatform {
        platform: String,
        /// Absent means the latest indexed release.
        version: Option<String>,
    },
    /// Cancels the in-flight request with the same `id`.
    Cancel {},
}

/// A helper → browser message, correlated to its request by `id`.
#[derive(Debug)]
pub struct Response {
    pub id: String,
    pub body: ResponseBody,
}

/// How far a task has come, in percent. The wire carries a 32-bit float; the library passes on
/// the bits of one that it was told, or the two counts that make one up.
#[derive(Debug, Clone, Copy, PartialEq, Eq, Structural)]
pub enum Percent {
    /// The float with these bits.
    Reported { bits: u32 },
    /// A hundred times `bytes` over `of`, in 32-bit float arithmetic.
    Downloaded { bytes: i64, of: i64 },
}

/// Response bodies: streamed (`log`, `progress`, `monitorData`), terminal (`result`, `error`), or
/// unsolicited (`event`, with its payload as JSON text).
#[derive(Debug)]
pub enum ResponseBody {
    Log { chunk: String },
    Progress { phase: String, percent: Percent },
    Result(ResultPayload),
    Error { code: String, message: String },
    MonitorData { data: String },
    Event(String),
}

/// The payloads that a `result` can have.
#[derive(Debug)]
pub enum ResultPayload {
    /// The empty object.
    Empty,
    Boards(ListBoardsResult),
    Compiled(CompileResult),
}

/// A vendored library directory inside a pack under the resource root. `lib` is relative to the
/// pack.
#[derive(Debug)]
pub struct LibRef {
    pub pack: String,
    pub lib: String,
}

/// A compiled binary that the editor can hand back to `upload`.
#[derive(Debug)]
pub struct Artifact {
    pub format: String,
    pub path: String,
    /// Base64 bytes, set only by the cloud server, whose browser caller can't read `path`.
    pub data: Option<String>,
    /// Separately addressed images that an ESP flash needs. Empty for single-image targets like
    /// AVR, whose Intel HEX carries its own addresses.
    pub parts: Vec<ArtifactPart>,
}

/// One image within an [`Artifact`], flashed at a fixed offset.
#[derive(Debug)]
pub struct ArtifactPart {
    pub offset: u32,
    pub path: String,
    /// Base64 bytes, filled in by the cloud server.
    pub data: Option<String>,
}

/// Install status of a boards platform.
#[derive(Debug)]
pub struct PlatformStatus {
    /// `vendor:architecture`, e.g. `esp32:esp32`.
    pub id: String,
    /// Human-readable name, e.g. "Arduino AVR Boards".
    pub name: String,
    pub installed: bool,
    pub installed_version: Option<String>,
    pub latest_version: Option<String>,
}

/// A connectable board.
#[derive(Debug)]
pub struct ConnectionTarget {
    pub port: String,
    pub label: String,
}

/// `result` payload for `listBoards`.
#[derive(Debug)]
pub struct ListBoardsResult {
    pub targets: Vec<ConnectionTarget>,
}

/// `result` payload for `compile`.
#[derive(Debug)]
pub struct CompileResult {
    pub artifact: Artifact,
}

/// The `compile` request's options, tolerant by design: every field defaults and unknown keys are
/// ignored, so an unexpected shape from the editor degrades to a plain compile.
#[derive(Debug)]
pub struct CompileOptions {
    /// Turn on arduino-cli verbose compile output.
    pub verbose: bool,
    /// gcc warning level: "none", "default", "more", "all".
    pub warnings: Option<String>,
    /// Paths to single library root directories.
    pub libraries: Vec<String>,
    /// Custom `key=value` build properties.
    pub build_properties: Vec<String>,
}

/// Whether options leave everything at its default: a plain compile.
pub open spec fn asks_for_nothing(options: CompileOptions) -> bool {
    &&& !options.verbose
    &&& options.warnings is None
    &&& options.libraries@.len() == 0
    &&& options.build_properties@.len() == 0
}

/// The options that were decoded, or those of a plain compile where the editor sent an unexpected
/// shape.
pub fn options_or_plain(decoded: Result<CompileOptions, String>) -> (options: CompileOptions)
    ensures
        match decoded {
            Ok(decoded) => options == decoded,
            Err(_) => asks_for_nothing(options),
        },
{
    match decoded {
        Ok(options) => options,
        Err(_) => CompileOptions::default(),
    }
}

impl Default for CompileOptions {
    fn default() -> (options: CompileOptions)
        ensures
            asks_for_nothing(options),
    {
        CompileOptions {
            verbose: false,
            warnings: None,
            libraries: Vec::new(),
            build_properties: Vec::new(),
        }
    }
}

/// A [`ConnectionTarget`] as character sequences.
pub struct ConnectionTargetView {
    pub port: Seq<char>,
    pub label: Seq<char>,
}

impl View for ConnectionTarget {
    type V = ConnectionTargetView;

    open spec fn view(&self) -> ConnectionTargetView {
        ConnectionTargetView { port: self.port@, label: self.label@ }
    }
}

/// An [`ArtifactPart`] with its texts as character sequences.
pub struct ArtifactPartView {
    pub offset: u32,
    pub path: Seq<char>,
    pub data: Option<Seq<char>>,
}

impl View for ArtifactPart {
    type V = ArtifactPartView;

    open spec fn view(&self) -> ArtifactPartView {
        ArtifactPartView { offset: self.offset, path: self.path@, data: text::opt_text(self.data) }
    }
}

/// An [`Artifact`] with its texts as character sequences.
pub struct ArtifactView {
    pub format: Seq<char>,
    pub path: Seq<char>,
    pub data: Option<Seq<char>>,
    pub parts: Seq<ArtifactPartView>,
}

impl View for Artifact {
    type V = ArtifactView;

    open spec fn view(&self) -> ArtifactView {
        ArtifactView {
            format: self.format@,
            path: self.path@,
            data: text::opt_text(self.data),
            parts: self.parts@.map_values(|p: ArtifactPart| p@),
        }
    }
}

/// A [`PlatformStatus`] with its texts as character sequences.
pub struct PlatformStatusView {
    pub id: Seq<char>,
    pub name: Seq<char>,
    pub installed: bool,
    pub installed_version: Option<Seq<char>>,
    pub latest_version: Option<Seq<char>>,
}

impl View for PlatformStatus {
    type V = PlatformStatusView;

    open spec fn view(&self) -> PlatformStatusView {
        PlatformStatusView {
            id: self.id@,
            name: self.name@,
            installed: self.installed,
            installed_version: text::opt_text(self.installed_version),
            latest_version: text::opt_text(self.latest_version),
        }
    }
}

/// The connection targets that a sequence of them holds.
pub open spec fn target_views(targets: Seq<ConnectionTarget>) -> Seq<ConnectionTargetView> {
    targets.map_values(|t: ConnectionTarget| t@)
}

/// A [`ResultPayload`] with its texts as character sequences.
pub enum ResultPayloadView {
    Empty,
    Boards(Seq<ConnectionTargetView>),
    Compiled(ArtifactView),
}

impl View for ResultPayload {
    type V = ResultPayloadView;

    open spec fn view(&self) -> ResultPayloadView {
        match self {
            ResultPayload::Empty => ResultPayloadView::Empty,
            ResultPayload::Boards(result) => ResultPayloadView::Boards(target_views(result.targets@)),
            ResultPayload::Compiled(result) => ResultPayloadView::Compiled(result.artifact@),
        }
    }
}

/// A [`ResponseBody`] with its texts as character sequences.
pub enum ResponseBodyView {
    Log { chunk: Seq<char> },
    Progress { phase: Seq<char>, percent: Percent },
    Result(ResultPayloadView),
    Error { code: Seq<char>, message: Seq<char> },
    MonitorData { data: Seq<char> },
    Event(Seq<char>),
}

impl View for ResponseBody {
    type V = ResponseBodyView;

    open spec fn view(&self) -> ResponseBodyView {
        match self {
            ResponseBody::Log { chunk } => ResponseBodyView::Log { chunk: chunk@ },
            ResponseBody::Progress { phase, percent } => ResponseBodyView::Progress {
                phase: phase@,
                percent: *percent,
            },
            ResponseBody::Result(payload) => ResponseBodyView::Result(payload@),
            ResponseBody::Error { code, message } => ResponseBodyView::Error {
                code: code@,
                message: message@,
            },
            ResponseBody::MonitorData { data } => ResponseBodyView::MonitorData { data: data@ },
            ResponseBody::Event(json) => ResponseBodyView::Event(json@),
        }
    }
}

impl ResponseBodyView {
    /// Whether the body ends the exchange that its request opened.
    pub open spec fn is_terminal(self) -> bool {
        self is Result || self is Error
    }
}

/// A [`Response`] with its texts as character sequences.
pub struct ResponseView {
    pub id: Seq<char>,
    pub body: ResponseBodyView,
}

impl View for Response {
    type V = ResponseView;

    open spec fn view(&self) -> ResponseView {
        ResponseView { id: self.id@, body: self.body@ }
    }
}

/// The responses that a sequence of them holds.
pub open spec fn response_views(responses: Seq<Response>) -> Seq<ResponseView> {
    responses.map_values(|r: Response| r@)
}

/// What is stated of a response's view is stated of the response itself: nothing of it is left out,
/// and nothing trades places.
pub proof fn a_response_is_stated_as_it_is(response: Response)
    ensures
        response@.id == response.id@,
        response@.body == response.body@,
        response.body matches ResponseBody::Log { chunk } ==> response.body@ == (ResponseBodyView::Log { chunk: chunk@ }),
        response.body matches ResponseBody::Progress { phase, percent } ==> response.body@ == (ResponseBodyView::Progress {
            phase: phase@,
            percent,
        }),
        response.body matches ResponseBody::Error { code, message } ==> response.body@ == (ResponseBodyView::Error {
            code: code@,
            message: message@,
        }),
        response.body matches ResponseBody::MonitorData { data } ==> response.body@ == (ResponseBodyView::MonitorData {
            data: data@,
        }),
        response.body matches ResponseBody::Event(json) ==> response.body@ == ResponseBodyView::Event(json@),
        response.body matches ResponseBody::Result(ResultPayload::Empty) ==> response.body@ == ResponseBodyView::Result(
            ResultPayloadView::Empty,
        ),
        response.body matches ResponseBody::Result(ResultPayload::Compiled(result)) ==> response.body@
            == ResponseBodyView::Result(ResultPayloadView::Compiled(result.artifact@)),
        response.body matches ResponseBody::Result(ResultPayload::Boards(result)) ==> response.body@
            == ResponseBodyView::Result(ResultPayloadView::Boards(target_views(result.targets@))),
{
}

/// What is stated of an artifact's view is stated of the artifact itself, part by part.
pub proof fn an_artifact_is_stated_as_it_is(artifact: Artifact, i: int)
    ensures
        artifact@.format == artifact.format@,
        artifact@.path == artifact.path@,
        artifact@.data is Some <==> artifact.data is Some,
        artifact.data matches Some(data) ==> artifact@.data == Some(data@),
        artifact@.parts.len() == artifact.parts@.len(),
        0 <= i < artifact.parts@.len() ==> {
            let (part, view) = (artifact.parts@[i], artifact@.parts[i]);
            &&& view.offset == part.offset
            &&& view.path == part.path@
            &&& view.data is Some <==> part.data is Some
            &&& part.data matches Some(data) ==> view.data == Some(data@)
        },
{
}

/// What is stated of the view of a list of targets is stated of the targets themselves.
pub proof fn targets_are_stated_as_they_are(targets: Seq<ConnectionTarget>, i: int)
    ensures
        target_views(targets).len() == targets.len(),
        0 <= i < targets.len() ==> target_views(targets)[i].port == targets[i].port@ && target_views(targets)[i].label
            == targets[i].label@,
{
}

/// What is stated of a platform's view is stated of the platform itself.
pub proof fn a_platform_is_stated_as_it_is(platform: PlatformStatus)
    ensures
        platform@.id == platform.id@,
        platform@.name == platform.name@,
        platform@.installed == platform.installed,
        platform@.installed_version is Some <==> platform.installed_version is Some,
        platform.installed_version matches Some(version) ==> platform@.installed_version == Some(version@),
        platform@.latest_version is Some <==> platform.latest_version is Some,
        platform.latest_version matches Some(version) ==> platform@.latest_version == Some(version@),
{
}

/// The responses of a list are stated one for one.
pub proof fn responses_are_stated_one_for_one(responses: Seq<Response>, i: int)
    ensures
        response_views(responses).len() == responses.len(),
        0 <= i < responses.len() ==> response_views(responses)[i].id == responses[i].id@ && response_views(responses)[i].body
            == responses[i].body@,
{
}

/// A result and an error end an exchange; streamed text, progress and events do not.
pub proof fn a_result_or_an_error_ends_an_exchange(body: ResponseBody)
    ensures
        body@.is_terminal() <==> body is Result || body is Error,
{
}

/// A plain compile asks for no output, no warnings, no libraries and no properties.
pub proof fn a_plain_compile_asks_for_nothing(options: CompileOptions)
    requires
        asks_for_nothing(options),
    ensures
        !options.verbose,
        options.warnings is None,
        options.libraries@ == Seq::<String>::empty(),
        options.build_properties@ == Seq::<String>::empty(),
{
    assert(options.libraries@ =~= Seq::<String>::empty());
    assert(options.build_properties@ =~= Seq::<String>::empty());
}

} // verus!
