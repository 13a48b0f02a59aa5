//! Where the WS and arduino-cli schemas meet: what each request leads to, and what each step of a
//! long-running one tells the editor.

use vstd::prelude::*;
use vstd::string::*;

use crate::error::{Error, ErrorView};
use crate::outside;
use crate::outside::debug_str;
use crate::server::protocol;
use crate::server::protocol::{
    options_or_plain, Artifact, ArtifactView, CompileOptions, CompileResult, LibRef, ListBoardsResult,
    RequestBody, Response, ResponseBody, ResponseBodyView, ResponseView, ResultPayload, ResultPayloadView,
};
use crate::server::session;
use crate::server::session::{error_body, InFlight, Session};
use crate::service::arduino::grpc::board;
use crate::service::arduino::grpc::board::{detected_ports_to_targets, DetectedPort};
use crate::service::arduino::grpc::compile;
use crate::service::arduino::grpc::compile::{CompileEvent, CompileEventView};
use crate::service::arduino::grpc::monitor::{MonitorCommand, MonitorEvent};
use crate::service::arduino::grpc::platform::{PlatformInstallEvent, PlatformInstallEventView};
use crate::service::arduino::grpc::upload::{UploadEvent, UploadEventView};
use crate::text;
use crate::text::{cat, cat3, chars_of, split_once};

verus! {

/// How many commands may wait for a monitor.
pub const MONITOR_COMMAND_CAPACITY: usize = 32;

/// Answers one request: every response carries the request's id.
pub struct Responder {
    id: String,
}

impl View for Responder {
    type V = Seq<char>;

    closed spec fn view(&self) -> Seq<char> {
        self.id@
    }
}

impl Responder {
    /// A responder for the request `id`.
    pub fn new(id: String) -> (r: Responder)
        ensures
            r@ == id@,
    {
        Responder { id }
    }

    /// The id of the request.
    pub fn id(&self) -> (id: &str)
        ensures
            id@ == self@,
    {
        self.id.as_str()
    }

    /// The response with the given body, for the writer to send.
    pub fn send(&self, body: ResponseBody) -> (r: Response)
        ensures
            r@ == (ResponseView { id: self@, body: body@ }),
    {
        Response { id: self.id.clone(), body }
    }

    /// The response that tells of an error, for the writer to send.
    pub fn send_error(&self, error: &Error) -> (r: Response)
        ensures
            r@ == (ResponseView { id: self@, body: session::error_body_view(error@) }),
    {
        self.send(error_body(error))
    }
}

/// Work that goes on while the connection reads further requests. It owns its terminal reply.
pub enum Job {
    Compile { fqbn: String, options: CompileOptions, source: String, lib_dirs: Vec<String> },
    Upload { fqbn: String, port: String, upload_speed: u32, artifact: Artifact },
    Install { package: String, architecture: String, version: String },
}

/// What a request leads to. `M` is the handle of an open monitor.
pub enum Action<M> {
    /// Reply, and the request is done.
    Reply(ResultPayload),
    /// Wind the monitor down if there was one, then reply with the empty result.
    CloseMonitor(Option<M>),
    /// Ask the daemon for its boards, then [`boards_listed`].
    ListBoards { pnpid: Vec<String> },
    /// Resolve the libraries and make sure of the scratch directory, then [`compile_job`].
    PrepareCompile { fqbn: String, options: CompileOptions, source: String, libs: Vec<LibRef> },
    /// Signal the request in flight with this id, if there is one. No reply.
    Cancel,
    /// Register the request as in flight and start the job.
    Start(Job),
    /// Resolve the firmware and stage it, then [`firmware_job`].
    StageFirmware { fqbn: String, port: String, upload_speed: u32, pack: String, file: String },
    /// Open the monitor, then [`monitor_opened`].
    OpenMonitor { port: String, baud_rate: u32 },
    /// Hand the command to the open monitor. No reply.
    CommandMonitor(MonitorCommand),
    /// Try the daemon-wide install lock, then [`install_job`].
    LockInstall { package: String, architecture: String, version: String },
}

/// The vendor and the architecture that a platform id names, if it names both.
pub open spec fn platform_parts(platform: Seq<char>) -> Option<(Seq<char>, Seq<char>)> {
    match text::split_at_first(platform, ':') {
        Some((package, architecture)) => if package.len() > 0 && architecture.len() > 0 {
            Some((package, architecture))
        } else {
            None
        },
        None => None,
    }
}

/// Splits a platform id into its vendor and its architecture.
pub fn split_platform(platform: &str) -> (r: Option<(String, String)>)
    ensures
        match r {
            Some((package, architecture)) => platform_parts(platform@) == Some(
                (package@, architecture@),
            ),
            None => platform_parts(platform@) is None,
        },
{
    match split_once(platform, ':') {
        Some((package, architecture)) => if !package.as_str().is_empty() && !architecture.as_str().is_empty() {
            Some((package, architecture))
        } else {
            None
        },
        None => None,
    }
}

/// What is said of a platform id that names no vendor or no architecture, given its quoted form.
pub open spec fn bad_platform_view(quoted: Seq<char>) -> ErrorView {
    ErrorView::InvalidRequest(
        "installPlatform requires a `vendor:architecture` platform id, got "@ + quoted,
    )
}

/// The error for a platform id that names no vendor or no architecture, given its quoted form.
pub fn bad_platform(quoted: &str) -> (e: Error)
    ensures
        e@ == bad_platform_view(quoted@),
{
    Error::InvalidRequest(
        cat("installPlatform requires a `vendor:architecture` platform id, got ", quoted),
    )
}

/// Whether an action leaves its request without a reply.
pub open spec fn stays_silent<M>(action: Action<M>) -> bool {
    action is Cancel || action is CommandMonitor
}

/// Decides what a request leads to, and changes what the session remembers. An error becomes the
/// request's terminal reply; of the requests that succeed, only `cancel` and `monitorWrite` get
/// none.
pub fn dispatch<M, B>(session: &mut Session<M, B>, body: RequestBody) -> (r: Result<Action<M>, Error>)
    ensures
        r is Ok ==> (stays_silent(r->Ok_0) <==> body is Cancel || body is MonitorWrite),
        match body {
            RequestBody::ListBoards { pnpid } => {
                &&& r == Ok::<Action<M>, Error>(Action::ListBoards { pnpid })
                &&& *final(session) == *old(session)
            },
            RequestBody::Connect { port } => if port@.len() == 0 {
                &&& r is Err
                &&& r->Err_0@ == ErrorView::InvalidRequest("connect requires a non-empty port"@)
                &&& *final(session) == *old(session)
            } else {
                &&& r == Ok::<Action<M>, Error>(Action::Reply(ResultPayload::Empty))
                &&& *final(session) == (Session::<M, B> {
                    selected_port: Some(port),
                    ..*old(session)
                })
            },
            RequestBody::Disconnect {} => {
                &&& r == Ok::<Action<M>, Error>(Action::CloseMonitor(old(session).monitor))
                &&& *final(session) == (Session::<M, B> {
                    selected_port: None,
                    monitor: None,
                    ..*old(session)
                })
            },
            RequestBody::Compile { fqbn, options, source, libs } => {
                &&& *final(session) == *old(session)
                &&& match options {
                    Ok(options) => r == Ok::<Action<M>, Error>(
                        Action::PrepareCompile { fqbn, options, source, libs },
                    ),
                    Err(_) => {
                        &&& r matches Ok(
                            Action::PrepareCompile { fqbn: f, options: o, source: s, libs: l },
                        )
                        &&& f == fqbn
                        &&& s == source
                        &&& l == libs
                        &&& protocol::asks_for_nothing(o)
                    },
                }
            },
            RequestBody::Cancel {} => {
                &&& r == Ok::<Action<M>, Error>(Action::Cancel)
                &&& *final(session) == *old(session)
            },
            RequestBody::Upload { fqbn, port, upload_speed, artifact } => {
                &&& r == Ok::<Action<M>, Error>(
                    Action::Start(Job::Upload { fqbn, port, upload_speed, artifact }),
                )
                &&& *final(session) == *old(session)
            },
            RequestBody::FlashFirmware { fqbn, port, upload_speed, pack, file } => {
                &&& r == Ok::<Action<M>, Error>(
                    Action::StageFirmware { fqbn, port, upload_speed, pack, file },
                )
                &&& *final(session) == *old(session)
            },
            RequestBody::MonitorOpen { port, baud_rate } => {
                &&& *final(session) == *old(session)
                &&& if old(session).monitor is Some {
                    r is Err && r->Err_0@ == ErrorView::InvalidRequest(
                        "a monitor is already open; close it before opening another"@,
                    )
                } else {
                    r == Ok::<Action<M>, Error>(Action::OpenMonitor { port, baud_rate })
                }
            },
            RequestBody::MonitorWrite { data } => {
                &&& *final(session) == *old(session)
                &&& if old(session).monitor is None {
                    r is Err && r->Err_0@ == ErrorView::InvalidRequest(
                        "monitorWrite with no monitor open"@,
                    )
                } else {
                    r matches Ok(Action::CommandMonitor(MonitorCommand::Write(bytes))) && bytes@
                        == vstd::utf8::encode_utf8(data@)
                }
            },
            RequestBody::MonitorClose {} => {
                &&& r == Ok::<Action<M>, Error>(Action::CloseMonitor(old(session).monitor))
                &&& *final(session) == (Session::<M, B> { monitor: None, ..*old(session) })
            },
            RequestBody::InstallPlatform { platform, version } => {
                &&& *final(session) == *old(session)
                &&& match platform_parts(platform@) {
                    Some((package, architecture)) => {
                        &&& r matches Ok(Action::LockInstall { package: p, architecture: a, version: v })
                        &&& p@ == package
                        &&& a@ == architecture
                        &&& v@ == (match version {
                            Some(version) => version@,
                            None => seq![],
                        })
                    },
                    None => r is Err && r->Err_0@ == bad_platform_view(outside::debug_text(platform@)),
                }
            },
        },
{
    match body {
        RequestBody::ListBoards { pnpid } => Ok(Action::ListBoards { pnpid }),
        // The daemon is connectionless per port, so `connect` only records the port.
        RequestBody::Connect { port } => {
            if port.as_str().is_empty() {
                return Err(Error::InvalidRequest("connect requires a non-empty port".to_owned()));
            }
            session.select_port(port);
            Ok(Action::Reply(ResultPayload::Empty))
        },
        RequestBody::Disconnect {} => {
            let monitor = session.close_monitor();
            session.clear_port();
            Ok(Action::CloseMonitor(monitor))
        },
        RequestBody::Compile { fqbn, options, source, libs } => {
            let options = options_or_plain(options);
            Ok(Action::PrepareCompile { fqbn, options, source, libs })
        },
        RequestBody::Cancel {} => Ok(Action::Cancel),
        RequestBody::Upload { fqbn, port, upload_speed, artifact } => Ok(
            Action::Start(Job::Upload { fqbn, port, upload_speed, artifact }),
        ),
        RequestBody::FlashFirmware { fqbn, port, upload_speed, pack, file } => Ok(
            Action::StageFirmware { fqbn, port, upload_speed, pack, file },
        ),
        RequestBody::MonitorOpen { port, baud_rate } => {
            if session.has_monitor() {
                return Err(
                    Error::InvalidRequest(
                        "a monitor is already open; close it before opening another".to_owned(),
                    ),
                );
            }
            Ok(Action::OpenMonitor { port, baud_rate })
        },
        RequestBody::MonitorWrite { data } => {
            if !session.has_monitor() {
                return Err(Error::InvalidRequest("monitorWrite with no monitor open".to_owned()));
            }
            Ok(Action::CommandMonitor(MonitorCommand::Write(data.as_str().as_bytes_vec())))
        },
        RequestBody::MonitorClose {} => Ok(Action::CloseMonitor(session.close_monitor())),
        RequestBody::InstallPlatform { platform, version } => match split_platform(platform.as_str()) {
            Some((package, architecture)) => {
                let version = match version {
                    Some(version) => version,
                    None => String::new(),
                };
                Ok(Action::LockInstall { package, architecture, version })
            },
            None => Err(bad_platform(debug_str(platform.as_str()).as_str())),
        },
    }
}

/// The reply to `listBoards`, once the daemon has answered.
pub fn boards_listed(listed: Result<Vec<DetectedPort>, Error>, pnpid: &[String]) -> (r: Result<ResultPayload, Error>)
    ensures
        match listed {
            Ok(ports) => r is Ok && r->Ok_0@ == ResultPayloadView::Boards(
                board::targets_of(ports@, text::texts(pnpid@)),
            ),
            Err(e) => r == Err::<ResultPayload, Error>(e),
        },
{
    match listed {
        Ok(ports) => Ok(
            ResultPayload::Boards(
                ListBoardsResult { targets: detected_ports_to_targets(ports.as_slice(), pnpid) },
            ),
        ),
        Err(e) => Err(e),
    }
}

/// The place of the first failure.
pub open spec fn first_failure(resolved: Seq<Result<String, Error>>) -> Option<int>
    decreases resolved.len(),
{
    if resolved.len() == 0 {
        None
    } else if resolved[0] is Err {
        Some(0)
    } else {
        match first_failure(resolved.skip(1)) {
            Some(i) => Some(i + 1),
            None => None,
        }
    }
}

/// All the directories, or the first failure.
pub fn collect_lib_dirs(resolved: Vec<Result<String, Error>>) -> (r: Result<Vec<String>, Error>)
    ensures
        match first_failure(resolved@) {
            Some(i) => r is Err && resolved@[i] == Err::<String, Error>(r->Err_0),
            None => r is Ok && r->Ok_0@ == resolved@.map_values(|d: Result<String, Error>| d->Ok_0),
        },
{
    let ghost all = resolved@;
    let mut dirs: Vec<String> = Vec::new();
    assert(all.skip(0) =~= all);
    for dir in it: resolved
        invariant
            it.seq() == all,
            dirs@.len() == it.index(),
            forall|j: int| 0 <= j < it.index() ==> dirs@[j] == (#[trigger] all[j])->Ok_0,
            first_failure(all) == (match first_failure(all.skip(it.index())) {
                Some(i) => Some(i + it.index()),
                None => None,
            }),
    {
        assert(all.skip(it.index()).skip(1) =~= all.skip(it.index() + 1));
        match dir {
            Ok(dir) => {
                dirs.push(dir);
            },
            Err(e) => {
                return Err(e);
            },
        }
    }
    assert(dirs@ =~= all.map_values(|d: Result<String, Error>| d->Ok_0));
    Ok(dirs)
}

/// The compile to start, once its libraries are resolved and its scratch directory is there. A
/// bad library reference fails first, and nothing is started then.
pub fn compile_job(
    fqbn: String,
    options: CompileOptions,
    source: String,
    resolved: Vec<Result<String, Error>>,
    scratch: Result<(), Error>,
) -> (r: Result<Job, Error>)
    ensures
        match first_failure(resolved@) {
            Some(i) => r is Err && resolved@[i] == Err::<String, Error>(r->Err_0),
            None => match scratch {
                Err(e) => r == Err::<Job, Error>(e),
                Ok(_) => {
                    &&& r matches Ok(Job::Compile { fqbn: f, options: o, source: s, lib_dirs })
                    &&& f == fqbn
                    &&& o == options
                    &&& s == source
                    &&& lib_dirs@ == resolved@.map_values(|d: Result<String, Error>| d->Ok_0)
                },
            },
        },
{
    match collect_lib_dirs(resolved) {
        Err(e) => Err(e),
        Ok(lib_dirs) => match scratch {
            Err(e) => Err(e),
            Ok(_) => Ok(Job::Compile { fqbn, options, source, lib_dirs }),
        },
    }
}

/// The flash to start, once the firmware is staged out of the resource root.
pub fn firmware_job(fqbn: String, port: String, upload_speed: u32, staged: Result<String, Error>) -> (r: Result<Job, Error>)
    ensures
        match staged {
            Err(e) => r == Err::<Job, Error>(e),
            Ok(path) => {
                &&& r matches Ok(Job::Upload { fqbn: f, port: p, upload_speed: s, artifact })
                &&& f == fqbn
                &&& p == port
                &&& s == upload_speed
                &&& artifact@ == (ArtifactView {
                    format: "bin"@,
                    path: path@,
                    data: None,
                    parts: seq![],
                })
            },
        },
{
    match staged {
        Err(e) => Err(e),
        Ok(path) => {
            let artifact = Artifact {
                format: "bin".to_owned(),
                path,
                data: None,
                parts: Vec::new(),
            };
            assert(artifact@.parts =~= seq![]);
            Ok(Job::Upload { fqbn, port, upload_speed, artifact })
        },
    }
}

/// The install to start, once the daemon-wide lock was tried: an install mutates the shared data
/// directory and ends with a reinit, so a second one while one runs is rejected.
pub fn install_job(acquired: bool, package: String, architecture: String, version: String) -> (r: Result<Job, Error>)
    ensures
        if acquired {
            r == Ok::<Job, Error>(Job::Install { package, architecture, version })
        } else {
            r is Err && r->Err_0@ == ErrorView::InvalidRequest(
                "a platform install is already running"@,
            )
        },
{
    if acquired {
        Ok(Job::Install { package, architecture, version })
    } else {
        Err(Error::InvalidRequest("a platform install is already running".to_owned()))
    }
}

/// Registers a request that can be cancelled, in the place of an earlier one with the same id.
pub fn register<T>(in_flight: &mut InFlight<T>, responder: &Responder, token: T)
    ensures
        final(in_flight)@ == old(in_flight)@.insert(responder@, token),
{
    in_flight.insert(responder.id.clone(), token);
}

/// The cancellation handle that a `cancel` with this id signals.
pub fn cancel_target<'a, T>(in_flight: &'a InFlight<T>, responder: &Responder) -> (token: Option<&'a T>)
    ensures
        match token {
            Some(token) => in_flight@.contains_key(responder@) && *token == in_flight@[responder@],
            None => !in_flight@.contains_key(responder@),
        },
{
    in_flight.get(responder.id())
}

/// The request is done and can no longer be cancelled.
pub fn unregister<T>(in_flight: &mut InFlight<T>, responder: &Responder)
    ensures
        final(in_flight)@ == old(in_flight)@.remove(responder@),
{
    in_flight.remove(responder.id());
}

/// A request that was registered and is done leaves the other requests in flight as they were.
pub proof fn a_finished_request_leaves_no_trace<T>(in_flight: Map<Seq<char>, T>, id: Seq<char>, token: T)
    requires
        !in_flight.contains_key(id),
    ensures
        in_flight.insert(id, token).remove(id) == in_flight,
{
    assert(in_flight.insert(id, token).remove(id) =~= in_flight);
}

/// Whether the first event of a monitor means that the port is open.
pub fn monitor_opened(first: Option<Result<MonitorEvent, Error>>) -> (r: Result<ResultPayload, Error>)
    ensures
        match first {
            Some(Ok(MonitorEvent::Opened)) => r == Ok::<ResultPayload, Error>(ResultPayload::Empty),
            Some(Ok(MonitorEvent::Error(message))) => r is Err && r->Err_0@ == ErrorView::Daemon(
                message@,
            ),
            Some(Ok(MonitorEvent::Data(_))) => r is Err && r->Err_0@ == ErrorView::Daemon(
                "monitor streamed data before confirming the port opened"@,
            ),
            Some(Err(e)) => r == Err::<ResultPayload, Error>(e),
            None => r is Err && r->Err_0@ == ErrorView::Daemon(
                "monitor stream closed before opening"@,
            ),
        },
{
    match first {
        Some(Ok(MonitorEvent::Opened)) => Ok(ResultPayload::Empty),
        Some(Ok(MonitorEvent::Error(message))) => Err(Error::Daemon(message)),
        Some(Ok(MonitorEvent::Data(_))) => Err(
            Error::Daemon("monitor streamed data before confirming the port opened".to_owned()),
        ),
        Some(Err(e)) => Err(e),
        None => Err(Error::Daemon("monitor stream closed before opening".to_owned())),
    }
}

/// What the pump of an open monitor does next.
pub enum PumpStep {
    /// Send the body and go on.
    Emit(ResponseBody),
    /// Go on.
    Skip,
    /// Send the body and stop.
    Finish(ResponseBody),
    /// Stop. A clean end is silent: `monitorClose` has its reply already.
    End,
}

/// What the pump does with an event of the monitor's stream.
pub fn monitor_pump(event: Option<Result<MonitorEvent, Error>>) -> (step: PumpStep)
    ensures
        match event {
            Some(Ok(MonitorEvent::Data(data))) => step == PumpStep::Emit(
                ResponseBody::MonitorData { data },
            ),
            Some(Ok(MonitorEvent::Opened)) => step == PumpStep::Skip,
            Some(Ok(MonitorEvent::Error(message))) => {
                &&& step matches PumpStep::Finish(body)
                &&& body@ == session::error_body_view(ErrorView::Daemon(message@))
            },
            Some(Err(e)) => {
                &&& step matches PumpStep::Finish(body)
                &&& body@ == session::error_body_view(e@)
            },
            None => step == PumpStep::End,
        },
{
    match event {
        Some(Ok(MonitorEvent::Data(data))) => PumpStep::Emit(ResponseBody::MonitorData { data }),
        Some(Ok(MonitorEvent::Opened)) => PumpStep::Skip,
        Some(Ok(MonitorEvent::Error(message))) => PumpStep::Finish(
            error_body(&Error::Daemon(message)),
        ),
        Some(Err(e)) => PumpStep::Finish(error_body(&e)),
        None => PumpStep::End,
    }
}

/// What a job can come to next. A cancellation is looked for before an item of the stream.
pub enum Next<E> {
    /// The job could not be started.
    NotStarted(Error),
    /// The request was cancelled.
    Cancelled,
    /// The stream yielded an item.
    Item(Result<E, Error>),
    /// The stream ended.
    Ended,
    /// The daemon was told to look at its platforms anew, with this outcome.
    Reinitialized(Result<(), Error>),
}

/// What a job does next.
pub enum Step {
    /// Send the body and go on.
    Emit(ResponseBody),
    /// Tell the daemon to look at its platforms anew, and go on.
    Reinit,
    /// Send the body, and the job is done.
    Finish(ResponseBody),
}

/// A [`Step`] with its texts as character sequences.
pub enum StepView {
    Emit(ResponseBodyView),
    Reinit,
    Finish(ResponseBodyView),
}

impl View for Step {
    type V = StepView;

    open spec fn view(&self) -> StepView {
        match self {
            Step::Emit(body) => StepView::Emit(body@),
            Step::Reinit => StepView::Reinit,
            Step::Finish(body) => StepView::Finish(body@),
        }
    }
}

/// The end of a job that failed.
pub open spec fn failed(error: ErrorView) -> StepView {
    StepView::Finish(session::error_body_view(error))
}

/// The end of a job with the empty result.
pub open spec fn succeeded() -> StepView {
    StepView::Finish(ResponseBodyView::Result(ResultPayloadView::Empty))
}

/// What a job does on anything but an event of its stream.
pub open spec fn step_without_event<E>(next: Next<E>, incomplete: Seq<char>) -> StepView {
    match next {
        Next::NotStarted(e) => failed(e@),
        Next::Cancelled => failed(ErrorView::Cancelled),
        Next::Item(Err(e)) => failed(e@),
        _ => failed(ErrorView::Daemon(incomplete)),
    }
}

/// What a compile does next.
pub open spec fn compile_step_view(next: Next<CompileEvent>) -> StepView {
    match next {
        Next::Item(Ok(event)) => match event@ {
            CompileEventView::Log(chunk) => StepView::Emit(ResponseBodyView::Log { chunk }),
            CompileEventView::Progress { phase, percent } => StepView::Emit(
                ResponseBodyView::Progress { phase, percent },
            ),
            CompileEventView::Done(artifact) => StepView::Finish(
                ResponseBodyView::Result(ResultPayloadView::Compiled(artifact)),
            ),
        },
        _ => step_without_event(next, "compile ended without producing an artifact"@),
    }
}

/// What an upload does next.
pub open spec fn upload_step_view(next: Next<UploadEvent>) -> StepView {
    match next {
        Next::Item(Ok(event)) => match event@ {
            UploadEventView::Log(chunk) => StepView::Emit(ResponseBodyView::Log { chunk }),
            UploadEventView::Done => succeeded(),
        },
        _ => step_without_event(next, "upload ended without completing"@),
    }
}

/// What an install does next. On success the daemon is reinitialized first: it doesn't see the
/// new core until then.
pub open spec fn install_step_view(next: Next<PlatformInstallEvent>) -> StepView {
    match next {
        Next::Item(Ok(event)) => match event@ {
            PlatformInstallEventView::Log(chunk) => StepView::Emit(ResponseBodyView::Log { chunk }),
            PlatformInstallEventView::Progress { phase, percent } => StepView::Emit(
                ResponseBodyView::Progress { phase, percent },
            ),
            PlatformInstallEventView::Done => StepView::Reinit,
        },
        Next::Reinitialized(Ok(_)) => succeeded(),
        Next::Reinitialized(Err(e)) => failed(e@),
        _ => step_without_event(next, "platform install ended without completing"@),
    }
}

/// The end of a job that failed.
fn fail(error: &Error) -> (step: Step)
    ensures
        step@ == failed(error@),
{
    Step::Finish(error_body(error))
}

/// What a job does when its stream yields no event.
fn stop<E>(next: Next<E>, incomplete: &str) -> (step: Step)
    requires
        !(next matches Next::Item(Ok(_))),
    ensures
        step@ == step_without_event(next, incomplete@),
{
    match next {
        Next::NotStarted(e) => fail(&e),
        Next::Cancelled => fail(&Error::Cancelled),
        Next::Item(Err(e)) => fail(&e),
        _ => fail(&Error::Daemon(incomplete.to_owned())),
    }
}

/// Decides what a compile tells the editor next.
pub fn compile_stream(next: Next<CompileEvent>) -> (step: Step)
    ensures
        step@ == compile_step_view(next),
{
    match next {
        Next::Item(Ok(CompileEvent::Log(chunk))) => Step::Emit(ResponseBody::Log { chunk }),
        Next::Item(Ok(CompileEvent::Progress { phase, percent })) => Step::Emit(
            ResponseBody::Progress { phase, percent },
        ),
        Next::Item(Ok(CompileEvent::Done(artifact))) => Step::Finish(
            ResponseBody::Result(ResultPayload::Compiled(CompileResult { artifact })),
        ),
        next => stop(next, "compile ended without producing an artifact"),
    }
}

/// Decides what an upload tells the editor next.
pub fn upload_stream(next: Next<UploadEvent>) -> (step: Step)
    ensures
        step@ == upload_step_view(next),
{
    match next {
        Next::Item(Ok(UploadEvent::Log(chunk))) => Step::Emit(ResponseBody::Log { chunk }),
        Next::Item(Ok(UploadEvent::Done)) => Step::Finish(
            ResponseBody::Result(ResultPayload::Empty),
        ),
        next => stop(next, "upload ended without completing"),
    }
}

/// Decides what an install tells the editor next.
pub fn install_stream(next: Next<PlatformInstallEvent>) -> (step: Step)
    ensures
        step@ == install_step_view(next),
{
    match next {
        Next::Item(Ok(PlatformInstallEvent::Log(chunk))) => Step::Emit(ResponseBody::Log { chunk }),
        Next::Item(Ok(PlatformInstallEvent::Progress { phase, percent })) => Step::Emit(
            ResponseBody::Progress { phase, percent },
        ),
        Next::Item(Ok(PlatformInstallEvent::Done)) => Step::Reinit,
        Next::Reinitialized(Ok(_)) => Step::Finish(ResponseBody::Result(ResultPayload::Empty)),
        Next::Reinitialized(Err(e)) => fail(&e),
        next => stop(next, "platform install ended without completing"),
    }
}

/// Whether a job whose steps these are is done, and what it told the editor. Nothing that comes
/// after its end counts.
pub open spec fn told(steps: Seq<StepView>) -> (bool, Seq<ResponseBodyView>)
    decreases steps.len(),
{
    if steps.len() == 0 {
        (false, seq![])
    } else {
        let (done, bodies) = told(steps.drop_last());
        if done {
            (done, bodies)
        } else {
            match steps.last() {
                StepView::Emit(body) => (false, bodies.push(body)),
                StepView::Reinit => (false, bodies),
                StepView::Finish(body) => (true, bodies.push(body)),
            }
        }
    }
}

/// Whether the steps stream only what is not terminal, and end only with what is.
pub open spec fn well_told(steps: Seq<StepView>) -> bool {
    forall|i: int|
        0 <= i < steps.len() ==> match #[trigger] steps[i] {
            StepView::Emit(body) => !body.is_terminal(),
            StepView::Reinit => true,
            StepView::Finish(body) => body.is_terminal(),
        }
}

/// Whether a job whose steps these are is done just when one of them ended it, and told its
/// terminal reply once, last, and just when it is done.
pub open spec fn settled(steps: Seq<StepView>) -> bool {
    let (done, bodies) = told(steps);
    &&& done <==> exists|i: int| 0 <= i < steps.len() && (#[trigger] steps[i]) is Finish
    &&& done ==> bodies.len() > 0 && bodies.last().is_terminal()
    &&& forall|i: int|
        0 <= i < bodies.len() && (#[trigger] bodies[i]).is_terminal() ==> done && i == bodies.len() - 1
}

proof fn lemma_settled(steps: Seq<StepView>)
    requires
        well_told(steps),
    ensures
        settled(steps),
    decreases steps.len(),
{
    if steps.len() > 0 {
        let earlier = steps.drop_last();
        assert forall|i: int| 0 <= i < earlier.len() implies #[trigger] earlier[i] == steps[i] by {}
        assert(well_told(earlier)) by {
            assert forall|i: int| 0 <= i < earlier.len() implies match #[trigger] earlier[i] {
                StepView::Emit(body) => !body.is_terminal(),
                StepView::Reinit => true,
                StepView::Finish(body) => body.is_terminal(),
            } by {
                assert(earlier[i] == steps[i]);
            }
        }
        lemma_settled(earlier);
        assert(steps.last() == steps[steps.len() - 1]);
        if told(earlier).0 {
            let i = choose|i: int| 0 <= i < earlier.len() && (#[trigger] earlier[i]) is Finish;
            assert(steps[i] is Finish);
        } else if !(steps.last() is Finish) {
            assert forall|i: int| 0 <= i < steps.len() implies !((#[trigger] steps[i]) is Finish) by {
                if i < earlier.len() {
                    assert(!(earlier[i] is Finish));
                }
            }
        }
    }
}

/// A compile tells the editor one terminal reply, as its last word, and is done with it.
pub proof fn a_compile_has_one_terminal_reply(nexts: Seq<Next<CompileEvent>>)
    ensures
        settled(nexts.map_values(|n: Next<CompileEvent>| compile_step_view(n))),
{
    lemma_settled(nexts.map_values(|n: Next<CompileEvent>| compile_step_view(n)));
}

/// An upload tells the editor one terminal reply, as its last word, and is done with it.
pub proof fn an_upload_has_one_terminal_reply(nexts: Seq<Next<UploadEvent>>)
    ensures
        settled(nexts.map_values(|n: Next<UploadEvent>| upload_step_view(n))),
{
    lemma_settled(nexts.map_values(|n: Next<UploadEvent>| upload_step_view(n)));
}

/// An install tells the editor one terminal reply, as its last word, and is done with it.
pub proof fn an_install_has_one_terminal_reply(nexts: Seq<Next<PlatformInstallEvent>>)
    ensures
        settled(nexts.map_values(|n: Next<PlatformInstallEvent>| install_step_view(n))),
{
    lemma_settled(nexts.map_values(|n: Next<PlatformInstallEvent>| install_step_view(n)));
}

/// Whether a step ends its job well.
pub open spec fn succeeds(step: StepView) -> bool {
    step matches StepView::Finish(body) && body is Result
}

/// A compile succeeds only with its artifact.
pub proof fn a_compile_succeeds_only_with_its_artifact(next: Next<CompileEvent>)
    ensures
        succeeds(compile_step_view(next)) <==> next matches Next::Item(Ok(CompileEvent::Done(_))),
        next matches Next::Item(Ok(CompileEvent::Done(artifact))) ==> compile_step_view(next)
            == StepView::Finish(ResponseBodyView::Result(ResultPayloadView::Compiled(artifact@))),
{
}

/// An upload succeeds only on its done.
pub proof fn an_upload_succeeds_only_on_its_done(next: Next<UploadEvent>)
    ensures
        succeeds(upload_step_view(next)) <==> next matches Next::Item(Ok(UploadEvent::Done)),
{
}

/// An install succeeds only once the daemon has looked at its platforms anew.
pub proof fn an_install_succeeds_only_after_a_reinit(next: Next<PlatformInstallEvent>)
    ensures
        succeeds(install_step_view(next)) <==> next matches Next::Reinitialized(Ok(_)),
{
}

/// Whatever a job comes to that is not an event of its stream ends it: a failed start, a
/// cancellation, an error, the end of the stream.
pub proof fn a_job_ends_without_events(
    compile: Next<CompileEvent>,
    upload: Next<UploadEvent>,
    install: Next<PlatformInstallEvent>,
)
    ensures
        !(compile matches Next::Item(Ok(_))) ==> compile_step_view(compile) is Finish,
        !(upload matches Next::Item(Ok(_))) ==> upload_step_view(upload) is Finish,
        !(install matches Next::Item(Ok(_))) ==> install_step_view(install) is Finish,
{
}

/// `c` where it may stand in a sketch's name, else an underscore.
pub open spec fn sketch_char(c: char) -> char {
    if text::ascii_alphanumeric(c) {
        c
    } else {
        '_'
    }
}

/// The name of the sketch for the request `id`.
pub open spec fn sketch_name_of(id: Seq<char>) -> Seq<char> {
    "sketch_"@ + id.map_values(|c: char| sketch_char(c))
}

/// Names the sketch for the request `id`. The `sketch_` prefix guards against ids that are empty
/// or lead with a digit.
pub fn sketch_name(id: &str) -> (name: String)
    ensures
        name@ == sketch_name_of(id@),
{
    let chars = chars_of(id);
    let mut safe = String::new();
    let mut i: usize = 0;
    let ghost wanted = id@.map_values(|c: char| sketch_char(c));
    while i < chars.len()
        invariant
            chars@ == id@,
            i <= chars.len(),
            wanted == id@.map_values(|c: char| sketch_char(c)),
            safe@ == wanted.take(i as int),
        decreases chars.len() - i,
    {
        let c = chars[i];
        let kept = ('0' <= c && c <= '9') || ('A' <= c && c <= 'Z') || ('a' <= c && c <= 'z');
        safe.push(if kept { c } else { '_' });
        assert(safe@ =~= wanted.take(i + 1));
        i += 1;
    }
    cat("sketch_", safe.as_str())
}

/// Where a sketch's source goes: a directory, and in it a main file that shares its name.
pub struct SketchFiles {
    pub dir_name: String,
    pub file_name: String,
}

/// Names the directory and the main file of the sketch for the request `id`: arduino-cli compiles
/// a sketch directory whose main `.ino` shares the folder's name.
pub fn write_sketch(id: &str) -> (files: SketchFiles)
    ensures
        files.dir_name@ == sketch_name_of(id@),
        files.file_name@ == sketch_name_of(id@) + ".ino"@,
{
    let dir_name = sketch_name(id);
    let file_name = cat(dir_name.as_str(), ".ino");
    SketchFiles { dir_name, file_name }
}

/// A sketch's name is made of ASCII letters, digits and underscores, and begins with a letter,
/// whatever the request's id.
pub proof fn sketch_names_are_safe(id: Seq<char>)
    ensures
        sketch_name_of(id).len() > 0,
        sketch_name_of(id)[0] == 's',
        forall|i: int|
            0 <= i < sketch_name_of(id).len() ==> text::ascii_alphanumeric(#[trigger] sketch_name_of(id)[i])
                || sketch_name_of(id)[i] == '_',
{
    reveal_strlit("sketch_");
    let name = sketch_name_of(id);
    assert forall|i: int| 0 <= i < name.len() implies text::ascii_alphanumeric(#[trigger] name[i]) || name[i] == '_' by {
        if i < 7 {
            assert(name[i] == "sketch_"@[i]);
        } else {
            assert(name[i] == sketch_char(id[i - 7]));
        }
    }
}

/// The places of the regular files, in order.
pub open spec fn file_places(is_file: Seq<bool>) -> Seq<usize>
    decreases is_file.len(),
{
    if is_file.len() == 0 {
        seq![]
    } else {
        let earlier = file_places(is_file.drop_last());
        if is_file.last() {
            earlier.push((is_file.len() - 1) as usize)
        } else {
            earlier
        }
    }
}

/// The directory to stage a firmware image from. `P` is a path, which need not be text.
pub fn firmware_source_dir<P>(image: &str, parent: Option<P>) -> (r: Result<P, Error>)
    ensures
        match parent {
            Some(dir) => r == Ok::<P, Error>(dir),
            None => r is Err && r->Err_0@ == ErrorView::Resource(
                "firmware image "@ + image@ + " has no containing directory"@,
            ),
        },
{
    match parent {
        Some(dir) => Ok(dir),
        None => Err(
            Error::Resource(cat3("firmware image ", image, " has no containing directory")),
        ),
    }
}

/// What to copy when a firmware image is staged, given which members of the image's directory are
/// regular files: the image and every regular file beside it, by their places. The flash tool
/// writes beside its inputs, so it never gets the pack's own directory.
pub fn stage_firmware_image(is_file: &[bool]) -> (places: Vec<usize>)
    ensures
        places@ == file_places(is_file@),
{
    let mut places: Vec<usize> = Vec::new();
    let mut i: usize = 0;
    assert(places@ =~= file_places(is_file@.take(0)));
    while i < is_file.len()
        invariant
            i <= is_file.len(),
            places@ == file_places(is_file@.take(i as int)),
        decreases is_file.len() - i,
    {
        assert(is_file@.take(i + 1).drop_last() =~= is_file@.take(i as int));
        if is_file[i] {
            places.push(i);
        }
        i += 1;
    }
    assert(is_file@.take(is_file@.len() as int) =~= is_file@);
    places
}

/// Staging copies every regular file beside the image, and nothing else.
pub proof fn staging_takes_just_the_files(is_file: Seq<bool>, i: usize)
    requires
        is_file.len() <= usize::MAX,
    ensures
        file_places(is_file).contains(i) <==> i < is_file.len() && is_file[i as int],
    decreases is_file.len(),
{
    if is_file.len() > 0 {
        let earlier = is_file.drop_last();
        staging_takes_just_the_files(earlier, i);
        let before = file_places(earlier);
        let last = (is_file.len() - 1) as usize;
        let places = file_places(is_file);
        if before.contains(i) {
            let j = choose|j: int| 0 <= j < before.len() && before[j] == i;
            assert(places[j] == i);
        }
        if is_file.last() {
            assert(places[before.len() as int] == last);
            if places.contains(i) && i != last {
                let j = choose|j: int| 0 <= j < places.len() && places[j] == i;
                assert(before[j] == i);
            }
        }
    }
}

/// A platform id names a vendor and an architecture just where these stand before and behind its
/// first colon and neither is empty.
pub proof fn a_platform_id_is_a_vendor_and_an_architecture(platform: Seq<char>, vendor: Seq<char>, architecture: Seq<char>)
    ensures
        platform_parts(platform) == Some((vendor, architecture)) <==> {
            &&& platform == vendor + seq![':'] + architecture
            &&& !vendor.contains(':')
            &&& vendor.len() > 0
            &&& architecture.len() > 0
        },
{
    text::a_split_is_round_the_first(platform, ':', vendor, architecture);
}

/// An id without a colon, or with nothing on one side of its first one, names no platform.
pub proof fn a_platform_id_needs_both_halves(platform: Seq<char>)
    requires
        platform_parts(platform) is None,
    ensures
        forall|vendor: Seq<char>, architecture: Seq<char>|
            vendor.len() > 0 && architecture.len() > 0 && !vendor.contains(':') ==> platform != #[trigger] (vendor + seq![
                ':',
            ] + architecture),
{
    assert forall|vendor: Seq<char>, architecture: Seq<char>|
        vendor.len() > 0 && architecture.len() > 0 && !vendor.contains(':') implies platform != #[trigger] (vendor + seq![
        ':',
    ] + architecture) by {
        a_platform_id_is_a_vendor_and_an_architecture(platform, vendor, architecture);
    }
}

/// What is said of an id that names no platform quotes it, and is the caller's fault.
pub proof fn a_bad_platform_id_is_quoted(quoted: Seq<char>)
    ensures
        quoted.is_suffix_of(bad_platform_view(quoted).message()),
        bad_platform_view(quoted).code() == "invalidRequest"@,
{
    let words = bad_platform_view(quoted).message();
    assert(words.subrange(words.len() - quoted.len(), words.len() as int) =~= quoted);
}

proof fn lemma_first_failure(resolved: Seq<Result<String, Error>>)
    ensures
        first_failure(resolved) matches Some(i) ==> 0 <= i < resolved.len() && resolved[i] is Err && (forall|j: int|
            0 <= j < i ==> (#[trigger] resolved[j]) is Ok),
        first_failure(resolved) is None ==> forall|j: int| 0 <= j < resolved.len() ==> (#[trigger] resolved[j]) is Ok,
    decreases resolved.len(),
{
    if resolved.len() > 0 && resolved[0] is Ok {
        let rest = resolved.skip(1);
        lemma_first_failure(rest);
        assert forall|j: int| 1 <= j < resolved.len() implies #[trigger] resolved[j] == rest[j - 1] by {}
    }
}

/// The library reference that is told of is the first bad one, and one is told of just where one is
/// bad.
pub proof fn the_first_bad_reference_is_told(resolved: Seq<Result<String, Error>>, i: int)
    ensures
        first_failure(resolved) == Some(i) <==> {
            &&& 0 <= i < resolved.len()
            &&& resolved[i] is Err
            &&& forall|j: int| 0 <= j < i ==> (#[trigger] resolved[j]) is Ok
        },
        first_failure(resolved) is None <==> forall|j: int| 0 <= j < resolved.len() ==> (#[trigger] resolved[j]) is Ok,
{
    lemma_first_failure(resolved);
    let m = first_failure(resolved);
    if m is Some && 0 <= i < resolved.len() && i < m->0 {
        assert(resolved[i] is Ok);
    }
    if m is Some && m->0 < i {
        assert(resolved[m->0] is Err);
    }
}

/// The end of a job that tells the editor of an error with this code and these words.
pub open spec fn told_of(code: Seq<char>, message: Seq<char>) -> StepView {
    StepView::Finish(ResponseBodyView::Error { code, message })
}

/// A compile passes the compiler's words and its progress on unchanged, and tells of an error, a
/// cancellation or a stream that broke off as such.
pub proof fn a_compile_tells_what_it_comes_to(next: Next<CompileEvent>)
    ensures
        next matches Next::Item(Ok(CompileEvent::Log(words))) ==> compile_step_view(next) == StepView::Emit(
            ResponseBodyView::Log { chunk: words@ },
        ),
        next matches Next::Item(Ok(CompileEvent::Progress { phase, percent })) ==> compile_step_view(next)
            == StepView::Emit(ResponseBodyView::Progress { phase: phase@, percent }),
        next matches Next::Item(Err(e)) ==> compile_step_view(next) == told_of(e@.code(), e@.message()),
        next matches Next::NotStarted(e) ==> compile_step_view(next) == told_of(e@.code(), e@.message()),
        next is Cancelled ==> compile_step_view(next) == told_of("cancelled"@, "cancelled"@),
        next is Ended ==> compile_step_view(next) == told_of(
            "daemon"@,
            "daemon: "@ + "compile ended without producing an artifact"@,
        ),
{
}

/// An upload passes the tool's words on unchanged, replies with the empty result, and tells of an
/// error, a cancellation or a stream that broke off as such.
pub proof fn an_upload_tells_what_it_comes_to(next: Next<UploadEvent>)
    ensures
        next matches Next::Item(Ok(UploadEvent::Log(words))) ==> upload_step_view(next) == StepView::Emit(
            ResponseBodyView::Log { chunk: words@ },
        ),
        next matches Next::Item(Ok(UploadEvent::Done)) ==> upload_step_view(next) == StepView::Finish(
            ResponseBodyView::Result(ResultPayloadView::Empty),
        ),
        next matches Next::Item(Err(e)) ==> upload_step_view(next) == told_of(e@.code(), e@.message()),
        next matches Next::NotStarted(e) ==> upload_step_view(next) == told_of(e@.code(), e@.message()),
        next is Cancelled ==> upload_step_view(next) == told_of("cancelled"@, "cancelled"@),
        next is Ended ==> upload_step_view(next) == told_of(
            "daemon"@,
            "daemon: "@ + "upload ended without completing"@,
        ),
{
}

/// An install passes the daemon's words and its progress on unchanged, looks at the platforms anew
/// once it is done, and tells of an error, a cancellation or a stream that broke off as such.
pub proof fn an_install_tells_what_it_comes_to(next: Next<PlatformInstallEvent>)
    ensures
        next matches Next::Item(Ok(PlatformInstallEvent::Log(words))) ==> install_step_view(next) == StepView::Emit(
            ResponseBodyView::Log { chunk: words@ },
        ),
        next matches Next::Item(Ok(PlatformInstallEvent::Progress { phase, percent })) ==> install_step_view(next)
            == StepView::Emit(ResponseBodyView::Progress { phase: phase@, percent }),
        install_step_view(next) is Reinit <==> next matches Next::Item(Ok(PlatformInstallEvent::Done)),
        next matches Next::Reinitialized(Ok(_)) ==> install_step_view(next) == StepView::Finish(
            ResponseBodyView::Result(ResultPayloadView::Empty),
        ),
        next matches Next::Reinitialized(Err(e)) ==> install_step_view(next) == told_of(e@.code(), e@.message()),
        next matches Next::Item(Err(e)) ==> install_step_view(next) == told_of(e@.code(), e@.message()),
        next matches Next::NotStarted(e) ==> install_step_view(next) == told_of(e@.code(), e@.message()),
        next is Cancelled ==> install_step_view(next) == told_of("cancelled"@, "cancelled"@),
        next is Ended ==> install_step_view(next) == told_of(
            "daemon"@,
            "daemon: "@ + "platform install ended without completing"@,
        ),
{
}

/// A sketch is named after its request, character by character: an ASCII letter or digit stays, and
/// anything else becomes an underscore.
pub proof fn a_sketch_is_named_after_its_request(id: Seq<char>, i: int)
    ensures
        sketch_name_of(id).len() == id.len() + 7,
        sketch_name_of(id).take(7) == "sketch_"@,
        0 <= i < id.len() ==> sketch_name_of(id)[i + 7] == if (48 <= id[i] as int <= 57) || (65 <= id[i] as int <= 90)
            || (97 <= id[i] as int <= 122) {
            id[i]
        } else {
            '_'
        },
{
    reveal_strlit("sketch_");
    assert(sketch_name_of(id).take(7) =~= "sketch_"@);
    if 0 <= i < id.len() {
        text::ascii_letters_and_digits(id[i]);
    }
}

/// Staging goes through the files in the order in which they were listed, and takes none twice.
pub proof fn staging_keeps_the_order(is_file: Seq<bool>)
    requires
        is_file.len() <= usize::MAX,
    ensures
        forall|i: int, j: int|
            0 <= i < j < file_places(is_file).len() ==> file_places(is_file)[i] < file_places(is_file)[j],
        forall|i: int| 0 <= i < file_places(is_file).len() ==> #[trigger] file_places(is_file)[i] < is_file.len(),
    decreases is_file.len(),
{
    if is_file.len() > 0 {
        let earlier = file_places(is_file.drop_last());
        let places = file_places(is_file);
        staging_keeps_the_order(is_file.drop_last());
        assert forall|i: int| 0 <= i < places.len() implies #[trigger] places[i] < is_file.len() by {
            if i < earlier.len() {
                assert(places[i] == earlier[i]);
            }
        }
        assert forall|i: int, j: int| 0 <= i < j < places.len() implies places[i] < places[j] by {
            assert(places[i] == earlier[i]);
            if j < earlier.len() {
                assert(places[j] == earlier[j]);
            }
        }
    }
}

/// A sketch is built into an app image that goes by the sketch's main file, with a `.bin` behind it:
/// the build directory of such a build is asked for the siblings that go by that file too.
pub proof fn a_build_is_asked_for_the_siblings_of_its_sketch(
    id: &str,
    files: SketchFiles,
    listing: &compile::BuildDir,
    names: Vec<String>,
    i: int,
)
    requires
        call_ensures(write_sketch, (id,), files),
        call_ensures(compile::images_to_ask, (listing,), names),
        compile::none_ends(listing.entries@, ".ino.hex"@),
        0 <= i < listing.entries@.len(),
        forall|j: int| 0 <= j < i ==> !".ino.bin"@.is_suffix_of((#[trigger] listing.entries@[j]).name@),
        listing.entries@[i].name@ == files.file_name@ + ".bin"@,
        listing.entries@[i].exact,
    ensures
        names@.len() == 3,
        names@[0]@ == files.file_name@ + ".bootloader.bin"@,
        names@[1]@ == files.file_name@ + ".partitions.bin"@,
        names@[2]@ == "boot_app0.bin"@,
        files.file_name@ == files.dir_name@ + ".ino"@,
{
    reveal_strlit(".ino");
    reveal_strlit(".bin");
    reveal_strlit(".ino.bin");
    let name = listing.entries@[i].name@;
    assert(name.subrange(name.len() - 8, name.len() as int) =~= ".ino.bin"@);
    compile::the_images_that_are_asked_for_go_by_the_app(listing, names, i, files.file_name@);
}

/// The reply to `listBoards` has a target only for a port at which the daemon found a board that some
/// entry asks for, letter by letter.
pub proof fn a_board_is_listed_only_where_it_was_asked_for(
    ports: Vec<DetectedPort>,
    pnpid: &[String],
    r: Result<ResultPayload, Error>,
    k: int,
) -> (i: int)
    requires
        call_ensures(boards_listed, (Ok::<Vec<DetectedPort>, Error>(ports), pnpid), r),
        r matches Ok(ResultPayload::Boards(listed)) ==> 0 <= k < listed.targets@.len(),
    ensures
        r matches Ok(ResultPayload::Boards(listed)) && {
            &&& 0 <= i < ports@.len()
            &&& ports@[i].port matches Some(port)
            &&& listed.targets@[k].port@ == port.address@
            &&& board::is_label(ports@[i], port, listed.targets@[k].label@)
            &&& port.properties@.contains_key("vid"@)
            &&& port.properties@.contains_key("pid"@)
            &&& exists|j: int|
                0 <= j < pnpid@.len() && board::asks_for(
                    (#[trigger] pnpid@[j])@,
                    "USB\\VID_"@ + board::normalized(port.properties@["vid"@]@) + "&PID_"@ + board::normalized(
                        port.properties@["pid"@]@,
                    ),
                )
        },
{
    let payload = r->Ok_0;
    let targets = payload->Boards_0.targets@;
    let views = protocol::target_views(targets);
    let entries = text::texts(pnpid@);
    assert(payload@ == ResultPayloadView::Boards(board::targets_of(ports@, entries)));
    assert(views == board::targets_of(ports@, entries));
    assert(views.len() == targets.len());
    assert(views[k] == targets[k]@);
    let i = board::every_target_was_asked_for(ports@, entries, k);
    let port = ports@[i].port->0;
    let id = "USB\\VID_"@ + board::normalized(port.properties@["vid"@]@) + "&PID_"@ + board::normalized(
        port.properties@["pid"@]@,
    );
    let j = choose|j: int| 0 <= j < entries.len() && board::asks_for(#[trigger] entries[j], id);
    assert(entries[j] == pnpid@[j]@);
    i
}

/// A compile starts just where every library resolved and the scratch directory is there, with what
/// was asked for and the libraries in order.
pub proof fn a_compile_starts_with_what_was_asked_for(
    fqbn: String,
    options: CompileOptions,
    source: String,
    resolved: Vec<Result<String, Error>>,
    scratch: Result<(), Error>,
    r: Result<Job, Error>,
)
    requires
        call_ensures(compile_job, (fqbn, options, source, resolved, scratch), r),
    ensures
        r is Ok <==> scratch is Ok && forall|i: int| 0 <= i < resolved@.len() ==> (#[trigger] resolved@[i]) is Ok,
        r matches Ok(job) ==> {
            &&& job matches Job::Compile { fqbn: f, options: o, source: s, lib_dirs }
            &&& f == fqbn
            &&& o == options
            &&& s == source
            &&& lib_dirs@.len() == resolved@.len()
            &&& forall|i: int|
                0 <= i < resolved@.len() ==> resolved@[i] == Ok::<String, Error>(#[trigger] lib_dirs@[i])
        },
{
    lemma_first_failure(resolved@);
}

/// A firmware image is flashed alone, to the board, the port and at the speed that were asked for.
pub proof fn firmware_is_flashed_as_it_was_asked_for(
    fqbn: String,
    port: String,
    upload_speed: u32,
    path: String,
    r: Result<Job, Error>,
)
    requires
        call_ensures(firmware_job, (fqbn, port, upload_speed, Ok::<String, Error>(path)), r),
    ensures
        r matches Ok(Job::Upload { fqbn: f, port: p, upload_speed: s, artifact }) && {
            &&& f == fqbn
            &&& p == port
            &&& s == upload_speed
            &&& artifact.format@ == "bin"@
            &&& artifact.path@ == path@
            &&& artifact.data is None
            &&& artifact.parts@.len() == 0
        },
{
    let artifact = r->Ok_0->Upload_artifact;
    assert(artifact@.parts.len() == artifact.parts@.len());
}

/// A second install while one runs is refused; else the install starts with the platform and the
/// version that were asked for.
pub proof fn one_install_runs_at_a_time(
    acquired: bool,
    package: String,
    architecture: String,
    version: String,
    r: Result<Job, Error>,
)
    requires
        call_ensures(install_job, (acquired, package, architecture, version), r),
    ensures
        r is Ok <==> acquired,
        acquired ==> r == Ok::<Job, Error>(Job::Install { package, architecture, version }),
        !acquired ==> (r matches Err(e) && e@.code() == "invalidRequest"@),
{
}

/// A monitor is open just where its first event says so.
pub proof fn a_monitor_is_open_once_it_says_so(first: Option<Result<MonitorEvent, Error>>, r: Result<ResultPayload, Error>)
    requires
        call_ensures(monitor_opened, (first,), r),
    ensures
        r is Ok <==> first == Some(Ok::<MonitorEvent, Error>(MonitorEvent::Opened)),
        r matches Ok(payload) ==> payload is Empty,
        first matches Some(Ok(MonitorEvent::Error(words))) ==> r matches Err(e) && e@ == ErrorView::Daemon(words@),
        first matches Some(Err(e)) ==> r == Err::<ResultPayload, Error>(e),
{
}

/// What an open monitor reads is passed on, in order and unchanged, and the monitor's end is silent
/// unless something went wrong.
pub proof fn a_monitor_passes_its_data_on(event: Option<Result<MonitorEvent, Error>>, step: PumpStep)
    requires
        call_ensures(monitor_pump, (event,), step),
    ensures
        event matches Some(Ok(MonitorEvent::Data(data))) ==> step == PumpStep::Emit(ResponseBody::MonitorData { data }),
        step is Emit ==> event matches Some(Ok(MonitorEvent::Data(_))),
        step is End <==> event is None,
        step is Skip <==> event == Some(Ok::<MonitorEvent, Error>(MonitorEvent::Opened)),
        step matches PumpStep::Finish(body) ==> body is Error,
{
}

/// Every reply to a request carries that request's id, and what it was given to say.
pub proof fn a_reply_carries_its_request_id(id: String, responder: Responder, body: ResponseBody, r: Response)
    requires
        call_ensures(Responder::new, (id,), responder),
        call_ensures(Responder::send, (&responder, body), r),
    ensures
        r.id@ == id@,
        r.body@ == body@,
{
}

/// The request that a `cancel` reaches is the one with the same id, as it was last registered.
pub proof fn a_cancel_reaches_its_own_request<T>(in_flight: Map<Seq<char>, T>, id: Seq<char>, token: T, other: Seq<char>)
    ensures
        in_flight.insert(id, token).contains_key(id),
        in_flight.insert(id, token)[id] == token,
        other != id ==> in_flight.insert(id, token).contains_key(other) == in_flight.contains_key(other),
        !in_flight.insert(id, token).remove(id).contains_key(id),
{
}

/// Of what a session remembers, a request changes only what it is about: `connect` and `disconnect`
/// the port, `disconnect` and `monitorClose` the monitor, and none the scratch directory.
pub proof fn a_request_changes_only_what_it_is_about<M, B>(
    session: &mut Session<M, B>,
    body: RequestBody,
    r: Result<Action<M>, Error>,
)
    requires
        call_ensures(dispatch::<M, B>, (session, body), r),
    ensures
        final(session).temp_base == old(session).temp_base,
        !(body is Connect || body is Disconnect) ==> final(session).selected_port == old(session).selected_port,
        !(body is Disconnect || body is MonitorClose) ==> final(session).monitor == old(session).monitor,
        body is Disconnect ==> final(session).selected_port is None,
        body is Disconnect || body is MonitorClose ==> final(session).monitor is None,
        body matches RequestBody::Connect { port } ==> final(session).selected_port == if port@
            == Seq::<char>::empty() {
            old(session).selected_port
        } else {
            Some(port)
        },
        r is Err ==> *final(session) == *old(session),
{
    if let RequestBody::Connect { port } = body {
        if port@.len() == 0 {
            assert(port@ =~= Seq::<char>::empty());
        }
    }
}

/// A monitor that is open is handed over to be wound down by `disconnect` and by `monitorClose`.
pub proof fn an_open_monitor_is_wound_down<M, B>(session: &mut Session<M, B>, body: RequestBody, r: Result<Action<M>, Error>)
    requires
        call_ensures(dispatch::<M, B>, (session, body), r),
        body is Disconnect || body is MonitorClose,
    ensures
        r == Ok::<Action<M>, Error>(Action::CloseMonitor(old(session).monitor)),
{
}

/// One monitor is open at a time: another is refused while one is, and a write is while none is. What
/// is written is the UTF-8 of the text.
pub proof fn one_monitor_is_open_at_a_time<M, B>(
    session: &mut Session<M, B>,
    port: String,
    baud_rate: u32,
    opened: Result<Action<M>, Error>,
    again: &mut Session<M, B>,
    data: String,
    written: Result<Action<M>, Error>,
)
    requires
        call_ensures(dispatch::<M, B>, (session, RequestBody::MonitorOpen { port, baud_rate }), opened),
        call_ensures(dispatch::<M, B>, (again, RequestBody::MonitorWrite { data }), written),
    ensures
        opened is Err <==> old(session).monitor is Some,
        opened matches Ok(action) ==> (action matches Action::OpenMonitor { port: p, baud_rate: b } && p == port && b
            == baud_rate),
        opened matches Err(e) ==> e@.code() == "invalidRequest"@,
        written is Err <==> old(again).monitor is None,
        written matches Ok(action) ==> (action matches Action::CommandMonitor(MonitorCommand::Write(bytes)) && bytes@
            == vstd::utf8::encode_utf8(data@)),
        written matches Err(e) ==> e@.code() == "invalidRequest"@,
{
}

/// What a request asks for is what is done: nothing of a compile, an upload, a flash or a listing is
/// left out or trades places.
pub proof fn what_is_asked_for_is_done<M, B>(session: &mut Session<M, B>, body: RequestBody, r: Result<Action<M>, Error>)
    requires
        call_ensures(dispatch::<M, B>, (session, body), r),
    ensures
        body matches RequestBody::ListBoards { pnpid } ==> (r matches Ok(Action::ListBoards { pnpid: p }) && p == pnpid),
        body matches RequestBody::Upload { fqbn, port, upload_speed, artifact } ==> (r matches Ok(
            Action::Start(Job::Upload { fqbn: f, port: p, upload_speed: s, artifact: a }),
        ) && f == fqbn && p == port && s == upload_speed && a == artifact),
        body matches RequestBody::FlashFirmware { fqbn, port, upload_speed, pack, file } ==> (r matches Ok(
            Action::StageFirmware { fqbn: f, port: p, upload_speed: s, pack: k, file: l },
        ) && f == fqbn && p == port && s == upload_speed && k == pack && l == file),
        body matches RequestBody::Compile { fqbn, options, source, libs } ==> (r matches Ok(
            Action::PrepareCompile { fqbn: f, options: o, source: s, libs: l },
        ) && f == fqbn && s == source && l == libs && (options matches Ok(given) ==> o == given) && (options is Err ==> {
            &&& !o.verbose
            &&& o.warnings is None
            &&& o.libraries@.len() == 0
            &&& o.build_properties@.len() == 0
        })),
        body is Cancel ==> r == Ok::<Action<M>, Error>(Action::Cancel),
        body matches RequestBody::Connect { port } ==> (r is Err <==> port@.len() == 0),
        body matches RequestBody::Connect { port } ==> r matches Ok(action) ==> action == Action::<M>::Reply(
            ResultPayload::Empty,
        ),
{
}

/// A platform is installed by its vendor and its architecture, at the version that was asked for, or
/// the latest where none was; an id without one of the two is refused.
pub proof fn a_platform_is_installed_by_vendor_and_architecture<M, B>(
    session: &mut Session<M, B>,
    platform: String,
    version: Option<String>,
    r: Result<Action<M>, Error>,
)
    requires
        call_ensures(dispatch::<M, B>, (session, RequestBody::InstallPlatform { platform, version }), r),
    ensures
        r matches Ok(action) ==> {
            &&& action matches Action::LockInstall { package, architecture, version: v }
            &&& platform@ == package@ + seq![':'] + architecture@
            &&& !package@.contains(':')
            &&& package@.len() > 0
            &&& architecture@.len() > 0
            &&& version matches Some(wanted) ==> v@ == wanted@
            &&& version is None ==> v@.len() == 0
        },
        r matches Err(e) ==> e@.code() == "invalidRequest"@ && platform_parts(platform@) is None,
{
    if let Some((vendor, architecture)) = platform_parts(platform@) {
        a_platform_id_is_a_vendor_and_an_architecture(platform@, vendor, architecture);
    }
}

/// Every firmware file beside the image is staged, once and in order, and nothing else is.
pub proof fn every_file_beside_the_image_is_staged(is_file: &[bool], places: Vec<usize>)
    requires
        is_file@.len() <= usize::MAX,
        call_ensures(stage_firmware_image, (is_file,), places),
    ensures
        forall|i: usize| places@.contains(i) <==> i < is_file@.len() && is_file@[i as int],
        forall|i: int, j: int| 0 <= i < j < places@.len() ==> places@[i] < places@[j],
{
    assert forall|i: usize| places@.contains(i) <==> i < is_file@.len() && is_file@[i as int] by {
        staging_takes_just_the_files(is_file@, i);
    }
    staging_keeps_the_order(is_file@);
}

/// What a compile sends is what it came to: the compiler's words, its progress, and at last the
/// artifact or the error.
pub proof fn a_compile_sends_what_it_came_to(next: Next<CompileEvent>, step: Step)
    requires
        call_ensures(compile_stream, (next,), step),
    ensures
        next matches Next::Item(Ok(CompileEvent::Log(words))) ==> (step matches Step::Emit(ResponseBody::Log { chunk })
            && chunk@ == words@),
        next matches Next::Item(Ok(CompileEvent::Progress { phase, percent })) ==> (step matches Step::Emit(
            ResponseBody::Progress { phase: p, percent: c },
        ) && p@ == phase@ && c == percent),
        next matches Next::Item(Ok(CompileEvent::Done(artifact))) ==> (step matches Step::Finish(
            ResponseBody::Result(ResultPayload::Compiled(result)),
        ) && result.artifact@ == artifact@),
        next matches Next::Item(Err(e)) ==> (step matches Step::Finish(ResponseBody::Error { code, message }) && code@
            == e@.code() && message@ == e@.message()),
        next matches Next::NotStarted(e) ==> (step matches Step::Finish(ResponseBody::Error { code, message }) && code@
            == e@.code() && message@ == e@.message()),
        next is Cancelled ==> (step matches Step::Finish(ResponseBody::Error { code, .. }) && code@ == "cancelled"@),
        next is Ended ==> (step matches Step::Finish(ResponseBody::Error { code, .. }) && code@ == "daemon"@),
{
}

/// What an upload sends is what it came to: the tool's words, and at last the empty result or the
/// error.
pub proof fn an_upload_sends_what_it_came_to(next: Next<UploadEvent>, step: Step)
    requires
        call_ensures(upload_stream, (next,), step),
    ensures
        next matches Next::Item(Ok(UploadEvent::Log(words))) ==> (step matches Step::Emit(ResponseBody::Log { chunk })
            && chunk@ == words@),
        next matches Next::Item(Ok(UploadEvent::Done)) <==> (step matches Step::Finish(ResponseBody::Result(payload))
            && payload is Empty),
        next matches Next::Item(Err(e)) ==> (step matches Step::Finish(ResponseBody::Error { code, message }) && code@
            == e@.code() && message@ == e@.message()),
        next matches Next::NotStarted(e) ==> (step matches Step::Finish(ResponseBody::Error { code, message }) && code@
            == e@.code() && message@ == e@.message()),
        next is Cancelled ==> (step matches Step::Finish(ResponseBody::Error { code, .. }) && code@ == "cancelled"@),
        next is Ended ==> (step matches Step::Finish(ResponseBody::Error { code, .. }) && code@ == "daemon"@),
{
}

/// What an install sends is what it came to, with the empty result only once the daemon has looked at
/// its platforms anew.
pub proof fn an_install_sends_what_it_came_to(next: Next<PlatformInstallEvent>, step: Step)
    requires
        call_ensures(install_stream, (next,), step),
    ensures
        next matches Next::Item(Ok(PlatformInstallEvent::Log(words))) ==> (step matches Step::Emit(
            ResponseBody::Log { chunk },
        ) && chunk@ == words@),
        next matches Next::Item(Ok(PlatformInstallEvent::Progress { phase, percent })) ==> (step matches Step::Emit(
            ResponseBody::Progress { phase: p, percent: c },
        ) && p@ == phase@ && c == percent),
        next matches Next::Item(Ok(PlatformInstallEvent::Done)) <==> step is Reinit,
        next matches Next::Reinitialized(Ok(_)) <==> (step matches Step::Finish(ResponseBody::Result(payload)) && payload is Empty),
        next matches Next::Reinitialized(Err(e)) ==> (step matches Step::Finish(ResponseBody::Error { code, message })
            && code@ == e@.code() && message@ == e@.message()),
        next matches Next::Item(Err(e)) ==> (step matches Step::Finish(ResponseBody::Error { code, message }) && code@
            == e@.code() && message@ == e@.message()),
        next is Cancelled ==> (step matches Step::Finish(ResponseBody::Error { code, .. }) && code@ == "cancelled"@),
        next is Ended ==> (step matches Step::Finish(ResponseBody::Error { code, .. }) && code@ == "daemon"@),
{
}

} // verus!
