//! Starting the arduino-cli daemon: its command line, how long to wait for it, and the handshake.

use vstd::prelude::*;

use crate::error::{Error, ErrorView};
use crate::service::arduino::grpc::Instance;
use crate::text;
use crate::text::{cat, cat4, decimal_of};

verus! {

/// How long to try to reach a daemon that was started, in milliseconds.
pub const CONNECT_TIMEOUT_MS: u64 = 5000;

/// How long to wait between two tries, in milliseconds.
pub const CONNECT_RETRY_INTERVAL_MS: u64 = 100;

/// The arduino-cli to run: the one that was asked for, else the bundled one. `P` is a path, which
/// need not be text.
pub fn resolve_cli_path<P>(override_path: Option<P>, bundled: P) -> (path: P)
    ensures
        path == (match override_path {
            Some(path) => path,
            None => bundled,
        }),
{
    match override_path {
        Some(path) => path,
        None => bundled,
    }
}

/// Where the config lies in a development build: in the build's own directory. Packaged builds
/// are told where.
pub fn default_config_dir(manifest_dir: &str) -> (dir: String)
    ensures
        dir@ == manifest_dir@,
{
    manifest_dir.to_owned()
}

/// The directory and the name of the arduino-cli that is bundled for a platform.
pub open spec fn bundled_names(windows: bool, macos: bool, aarch64: bool) -> (Seq<char>, Seq<char>) {
    if windows {
        ("arduino-cli_win_64bit"@, "arduino-cli.exe"@)
    } else if macos {
        ("arduino-cli_mac_arm64"@, "arduino-cli"@)
    } else if aarch64 {
        ("arduino-cli_linux_arm64"@, "arduino-cli"@)
    } else {
        ("arduino-cli_linux_64bit"@, "arduino-cli"@)
    }
}

/// The path of the bundled arduino-cli below a development build's directory, part by part.
/// Packaged builds are told where it is.
pub fn bundled_cli_path(windows: bool, macos: bool, aarch64: bool) -> (parts: [&'static str; 3])
    ensures
        parts@[0]@ == "arduino-cli-binaries"@,
        parts@[1]@ == bundled_names(windows, macos, aarch64).0,
        parts@[2]@ == bundled_names(windows, macos, aarch64).1,
{
    let (dir, exe) = if windows {
        ("arduino-cli_win_64bit", "arduino-cli.exe")
    } else if macos {
        ("arduino-cli_mac_arm64", "arduino-cli")
    } else if aarch64 {
        ("arduino-cli_linux_arm64", "arduino-cli")
    } else {
        ("arduino-cli_linux_64bit", "arduino-cli")
    };
    ["arduino-cli-binaries", dir, exe]
}

/// A config for the daemon: the directory that was named, and the file in it.
pub struct Config<P> {
    pub dir: P,
    pub file: P,
    /// The file's path as text, lossily decoded where it is none.
    pub display: String,
    pub is_file: bool,
}

/// An argument of a command.
pub enum Arg<P> {
    Text(String),
    Path(P),
}

/// An [`Arg`] with its text as a character sequence.
pub enum ArgView<P> {
    Text(Seq<char>),
    Path(P),
}

impl<P> View for Arg<P> {
    type V = ArgView<P>;

    open spec fn view(&self) -> ArgView<P> {
        match self {
            Arg::Text(text) => ArgView::Text(text@),
            Arg::Path(path) => ArgView::Path(*path),
        }
    }
}

/// The arguments that a list of them holds.
pub open spec fn arg_views<P>(args: Seq<Arg<P>>) -> Seq<ArgView<P>> {
    args.map_values(|a: Arg<P>| a@)
}

/// How to run the daemon.
pub struct Launch<P> {
    pub args: Vec<Arg<P>>,
    /// The config's relative paths resolve against it.
    pub current_dir: Option<P>,
}

/// The arguments that start a daemon on `port`. Without `--daemonize` arduino-cli exits seconds
/// after it has bound the port.
pub open spec fn daemon_args<P>(port: u16, config_file: Option<P>) -> Seq<ArgView<P>> {
    let args = seq![
        ArgView::Text("daemon"@),
        ArgView::Text("--port"@),
        ArgView::Text(text::decimal(port as nat)),
        ArgView::Text("--daemonize"@),
    ];
    match config_file {
        Some(file) => args.push(ArgView::Text("--config-file"@)).push(ArgView::Path(file)),
        None => args,
    }
}

/// Decides how to run the daemon on `port`. A config whose file is missing is refused.
pub fn start_with<P>(port: u16, config: Option<Config<P>>) -> (r: Result<Launch<P>, Error>)
    ensures
        match config {
            None => {
                &&& r is Ok
                &&& arg_views(r->Ok_0.args@) == daemon_args(port, None::<P>)
                &&& r->Ok_0.current_dir is None
            },
            Some(config) => if config.is_file {
                &&& r is Ok
                &&& arg_views(r->Ok_0.args@) == daemon_args(port, Some(config.file))
                &&& r->Ok_0.current_dir == Some(config.dir)
            } else {
                &&& r is Err
                &&& r->Err_0@ == ErrorView::Daemon("config file not found: "@ + config.display@)
            },
        },
{
    let mut args: Vec<Arg<P>> = Vec::new();
    args.push(Arg::Text("daemon".to_owned()));
    args.push(Arg::Text("--port".to_owned()));
    args.push(Arg::Text(decimal_of(port as u128)));
    args.push(Arg::Text("--daemonize".to_owned()));
    assert(arg_views(args@) =~= daemon_args(port, None::<P>));
    match config {
        None => Ok(Launch { args, current_dir: None }),
        Some(config) => {
            if !config.is_file {
                return Err(Error::Daemon(cat("config file not found: ", config.display.as_str())));
            }
            let ghost file = config.file;
            args.push(Arg::Text("--config-file".to_owned()));
            args.push(Arg::Path(config.file));
            assert(arg_views(args@) =~= daemon_args(port, Some(file)));
            Ok(Launch { args, current_dir: Some(config.dir) })
        },
    }
}

/// The error for a daemon that could not be spawned.
pub fn spawn_failed(cli_path: &str, complaint: &str) -> (e: Error)
    ensures
        e@ == ErrorView::Daemon("spawn "@ + cli_path@ + ": "@ + complaint@),
{
    Error::Daemon(cat4("spawn ", cli_path, ": ", complaint))
}

/// Where the daemon is reached.
pub fn endpoint(port: u16) -> (uri: String)
    ensures
        uri@ == "http://127.0.0.1:"@ + text::decimal(port as nat),
        text::writes_number(uri@.skip("http://127.0.0.1:"@.len() as int), port as nat),
{
    proof {
        let host = "http://127.0.0.1:"@;
        let digits = text::decimal(port as nat);
        assert((host + digits).skip(host.len() as int) =~= digits);
        text::a_number_has_one_writing(digits, port as nat);
    }
    cat("http://127.0.0.1:", decimal_of(port as u128).as_str())
}

/// The error for an endpoint that is no URI.
pub fn invalid_endpoint(complaint: &str) -> (e: Error)
    ensures
        e@ == ErrorView::Daemon("invalid daemon endpoint: "@ + complaint@),
{
    Error::Daemon(cat("invalid daemon endpoint: ", complaint))
}

/// When to give up on a daemon that was started at `now`, on a millisecond clock.
pub fn connect_deadline(now: u64) -> (deadline: u64)
    requires
        now + CONNECT_TIMEOUT_MS <= u64::MAX,
    ensures
        deadline == now + CONNECT_TIMEOUT_MS,
        deadline == now + 5000,
{
    now + CONNECT_TIMEOUT_MS
}

/// What to do after a try to reach the daemon. `C` is the connection.
pub enum Attempt<C> {
    Connected(C),
    /// Wait for [`CONNECT_RETRY_INTERVAL_MS`] and try again.
    Retry,
    GiveUp(Error),
}

/// Decides on a try that ended at `now`: a failure is final only once the deadline has passed.
pub fn connect_with_retry<C>(port: u16, outcome: Result<C, String>, now: u64, deadline: u64) -> (r: Attempt<C>)
    ensures
        match outcome {
            Ok(channel) => r == Attempt::Connected(channel),
            Err(complaint) => if now < deadline {
                r == Attempt::<C>::Retry
            } else {
                &&& r matches Attempt::GiveUp(e)
                &&& e@ == ErrorView::Daemon(
                    "daemon not reachable on port "@ + text::decimal(port as nat) + ": "@ + complaint@,
                )
            },
        },
{
    match outcome {
        Ok(channel) => Attempt::Connected(channel),
        Err(complaint) => {
            if now >= deadline {
                Attempt::GiveUp(
                    Error::Daemon(
                        cat4(
                            "daemon not reachable on port ",
                            decimal_of(port as u128).as_str(),
                            ": ",
                            complaint.as_str(),
                        ),
                    ),
                )
            } else {
                Attempt::Retry
            }
        },
    }
}

/// The instance that the daemon created.
pub fn handshake(created: Option<Instance>) -> (r: Result<Instance, Error>)
    ensures
        match created {
            Some(instance) => r == Ok::<Instance, Error>(instance),
            None => r is Err && r->Err_0@ == ErrorView::Daemon("Create returned no instance"@),
        },
{
    match created {
        Some(instance) => Ok(instance),
        None => Err(Error::Daemon("Create returned no instance".to_owned())),
    }
}

/// What the daemon is asked to initialize.
pub struct InitRequest {
    pub instance: Option<Instance>,
    pub profile: String,
    pub sketch_path: String,
}

/// Builds the `InitRequest`: no profile and no sketch.
pub fn build_init_request(instance: Instance) -> (req: InitRequest)
    ensures
        req.instance == Some(instance),
        req.profile@ == Seq::<char>::empty(),
        req.sketch_path@ == Seq::<char>::empty(),
{
    InitRequest { instance: Some(instance), profile: String::new(), sketch_path: String::new() }
}

/// What the daemon's init stream can yield.
pub enum InitMessage {
    Error { code: i32, message: String },
    InitProgress,
    Profile,
    Empty,
}

/// What to do with what the init stream yielded.
pub enum InitStep {
    /// Log the daemon's complaint and read on.
    Warn { code: i32, message: String },
    /// Read on.
    Skip,
    /// The instance is up.
    Done,
    /// The stream broke.
    Failed(Error),
}

/// Decides on what the init stream yielded. A complaint about one item (e.g. a missing index) is
/// only logged: the instance still comes up usable.
pub fn drain_init(next: Result<Option<InitMessage>, Error>) -> (step: InitStep)
    ensures
        step == (match next {
            Ok(Some(InitMessage::Error { code, message })) => InitStep::Warn { code, message },
            Ok(Some(InitMessage::InitProgress)) => InitStep::Skip,
            Ok(Some(InitMessage::Profile)) => InitStep::Skip,
            Ok(Some(InitMessage::Empty)) => InitStep::Skip,
            Ok(None) => InitStep::Done,
            Err(e) => InitStep::Failed(e),
        }),
{
    match next {
        Ok(Some(InitMessage::Error { code, message })) => InitStep::Warn { code, message },
        Ok(Some(InitMessage::InitProgress)) | Ok(Some(InitMessage::Profile)) | Ok(
            Some(InitMessage::Empty),
        ) => InitStep::Skip,
        Ok(None) => InitStep::Done,
        Err(e) => InitStep::Failed(e),
    }
}

/// The daemon is run as `daemon --port <port> --daemonize`, the port in decimal, and with a config as
/// `--config-file <file>` behind that.
pub proof fn the_daemon_is_told_its_port_and_its_config<P>(port: u16, config_file: Option<P>)
    ensures
        ({
            let args = daemon_args(port, config_file);
            &&& args.len() == if config_file is Some { 6int } else { 4int }
            &&& args[0] == ArgView::<P>::Text("daemon"@)
            &&& args[1] == ArgView::<P>::Text("--port"@)
            &&& args[2] matches ArgView::Text(digits) && text::writes_number(digits, port as nat)
            &&& args[3] == ArgView::<P>::Text("--daemonize"@)
            &&& config_file matches Some(file) ==> args[4] == ArgView::<P>::Text("--config-file"@) && args[5]
                == ArgView::Path(file)
        }),
{
    text::a_number_has_one_writing(text::decimal(port as nat), port as nat);
}

/// Daemons on two ports are run with different arguments.
pub proof fn ports_are_told_apart<P>(a: u16, b: u16, config_file: Option<P>)
    requires
        daemon_args(a, config_file) == daemon_args(b, config_file),
    ensures
        a == b,
{
    the_daemon_is_told_its_port_and_its_config(a, config_file);
    the_daemon_is_told_its_port_and_its_config(b, config_file);
    let digits = daemon_args(a, config_file)[2]->Text_0;
    text::numbers_are_told_apart(digits, a as nat, b as nat);
}

/// Which arduino-cli is bundled goes by the system first, and by the processor only on Linux. Only
/// that for Windows is an `.exe`.
pub proof fn the_bundled_cli_goes_by_the_system(macos: bool, aarch64: bool)
    ensures
        bundled_names(true, macos, aarch64) == ("arduino-cli_win_64bit"@, "arduino-cli.exe"@),
        bundled_names(false, true, aarch64) == ("arduino-cli_mac_arm64"@, "arduino-cli"@),
        bundled_names(false, false, true) == ("arduino-cli_linux_arm64"@, "arduino-cli"@),
        bundled_names(false, false, false) == ("arduino-cli_linux_64bit"@, "arduino-cli"@),
{
}

/// A daemon that cannot be reached is tried again until the deadline, and only then given up, with the
/// port in decimal and the last complaint.
pub proof fn a_daemon_is_given_up_only_at_the_deadline<C>(
    port: u16,
    outcome: Result<C, String>,
    now: u64,
    deadline: u64,
    r: Attempt<C>,
)
    requires
        call_ensures(connect_with_retry::<C>, (port, outcome, now, deadline), r),
    ensures
        r is Connected <==> outcome is Ok,
        outcome matches Ok(channel) ==> r == Attempt::Connected(channel),
        r is Retry <==> outcome is Err && now < deadline,
        r is GiveUp <==> outcome is Err && now >= deadline,
        r matches Attempt::GiveUp(e) ==> e@.code() == "daemon"@,
{
}

/// A daemon is waited for for five seconds from when it was started, and tried ten times a second.
pub proof fn a_daemon_is_waited_for_for_five_seconds(now: u64, deadline: u64)
    requires
        now + 5000 <= u64::MAX,
        call_ensures(connect_deadline, (now,), deadline),
    ensures
        deadline - now == 5000,
        10 * CONNECT_RETRY_INTERVAL_MS == 1000,
{
}

/// A daemon is started with the config that was named, in its directory; one whose file is missing is
/// refused by the file's name. Without a config none is named.
pub proof fn a_daemon_is_started_with_its_config<P>(port: u16, config: Option<Config<P>>, r: Result<Launch<P>, Error>)
    requires
        call_ensures(start_with::<P>, (port, config), r),
    ensures
        r is Err <==> (config matches Some(config) && !config.is_file),
        r matches Err(e) ==> config->0.display@.is_suffix_of(e@.message()) && e@.code() == "daemon"@,
        r matches Ok(launch) ==> {
            &&& launch.args@.len() == if config is Some { 6int } else { 4int }
            &&& launch.args@[1] matches Arg::Text(flag) && flag@ == "--port"@
            &&& launch.args@[2] matches Arg::Text(digits) && text::writes_number(digits@, port as nat)
            &&& config matches Some(config) ==> {
                &&& launch.args@[4] matches Arg::Text(flag) && flag@ == "--config-file"@
                &&& launch.args@[5] == Arg::Path(config.file)
                &&& launch.current_dir == Some(config.dir)
            }
            &&& config is None ==> launch.current_dir is None
        },
{
    match r {
        Ok(launch) => {
            let file = match config {
                Some(config) => Some(config.file),
                None => None,
            };
            the_daemon_is_told_its_port_and_its_config(port, file);
            let views = arg_views(launch.args@);
            assert(views == daemon_args(port, file));
            assert(views.len() == launch.args@.len());
            assert forall|i: int| 0 <= i < views.len() implies #[trigger] views[i] == launch.args@[i]@ by {}
            assert(views[1] == launch.args@[1]@);
            assert(views[2] == launch.args@[2]@);
            if config is Some {
                assert(views[4] == launch.args@[4]@);
                assert(views[5] == launch.args@[5]@);
            }
        },
        Err(e) => {
            let words = e@.message();
            let display = config->0.display@;
            assert(words.subrange(words.len() - display.len(), words.len() as int) =~= display);
        },
    }
}

/// The daemon's instance is the one that it created, and a daemon that created none is an error.
pub proof fn the_instance_is_the_one_created(created: Option<Instance>, r: Result<Instance, Error>)
    requires
        call_ensures(handshake, (created,), r),
    ensures
        r is Ok <==> created is Some,
        created matches Some(instance) ==> r == Ok::<Instance, Error>(instance),
{
}

/// A complaint of the init stream is only logged; the instance is up at the end of the stream, and not
/// where the stream broke.
pub proof fn an_instance_is_up_at_the_end_of_its_init(next: Result<Option<InitMessage>, Error>, step: InitStep)
    requires
        call_ensures(drain_init, (next,), step),
    ensures
        step is Done <==> next == Ok::<Option<InitMessage>, Error>(None),
        step is Failed <==> next is Err,
        next matches Err(e) ==> step == InitStep::Failed(e),
        step is Warn <==> next matches Ok(Some(InitMessage::Error { .. })),
        next matches Ok(Some(InitMessage::Error { code, message })) ==> step == (InitStep::Warn { code, message }),
{
}

} // verus!
