//! Boards platforms: their status, and the events of an install.

use vstd::prelude::*;

use crate::error::{Error, ErrorView};
use crate::server::protocol::{Percent, PlatformStatus, PlatformStatusView};
use crate::service::arduino::grpc::Instance;
use crate::strmap::StrMap;
use crate::text;
use crate::text::{cat, cat3};

verus! {

/// One step of an install, in the helper's own shapes.
#[derive(Debug)]
pub enum PlatformInstallEvent {
    Log(String),
    Progress { phase: String, percent: Percent },
    /// The daemon instance must be reinitialized before the new platform is compilable.
    Done,
}

/// A [`PlatformInstallEvent`] with its texts as character sequences.
pub enum PlatformInstallEventView {
    Log(Seq<char>),
    Progress { phase: Seq<char>, percent: Percent },
    Done,
}

impl View for PlatformInstallEvent {
    type V = PlatformInstallEventView;

    open spec fn view(&self) -> PlatformInstallEventView {
        match self {
            PlatformInstallEvent::Log(chunk) => PlatformInstallEventView::Log(chunk@),
            PlatformInstallEvent::Progress { phase, percent } => PlatformInstallEventView::Progress {
                phase: phase@,
                percent: *percent,
            },
            PlatformInstallEvent::Done => PlatformInstallEventView::Done,
        }
    }
}

/// A release of a platform.
pub struct PlatformRelease {
    pub name: String,
}

/// What identifies a platform.
pub struct PlatformMetadata {
    pub id: String,
}

/// What a search says of a platform.
pub struct PlatformSummary {
    pub metadata: Option<PlatformMetadata>,
    /// By version.
    pub releases: StrMap<PlatformRelease>,
    pub installed_version: String,
    pub latest_version: String,
}

/// A text, or nothing where it is empty.
pub open spec fn unless_empty(value: Seq<char>) -> Option<Seq<char>> {
    if value.len() > 0 {
        Some(value)
    } else {
        None
    }
}

/// A text, or nothing where it is empty.
pub fn non_empty(value: String) -> (r: Option<String>)
    ensures
        text::opt_text(r) == unless_empty(value@),
{
    if value.as_str().is_empty() {
        None
    } else {
        Some(value)
    }
}

/// The id of a platform, empty where the daemon gave no metadata.
pub open spec fn id_of(summary: PlatformSummary) -> Seq<char> {
    match summary.metadata {
        Some(metadata) => metadata.id@,
        None => seq![],
    }
}

/// What to call a platform: the name of its latest release, else that of the installed one, and
/// its id where neither release is known or the known one has no name.
pub open spec fn name_of(summary: PlatformSummary) -> Seq<char> {
    let releases = summary.releases@;
    let name = if releases.contains_key(summary.latest_version@) {
        releases[summary.latest_version@].name@
    } else if releases.contains_key(summary.installed_version@) {
        releases[summary.installed_version@].name@
    } else {
        seq![]
    };
    if name.len() > 0 {
        name
    } else {
        id_of(summary)
    }
}

/// The status that a search reports of a platform.
pub open spec fn status_of(summary: PlatformSummary) -> PlatformStatusView {
    PlatformStatusView {
        id: id_of(summary),
        name: name_of(summary),
        installed: summary.installed_version@.len() > 0,
        installed_version: unless_empty(summary.installed_version@),
        latest_version: unless_empty(summary.latest_version@),
    }
}

/// The status that a search reports of a platform.
pub fn to_status(summary: PlatformSummary) -> (status: PlatformStatus)
    ensures
        status@ == status_of(summary),
{
    let id = match summary.metadata {
        Some(metadata) => metadata.id,
        None => String::new(),
    };
    assert(id@ =~= id_of(summary));
    let release = match summary.releases.get(summary.latest_version.as_str()) {
        Some(release) => Some(release),
        None => summary.releases.get(summary.installed_version.as_str()),
    };
    let name = match release {
        Some(release) => if release.name.as_str().is_empty() {
            id.clone()
        } else {
            release.name.clone()
        },
        None => id.clone(),
    };
    let installed = !summary.installed_version.as_str().is_empty();
    PlatformStatus {
        id,
        name,
        installed,
        installed_version: non_empty(summary.installed_version),
        latest_version: non_empty(summary.latest_version),
    }
}

/// The statuses that a search reports, in its order.
pub fn to_statuses(found: Vec<PlatformSummary>) -> (statuses: Vec<PlatformStatus>)
    ensures
        statuses@.map_values(|s: PlatformStatus| s@) == found@.map_values(|s: PlatformSummary| status_of(s)),
{
    let ghost all = found@;
    let ghost wanted = all.map_values(|s: PlatformSummary| status_of(s));
    let mut statuses: Vec<PlatformStatus> = Vec::new();
    for summary in it: found
        invariant
            it.seq() == all,
            wanted == all.map_values(|s: PlatformSummary| status_of(s)),
            statuses@.len() == it.index(),
            forall|j: int| 0 <= j < it.index() ==> (#[trigger] statuses@[j])@ == wanted[j],
    {
        statuses.push(to_status(summary));
    }
    assert(statuses@.map_values(|s: PlatformStatus| s@) =~= wanted);
    statuses
}

/// What a download says of itself.
pub enum DownloadMessage {
    Start { label: String },
    Update { downloaded: i64, total_size: i64 },
    End { success: bool, message: String },
}

/// What an install response says.
pub enum InstallMessage {
    /// Empty where the daemon sent no download message.
    Progress(Option<DownloadMessage>),
    TaskProgress { name: String, message: String, percent: Percent },
    Result,
}

/// The label of the download under way after a message: a start names it, and no other message
/// repeats it.
pub open spec fn phase_after(message: Option<InstallMessage>, phase: Seq<char>) -> Seq<char> {
    match message {
        Some(InstallMessage::Progress(Some(DownloadMessage::Start { label }))) => label@,
        _ => phase,
    }
}

/// The event that a download message stands for, if it stands for one.
pub open spec fn download_event(message: DownloadMessage, phase: Seq<char>) -> Option<
    Result<PlatformInstallEventView, ErrorView>,
> {
    match message {
        DownloadMessage::Start { label } => Some(
            Ok(
                PlatformInstallEventView::Progress {
                    phase: label@,
                    percent: Percent::Reported { bits: 0 },
                },
            ),
        ),
        DownloadMessage::Update { downloaded, total_size } => if total_size > 0 {
            Some(
                Ok(
                    PlatformInstallEventView::Progress {
                        phase,
                        percent: Percent::Downloaded { bytes: downloaded, of: total_size },
                    },
                ),
            )
        } else {
            None
        },
        DownloadMessage::End { success, message } => if success {
            if message@.len() > 0 {
                Some(Ok(PlatformInstallEventView::Log(message@ + "\n"@)))
            } else {
                None
            }
        } else if message@.len() > 0 {
            Some(Err(ErrorView::Daemon(message@)))
        } else {
            Some(Err(ErrorView::Daemon("download of "@ + phase + " failed"@)))
        },
    }
}

/// The event that an install response stands for, if it stands for one.
pub open spec fn install_event(message: Option<InstallMessage>, phase: Seq<char>) -> Option<
    Result<PlatformInstallEventView, ErrorView>,
> {
    match message {
        None => None,
        Some(InstallMessage::Progress(None)) => None,
        Some(InstallMessage::Progress(Some(download))) => download_event(download, phase),
        Some(InstallMessage::TaskProgress { name, message, percent }) => Some(
            Ok(
                PlatformInstallEventView::Progress {
                    phase: if name@.len() == 0 { message@ } else { name@ },
                    percent,
                },
            ),
        ),
        Some(InstallMessage::Result) => Some(Ok(PlatformInstallEventView::Done)),
    }
}

/// An event or an error as what it says.
pub open spec fn outcome_view(r: Option<Result<PlatformInstallEvent, Error>>) -> Option<
    Result<PlatformInstallEventView, ErrorView>,
> {
    match r {
        None => None,
        Some(Ok(event)) => Some(Ok(event@)),
        Some(Err(e)) => Some(Err(e@)),
    }
}

/// Maps an install response to the event that it stands for, or to none. `phase` carries the
/// download's label across its updates, which don't repeat it.
pub fn translate(message: Option<InstallMessage>, phase: &mut String) -> (r: Option<Result<PlatformInstallEvent, Error>>)
    ensures
        outcome_view(r) == install_event(message, old(phase)@),
        final(phase)@ == phase_after(message, old(phase)@),
{
    match message {
        None => None,
        Some(InstallMessage::Progress(None)) => None,
        Some(InstallMessage::Progress(Some(download))) => translate_download(download, phase),
        Some(InstallMessage::TaskProgress { name, message, percent }) => Some(
            Ok(
                PlatformInstallEvent::Progress {
                    phase: if name.as_str().is_empty() { message } else { name },
                    percent,
                },
            ),
        ),
        Some(InstallMessage::Result) => Some(Ok(PlatformInstallEvent::Done)),
    }
}

/// Maps a download message to the event that it stands for, or to none.
pub fn translate_download(message: DownloadMessage, phase: &mut String) -> (r: Option<Result<PlatformInstallEvent, Error>>)
    ensures
        outcome_view(r) == download_event(message, old(phase)@),
        final(phase)@ == phase_after(
            Some(InstallMessage::Progress(Some(message))),
            old(phase)@,
        ),
{
    match message {
        DownloadMessage::Start { label } => {
            *phase = label;
            Some(
                Ok(
                    PlatformInstallEvent::Progress {
                        phase: phase.clone(),
                        percent: Percent::Reported { bits: 0 },
                    },
                ),
            )
        },
        DownloadMessage::Update { downloaded, total_size } => if total_size > 0 {
            Some(
                Ok(
                    PlatformInstallEvent::Progress {
                        phase: phase.clone(),
                        percent: Percent::Downloaded { bytes: downloaded, of: total_size },
                    },
                ),
            )
        } else {
            None
        },
        DownloadMessage::End { success, message } => if success {
            if message.as_str().is_empty() {
                None
            } else {
                Some(Ok(PlatformInstallEvent::Log(cat(message.as_str(), "\n"))))
            }
        } else if message.as_str().is_empty() {
            Some(Err(Error::Daemon(cat3("download of ", phase.as_str(), " failed"))))
        } else {
            Some(Err(Error::Daemon(message)))
        },
    }
}

/// The label that a download goes by after some messages, none having come before.
pub open spec fn phase_of(messages: Seq<Option<InstallMessage>>) -> Seq<char>
    decreases messages.len(),
{
    if messages.len() == 0 {
        seq![]
    } else {
        phase_after(messages.last(), phase_of(messages.drop_last()))
    }
}

/// Whether a message starts a download.
pub open spec fn is_start(message: Option<InstallMessage>) -> bool {
    message matches Some(InstallMessage::Progress(Some(DownloadMessage::Start { .. })))
}

/// Only a start changes the label of the download under way, and it is reported at once, at zero
/// percent.
pub proof fn only_a_start_changes_the_label(message: Option<InstallMessage>, phase: Seq<char>)
    ensures
        phase_after(message, phase) != phase ==> is_start(message),
        is_start(message) ==> install_event(message, phase) == Some(
            Ok::<PlatformInstallEventView, ErrorView>(
                PlatformInstallEventView::Progress {
                    phase: phase_after(message, phase),
                    percent: Percent::Reported { bits: 0 },
                },
            ),
        ),
{
}

/// After a start, however many messages other than a start lie between, the label is still that
/// of the start, and an update is reported under it, by its counts; an update of unknown size is
/// not reported.
pub proof fn updates_keep_the_label_of_their_start(
    messages: Seq<Option<InstallMessage>>,
    i: int,
    label: String,
    downloaded: i64,
    total_size: i64,
)
    requires
        0 <= i < messages.len(),
        messages[i] == Some(InstallMessage::Progress(Some(DownloadMessage::Start { label }))),
        forall|j: int| i < j < messages.len() ==> !is_start(#[trigger] messages[j]),
    ensures
        phase_of(messages) == label@,
        install_event(
            Some(InstallMessage::Progress(Some(DownloadMessage::Update { downloaded, total_size }))),
            phase_of(messages),
        ) == if total_size > 0 {
            Some(
                Ok::<PlatformInstallEventView, ErrorView>(
                    PlatformInstallEventView::Progress {
                        phase: label@,
                        percent: Percent::Downloaded { bytes: downloaded, of: total_size },
                    },
                ),
            )
        } else {
            None
        },
    decreases messages.len(),
{
    if i < messages.len() - 1 {
        let earlier = messages.drop_last();
        assert(earlier[i] == messages[i]);
        assert forall|j: int| i < j < earlier.len() implies !is_start(#[trigger] earlier[j]) by {
            assert(earlier[j] == messages[j]);
        }
        updates_keep_the_label_of_their_start(earlier, i, label, downloaded, total_size);
        assert(!is_start(messages[messages.len() - 1]));
    }
}

/// What the daemon is asked to search for.
pub struct PlatformSearchRequest {
    pub instance: Option<Instance>,
    pub search_args: String,
    pub manually_installed: bool,
}

/// Builds the `PlatformSearchRequest`. An empty `query` matches all platforms.
pub fn build_search_request(instance: Instance, query: &str) -> (req: PlatformSearchRequest)
    ensures
        req.instance == Some(instance),
        req.search_args@ == query@,
        !req.manually_installed,
{
    PlatformSearchRequest {
        instance: Some(instance),
        search_args: query.to_owned(),
        manually_installed: false,
    }
}

/// What the daemon is asked to install.
pub struct PlatformInstallRequest {
    pub instance: Option<Instance>,
    pub platform_package: String,
    pub architecture: String,
    pub version: String,
    pub skip_post_install: bool,
    pub no_overwrite: bool,
    pub skip_pre_uninstall: bool,
}

/// Builds the `PlatformInstallRequest`. An empty `version` means the latest indexed release.
pub fn build_install_request(
    instance: Instance,
    package: &str,
    architecture: &str,
    version: &str,
) -> (req: PlatformInstallRequest)
    ensures
        req.instance == Some(instance),
        req.platform_package@ == package@,
        req.architecture@ == architecture@,
        req.version@ == version@,
        !req.skip_post_install,
        !req.no_overwrite,
        !req.skip_pre_uninstall,
{
    PlatformInstallRequest {
        instance: Some(instance),
        platform_package: package.to_owned(),
        architecture: architecture.to_owned(),
        version: version.to_owned(),
        skip_post_install: false,
        no_overwrite: false,
        skip_pre_uninstall: false,
    }
}

/// What a search says of a platform is reported as it is: its id, and its versions where it has them.
/// It is installed just where there is an installed version.
pub proof fn a_status_reports_what_the_search_says(summary: PlatformSummary)
    ensures
        summary.metadata matches Some(metadata) ==> status_of(summary).id == metadata.id@,
        summary.metadata is None ==> status_of(summary).id == Seq::<char>::empty(),
        status_of(summary).installed <==> summary.installed_version@ != Seq::<char>::empty(),
        status_of(summary).installed_version is Some <==> status_of(summary).installed,
        status_of(summary).installed_version matches Some(version) ==> version == summary.installed_version@,
        status_of(summary).latest_version is Some <==> summary.latest_version@ != Seq::<char>::empty(),
        status_of(summary).latest_version matches Some(version) ==> version == summary.latest_version@,
{
    if summary.installed_version@.len() == 0 {
        assert(summary.installed_version@ =~= Seq::<char>::empty());
    }
    if summary.latest_version@.len() == 0 {
        assert(summary.latest_version@ =~= Seq::<char>::empty());
    }
}

/// A platform goes by the name of its latest release where that release is known and has one, else
/// by that of the installed release where only that one is known and has one, else by its id.
pub proof fn a_platform_goes_by_its_release_or_its_id(summary: PlatformSummary)
    ensures
        ({
            let latest = summary.releases@.contains_key(summary.latest_version@);
            let installed = summary.releases@.contains_key(summary.installed_version@);
            let latest_name = summary.releases@[summary.latest_version@].name@;
            let installed_name = summary.releases@[summary.installed_version@].name@;
            let name = status_of(summary).name;
            &&& latest && latest_name != Seq::<char>::empty() ==> name == latest_name
            &&& latest && latest_name == Seq::<char>::empty() ==> name == status_of(summary).id
            &&& !latest && installed && installed_name != Seq::<char>::empty() ==> name == installed_name
            &&& !latest && installed && installed_name == Seq::<char>::empty() ==> name == status_of(summary).id
            &&& !latest && !installed ==> name == status_of(summary).id
        }),
{
    let latest_name = summary.releases@[summary.latest_version@].name@;
    let installed_name = summary.releases@[summary.installed_version@].name@;
    if latest_name.len() == 0 {
        assert(latest_name =~= Seq::<char>::empty());
    }
    if installed_name.len() == 0 {
        assert(installed_name =~= Seq::<char>::empty());
    }
}

/// An install is done just when the daemon gives its result, and fails just when a download ends
/// without success, in the download's own words where it has any.
pub proof fn an_install_ends_as_the_daemon_says(message: Option<InstallMessage>, phase: Seq<char>)
    ensures
        install_event(message, phase) == Some(Ok::<PlatformInstallEventView, ErrorView>(PlatformInstallEventView::Done))
            <==> message == Some(InstallMessage::Result),
        (install_event(message, phase) matches Some(Err(_))) <==> (message matches Some(
            InstallMessage::Progress(Some(DownloadMessage::End { success, .. })),
        ) && !success),
        message matches Some(InstallMessage::Progress(Some(DownloadMessage::End { success, message: words }))) ==> {
            &&& !success && words@ != Seq::<char>::empty() ==> install_event(message, phase) == Some(
                Err::<PlatformInstallEventView, ErrorView>(ErrorView::Daemon(words@)),
            )
            &&& !success && words@ == Seq::<char>::empty() ==> install_event(message, phase) == Some(
                Err::<PlatformInstallEventView, ErrorView>(ErrorView::Daemon("download of "@ + phase + " failed"@)),
            )
            &&& success && words@ != Seq::<char>::empty() ==> install_event(message, phase) == Some(
                Ok::<PlatformInstallEventView, ErrorView>(PlatformInstallEventView::Log(words@ + "\n"@)),
            )
            &&& success && words@ == Seq::<char>::empty() ==> install_event(message, phase) is None
        },
{
    if let Some(InstallMessage::Progress(Some(DownloadMessage::End { success, message: words }))) = message {
        if words@.len() == 0 {
            assert(words@ =~= Seq::<char>::empty());
        }
    }
}

/// A task's progress is reported as the daemon gave it, under the task's name, or under its message
/// where it has no name.
pub proof fn a_task_is_reported_under_its_name(name: String, words: String, percent: Percent, phase: Seq<char>)
    ensures
        install_event(Some(InstallMessage::TaskProgress { name, message: words, percent }), phase) == Some(
            Ok::<PlatformInstallEventView, ErrorView>(
                PlatformInstallEventView::Progress {
                    phase: if name@ == Seq::<char>::empty() { words@ } else { name@ },
                    percent,
                },
            ),
        ),
        phase_after(Some(InstallMessage::TaskProgress { name, message: words, percent }), phase) == phase,
{
    if name@.len() == 0 {
        assert(name@ =~= Seq::<char>::empty());
    }
}

/// The daemon is asked to install the platform and the version that were asked for, with every step
/// of an install.
pub proof fn an_install_is_asked_for_as_it_was(
    instance: Instance,
    package: &str,
    architecture: &str,
    version: &str,
    req: PlatformInstallRequest,
)
    requires
        call_ensures(build_install_request, (instance, package, architecture, version), req),
    ensures
        req.instance == Some(instance),
        req.platform_package@ == package@,
        req.architecture@ == architecture@,
        req.version@ == version@,
        !req.skip_post_install && !req.skip_pre_uninstall && !req.no_overwrite,
{
}

/// The statuses that are reported are those of the platforms that were found, one for one.
pub proof fn every_platform_that_was_found_is_reported(found: Vec<PlatformSummary>, statuses: Vec<PlatformStatus>, i: int)
    requires
        call_ensures(to_statuses, (found,), statuses),
    ensures
        statuses@.len() == found@.len(),
        0 <= i < found@.len() ==> {
            &&& found@[i].metadata matches Some(metadata) ==> statuses@[i].id@ == metadata.id@
            &&& statuses@[i].installed <==> found@[i].installed_version@ != Seq::<char>::empty()
            &&& statuses@[i].installed_version matches Some(version) ==> version@ == found@[i].installed_version@
            &&& statuses@[i].installed_version is Some <==> statuses@[i].installed
            &&& statuses@[i].latest_version matches Some(version) ==> version@ == found@[i].latest_version@
            &&& statuses@[i].latest_version is Some <==> found@[i].latest_version@ != Seq::<char>::empty()
        },
{
    let views = statuses@.map_values(|s: PlatformStatus| s@);
    let wanted = found@.map_values(|s: PlatformSummary| status_of(s));
    assert(views == wanted);
    assert(views.len() == statuses@.len());
    if 0 <= i < found@.len() {
        assert(views[i] == statuses@[i]@);
        assert(wanted[i] == status_of(found@[i]));
        a_status_reports_what_the_search_says(found@[i]);
    }
}

/// The daemon is asked for the platforms that the query names, those of its index alone.
pub proof fn a_search_is_asked_for_as_it_was(instance: Instance, query: &str, req: PlatformSearchRequest)
    requires
        call_ensures(build_search_request, (instance, query), req),
    ensures
        req.instance == Some(instance),
        req.search_args@ == query@,
        !req.manually_installed,
{
}

/// The event that a response is turned into says what the response said. Only the start of a download
/// changes the label that its updates go by.
pub proof fn an_install_event_says_what_the_daemon_said(
    message: Option<InstallMessage>,
    phase: &mut String,
    r: Option<Result<PlatformInstallEvent, Error>>,
)
    requires
        call_ensures(translate, (message, phase), r),
    ensures
        r == Some(Ok::<PlatformInstallEvent, Error>(PlatformInstallEvent::Done)) <==> message == Some(InstallMessage::Result),
        message matches Some(InstallMessage::TaskProgress { name, message: words, percent }) ==> (r matches Some(
            Ok(PlatformInstallEvent::Progress { phase: p, percent: c }),
        ) && c == percent && p@ == if name@.len() > 0 { name@ } else { words@ }),
        message matches Some(InstallMessage::Progress(Some(DownloadMessage::Start { label }))) ==> {
            &&& final(phase)@ == label@
            &&& r matches Some(Ok(PlatformInstallEvent::Progress { phase: p, percent })) && p@ == label@ && percent
                == (Percent::Reported { bits: 0 })
        },
        !is_start(message) ==> final(phase)@ == old(phase)@,
        message matches Some(InstallMessage::Progress(Some(DownloadMessage::Update { downloaded, total_size }))) ==> if total_size
            > 0 {
            r matches Some(Ok(PlatformInstallEvent::Progress { phase: p, percent })) && p@ == old(phase)@ && percent
                == (Percent::Downloaded { bytes: downloaded, of: total_size })
        } else {
            r is None
        },
        message matches Some(InstallMessage::Progress(Some(DownloadMessage::End { success, message: words }))) ==> {
            &&& !success ==> (r matches Some(Err(e)) && e@ == ErrorView::Daemon(
                if words@.len() > 0 {
                    words@
                } else {
                    "download of "@ + old(phase)@ + " failed"@
                },
            ))
            &&& success && words@.len() > 0 ==> (r matches Some(Ok(PlatformInstallEvent::Log(line))) && line@ == words@
                + "\n"@)
            &&& success && words@.len() == 0 ==> r is None
        },
{
}

} // verus!
