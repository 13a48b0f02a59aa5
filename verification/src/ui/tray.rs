//! The system tray: what it says of the helper, how its events change what is shown, and its icon.

use vstd::prelude::*;

use crate::error::Error;
use crate::outside;
use crate::outside::load_png;
use crate::text;
use crate::text::{cat, decimal_of, same};
use crate::ui::window::{StatusView, Telemetry};

verus! {

/// How often the status window's board-count and health rows are refreshed, in milliseconds.
pub const TELEMETRY_INTERVAL_MS: u64 = 3000;

/// What the tray reports about the helper's lifecycle.
#[derive(Debug)]
pub enum Status {
    Starting,
    Running(u16),
    Failed(String),
}

/// The status line.
pub open spec fn label_of(status: Status) -> Seq<char> {
    match status {
        Status::Starting => "Starting…"@,
        Status::Running(port) => "Running on :"@ + text::decimal(port as nat),
        Status::Failed(msg) => "Failed: "@ + msg@,
    }
}

/// The name of a status, its port and its message, as the status window shows them.
pub open spec fn snapshot_of(status: Status) -> (Seq<char>, Option<u16>, Option<Seq<char>>) {
    match status {
        Status::Starting => ("starting"@, None, None),
        Status::Running(port) => ("running"@, Some(port), None),
        Status::Failed(msg) => ("failed"@, None, Some(msg@)),
    }
}

/// The state, the port and the message of a snapshot.
pub open spec fn snapshot(view: StatusView) -> (Seq<char>, Option<u16>, Option<Seq<char>>) {
    (view.state@, view.port, text::opt_text(view.message))
}

impl Status {
    /// Text for the disabled status line in the tray menu.
    pub fn label(&self) -> (label: String)
        ensures
            label@ == label_of(*self),
    {
        match self {
            Status::Starting => "Starting…".to_owned(),
            Status::Running(port) => cat("Running on :", decimal_of(*port as u128).as_str()),
            Status::Failed(msg) => cat("Failed: ", msg.as_str()),
        }
    }

    /// Hover tooltip on the tray icon itself.
    pub fn tooltip(&self) -> (tooltip: String)
        ensures
            tooltip@ == "thingblock-link — "@ + label_of(*self),
    {
        cat("thingblock-link — ", self.label().as_str())
    }

    /// Snapshot of this status for the status window's status row.
    pub fn view(&self) -> (view: StatusView)
        ensures
            snapshot(view) == snapshot_of(*self),
    {
        match self {
            Status::Starting => StatusView { state: "starting", port: None, message: None },
            Status::Running(port) => StatusView {
                state: "running",
                port: Some(*port),
                message: None,
            },
            Status::Failed(msg) => StatusView {
                state: "failed",
                port: None,
                message: Some(msg.clone()),
            },
        }
    }
}

/// The menu items whose clicks count.
pub struct MenuIds {
    pub show_id: String,
    pub quit_id: String,
}

/// What wakes the tray's loop.
pub enum TrayEvent {
    /// The loop has started.
    Init,
    Status(Status),
    Telemetry(Telemetry),
    /// A click on the menu item with this id.
    MenuClick(String),
    /// The status window's Quit button, or the desktop shell's shutdown signal.
    Quit,
    /// A window is asked to close; `ours` where it is the status window.
    CloseRequested { ours: bool },
    Other,
}

/// What the loop does next.
#[derive(Debug, PartialEq, Eq, Structural)]
pub enum TrayAction {
    Nothing,
    /// Build the tray, then hand its menu ids to [`Tray::built`].
    BuildTray,
    /// Paint the status that came: on the tray, in the status window.
    PaintStatus { tray: bool, window: bool },
    /// Paint the telemetry that came in the status window.
    PaintTelemetry,
    /// Show the status window; build it first, from the latest status and telemetry, where
    /// `build` says so.
    ShowWindow { build: bool },
    HideWindow,
    /// Stop the services and leave the loop.
    Shutdown,
}

/// What the tray remembers between events. The status window is built lazily and hidden on close;
/// the latest status and telemetry are kept so that a freshly built window paints them at once.
pub struct Tray {
    pub ids: Option<MenuIds>,
    pub has_window: bool,
    pub last_status: StatusView,
    pub last_telemetry: Telemetry,
}

/// A [`Tray`] with its texts as character sequences.
pub struct TrayView {
    pub show_id: Option<Seq<char>>,
    pub quit_id: Option<Seq<char>>,
    pub has_window: bool,
    pub last_status: (Seq<char>, Option<u16>, Option<Seq<char>>),
    pub last_telemetry: Telemetry,
}

impl View for Tray {
    type V = TrayView;

    open spec fn view(&self) -> TrayView {
        TrayView {
            show_id: match self.ids {
                Some(ids) => Some(ids.show_id@),
                None => None,
            },
            quit_id: match self.ids {
                Some(ids) => Some(ids.quit_id@),
                None => None,
            },
            has_window: self.has_window,
            last_status: snapshot(self.last_status),
            last_telemetry: self.last_telemetry,
        }
    }
}

impl TrayView {
    /// The tray before its loop has started.
    pub open spec fn fresh() -> TrayView {
        TrayView {
            show_id: None,
            quit_id: None,
            has_window: false,
            last_status: snapshot_of(Status::Starting),
            last_telemetry: Telemetry { boards: 0, healthy: false },
        }
    }

    /// The tray after `event`, and what the loop does next.
    pub open spec fn step(self, event: TrayEvent) -> (TrayView, TrayAction) {
        match event {
            TrayEvent::Init => (self, TrayAction::BuildTray),
            TrayEvent::Status(status) => (
                TrayView { last_status: snapshot_of(status), ..self },
                TrayAction::PaintStatus { tray: self.quit_id is Some, window: self.has_window },
            ),
            TrayEvent::Telemetry(telemetry) => (
                TrayView { last_telemetry: telemetry, ..self },
                if self.has_window {
                    TrayAction::PaintTelemetry
                } else {
                    TrayAction::Nothing
                },
            ),
            TrayEvent::Quit => (self, TrayAction::Shutdown),
            TrayEvent::MenuClick(id) => if self.quit_id == Some(id@) {
                (self, TrayAction::Shutdown)
            } else if self.show_id == Some(id@) {
                (
                    TrayView { has_window: true, ..self },
                    TrayAction::ShowWindow { build: !self.has_window },
                )
            } else {
                (self, TrayAction::Nothing)
            },
            TrayEvent::CloseRequested { ours } => (
                self,
                if ours && self.has_window {
                    TrayAction::HideWindow
                } else {
                    TrayAction::Nothing
                },
            ),
            TrayEvent::Other => (self, TrayAction::Nothing),
        }
    }
}

impl Tray {
    /// The tray before its loop has started.
    pub fn new() -> (tray: Tray)
        ensures
            tray@ == TrayView::fresh(),
    {
        Tray {
            ids: None,
            has_window: false,
            last_status: Status::Starting.view(),
            last_telemetry: Telemetry::default(),
        }
    }

    /// The tray was built, with these menu items.
    pub fn built(&mut self, ids: MenuIds)
        ensures
            final(self)@ == old(self)@.with_menu(ids),
    {
        self.ids = Some(ids);
    }

    /// Takes an event in and decides what the loop does next. Quit is looked for before Show.
    pub fn step(&mut self, event: &TrayEvent) -> (action: TrayAction)
        ensures
            (final(self)@, action) == old(self)@.step(*event),
    {
        match event {
            TrayEvent::Init => TrayAction::BuildTray,
            TrayEvent::Status(status) => {
                self.last_status = status.view();
                TrayAction::PaintStatus { tray: self.ids.is_some(), window: self.has_window }
            },
            TrayEvent::Telemetry(telemetry) => {
                self.last_telemetry = *telemetry;
                if self.has_window {
                    TrayAction::PaintTelemetry
                } else {
                    TrayAction::Nothing
                }
            },
            TrayEvent::Quit => TrayAction::Shutdown,
            TrayEvent::MenuClick(id) => match &self.ids {
                Some(ids) => if same(ids.quit_id.as_str(), id.as_str()) {
                    TrayAction::Shutdown
                } else if same(ids.show_id.as_str(), id.as_str()) {
                    let build = !self.has_window;
                    self.has_window = true;
                    TrayAction::ShowWindow { build }
                } else {
                    TrayAction::Nothing
                },
                None => TrayAction::Nothing,
            },
            // Closing only hides the window: Quit is the sole path that stops the helper.
            TrayEvent::CloseRequested { ours } => if *ours && self.has_window {
                TrayAction::HideWindow
            } else {
                TrayAction::Nothing
            },
            TrayEvent::Other => TrayAction::Nothing,
        }
    }
}

/// Quit is the sole path that stops the helper: its button or the shell's signal, or its menu
/// item. Closing the status window does not.
pub proof fn only_quit_stops(tray: TrayView, event: TrayEvent)
    ensures
        tray.step(event).1 == TrayAction::Shutdown <==> (event is Quit || (event matches TrayEvent::MenuClick(
            id,
        ) && tray.quit_id == Some(id@))),
{
}

/// What a run of the tray is made of: the events of its loop, and that the tray was built.
pub enum TrayMoment {
    Event(TrayEvent),
    Built(MenuIds),
}

impl TrayView {
    /// The tray once it was built with these menu items.
    pub open spec fn with_menu(self, ids: MenuIds) -> TrayView {
        TrayView { show_id: Some(ids.show_id@), quit_id: Some(ids.quit_id@), ..self }
    }

    /// The tray after one moment of a run.
    pub open spec fn lived(self, moment: TrayMoment) -> TrayView {
        match moment {
            TrayMoment::Event(event) => self.step(event).0,
            TrayMoment::Built(ids) => self.with_menu(ids),
        }
    }
}

/// The tray after a run.
pub open spec fn after(run: Seq<TrayMoment>) -> TrayView
    decreases run.len(),
{
    if run.len() == 0 {
        TrayView::fresh()
    } else {
        after(run.drop_last()).lived(run.last())
    }
}

/// The status that came last in a run, or the starting one.
pub open spec fn latest_status(run: Seq<TrayMoment>) -> Status
    decreases run.len(),
{
    if run.len() == 0 {
        Status::Starting
    } else {
        match run.last() {
            TrayMoment::Event(TrayEvent::Status(status)) => status,
            _ => latest_status(run.drop_last()),
        }
    }
}

/// The telemetry that came last in a run, or that of before the first poll.
pub open spec fn latest_telemetry(run: Seq<TrayMoment>) -> Telemetry
    decreases run.len(),
{
    if run.len() == 0 {
        Telemetry { boards: 0, healthy: false }
    } else {
        match run.last() {
            TrayMoment::Event(TrayEvent::Telemetry(telemetry)) => telemetry,
            _ => latest_telemetry(run.drop_last()),
        }
    }
}

/// Whenever the status window is built, it is built from the latest status and the latest
/// telemetry, whatever happened before: the tray always remembers both.
pub proof fn a_window_paints_the_latest_state(run: Seq<TrayMoment>)
    ensures
        after(run).last_status == snapshot_of(latest_status(run)),
        after(run).last_telemetry == latest_telemetry(run),
    decreases run.len(),
{
    if run.len() > 0 {
        a_window_paints_the_latest_state(run.drop_last());
    }
}

/// Whether a run has shown the status window.
pub open spec fn has_shown(run: Seq<TrayMoment>) -> bool
    decreases run.len(),
{
    run.len() > 0 && (has_shown(run.drop_last()) || (run.last() matches TrayMoment::Event(event) && after(
        run.drop_last(),
    ).step(event).1 is ShowWindow))
}

/// The status window is built by the first click on Show, and never again: later clicks show the
/// window that is there.
pub proof fn the_window_is_built_once(run: Seq<TrayMoment>, id: String)
    requires
        after(run).show_id == Some(id@),
        after(run).quit_id != Some(id@),
    ensures
        after(run).step(TrayEvent::MenuClick(id)).1 == (TrayAction::ShowWindow {
            build: !has_shown(run),
        }),
{
    lemma_window_iff_shown(run);
}

proof fn lemma_window_iff_shown(run: Seq<TrayMoment>)
    ensures
        after(run).has_window == has_shown(run),
    decreases run.len(),
{
    if run.len() > 0 {
        lemma_window_iff_shown(run.drop_last());
    }
}

/// Whether a message from the status window's page asks to quit.
pub fn asks_to_quit(msg: &str) -> (r: bool)
    ensures
        r == (msg@ == "quit"@),
{
    same(msg, "quit")
}

/// How far the services have come.
pub enum Startup {
    Began,
    RootFailed(Error),
    DaemonFailed(Error),
    BindFailed(String),
    Listening(u16),
    ServerFailed(Error),
    ServerEnded,
}

/// The status to report, if there is one, and whether the services go on.
pub struct StartupStep {
    pub report: Option<Status>,
    pub go_on: bool,
}

/// Decides what the tray is told of the services. Any failure ends them, while the process stays
/// up so that Quit still works.
pub fn run_services(startup: Startup) -> (step: StartupStep)
    ensures
        match startup {
            Startup::Began => step == (StartupStep { report: Some(Status::Starting), go_on: true }),
            Startup::RootFailed(e) => {
                &&& !step.go_on
                &&& step.report matches Some(Status::Failed(msg))
                &&& msg@ == e@.message()
            },
            Startup::DaemonFailed(e) => {
                &&& !step.go_on
                &&& step.report matches Some(Status::Failed(msg))
                &&& msg@ == e@.message()
            },
            Startup::BindFailed(complaint) => step == (StartupStep {
                report: Some(Status::Failed(complaint)),
                go_on: false,
            }),
            Startup::Listening(port) => step == (StartupStep {
                report: Some(Status::Running(port)),
                go_on: true,
            }),
            Startup::ServerFailed(e) => {
                &&& !step.go_on
                &&& step.report matches Some(Status::Failed(msg))
                &&& msg@ == e@.message()
            },
            Startup::ServerEnded => step == (StartupStep { report: None, go_on: false }),
        },
{
    match startup {
        Startup::Began => StartupStep { report: Some(Status::Starting), go_on: true },
        Startup::RootFailed(e) | Startup::DaemonFailed(e) | Startup::ServerFailed(e) => StartupStep {
            report: Some(Status::Failed(e.message())),
            go_on: false,
        },
        Startup::BindFailed(complaint) => StartupStep {
            report: Some(Status::Failed(complaint)),
            go_on: false,
        },
        Startup::Listening(port) => StartupStep { report: Some(Status::Running(port)), go_on: true },
        Startup::ServerEnded => StartupStep { report: None, go_on: false },
    }
}

/// What a poll of the daemon says: a failed one means that the daemon is unresponsive.
pub fn poll_telemetry(polled: Result<usize, Error>) -> (t: Telemetry)
    ensures
        t == (match polled {
            Ok(boards) => Telemetry { boards, healthy: true },
            Err(_) => Telemetry { boards: 0, healthy: false },
        }),
{
    match polled {
        Ok(boards) => Telemetry { boards, healthy: true },
        Err(_) => Telemetry { boards: 0, healthy: false },
    }
}

/// An image: four bytes per pixel (red, green, blue, opacity), row by row.
pub struct Image {
    pub width: u32,
    pub height: u32,
    pub rgba: Vec<u8>,
}

/// The glyph as an image, the base for the per-status [`icon_for`] variants.
pub fn glyph_rgba(png: &[u8]) -> (r: Option<Image>)
    ensures
        match outside::png_rgba(png@) {
            Some((width, height, rgba)) => {
                &&& r matches Some(image)
                &&& image.width == width
                &&& image.height == height
                &&& image.rgba@ == rgba
            },
            None => r is None,
        },
{
    match load_png(png) {
        Some((width, height, rgba)) => Some(Image { width, height, rgba }),
        None => None,
    }
}

/// Sixty percent of an opacity, rounded down.
pub open spec fn dimmed(opacity: u8) -> u8 {
    (opacity * 3 / 5) as u8
}

/// Whether a pixel lies in the error dot, which has its center at (6, 6) and a radius of 5.
pub open spec fn in_dot(x: int, y: int) -> bool {
    (x - 6) * (x - 6) + (y - 6) * (y - 6) <= 25
}

/// The error red.
pub open spec fn error_red() -> Seq<u8> {
    seq![0xFF, 0x66, 0x1A, 0xFF]
}

/// Whether the byte at `k` belongs to a pixel of the error dot, in an image of the given width.
pub open spec fn byte_in_dot(width: u32, k: int) -> bool {
    width > 0 && in_dot((k / 4) % (width as int), (k / 4) / (width as int))
}

/// The byte at `k` of a status's icon, given that of the glyph.
pub open spec fn icon_byte(status: Status, width: u32, k: int, glyph: u8) -> u8 {
    match status {
        Status::Running(_) => glyph,
        Status::Starting => if k % 4 == 3 {
            dimmed(glyph)
        } else {
            glyph
        },
        Status::Failed(_) => if byte_in_dot(width, k) {
            error_red()[k % 4]
        } else {
            glyph
        },
    }
}

/// Whether a pixel lies in the error dot.
fn is_in_dot(x: u64, y: u64) -> (r: bool)
    ensures
        r == in_dot(x as int, y as int),
{
    if x > 11 || y > 11 {
        proof {
            let (dx, dy) = (x - 6, y - 6);
            assert(dx * dx >= 0) by (nonlinear_arith);
            assert(dy * dy >= 0) by (nonlinear_arith);
            if x > 11 {
                assert(dx * dx >= 36) by (nonlinear_arith)
                    requires
                        dx >= 6,
                ;
            } else {
                assert(dy * dy >= 36) by (nonlinear_arith)
                    requires
                        dy >= 6,
                ;
            }
        }
        return false;
    }
    let dx: u64 = if x > 6 { x - 6 } else { 6 - x };
    let dy: u64 = if y > 6 { y - 6 } else { 6 - y };
    proof {
        assert(dx * dx == (x - 6) * (x - 6)) by (nonlinear_arith)
            requires
                dx == x - 6 || dx == 6 - x,
        ;
        assert(dy * dy == (y - 6) * (y - 6)) by (nonlinear_arith)
            requires
                dy == y - 6 || dy == 6 - y,
        ;
        assert(0 <= dx * dx <= 36) by (nonlinear_arith)
            requires
                0 <= dx <= 6,
        ;
        assert(0 <= dy * dy <= 36) by (nonlinear_arith)
            requires
                0 <= dy <= 6,
        ;
    }
    dx * dx + dy * dy <= 25
}

/// Paints the editor's error red as a dot over the pin-1 (top-left) corner.
pub fn overlay_error_dot(image: &mut Image)
    ensures
        final(image).width == old(image).width,
        final(image).height == old(image).height,
        final(image).rgba@ == Seq::new(
            old(image).rgba@.len(),
            |k: int| if byte_in_dot(old(image).width, k) { error_red()[k % 4] } else { old(image).rgba@[k] },
        ),
{
    let red: [u8; 4] = [0xFF, 0x66, 0x1A, 0xFF];
    assert(red@ =~= error_red());
    let width: u64 = image.width as u64;
    let mut painted: Vec<u8> = Vec::new();
    let mut k: usize = 0;
    while k < image.rgba.len()
        invariant
            *image == *old(image),
            red@ == error_red(),
            width == image.width,
            k <= image.rgba@.len(),
            painted@.len() == k,
            forall|j: int|
                0 <= j < k ==> #[trigger] painted@[j] == (if byte_in_dot(image.width, j) {
                    error_red()[j % 4]
                } else {
                    image.rgba@[j]
                }),
        decreases image.rgba.len() - k,
    {
        let pixel: u64 = (k / 4) as u64;
        let dotted = width > 0 && is_in_dot(pixel % width, pixel / width);
        painted.push(if dotted { red[k % 4] } else { image.rgba[k] });
        k += 1;
    }
    image.rgba = painted;
}

/// Dims an image to sixty percent opacity.
pub fn dim(image: &mut Image)
    ensures
        final(image).width == old(image).width,
        final(image).height == old(image).height,
        final(image).rgba@ == Seq::new(
            old(image).rgba@.len(),
            |k: int| if k % 4 == 3 { dimmed(old(image).rgba@[k]) } else { old(image).rgba@[k] },
        ),
{
    let mut faded: Vec<u8> = Vec::new();
    let mut k: usize = 0;
    while k < image.rgba.len()
        invariant
            *image == *old(image),
            k <= image.rgba@.len(),
            faded@.len() == k,
            forall|j: int|
                0 <= j < k ==> #[trigger] faded@[j] == (if j % 4 == 3 {
                    dimmed(image.rgba@[j])
                } else {
                    image.rgba@[j]
                }),
        decreases image.rgba.len() - k,
    {
        let byte = image.rgba[k];
        let faint: u8 = (byte as u16 * 3 / 5) as u8;
        faded.push(if k % 4 == 3 { faint } else { byte });
        k += 1;
    }
    image.rgba = faded;
}

/// The tray icon for a status, a glanceable supplement to the menu line: full color when running,
/// sixty percent opacity when starting, an error dot when failed.
pub fn icon_for(status: &Status, glyph: Image) -> (icon: Image)
    ensures
        icon.width == glyph.width,
        icon.height == glyph.height,
        icon.rgba@ == Seq::new(
            glyph.rgba@.len(),
            |k: int| icon_byte(*status, glyph.width, k, glyph.rgba@[k]),
        ),
{
    let mut image = glyph;
    match status {
        Status::Running(_) => {},
        Status::Starting => dim(&mut image),
        Status::Failed(_) => overlay_error_dot(&mut image),
    }
    assert(image.rgba@ =~= Seq::new(
        glyph.rgba@.len(),
        |k: int| icon_byte(*status, glyph.width, k, glyph.rgba@[k]),
    ));
    image
}

/// An icon differs from the glyph only as its status says: not at all when running, in the
/// opacities when starting, and in the dot when failed.
pub proof fn an_icon_changes_only_what_its_status_says(status: Status, width: u32, k: int, glyph: u8)
    requires
        icon_byte(status, width, k, glyph) != glyph,
    ensures
        match status {
            Status::Running(_) => false,
            Status::Starting => k % 4 == 3,
            Status::Failed(_) => byte_in_dot(width, k),
        },
{
}

/// The dot takes in just the pixels that lie in it: the bytes of the pixel in column `x` of row
/// `y` are painted where (`x`, `y`) is at most 5 away from (6, 6).
pub proof fn the_dot_is_painted_by_pixel(width: u32, x: int, y: int, channel: int)
    requires
        0 <= x < width,
        0 <= y,
        0 <= channel < 4,
    ensures
        byte_in_dot(width, 4 * (y * width + x) + channel) <==> in_dot(x, y),
{
    let w = width as int;
    let pixel = y * w + x;
    let k = 4 * pixel + channel;
    assert(k / 4 == pixel);
    vstd::arithmetic::div_mod::lemma_fundamental_div_mod_converse(pixel, w, y, x);
}

/// The status line says how far the helper is: the port in decimal while it runs, and what went wrong
/// where it failed.
pub proof fn the_status_line_says_how_far_it_is(port: u16, msg: String, digits: Seq<char>)
    ensures
        label_of(Status::Starting) == "Starting…"@,
        label_of(Status::Running(port)) == "Running on :"@ + digits <==> text::writes_number(digits, port as nat),
        label_of(Status::Failed(msg)) == "Failed: "@ + msg@,
{
    text::a_number_has_one_writing(digits, port as nat);
    if label_of(Status::Running(port)) == "Running on :"@ + digits {
        let n = "Running on :"@.len() as int;
        assert(label_of(Status::Running(port)).skip(n) =~= text::decimal(port as nat));
        assert(("Running on :"@ + digits).skip(n) =~= digits);
    }
}

/// The status window is shown the state's name, the port just while the helper runs, and the message
/// just where it failed.
pub proof fn the_window_is_shown_port_or_message(status: Status)
    ensures
        ({
            let (state, port, message) = snapshot_of(status);
            &&& status is Starting ==> state == "starting"@ && port is None && message is None
            &&& status matches Status::Running(p) ==> state == "running"@ && port == Some(p) && message is None
            &&& status matches Status::Failed(msg) ==> state == "failed"@ && port is None && message == Some(msg@)
        }),
{
}

/// A snapshot is what the window's fields hold.
pub proof fn a_snapshot_is_what_the_fields_hold(view: StatusView)
    ensures
        snapshot(view).0 == view.state@,
        snapshot(view).1 == view.port,
        snapshot(view).2 is Some <==> view.message is Some,
        view.message matches Some(message) ==> snapshot(view).2 == Some(message@),
{
}

/// A status is painted wherever there is something to paint it on, and telemetry where there is a
/// window; both are remembered, and change nothing else.
pub proof fn news_is_painted_and_remembered(tray: TrayView, status: Status, telemetry: Telemetry)
    ensures
        ({
            let (after, action) = tray.step(TrayEvent::Status(status));
            &&& after.last_status == snapshot_of(status)
            &&& after.last_telemetry == tray.last_telemetry
            &&& after.has_window == tray.has_window
            &&& after.quit_id == tray.quit_id
            &&& after.show_id == tray.show_id
            &&& action matches TrayAction::PaintStatus { tray: on_tray, window } && on_tray == tray.quit_id is Some
                && window == tray.has_window
        }),
        ({
            let (after, action) = tray.step(TrayEvent::Telemetry(telemetry));
            &&& after.last_telemetry == telemetry
            &&& after.last_status == tray.last_status
            &&& after.has_window == tray.has_window
            &&& after.quit_id == tray.quit_id
            &&& after.show_id == tray.show_id
            &&& action == TrayAction::PaintTelemetry <==> tray.has_window
            &&& action == TrayAction::Nothing <==> !tray.has_window
        }),
{
}

/// A click on Show shows the window, building it where there is none yet; a click on anything else
/// shows none, and a close request hides only our own window and keeps it for the next time.
pub proof fn the_window_is_shown_and_hidden_as_asked(tray: TrayView, id: String, ours: bool)
    ensures
        tray.step(TrayEvent::MenuClick(id)).1 is ShowWindow <==> tray.show_id == Some(id@) && tray.quit_id != Some(id@),
        tray.step(TrayEvent::MenuClick(id)).1 matches TrayAction::ShowWindow { build } ==> build == !tray.has_window,
        tray.step(TrayEvent::MenuClick(id)).0.has_window <==> tray.has_window || tray.step(TrayEvent::MenuClick(id)).1 is ShowWindow,
        tray.step(TrayEvent::MenuClick(id)).0.last_status == tray.last_status,
        tray.step(TrayEvent::MenuClick(id)).0.last_telemetry == tray.last_telemetry,
        tray.step(TrayEvent::CloseRequested { ours }).1 == TrayAction::HideWindow <==> ours && tray.has_window,
        tray.step(TrayEvent::CloseRequested { ours }).0 == tray,
        tray.step(TrayEvent::Init) == (tray, TrayAction::BuildTray),
        tray.step(TrayEvent::Other) == (tray, TrayAction::Nothing),
{
}

/// An opacity is dimmed to sixty percent, rounded down.
pub proof fn dimming_keeps_sixty_percent(opacity: u8)
    ensures
        100 * dimmed(opacity) <= 60 * opacity,
        60 * opacity < 100 * (dimmed(opacity) + 1),
{
}

/// The icon of a status, channel by channel of the pixel in column `x` of row `y`: the glyph's own
/// while running, the opacity alone dimmed while starting, and the error red, fully opaque, within 5
/// of (6, 6) where the helper failed.
pub proof fn an_icon_is_the_glyph_in_the_light_of_its_status(status: Status, width: u32, x: int, y: int, channel: int, glyph: u8)
    requires
        0 <= x < width,
        0 <= y,
        0 <= channel < 4,
    ensures
        ({
            let byte = icon_byte(status, width, 4 * (y * width + x) + channel, glyph);
            &&& status is Running ==> byte == glyph
            &&& status is Starting && channel < 3 ==> byte == glyph
            &&& status is Starting && channel == 3 ==> 5 * byte <= 3 * glyph < 5 * byte + 5
            &&& status is Failed && (x - 6) * (x - 6) + (y - 6) * (y - 6) > 25 ==> byte == glyph
            &&& status is Failed && (x - 6) * (x - 6) + (y - 6) * (y - 6) <= 25 ==> {
                &&& channel == 0 ==> byte == 0xFF
                &&& channel == 1 ==> byte == 0x66
                &&& channel == 2 ==> byte == 0x1A
                &&& channel == 3 ==> byte == 0xFF
            }
        }),
{
    let k = 4 * (y * width + x) + channel;
    assert(k % 4 == channel);
    the_dot_is_painted_by_pixel(width, x, y, channel);
}

/// What a poll found is shown, and a poll that failed shows an unhealthy daemon without boards.
pub proof fn a_failed_poll_is_unhealthy(polled: Result<usize, Error>, t: Telemetry)
    requires
        call_ensures(poll_telemetry, (polled,), t),
    ensures
        t.healthy <==> polled is Ok,
        polled matches Ok(boards) ==> t.boards == boards,
        polled is Err ==> t.boards == 0,
{
}

/// The services go on just while nothing failed and nothing ended; what failed is reported in its own
/// words, and a port that is listened on by its number.
pub proof fn the_services_report_what_happened(startup: Startup, step: StartupStep)
    requires
        call_ensures(run_services, (startup,), step),
    ensures
        step.go_on <==> startup is Began || startup is Listening,
        startup is Began <==> step.report == Some(Status::Starting),
        startup matches Startup::Listening(port) ==> step.report == Some(Status::Running(port)),
        startup matches Startup::RootFailed(e) ==> (step.report matches Some(Status::Failed(msg)) && msg@ == e@.message()),
        startup matches Startup::DaemonFailed(e) ==> (step.report matches Some(Status::Failed(msg)) && msg@ == e@.message()),
        startup matches Startup::ServerFailed(e) ==> (step.report matches Some(Status::Failed(msg)) && msg@ == e@.message()),
        startup matches Startup::BindFailed(words) ==> step.report == Some(Status::Failed(words)),
        startup is ServerEnded <==> step.report is None,
{
}

/// The tray's menu items are those that it was built with, and a click is told apart by them.
pub proof fn the_menu_is_the_one_that_was_built(tray: TrayView, ids: MenuIds)
    ensures
        tray.with_menu(ids).quit_id == Some(ids.quit_id@),
        tray.with_menu(ids).show_id == Some(ids.show_id@),
        tray.with_menu(ids).has_window == tray.has_window,
        tray.with_menu(ids).last_status == tray.last_status,
        tray.with_menu(ids).last_telemetry == tray.last_telemetry,
{
}

/// The icon of a status, as it is made from the glyph, pixel by pixel.
pub proof fn an_icon_shows_its_status(status: &Status, glyph: Image, icon: Image, x: int, y: int, channel: int)
    requires
        call_ensures(icon_for, (status, glyph), icon),
        0 <= x < glyph.width,
        0 <= y,
        0 <= channel < 4,
        4 * (y * glyph.width + x) + channel < glyph.rgba@.len(),
    ensures
        icon.width == glyph.width,
        icon.height == glyph.height,
        icon.rgba@.len() == glyph.rgba@.len(),
        ({
            let k = 4 * (y * glyph.width + x) + channel;
            let (byte, own) = (icon.rgba@[k], glyph.rgba@[k]);
            &&& status is Running ==> byte == own
            &&& status is Starting && channel < 3 ==> byte == own
            &&& status is Starting && channel == 3 ==> 5 * byte <= 3 * own < 5 * byte + 5
            &&& status is Failed && (x - 6) * (x - 6) + (y - 6) * (y - 6) > 25 ==> byte == own
            &&& status is Failed && (x - 6) * (x - 6) + (y - 6) * (y - 6) <= 25 ==> {
                &&& channel == 0 ==> byte == 0xFF
                &&& channel == 1 ==> byte == 0x66
                &&& channel == 2 ==> byte == 0x1A
                &&& channel == 3 ==> byte == 0xFF
            }
        }),
{
    let k = 4 * (y * glyph.width + x) + channel;
    assert(k >= 0) by {
        assert(y * glyph.width >= 0) by (nonlinear_arith)
            requires
                y >= 0,
                glyph.width >= 0,
        ;
    }
    an_icon_is_the_glyph_in_the_light_of_its_status(*status, glyph.width, x, y, channel, glyph.rgba@[k]);
    assert(icon.rgba@[k] == icon_byte(*status, glyph.width, k, glyph.rgba@[k]));
}

/// The tooltip names the helper and its status.
pub proof fn a_tooltip_names_the_status(status: &Status, label: String, tooltip: String)
    requires
        call_ensures(Status::label, (status,), label),
        call_ensures(Status::tooltip, (status,), tooltip),
    ensures
        tooltip@ == "thingblock-link — "@ + label@,
{
}

} // verus!
