//! The tray and the status window.

use image::ImageEncoder;
use thingblock_link::error::Error;
use thingblock_link::ui::tray::{
    asks_to_quit, dim, glyph_rgba, icon_for, overlay_error_dot, poll_telemetry, run_services, Image, MenuIds,
    Startup, Status, Tray, TrayAction, TrayEvent, TELEMETRY_INTERVAL_MS,
};
use thingblock_link::ui::window::{render_html, script, Telemetry};

fn s(text: &str) -> String {
    text.to_string()
}

#[test]
fn a_status_has_a_label_a_tooltip_and_a_snapshot() {
    assert_eq!(Status::Starting.label(), "Starting…");
    assert_eq!(Status::Running(3030).label(), "Running on :3030");
    assert_eq!(Status::Failed(s("boom")).label(), "Failed: boom");
    assert_eq!(Status::Running(0).tooltip(), "thingblock-link — Running on :0");
    let view = Status::Starting.view();
    assert_eq!((view.state, view.port, view.message), ("starting", None, None));
    let view = Status::Running(65535).view();
    assert_eq!((view.state, view.port, view.message), ("running", Some(65535), None));
    let view = Status::Failed(s("boom")).view();
    assert_eq!((view.state, view.port, view.message), ("failed", None, Some(s("boom"))));
}

fn built() -> Tray {
    let mut tray = Tray::new();
    assert_eq!(tray.step(&TrayEvent::Init), TrayAction::BuildTray);
    tray.built(MenuIds { show_id: s("show"), quit_id: s("quit") });
    tray
}

#[test]
fn events_before_the_tray_is_built_paint_nothing() {
    let mut tray = Tray::new();
    assert_eq!(tray.last_status.state, "starting");
    assert_eq!(
        tray.step(&TrayEvent::Status(Status::Running(1))),
        TrayAction::PaintStatus { tray: false, window: false }
    );
    assert_eq!(tray.last_status.state, "running");
    assert_eq!(tray.step(&TrayEvent::MenuClick(s("quit"))), TrayAction::Nothing);
}

#[test]
fn the_window_is_built_once_and_hidden_on_close() {
    let mut tray = built();
    let ours = TrayEvent::CloseRequested { ours: true };
    assert_eq!(tray.step(&ours), TrayAction::Nothing);
    let telemetry = Telemetry { boards: 2, healthy: true };
    assert_eq!(tray.step(&TrayEvent::Telemetry(telemetry)), TrayAction::Nothing);
    assert_eq!(tray.last_telemetry, telemetry);
    assert_eq!(tray.step(&TrayEvent::MenuClick(s("show"))), TrayAction::ShowWindow { build: true });
    assert_eq!(tray.step(&ours), TrayAction::HideWindow);
    assert_eq!(tray.step(&TrayEvent::CloseRequested { ours: false }), TrayAction::Nothing);
    assert_eq!(tray.step(&TrayEvent::MenuClick(s("show"))), TrayAction::ShowWindow { build: false });
    assert_eq!(tray.step(&TrayEvent::Telemetry(telemetry)), TrayAction::PaintTelemetry);
    assert_eq!(
        tray.step(&TrayEvent::Status(Status::Failed(s("x")))),
        TrayAction::PaintStatus { tray: true, window: true }
    );
    assert_eq!(tray.last_status.message.as_deref(), Some("x"));
}

#[test]
fn only_quit_stops_the_helper() {
    let mut tray = built();
    assert_eq!(tray.step(&TrayEvent::Quit), TrayAction::Shutdown);
    assert_eq!(tray.step(&TrayEvent::MenuClick(s("quit"))), TrayAction::Shutdown);
    assert_eq!(tray.step(&TrayEvent::MenuClick(s("other"))), TrayAction::Nothing);
    assert_eq!(tray.step(&TrayEvent::Other), TrayAction::Nothing);
    assert!(asks_to_quit("quit"));
    assert!(!asks_to_quit("quit "));
}

#[test]
fn services_report_their_lifecycle() {
    let step = run_services(Startup::Began);
    assert!(step.go_on && matches!(step.report, Some(Status::Starting)));
    let step = run_services(Startup::Listening(3030));
    assert!(step.go_on && matches!(step.report, Some(Status::Running(3030))));
    for failure in [
        Startup::RootFailed(Error::Resource(s("x"))),
        Startup::DaemonFailed(Error::Resource(s("x"))),
        Startup::ServerFailed(Error::Resource(s("x"))),
        Startup::BindFailed(s("resource: x")),
    ] {
        let step = run_services(failure);
        assert!(!step.go_on);
        assert!(matches!(step.report, Some(Status::Failed(msg)) if msg == "resource: x"));
    }
    let step = run_services(Startup::ServerEnded);
    assert!(!step.go_on && step.report.is_none());
    assert_eq!(TELEMETRY_INTERVAL_MS, 3000);
}

#[test]
fn a_failed_poll_is_unhealthy() {
    assert_eq!(poll_telemetry(Ok(3)), Telemetry { boards: 3, healthy: true });
    assert_eq!(poll_telemetry(Err(Error::Cancelled)), Telemetry { boards: 0, healthy: false });
    assert_eq!(Telemetry::default(), Telemetry { boards: 0, healthy: false });
}

#[test]
fn dimming_is_sixty_percent_of_every_opacity() {
    for opacity in 0..=255u8 {
        let mut image = Image { width: 1, height: 1, rgba: vec![10, 20, 30, opacity] };
        dim(&mut image);
        assert_eq!(image.rgba, [10, 20, 30, (f32::from(opacity) * 0.6) as u8]);
    }
}

#[test]
fn the_error_dot_is_a_disc_at_the_top_left() {
    let (width, height) = (16u32, 14u32);
    let mut image = Image {
        width,
        height,
        rgba: (0..width * height * 4).map(|k| (k % 251) as u8).collect(),
    };
    overlay_error_dot(&mut image);
    let mut painted = 0;
    for y in 0..height as i32 {
        for x in 0..width as i32 {
            let at = (y as usize * width as usize + x as usize) * 4;
            let pixel = &image.rgba[at..at + 4];
            let (dx, dy) = (x - 6, y - 6);
            if dx * dx + dy * dy <= 25 {
                assert_eq!(pixel, [0xFF, 0x66, 0x1A, 0xFF]);
                painted += 1;
            } else {
                let before: Vec<u8> = (at..at + 4).map(|k| (k % 251) as u8).collect();
                assert_eq!(pixel, before);
            }
        }
    }
    assert_eq!(painted, 81);
}

#[test]
fn an_image_too_small_for_the_dot_is_painted_where_it_can_be() {
    let mut image = Image { width: 2, height: 7, rgba: vec![0; 56] };
    overlay_error_dot(&mut image);
    assert_eq!(image.rgba[..4], [0, 0, 0, 0]);
    assert_eq!(image.rgba[(6 * 2 + 1) * 4..], [0xFF, 0x66, 0x1A, 0xFF]);
    let mut nothing = Image { width: 0, height: 0, rgba: Vec::new() };
    overlay_error_dot(&mut nothing);
    assert!(nothing.rgba.is_empty());
}

#[test]
fn an_icon_shows_the_status_on_the_glyph() {
    let rgba: Vec<u8> = (0..8 * 8 * 4).map(|k| (k * 7 % 256) as u8).collect();
    let mut png = Vec::new();
    image::codecs::png::PngEncoder::new(&mut png)
        .write_image(&rgba, 8, 8, image::ExtendedColorType::Rgba8)
        .unwrap();
    let glyph = || glyph_rgba(&png).expect("a glyph");
    assert_eq!((glyph().width, glyph().height), (8, 8));
    assert_eq!(glyph().rgba, rgba);
    assert!(glyph_rgba(b"not an image").is_none());

    assert_eq!(icon_for(&Status::Running(1), glyph()).rgba, rgba);
    let starting = icon_for(&Status::Starting, glyph());
    assert_eq!(starting.rgba[0], rgba[0]);
    assert_eq!(starting.rgba[7], (u16::from(rgba[7]) * 3 / 5) as u8);
    let failed = icon_for(&Status::Failed(s("x")), glyph());
    assert_eq!((failed.width, failed.height), (8, 8));
    assert_eq!(failed.rgba[..4], rgba[..4]);
    let center = (6 * 8 + 6) * 4;
    assert_eq!(failed.rgba[center..center + 4], [0xFF, 0x66, 0x1A, 0xFF]);
}

#[test]
fn the_page_is_filled_in_order() {
    let page = render_html(
        "<i>__GLYPH_SVG__</i>__INIT_STATUS__|__INIT_TELEMETRY__|__INIT_STATUS__",
        "<svg>__INIT_STATUS__</svg>",
        "{\"t\":__INIT_TELEMETRY__}",
        "T",
    );
    assert_eq!(page, "<i><svg>{\"t\":T}</svg></i>{\"t\":T}|T|{\"t\":T}");
    assert_eq!(script("__status", "{\"state\":\"running\"}"), "window.__status({\"state\":\"running\"})");
}
