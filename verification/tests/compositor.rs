use hyprcrop_platform::domain::error::AppError;
use hyprcrop_platform::domain::types::{
    BorderStyle, LayerSurface, MonitorInfo, ScreenRect, WindowInfo,
};
use hyprcrop_platform::platform::system::compositor::{
    active_workspace_ids, detect, detect_step, is_available, Backend, CompositorBackend,
    CompositorKind, Detection, HyprlandActiveWindow, Reply,
};
use hyprcrop_platform::platform::system::mango::{
    MangoClient, MangoClientsResponse, MangoMonitor, MangoMonitorsResponse,
};

fn selected(requested: Option<&str>, hyprland: bool, mango: bool) -> Result<Backend, String> {
    let mut detection = detect(requested.map(|text| text.to_owned()));
    loop {
        match detection {
            Detection::Probing(probe) => {
                let reachable = match probe.backend() {
                    Backend::Hyprland => hyprland,
                    Backend::Mango => mango,
                };
                detection = detect_step(probe, reachable);
            }
            Detection::Detected(Ok(backend)) => return Ok(backend),
            Detection::Detected(Err(AppError::UnsupportedCompositor(text))) => return Err(text),
            Detection::Detected(Err(other)) => panic!("unexpected {other:?}"),
        }
    }
}

fn refused() -> AppError {
    AppError::CompositorProtocol("refused".to_owned())
}

fn monitor(active_workspace_id: i64) -> MonitorInfo {
    MonitorInfo {
        rect: ScreenRect { x: 0, y: 0, w: 10, h: 20 },
        name: "eDP-1".to_owned(),
        focused: true,
        active_workspace_id,
    }
}

fn window() -> WindowInfo {
    WindowInfo {
        rect: ScreenRect { x: 1, y: 2, w: 3, h: 4 },
        title: "title".to_owned(),
        class: "class".to_owned(),
        floating: true,
        focus_history_id: 6,
        address: 7,
    }
}

fn client() -> MangoClient {
    MangoClient {
        id: 7,
        title: "title".to_owned(),
        appid: "class".to_owned(),
        x: 1,
        y: 2,
        width: 3,
        height: 4,
        is_floating: true,
        is_visible: true,
        is_focused: true,
    }
}

#[test]
fn backend_kinds_are_distinct() {
    assert_ne!(Backend::Hyprland.kind(), Backend::Mango.kind());
}

#[test]
fn kinds_name_their_backends() {
    assert_eq!(Backend::Hyprland.kind(), CompositorKind::Hyprland);
    assert_eq!(Backend::Mango.kind(), CompositorKind::Mango);
}

#[test]
fn monitors_of_either_compositor() {
    let given = vec![monitor(3), monitor(4)];
    let monitors = Backend::Hyprland.monitors(Reply::Hyprland(Ok(given.clone()))).unwrap();
    assert_eq!(monitors, given);
    assert!(Backend::Hyprland.monitors(Reply::Hyprland(Err(refused()))).is_err());

    let response = MangoMonitorsResponse {
        monitors: vec![MangoMonitor {
            name: "eDP-1".to_owned(),
            active: true,
            x: 0,
            y: 0,
            width: 10,
            height: 20,
            active_tags: vec![3],
        }],
    };
    let monitors = Backend::Mango.monitors(Reply::Mango(Ok(Ok(response)))).unwrap();
    assert_eq!(monitors, vec![monitor(3)]);
    assert!(Backend::Mango.monitors(Reply::Mango(Err(refused()))).is_err());
}

#[test]
fn the_focused_window_of_hyprland_has_its_place_alone() {
    let active = HyprlandActiveWindow { at: [-3, 4], size: [5, 6] };
    assert_eq!(
        Backend::Hyprland.active_window(Reply::Hyprland(Ok(active))).unwrap(),
        WindowInfo {
            rect: ScreenRect { x: -3, y: 4, w: 5, h: 6 },
            title: String::new(),
            class: String::new(),
            floating: false,
            focus_history_id: 0,
            address: 0,
        }
    );
    for size in [[0, 1], [1, 0], [-1, -1]] {
        let flat = HyprlandActiveWindow { at: [0, 0], size };
        assert!(matches!(
            Backend::Hyprland.active_window(Reply::Hyprland(Ok(flat))),
            Err(AppError::CompositorProtocol(text))
                if text == "Hyprland focused window has invalid geometry"
        ));
    }
    assert!(matches!(
        Backend::Hyprland.active_window(Reply::Hyprland(Err(refused()))),
        Err(AppError::CompositorProtocol(text)) if text == "refused"
    ));
}

#[test]
fn the_focused_window_of_mango() {
    let mut expected = window();
    expected.focus_history_id = 0;
    assert_eq!(Backend::Mango.active_window(Reply::Mango(Ok(Ok(client())))).unwrap(), expected);
}

#[test]
fn windows_of_either_compositor() {
    let given = vec![window()];
    assert_eq!(Backend::Hyprland.windows(Reply::Hyprland(Ok(given.clone()))).unwrap(), given);
    let response = MangoClientsResponse { clients: vec![client()] };
    let windows = Backend::Mango.windows(Reply::Mango(Ok(Ok(response)))).unwrap();
    assert_eq!(windows.len(), 1);
    assert_eq!(windows[0].title, "title");
}

#[test]
fn layers_and_borders_of_either_compositor() {
    let layer = LayerSurface { rect: ScreenRect { x: 0, y: 0, w: 1, h: 1 } };
    let layers = Backend::Hyprland.overlay_layers(Reply::Hyprland(Ok(vec![layer]))).unwrap();
    assert_eq!(layers, vec![layer]);
    assert_eq!(Backend::Mango.overlay_layers(Reply::Mango(())).unwrap(), vec![]);

    let style = BorderStyle { border_size: 2, rounding: 8 };
    assert_eq!(Backend::Hyprland.border_style(Reply::Hyprland(style)), style);
    assert_eq!(Backend::Mango.border_style(Reply::Mango(())), BorderStyle::default());
}

#[test]
fn windows_are_asked_of_the_shown_workspaces() {
    let monitors = vec![monitor(3), monitor(-1), monitor(3)];
    assert_eq!(active_workspace_ids(Ok(monitors)).unwrap(), vec![3, -1, 3]);
    assert!(matches!(
        active_workspace_ids(Err(refused())),
        Err(AppError::CompositorProtocol(text)) if text == "refused"
    ));
}

#[test]
fn hyprland_is_preferred() {
    assert_eq!(selected(None, true, true), Ok(Backend::Hyprland));
    assert_eq!(selected(None, true, false), Ok(Backend::Hyprland));
    assert_eq!(selected(None, false, true), Ok(Backend::Mango));
    assert_eq!(
        selected(None, false, false),
        Err("no supported compositor detected (expected Hyprland or MangoWM)".to_owned())
    );
}

#[test]
fn requests_are_honoured_in_any_case() {
    for request in ["hyprland", "hypr", "HYPRLAND", "Hypr"] {
        assert_eq!(selected(Some(request), true, true), Ok(Backend::Hyprland));
    }
    for request in ["mango", "mangowm", "MangoWM", "MANGO"] {
        assert_eq!(selected(Some(request), true, true), Ok(Backend::Mango));
    }
}

#[test]
fn requests_never_fall_back() {
    assert_eq!(
        selected(Some("Mango"), true, false),
        Err("requested compositor 'mango' is not reachable".to_owned())
    );
    assert_eq!(
        selected(Some("HYPR"), false, true),
        Err("requested compositor 'hypr' is not reachable".to_owned())
    );
}

#[test]
fn unknown_requests_are_refused() {
    assert_eq!(
        selected(Some("Sway"), true, true),
        Err("unknown HYPRCROP_COMPOSITOR value 'sway' (use hyprland or mango)".to_owned())
    );
    assert_eq!(
        selected(Some("MANGÖ"), true, true),
        Err("unknown HYPRCROP_COMPOSITOR value 'mangÖ' (use hyprland or mango)".to_owned())
    );
    assert_eq!(
        selected(Some(""), true, true),
        Err("unknown HYPRCROP_COMPOSITOR value '' (use hyprland or mango)".to_owned())
    );
}

#[test]
fn availability_is_what_the_probe_found() {
    assert!(is_available(Backend::Hyprland, Reply::Hyprland(true)));
    assert!(!is_available(Backend::Hyprland, Reply::Hyprland(false)));
    assert!(is_available(Backend::Mango, Reply::Mango(true)));
    assert!(!is_available(Backend::Mango, Reply::Mango(false)));
}
