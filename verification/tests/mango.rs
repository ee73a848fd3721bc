use hyprcrop_platform::domain::error::AppError;
use hyprcrop_platform::domain::types::{BorderStyle, MonitorInfo, ScreenRect, WindowInfo};
use hyprcrop_platform::platform::system::mango::{
    get_active_window, get_border_style, get_clients, get_monitors, get_overlay_layers,
    is_available, parse_client, MangoClient, MangoClientsResponse, MangoMonitor,
    MangoMonitorsResponse,
};
use hyprcrop_platform::platform::system::mango_ipc::{check_reply, parse_response};
use serde_json::Value;

fn object(members: Vec<(&str, Value)>) -> Value {
    let mut map = serde_json::Map::new();
    for (key, value) in members {
        map.insert(key.to_owned(), value);
    }
    Value::Object(map)
}

fn client(id: u64, title: &str, appid: &str, is_visible: bool, is_focused: bool) -> MangoClient {
    MangoClient {
        id,
        title: title.to_owned(),
        appid: appid.to_owned(),
        x: 0,
        y: 0,
        width: 800,
        height: 600,
        is_floating: false,
        is_visible,
        is_focused,
    }
}

fn monitor(name: &str, active_tags: Vec<i64>) -> MangoMonitor {
    MangoMonitor {
        name: name.to_owned(),
        active: true,
        x: -1920,
        y: 0,
        width: 1920,
        height: 1080,
        active_tags,
    }
}

fn malformed() -> String {
    serde_json::from_slice::<Value>(b"").unwrap_err().to_string()
}

#[test]
fn parses_monitor_response() {
    let value = object(vec![(
        "monitors",
        Value::Array(vec![object(vec![
            ("name", Value::from("DP-1")),
            ("active", Value::from(true)),
            ("x", Value::from(-1920)),
            ("y", Value::from(0)),
            ("width", Value::from(1920)),
            ("height", Value::from(1080)),
            ("scale", Value::from(1.25)),
            ("active_tags", Value::Array(vec![Value::from(2)])),
        ])]),
    )]);
    let value = check_reply("test", value).unwrap();
    let number = |member: &Value| member.as_i64().unwrap() as i32;
    let monitors = value["monitors"]
        .as_array()
        .unwrap()
        .iter()
        .map(|monitor| MangoMonitor {
            name: monitor["name"].as_str().unwrap().to_owned(),
            active: monitor["active"].as_bool().unwrap(),
            x: number(&monitor["x"]),
            y: number(&monitor["y"]),
            width: number(&monitor["width"]),
            height: number(&monitor["height"]),
            active_tags: serde_json::from_value(monitor["active_tags"].clone()).unwrap(),
        })
        .collect();
    let response: MangoMonitorsResponse =
        parse_response("test", Ok(MangoMonitorsResponse { monitors })).unwrap();
    assert_eq!(response.monitors[0].name, "DP-1");
    assert_eq!(response.monitors[0].active_tags, vec![2]);
    assert_eq!(
        get_monitors(Ok(Ok(response))).unwrap(),
        vec![MonitorInfo {
            rect: ScreenRect { x: -1920, y: 0, w: 1920, h: 1080 },
            name: "DP-1".to_owned(),
            focused: true,
            active_workspace_id: 2,
        }]
    );
}

#[test]
fn parses_visible_clients_and_focus_order() {
    let response: MangoClientsResponse = parse_response(
        "test",
        Ok(MangoClientsResponse {
            clients: vec![
                client(7, "focused", "kitty", true, true),
                client(8, "hidden", "firefox", false, false),
            ],
        }),
    )
    .unwrap();
    let windows: Vec<_> = response
        .clients
        .clone()
        .into_iter()
        .enumerate()
        .filter_map(|(i, client)| parse_client(client, i, true))
        .collect();
    assert_eq!(windows.len(), 1);
    assert_eq!(windows[0].class, "kitty");
    assert_eq!(windows[0].address, 7);
    assert_eq!(windows[0].focus_history_id, 0);
    assert_eq!(get_clients(Ok(Ok(response))).unwrap(), windows);
}

#[test]
fn the_first_tag_stands_for_the_workspace() {
    let response = MangoMonitorsResponse {
        monitors: vec![monitor("A", vec![4, 2]), monitor("B", vec![]), monitor("C", vec![-1])],
    };
    let monitors = get_monitors(Ok(Ok(response))).unwrap();
    let ids: Vec<i64> = monitors.iter().map(|m| m.active_workspace_id).collect();
    assert_eq!(ids, vec![4, 0, -1]);
    let names: Vec<&str> = monitors.iter().map(|m| m.name.as_str()).collect();
    assert_eq!(names, vec!["A", "B", "C"]);
}

#[test]
fn replies_that_cannot_be_read_name_their_request() {
    let texts = [
        get_monitors(Ok(Err(malformed()))).unwrap_err(),
        get_clients(Ok(Err(malformed()))).unwrap_err(),
        get_active_window(Ok(Err(malformed()))).unwrap_err(),
    ]
    .map(|error| match error {
        AppError::CompositorProtocol(text) => text,
        other => panic!("unexpected {other:?}"),
    });
    let cause = malformed();
    assert_eq!(
        texts,
        [
            format!("invalid response for get all-monitors: {cause}"),
            format!("invalid response for get all-clients: {cause}"),
            format!("invalid response for get focusing-client: {cause}"),
        ]
    );
}

#[test]
fn errors_of_the_exchange_are_handed_on() {
    let failed = || AppError::CompositorProtocol("refused".to_owned());
    for error in [
        get_monitors(Err(failed())).unwrap_err(),
        get_clients(Err(failed())).unwrap_err(),
        get_active_window(Err(failed())).unwrap_err(),
    ] {
        assert!(matches!(error, AppError::CompositorProtocol(text) if text == "refused"));
    }
}

#[test]
fn unfocused_windows_keep_their_places() {
    let mut flat = client(3, "flat", "c", true, false);
    flat.height = 0;
    let response = MangoClientsResponse {
        clients: vec![
            client(1, "first", "a", true, false),
            client(2, "hidden", "b", false, false),
            flat,
            client(4, "focused", "d", true, true),
            client(5, "last", "e", true, false),
        ],
    };
    let windows = get_clients(Ok(Ok(response))).unwrap();
    let places: Vec<(u64, i64)> = windows.iter().map(|w| (w.address, w.focus_history_id)).collect();
    assert_eq!(places, vec![(1, 1), (4, 0), (5, 5)]);
}

#[test]
fn a_client_becomes_a_window() {
    let mut given = client(9, "title", "app", true, false);
    given.x = -5;
    given.y = 6;
    given.is_floating = true;
    assert_eq!(
        parse_client(given, 2, true).unwrap(),
        WindowInfo {
            rect: ScreenRect { x: -5, y: 6, w: 800, h: 600 },
            title: "title".to_owned(),
            class: "app".to_owned(),
            floating: true,
            focus_history_id: 3,
            address: 9,
        }
    );
}

#[test]
fn places_beyond_the_history_saturate_and_wrap() {
    let place = |order| {
        parse_client(client(1, "", "", true, false), order, true).unwrap().focus_history_id
    };
    assert_eq!(place(0), 1);
    assert_eq!(place(i64::MAX as usize - 1), i64::MAX);
    assert_eq!(place(i64::MAX as usize), i64::MAX);
    assert_eq!(place(i64::MAX as usize + 1), i64::MIN + 1);
    assert_eq!(place(usize::MAX), 0);
}

#[test]
fn the_active_window_may_be_hidden_but_not_flat() {
    let window = get_active_window(Ok(Ok(client(7, "t", "a", false, false)))).unwrap();
    assert_eq!((window.address, window.focus_history_id), (7, 1));
    let window = get_active_window(Ok(Ok(client(7, "t", "a", false, true)))).unwrap();
    assert_eq!(window.focus_history_id, 0);
    for (width, height) in [(0, 1), (1, 0), (-1, 5)] {
        let mut flat = client(7, "t", "a", true, true);
        flat.width = width;
        flat.height = height;
        assert!(matches!(
            get_active_window(Ok(Ok(flat))),
            Err(AppError::CompositorProtocol(text))
                if text == "focused Mango client has invalid geometry"
        ));
    }
}

#[test]
fn mango_exposes_no_layers_and_no_borders() {
    assert_eq!(get_overlay_layers().unwrap(), vec![]);
    assert_eq!(get_border_style(), BorderStyle { border_size: 0, rounding: 0 });
}

#[test]
fn mango_is_available_with_a_reachable_socket() {
    assert!(is_available(Some(b"/run/mango".to_vec()), true));
    assert!(!is_available(Some(b"/run/mango".to_vec()), false));
    assert!(!is_available(Some(Vec::new()), true));
    assert!(!is_available(None, true));
}
