//! MangoWM backend: what its replies say of monitors and windows.

use vstd::prelude::*;
use vstd::string::*;

use crate::domain::error::{AppError, AppErrorView};
use crate::domain::types::{
    monitor_views, no_border, window_views, BorderStyle, LayerSurface, MonitorInfo,
    MonitorInfoView, ScreenRect, WindowInfo, WindowInfoView,
};
use crate::platform::system::mango_ipc::{
    misread, parse_response, socket_of, socket_path,
};

verus! {

/// The request for all monitors.
pub const MONITORS_COMMAND: &'static str = "get all-monitors";

/// The request for all clients.
pub const CLIENTS_COMMAND: &'static str = "get all-clients";

/// The request for the focused client.
pub const FOCUSED_COMMAND: &'static str = "get focusing-client";

// ── replies ────────────────────────────────────────────────────────────────

/// A monitor as Mango describes it.
#[derive(Debug, Clone, PartialEq, Eq)]
pub struct MangoMonitor {
    pub name: String,
    pub active: bool,
    pub x: i32,
    pub y: i32,
    pub width: i32,
    pub height: i32,
    /// The tags shown on the monitor; none while it shows the overview.
    pub active_tags: Vec<i64>,
}

/// The reply to [`MONITORS_COMMAND`].
#[derive(Debug, Clone, PartialEq, Eq)]
pub struct MangoMonitorsResponse {
    pub monitors: Vec<MangoMonitor>,
}

/// A client as Mango describes it.
#[derive(Debug, Clone, PartialEq, Eq)]
pub struct MangoClient {
    pub id: u64,
    pub title: String,
    pub appid: String,
    pub x: i32,
    pub y: i32,
    pub width: i32,
    pub height: i32,
    pub is_floating: bool,
    pub is_visible: bool,
    pub is_focused: bool,
}

/// The reply to [`CLIENTS_COMMAND`].
#[derive(Debug, Clone, PartialEq, Eq)]
pub struct MangoClientsResponse {
    pub clients: Vec<MangoClient>,
}

/// What came of a request: the error of the exchange, or what came of reading
/// its reply as a `T`, where a failure is the text of the reader's error.
pub type Decoded<T> = Result<Result<T, String>, AppError>;

/// The value of a reply to `cmd`, or the error that is reported in its place.
pub open spec fn reply_value<T>(cmd: Seq<char>, reply: Decoded<T>) -> Result<T, AppErrorView> {
    match reply {
        Err(error) => Err(error@),
        Ok(Err(text)) => Err(misread(cmd, text@)),
        Ok(Ok(value)) => Ok(value),
    }
}

/// The value of a reply to `cmd`.
fn value_of<T>(cmd: &str, reply: Decoded<T>) -> (value: Result<T, AppError>)
    ensures
        match value {
            Ok(value) => reply_value(cmd@, reply) == Ok::<T, AppErrorView>(value),
            Err(error) => reply_value(cmd@, reply) == Err::<T, AppErrorView>(error@),
        },
{
    match reply {
        Err(error) => Err(error),
        Ok(parsed) => parse_response(cmd, parsed),
    }
}

// ── availability ───────────────────────────────────────────────────────────

/// Whether Mango can be reached: a socket is named, and takes connections.
pub open spec fn reachable(var: Option<Vec<u8>>, connected: bool) -> bool {
    socket_of(var) is Some && connected
}

/// Return whether Mango can be reached, given the bytes of the socket variable's
/// value and whether a connection to the socket it names could be made.
pub fn is_available(var: Option<Vec<u8>>, connected: bool) -> (available: bool)
    ensures
        available == reachable(var, connected),
        available == (socket_of(var) is Some && connected),
{
    match socket_path(var) {
        Ok(_) => connected,
        Err(_) => false,
    }
}

// ── monitors ───────────────────────────────────────────────────────────────

/// What is known of a monitor.
///
/// Mango uses tags rather than numbered workspaces. The first active tag stands
/// for the workspace, and 0 represents the overview.
pub open spec fn monitor_info(monitor: MangoMonitor) -> MonitorInfoView {
    MonitorInfoView {
        rect: ScreenRect { x: monitor.x, y: monitor.y, w: monitor.width, h: monitor.height },
        name: monitor.name@,
        focused: monitor.active,
        active_workspace_id: if monitor.active_tags@.len() > 0 {
            monitor.active_tags@[0]
        } else {
            0
        },
    }
}

/// What is known of a list of monitors.
pub open spec fn monitor_infos(monitors: Seq<MangoMonitor>) -> Seq<MonitorInfoView> {
    monitors.map_values(|monitor: MangoMonitor| monitor_info(monitor))
}

/// What is known of one monitor.
fn monitor_of(monitor: MangoMonitor) -> (info: MonitorInfo)
    ensures
        info@ == monitor_info(monitor),
{
    let active_workspace_id: i64 = if monitor.active_tags.len() > 0 {
        monitor.active_tags[0]
    } else {
        0
    };
    MonitorInfo {
        rect: ScreenRect { x: monitor.x, y: monitor.y, w: monitor.width, h: monitor.height },
        name: monitor.name,
        focused: monitor.active,
        active_workspace_id,
    }
}

/// The monitors, out of the reply to [`MONITORS_COMMAND`].
pub fn get_monitors(reply: Decoded<MangoMonitorsResponse>) -> (monitors: Result<
    Vec<MonitorInfo>,
    AppError,
>)
    ensures
        match (reply_value(MONITORS_COMMAND@, reply), monitors) {
            (Ok(response), Ok(list)) => monitor_views(list@) == monitor_infos(response.monitors@),
            (Err(expected), Err(error)) => error@ == expected,
            _ => false,
        },
        listed_monitors(reply) == match monitors {
            Ok(list) => Ok(monitor_views(list@)),
            Err(error) => Err(error@),
        },
{
    let response = match value_of(MONITORS_COMMAND, reply) {
        Ok(response) => response,
        Err(error) => {
            return Err(error);
        },
    };
    let ghost given = response.monitors@;
    let mut list: Vec<MonitorInfo> = Vec::new();
    for monitor in iter: response.monitors.into_iter()
        invariant
            iter.seq() == given,
            list@.len() == iter.index(),
            forall|i: int| 0 <= i < list@.len() ==> (#[trigger] list@[i])@ == monitor_info(given[i]),
    {
        list.push(monitor_of(monitor));
    }
    assert(monitor_views(list@) =~= monitor_infos(given));
    Ok(list)
}

// ── windows ────────────────────────────────────────────────────────────────

/// The place of a client in the focus history, where `order` is its place in the
/// reply. Mango exposes focus state but no history: the focused client comes
/// first, and the rest keep their order.
///
/// An order beyond the range of the result is taken with the same bits.
pub open spec fn focus_history(is_focused: bool, order: usize) -> int {
    if is_focused {
        0
    } else if order < i64::MAX {
        order + 1
    } else if order == i64::MAX {
        i64::MAX as int
    } else {
        order + 1 - 0x1_0000_0000_0000_0000
    }
}

/// Whether a client is a window that can be shown.
pub open spec fn is_window(client: MangoClient, require_visible: bool) -> bool {
    (require_visible ==> client.is_visible) && client.width > 0 && client.height > 0
}

/// What is known of the window of a client, the one at place `order`.
pub open spec fn window_info(client: MangoClient, order: usize) -> WindowInfoView {
    WindowInfoView {
        rect: ScreenRect { x: client.x, y: client.y, w: client.width, h: client.height },
        title: client.title@,
        class: client.appid@,
        floating: client.is_floating,
        focus_history_id: focus_history(client.is_focused, order) as i64,
        address: client.id,
    }
}

/// The windows of a list of clients: one for each client that is a visible
/// window, in the order of the list.
pub open spec fn window_infos(clients: Seq<MangoClient>) -> Seq<WindowInfoView>
    decreases clients.len(),
{
    if clients.len() == 0 {
        Seq::empty()
    } else {
        let before = window_infos(clients.drop_last());
        if is_window(clients.last(), true) {
            before.push(window_info(clients.last(), (clients.len() - 1) as usize))
        } else {
            before
        }
    }
}

/// The place in the focus history of a client that is not focused.
fn unfocused_history(order: usize) -> (id: i64)
    ensures
        id == focus_history(false, order),
{
    let wide: u64 = order as u64;
    assert(wide <= 0x7fff_ffff_ffff_ffffu64 ==> (wide as i64) == wide) by (bit_vector);
    assert(wide > 0x7fff_ffff_ffff_ffffu64 ==> (wide as i64) == wide - 0x1_0000_0000_0000_0000)
        by (bit_vector);
    let signed: i64 = #[verifier::truncate] (wide as i64);
    if signed == i64::MAX {
        i64::MAX
    } else {
        signed + 1
    }
}

/// The window of a client, where it is one; `order` is its place in the reply.
pub open spec fn client_window(
    client: MangoClient,
    order: usize,
    require_visible: bool,
) -> Option<WindowInfoView> {
    if is_window(client, require_visible) {
        Some(window_info(client, order))
    } else {
        None
    }
}

/// The focused window, or why there is none, out of what came of asking for it.
pub open spec fn focused_window(reply: Decoded<MangoClient>) -> Result<
    WindowInfoView,
    AppErrorView,
> {
    match reply_value(FOCUSED_COMMAND@, reply) {
        Err(error) => Err(error),
        Ok(client) => match client_window(client, 0, false) {
            Some(window) => Ok(window),
            None => Err(
                AppErrorView::CompositorProtocol("focused Mango client has invalid geometry"@),
            ),
        },
    }
}

/// The monitors, or why there are none, out of what came of asking for them.
pub open spec fn listed_monitors(reply: Decoded<MangoMonitorsResponse>) -> Result<
    Seq<MonitorInfoView>,
    AppErrorView,
> {
    match reply_value(MONITORS_COMMAND@, reply) {
        Err(error) => Err(error),
        Ok(response) => Ok(monitor_infos(response.monitors@)),
    }
}

/// The windows, or why there are none, out of what came of asking for them.
pub open spec fn listed_windows(reply: Decoded<MangoClientsResponse>) -> Result<
    Seq<WindowInfoView>,
    AppErrorView,
> {
    match reply_value(CLIENTS_COMMAND@, reply) {
        Err(error) => Err(error),
        Ok(response) => Ok(window_infos(response.clients@)),
    }
}

/// The window of a client, where it is one; `order` is the client's place in the
/// reply. A client without an area is no window, nor is a hidden one where
/// `require_visible` is set.
pub fn parse_client(client: MangoClient, order: usize, require_visible: bool) -> (window: Option<
    WindowInfo,
>)
    ensures
        match window {
            Some(found) => is_window(client, require_visible) && found@ == window_info(
                client,
                order,
            ),
            None => !is_window(client, require_visible),
        },
        client_window(client, order, require_visible) == match window {
            Some(found) => Some(found@),
            None => None,
        },
{
    if require_visible && !client.is_visible {
        return None;
    }
    if client.width <= 0 || client.height <= 0 {
        return None;
    }
    let focus_history_id: i64 = if client.is_focused {
        0
    } else {
        unfocused_history(order)
    };
    Some(
        WindowInfo {
            rect: ScreenRect { x: client.x, y: client.y, w: client.width, h: client.height },
            title: client.title,
            class: client.appid,
            floating: client.is_floating,
            focus_history_id,
            address: client.id,
        },
    )
}

/// The windows, out of the reply to [`CLIENTS_COMMAND`].
pub fn get_clients(reply: Decoded<MangoClientsResponse>) -> (windows: Result<
    Vec<WindowInfo>,
    AppError,
>)
    ensures
        match (reply_value(CLIENTS_COMMAND@, reply), windows) {
            (Ok(response), Ok(list)) => window_views(list@) == window_infos(response.clients@),
            (Err(expected), Err(error)) => error@ == expected,
            _ => false,
        },
        listed_windows(reply) == match windows {
            Ok(list) => Ok(window_views(list@)),
            Err(error) => Err(error@),
        },
{
    let response = match value_of(CLIENTS_COMMAND, reply) {
        Ok(response) => response,
        Err(error) => {
            return Err(error);
        },
    };
    let ghost given = response.clients@;
    let count: usize = response.clients.len();
    let mut list: Vec<WindowInfo> = Vec::new();
    let mut order: usize = 0;
    assert(window_views(list@) =~= window_infos(given.take(0)));
    for client in iter: response.clients.into_iter()
        invariant
            iter.seq() == given,
            count == given.len(),
            order == iter.index(),
            window_views(list@) == window_infos(given.take(order as int)),
    {
        let ghost before = list@;
        let ghost seen = given.take(order + 1);
        assert(seen.drop_last() =~= given.take(order as int));
        assert(seen.last() == given[order as int]);
        if let Some(window) = parse_client(client, order, true) {
            list.push(window);
            assert(window_views(list@) =~= window_views(before).push(window@));
        }
        order = order + 1;
    }
    assert(given.take(order as int) =~= given);
    Ok(list)
}

/// The focused window, out of the reply to [`FOCUSED_COMMAND`]; it need not be
/// marked visible.
pub fn get_active_window(reply: Decoded<MangoClient>) -> (window: Result<WindowInfo, AppError>)
    ensures
        match (reply_value(FOCUSED_COMMAND@, reply), window) {
            (Ok(client), Ok(found)) => is_window(client, false) && found@ == window_info(client, 0),
            (Ok(client), Err(error)) => !is_window(client, false) && error@
                == AppErrorView::CompositorProtocol("focused Mango client has invalid geometry"@),
            (Err(expected), Err(error)) => error@ == expected,
            _ => false,
        },
        focused_window(reply) == match window {
            Ok(found) => Ok(found@),
            Err(error) => Err(error@),
        },
{
    let client = match value_of(FOCUSED_COMMAND, reply) {
        Ok(client) => client,
        Err(error) => {
            return Err(error);
        },
    };
    match parse_client(client, 0, false) {
        Some(window) => Ok(window),
        None => Err(
            AppError::CompositorProtocol("focused Mango client has invalid geometry".to_owned()),
        ),
    }
}

/// The layer surfaces: none, because Mango does not expose their geometry.
/// Normal window hit testing still uses the visible clients.
pub fn get_overlay_layers() -> (layers: Result<Vec<LayerSurface>, AppError>)
    ensures
        layers matches Ok(list) && list@ == Seq::<LayerSurface>::empty(),
{
    Ok(Vec::new())
}

/// The border style: Mango has no query for it, so the one that leaves window
/// geometry unchanged.
pub fn get_border_style() -> (style: BorderStyle)
    ensures
        style == no_border(),
{
    BorderStyle::default()
}

// ── laws ───────────────────────────────────────────────────────────────────

/// Windows come in the order of their clients: the windows of a list begin with
/// the windows of its first `count` clients.
pub proof fn windows_keep_the_order_of_clients(clients: Seq<MangoClient>, count: nat)
    requires
        count <= clients.len(),
    ensures
        window_infos(clients.take(count as int)).is_prefix_of(window_infos(clients)),
    decreases clients.len(),
{
    if count == clients.len() {
        assert(clients.take(count as int) =~= clients);
    } else {
        assert(clients.drop_last().take(count as int) =~= clients.take(count as int));
        windows_keep_the_order_of_clients(clients.drop_last(), count);
    }
}

/// Every window comes from a visible client with an area, and has that client's
/// place in the focus history.
pub proof fn windows_come_from_visible_clients(clients: Seq<MangoClient>, index: int)
    requires
        0 <= index < window_infos(clients).len(),
    ensures
        exists|i: int|
            0 <= i < clients.len() && is_window(#[trigger] clients[i], true) && window_infos(
                clients,
            )[index] == window_info(clients[i], i as usize),
    decreases clients.len(),
{
    let last = clients.len() - 1;
    if is_window(clients.last(), true) && index == window_infos(clients).len() - 1 {
        assert(clients[last] == clients.last());
    } else {
        windows_come_from_visible_clients(clients.drop_last(), index);
        let i = choose|i: int|
            0 <= i < clients.drop_last().len() && is_window(
                #[trigger] clients.drop_last()[i],
                true,
            ) && window_infos(clients.drop_last())[index] == window_info(
                clients.drop_last()[i],
                i as usize,
            );
        assert(clients[i] == clients.drop_last()[i]);
    }
}

/// Every visible client with an area has its window in the list.
pub proof fn visible_clients_have_windows(clients: Seq<MangoClient>, i: int)
    requires
        0 <= i < clients.len(),
        is_window(clients[i], true),
    ensures
        window_infos(clients).contains(window_info(clients[i], i as usize)),
    decreases clients.len(),
{
    let window = window_info(clients[i], i as usize);
    let all = window_infos(clients);
    if i == clients.len() - 1 {
        assert(all[all.len() - 1] == window);
    } else {
        visible_clients_have_windows(clients.drop_last(), i);
        let before = window_infos(clients.drop_last());
        let k = choose|k: int| 0 <= k < before.len() && before[k] == window;
        assert(all[k] == window);
    }
}

/// The focused client comes first in the focus history, and the rest follow in
/// the order in which Mango lists them.
pub proof fn focused_first_and_the_rest_in_order(a: usize, b: usize)
    requires
        a < b < i64::MAX,
    ensures
        focus_history(true, a) == focus_history(true, b) == 0,
        0 < focus_history(false, a) < focus_history(false, b),
{
}

/// No window of a list of clients is later in the focus history than the list is
/// long.
proof fn histories_are_bounded(clients: Seq<MangoClient>, index: int)
    requires
        clients.len() < i64::MAX,
        clients.len() <= usize::MAX,
        0 <= index < window_infos(clients).len(),
    ensures
        0 <= window_infos(clients)[index].focus_history_id <= clients.len(),
    decreases clients.len(),
{
    if !(is_window(clients.last(), true) && index == window_infos(clients).len() - 1) {
        histories_are_bounded(clients.drop_last(), index);
    }
}

/// In the list of windows, those that are not focused follow each other in the
/// order of their places in the focus history.
pub proof fn unfocused_windows_are_listed_in_history_order(
    clients: Seq<MangoClient>,
    first: int,
    second: int,
)
    requires
        clients.len() < i64::MAX,
        clients.len() <= usize::MAX,
        0 <= first < second < window_infos(clients).len(),
        window_infos(clients)[first].focus_history_id != 0,
        window_infos(clients)[second].focus_history_id != 0,
    ensures
        window_infos(clients)[first].focus_history_id
            < window_infos(clients)[second].focus_history_id,
    decreases clients.len(),
{
    let before = clients.drop_last();
    if is_window(clients.last(), true) && second == window_infos(clients).len() - 1 {
        histories_are_bounded(before, first);
    } else {
        unfocused_windows_are_listed_in_history_order(before, first, second);
    }
}

/// Each monitor keeps its place in the list.
pub proof fn monitors_keep_their_places(monitors: Seq<MangoMonitor>)
    ensures
        monitor_infos(monitors).len() == monitors.len(),
        forall|i: int|
            0 <= i < monitors.len() ==> #[trigger] monitor_infos(monitors)[i] == monitor_info(
                monitors[i],
            ),
{
}

/// Mango can be reached exactly if the variable holds something and the socket that
/// it names takes connections.
pub proof fn reachable_needs_a_name_and_a_connection(value: Vec<u8>, connected: bool)
    ensures
        reachable(Some(value), connected) <==> value@.len() > 0 && connected,
        !reachable(None, connected),
{
}

/// A client is a window exactly if it has an area and is visible, where that is
/// required; nothing else about it matters.
pub proof fn clients_with_an_area_are_windows(
    client: MangoClient,
    order: usize,
    require_visible: bool,
)
    ensures
        client_window(client, order, require_visible) is Some <==> client.width > 0
            && client.height > 0 && (client.is_visible || !require_visible),
{
}

/// A window has the rectangle, the texts, the state and the id of its client. The
/// focused client comes first in the focus history, and any other one after it, one
/// place later than in the reply, as far as the history's numbers reach; beyond
/// that, a place has the same lowest bits.
pub proof fn windows_say_what_their_clients_say(
    client: MangoClient,
    order: usize,
    require_visible: bool,
)
    ensures
        client_window(client, order, require_visible) matches Some(window) ==> {
            &&& window.rect.x == client.x
            &&& window.rect.y == client.y
            &&& window.rect.w == client.width
            &&& window.rect.h == client.height
            &&& window.title == client.title@
            &&& window.class == client.appid@
            &&& window.floating == client.is_floating
            &&& window.address == client.id
            &&& client.is_focused ==> window.focus_history_id == 0
            &&& !client.is_focused && order < 0x7fff_ffff_ffff_ffff ==> window.focus_history_id
                == order + 1
            &&& !client.is_focused && order == 0x7fff_ffff_ffff_ffff ==> window.focus_history_id
                == order
            &&& !client.is_focused && order > 0x7fff_ffff_ffff_ffff ==> (window.focus_history_id
                - order - 1) % 0x1_0000_0000_0000_0000 == 0
        },
{
}

/// Every client of a reply that is marked visible and has a width and a height has
/// its window in the list, with the client's own rectangle, texts and id.
pub proof fn every_visible_client_is_listed(clients: Seq<MangoClient>, i: int)
    requires
        0 <= i < clients.len(),
        clients[i].is_visible,
        clients[i].width > 0,
        clients[i].height > 0,
    ensures
        exists|k: int|
            0 <= k < window_infos(clients).len() && {
                let window = #[trigger] window_infos(clients)[k];
                &&& window.rect.x == clients[i].x
                &&& window.rect.y == clients[i].y
                &&& window.rect.w == clients[i].width
                &&& window.rect.h == clients[i].height
                &&& window.title == clients[i].title@
                &&& window.class == clients[i].appid@
                &&& window.floating == clients[i].is_floating
                &&& window.address == clients[i].id
            },
{
    clients_with_an_area_are_windows(clients[i], i as usize, true);
    windows_say_what_their_clients_say(clients[i], i as usize, true);
    visible_clients_have_windows(clients, i);
    let window = window_info(clients[i], i as usize);
    let k = choose|k: int| 0 <= k < window_infos(clients).len() && window_infos(clients)[k]
        == window;
    assert(window_infos(clients)[k] == window);
}

/// The list of windows grows with the reply: a further client adds its window at the
/// end if it is marked visible and has a width and a height, and adds nothing
/// otherwise. Without clients there are no windows.
pub proof fn each_client_adds_its_window_or_nothing(clients: Seq<MangoClient>, client: MangoClient)
    ensures
        window_infos(Seq::empty()).len() == 0,
        client.is_visible && client.width > 0 && client.height > 0 ==> (client_window(
            client,
            clients.len() as usize,
            true,
        ) matches Some(window) && window_infos(clients.push(client)) == window_infos(clients).push(
            window,
        )),
        !(client.is_visible && client.width > 0 && client.height > 0) ==> window_infos(
            clients.push(client),
        ) == window_infos(clients),
{
    assert(clients.push(client).drop_last() =~= clients);
    assert(clients.push(client).last() == client);
}

/// The list of monitors has one entry for each monitor of the reply, in its place,
/// with the monitor's own rectangle, name and focus, and its first tag, or zero
/// where it has none.
pub proof fn monitors_say_what_the_reply_says(monitors: Seq<MangoMonitor>, i: int)
    requires
        0 <= i < monitors.len(),
    ensures
        monitor_infos(monitors).len() == monitors.len(),
        monitor_infos(monitors)[i].rect.x == monitors[i].x,
        monitor_infos(monitors)[i].rect.y == monitors[i].y,
        monitor_infos(monitors)[i].rect.w == monitors[i].width,
        monitor_infos(monitors)[i].rect.h == monitors[i].height,
        monitor_infos(monitors)[i].name == monitors[i].name@,
        monitor_infos(monitors)[i].focused == monitors[i].active,
        monitors[i].active_tags@.len() > 0 ==> monitor_infos(monitors)[i].active_workspace_id
            == monitors[i].active_tags@.first(),
        monitors[i].active_tags@.len() == 0 ==> monitor_infos(monitors)[i].active_workspace_id
            == 0,
{
}

/// What came of a request is handed on: the error of the exchange as it is, what was
/// read as it is, and the reader's words after those for the request.
pub proof fn replies_are_handed_on<T>(cmd: Seq<char>, failure: AppError, text: String, value: T)
    ensures
        reply_value(cmd, Err::<Result<T, String>, AppError>(failure)) == Err::<T, AppErrorView>(
            failure@,
        ),
        reply_value(cmd, Ok::<Result<T, String>, AppError>(Err(text))) == Err::<T, AppErrorView>(
            AppErrorView::CompositorProtocol("invalid response for "@ + cmd + ": "@ + text@),
        ),
        reply_value(cmd, Ok::<Result<T, String>, AppError>(Ok(value))) == Ok::<T, AppErrorView>(
            value,
        ),
{
}

/// The monitors are those of the reply to the request for them.
pub proof fn monitors_come_from_their_reply(
    failure: AppError,
    text: String,
    response: MangoMonitorsResponse,
)
    ensures
        listed_monitors(Err(failure)) == Err::<Seq<MonitorInfoView>, AppErrorView>(failure@),
        listed_monitors(Ok(Err(text))) == Err::<Seq<MonitorInfoView>, AppErrorView>(
            AppErrorView::CompositorProtocol(
                "invalid response for "@ + "get all-monitors"@ + ": "@ + text@,
            ),
        ),
        listed_monitors(Ok(Ok(response))) == Ok::<Seq<MonitorInfoView>, AppErrorView>(
            monitor_infos(response.monitors@),
        ),
{
}

/// The windows are those of the reply to the request for the clients.
pub proof fn windows_come_from_their_reply(
    failure: AppError,
    text: String,
    response: MangoClientsResponse,
)
    ensures
        listed_windows(Err(failure)) == Err::<Seq<WindowInfoView>, AppErrorView>(failure@),
        listed_windows(Ok(Err(text))) == Err::<Seq<WindowInfoView>, AppErrorView>(
            AppErrorView::CompositorProtocol(
                "invalid response for "@ + "get all-clients"@ + ": "@ + text@,
            ),
        ),
        listed_windows(Ok(Ok(response))) == Ok::<Seq<WindowInfoView>, AppErrorView>(
            window_infos(response.clients@),
        ),
{
}

/// The focused window is that of the focused client, visible or not, if the client
/// has an area; otherwise there is an error that says so.
pub proof fn the_focused_window_has_an_area(failure: AppError, text: String, client: MangoClient)
    ensures
        focused_window(Err(failure)) == Err::<WindowInfoView, AppErrorView>(failure@),
        focused_window(Ok(Err(text))) == Err::<WindowInfoView, AppErrorView>(
            AppErrorView::CompositorProtocol(
                "invalid response for "@ + "get focusing-client"@ + ": "@ + text@,
            ),
        ),
        client.width > 0 && client.height > 0 ==> (focused_window(Ok(Ok(client))) matches Ok(window)
            && client_window(client, 0, false) == Some(window)),
        client.width <= 0 || client.height <= 0 ==> focused_window(Ok(Ok(client))) == Err::<
            WindowInfoView,
            AppErrorView,
        >(AppErrorView::CompositorProtocol("focused Mango client has invalid geometry"@)),
{
}

} // verus!
