//! Compositor selection and the shared compositor backend interface.
//!
//! Capture and freeze-mode code depends on this interface instead of knowing
//! whether state came from Hyprland or from MangoWM. A backend's `kind` says which
//! compositor to ask; what that compositor replied comes in as a [`Reply`].

use vstd::prelude::*;
use vstd::string::*;

use crate::domain::error::{AppError, AppErrorView};
use crate::domain::text::{ascii_lowercase, lowercase_is_stable};
use crate::domain::types::{
    monitor_views, no_border, window_views, BorderStyle, LayerSurface, MonitorInfo,
    MonitorInfoView, ScreenRect, WindowInfo, WindowInfoView,
};
use crate::platform::system::mango;
use crate::platform::system::mango::{
    focused_window, is_window, listed_monitors, listed_windows, monitor_infos, reply_value,
    window_info, window_infos, Decoded, MangoClient, MangoClientsResponse, MangoMonitorsResponse,
    CLIENTS_COMMAND, FOCUSED_COMMAND, MONITORS_COMMAND,
};

verus! {

/// The compositors that can be asked.
#[derive(Debug, Clone, Copy, PartialEq, Eq, Structural)]
pub enum CompositorKind {
    Hyprland,
    Mango,
}

/// What one of the compositors replied.
#[derive(Debug)]
pub enum Reply<H, M> {
    Hyprland(H),
    Mango(M),
}

impl<H, M> Reply<H, M> {
    /// The compositor that replied.
    pub open spec fn sender(self) -> CompositorKind {
        match self {
            Reply::Hyprland(_) => CompositorKind::Hyprland,
            Reply::Mango(_) => CompositorKind::Mango,
        }
    }
}

/// The focused window as Hyprland describes it.
#[derive(Debug, Clone, Copy, PartialEq, Eq)]
pub struct HyprlandActiveWindow {
    pub at: [i32; 2],
    pub size: [i32; 2],
}

/// What came of asking for the monitors.
pub type MonitorsReply = Reply<Result<Vec<MonitorInfo>, AppError>, Decoded<MangoMonitorsResponse>>;

/// What came of asking for the focused window.
pub type ActiveWindowReply = Reply<Result<HyprlandActiveWindow, AppError>, Decoded<MangoClient>>;

/// What came of asking for the windows: Hyprland's are those of its active
/// workspaces (see [`active_workspace_ids`]).
pub type WindowsReply = Reply<Result<Vec<WindowInfo>, AppError>, Decoded<MangoClientsResponse>>;

/// What came of asking for the layer surfaces; Mango is not asked.
pub type LayersReply = Reply<Result<Vec<LayerSurface>, AppError>, ()>;

/// What came of asking for the border style; Mango is not asked.
pub type BorderReply = Reply<BorderStyle, ()>;

/// Whether Hyprland's focused window has an area.
pub open spec fn has_area(window: HyprlandActiveWindow) -> bool {
    window.size@[0] > 0 && window.size@[1] > 0
}

/// What is known of Hyprland's focused window: its place alone.
pub open spec fn hyprland_window_info(window: HyprlandActiveWindow) -> WindowInfoView {
    WindowInfoView {
        rect: ScreenRect {
            x: window.at@[0],
            y: window.at@[1],
            w: window.size@[0],
            h: window.size@[1],
        },
        title: Seq::empty(),
        class: Seq::empty(),
        floating: false,
        focus_history_id: 0,
        address: 0,
    }
}

/// The monitors, or why there are none, that a reply gives.
pub open spec fn monitors_answer(reply: MonitorsReply) -> Result<
    Seq<MonitorInfoView>,
    AppErrorView,
> {
    match reply {
        Reply::Hyprland(Ok(list)) => Ok(monitor_views(list@)),
        Reply::Hyprland(Err(error)) => Err(error@),
        Reply::Mango(given) => listed_monitors(given),
    }
}

/// The focused window, or why there is none, that a reply gives.
pub open spec fn active_window_answer(reply: ActiveWindowReply) -> Result<
    WindowInfoView,
    AppErrorView,
> {
    match reply {
        Reply::Hyprland(Err(error)) => Err(error@),
        Reply::Hyprland(Ok(window)) => if has_area(window) {
            Ok(hyprland_window_info(window))
        } else {
            Err(
                AppErrorView::CompositorProtocol("Hyprland focused window has invalid geometry"@),
            )
        },
        Reply::Mango(given) => focused_window(given),
    }
}

/// The windows, or why there are none, that a reply gives.
pub open spec fn windows_answer(reply: WindowsReply) -> Result<Seq<WindowInfoView>, AppErrorView> {
    match reply {
        Reply::Hyprland(Ok(list)) => Ok(window_views(list@)),
        Reply::Hyprland(Err(error)) => Err(error@),
        Reply::Mango(given) => listed_windows(given),
    }
}

/// The layer surfaces, or why there are none, that a reply gives.
pub open spec fn layers_answer(reply: LayersReply) -> Result<Seq<LayerSurface>, AppErrorView> {
    match reply {
        Reply::Hyprland(Ok(list)) => Ok(list@),
        Reply::Hyprland(Err(error)) => Err(error@),
        Reply::Mango(_) => Ok(Seq::empty()),
    }
}

/// The border style that a reply gives.
pub open spec fn border_answer(reply: BorderReply) -> BorderStyle {
    match reply {
        Reply::Hyprland(style) => style,
        Reply::Mango(_) => no_border(),
    }
}

/// The interface that capture and freeze-mode code depends on.
///
/// Each method turns what the backend's own compositor replied into what the
/// caller asked for.
pub trait CompositorBackend: Copy + Send + 'static {
    /// The compositor behind this backend.
    spec fn compositor(self) -> CompositorKind;

    /// The compositor to ask.
    fn kind(self) -> (kind: CompositorKind)
        ensures
            kind == self.compositor(),
    ;

    /// The monitors.
    fn monitors(self, reply: MonitorsReply) -> (monitors: Result<Vec<MonitorInfo>, AppError>)
        requires
            reply.sender() == self.compositor(),
        ensures
            match reply {
                Reply::Hyprland(given) => monitors == given,
                Reply::Mango(given) => match (reply_value(MONITORS_COMMAND@, given), monitors) {
                    (Ok(response), Ok(list)) => monitor_views(list@) == monitor_infos(
                        response.monitors@,
                    ),
                    (Err(expected), Err(error)) => error@ == expected,
                    _ => false,
                },
            },
            monitors_answer(reply) == match monitors {
                Ok(list) => Ok(monitor_views(list@)),
                Err(error) => Err(error@),
            },
    ;

    /// The focused window.
    fn active_window(self, reply: ActiveWindowReply) -> (window: Result<WindowInfo, AppError>)
        requires
            reply.sender() == self.compositor(),
        ensures
            match reply {
                Reply::Hyprland(Err(given)) => window matches Err(error) && error@ == given@,
                Reply::Hyprland(Ok(active)) => match window {
                    Ok(found) => has_area(active) && found@ == hyprland_window_info(active),
                    Err(error) => !has_area(active) && error@ == AppErrorView::CompositorProtocol(
                        "Hyprland focused window has invalid geometry"@,
                    ),
                },
                Reply::Mango(given) => match (reply_value(FOCUSED_COMMAND@, given), window) {
                    (Ok(client), Ok(found)) => is_window(client, false) && found@ == window_info(
                        client,
                        0,
                    ),
                    (Ok(client), Err(error)) => !is_window(client, false) && error@
                        == AppErrorView::CompositorProtocol(
                        "focused Mango client has invalid geometry"@,
                    ),
                    (Err(expected), Err(error)) => error@ == expected,
                    _ => false,
                },
            },
            active_window_answer(reply) == match window {
                Ok(found) => Ok(found@),
                Err(error) => Err(error@),
            },
    ;

    /// The windows.
    fn windows(self, reply: WindowsReply) -> (windows: Result<Vec<WindowInfo>, AppError>)
        requires
            reply.sender() == self.compositor(),
        ensures
            match reply {
                Reply::Hyprland(given) => windows == given,
                Reply::Mango(given) => match (reply_value(CLIENTS_COMMAND@, given), windows) {
                    (Ok(response), Ok(list)) => window_views(list@) == window_infos(
                        response.clients@,
                    ),
                    (Err(expected), Err(error)) => error@ == expected,
                    _ => false,
                },
            },
            windows_answer(reply) == match windows {
                Ok(list) => Ok(window_views(list@)),
                Err(error) => Err(error@),
            },
    ;

    /// The layer surfaces above the windows.
    fn overlay_layers(self, reply: LayersReply) -> (layers: Result<Vec<LayerSurface>, AppError>)
        requires
            reply.sender() == self.compositor(),
        ensures
            match reply {
                Reply::Hyprland(given) => layers == given,
                Reply::Mango(_) => layers matches Ok(list) && list@ == Seq::<
                    LayerSurface,
                >::empty(),
            },
            layers_answer(reply) == match layers {
                Ok(list) => Ok(list@),
                Err(error) => Err(error@),
            },
    ;

    /// How window borders are drawn.
    fn border_style(self, reply: BorderReply) -> (style: BorderStyle)
        requires
            reply.sender() == self.compositor(),
        ensures
            match reply {
                Reply::Hyprland(given) => style == given,
                Reply::Mango(_) => style == no_border(),
            },
            style == border_answer(reply),
    ;
}

/// The supported backends.
#[derive(Debug, Clone, Copy, PartialEq, Eq, Structural)]
pub enum Backend {
    Hyprland,
    Mango,
}

impl CompositorBackend for Backend {
    open spec fn compositor(self) -> CompositorKind {
        match self {
            Backend::Hyprland => CompositorKind::Hyprland,
            Backend::Mango => CompositorKind::Mango,
        }
    }

    fn kind(self) -> (kind: CompositorKind) {
        match self {
            Backend::Hyprland => CompositorKind::Hyprland,
            Backend::Mango => CompositorKind::Mango,
        }
    }

    fn monitors(self, reply: MonitorsReply) -> (monitors: Result<Vec<MonitorInfo>, AppError>) {
        match reply {
            Reply::Hyprland(given) => given,
            Reply::Mango(given) => mango::get_monitors(given),
        }
    }

    fn active_window(self, reply: ActiveWindowReply) -> (window: Result<WindowInfo, AppError>) {
        match reply {
            Reply::Hyprland(Err(error)) => Err(error),
            Reply::Hyprland(Ok(active)) => {
                if active.size[0] <= 0 || active.size[1] <= 0 {
                    return Err(
                        AppError::CompositorProtocol(
                            "Hyprland focused window has invalid geometry".to_owned(),
                        ),
                    );
                }
                Ok(
                    WindowInfo {
                        rect: ScreenRect {
                            x: active.at[0],
                            y: active.at[1],
                            w: active.size[0],
                            h: active.size[1],
                        },
                        title: String::new(),
                        class: String::new(),
                        floating: false,
                        focus_history_id: 0,
                        address: 0,
                    },
                )
            },
            Reply::Mango(given) => mango::get_active_window(given),
        }
    }

    fn windows(self, reply: WindowsReply) -> (windows: Result<Vec<WindowInfo>, AppError>) {
        match reply {
            Reply::Hyprland(given) => given,
            Reply::Mango(given) => mango::get_clients(given),
        }
    }

    fn overlay_layers(self, reply: LayersReply) -> (layers: Result<Vec<LayerSurface>, AppError>) {
        match reply {
            Reply::Hyprland(given) => given,
            Reply::Mango(_) => mango::get_overlay_layers(),
        }
    }

    fn border_style(self, reply: BorderReply) -> (style: BorderStyle) {
        match reply {
            Reply::Hyprland(given) => given,
            Reply::Mango(_) => mango::get_border_style(),
        }
    }
}

/// The workspaces that a list of monitors shows, one for each monitor.
pub open spec fn shown_workspaces(monitors: Seq<MonitorInfo>) -> Seq<i64> {
    monitors.map_values(|monitor: MonitorInfo| monitor.active_workspace_id)
}

/// The workspaces that are shown, or why they are not known, out of what came of
/// asking for the monitors.
pub open spec fn workspaces_answer(monitors: Result<Vec<MonitorInfo>, AppError>) -> Result<
    Seq<i64>,
    AppErrorView,
> {
    match monitors {
        Ok(list) => Ok(shown_workspaces(list@)),
        Err(error) => Err(error@),
    }
}

/// The workspaces whose windows Hyprland is asked for, out of its monitors.
pub fn active_workspace_ids(monitors: Result<Vec<MonitorInfo>, AppError>) -> (ids: Result<
    Vec<i64>,
    AppError,
>)
    ensures
        match (monitors, ids) {
            (Ok(list), Ok(ids)) => ids@ == shown_workspaces(list@),
            (Err(given), Err(error)) => error@ == given@,
            _ => false,
        },
        workspaces_answer(monitors) == match ids {
            Ok(ids) => Ok(ids@),
            Err(error) => Err(error@),
        },
{
    let list = match monitors {
        Ok(list) => list,
        Err(error) => {
            return Err(error);
        },
    };
    let mut ids: Vec<i64> = Vec::new();
    let mut i: usize = 0;
    while i < list.len()
        invariant
            i <= list@.len(),
            ids@ == shown_workspaces(list@.take(i as int)),
        decreases list@.len() - i,
    {
        ids.push(list[i].active_workspace_id);
        i = i + 1;
        assert(ids@ =~= shown_workspaces(list@.take(i as int)));
    }
    assert(list@.take(i as int) =~= list@);
    Ok(ids)
}

// ── detection ──────────────────────────────────────────────────────────────

/// The environment variable that names the compositor to use.
pub const REQUEST_VAR: &'static str = "HYPRCROP_COMPOSITOR";

/// The backend that a request, in lower case, names.
pub open spec fn named_backend(request: Seq<char>) -> Option<Backend> {
    if request == "hyprland"@ || request == "hypr"@ {
        Some(Backend::Hyprland)
    } else if request == "mango"@ || request == "mangowm"@ {
        Some(Backend::Mango)
    } else {
        None
    }
}

/// The compositor that is being probed, and why.
#[derive(Debug, Clone, PartialEq, Eq)]
pub enum Probe {
    /// The request, in lower case, names this backend.
    Requested(Backend, String),
    /// Nothing was requested; Hyprland is tried first.
    FirstHyprland,
    /// Nothing was requested and Hyprland cannot be reached.
    ThenMango,
}

/// A [`Probe`] with its request as characters.
pub enum ProbeView {
    Requested(Backend, Seq<char>),
    FirstHyprland,
    ThenMango,
}

impl View for Probe {
    type V = ProbeView;

    open spec fn view(&self) -> ProbeView {
        match *self {
            Probe::Requested(backend, request) => ProbeView::Requested(backend, request@),
            Probe::FirstHyprland => ProbeView::FirstHyprland,
            Probe::ThenMango => ProbeView::ThenMango,
        }
    }
}

/// Where detection stands.
#[derive(Debug)]
pub enum Detection {
    /// Find out whether the probe's backend can be reached.
    Probing(Probe),
    /// The backend to use, or why there is none.
    Detected(Result<Backend, AppError>),
}

/// A [`Detection`] with its texts as characters.
pub enum DetectionView {
    Probing(ProbeView),
    Detected(Result<Backend, AppErrorView>),
}

impl View for Detection {
    type V = DetectionView;

    open spec fn view(&self) -> DetectionView {
        match *self {
            Detection::Probing(probe) => DetectionView::Probing(probe@),
            Detection::Detected(Ok(backend)) => DetectionView::Detected(Ok(backend)),
            Detection::Detected(Err(error)) => DetectionView::Detected(Err(error@)),
        }
    }
}

/// The backend that a probe is about.
pub open spec fn probed_backend(probe: ProbeView) -> Backend {
    match probe {
        ProbeView::Requested(backend, _) => backend,
        ProbeView::FirstHyprland => Backend::Hyprland,
        ProbeView::ThenMango => Backend::Mango,
    }
}

/// The error of a request that names no backend.
pub open spec fn unknown_request(request: Seq<char>) -> AppErrorView {
    AppErrorView::UnsupportedCompositor(
        "unknown HYPRCROP_COMPOSITOR value '"@ + request + "' (use hyprland or mango)"@,
    )
}

/// The error of a request whose compositor cannot be reached.
pub open spec fn unreachable_request(request: Seq<char>) -> AppErrorView {
    AppErrorView::UnsupportedCompositor(
        "requested compositor '"@ + request + "' is not reachable"@,
    )
}

/// The error of finding no compositor.
pub open spec fn nothing_detected() -> AppErrorView {
    AppErrorView::UnsupportedCompositor(
        "no supported compositor detected (expected Hyprland or MangoWM)"@,
    )
}

/// How detection begins.
pub open spec fn first_probe(requested: Option<Seq<char>>) -> DetectionView {
    match requested {
        Some(text) => {
            let request = ascii_lowercase(text);
            match named_backend(request) {
                Some(backend) => DetectionView::Probing(ProbeView::Requested(backend, request)),
                None => DetectionView::Detected(Err(unknown_request(request))),
            }
        },
        None => DetectionView::Probing(ProbeView::FirstHyprland),
    }
}

/// How detection goes on once a probe's backend could, or could not, be reached.
pub open spec fn after_probe(probe: ProbeView, reachable: bool) -> DetectionView {
    if reachable {
        DetectionView::Detected(Ok(probed_backend(probe)))
    } else {
        match probe {
            ProbeView::Requested(_, request) => DetectionView::Detected(
                Err(unreachable_request(request)),
            ),
            ProbeView::FirstHyprland => DetectionView::Probing(ProbeView::ThenMango),
            ProbeView::ThenMango => DetectionView::Detected(Err(nothing_detected())),
        }
    }
}

/// A text in the form that an optional request has in contracts.
pub open spec fn request_view(requested: Option<String>) -> Option<Seq<char>> {
    match requested {
        Some(text) => Some(text@),
        None => None,
    }
}

/// The backend that a request, in lower case, names.
fn backend_named(request: &String) -> (backend: Option<Backend>)
    ensures
        backend == named_backend(request@),
{
    if *request == "hyprland".to_owned() || *request == "hypr".to_owned() {
        Some(Backend::Hyprland)
    } else if *request == "mango".to_owned() || *request == "mangowm".to_owned() {
        Some(Backend::Mango)
    } else {
        None
    }
}

/// Begin to select the compositor for the current session.
///
/// `requested` is the value of [`REQUEST_VAR`], which is useful for nested sessions
/// and debugging. Automatic detection requires a reachable socket, avoiding stale
/// environment variables.
pub fn detect(requested: Option<String>) -> (detection: Detection)
    ensures
        detection@ == first_probe(request_view(requested)),
{
    match requested {
        Some(text) => {
            let request = text.as_str().to_ascii_lowercase();
            match backend_named(&request) {
                Some(backend) => Detection::Probing(Probe::Requested(backend, request)),
                None => {
                    let mut message = "unknown HYPRCROP_COMPOSITOR value '".to_owned();
                    message.append(request.as_str());
                    message.append("' (use hyprland or mango)");
                    Detection::Detected(Err(AppError::UnsupportedCompositor(message)))
                },
            }
        },
        None => Detection::Probing(Probe::FirstHyprland),
    }
}

impl Probe {
    /// The backend to probe.
    pub fn backend(&self) -> (backend: Backend)
        ensures
            backend == probed_backend(self@),
    {
        match self {
            Probe::Requested(backend, _) => *backend,
            Probe::FirstHyprland => Backend::Hyprland,
            Probe::ThenMango => Backend::Mango,
        }
    }
}

/// Go on selecting, knowing whether the probe's backend could be reached.
pub fn detect_step(probe: Probe, reachable: bool) -> (detection: Detection)
    ensures
        detection@ == after_probe(probe@, reachable),
{
    if reachable {
        return Detection::Detected(Ok(probe.backend()));
    }
    match probe {
        Probe::Requested(_, request) => {
            let mut message = "requested compositor '".to_owned();
            message.append(request.as_str());
            message.append("' is not reachable");
            Detection::Detected(Err(AppError::UnsupportedCompositor(message)))
        },
        Probe::FirstHyprland => Detection::Probing(Probe::ThenMango),
        Probe::ThenMango => Detection::Detected(
            Err(
                AppError::UnsupportedCompositor(
                    "no supported compositor detected (expected Hyprland or MangoWM)".to_owned(),
                ),
            ),
        ),
    }
}

/// Whether a probe found its compositor.
pub open spec fn probe_answer(reply: Reply<bool, bool>) -> bool {
    match reply {
        Reply::Hyprland(reachable) => reachable,
        Reply::Mango(reachable) => reachable,
    }
}

/// Whether a backend is available, out of what its own compositor's probe found.
pub fn is_available(backend: Backend, reply: Reply<bool, bool>) -> (available: bool)
    requires
        reply.sender() == backend.compositor(),
    ensures
        available == probe_answer(reply),
        available == match reply {
            Reply::Hyprland(reachable) => reachable,
            Reply::Mango(reachable) => reachable,
        },
{
    match reply {
        Reply::Hyprland(reachable) => reachable,
        Reply::Mango(reachable) => reachable,
    }
}

// ── laws ───────────────────────────────────────────────────────────────────

/// Two backends are the same exactly when their kinds are.
pub proof fn backend_kinds_are_distinct(a: Backend, b: Backend)
    ensures
        a.compositor() == b.compositor() <==> a == b,
{
}

/// Which of the compositors can be reached.
pub struct Reachable {
    pub hyprland: bool,
    pub mango: bool,
}

/// Whether a backend's compositor can be reached.
pub open spec fn reaches(reachable: Reachable, backend: Backend) -> bool {
    match backend {
        Backend::Hyprland => reachable.hyprland,
        Backend::Mango => reachable.mango,
    }
}

/// What detection comes to from `detection` on, when every probe finds what is
/// `reachable` and at most `probes` are made.
pub open spec fn detect_run(detection: DetectionView, reachable: Reachable, probes: nat) -> Option<
    Result<Backend, AppErrorView>,
>
    decreases probes,
{
    match detection {
        DetectionView::Detected(result) => Some(result),
        DetectionView::Probing(probe) => if probes == 0 {
            None
        } else {
            detect_run(
                after_probe(probe, reaches(reachable, probed_backend(probe))),
                reachable,
                (probes - 1) as nat,
            )
        },
    }
}

/// The backend for the session: the requested one where it can be reached, and
/// without a request the first that can, Hyprland before Mango.
pub open spec fn selected(requested: Option<Seq<char>>, reachable: Reachable) -> Result<
    Backend,
    AppErrorView,
> {
    match requested {
        Some(text) => match named_backend(ascii_lowercase(text)) {
            Some(backend) => if reaches(reachable, backend) {
                Ok(backend)
            } else {
                Err(unreachable_request(ascii_lowercase(text)))
            },
            None => Err(unknown_request(ascii_lowercase(text))),
        },
        None => if reachable.hyprland {
            Ok(Backend::Hyprland)
        } else if reachable.mango {
            Ok(Backend::Mango)
        } else {
            Err(nothing_detected())
        },
    }
}

/// Detection selects the backend for the session with at most two probes.
pub proof fn detection_selects(requested: Option<Seq<char>>, reachable: Reachable)
    ensures
        detect_run(first_probe(requested), reachable, 2) == Some(selected(requested, reachable)),
{
    reveal_with_fuel(detect_run, 3);
}

/// A backend is selected only if it can be reached, and a request is never
/// answered with another backend than the one it names.
pub proof fn selected_is_reachable_and_as_requested(
    requested: Option<Seq<char>>,
    reachable: Reachable,
)
    ensures
        selected(requested, reachable) matches Ok(backend) ==> reaches(reachable, backend),
        requested matches Some(text) ==> (selected(requested, reachable) matches Ok(backend)
            ==> named_backend(ascii_lowercase(text)) == Some(backend)),
{
}

/// Without a request, detection fails only if neither compositor can be reached,
/// and Hyprland is preferred.
pub proof fn something_reachable_is_selected(reachable: Reachable)
    ensures
        selected(None, reachable) is Ok <==> reachable.hyprland || reachable.mango,
        reachable.hyprland ==> selected(None, reachable) == Ok::<Backend, AppErrorView>(
            Backend::Hyprland,
        ),
{
}

/// A request means the same as its lower case, and so as every text that differs
/// from it in case alone.
pub proof fn requests_ignore_case(text: Seq<char>, other: Seq<char>, reachable: Reachable)
    ensures
        first_probe(Some(ascii_lowercase(text))) == first_probe(Some(text)),
        selected(Some(ascii_lowercase(text)), reachable) == selected(Some(text), reachable),
        ascii_lowercase(other) == ascii_lowercase(text) ==> first_probe(Some(other)) == first_probe(
            Some(text),
        ) && selected(Some(other), reachable) == selected(Some(text), reachable),
{
    lowercase_is_stable(text);
}

/// Each backend asks its own compositor, and a reply's sender is the one that it
/// came from.
pub proof fn backends_ask_their_own_compositor<H, M>(from_hyprland: H, from_mango: M)
    ensures
        Backend::Hyprland.compositor() == CompositorKind::Hyprland,
        Backend::Mango.compositor() == CompositorKind::Mango,
        Reply::<H, M>::Hyprland(from_hyprland).sender() == CompositorKind::Hyprland,
        Reply::<H, M>::Mango(from_mango).sender() == CompositorKind::Mango,
{
}

/// The monitors of Hyprland come through with every field and in their places, and
/// those of Mango as its reply lists them; an error comes through as it is.
pub proof fn monitors_come_through(
    list: Vec<MonitorInfo>,
    i: int,
    error: AppError,
    reply: Decoded<MangoMonitorsResponse>,
)
    ensures
        monitors_answer(Reply::Hyprland(Ok(list))) matches Ok(monitors) && monitors.len()
            == list@.len() && (0 <= i < list@.len() ==> {
            &&& monitors[i].rect == list@[i].rect
            &&& monitors[i].name == list@[i].name@
            &&& monitors[i].focused == list@[i].focused
            &&& monitors[i].active_workspace_id == list@[i].active_workspace_id
        }),
        monitors_answer(Reply::Hyprland(Err(error))) == Err::<Seq<MonitorInfoView>, AppErrorView>(
            error@,
        ),
        monitors_answer(Reply::Mango(reply)) == listed_monitors(reply),
{
}

/// The windows of Hyprland come through with every field and in their places, and
/// those of Mango as its reply lists them; an error comes through as it is.
pub proof fn windows_come_through(
    list: Vec<WindowInfo>,
    i: int,
    error: AppError,
    reply: Decoded<MangoClientsResponse>,
)
    ensures
        windows_answer(Reply::Hyprland(Ok(list))) matches Ok(windows) && windows.len()
            == list@.len() && (0 <= i < list@.len() ==> {
            &&& windows[i].rect == list@[i].rect
            &&& windows[i].title == list@[i].title@
            &&& windows[i].class == list@[i].class@
            &&& windows[i].floating == list@[i].floating
            &&& windows[i].focus_history_id == list@[i].focus_history_id
            &&& windows[i].address == list@[i].address
        }),
        windows_answer(Reply::Hyprland(Err(error))) == Err::<Seq<WindowInfoView>, AppErrorView>(
            error@,
        ),
        windows_answer(Reply::Mango(reply)) == listed_windows(reply),
{
}

/// Hyprland's focused window is known by its place alone, and only if it has an
/// area; Mango's is that of its reply, and an error comes through as it is.
pub proof fn the_focused_window_comes_through(
    window: HyprlandActiveWindow,
    error: AppError,
    reply: Decoded<MangoClient>,
)
    ensures
        window.size@[0] > 0 && window.size@[1] > 0 ==> (active_window_answer(
            Reply::Hyprland(Ok(window)),
        ) matches Ok(found) && {
            &&& found.rect.x == window.at@[0]
            &&& found.rect.y == window.at@[1]
            &&& found.rect.w == window.size@[0]
            &&& found.rect.h == window.size@[1]
            &&& found.title.len() == 0
            &&& found.class.len() == 0
            &&& !found.floating
            &&& found.focus_history_id == 0
            &&& found.address == 0
        }),
        window.size@[0] <= 0 || window.size@[1] <= 0 ==> active_window_answer(
            Reply::Hyprland(Ok(window)),
        ) == Err::<WindowInfoView, AppErrorView>(
            AppErrorView::CompositorProtocol("Hyprland focused window has invalid geometry"@),
        ),
        active_window_answer(Reply::Hyprland(Err(error))) == Err::<WindowInfoView, AppErrorView>(
            error@,
        ),
        active_window_answer(Reply::Mango(reply)) == focused_window(reply),
{
}

/// Hyprland's layers and borders come through as they are; with Mango there are no
/// layers, and borders take no space.
pub proof fn layers_and_borders_come_through(
    list: Vec<LayerSurface>,
    error: AppError,
    style: BorderStyle,
)
    ensures
        layers_answer(Reply::Hyprland(Ok(list))) == Ok::<Seq<LayerSurface>, AppErrorView>(list@),
        layers_answer(Reply::Hyprland(Err(error))) == Err::<Seq<LayerSurface>, AppErrorView>(
            error@,
        ),
        layers_answer(Reply::Mango(())) matches Ok(layers) && layers.len() == 0,
        border_answer(Reply::Hyprland(style)) == style,
        border_answer(Reply::Mango(())).border_size == 0,
        border_answer(Reply::Mango(())).rounding == 0,
{
}

/// The windows are asked for on the workspace of each monitor, in the order of the
/// monitors; an error comes through as it is.
pub proof fn every_monitor_shows_its_workspace(list: Vec<MonitorInfo>, i: int, error: AppError)
    ensures
        workspaces_answer(Ok(list)) matches Ok(ids) && ids.len() == list@.len() && (0 <= i
            < list@.len() ==> ids[i] == list@[i].active_workspace_id),
        workspaces_answer(Err(error)) == Err::<Seq<i64>, AppErrorView>(error@),
{
}

/// The two names of each compositor, in lower case, name its backend, and no other
/// text names one.
pub proof fn names_of_the_compositors(request: Seq<char>)
    ensures
        named_backend("hyprland"@) == Some(Backend::Hyprland),
        named_backend("hypr"@) == Some(Backend::Hyprland),
        named_backend("mango"@) == Some(Backend::Mango),
        named_backend("mangowm"@) == Some(Backend::Mango),
        named_backend(request) is Some ==> request == "hyprland"@ || request == "hypr"@ || request
            == "mango"@ || request == "mangowm"@,
{
    reveal_strlit("hyprland");
    reveal_strlit("hypr");
    reveal_strlit("mango");
    reveal_strlit("mangowm");
    assert("mango"@[0] == 'm');
    assert("mangowm"@[0] == 'm');
    assert("hyprland"@[0] == 'h');
    assert("hypr"@[0] == 'h');
}

/// A request begins with a probe of the backend that its lower case names, or is
/// refused with its lower case; without a request Hyprland is probed.
pub proof fn requests_are_probed_or_refused(text: Seq<char>)
    ensures
        match named_backend(ascii_lowercase(text)) {
            Some(backend) => first_probe(Some(text)) == DetectionView::Probing(
                ProbeView::Requested(backend, ascii_lowercase(text)),
            ),
            None => first_probe(Some(text)) == DetectionView::Detected(
                Err(
                    AppErrorView::UnsupportedCompositor(
                        "unknown HYPRCROP_COMPOSITOR value '"@ + ascii_lowercase(text)
                            + "' (use hyprland or mango)"@,
                    ),
                ),
            ),
        },
        first_probe(None) == DetectionView::Probing(ProbeView::FirstHyprland),
{
}

/// A probe that reaches its backend ends detection with it. One that does not ends a
/// request with its own words, sends automatic detection from Hyprland on to Mango,
/// and after Mango ends it.
pub proof fn probes_decide(backend: Backend, request: Seq<char>)
    ensures
        after_probe(ProbeView::Requested(backend, request), true) == DetectionView::Detected(
            Ok(backend),
        ),
        after_probe(ProbeView::FirstHyprland, true) == DetectionView::Detected(
            Ok(Backend::Hyprland),
        ),
        after_probe(ProbeView::ThenMango, true) == DetectionView::Detected(Ok(Backend::Mango)),
        after_probe(ProbeView::Requested(backend, request), false) == DetectionView::Detected(
            Err(
                AppErrorView::UnsupportedCompositor(
                    "requested compositor '"@ + request + "' is not reachable"@,
                ),
            ),
        ),
        after_probe(ProbeView::FirstHyprland, false) == DetectionView::Probing(
            ProbeView::ThenMango,
        ),
        after_probe(ProbeView::ThenMango, false) == DetectionView::Detected(
            Err(
                AppErrorView::UnsupportedCompositor(
                    "no supported compositor detected (expected Hyprland or MangoWM)"@,
                ),
            ),
        ),
{
}

/// A probe is of the backend that it is about, and a backend is available exactly if
/// its compositor's probe found it.
pub proof fn probes_are_of_their_backend(backend: Backend, request: Seq<char>, found: bool)
    ensures
        probed_backend(ProbeView::Requested(backend, request)) == backend,
        probed_backend(ProbeView::FirstHyprland) == Backend::Hyprland,
        probed_backend(ProbeView::ThenMango) == Backend::Mango,
        probe_answer(Reply::Hyprland(found)) == found,
        probe_answer(Reply::Mango(found)) == found,
        REQUEST_VAR@ == "HYPRCROP_COMPOSITOR"@,
{
}

/// The views of requests, of probes and of where detection stands keep everything.
pub proof fn detection_views_keep_everything(
    request: Option<String>,
    probe: Probe,
    detection: Detection,
)
    ensures
        match request {
            Some(text) => request_view(request) == Some(text@),
            None => request_view(request) is None,
        },
        match probe {
            Probe::Requested(backend, text) => probe@ == ProbeView::Requested(backend, text@),
            Probe::FirstHyprland => probe@ == ProbeView::FirstHyprland,
            Probe::ThenMango => probe@ == ProbeView::ThenMango,
        },
        match detection {
            Detection::Probing(probe) => detection@ == DetectionView::Probing(probe@),
            Detection::Detected(Ok(backend)) => detection@ == DetectionView::Detected(Ok(backend)),
            Detection::Detected(Err(error)) => detection@ == DetectionView::Detected(Err(error@)),
        },
{
}

} // verus!
