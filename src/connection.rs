//! The device connection manager: finds a controller, keeps the connection
//! alive, detects its loss and reconnects. It is a state machine from state
//! and event to next state and actions; the caller performs the actions
//! (listing ports, waiting, opening, closing, notifying) and feeds back what
//! happened as the next event.
use vstd::prelude::*;

verus! {

/// How long to wait before listing the ports again after finding none or
/// failing to open one.
pub const RETRY_BACKOFF_MS: u64 = 5000;

/// How often the monitor checks that the bound port is still present.
pub const MONITOR_INTERVAL_MS: u64 = 1000;

/// The title of the manager's notifications.
pub const NOTIFY_TITLE: &'static str = "MyMIDI";

/// Where the manager stands.
#[derive(Debug)]
pub enum Phase {
    /// Not started.
    Disconnected,
    /// Looking for a port: a listing, or the wait before one, is pending.
    Connecting,
    /// A port was chosen and is being opened under the given handle.
    Opening { port: String, handle: u64 },
    /// Bound to a port through the given handle; the monitor is running.
    Connected { port: String, handle: u64 },
    /// The transport could not start: nothing more happens.
    Stopped,
}

/// What happened, as the caller reports it.
#[derive(Debug)]
pub enum DeviceEvent {
    /// The manager was started.
    Start,
    /// The ports were listed, in the transport's stable order.
    Ports(Vec<String>),
    /// Listing the ports failed this time.
    ListFailed,
    /// The transport itself could not be initialised.
    TransportFailed,
    /// The port asked for was opened.
    Opened,
    /// The port asked for could not be opened.
    OpenFailed,
    /// A wait asked for is over.
    TimerFired,
}

/// What the caller is asked to do.
#[derive(Debug)]
pub enum DeviceAction {
    /// List the available ports and report them.
    ListPorts,
    /// Wait, then report `TimerFired`.
    Wait { millis: u64 },
    /// Open the port at `index` of the last listing, binding the router's
    /// entry point to it under `handle`; report `Opened` or `OpenFailed`.
    Open { index: usize, handle: u64 },
    /// Close the connection with this handle; no callback may be delivered
    /// through it afterwards.
    Close { handle: u64 },
    /// Show a notification.
    Notify { title: String, body: String },
    /// Give up: the transport cannot be used.
    Stop,
}

/// The abstract form of `Phase`.
pub enum PhaseView {
    Disconnected,
    Connecting,
    Opening { port: Seq<char>, handle: u64 },
    Connected { port: Seq<char>, handle: u64 },
    Stopped,
}

/// The abstract form of `DeviceEvent`.
pub enum DeviceEventView {
    Start,
    Ports(Seq<Seq<char>>),
    ListFailed,
    TransportFailed,
    Opened,
    OpenFailed,
    TimerFired,
}

/// The abstract form of `DeviceAction`.
pub enum DeviceActionView {
    ListPorts,
    Wait { millis: u64 },
    Open { index: usize, handle: u64 },
    Close { handle: u64 },
    Notify { title: Seq<char>, body: Seq<char> },
    Stop,
}

/// The manager's abstract state: its phase and the next unused handle.
pub struct ManagerView {
    pub phase: PhaseView,
    pub next_handle: u64,
}

/// The port names of a listing.
pub open spec fn names_view(names: Seq<String>) -> Seq<Seq<char>> {
    names.map_values(|s: String| s@)
}

impl View for Phase {
    type V = PhaseView;

    open spec fn view(&self) -> PhaseView {
        match self {
            Phase::Disconnected => PhaseView::Disconnected,
            Phase::Connecting => PhaseView::Connecting,
            Phase::Opening { port, handle } => PhaseView::Opening { port: port@, handle: *handle },
            Phase::Connected { port, handle } => PhaseView::Connected {
                port: port@,
                handle: *handle,
            },
            Phase::Stopped => PhaseView::Stopped,
        }
    }
}

impl View for DeviceEvent {
    type V = DeviceEventView;

    open spec fn view(&self) -> DeviceEventView {
        match self {
            DeviceEvent::Start => DeviceEventView::Start,
            DeviceEvent::Ports(names) => DeviceEventView::Ports(names_view(names@)),
            DeviceEvent::ListFailed => DeviceEventView::ListFailed,
            DeviceEvent::TransportFailed => DeviceEventView::TransportFailed,
            DeviceEvent::Opened => DeviceEventView::Opened,
            DeviceEvent::OpenFailed => DeviceEventView::OpenFailed,
            DeviceEvent::TimerFired => DeviceEventView::TimerFired,
        }
    }
}

impl View for DeviceAction {
    type V = DeviceActionView;

    open spec fn view(&self) -> DeviceActionView {
        match self {
            DeviceAction::ListPorts => DeviceActionView::ListPorts,
            DeviceAction::Wait { millis } => DeviceActionView::Wait { millis: *millis },
            DeviceAction::Open { index, handle } => DeviceActionView::Open {
                index: *index,
                handle: *handle,
            },
            DeviceAction::Close { handle } => DeviceActionView::Close { handle: *handle },
            DeviceAction::Notify { title, body } => DeviceActionView::Notify {
                title: title@,
                body: body@,
            },
            DeviceAction::Stop => DeviceActionView::Stop,
        }
    }
}

/// The abstract form of a list of actions.
pub open spec fn actions_view(actions: Seq<DeviceAction>) -> Seq<DeviceActionView> {
    actions.map_values(|a: DeviceAction| a@)
}

/// The handle through which callbacks are delivered in phase `p`, if any.
pub open spec fn live_handle(p: PhaseView) -> Option<u64> {
    match p {
        PhaseView::Opening { handle, .. } => Some(handle),
        PhaseView::Connected { handle, .. } => Some(handle),
        _ => None,
    }
}

/// Handles are handed out in increasing order: the live one, if any, is
/// below the next unused one.
pub open spec fn manager_wf(m: ManagerView) -> bool {
    match live_handle(m.phase) {
        Some(h) => h < m.next_handle,
        None => true,
    }
}

/// Handle `h` was handed out before and is not live.
pub open spec fn retired(m: ManagerView, h: u64) -> bool {
    h < m.next_handle && live_handle(m.phase) != Some(h)
}

/// The text announcing the bound port.
pub open spec fn listening_body(port: Seq<char>) -> Seq<char> {
    "Listening on "@ + port
}

/// The text announcing the loss of the port.
pub open spec fn disconnected_body() -> Seq<char> {
    "MIDI disconnected. Standing by."@
}

/// A transition that keeps the state and asks for nothing.
pub open spec fn unchanged(m: ManagerView) -> (ManagerView, Seq<DeviceActionView>) {
    (m, seq![])
}

/// The manager's transition: the next state and the actions to perform.
pub open spec fn step_spec(m: ManagerView, e: DeviceEventView) -> (ManagerView, Seq<DeviceActionView>) {
    let retry = seq![DeviceActionView::Wait { millis: RETRY_BACKOFF_MS }];
    let monitor = seq![DeviceActionView::Wait { millis: MONITOR_INTERVAL_MS }];
    match m.phase {
        PhaseView::Stopped => unchanged(m),
        _ => if e is TransportFailed {
            let stopped = ManagerView { phase: PhaseView::Stopped, ..m };
            match live_handle(m.phase) {
                Some(h) => (stopped, seq![DeviceActionView::Close { handle: h }, DeviceActionView::Stop]),
                None => (stopped, seq![DeviceActionView::Stop]),
            }
        } else {
            match m.phase {
                PhaseView::Disconnected => if e is Start {
                    (
                        ManagerView { phase: PhaseView::Connecting, ..m },
                        seq![DeviceActionView::ListPorts],
                    )
                } else {
                    unchanged(m)
                },
                PhaseView::Connecting => match e {
                    DeviceEventView::Ports(names) => if names.len() == 0 {
                        (m, retry)
                    } else if m.next_handle == u64::MAX {
                        (ManagerView { phase: PhaseView::Stopped, ..m }, seq![DeviceActionView::Stop])
                    } else {
                        (
                            ManagerView {
                                phase: PhaseView::Opening { port: names[0], handle: m.next_handle },
                                next_handle: (m.next_handle + 1) as u64,
                            },
                            seq![DeviceActionView::Open { index: 0, handle: m.next_handle }],
                        )
                    },
                    DeviceEventView::ListFailed => (m, retry),
                    DeviceEventView::TimerFired => (m, seq![DeviceActionView::ListPorts]),
                    _ => unchanged(m),
                },
                PhaseView::Opening { port, handle } => match e {
                    DeviceEventView::Opened => (
                        ManagerView { phase: PhaseView::Connected { port, handle }, ..m },
                        seq![
                            DeviceActionView::Notify {
                                title: NOTIFY_TITLE@,
                                body: listening_body(port),
                            },
                            DeviceActionView::Wait { millis: MONITOR_INTERVAL_MS },
                        ],
                    ),
                    DeviceEventView::OpenFailed => (
                        ManagerView { phase: PhaseView::Connecting, ..m },
                        retry,
                    ),
                    _ => unchanged(m),
                },
                PhaseView::Connected { port, handle } => match e {
                    DeviceEventView::TimerFired => (m, seq![DeviceActionView::ListPorts]),
                    DeviceEventView::Ports(names) => if names.contains(port) {
                        (m, monitor)
                    } else {
                        (
                            ManagerView { phase: PhaseView::Connecting, ..m },
                            seq![
                                DeviceActionView::Notify {
                                    title: NOTIFY_TITLE@,
                                    body: disconnected_body(),
                                },
                                DeviceActionView::Close { handle },
                                DeviceActionView::ListPorts,
                            ],
                        )
                    },
                    DeviceEventView::ListFailed => (m, monitor),
                    _ => unchanged(m),
                },
                _ => unchanged(m),
            }
        },
    }
}

/// The manager. Its fields are private: only `step` moves it.
pub struct DeviceManager {
    phase: Phase,
    next_handle: u64,
}

impl View for DeviceManager {
    type V = ManagerView;

    closed spec fn view(&self) -> ManagerView {
        ManagerView { phase: self.phase@, next_handle: self.next_handle }
    }
}

/// Whether `port` is among `names`.
fn contains_name(names: &Vec<String>, port: &String) -> (r: bool)
    ensures
        r == names_view(names@).contains(port@),
{
    let mut i: usize = 0;
    while i < names.len()
        invariant
            0 <= i <= names@.len(),
            forall|j: int| 0 <= j < i ==> #[trigger] names@[j]@ != port@,
        decreases names@.len() - i,
    {
        if names[i] == *port {
            proof {
                assert(names_view(names@)[i as int] == port@);
            }
            return true;
        }
        i = i + 1;
    }
    proof {
        assert forall|j: int| 0 <= j < names_view(names@).len() implies names_view(names@)[j]
            != port@ by {
            assert(names@[j]@ != port@);
        }
    }
    false
}

/// The handle of a phase in which callbacks are delivered.
fn live(p: &Phase) -> (r: Option<u64>)
    ensures
        r == live_handle(p@),
{
    match p {
        Phase::Opening { handle, .. } => Some(*handle),
        Phase::Connected { handle, .. } => Some(*handle),
        _ => None,
    }
}

impl DeviceManager {
    #[verifier::type_invariant]
    spec fn inv(self) -> bool {
        manager_wf(self@)
    }

    /// A manager that has not started.
    pub fn new() -> (r: DeviceManager)
        ensures
            r@ == (ManagerView { phase: PhaseView::Disconnected, next_handle: 0 }),
    {
        DeviceManager { phase: Phase::Disconnected, next_handle: 0 }
    }

    /// The current phase.
    pub fn phase(&self) -> (r: &Phase)
        ensures
            r@ == self@.phase,
    {
        &self.phase
    }

    /// Whether a callback arriving through `handle` may be delivered to the
    /// router: only through the live connection, never through a closed one.
    pub fn accepts(&self, handle: u64) -> (r: bool)
        ensures
            r == (live_handle(self@.phase) == Some(handle)),
    {
        live(&self.phase) == Some(handle)
    }

    /// Takes one event and returns the actions to perform, in order.
    pub fn step(&mut self, e: DeviceEvent) -> (actions: Vec<DeviceAction>)
        ensures
            final(self)@ == step_spec(old(self)@, e@).0,
            actions_view(actions@) == step_spec(old(self)@, e@).1,
    {
        proof {
            use_type_invariant(&*self);
        }
        let ghost m0 = self@;
        let ghost ev = e@;
        let mut actions: Vec<DeviceAction> = Vec::new();
        let mut phase = Phase::Stopped;
        std::mem::swap(&mut self.phase, &mut phase);
        if let Phase::Stopped = phase {
            assert(actions_view(actions@) =~= step_spec(m0, ev).1);
            return actions;
        }
        if let DeviceEvent::TransportFailed = e {
            if let Some(h) = live(&phase) {
                actions.push(DeviceAction::Close { handle: h });
            }
            actions.push(DeviceAction::Stop);
            assert(actions_view(actions@) =~= step_spec(m0, ev).1);
            return actions;
        }
        match phase {
            Phase::Disconnected => {
                if let DeviceEvent::Start = e {
                    self.phase = Phase::Connecting;
                    actions.push(DeviceAction::ListPorts);
                } else {
                    self.phase = Phase::Disconnected;
                }
            },
            Phase::Connecting => {
                match e {
                    DeviceEvent::Ports(names) => {
                        if names.len() == 0 {
                            self.phase = Phase::Connecting;
                            actions.push(DeviceAction::Wait { millis: RETRY_BACKOFF_MS });
                        } else if self.next_handle == u64::MAX {
                            actions.push(DeviceAction::Stop);
                        } else {
                            let handle = self.next_handle;
                            let port = names[0].clone();
                            self.next_handle = handle + 1;
                            self.phase = Phase::Opening { port, handle };
                            actions.push(DeviceAction::Open { index: 0, handle });
                        }
                    },
                    DeviceEvent::ListFailed => {
                        self.phase = Phase::Connecting;
                        actions.push(DeviceAction::Wait { millis: RETRY_BACKOFF_MS });
                    },
                    DeviceEvent::TimerFired => {
                        self.phase = Phase::Connecting;
                        actions.push(DeviceAction::ListPorts);
                    },
                    _ => {
                        self.phase = Phase::Connecting;
                    },
                }
            },
            Phase::Opening { port, handle } => {
                match e {
                    DeviceEvent::Opened => {
                        let mut body = String::from_str("Listening on ");
                        body.append(port.as_str());
                        self.phase = Phase::Connected { port, handle };
                        actions.push(
                            DeviceAction::Notify { title: String::from_str(NOTIFY_TITLE), body },
                        );
                        actions.push(DeviceAction::Wait { millis: MONITOR_INTERVAL_MS });
                    },
                    DeviceEvent::OpenFailed => {
                        self.phase = Phase::Connecting;
                        actions.push(DeviceAction::Wait { millis: RETRY_BACKOFF_MS });
                    },
                    _ => {
                        self.phase = Phase::Opening { port, handle };
                    },
                }
            },
            Phase::Connected { port, handle } => {
                match e {
                    DeviceEvent::TimerFired => {
                        self.phase = Phase::Connected { port, handle };
                        actions.push(DeviceAction::ListPorts);
                    },
                    DeviceEvent::Ports(names) => {
                        if contains_name(&names, &port) {
                            self.phase = Phase::Connected { port, handle };
                            actions.push(DeviceAction::Wait { millis: MONITOR_INTERVAL_MS });
                        } else {
                            self.phase = Phase::Connecting;
                            actions.push(
                                DeviceAction::Notify {
                                    title: String::from_str(NOTIFY_TITLE),
                                    body: String::from_str("MIDI disconnected. Standing by."),
                                },
                            );
                            actions.push(DeviceAction::Close { handle });
                            actions.push(DeviceAction::ListPorts);
                        }
                    },
                    DeviceEvent::ListFailed => {
                        self.phase = Phase::Connected { port, handle };
                        actions.push(DeviceAction::Wait { millis: MONITOR_INTERVAL_MS });
                    },
                    _ => {
                        self.phase = Phase::Connected { port, handle };
                    },
                }
            },
            Phase::Stopped => {},
        }
        assert(actions_view(actions@) =~= step_spec(m0, ev).1);
        actions
    }
}

/// The state after each event of `es` in turn, starting from `m`.
pub open spec fn run_events(m: ManagerView, es: Seq<DeviceEventView>) -> ManagerView
    decreases es.len(),
{
    if es.len() == 0 {
        m
    } else {
        run_events(step_spec(m, es[0]).0, es.drop_first())
    }
}

/// Every transition keeps the handles in order and never hands out a handle
/// twice.
pub proof fn lemma_step_keeps_handles_in_order(m: ManagerView, e: DeviceEventView)
    requires
        manager_wf(m),
    ensures
        manager_wf(step_spec(m, e).0),
        m.next_handle <= step_spec(m, e).0.next_handle,
        live_handle(step_spec(m, e).0.phase) matches Some(h) ==> (live_handle(m.phase) == Some(h)
            || m.next_handle <= h),
{
}

/// A retired handle stays retired whatever happens next.
pub proof fn lemma_retired_stays_retired(m: ManagerView, h: u64, es: Seq<DeviceEventView>)
    requires
        manager_wf(m),
        retired(m, h),
    ensures
        manager_wf(run_events(m, es)),
        retired(run_events(m, es), h),
    decreases es.len(),
{
    if es.len() > 0 {
        lemma_step_keeps_handles_in_order(m, es[0]);
        lemma_retired_stays_retired(step_spec(m, es[0]).0, h, es.drop_first());
    }
}

/// Disconnect detection: when the monitor's listing no longer holds the
/// bound port, the manager notifies, closes the handle and goes back to
/// connecting; and whatever happens afterwards, no callback is ever again
/// accepted through the closed handle.
pub proof fn lemma_disconnect_closes_handle(
    m: ManagerView,
    names: Seq<Seq<char>>,
    later: Seq<DeviceEventView>,
)
    requires
        manager_wf(m),
        m.phase is Connected,
        !names.contains(m.phase->Connected_port),
    ensures
        step_spec(m, DeviceEventView::Ports(names)).0.phase is Connecting,
        step_spec(m, DeviceEventView::Ports(names)).1 == seq![
            DeviceActionView::Notify { title: NOTIFY_TITLE@, body: disconnected_body() },
            DeviceActionView::Close { handle: m.phase->Connected_handle },
            DeviceActionView::ListPorts,
        ],
        live_handle(run_events(step_spec(m, DeviceEventView::Ports(names)).0, later).phase)
            != Some(m.phase->Connected_handle),
{
    let m1 = step_spec(m, DeviceEventView::Ports(names)).0;
    assert(retired(m1, m.phase->Connected_handle));
    lemma_retired_stays_retired(m1, m.phase->Connected_handle, later);
}

} // verus!
