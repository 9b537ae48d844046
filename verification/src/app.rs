//! The life of the application: its options, and the rules by which the window loop, the
//! service and the interrupt listener start together and stop together.
//!
//! Three things can ask for shutdown: an interrupt, a client's request to stop the
//! service, and the closing of the window. Each of them sends the same token on one
//! bounded channel. The service stops accepting requests at the first token it receives
//! and then tells the window loop, which exits; the window loop also exits by itself when
//! the window is closed.
use vstd::prelude::*;
use vstd::string::StringExecFns;

verus! {

/// Whether to start the service, and if so on which port.
#[derive(Clone, Copy, Debug, PartialEq, Eq, Structural)]
pub enum RPCOption {
    /// The service is not started.
    NoRpc,
    /// The service is started on the given port.
    WithPort { port: u16 },
}

/// Whether to start the planar or the spatial viewer.
#[derive(Clone, Copy, Debug, PartialEq, Eq, Structural)]
pub enum Mode {
    D2,
    D3,
}

/// The options of the application.
#[derive(Clone, Copy, Debug, PartialEq, Eq, Structural)]
pub struct TopoViewerOptions {
    pub mode: Mode,
    pub with_rpc: RPCOption,
}

/// The character of the digit `d`.
pub open spec fn digit_char(d: nat) -> char {
    if d == 0 {
        '0'
    } else if d == 1 {
        '1'
    } else if d == 2 {
        '2'
    } else if d == 3 {
        '3'
    } else if d == 4 {
        '4'
    } else if d == 5 {
        '5'
    } else if d == 6 {
        '6'
    } else if d == 7 {
        '7'
    } else if d == 8 {
        '8'
    } else {
        '9'
    }
}

/// The number `n` in decimal digits, without leading zeros.
pub open spec fn decimal(n: nat) -> Seq<char>
    decreases n,
{
    if n < 10 {
        seq![digit_char(n)]
    } else {
        decimal(n / 10).push(digit_char(n % 10))
    }
}

fn digit_text(d: u64) -> (s: &'static str)
    requires
        d < 10,
    ensures
        s@ == seq![digit_char(d as nat)],
{
    proof {
        reveal_strlit("0");
        reveal_strlit("1");
        reveal_strlit("2");
        reveal_strlit("3");
        reveal_strlit("4");
        reveal_strlit("5");
        reveal_strlit("6");
        reveal_strlit("7");
        reveal_strlit("8");
        reveal_strlit("9");
    }
    let s = match d {
        0 => "0",
        1 => "1",
        2 => "2",
        3 => "3",
        4 => "4",
        5 => "5",
        6 => "6",
        7 => "7",
        8 => "8",
        _ => "9",
    };
    assert(s@ =~= seq![digit_char(d as nat)]);
    s
}

/// The number `n` in decimal digits.
pub fn decimal_text(n: u64) -> (s: String)
    ensures
        s@ == decimal(n as nat),
    decreases n,
{
    if n < 10 {
        digit_text(n).to_owned()
    } else {
        let s = decimal_text(n / 10).concat(digit_text(n % 10));
        assert(s@ =~= decimal((n / 10) as nat).push(digit_char((n % 10) as nat)));
        s
    }
}

impl Mode {
    /// The mode in words.
    pub open spec fn text(self) -> Seq<char> {
        match self {
            Mode::D2 => "2D"@,
            Mode::D3 => "3D"@,
        }
    }
}

impl RPCOption {
    /// The option in words.
    pub open spec fn text(self) -> Seq<char> {
        match self {
            RPCOption::NoRpc => "None"@,
            RPCOption::WithPort { port } => "RPC server on port "@ + decimal(port as nat),
        }
    }
}

impl TopoViewerOptions {
    /// The options in words: the mode, then the service.
    pub open spec fn text(self) -> Seq<char> {
        "Mode: "@ + self.mode.text() + ", RPC: "@ + self.with_rpc.text()
    }

    /// The options in words, for the log.
    pub fn describe(&self) -> (s: String)
        ensures
            s@ == self.text(),
    {
        let mut s = "Mode: ".to_owned();
        match self.mode {
            Mode::D2 => {
                s.append("2D");
            },
            Mode::D3 => {
                s.append("3D");
            },
        }
        s.append(", RPC: ");
        match self.with_rpc {
            RPCOption::NoRpc => {
                s.append("None");
            },
            RPCOption::WithPort { port } => {
                s.append("RPC server on port ");
                let digits = decimal_text(port as u64);
                s.append(digits.as_str());
                assert(s@ =~= self.text());
            },
        }
        assert(s@ =~= self.text());
        s
    }
}

/// The runtime that the application needs for its asynchronous work.
#[derive(Clone, Copy, Debug, PartialEq, Eq, Structural)]
pub enum RuntimeKind {
    /// A runtime on the thread of the window loop, used only to wait for the device.
    CurrentThread,
    /// A runtime with its own worker threads, on which the service runs.
    MultiThread { worker_threads: usize },
}

/// Whether there is a service, and whether it runs.
#[derive(Clone, Copy, Debug, PartialEq, Eq, Structural)]
pub enum RcpStatus {
    /// There is no service.
    Absent,
    /// The service runs.
    Running,
    /// The service has stopped.
    Stopped,
}

/// An event that the service sends to the window loop.
#[derive(Clone, Copy, Debug, PartialEq, Eq, Structural)]
pub enum TopoHedralEvent {
    /// The service has shut down.
    RcpShutdown,
}

/// What the application starts when its window loop starts, in this order.
#[derive(Clone, Copy, Debug, PartialEq, Eq, Structural)]
pub enum StartAction {
    /// Create the shutdown channel with room for `capacity` tokens.
    OpenShutdownChannel { capacity: usize },
    /// Start the task that waits for an interrupt and then sends a shutdown token.
    SpawnInterruptListener,
    /// Start the service on the given port of the local host, and keep its handle.
    SpawnServer { port: u16 },
    /// Open the window and bring up the device, waiting until that is done.
    LaunchWindow,
}

/// What the window loop does with an event of its window.
#[derive(Clone, Copy, Debug, PartialEq, Eq, Structural)]
pub struct WindowEventPlan {
    /// Send a shutdown token and wait until it is sent.
    pub send_shutdown: bool,
    /// Hand the event to the scene.
    pub dispatch: bool,
    /// Leave the loop.
    pub exit: bool,
}

/// Room of the shutdown channel: enough for every source of shutdown to send without
/// waiting when several fire at nearly the same time.
pub const SHUTDOWN_CAPACITY: usize = 4;

/// Number of worker threads of the runtime that runs the service.
pub const WORKER_THREADS: usize = 2;

/// The part of the application that decides what runs and when it stops.
#[derive(Clone, Copy, Debug, PartialEq, Eq, Structural)]
pub struct TopoViewer {
    pub mode: Mode,
    pub rpc_port: Option<u16>,
    /// The service was started and its handle is kept.
    pub has_rpc_handle: bool,
    /// The shutdown channel is open and the window loop holds a sender.
    pub has_shutdown_sender: bool,
}

impl TopoViewer {
    /// The application before its window loop starts: nothing runs yet.
    pub fn new(topoviewer_options: &TopoViewerOptions) -> (app: Self)
        ensures
            app.mode == topoviewer_options.mode,
            app.rpc_port == match topoviewer_options.with_rpc {
                RPCOption::NoRpc => None::<u16>,
                RPCOption::WithPort { port } => Some(port),
            },
            !app.has_rpc_handle,
            !app.has_shutdown_sender,
    {
        TopoViewer {
            mode: topoviewer_options.mode,
            rpc_port: match topoviewer_options.with_rpc {
                RPCOption::NoRpc => None,
                RPCOption::WithPort { port } => Some(port),
            },
            has_rpc_handle: false,
            has_shutdown_sender: false,
        }
    }

    /// The runtime to build: one with worker threads where the service is to run, and
    /// one on the current thread otherwise.
    pub fn runtime_kind(&self) -> (kind: RuntimeKind)
        ensures
            kind == match self.rpc_port {
                Some(_) => RuntimeKind::MultiThread { worker_threads: WORKER_THREADS },
                None => RuntimeKind::CurrentThread,
            },
    {
        match self.rpc_port {
            Some(_) => RuntimeKind::MultiThread { worker_threads: WORKER_THREADS },
            None => RuntimeKind::CurrentThread,
        }
    }

    /// What `resumed` starts: with a port, the shutdown channel, the interrupt listener
    /// and the service, and in every case the window.
    pub open spec fn start_plan(&self) -> Seq<StartAction> {
        match self.rpc_port {
            Some(port) => seq![
                StartAction::OpenShutdownChannel { capacity: SHUTDOWN_CAPACITY },
                StartAction::SpawnInterruptListener,
                StartAction::SpawnServer { port },
                StartAction::LaunchWindow,
            ],
            None => seq![StartAction::LaunchWindow],
        }
    }

    /// Starts the application when its window loop starts, and says what to start.
    pub fn resumed(&mut self) -> (actions: Vec<StartAction>)
        ensures
            actions@ == old(self).start_plan(),
            final(self).mode == old(self).mode,
            final(self).rpc_port == old(self).rpc_port,
            final(self).has_rpc_handle == (old(self).has_rpc_handle || old(self).rpc_port is Some),
            final(self).has_shutdown_sender == (old(self).has_shutdown_sender
                || old(self).rpc_port is Some),
    {
        let mut actions: Vec<StartAction> = Vec::new();
        if let Some(port) = self.rpc_port {
            actions.push(StartAction::OpenShutdownChannel { capacity: SHUTDOWN_CAPACITY });
            self.has_shutdown_sender = true;
            actions.push(StartAction::SpawnInterruptListener);
            actions.push(StartAction::SpawnServer { port });
            self.has_rpc_handle = true;
        }
        actions.push(StartAction::LaunchWindow);
        assert(actions@ =~= old(self).start_plan());
        actions
    }

    /// The status of the service, given whether its task has finished.
    pub fn server_status(&self, finished: bool) -> (status: RcpStatus)
        ensures
            status == if !self.has_rpc_handle {
                RcpStatus::Absent
            } else if finished {
                RcpStatus::Stopped
            } else {
                RcpStatus::Running
            },
    {
        let mut status = RcpStatus::Absent;
        if self.has_rpc_handle {
            if finished {
                status = RcpStatus::Stopped;
            } else {
                status = RcpStatus::Running;
            }
        }
        status
    }

    /// What the window loop does with an event of its window, given whether the event
    /// asks to close the window and whether the task of the service has finished. A
    /// request to close sends a shutdown token, where there is a channel, and leaves the
    /// loop; every other event goes to the scene. The loop is left as well when the
    /// service has stopped.
    pub fn window_event(&self, close_requested: bool, finished: bool) -> (plan: WindowEventPlan)
        ensures
            plan.send_shutdown == (close_requested && self.has_shutdown_sender),
            plan.dispatch == !close_requested,
            plan.exit == (close_requested || (self.has_rpc_handle && finished)),
    {
        let send_shutdown = close_requested && self.has_shutdown_sender;
        let dispatch = !close_requested;
        let mut exit = close_requested;
        match self.server_status(finished) {
            RcpStatus::Stopped => {
                exit = true;
            },
            _ => {},
        }
        WindowEventPlan { send_shutdown, dispatch, exit }
    }

    /// Whether the window loop is left on an event from the service: it is, on the one
    /// event there is.
    pub fn user_event(&self, event: TopoHedralEvent) -> (exit: bool)
        ensures
            exit,
    {
        match event {
            TopoHedralEvent::RcpShutdown => true,
        }
    }
}

/// What can ask for shutdown.
#[derive(Clone, Copy, Debug, PartialEq, Eq, Structural)]
pub enum ShutdownTrigger {
    /// The process was interrupted.
    Interrupt,
    /// A client asked the service to stop.
    KillRequest,
    /// The window was closed.
    WindowClose,
}

/// How sending a shutdown token went.
#[derive(Clone, Copy, Debug, PartialEq, Eq, Structural)]
pub enum SendOutcome {
    /// The token is in the channel.
    Sent,
    /// The channel is full: the sender waits until the service takes a token.
    Full,
    /// Nobody receives any more: the service has stopped.
    Closed,
}

/// Where the service and the window loop stand.
#[derive(Clone, Copy, Debug, PartialEq, Eq, Structural)]
pub struct Lifecycle {
    /// Whether there is a service, and whether it accepts requests.
    pub server: RcpStatus,
    /// Shutdown tokens that were sent and not yet received.
    pub tokens: usize,
    /// The service has told the window loop that it shut down, and the loop has not yet
    /// taken that event.
    pub shutdown_posted: bool,
    /// The window loop has exited.
    pub exited: bool,
}

impl Lifecycle {
    /// No more tokens wait than the channel has room for, and none waits where there is
    /// no service to send to; the shutdown event comes only from a service that stopped.
    pub open spec fn wf(self) -> bool {
        &&& self.tokens <= SHUTDOWN_CAPACITY
        &&& self.server == RcpStatus::Absent ==> self.tokens == 0
        &&& self.shutdown_posted ==> self.server == RcpStatus::Stopped
    }

    /// Whether the service takes a new request.
    pub open spec fn accepting(self) -> bool {
        self.server == RcpStatus::Running
    }

    /// The state after `trigger` asked for shutdown.
    pub open spec fn after_trigger(self, trigger: ShutdownTrigger) -> Lifecycle {
        Lifecycle {
            tokens: if self.server == RcpStatus::Running && self.tokens < SHUTDOWN_CAPACITY {
                (self.tokens + 1) as usize
            } else {
                self.tokens
            },
            exited: self.exited || trigger == ShutdownTrigger::WindowClose,
            ..self
        }
    }

    /// The state after the service looked at the shutdown channel.
    pub open spec fn after_server_poll(self) -> Lifecycle {
        if self.server == RcpStatus::Running && self.tokens > 0 {
            Lifecycle {
                server: RcpStatus::Stopped,
                tokens: (self.tokens - 1) as usize,
                shutdown_posted: true,
                ..self
            }
        } else {
            self
        }
    }

    /// The state after the window loop looked at its queue.
    pub open spec fn after_loop_poll(self) -> Lifecycle {
        if self.shutdown_posted {
            Lifecycle { shutdown_posted: false, exited: true, ..self }
        } else {
            self
        }
    }

    /// Before the window loop starts: no service, no token, nothing exited.
    pub fn new() -> (l: Self)
        ensures
            l.server == RcpStatus::Absent,
            l.tokens == 0,
            !l.shutdown_posted,
            !l.exited,
            l.wf(),
    {
        Lifecycle { server: RcpStatus::Absent, tokens: 0, shutdown_posted: false, exited: false }
    }

    /// The window loop starts: with a port the service starts to accept requests.
    pub fn start(&mut self, rpc_port: Option<u16>)
        requires
            old(self).wf(),
        ensures
            final(self).wf(),
            final(self).server == if old(self).server == RcpStatus::Absent && rpc_port is Some {
                RcpStatus::Running
            } else {
                old(self).server
            },
            final(self).tokens == old(self).tokens,
            final(self).shutdown_posted == old(self).shutdown_posted,
            final(self).exited == old(self).exited,
    {
        if self.server == RcpStatus::Absent && rpc_port.is_some() {
            self.server = RcpStatus::Running;
        }
    }

    /// `trigger` asks for shutdown: a token is sent to the service, and the closing of
    /// the window also ends the window loop, whether or not the token could be sent.
    pub fn trigger(&mut self, trigger: ShutdownTrigger) -> (outcome: SendOutcome)
        requires
            old(self).wf(),
        ensures
            final(self).wf(),
            *final(self) == old(self).after_trigger(trigger),
            outcome == if old(self).server != RcpStatus::Running {
                SendOutcome::Closed
            } else if old(self).tokens < SHUTDOWN_CAPACITY {
                SendOutcome::Sent
            } else {
                SendOutcome::Full
            },
    {
        if trigger == ShutdownTrigger::WindowClose {
            self.exited = true;
        }
        if self.server != RcpStatus::Running {
            SendOutcome::Closed
        } else if self.tokens < SHUTDOWN_CAPACITY {
            self.tokens = self.tokens + 1;
            SendOutcome::Sent
        } else {
            SendOutcome::Full
        }
    }

    /// The service looks at the shutdown channel between two requests. At the first
    /// token it stops accepting; the result says whether it did, in which case it has to
    /// tell the window loop.
    pub fn server_poll(&mut self) -> (stopped: bool)
        requires
            old(self).wf(),
        ensures
            final(self).wf(),
            *final(self) == old(self).after_server_poll(),
            stopped == (old(self).server == RcpStatus::Running && old(self).tokens > 0),
    {
        if self.server == RcpStatus::Running && self.tokens > 0 {
            self.tokens = self.tokens - 1;
            self.server = RcpStatus::Stopped;
            self.shutdown_posted = true;
            true
        } else {
            false
        }
    }

    /// The window loop looks at its queue, and exits when the service has told it that it
    /// shut down. The result says whether the loop has exited.
    pub fn loop_poll(&mut self) -> (exited: bool)
        requires
            old(self).wf(),
        ensures
            final(self).wf(),
            *final(self) == old(self).after_loop_poll(),
            exited == final(self).exited,
    {
        if self.shutdown_posted {
            self.shutdown_posted = false;
            self.exited = true;
        }
        self.exited
    }

    /// Whether the state is one that the service and the window loop can be in.
    pub fn check(&self) -> (ok: bool)
        ensures
            ok == self.wf(),
    {
        self.tokens <= SHUTDOWN_CAPACITY && (self.server != RcpStatus::Absent || self.tokens == 0)
            && (!self.shutdown_posted || self.server == RcpStatus::Stopped)
    }

    /// Whether the service takes a new request.
    pub fn accepts(&self) -> (yes: bool)
        ensures
            yes == self.accepting(),
    {
        self.server == RcpStatus::Running
    }
}

/// Whichever of the three asks for shutdown while the service runs: once the service
/// and the window loop have each looked at what was sent to them, the service has
/// stopped, takes no new request, and the window loop has exited.
pub proof fn lemma_shutdown_converges(l: Lifecycle, trigger: ShutdownTrigger)
    requires
        l.wf(),
        l.server == RcpStatus::Running,
    ensures
        ({
            let end = l.after_trigger(trigger).after_server_poll().after_loop_poll();
            &&& end.wf()
            &&& end.server == RcpStatus::Stopped
            &&& !end.accepting()
            &&& end.exited
        }),
{
}

/// A service that has stopped stays stopped, whatever happens next: no request is
/// accepted after the shutdown token was received.
pub proof fn lemma_stopped_stays_stopped(l: Lifecycle, trigger: ShutdownTrigger)
    requires
        l.server == RcpStatus::Stopped,
    ensures
        !l.after_trigger(trigger).accepting(),
        !l.after_server_poll().accepting(),
        !l.after_loop_poll().accepting(),
        l.after_trigger(trigger).server == RcpStatus::Stopped,
        l.after_server_poll().server == RcpStatus::Stopped,
        l.after_loop_poll().server == RcpStatus::Stopped,
{
}

/// Without a service, closing the window ends the window loop by itself.
pub proof fn lemma_close_without_service(l: Lifecycle)
    requires
        l.wf(),
        l.server == RcpStatus::Absent,
    ensures
        l.after_trigger(ShutdownTrigger::WindowClose).exited,
        l.after_trigger(ShutdownTrigger::WindowClose).server == RcpStatus::Absent,
{
}

} // verus!
