use topohedral_viewer::app::{
    decimal_text, Lifecycle, Mode, RPCOption, RcpStatus, RuntimeKind, SendOutcome,
    ShutdownTrigger, StartAction, TopoHedralEvent, TopoViewer, TopoViewerOptions,
    WindowEventPlan, SHUTDOWN_CAPACITY,
};

#[test]
fn options_in_words() {
    let with_port =
        TopoViewerOptions { mode: Mode::D2, with_rpc: RPCOption::WithPort { port: 50051 } };
    assert_eq!(with_port.describe(), "Mode: 2D, RPC: RPC server on port 50051");
    let without = TopoViewerOptions { mode: Mode::D3, with_rpc: RPCOption::NoRpc };
    assert_eq!(without.describe(), "Mode: 3D, RPC: None");
    for n in [0u64, 7, 10, 99, 100, 4096, 65535, 1234567890123, u64::MAX] {
        assert_eq!(decimal_text(n), n.to_string());
    }
}

#[test]
fn startup_with_and_without_service() {
    let options = TopoViewerOptions { mode: Mode::D2, with_rpc: RPCOption::WithPort { port: 50051 } };
    let mut app = TopoViewer::new(&options);
    assert_eq!(app.mode, Mode::D2);
    assert_eq!(app.rpc_port, Some(50051));
    assert_eq!(app.runtime_kind(), RuntimeKind::MultiThread { worker_threads: 2 });
    assert_eq!(app.server_status(false), RcpStatus::Absent);
    assert_eq!(
        app.resumed(),
        vec![
            StartAction::OpenShutdownChannel { capacity: 4 },
            StartAction::SpawnInterruptListener,
            StartAction::SpawnServer { port: 50051 },
            StartAction::LaunchWindow,
        ]
    );
    assert_eq!(SHUTDOWN_CAPACITY, 4);
    assert_eq!(app.server_status(false), RcpStatus::Running);
    assert_eq!(app.server_status(true), RcpStatus::Stopped);

    let options = TopoViewerOptions { mode: Mode::D3, with_rpc: RPCOption::NoRpc };
    let mut app = TopoViewer::new(&options);
    assert_eq!(app.rpc_port, None);
    assert_eq!(app.runtime_kind(), RuntimeKind::CurrentThread);
    assert_eq!(app.resumed(), vec![StartAction::LaunchWindow]);
    assert_eq!(app.server_status(true), RcpStatus::Absent);
}

#[test]
fn window_events_decide_about_leaving_the_loop() {
    let options = TopoViewerOptions { mode: Mode::D2, with_rpc: RPCOption::WithPort { port: 1 } };
    let mut app = TopoViewer::new(&options);
    app.resumed();
    assert_eq!(
        app.window_event(true, false),
        WindowEventPlan { send_shutdown: true, dispatch: false, exit: true }
    );
    assert_eq!(
        app.window_event(false, false),
        WindowEventPlan { send_shutdown: false, dispatch: true, exit: false }
    );
    assert_eq!(
        app.window_event(false, true),
        WindowEventPlan { send_shutdown: false, dispatch: true, exit: true }
    );
    assert!(app.user_event(TopoHedralEvent::RcpShutdown));

    let options = TopoViewerOptions { mode: Mode::D2, with_rpc: RPCOption::NoRpc };
    let mut app = TopoViewer::new(&options);
    app.resumed();
    assert_eq!(
        app.window_event(true, false),
        WindowEventPlan { send_shutdown: false, dispatch: false, exit: true }
    );
    assert_eq!(
        app.window_event(false, true),
        WindowEventPlan { send_shutdown: false, dispatch: true, exit: false }
    );
}

#[test]
fn every_trigger_stops_service_and_loop() {
    for trigger in
        [ShutdownTrigger::Interrupt, ShutdownTrigger::KillRequest, ShutdownTrigger::WindowClose]
    {
        let mut l = Lifecycle::new();
        assert!(!l.accepts());
        l.start(Some(50051));
        assert_eq!(l.server, RcpStatus::Running);
        assert!(l.accepts());
        assert!(!l.server_poll());
        assert!(!l.loop_poll());
        assert_eq!(l.trigger(trigger), SendOutcome::Sent);
        assert_eq!(l.tokens, 1);
        assert!(l.accepts());
        assert!(l.server_poll());
        assert_eq!(l.server, RcpStatus::Stopped);
        assert!(!l.accepts());
        assert!(l.loop_poll());
        assert!(l.exited);
        assert_eq!(l.trigger(ShutdownTrigger::KillRequest), SendOutcome::Closed);
        assert!(!l.server_poll());
        assert!(!l.accepts());
        l.start(Some(50051));
        assert_eq!(l.server, RcpStatus::Stopped);
    }
}

#[test]
fn the_channel_is_bounded() {
    let mut l = Lifecycle::new();
    l.start(Some(1));
    for _ in 0..4 {
        assert_eq!(l.trigger(ShutdownTrigger::KillRequest), SendOutcome::Sent);
    }
    assert_eq!(l.trigger(ShutdownTrigger::Interrupt), SendOutcome::Full);
    assert_eq!(l.tokens, 4);
    assert!(l.server_poll());
    assert_eq!(l.tokens, 3);
    assert!(!l.server_poll());
    assert_eq!(l.tokens, 3);
}

#[test]
fn closing_the_window_without_a_service() {
    let mut l = Lifecycle::new();
    l.start(None);
    assert_eq!(l.server, RcpStatus::Absent);
    assert_eq!(l.trigger(ShutdownTrigger::WindowClose), SendOutcome::Closed);
    assert!(l.exited);
    assert!(l.loop_poll());
    let mut l = Lifecycle::new();
    l.start(None);
    assert_eq!(l.trigger(ShutdownTrigger::Interrupt), SendOutcome::Closed);
    assert!(!l.exited);
}
