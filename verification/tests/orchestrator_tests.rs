use aggregator::metrics::MetricSet;
use aggregator::orchestrator::{signal_description, Orchestrator, Signal, TaskEvent};

#[test]
fn a_fresh_process_is_running() {
    let o = Orchestrator::new();
    assert!(o.is_running());
}

#[test]
fn any_signal_shuts_the_process_down() {
    for signal in [
        Signal::Interrupt,
        Signal::Terminate,
        Signal::Quit,
        Signal::Hangup,
    ] {
        let mut o = Orchestrator::new();
        o.on_event(TaskEvent::SignalReceived(signal));
        assert!(!o.is_running());
    }
}

#[test]
fn a_task_exit_shuts_the_process_down() {
    let mut o = Orchestrator::new();
    o.on_event(TaskEvent::RpcServerExited);
    assert!(!o.is_running());

    let mut o = Orchestrator::new();
    o.on_event(TaskEvent::MetricsServerExited);
    assert!(!o.is_running());
}

#[test]
fn shutdown_is_terminal() {
    let mut o = Orchestrator::new();
    o.on_event(TaskEvent::SignalReceived(Signal::Terminate));
    assert!(!o.is_running());
    o.on_event(TaskEvent::RpcServerExited);
    assert!(!o.is_running());
    o.on_event(TaskEvent::SignalReceived(Signal::Hangup));
    assert!(!o.is_running());
}

#[test]
fn an_interrupt_mid_flight_ends_the_race_without_draining() {
    let mut m = MetricSet::new();
    m.begin_request();
    assert_eq!(m.pending(), 1);
    let mut o = Orchestrator::new();
    o.on_event(TaskEvent::SignalReceived(Signal::Interrupt));
    assert!(!o.is_running());
    assert_eq!(m.pending(), 1);
    assert_eq!(m.succeeded() + m.failed(), 0);
}

#[test]
fn signal_descriptions_name_the_signal() {
    assert_eq!(
        signal_description(&Signal::Interrupt),
        "Exiting process due to SIGINT"
    );
    assert_eq!(
        signal_description(&Signal::Terminate),
        "Exiting process due to SIGTERM"
    );
    assert_eq!(
        signal_description(&Signal::Quit),
        "Exiting process due to SIGQUIT"
    );
    assert_eq!(
        signal_description(&Signal::Hangup),
        "Exiting process due to SIGHUP"
    );
}
