use selection_listener::lifecycle::{ListenerCore, Phase, StartPlan};
use selection_listener::linux::{LinuxSelectionListener, X11Action, X11Event};
use selection_listener::macos::MacOSListener;
use selection_listener::platform::{create_listener, Platform, PlatformListener, SelectionListener};
use selection_listener::windows::WindowsListener;
use selection_listener::{SelectionError, SelectionState};

const PLATFORMS: [Platform; 4] = [Platform::MacOS, Platform::Windows, Platform::Linux, Platform::Unsupported];

#[test]
fn basic_creation() {
    let mut listener: PlatformListener = create_listener(Platform::Linux);
    assert!(listener.start(Ok(())).is_ok());
    assert!(listener.stop().is_ok());
}

#[test]
fn factory_picks_the_platform() {
    assert!(matches!(create_listener(Platform::MacOS), PlatformListener::MacOS(_)));
    assert!(matches!(create_listener(Platform::Windows), PlatformListener::Windows(_)));
    assert!(matches!(create_listener(Platform::Linux), PlatformListener::Linux(_)));
    assert!(matches!(create_listener(Platform::Unsupported), PlatformListener::Unsupported(_)));
}

#[test]
fn nothing_before_start() {
    for p in PLATFORMS {
        let mut l = create_listener(p);
        assert_eq!(l.get_selection(), None);
        assert!(!l.is_running());
        l.record(Some("early".to_string()));
        assert_eq!(l.get_selection(), None);
        let failed = l.start(Err(SelectionError::InitializationFailure("no tap".to_string())));
        assert!(failed.is_err());
        l.record(Some("after a failed start".to_string()));
        assert_eq!(l.get_selection(), None);
        assert!(!l.is_running());
    }
}

#[test]
fn stop_without_start_is_ok() {
    for p in PLATFORMS {
        let mut l = create_listener(p);
        assert_eq!(l.stop(), Ok(()));
        assert!(!l.is_running());
        assert_eq!(l.get_selection(), None);
        assert_eq!(l.start(Ok(())).is_ok(), p != Platform::Unsupported);
    }
}

#[test]
fn stop_twice_is_ok() {
    let mut l = create_listener(Platform::Windows);
    l.start(Ok(())).unwrap();
    l.record(Some("kept".to_string()));
    assert_eq!(l.stop(), Ok(()));
    assert_eq!(l.stop(), Ok(()));
    assert!(!l.is_running());
    assert_eq!(l.get_selection(), Some("kept".to_string()));
}

#[test]
fn capture_after_start() {
    for p in [Platform::MacOS, Platform::Windows, Platform::Linux] {
        let mut l = create_listener(p);
        assert_eq!(l.start(Ok(())), Ok(()));
        assert!(l.is_running());
        l.record(Some("first".to_string()));
        assert_eq!(l.get_selection(), Some("first".to_string()));
        l.record(None);
        assert_eq!(l.get_selection(), Some("first".to_string()));
        l.record(Some("second".to_string()));
        assert_eq!(l.get_selection(), Some("second".to_string()));
    }
}

#[test]
fn selection_is_always_a_recorded_value() {
    let written = ["a", "bb", "ccc", "", "dddd"];
    let mut l = create_listener(Platform::Linux);
    l.start(Ok(())).unwrap();
    for (i, w) in written.iter().enumerate() {
        l.record(Some(w.to_string()));
        if i % 2 == 0 {
            l.record(None);
        }
        let seen = l.get_selection().unwrap();
        assert!(written.contains(&seen.as_str()));
        assert_eq!(seen, w.to_string());
    }
}

#[test]
fn unsupported_refuses_start() {
    let mut l = create_listener(Platform::Unsupported);
    assert_eq!(l.start(Ok(())), Err(SelectionError::UnsupportedAction));
    assert_eq!(
        l.start(Err(SelectionError::MonitoringError("x".to_string()))),
        Err(SelectionError::UnsupportedAction)
    );
    assert!(!l.is_running());
    l.record(Some("ignored".to_string()));
    assert_eq!(l.get_selection(), None);
    assert_eq!(l.stop(), Ok(()));
}

#[test]
fn stop_keeps_last_value() {
    let mut a = create_listener(Platform::MacOS);
    assert!(a.start(Ok(())).is_ok());
    a.record(Some("hello world".to_string()));
    assert_eq!(a.get_selection(), Some("hello world".to_string()));
    assert!(a.stop().is_ok());
    assert_eq!(a.get_selection(), Some("hello world".to_string()));
    a.record(Some("late".to_string()));
    assert_eq!(a.get_selection(), Some("hello world".to_string()));
}

#[test]
fn restart_clears_last_value() {
    let mut l = create_listener(Platform::Windows);
    l.start(Ok(())).unwrap();
    l.record(Some("old".to_string()));
    l.stop().unwrap();
    let refused = l.start(Err(SelectionError::InitializationFailure("busy".to_string())));
    assert_eq!(refused, Err(SelectionError::InitializationFailure("busy".to_string())));
    assert_eq!(l.get_selection(), Some("old".to_string()));
    l.start(Ok(())).unwrap();
    assert_eq!(l.get_selection(), None);
}

#[test]
fn second_start_is_a_no_op() {
    let mut l = create_listener(Platform::Linux);
    l.start(Ok(())).unwrap();
    l.record(Some("held".to_string()));
    assert_eq!(l.start(Err(SelectionError::InitializationFailure("ignored".to_string()))), Ok(()));
    assert_eq!(l.start(Ok(())), Ok(()));
    assert_eq!(l.get_selection(), Some("held".to_string()));
}

#[test]
fn core_phases() {
    let mut c = ListenerCore::new(true);
    assert_eq!(c.phase(), Phase::Idle);
    assert!(c.needs_provision());
    c.start(Ok(())).unwrap();
    assert_eq!(c.phase(), Phase::Running);
    assert!(!c.needs_provision());
    c.stop().unwrap();
    assert_eq!(c.phase(), Phase::Stopped);
    assert!(c.needs_provision());
    assert!(!ListenerCore::new(false).needs_provision());
}

#[test]
fn windows_engine_failure_is_initialization_failure() {
    let mut w = WindowsListener::new();
    assert_eq!(
        w.start_impl(Err("CoCreateInstance failed".to_string())),
        Err(SelectionError::InitializationFailure("CoCreateInstance failed".to_string()))
    );
    assert!(!w.is_running());
    assert_eq!(w.start_impl(Ok(())), Ok(()));
    assert!(w.is_running());
    w.stop_impl();
    assert!(!w.is_running());
    w.stop_impl();
    assert_eq!(w.get_selection(), None);
}

#[test]
fn macos_permission_check() {
    assert_eq!(MacOSListener::check_accessibility_permissions(true), Ok(()));
    assert_eq!(
        MacOSListener::check_accessibility_permissions(false),
        Err("Accessibility permissions required".to_string())
    );
}

#[test]
fn macos_start_plan() {
    let mut m = MacOSListener::new();
    assert!(matches!(m.plan_start(true), StartPlan::Provision));
    match m.plan_start(false) {
        StartPlan::Refuse(e) => {
            assert_eq!(e, SelectionError::InitializationFailure("Accessibility permissions required".to_string()));
            assert_eq!(
                m.start(Err(e)),
                Err(SelectionError::InitializationFailure("Accessibility permissions required".to_string()))
            );
        }
        _ => panic!("an untrusted start must be refused"),
    }
    assert!(!m.is_running());
    m.start(Ok(())).unwrap();
    assert!(matches!(m.plan_start(true), StartPlan::Skip));
    assert!(matches!(m.plan_start(false), StartPlan::Skip));
}

#[test]
fn linux_event_dispatch() {
    let mut l = LinuxSelectionListener::new();
    assert_eq!(l.on_event(X11Event::SelectionOwnerChanged), X11Action::Wait);
    assert_eq!(
        l.start_listening(Err("cannot open display".to_string())),
        Err(SelectionError::InitializationFailure("cannot open display".to_string()))
    );
    assert_eq!(l.start_listening(Ok(())), Ok(()));
    assert_eq!(l.on_event(X11Event::Other), X11Action::Wait);
    assert_eq!(l.on_event(X11Event::SelectionOwnerChanged), X11Action::RequestValue);
    assert_eq!(l.on_event(X11Event::SelectionValue(Some("picked".to_string()))), X11Action::Wait);
    assert_eq!(l.get_selection(), Some("picked".to_string()));
    assert_eq!(l.on_event(X11Event::SelectionValue(None)), X11Action::Wait);
    assert_eq!(l.get_selection(), Some("picked".to_string()));
    l.stop().unwrap();
    assert_eq!(l.on_event(X11Event::SelectionOwnerChanged), X11Action::Wait);
}

#[test]
fn selection_state_slot() {
    let mut s = SelectionState::new();
    assert_eq!(s.snapshot(), None);
    s.write("x".to_string());
    assert_eq!(s.snapshot(), Some("x".to_string()));
    s.clear();
    assert_eq!(s.snapshot(), None);
}
