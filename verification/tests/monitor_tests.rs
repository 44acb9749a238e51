use nsworkspace_monitor::parse::{AppValue, Notification, RunningApplication, UserInfo};
use nsworkspace_monitor::{
    AppDelegate, Event, Monitor, NSWorkspaceError, NotificationKind, NotificationListener,
};

fn activation_payload(bundle: &str) -> Notification {
    Notification {
        user_info: Some(UserInfo {
            application: Some(AppValue::Application(RunningApplication {
                bundle_identifier: Some(bundle.to_string()),
                localized_name: None,
            })),
        }),
    }
}

#[test]
fn construction_fails_off_the_main_thread() {
    assert!(Monitor::new(false).is_none());
    assert!(Monitor::new(true).is_some());
}

#[test]
fn notification_handler_table_is_exact() {
    let expected = [
        (
            NotificationKind::DidActivateApplication,
            "didActivateApplication:",
            "NSWorkspaceDidActivateApplicationNotification",
        ),
        (
            NotificationKind::DidDeactivateApplication,
            "didDeactivateApplication:",
            "NSWorkspaceDidDeactivateApplicationNotification",
        ),
        (
            NotificationKind::DidLaunchApplication,
            "didLaunchApplication:",
            "NSWorkspaceDidLaunchApplicationNotification",
        ),
        (
            NotificationKind::DidTerminateApplication,
            "didTerminateApplication:",
            "NSWorkspaceDidTerminateApplicationNotification",
        ),
        (
            NotificationKind::DidHideApplication,
            "didHideApplication:",
            "NSWorkspaceDidHideApplicationNotification",
        ),
        (
            NotificationKind::DidUnhideApplication,
            "didUnhideApplication:",
            "NSWorkspaceDidUnhideApplicationNotification",
        ),
        (NotificationKind::DidSleep, "didSleep:", "NSWorkspaceWillSleepNotification"),
        (NotificationKind::DidWake, "didWake:", "NSWorkspaceDidWakeNotification"),
        (
            NotificationKind::DidPowerOff,
            "didPowerOff:",
            "NSWorkspaceWillPowerOffNotification",
        ),
        (
            NotificationKind::DidScreenSleep,
            "didScreenSleep:",
            "NSWorkspaceScreensDidSleepNotification",
        ),
        (
            NotificationKind::DidScreenWake,
            "didScreenWake:",
            "NSWorkspaceScreensDidWakeNotification",
        ),
    ];
    for (kind, selector, name) in expected {
        let (s, n) = AppDelegate::notification_handler(kind);
        assert_eq!(s, selector);
        assert_eq!(n, name);
    }
}

#[test]
fn subscribe_registers_exactly_the_set_bits() {
    let (monitor, _rx) = Monitor::new(true).unwrap();

    assert!(monitor.subscribe(NotificationListener::empty()).is_empty());

    let activation = NotificationListener::from_kind(NotificationKind::DidActivateApplication);
    let regs = monitor.subscribe(activation);
    assert_eq!(regs.len(), 1);
    assert_eq!(regs[0].kind, NotificationKind::DidActivateApplication);
    assert_eq!(regs[0].selector, "didActivateApplication:");
    assert_eq!(regs[0].name, "NSWorkspaceDidActivateApplicationNotification");

    let mixed = activation
        .or(NotificationListener::from_kind(NotificationKind::DidTerminateApplication))
        .or(NotificationListener::from_kind(NotificationKind::DidScreenWake));
    let names: Vec<&str> = monitor.subscribe(mixed).iter().map(|r| r.name).collect();
    assert_eq!(
        names,
        vec![
            "NSWorkspaceDidActivateApplicationNotification",
            "NSWorkspaceDidTerminateApplicationNotification",
            "NSWorkspaceScreensDidWakeNotification",
        ]
    );

    // subscribing resolves the same table again: additive and repeatable
    let again: Vec<&str> = monitor.subscribe(mixed).iter().map(|r| r.name).collect();
    assert_eq!(names, again);

    let everything = monitor.subscribe(NotificationListener::all());
    assert_eq!(everything.len(), 11);
    let flags = NotificationListener::flags();
    for (i, reg) in everything.iter().enumerate() {
        assert_eq!(NotificationListener::from_kind(reg.kind).bits, flags[i].1.bits);
    }
}

#[test]
fn activation_round_trip_produces_exactly_one_event_in_order() {
    let (mut monitor, rx) = Monitor::new(true).unwrap();

    // Subscribed to activation changes only: a termination notification is
    // never registered, so its name is absent from the table and nothing is
    // ever dispatched for it.
    let activation = NotificationListener::from_kind(NotificationKind::DidActivateApplication);
    let regs = monitor.subscribe(activation);
    assert!(regs
        .iter()
        .all(|r| r.name != "NSWorkspaceDidTerminateApplicationNotification"));
    assert!(rx.try_recv().is_err());

    let delivered = monitor.handle(
        NotificationKind::DidActivateApplication,
        &activation_payload("com.example.App"),
    );
    assert!(delivered);
    assert_eq!(
        rx.try_recv().unwrap(),
        Event::DidActivateApplication("com.example.App".to_string())
    );
    assert!(rx.try_recv().is_err());

    // arrival order is the dispatch order
    assert!(monitor.handle(
        NotificationKind::DidActivateApplication,
        &activation_payload("com.example.First"),
    ));
    assert!(monitor.handle(
        NotificationKind::DidActivateApplication,
        &activation_payload("com.example.Second"),
    ));
    assert_eq!(
        rx.try_recv().unwrap(),
        Event::DidActivateApplication("com.example.First".to_string())
    );
    assert_eq!(
        rx.try_recv().unwrap(),
        Event::DidActivateApplication("com.example.Second".to_string())
    );
}

#[test]
fn global_kinds_map_to_their_fixed_events() {
    let (mut monitor, rx) = Monitor::new(true).unwrap();
    let no_payload = Notification { user_info: None };

    assert!(monitor.handle(NotificationKind::DidSleep, &no_payload));
    assert!(monitor.handle(NotificationKind::DidWake, &no_payload));
    assert!(monitor.handle(NotificationKind::DidPowerOff, &no_payload));
    assert!(monitor.handle(NotificationKind::DidScreenSleep, &no_payload));
    assert!(monitor.handle(NotificationKind::DidScreenWake, &no_payload));

    assert_eq!(rx.try_recv().unwrap(), Event::DidSleep);
    assert_eq!(rx.try_recv().unwrap(), Event::DidWake);
    assert_eq!(rx.try_recv().unwrap(), Event::DidPowerOff);
    assert_eq!(rx.try_recv().unwrap(), Event::DidScreenSleep);
    assert_eq!(rx.try_recv().unwrap(), Event::DidScreenWake);
    assert!(rx.try_recv().is_err());
}

#[test]
fn failed_resolution_is_surfaced_as_an_error_event() {
    let (mut monitor, rx) = Monitor::new(true).unwrap();

    assert!(monitor.handle(
        NotificationKind::DidHideApplication,
        &Notification { user_info: None },
    ));
    assert_eq!(rx.try_recv().unwrap(), Event::Error(NSWorkspaceError::GetUserInfo));

    assert!(monitor.handle(
        NotificationKind::DidLaunchApplication,
        &Notification {
            user_info: Some(UserInfo {
                application: Some(AppValue::OtherObject),
            }),
        },
    ));
    assert_eq!(
        rx.try_recv().unwrap(),
        Event::Error(NSWorkspaceError::GetApplicationKey)
    );
}

#[test]
fn send_refuses_once_the_receiver_is_gone() {
    let (mut monitor, rx) = Monitor::new(true).unwrap();
    drop(rx);
    let delivered = monitor.handle(
        NotificationKind::DidActivateApplication,
        &activation_payload("com.example.App"),
    );
    assert!(!delivered);
}

#[test]
fn get_active_application_returns_nothing_without_a_frontmost_application() {
    let (monitor, _rx) = Monitor::new(true).unwrap();
    assert_eq!(monitor.get_active_application(None), None);

    let nameless = RunningApplication {
        bundle_identifier: None,
        localized_name: Some("Example".to_string()),
    };
    assert_eq!(monitor.get_active_application(Some(&nameless)), None);

    let app = RunningApplication {
        bundle_identifier: Some("com.example.App".to_string()),
        localized_name: None,
    };
    assert_eq!(
        monitor.get_active_application(Some(&app)),
        Some("com.example.App".to_string())
    );
}
