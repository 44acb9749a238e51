use nsworkspace_monitor::{NotificationKind, NotificationListener};

const ALL_KINDS: [NotificationKind; 11] = [
    NotificationKind::DidActivateApplication,
    NotificationKind::DidDeactivateApplication,
    NotificationKind::DidLaunchApplication,
    NotificationKind::DidTerminateApplication,
    NotificationKind::DidHideApplication,
    NotificationKind::DidUnhideApplication,
    NotificationKind::DidSleep,
    NotificationKind::DidWake,
    NotificationKind::DidPowerOff,
    NotificationKind::DidScreenSleep,
    NotificationKind::DidScreenWake,
];

#[test]
fn flags_yields_each_kind_exactly_once() {
    let flags = NotificationListener::flags();
    assert_eq!(flags.len(), 11);

    let expected_names = [
        "DidActivateApplication",
        "DidDeactivateApplication",
        "DidLaunchApplication",
        "DidTerminateApplication",
        "DidHideApplication",
        "DidUnhideApplication",
        "DidSleep",
        "DidWake",
        "DidPowerOff",
        "DidScreenSleep",
        "DidScreenWake",
    ];
    for (i, (name, flag)) in flags.iter().enumerate() {
        assert_eq!(*name, expected_names[i]);
        // single-bit values, each kind's own bit, all distinct
        assert_eq!(flag.bits, 1u16 << i);
        assert_eq!(flag.bits.count_ones(), 1);
    }
}

#[test]
fn union_of_all_flag_values_is_the_full_mask() {
    let mut union = NotificationListener::empty();
    for (_, flag) in NotificationListener::flags() {
        union = union.or(flag);
    }
    assert_eq!(union.bits, NotificationListener::all().bits);
    assert_eq!(union.bits, 0x7ff);
}

#[test]
fn from_kind_matches_the_flags_table() {
    let flags = NotificationListener::flags();
    for (i, kind) in ALL_KINDS.iter().enumerate() {
        assert_eq!(NotificationListener::from_kind(*kind).bits, flags[i].1.bits);
    }
}

#[test]
fn contains_tests_membership_of_every_set_bit() {
    let activation = NotificationListener::from_kind(NotificationKind::DidActivateApplication);
    let termination = NotificationListener::from_kind(NotificationKind::DidTerminateApplication);
    let both = activation.or(termination);

    assert!(both.contains(activation));
    assert!(both.contains(termination));
    assert!(both.contains(both));
    assert!(!activation.contains(termination));
    assert!(!NotificationListener::empty().contains(activation));
    assert!(NotificationListener::all().contains(both));
}
