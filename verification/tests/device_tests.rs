use rxbanish::device::{
    device_event_codes, make_event_code, should_snoop_device, xfixes_version_sufficient,
    ClassInfo, DeviceRole, InputClassKind, DEVICE_PRESENCE_CLASS, XFIXES_MAJOR_REQUIRED,
};

#[test]
fn event_code_packs_device_high_and_type_low() {
    assert_eq!(make_event_code(7, 3), 0x0703);
    assert_eq!(make_event_code(0, 0), 0);
    assert_eq!(make_event_code(1, 0), 0x100);
    assert_eq!(make_event_code(0, 1), 0x1);
    assert_eq!(make_event_code(255, 255), 0xffff);
    assert_eq!(make_event_code(9, 3), 9 * 256 + 3);
}

#[test]
fn key_class_yields_release_code_only() {
    let classes = vec![ClassInfo { kind: InputClassKind::Key, event_type_base: 2 }];
    // the key-release code is subscribed in either mode
    assert_eq!(device_event_codes(false, 9, &classes), vec![make_event_code(9, 3)]);
    assert_eq!(device_event_codes(true, 9, &classes), vec![make_event_code(9, 3)]);
}

#[test]
fn valuator_class_skipped_under_raw_motion() {
    let classes = vec![ClassInfo { kind: InputClassKind::Valuator, event_type_base: 5 }];
    assert_eq!(device_event_codes(true, 4, &classes), Vec::<u32>::new());
}

#[test]
fn valuator_class_yields_base_code_in_legacy_mode() {
    let classes = vec![ClassInfo { kind: InputClassKind::Valuator, event_type_base: 5 }];
    assert_eq!(device_event_codes(false, 4, &classes), vec![make_event_code(4, 5)]);
}

#[test]
fn button_class_skipped_under_raw_motion() {
    let classes = vec![ClassInfo { kind: InputClassKind::Button, event_type_base: 10 }];
    assert_eq!(device_event_codes(true, 2, &classes), Vec::<u32>::new());
}

#[test]
fn button_class_yields_press_and_release_in_legacy_mode() {
    let classes = vec![ClassInfo { kind: InputClassKind::Button, event_type_base: 10 }];
    assert_eq!(
        device_event_codes(false, 2, &classes),
        vec![make_event_code(2, 10), make_event_code(2, 11)],
    );
}

#[test]
fn other_classes_are_ignored() {
    let classes = vec![ClassInfo { kind: InputClassKind::Other, event_type_base: 7 }];
    assert_eq!(device_event_codes(false, 3, &classes), Vec::<u32>::new());
    assert_eq!(device_event_codes(true, 3, &classes), Vec::<u32>::new());
}

#[test]
fn no_classes_yield_an_empty_subscription_list() {
    assert_eq!(device_event_codes(false, 1, &vec![]), Vec::<u32>::new());
    assert_eq!(device_event_codes(true, 1, &vec![]), Vec::<u32>::new());
}

#[test]
fn mixed_classes_keep_declaration_order() {
    let classes = vec![
        ClassInfo { kind: InputClassKind::Key, event_type_base: 2 },
        ClassInfo { kind: InputClassKind::Valuator, event_type_base: 6 },
        ClassInfo { kind: InputClassKind::Button, event_type_base: 12 },
        ClassInfo { kind: InputClassKind::Other, event_type_base: 20 },
    ];
    assert_eq!(
        device_event_codes(false, 5, &classes),
        vec![
            make_event_code(5, 3),
            make_event_code(5, 6),
            make_event_code(5, 12),
            make_event_code(5, 13),
        ],
    );
    // under raw motion, only the key release survives
    assert_eq!(device_event_codes(true, 5, &classes), vec![make_event_code(5, 3)]);
}

#[test]
fn only_extension_devices_are_snooped() {
    assert!(should_snoop_device(DeviceRole::IsXExtensionKeyboard));
    assert!(should_snoop_device(DeviceRole::IsXExtensionPointer));
    assert!(!should_snoop_device(DeviceRole::IsXPointer));
    assert!(!should_snoop_device(DeviceRole::IsXKeyboard));
    assert!(!should_snoop_device(DeviceRole::IsXExtensionDevice));
}

#[test]
fn xfixes_version_gate_is_at_four() {
    assert!(!xfixes_version_sufficient(0));
    assert!(!xfixes_version_sufficient(3));
    assert!(xfixes_version_sufficient(4));
    assert!(xfixes_version_sufficient(5));
    assert_eq!(XFIXES_MAJOR_REQUIRED, 4);
}

#[test]
fn device_presence_class_is_the_fixed_code() {
    assert_eq!(DEVICE_PRESENCE_CLASS, 0x10000);
}
