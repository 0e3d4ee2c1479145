use monmouse::device_type::DeviceType;
use monmouse::errors::Error;
use monmouse::host::HotKeyManager;
use monmouse::host::RawDeviceInfo;
use monmouse::host::RawMouseInfo;
use monmouse::host::RawinputInfo;
use monmouse::host::TickWiden;
use monmouse::message::DeviceStatus;
use monmouse::message::Message;
use monmouse::message::Positioning;
use monmouse::message::ShortcutID;
use monmouse::message::UINotifyNoop;
use monmouse::mouse_control::DeviceController;
use monmouse::message::setup_reactors;
use monmouse::processor::init_device_control;
use monmouse::processor::HostRegisterOutcome;
use monmouse::processor::PollOutcome;
use monmouse::processor::WinDevice;
use monmouse::processor::WinEventLoop;
use monmouse::setting::DeviceSetting;
use monmouse::setting::DeviceSettingItem;
use monmouse::setting::ProcessorSettings;

fn mouse_device(handle: u64, id: &str) -> WinDevice {
    WinDevice {
        handle,
        device_type: DeviceType::Mouse,
        id: Some(id.to_string()),
        rawinput: Some(RawinputInfo {
            dw_type: 0,
            info: RawDeviceInfo::Mouse(RawMouseInfo {
                dw_id: 1,
                dw_number_of_buttons: 3,
                dw_sample_rate: 0,
            }),
            iface: format!("\\\\?\\mouse{}", handle),
        }),
        iface: None,
        parents: Vec::new(),
        hid: None,
        ctrl: init_device_control(handle),
    }
}

fn digitizer_device(handle: u64, id: &str) -> WinDevice {
    WinDevice {
        handle,
        device_type: DeviceType::Digitizer,
        id: Some(id.to_string()),
        rawinput: None,
        iface: None,
        parents: Vec::new(),
        hid: None,
        ctrl: init_device_control(handle),
    }
}

fn fresh_eventloop() -> WinEventLoop {
    let (_tray, mouse_ctrl, _ui) = setup_reactors(
        Box::new(UINotifyNoop::default()),
        Box::new(UINotifyNoop::default()),
    );
    WinEventLoop::new(true, mouse_ctrl, 0)
}

#[test]
fn test_scan_and_inspect_scenario() {
    let mut ev = fresh_eventloop();
    let scan = vec![
        mouse_device(11, "mouse-one"),
        mouse_device(12, "mouse-two"),
        digitizer_device(13, "digitizer-one"),
    ];
    let listed = ev.scan_devices(0, Ok(scan)).unwrap();
    // Three descriptors, with distinct ids and correct classification; the
    // pseudo-device for unassociated events stays out of the listing.
    assert_eq!(listed.len(), 3);
    assert_eq!(listed[0].id, "mouse-one");
    assert_eq!(listed[1].id, "mouse-two");
    assert_eq!(listed[2].id, "digitizer-one");
    assert!(matches!(listed[0].device_type, DeviceType::Mouse));
    assert!(matches!(listed[1].device_type, DeviceType::Mouse));
    assert!(matches!(listed[2].device_type, DeviceType::Digitizer));

    // A raw event from mouse one, then an immediate status inspection.
    ev.processor
        .on_raw_input(11, Positioning::Relative, 5000, 0);
    let status = ev.build_devices_status(5050);
    assert_eq!(status.len(), 3);
    assert_eq!(status[0].0, "mouse-one");
    assert!(matches!(status[0].1, DeviceStatus::Active(_)));
    assert!(matches!(status[1].1, DeviceStatus::Idle));
    assert!(matches!(status[2].1, DeviceStatus::Idle));
}

#[test]
fn test_scan_failure_leaves_registry() {
    let mut ev = fresh_eventloop();
    let listed = ev
        .scan_devices(0, Ok(vec![mouse_device(11, "mouse-one")]))
        .unwrap();
    assert_eq!(listed.len(), 1);
    let failed = ev.scan_devices(5000, Err(Error::WinUnknown));
    assert!(matches!(failed, Err(Error::WinUnknown)));
    // Prior state is untouched.
    assert_eq!(ev.list_generic_devices().len(), 1);
}

#[test]
fn test_shortcut_conflict_error_kind() {
    // The host reports the shortcut as bound by another application: the
    // distinct conflict kind comes back, not the generic host error.
    let mut mgr: HotKeyManager<ShortcutID> = HotKeyManager::new();
    let r = WinEventLoop::apply_one_shortcut(
        &mut mgr,
        "Ctrl+Alt+F9",
        ShortcutID::CurMouseLock,
        Some(HostRegisterOutcome::Conflict),
    );
    match r {
        Err(Error::ShortcutConflict(s)) => {
            assert_eq!(s.display_string(), "Ctrl+Alt+F9");
        }
        other => panic!("expected a shortcut conflict, got {:?}", other),
    }
    // A generic failure keeps the host's error code.
    let r2 = WinEventLoop::apply_one_shortcut(
        &mut mgr,
        "Ctrl+Alt+F9",
        ShortcutID::CurMouseLock,
        Some(HostRegisterOutcome::Failed(5)),
    );
    assert!(matches!(r2, Err(Error::WinCore(5))));
    // An unparsable string is rejected as invalid syntax.
    let r3 = WinEventLoop::apply_one_shortcut(
        &mut mgr,
        "Ctrl+NotAKey",
        ShortcutID::CurMouseLock,
        None,
    );
    assert!(matches!(r3, Err(Error::InvalidShortcut(_))));
    // An empty string unbinds and succeeds.
    let r4 =
        WinEventLoop::apply_one_shortcut(&mut mgr, "", ShortcutID::CurMouseLock, None);
    assert!(r4.is_ok());
}

#[test]
fn test_hotkey_manager_bindings() {
    let mut mgr: HotKeyManager<ShortcutID> = HotKeyManager::new();
    mgr.register(1000, 77, ShortcutID::CurMouseLock);
    mgr.register(1001, 88, ShortcutID::CurMouseJumpNext);
    assert_eq!(mgr.get_callback(77), Some(&ShortcutID::CurMouseLock));
    assert_eq!(mgr.get_callback(88), Some(&ShortcutID::CurMouseJumpNext));
    // Re-registration drops the prior handle.
    mgr.register(1000, 99, ShortcutID::CurMouseLock);
    assert_eq!(mgr.get_callback(77), None);
    assert_eq!(mgr.get_callback(99), Some(&ShortcutID::CurMouseLock));
    assert_eq!(mgr.unregister(1000), Some(99));
    assert_eq!(mgr.get_callback(99), None);
    assert_eq!(mgr.unregister(1000), None);
}

#[test]
fn test_tick_widening_monotonic_with_wraparound() {
    let mut tw = TickWiden::new(0);
    // Narrow ticks approach the wrap, wrap around, and continue; the wide
    // counter the host reports moves on to the next epoch.
    let inputs: Vec<(u32, u64)> = vec![
        (100, 0),
        (4294967000, 0),
        (4294967295, 0),
        (5, 4294967300),
        (500, 4294967800),
        (400, 4294967700),
    ];
    let mut last = 0u64;
    for (t, now64) in inputs {
        let w = tw.widen(t, now64);
        assert!(w >= last);
        last = w;
    }
}

#[test]
fn test_tick_widening_values() {
    let mut tw = TickWiden::new(0);
    assert_eq!(tw.widen(100, 0), 100);
    assert_eq!(tw.widen(2000, 0), 2000);
    // Wraparound: the epoch offset is re-synchronised from the wide counter.
    assert_eq!(tw.widen(5, 4294967300), 4294967295 + 5);
}

#[test]
fn test_merge_unassociated_event() {
    let mut ev = fresh_eventloop();
    ev.scan_devices(0, Ok(vec![mouse_device(11, "mouse-one")]))
        .unwrap();
    // Attribute an event to the mouse, then an unattributed one right after:
    // it merges into the mouse instead of the pseudo-device.
    ev.processor
        .on_raw_input(11, Positioning::Relative, 1000, 0);
    ev.processor.on_raw_input(0, Positioning::Unknown, 1003, 0);
    let dev = &ev.processor.devices.devs[0];
    assert_eq!(dev.ctrl.get_last_pos().unwrap().0, 1003);
    // An unattributed event far outside the window goes to the pseudo-device.
    ev.processor.on_raw_input(0, Positioning::Unknown, 2000, 0);
    let pseudo = &ev.processor.devices.devs[1];
    assert_eq!(pseudo.handle, 0);
    assert_eq!(pseudo.ctrl.get_last_pos().unwrap().0, 2000);
}

#[test]
fn test_unknown_handle_requests_rescan() {
    let mut ev = fresh_eventloop();
    ev.scan_devices(0, Ok(vec![mouse_device(11, "mouse-one")]))
        .unwrap();
    assert!(!ev.processor.to_update_devices);
    ev.processor
        .on_raw_input(999, Positioning::Relative, 1000, 0);
    let (need_devices, _need_monitors) = ev.processor.resolve_pending_updating_task();
    assert!(need_devices);
}

#[test]
fn test_apply_settings_replay_after_rescan() {
    let mut ev = fresh_eventloop();
    let settings = ProcessorSettings {
        merge_unassociated_events_ms: 5,
        devices: vec![DeviceSettingItem {
            id: "mouse-one".to_string(),
            content: DeviceSetting {
                locked_in_monitor: true,
                switch: true,
            },
        }],
        shortcuts: Default::default(),
    };
    let r = ev.apply_new_settings(settings, None, None);
    assert!(r.is_ok());
    // A later rescan replays the stored policy onto the new registry.
    ev.scan_devices(0, Ok(vec![mouse_device(11, "mouse-one")]))
        .unwrap();
    let dev = &ev.processor.devices.devs[0];
    assert!(dev.ctrl.setting.locked_in_monitor);
    assert!(dev.ctrl.setting.switch);
}

#[test]
fn test_poll_messages_exit_and_mouse_events() {
    let (_tray, mouse_ctrl, ui) = setup_reactors(
        Box::new(UINotifyNoop::default()),
        Box::new(UINotifyNoop::default()),
    );
    let mut ev = WinEventLoop::new(true, mouse_ctrl, 0);
    ui.mouse_control_tx
        .send(Message::SysMouseEvent(monmouse::message::SysMouseEvent {
            pos_x: 42,
            pos_y: 17,
        }));
    ui.mouse_control_tx.send(Message::Exit);
    let outcome = ev.poll_messages(0, 20);
    assert!(matches!(outcome, PollOutcome::Exited));
    assert_eq!(
        ev.processor.relocator.cur_pos,
        monmouse::mouse_control::MousePos::from(42, 17)
    );
    // Drained channel reads as idle.
    assert!(matches!(ev.poll_messages(0, 20), PollOutcome::Idle));
}

#[test]
fn test_device_controller_wrapping() {
    let c = DeviceController::new(5, DeviceSetting::default());
    assert_eq!(c.id, 5);
    assert!(c.locked_area.is_none());
}

#[test]
fn test_handle_wm_message_dispatch() {
    let mut ev = fresh_eventloop();
    ev.scan_devices(0, Ok(vec![mouse_device(11, "mouse-one")]))
        .unwrap();
    assert!(!ev.processor.to_update_devices);
    let r = ev.handle_wm_message(monmouse::processor::HostWindowEvent::InputDeviceChange, 0);
    assert!(r.is_none());
    assert!(ev.processor.to_update_devices);
    let r = ev.handle_wm_message(monmouse::processor::HostWindowEvent::DisplayChange, 0);
    assert!(r.is_none());
    assert!(ev.processor.to_update_monitors);
    let r = ev.handle_wm_message(
        monmouse::processor::HostWindowEvent::RawInput {
            handle: 11,
            positioning: Positioning::Relative,
            tick: 100,
        },
        0,
    );
    assert!(r.is_none());
    assert_eq!(
        ev.processor.devices.devs[0].ctrl.get_last_pos().unwrap().0,
        100
    );
    // An unbound hotkey handle changes nothing and stages nothing.
    let r = ev.handle_wm_message(monmouse::processor::HostWindowEvent::Hotkey(123), 0);
    assert!(r.is_none());
}

#[test]
fn test_jump_hotkey_relocates() {
    let mut ev = fresh_eventloop();
    ev.processor
        .try_update_monitors(
            true,
            0,
            Ok(vec![
                monmouse::host::MonitorInfo {
                    handle: 1,
                    left: 0,
                    top: 0,
                    right: 1000,
                    bottom: 1000,
                    scale: 100,
                },
                monmouse::host::MonitorInfo {
                    handle: 2,
                    left: 1000,
                    top: 0,
                    right: 2000,
                    bottom: 1000,
                    scale: 100,
                },
            ]),
        )
        .unwrap();
    ev.hotkey_mgr.register(1001, 88, ShortcutID::CurMouseJumpNext);
    ev.processor
        .on_mouse_event(&monmouse::message::SysMouseEvent { pos_x: 500, pos_y: 500 });
    let r = ev.handle_wm_message(monmouse::processor::HostWindowEvent::Hotkey(88), 0);
    // The cursor jumps to the center of the next monitor.
    assert_eq!(r, Some(monmouse::mouse_control::MousePos::from(1500, 500)));
}

#[test]
fn test_register_shortcuts_error_precedence() {
    let mut ev = fresh_eventloop();
    let settings = ProcessorSettings {
        merge_unassociated_events_ms: 5,
        devices: Vec::new(),
        shortcuts: monmouse::setting::ShortcutSettings {
            cur_mouse_lock: "Ctrl+L".to_string(),
            cur_mouse_jump_next: "Ctrl+J".to_string(),
        },
    };
    // Both bindings fail: the jump binding's error is the one reported.
    let r = ev.apply_new_settings(
        settings,
        Some(HostRegisterOutcome::Failed(7)),
        Some(HostRegisterOutcome::Conflict),
    );
    match r {
        Err(Error::ShortcutConflict(s)) => assert_eq!(s.display_string(), "Ctrl+J"),
        other => panic!("expected the jump binding's conflict, got {:?}", other),
    }
    // Both succeeding acknowledges, and both callbacks dispatch.
    let settings = ProcessorSettings {
        merge_unassociated_events_ms: 5,
        devices: Vec::new(),
        shortcuts: monmouse::setting::ShortcutSettings {
            cur_mouse_lock: "Ctrl+L".to_string(),
            cur_mouse_jump_next: "Ctrl+J".to_string(),
        },
    };
    let r = ev.apply_new_settings(
        settings,
        Some(HostRegisterOutcome::Registered(70)),
        Some(HostRegisterOutcome::Registered(71)),
    );
    assert!(r.is_ok());
    assert_eq!(
        ev.hotkey_mgr.get_callback(70),
        Some(&ShortcutID::CurMouseLock)
    );
    assert_eq!(
        ev.hotkey_mgr.get_callback(71),
        Some(&ShortcutID::CurMouseJumpNext)
    );
}

#[test]
fn test_assemble_and_filter_devices() {
    let raw = RawinputInfo {
        dw_type: 0,
        info: RawDeviceInfo::Mouse(RawMouseInfo {
            dw_id: 1,
            dw_number_of_buttons: 3,
            dw_sample_rate: 0,
        }),
        iface: "\\\\?\\mouse21".to_string(),
    };
    let iface = monmouse::host::DeviceIfaceInfo {
        instance_id: "HID\\mouse-one".to_string(),
        name: monmouse::host::WStringOption::NoValue,
        service: monmouse::host::WStringOption::NoValue,
        class: monmouse::host::WStringOption::NoValue,
        manufacurer: monmouse::host::WStringOption::NoValue,
    };
    let mouse = monmouse::processor::assemble_device(
        21,
        monmouse::processor::get_device_type(&raw),
        raw.clone(),
        Ok(iface),
        Err(Error::WinUnknown),
        None,
    );
    // The identity is the interface instance id; a failed parent walk leaves
    // the parents empty.
    assert_eq!(mouse.id.as_deref(), Some("HID\\mouse-one"));
    assert!(mouse.parents.is_empty());
    assert!(matches!(mouse.device_type, DeviceType::Mouse));
    // A keyboard entry, and one whose interface lookup failed.
    let keyboard = monmouse::processor::assemble_device(
        22,
        DeviceType::Keyboard,
        RawinputInfo {
            dw_type: 1,
            info: RawDeviceInfo::Keyboard,
            iface: "\\\\?\\kbd22".to_string(),
        },
        Err(Error::WinUnknown),
        Ok(Vec::new()),
        None,
    );
    assert!(keyboard.id.is_none());
    let kept = monmouse::processor::filter_pointer_devices(vec![mouse, keyboard]);
    assert_eq!(kept.len(), 1);
    assert_eq!(kept[0].handle, 21);
}

#[test]
fn test_product_name_trimmed() {
    let mut dev = mouse_device(31, "mouse-three");
    dev.hid = Some(monmouse::host::HidDeviceInfo {
        serial_number: monmouse::host::WStringOption::NoValue,
        manufacturer: monmouse::host::WStringOption::Value("Contoso".to_string()),
        product: monmouse::host::WStringOption::Value("Rodent".to_string()),
    });
    let g = WinEventLoop::win_device_to_generic(&dev);
    assert_eq!(g.product_name, "Contoso Rodent");
}

#[test]
fn test_handle_message_step() {
    let mut ev = fresh_eventloop();
    ev.scan_devices(0, Ok(vec![mouse_device(11, "mouse-one")]))
        .unwrap();
    ev.processor
        .on_raw_input(11, Positioning::Relative, 100, 0);
    // A position report feeds the relocation engine and yields no outcome.
    let r = ev.handle_message(
        Message::SysMouseEvent(monmouse::message::SysMouseEvent {
            pos_x: 7,
            pos_y: 9,
        }),
        0,
    );
    assert!(r.is_none());
    assert_eq!(
        ev.processor.relocator.cur_pos,
        monmouse::mouse_control::MousePos::from(7, 9)
    );
    // A one-device setting applies to the registry.
    let r = ev.handle_message(
        Message::ApplyOneDeviceSetting(monmouse::message::SendData::new(DeviceSettingItem {
            id: "mouse-one".to_string(),
            content: DeviceSetting {
                locked_in_monitor: true,
                switch: false,
            },
        })),
        0,
    );
    assert!(r.is_none());
    assert!(ev.processor.devices.devs[0].ctrl.setting.locked_in_monitor);
    // An exit request comes straight back.
    assert!(matches!(
        ev.handle_message(Message::Exit, 0),
        Some(PollOutcome::Exited)
    ));
    // A message this loop does not serve comes back for the embedding.
    assert!(matches!(
        ev.handle_message(Message::RestartUI, 0),
        Some(PollOutcome::UnexpectedMessage(Message::RestartUI))
    ));
}
