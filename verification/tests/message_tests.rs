use monmouse::device_type::DeviceType;
use monmouse::errors::Error;
use monmouse::message::signal;
use monmouse::message::timer_step;
use monmouse::message::TimerOperation;
use monmouse::message::TimerStep;
use monmouse::message::GenericDevice;
use monmouse::message::Message;
use monmouse::message::RoundtripData;
use monmouse::message::SendData;
use monmouse::message::TimerDueKind;
use monmouse::message::UINotifyNoop;
use monmouse::message::setup_reactors;
use monmouse::setting::DeviceSetting;
use monmouse::setting::DeviceSettingItem;
use monmouse::setting::ProcessorSettings;
use monmouse::setting::Settings;
use monmouse::strutil::fmt_hex_u16;
use monmouse::strutil::fmt_i32;
use monmouse::strutil::fmt_u32;
use monmouse::strutil::fmt_u64;
use monmouse::strutil::str_eq;
use monmouse::utils::ArrayVec;
use monmouse::utils::SimpleRatelimit;

#[test]
fn test_send_data_single_consumption() {
    let mut d = SendData::new(41);
    assert_eq!(d.take(), 41);
    // A second take reports the consumed payload instead of yielding one.
    assert_eq!(d.try_take(), None);
}

#[test]
fn test_roundtrip_data_flow() {
    let mut d: RoundtripData<u32, u32> = RoundtripData::new(7);
    assert!(d.has_req());
    assert_eq!(*d.req(), 7);
    // The response slot starts with the sentinel error.
    assert!(matches!(d.result(), Err(e) if matches!(e, Error::MessageInited)));
    assert_eq!(d.take_req(), 7);
    assert!(!d.has_req());
    d.set_ok(99);
    assert_eq!(d.result().unwrap(), &99);
    d.set_error(Error::WinUnknown);
    assert!(matches!(d.result(), Err(e) if matches!(e, Error::WinUnknown)));
    d.set_result(Ok(3));
    assert_eq!(d.take_rsp().unwrap(), 3);
}

#[test]
fn test_generic_device_id_only() {
    let g = GenericDevice::id_only("dev".to_string());
    assert_eq!(g.id, "dev");
    assert_eq!(g.product_name, "dev");
    assert!(matches!(g.device_type, DeviceType::Unknown));
    assert!(g.platform_specific_infos.is_empty());
}

#[test]
fn test_signal_line() {
    let (tx, rx) = signal();
    assert_eq!(rx.check(), None);
    tx.send();
    assert_eq!(rx.check(), Some(true));
    assert_eq!(rx.check(), None);
    drop(tx);
    assert_eq!(rx.check(), Some(false));
}

#[test]
fn test_reactor_channels_roundtrip() {
    let (tray, mouse_ctrl, _ui) = setup_reactors(
        Box::new(UINotifyNoop::default()),
        Box::new(UINotifyNoop::default()),
    );
    tray.mouse_control_tx
        .send(Message::TimerDue(TimerDueKind::InspectDevice));
    let got = mouse_ctrl.mouse_control_rx.try_recv();
    assert!(matches!(
        got,
        Some(Message::TimerDue(TimerDueKind::InspectDevice))
    ));
    assert!(mouse_ctrl.mouse_control_rx.try_recv().is_none());
    // A hung-up channel reads as an exit request: drop every sender feeding
    // the control surface's inbox, then read it.
    let ui = _ui;
    let ui_rx = ui.ui_rx;
    drop(ui.ui_tx);
    drop(ui.mouse_control_tx);
    drop(tray);
    drop(mouse_ctrl);
    let got = ui_rx.recv_timeout(50);
    assert!(matches!(got, Some(Message::Exit)));
}

#[test]
fn test_settings_store() {
    let mut s = ProcessorSettings::default();
    assert_eq!(s.merge_unassociated_events_ms, 5);
    assert_eq!(s.get_device("a"), None);
    assert!(!s.mut_device(
        "a",
        DeviceSetting {
            locked_in_monitor: true,
            switch: false,
        }
    ));
    s.ensure_mut_device(
        "a",
        DeviceSetting {
            locked_in_monitor: true,
            switch: false,
        },
    );
    assert_eq!(
        s.get_device("a"),
        Some(DeviceSetting {
            locked_in_monitor: true,
            switch: false,
        })
    );
    // The stored entry is replaced in place, not duplicated.
    s.ensure_mut_device(
        "a",
        DeviceSetting {
            locked_in_monitor: false,
            switch: true,
        },
    );
    assert_eq!(s.devices.len(), 1);
    assert_eq!(
        s.get_device("a"),
        Some(DeviceSetting {
            locked_in_monitor: false,
            switch: true,
        })
    );
    let item = DeviceSettingItem {
        id: "a".to_string(),
        content: DeviceSetting::default(),
    };
    assert!(!item.content.is_effective());
    let whole = Settings::default();
    assert_eq!(whole.ui.inspect_device_interval_ms, 100);
}

#[test]
fn test_ratelimit_window() {
    let mut rl = SimpleRatelimit::new(1000, None);
    let (allowed, wait) = rl.allow(0);
    assert!(allowed);
    assert_eq!(wait, 1000);
    let (allowed, wait) = rl.allow(400);
    assert!(!allowed);
    assert_eq!(wait, 600);
    let (allowed, _) = rl.allow(1000);
    assert!(allowed);
    // Re-basing to a new interval keeps the phase.
    rl.reset(50);
    let (allowed, _) = rl.allow(1050);
    assert!(allowed);
}

#[test]
fn test_number_formatting() {
    assert_eq!(fmt_u64(0), "0");
    assert_eq!(fmt_u64(9070), "9070");
    assert_eq!(fmt_u32(4294967295), "4294967295");
    assert_eq!(fmt_i32(-250), "-250");
    assert_eq!(fmt_i32(i32::MIN), "-2147483648");
    assert_eq!(monmouse::strutil::fmt_i64(i64::MIN), "-9223372036854775808");
    assert_eq!(fmt_u64(u64::MAX), "18446744073709551615");
    assert_eq!(fmt_hex_u16(0x0D), "0xD");
    assert_eq!(fmt_hex_u16(0xFF00), "0xFF00");
}

#[test]
fn test_str_eq_compares_contents() {
    let a = String::from("abc");
    assert!(str_eq(a.as_str(), "abc"));
    assert!(!str_eq(a.as_str(), "abd"));
    assert!(!str_eq(a.as_str(), "ab"));
}

#[test]
fn test_device_type_classification() {
    assert!(matches!(
        DeviceType::from_hid_usage(0x01, 0x02),
        DeviceType::Mouse
    ));
    assert!(matches!(
        DeviceType::from_hid_usage(0x0D, 0x01),
        DeviceType::Digitizer
    ));
    assert!(matches!(
        DeviceType::from_hid_usage(0xFF12, 0x01),
        DeviceType::VendorDefined
    ));
    assert!(matches!(
        DeviceType::from_hid_usage(0x01, 0x99),
        DeviceType::OtherGenericDesktop
    ));
    assert!(matches!(
        DeviceType::from_hid_usage(0x05, 0x01),
        DeviceType::UnknownHID
    ));
    assert!(DeviceType::Mouse.is_pointer());
    assert!(DeviceType::TouchPad.is_pointer());
    assert!(!DeviceType::Keyboard.is_pointer());
}

#[test]
fn test_array_vec_to_vec() {
    let av: ArrayVec<u8, 4> = ArrayVec::default();
    let v = av.to_vec();
    assert_eq!(v.len(), 4);
    assert!(v.iter().all(|x| x.is_none()));
}

#[test]
fn test_timer_step_decisions() {
    assert_eq!(
        timer_step(Some(TimerOperation::ResetInterval(50)), false, 100),
        TimerStep::Drain(50)
    );
    assert_eq!(timer_step(None, true, 100), TimerStep::Stop);
    assert_eq!(timer_step(None, false, 100), TimerStep::Sleep(100));
}
