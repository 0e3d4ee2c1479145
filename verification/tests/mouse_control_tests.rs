use monmouse::mouse_control::DeviceController;
use monmouse::mouse_control::MonitorArea;
use monmouse::mouse_control::MonitorAreasList;
use monmouse::mouse_control::MousePos;
use monmouse::mouse_control::MouseRelocator;
use monmouse::mouse_control::RelocatePos;
use monmouse::setting::DeviceSetting;

fn area(l: i32, t: i32, r: i32, b: i32) -> MonitorArea {
    MonitorArea {
        lefttop: MousePos::from(l, t),
        rigtbtm: MousePos::from(r, b),
    }
}

#[test]
fn test_monitor_area_capture_pos() {
    let pt = MousePos::from;
    let m = MonitorArea {
        lefttop: pt(-100, 500),
        rigtbtm: pt(300, 1500),
    };
    // The clamp reserves one pixel on the right and bottom edges.
    assert_eq!(m.capture_pos(&pt(50, 700)), pt(50, 700));
    assert_eq!(m.capture_pos(&pt(-150, 1500)), pt(-100, 1499));
    assert_eq!(m.capture_pos(&pt(350, 500)), pt(299, 500));
    assert_eq!(m.capture_pos(&pt(-100, 490)), pt(-100, 500));
    assert_eq!(m.capture_pos(&pt(300, 3000)), pt(299, 1499));
    assert_eq!(m.capture_pos(&pt(-120, 1300)), pt(-100, 1300));
    assert_eq!(m.capture_pos(&pt(-200, 1800)), pt(-100, 1499));
}

#[test]
fn test_capture_pos_idempotent_concrete() {
    let m = area(-100, 500, 300, 1500);
    let points = [
        MousePos::from(-150, 1800),
        MousePos::from(350, 400),
        MousePos::from(0, 0),
        MousePos::from(299, 1499),
    ];
    for p in points.iter() {
        let once = m.capture_pos(p);
        let twice = m.capture_pos(&once);
        assert_eq!(once, twice);
    }
}

#[test]
fn test_capture_pos_contained_concrete() {
    let m = area(-100, 500, 300, 1500);
    let points = [
        MousePos::from(-2000, 10000),
        MousePos::from(2000, -10000),
        MousePos::from(100, 900),
    ];
    for p in points.iter() {
        let c = m.capture_pos(p);
        assert!(m.contains(&c));
        // Inset-adjusted: a clamped point stays off the right/bottom edges.
        assert!(c.x <= 299 && c.y <= 1499);
    }
}

#[test]
fn test_center() {
    let m = area(0, 0, 1000, 1000);
    assert_eq!(m.center(), MousePos::from(500, 500));
    let m2 = area(-101, -7, 100, 8);
    assert_eq!(m2.center(), MousePos::from(0, 0));
}

#[test]
fn test_locate_first_match_and_ids() {
    let list = MonitorAreasList::from(vec![
        area(0, 0, 1000, 1000),
        area(1000, 0, 2000, 1000),
        area(2000, 0, 3000, 1000),
    ]);
    assert!(!list.is_empty());
    assert_eq!(list.locate_id(&MousePos::from(500, 500)), Some(0));
    assert_eq!(list.locate_id(&MousePos::from(1500, 500)), Some(1));
    // A boundary point belongs to the first area containing it.
    assert_eq!(list.locate_id(&MousePos::from(1000, 500)), Some(0));
    assert_eq!(list.locate_id(&MousePos::from(5000, 500)), None);
    assert_eq!(list.next_id(0), 1);
    assert_eq!(list.next_id(2), 0);
    // A stale id resolves modulo the current length.
    assert_eq!(list.next_id(7), 2);
    let a = list.get_area(4).unwrap();
    assert_eq!(*a, area(1000, 0, 2000, 1000));
}

#[test]
fn test_update_settings_invalidates_lock() {
    let mut c = DeviceController::new(
        7,
        DeviceSetting {
            locked_in_monitor: true,
            switch: false,
        },
    );
    c.locked_area = Some(area(0, 0, 1000, 1000));
    c.update_settings(&DeviceSetting {
        locked_in_monitor: true,
        switch: true,
    });
    assert!(c.locked_area.is_none());
    // The same holds when the new policy turns locking off.
    c.locked_area = Some(area(0, 0, 1000, 1000));
    c.update_settings(&DeviceSetting {
        locked_in_monitor: false,
        switch: false,
    });
    assert!(c.locked_area.is_none());
}

#[test]
fn test_controller_history() {
    let mut c = DeviceController::new(1, DeviceSetting::default());
    assert!(c.get_last_pos().is_none());
    c.reset();
    assert!(c.get_last_pos().is_none());
}

#[test]
fn test_first_lock_caches_without_relocation() {
    let mut r = MouseRelocator::new();
    r.update_monitors(MonitorAreasList::from(vec![
        area(0, 0, 1000, 1000),
        area(1000, 0, 2000, 1000),
    ]));
    let mut c = DeviceController::new(
        3,
        DeviceSetting {
            locked_in_monitor: true,
            switch: false,
        },
    );
    // First report after acquiring the lock policy: inside a known monitor.
    r.on_pos_update(Some(&mut c), MousePos::from(500, 500));
    assert_eq!(c.locked_area, Some(area(0, 0, 1000, 1000)));
    assert!(r.pop_relocate_pos().is_none());
    assert!(!r.pop_need_update_monitors());
}

#[test]
fn test_first_lock_outside_marks_stale() {
    let mut r = MouseRelocator::new();
    r.update_monitors(MonitorAreasList::from(vec![area(0, 0, 1000, 1000)]));
    let mut c = DeviceController::new(
        3,
        DeviceSetting {
            locked_in_monitor: true,
            switch: false,
        },
    );
    // First report lands in no-man's-land: never a relocation, only the
    // stale-topology signal.
    r.on_pos_update(Some(&mut c), MousePos::from(5000, 500));
    assert!(c.locked_area.is_none());
    assert!(r.pop_relocate_pos().is_none());
    assert!(r.pop_need_update_monitors());
    // The signal is a one-shot.
    assert!(!r.pop_need_update_monitors());
}

#[test]
fn test_locked_clamp_scenario() {
    // Two monitors side by side; the device is locked into the left one.
    let mut r = MouseRelocator::new();
    r.update_monitors(MonitorAreasList::from(vec![
        area(0, 0, 1000, 1000),
        area(1000, 0, 2000, 1000),
    ]));
    let mut c = DeviceController::new(
        3,
        DeviceSetting {
            locked_in_monitor: true,
            switch: false,
        },
    );
    r.on_pos_update(Some(&mut c), MousePos::from(500, 500));
    assert_eq!(c.locked_area, Some(area(0, 0, 1000, 1000)));
    assert!(r.pop_relocate_pos().is_none());
    // One raw step out of the locked monitor: clamped back, inset-adjusted.
    r.on_pos_update(Some(&mut c), MousePos::from(1200, 500));
    let staged = r.pop_relocate_pos().unwrap();
    assert_eq!(staged, RelocatePos(MousePos::from(999, 500)));
    assert_eq!(r.cur_pos, MousePos::from(999, 500));
    // A report at the staged position is adopted unchanged.
    r.on_pos_update(Some(&mut c), MousePos::from(999, 500));
    assert!(r.pop_relocate_pos().is_none());
}

#[test]
fn test_unlocked_adopts_position() {
    let mut r = MouseRelocator::new();
    let mut c = DeviceController::new(3, DeviceSetting::default());
    r.on_pos_update(Some(&mut c), MousePos::from(42, 17));
    assert_eq!(r.cur_pos, MousePos::from(42, 17));
    r.on_pos_update(None, MousePos::from(1, 2));
    assert_eq!(r.cur_pos, MousePos::from(1, 2));
    assert!(r.pop_relocate_pos().is_none());
}

#[test]
fn test_switch_remember_round_trip() {
    let mut r = MouseRelocator::new();
    let switch_on = DeviceSetting {
        locked_in_monitor: false,
        switch: true,
    };
    let mut d = DeviceController::new(1, switch_on);
    let mut e = DeviceController::new(2, DeviceSetting::default());
    // Device D becomes active at position P.
    r.on_pos_update(Some(&mut d), MousePos::from(700, 800));
    r.on_mouse_update(&mut d, 100);
    assert_eq!(d.get_last_pos().unwrap().1, MousePos::from(700, 800));
    let _ = r.pop_relocate_pos();
    // Switch away to device E at another position.
    r.on_pos_update(Some(&mut e), MousePos::from(10, 20));
    r.on_mouse_update(&mut e, 200);
    let _ = r.pop_relocate_pos();
    // Switch back to D: a relocation to exactly P is staged.
    r.on_mouse_update(&mut d, 300);
    let staged = r.pop_relocate_pos().unwrap();
    assert_eq!(staged, RelocatePos(MousePos::from(700, 800)));
    assert_eq!(r.cur_pos, MousePos::from(700, 800));
}

#[test]
fn test_circular_jump_returns_to_start() {
    let mut r = MouseRelocator::new();
    r.update_monitors(MonitorAreasList::from(vec![
        area(0, 0, 1000, 1000),
        area(1000, 0, 2000, 1000),
        area(2000, 0, 3000, 1000),
    ]));
    let mut c = DeviceController::new(1, DeviceSetting::default());
    r.on_pos_update(Some(&mut c), MousePos::from(500, 500));
    let start = r
        .monitors
        .locate_id(&r.cur_pos.clone())
        .expect("start position is on a monitor");
    for _ in 0..3 {
        r.jump_to_next_monitor(Some(&mut c));
    }
    let end = r.monitors.locate_id(&r.cur_pos.clone()).unwrap();
    assert_eq!(start, end);
    // The remembered departure position is restored exactly.
    assert_eq!(r.cur_pos, MousePos::from(500, 500));
}

#[test]
fn test_jump_clears_lock_region() {
    let mut r = MouseRelocator::new();
    r.update_monitors(MonitorAreasList::from(vec![
        area(0, 0, 1000, 1000),
        area(1000, 0, 2000, 1000),
    ]));
    let mut c = DeviceController::new(
        1,
        DeviceSetting {
            locked_in_monitor: true,
            switch: false,
        },
    );
    r.on_pos_update(Some(&mut c), MousePos::from(500, 500));
    assert!(c.locked_area.is_some());
    r.jump_to_next_monitor(Some(&mut c));
    assert!(c.locked_area.is_none());
    // Landing on a never-visited monitor goes to its center.
    assert_eq!(r.cur_pos, MousePos::from(1500, 500));
    assert_eq!(
        r.pop_relocate_pos().unwrap(),
        RelocatePos(MousePos::from(1500, 500))
    );
}

#[test]
fn test_jump_on_empty_topology_is_noop() {
    let mut r = MouseRelocator::new();
    r.jump_to_next_monitor(None);
    assert!(r.pop_relocate_pos().is_none());
}

#[test]
fn test_jump_memory_without_controller() {
    let mut r = MouseRelocator::new();
    r.update_monitors(MonitorAreasList::from(vec![
        area(0, 0, 1000, 1000),
        area(1000, 0, 2000, 1000),
    ]));
    // Visit the second monitor with a controller and come back, leaving a
    // remembered position for it.
    let mut c = DeviceController::new(1, DeviceSetting::default());
    r.on_pos_update(Some(&mut c), MousePos::from(1200, 300));
    r.jump_to_next_monitor(Some(&mut c));
    let _ = r.pop_relocate_pos();
    // Now jump with no active controller: the remembered position is used.
    r.jump_to_next_monitor(None);
    assert_eq!(
        r.pop_relocate_pos().unwrap(),
        RelocatePos(MousePos::from(1200, 300))
    );
    assert_eq!(r.cur_pos, MousePos::from(1200, 300));
}
