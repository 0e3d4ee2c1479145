use vstd::prelude::*;

use crate::device_type::DeviceType;
use crate::errors::Error;
use crate::host::{
    DeviceIfaceInfo, HidDeviceInfo, HotKeyManager, MonitorInfo, RawDeviceInfo, RawDeviceType,
    RawinputInfo, TickWiden, MOUSE_EVENT_ACTIVE_LAST_FOR_MS, RATELIMIT_UPDATE_DEVICE_ONCE_MS,
    RATELIMIT_UPDATE_MONITOR_ONCE_MS,
};
use crate::message::{ApplyProcessorSettingsCtx, ApplyProcessorSettingsData, DeviceStatus,
    GenericDevice, Message, MouseControlReactor, Positioning, RoundtripData, ShortcutID,
    SysMouseEvent};
use crate::mouse_control::{DeviceController, MonitorArea, MonitorAreasList, MousePos,
    MouseRelocator};
use crate::setting::{DeviceSetting, DeviceSettingItem, ProcessorSettings};
use crate::strutil::str_eq;
use crate::utils::{sat_add_u64, saturating_add_u64, SimpleRatelimit};

verus! {

/// One known device: the host's handle, its classification, its identity and
/// descriptive properties, and its tracking controller.
#[derive(Debug)]
pub struct WinDevice {
    pub handle: u64,
    pub device_type: DeviceType,
    pub id: Option<String>,
    pub rawinput: Option<RawinputInfo>,
    pub iface: Option<DeviceIfaceInfo>,
    pub parents: Vec<String>,
    pub hid: Option<HidDeviceInfo>,
    pub ctrl: DeviceController,
}

impl WinDevice {
    pub open spec fn wf(self) -> bool {
        self.ctrl.wf()
    }
}

/// A fresh controller for a newly discovered device.
pub fn init_device_control(handle: u64) -> (r: DeviceController)
    ensures
        r == DeviceController::new_spec(handle),
        r.wf(),
{
    DeviceController::new(handle, DeviceSetting { locked_in_monitor: false, switch: false })
}

/// The pseudo-device standing for host input events that carry no device
/// identity. It has no id of its own, so it never appears in device listings.
pub fn unassociated_events_capture_device() -> (r: WinDevice)
    ensures
        r.handle == 0,
        r.id is None,
        r.device_type == DeviceType::Dummy,
        r.rawinput is None,
        r.iface is None,
        r.parents@.len() == 0,
        r.hid is None,
        r.ctrl == DeviceController::new_spec(0),
        r.wf(),
{
    WinDevice {
        handle: 0,
        id: None,
        device_type: DeviceType::Dummy,
        rawinput: None,
        iface: None,
        parents: Vec::new(),
        hid: None,
        ctrl: init_device_control(0),
    }
}

pub open spec fn device_type_of(info: RawDeviceInfo) -> DeviceType {
    match info {
        RawDeviceInfo::Mouse(_) => DeviceType::Mouse,
        RawDeviceInfo::Keyboard => DeviceType::Keyboard,
        RawDeviceInfo::Hid(h) => DeviceType::from_hid_usage_spec(h.us_usage_page, h.us_usage),
        RawDeviceInfo::Unknown => DeviceType::Unknown,
    }
}

/// Classifies a raw-input entry into this crate's device taxonomy.
pub fn get_device_type(rawinput: &RawinputInfo) -> (r: DeviceType)
    requires
        rawinput.wf(),
    ensures
        r == device_type_of(rawinput.info),
{
    match rawinput.typ() {
        RawDeviceType::MOUSE => DeviceType::Mouse,
        RawDeviceType::KEYBOARD => DeviceType::Keyboard,
        RawDeviceType::HID => match &rawinput.info {
            RawDeviceInfo::Hid(h) => DeviceType::from_hid_usage(h.us_usage_page, h.us_usage),
            _ => DeviceType::Unknown,
        },
        RawDeviceType::UNKNOWN => DeviceType::Unknown,
    }
}

/// The first position in `s`, at or after `i`, of a device with the given
/// host handle.
pub open spec fn find_handle_from(s: Seq<WinDevice>, handle: u64, i: int) -> Option<int>
    decreases s.len() - i,
{
    if i < 0 || i >= s.len() {
        None
    } else if s[i].handle == handle {
        Some(i)
    } else {
        find_handle_from(s, handle, i + 1)
    }
}

proof fn lemma_find_handle_step(s: Seq<WinDevice>, handle: u64, i: int)
    requires
        0 <= i < s.len(),
        s[i].handle != handle,
    ensures
        find_handle_from(s, handle, i) == find_handle_from(s, handle, i + 1),
{
}

/// The first position in `s`, at or after `i`, of a device whose id is the
/// given string.
pub open spec fn find_dev_id_from(s: Seq<WinDevice>, id: Seq<char>, i: int) -> Option<int>
    decreases s.len() - i,
{
    if i < 0 || i >= s.len() {
        None
    } else if s[i].id matches Some(d) && d@ == id {
        Some(i)
    } else {
        find_dev_id_from(s, id, i + 1)
    }
}

proof fn lemma_find_dev_id_step(s: Seq<WinDevice>, id: Seq<char>, i: int)
    requires
        0 <= i < s.len(),
        !(s[i].id matches Some(d) && d@ == id),
    ensures
        find_dev_id_from(s, id, i) == find_dev_id_from(s, id, i + 1),
{
}

/// The device registry: all known devices and which of them, if any, is the
/// active one. Rebuilt wholesale on every device rescan.
pub struct WinDeviceSet {
    pub devs: Vec<WinDevice>,
    pub active_id: Option<usize>,
}

impl WinDeviceSet {
    pub open spec fn wf(self) -> bool {
        &&& (self.active_id matches Some(i) ==> i < self.devs@.len())
        &&& (forall|i: int| 0 <= i < self.devs@.len() ==> (#[trigger] self.devs@[i]).wf())
    }

    pub fn new() -> (r: WinDeviceSet)
        ensures
            r.devs@.len() == 0,
            r.active_id is None,
            r.wf(),
    {
        WinDeviceSet { devs: Vec::new(), active_id: None }
    }

    /// The active device, resolved for an event on the given handle: the
    /// current active device when its handle matches, else the first device
    /// with that handle.
    pub open spec fn resolved_index(self, handle: u64) -> Option<int> {
        match self.active_id {
            Some(i) => if i < self.devs@.len() && self.devs@[i as int].handle == handle {
                Some(i as int)
            } else {
                find_handle_from(self.devs@, handle, 0)
            },
            None => find_handle_from(self.devs@, handle, 0),
        }
    }

    /// Re-resolves the active device against an event's handle; when no known
    /// device carries the handle, the active device becomes stale.
    pub fn get_and_update_active(&mut self, handle: u64) -> (r: Option<usize>)
        requires
            old(self).wf(),
        ensures
            final(self).devs == old(self).devs,
            final(self).wf(),
            match old(self).resolved_index(handle) {
                Some(i) => r matches Some(u) && u as int == i && final(self).active_id == Some(u),
                None => r is None && final(self).active_id is None,
            },
    {
        if let Some(i) = self.active_id {
            if self.devs[i].handle == handle {
                return Some(i);
            }
        }
        let n = self.devs.len();
        let mut idx: usize = 0;
        while idx < n
            invariant
                0 <= idx <= n,
                n == self.devs@.len(),
                *self == *old(self),
                old(self).wf(),
                old(self).resolved_index(handle) == find_handle_from(old(self).devs@, handle, 0),
                find_handle_from(self.devs@, handle, 0) == find_handle_from(
                    self.devs@,
                    handle,
                    idx as int,
                ),
            decreases n - idx,
        {
            if self.devs[idx].handle == handle {
                self.active_id = Some(idx);
                return Some(idx);
            }
            proof {
                lemma_find_handle_step(self.devs@, handle, idx as int);
            }
            idx += 1;
        }
        self.active_id = None;
        None
    }

    /// The active device, when one is tracked.
    pub fn active(&self) -> (r: Option<&WinDevice>)
        requires
            self.wf(),
        ensures
            match self.active_id {
                Some(i) => r matches Some(d) && *d == self.devs@[i as int],
                None => r is None,
            },
    {
        match self.active_id {
            Some(i) => Some(&self.devs[i]),
            None => None,
        }
    }

    /// The identity of the active device, when one is tracked and it has one.
    pub fn active_id(&self) -> (r: Option<&String>)
        requires
            self.wf(),
        ensures
            match self.active_id {
                Some(i) => r == (match self.devs@[i as int].id {
                    Some(_) => Some(&self.devs@[i as int].id->0),
                    None => None::<&String>,
                }),
                None => r is None,
            },
    {
        match self.active_id {
            Some(i) => self.devs[i].id.as_ref(),
            None => None,
        }
    }

    /// Replaces the whole registry; the old active device is stale and
    /// forgotten.
    pub fn rebuild(&mut self, new_devs: Vec<WinDevice>)
        requires
            forall|i: int| 0 <= i < new_devs@.len() ==> (#[trigger] new_devs@[i]).wf(),
        ensures
            final(self).devs == new_devs,
            final(self).active_id is None,
            final(self).wf(),
    {
        self.devs = new_devs;
        self.active_id = None;
    }

    /// What applying one stored per-device setting leaves of the registry:
    /// the first device with the item's id, if any, gets the item's policy
    /// and loses its cached lock region.
    pub open spec fn apply_one_setting(s: Seq<WinDevice>, id: Seq<char>, content: DeviceSetting)
        -> Seq<WinDevice> {
        match find_dev_id_from(s, id, 0) {
            Some(i) => s.update(
                i,
                WinDevice {
                    ctrl: DeviceController {
                        setting: content,
                        locked_area: None::<MonitorArea>,
                        ..s[i].ctrl
                    },
                    ..s[i]
                },
            ),
            None => s,
        }
    }

    /// Applies one stored per-device policy; reports whether a device with
    /// that id exists.
    pub fn update_one_device_settings(&mut self, id: &str, s: &DeviceSetting) -> (found: bool)
        requires
            old(self).wf(),
        ensures
            final(self).devs@ =~= WinDeviceSet::apply_one_setting(old(self).devs@, id@, *s),
            final(self).active_id == old(self).active_id,
            final(self).wf(),
            found == (find_dev_id_from(old(self).devs@, id@, 0) is Some),
    {
        let n = self.devs.len();
        let mut idx: usize = 0;
        while idx < n
            invariant
                0 <= idx <= n,
                n == self.devs@.len(),
                *self == *old(self),
                old(self).wf(),
                find_dev_id_from(self.devs@, id@, 0) == find_dev_id_from(
                    self.devs@,
                    id@,
                    idx as int,
                ),
            decreases n - idx,
        {
            let matches_id = match &self.devs[idx].id {
                Some(d) => str_eq(d.as_str(), id),
                None => false,
            };
            if matches_id {
                self.devs[idx].ctrl.update_settings(s);
                return true;
            }
            proof {
                lemma_find_dev_id_step(self.devs@, id@, idx as int);
            }
            idx += 1;
        }
        false
    }
}

/// What replaying a list of stored per-device settings leaves of a registry.
pub open spec fn apply_settings_spec(s: Seq<WinDevice>, items: Seq<DeviceSettingItem>) -> Seq<
    WinDevice,
>
    decreases items.len(),
{
    if items.len() == 0 {
        s
    } else {
        WinDeviceSet::apply_one_setting(
            apply_settings_spec(s, items.drop_last()),
            items.last().id@,
            items.last().content,
        )
    }
}

/// Whether a monitor rectangle is kept: degenerate rectangles are discarded.
pub open spec fn filter_monitor_spec(m: MonitorInfo) -> bool {
    m.left < m.right && m.top < m.bottom
}

pub open spec fn monitor_area_from_spec(m: MonitorInfo) -> MonitorArea {
    MonitorArea {
        lefttop: MousePos { x: m.left, y: m.top },
        rigtbtm: MousePos { x: m.right, y: m.bottom },
    }
}

/// The areas kept from a host monitor enumeration, in enumeration order.
pub open spec fn monitor_areas_of(ms: Seq<MonitorInfo>) -> Seq<MonitorArea>
    decreases ms.len(),
{
    if ms.len() == 0 {
        Seq::empty()
    } else {
        let rest = monitor_areas_of(ms.drop_last());
        if filter_monitor_spec(ms.last()) {
            rest.push(monitor_area_from_spec(ms.last()))
        } else {
            rest
        }
    }
}

proof fn lemma_monitor_areas_nondegenerate(ms: Seq<MonitorInfo>)
    ensures
        forall|i: int|
            0 <= i < monitor_areas_of(ms).len() ==> (#[trigger] monitor_areas_of(
                ms,
            )[i]).nondegenerate(),
    decreases ms.len(),
{
    if ms.len() > 0 {
        lemma_monitor_areas_nondegenerate(ms.drop_last());
        let rest = monitor_areas_of(ms.drop_last());
        if filter_monitor_spec(ms.last()) {
            assert(monitor_areas_of(ms) == rest.push(monitor_area_from_spec(ms.last())));
            assert forall|i: int|
                0 <= i < monitor_areas_of(ms).len() implies (#[trigger] monitor_areas_of(
                ms,
            )[i]).nondegenerate() by {
                if i < rest.len() {
                    assert(monitor_areas_of(ms)[i] == rest[i]);
                }
            }
        } else {
            assert(monitor_areas_of(ms) == rest);
        }
    }
}

/// The device-processor core: the registry, the tick widener, the relocation
/// engine, the settings, the pending-rescan flags, and the two rescan rate
/// limiters. The host hands it events and enumeration results; it hands back
/// the actions to perform.
pub struct WinDeviceProcessor {
    pub devices: WinDeviceSet,
    pub tick_widen: TickWiden,
    pub relocator: MouseRelocator,
    pub settings: ProcessorSettings,
    pub to_update_devices: bool,
    pub to_update_monitors: bool,
    pub rl_update_mon: SimpleRatelimit,
    pub rl_update_dev: SimpleRatelimit,
}

impl WinDeviceProcessor {
    pub open spec fn wf(self) -> bool {
        self.devices.wf() && self.relocator.wf()
    }

    /// A fresh processor, with its tick widener synchronised to the host's
    /// wide counter.
    pub fn new(now64: u64) -> (r: Self)
        ensures
            r.devices.devs@.len() == 0,
            r.devices.active_id is None,
            r.relocator.monitors.list@.len() == 0,
            r.settings.devices@.len() == 0,
            !r.to_update_devices,
            !r.to_update_monitors,
            r.rl_update_mon.once_per == RATELIMIT_UPDATE_MONITOR_ONCE_MS,
            r.rl_update_dev.once_per == RATELIMIT_UPDATE_DEVICE_ONCE_MS,
            r.wf(),
    {
        WinDeviceProcessor {
            devices: WinDeviceSet::new(),
            tick_widen: TickWiden::new(now64),
            relocator: MouseRelocator::new(),
            settings: ProcessorSettings::default(),
            to_update_devices: false,
            to_update_monitors: false,
            rl_update_mon: SimpleRatelimit::new(RATELIMIT_UPDATE_MONITOR_ONCE_MS, None),
            rl_update_dev: SimpleRatelimit::new(RATELIMIT_UPDATE_DEVICE_ONCE_MS, None),
        }
    }

    /// Whether a raw device takes part in cursor tracking.
    pub fn filter_rawinput_devices(device_type: DeviceType) -> (r: bool)
        ensures
            r == device_type.is_pointer_spec(),
    {
        device_type.is_pointer()
    }

    /// Whether a monitor rectangle is kept for the topology.
    pub fn filter_monitor(mon: &MonitorInfo) -> (r: bool)
        ensures
            r == filter_monitor_spec(*mon),
    {
        mon.left < mon.right && mon.top < mon.bottom
    }

    /// The monitor area a host rectangle describes.
    pub fn monitor_area_from(mi: &MonitorInfo) -> (r: MonitorArea)
        ensures
            r == monitor_area_from_spec(*mi),
    {
        MonitorArea {
            lefttop: MousePos::from(mi.left, mi.top),
            rigtbtm: MousePos::from(mi.right, mi.bottom),
        }
    }

    /// Replaces the settings (when given) and replays every stored per-device
    /// policy onto the registry.
    pub fn apply_processor_settings(&mut self, new_settings: Option<ProcessorSettings>)
        requires
            old(self).wf(),
        ensures
            final(self).wf(),
            final(self).settings == (match new_settings {
                Some(s) => s,
                None => old(self).settings,
            }),
            final(self).devices.devs@ =~= apply_settings_spec(
                old(self).devices.devs@,
                final(self).settings.devices@,
            ),
            final(self).devices.active_id == old(self).devices.active_id,
            final(self).relocator == old(self).relocator,
            final(self).tick_widen == old(self).tick_widen,
            final(self).to_update_devices == old(self).to_update_devices,
            final(self).to_update_monitors == old(self).to_update_monitors,
            final(self).rl_update_mon == old(self).rl_update_mon,
            final(self).rl_update_dev == old(self).rl_update_dev,
    {
        if let Some(new) = new_settings {
            self.settings = new;
        }
        let ghost target = self.settings;
        let n = self.settings.devices.len();
        let mut idx: usize = 0;
        while idx < n
            invariant
                0 <= idx <= n,
                n == self.settings.devices@.len(),
                self.settings == target,
                self.devices.wf(),
                self.devices.devs@ =~= apply_settings_spec(
                    old(self).devices.devs@,
                    self.settings.devices@.take(idx as int),
                ),
                self.devices.active_id == old(self).devices.active_id,
                self.relocator == old(self).relocator,
                self.tick_widen == old(self).tick_widen,
                self.to_update_devices == old(self).to_update_devices,
                self.to_update_monitors == old(self).to_update_monitors,
                self.rl_update_mon == old(self).rl_update_mon,
                self.rl_update_dev == old(self).rl_update_dev,
            decreases n - idx,
        {
            let item_id = self.settings.devices[idx].id.clone();
            let content = self.settings.devices[idx].content;
            proof {
                assert(self.settings.devices@.take(idx as int + 1).drop_last()
                    =~= self.settings.devices@.take(idx as int));
                assert(self.settings.devices@.take(idx as int + 1).last()
                    == self.settings.devices@[idx as int]);
            }
            let _found = self.devices.update_one_device_settings(item_id.as_str(), &content);
            idx += 1;
        }
        proof {
            assert(self.settings.devices@.take(n as int) =~= self.settings.devices@);
        }
    }

    /// Rebuilds the registry from a host device enumeration, appending the
    /// pseudo-device for unassociated events and replaying the stored
    /// settings. A rescan that is neither forced nor due is skipped; a failed
    /// enumeration is reported and leaves the registry untouched.
    pub fn try_update_devices(
        &mut self,
        must: bool,
        now: u64,
        scan: Result<Vec<WinDevice>, Error>,
    ) -> (r: Result<(), Error>)
        requires
            old(self).wf(),
            scan matches Ok(v) ==> forall|i: int| 0 <= i < v@.len() ==> (#[trigger] v@[i]).wf(),
        ensures
            final(self).wf(),
            final(self).relocator == old(self).relocator,
            final(self).tick_widen == old(self).tick_widen,
            final(self).settings == old(self).settings,
            final(self).to_update_monitors == old(self).to_update_monitors,
            final(self).rl_update_mon == old(self).rl_update_mon,
            !must && now < old(self).rl_update_dev.next ==> r is Ok && *final(self) == *old(self),
            must || now >= old(self).rl_update_dev.next ==> {
                &&& final(self).rl_update_dev == (if !must {
                    SimpleRatelimit {
                        next: sat_add_u64(now, old(self).rl_update_dev.once_per),
                        ..old(self).rl_update_dev
                    }
                } else {
                    old(self).rl_update_dev
                })
                &&& match scan {
                    Ok(devs) => {
                        &&& r is Ok
                        &&& final(self).devices.devs@.len() == devs@.len() + 1
                        &&& final(self).devices.devs@.drop_last() =~= apply_settings_spec(
                            devs@,
                            old(self).settings.devices@,
                        )
                        &&& is_unassociated_device(final(self).devices.devs@.last())
                        &&& final(self).devices.active_id is None
                        &&& !final(self).to_update_devices
                    },
                    Err(e) => {
                        &&& r matches Err(e2) && e2 == e
                        &&& final(self).devices == old(self).devices
                        &&& final(self).to_update_devices == old(self).to_update_devices
                    },
                }
            },
    {
        if !must {
            let (allowed, _wait) = self.rl_update_dev.allow(now);
            if !allowed {
                return Ok(());
            }
        }
        match scan {
            Ok(mut devs) => {
                let ghost scanned = devs@;
                devs.push(unassociated_events_capture_device());
                let ghost pseudo = devs@.last();
                self.devices.rebuild(devs);
                self.apply_processor_settings(None);
                proof {
                    lemma_apply_settings_push(scanned, pseudo, self.settings.devices@);
                    lemma_apply_settings_len(scanned, self.settings.devices@);
                }
                self.to_update_devices = false;
                Ok(())
            },
            Err(e) => Err(e),
        }
    }

    /// Rebuilds the topology from a host monitor enumeration, discarding
    /// degenerate rectangles and resetting every controller's spatial state.
    /// A rescan that is neither forced nor due is skipped; a failed
    /// enumeration is reported and leaves the topology untouched.
    pub fn try_update_monitors(
        &mut self,
        must: bool,
        now: u64,
        mons: Result<Vec<MonitorInfo>, Error>,
    ) -> (r: Result<(), Error>)
        requires
            old(self).wf(),
        ensures
            final(self).wf(),
            final(self).tick_widen == old(self).tick_widen,
            final(self).settings == old(self).settings,
            final(self).to_update_devices == old(self).to_update_devices,
            final(self).rl_update_dev == old(self).rl_update_dev,
            !must && now < old(self).rl_update_mon.next ==> r is Ok && *final(self) == *old(self),
            must || now >= old(self).rl_update_mon.next ==> {
                &&& final(self).rl_update_mon == (if !must {
                    SimpleRatelimit {
                        next: sat_add_u64(now, old(self).rl_update_mon.once_per),
                        ..old(self).rl_update_mon
                    }
                } else {
                    old(self).rl_update_mon
                })
                &&& match mons {
                    Ok(ms) => {
                        &&& r is Ok
                        &&& final(self).relocator.monitors.list@ =~= monitor_areas_of(ms@)
                        &&& final(self).relocator.relocate_pos is None
                        &&& final(self).relocator.cur_pos == old(self).relocator.cur_pos
                        &&& final(self).relocator.cur_mouse == old(self).relocator.cur_mouse
                        &&& final(self).relocator.to_update_monitors == old(self).relocator.to_update_monitors
                        &&& (forall|i: int|
                            0 <= i < final(self).relocator.last_jump_pos@.len() ==> final(self).relocator.last_jump_pos@[i] is None)
                        &&& final(self).devices.devs@.len() == old(self).devices.devs@.len()
                        &&& (forall|i: int|
                            0 <= i < final(self).devices.devs@.len() ==> #[trigger] final(self).devices.devs@[i] == (WinDevice {
                                ctrl: DeviceController {
                                    locked_area: None::<MonitorArea>,
                                    last_active_tick: 0u64,
                                    ..old(self).devices.devs@[i].ctrl
                                },
                                ..old(self).devices.devs@[i]
                            }))
                        &&& final(self).devices.active_id == old(self).devices.active_id
                        &&& !final(self).to_update_monitors
                    },
                    Err(e) => {
                        &&& r matches Err(e2) && e2 == e
                        &&& final(self).relocator == old(self).relocator
                        &&& final(self).devices == old(self).devices
                        &&& final(self).to_update_monitors == old(self).to_update_monitors
                    },
                }
            },
    {
        if !must {
            let (allowed, _wait) = self.rl_update_mon.allow(now);
            if !allowed {
                return Ok(());
            }
        }
        match mons {
            Ok(ms) => {
                let mut areas: Vec<MonitorArea> = Vec::new();
                let n = ms.len();
                let mut i: usize = 0;
                while i < n
                    invariant
                        0 <= i <= n,
                        n == ms@.len(),
                        areas@ =~= monitor_areas_of(ms@.take(i as int)),
                    decreases n - i,
                {
                    proof {
                        assert(ms@.take(i as int + 1).drop_last() =~= ms@.take(i as int));
                        assert(ms@.take(i as int + 1).last() == ms@[i as int]);
                    }
                    let m = ms[i];
                    if Self::filter_monitor(&m) {
                        areas.push(Self::monitor_area_from(&m));
                    }
                    i += 1;
                }
                proof {
                    assert(ms@.take(n as int) =~= ms@);
                    lemma_monitor_areas_nondegenerate(ms@);
                }
                let mon_areas = MonitorAreasList::from(areas);
                self.relocator.update_monitors(mon_areas);
                let ghost reloc_snapshot = self.relocator;
                let ghost rl_mon_snapshot = self.rl_update_mon;
                let dn = self.devices.devs.len();
                let mut j: usize = 0;
                while j < dn
                    invariant
                        0 <= j <= dn,
                        dn == self.devices.devs@.len(),
                        dn == old(self).devices.devs@.len(),
                        self.devices.active_id == old(self).devices.active_id,
                        old(self).wf(),
                        self.relocator == reloc_snapshot,
                        reloc_snapshot.wf(),
                        self.settings == old(self).settings,
                        self.tick_widen == old(self).tick_widen,
                        self.to_update_devices == old(self).to_update_devices,
                        self.rl_update_dev == old(self).rl_update_dev,
                        self.rl_update_mon == rl_mon_snapshot,
                        forall|k: int|
                            0 <= k < j ==> #[trigger] self.devices.devs@[k] == (WinDevice {
                                ctrl: DeviceController {
                                    locked_area: None::<MonitorArea>,
                                    last_active_tick: 0u64,
                                    ..old(self).devices.devs@[k].ctrl
                                },
                                ..old(self).devices.devs@[k]
                            }),
                        forall|k: int|
                            j <= k < dn ==> #[trigger] self.devices.devs@[k] == old(self).devices.devs@[k],
                    decreases dn - j,
                {
                    self.devices.devs[j].ctrl.reset();
                    j += 1;
                }
                self.to_update_monitors = false;
                Ok(())
            },
            Err(e) => Err(e),
        }
    }
}

/// What toggling the active device's lock policy does: the stored policy for
/// the device's id gets its lock flag flipped, the device's controller takes
/// the new policy and loses its cached region, and everything else stays.
/// With no active device, or one without an identity, nothing changes.
pub open spec fn lock_toggle_rel(pre: WinDeviceProcessor, post: WinDeviceProcessor) -> bool {
    &&& post.relocator == pre.relocator
    &&& post.tick_widen == pre.tick_widen
    &&& post.to_update_devices == pre.to_update_devices
    &&& post.to_update_monitors == pre.to_update_monitors
    &&& post.rl_update_mon == pre.rl_update_mon
    &&& post.rl_update_dev == pre.rl_update_dev
    &&& post.devices.active_id == pre.devices.active_id
    &&& match pre.devices.active_id {
        Some(i) => match pre.devices.devs@[i as int].id {
            Some(ids) => {
                let prior = match pre.settings.device_index(ids@) {
                    Some(j) => pre.settings.devices@[j].content,
                    None => DeviceSetting { locked_in_monitor: false, switch: false },
                };
                let toggled = DeviceSetting {
                    locked_in_monitor: !prior.locked_in_monitor,
                    switch: prior.switch,
                };
                &&& post.devices.devs@ =~= pre.devices.devs@.update(
                    i as int,
                    WinDevice {
                        ctrl: DeviceController {
                            setting: toggled,
                            locked_area: None::<MonitorArea>,
                            ..pre.devices.devs@[i as int].ctrl
                        },
                        ..pre.devices.devs@[i as int]
                    },
                )
                &&& post.settings.device_index(ids@) is Some
                &&& post.settings.devices@[post.settings.device_index(ids@)->0].content == toggled
                &&& post.settings.merge_unassociated_events_ms
                    == pre.settings.merge_unassociated_events_ms
                &&& post.settings.shortcuts == pre.settings.shortcuts
            },
            None => post == pre,
        },
        None => post == pre,
    }
}

/// What a raw position report does: the relocation engine digests it against
/// the active device's controller, and everything else stays.
pub open spec fn pos_event_rel(
    pre: WinDeviceProcessor,
    post: WinDeviceProcessor,
    ev: SysMouseEvent,
) -> bool {
    &&& post.tick_widen == pre.tick_widen
    &&& post.settings == pre.settings
    &&& post.to_update_devices == pre.to_update_devices
    &&& post.to_update_monitors == pre.to_update_monitors
    &&& post.rl_update_mon == pre.rl_update_mon
    &&& post.rl_update_dev == pre.rl_update_dev
    &&& post.devices.active_id == pre.devices.active_id
    &&& {
        let pos = MousePos { x: ev.pos_x, y: ev.pos_y };
        match pre.devices.active_id {
            Some(i) => {
                let (r2, c2) = pre.relocator.on_pos_update_spec(
                    pre.devices.devs@[i as int].ctrl,
                    pos,
                );
                &&& post.relocator == r2
                &&& post.devices.devs@ =~= pre.devices.devs@.update(
                    i as int,
                    WinDevice { ctrl: c2, ..pre.devices.devs@[i as int] },
                )
            },
            None => post.relocator == pre.relocator.on_pos_update_none_spec(pos)
                && post.devices.devs@ =~= pre.devices.devs@,
        }
    }
}

/// What one raw input event does: its tick is widened; an unattributed event
/// within the merge window feeds the active device, an attributed one the
/// device resolved by handle, and an unknown handle asks for a device rescan.
pub open spec fn raw_input_rel(
    pre: WinDeviceProcessor,
    post: WinDeviceProcessor,
    handle: u64,
    positioning: Positioning,
    tick: u32,
    now64: u64,
) -> bool {
    &&& post.settings == pre.settings
    &&& post.to_update_monitors == pre.to_update_monitors
    &&& post.rl_update_mon == pre.rl_update_mon
    &&& post.rl_update_dev == pre.rl_update_dev
    &&& {
        let (tw2, wtick) = pre.tick_widen.widen_spec(tick, now64);
        &&& post.tick_widen == tw2
        &&& if handle == 0 && pre.merge_applies(wtick) {
            let i = pre.devices.active_id->0;
            let c0 = DeviceController { positioning, ..pre.devices.devs@[i as int].ctrl };
            let (r2, c2) = pre.relocator.on_mouse_update_spec(c0, wtick);
            &&& post.relocator == r2
            &&& post.devices.devs@ =~= pre.devices.devs@.update(
                i as int,
                WinDevice { ctrl: c2, ..pre.devices.devs@[i as int] },
            )
            &&& post.devices.active_id == pre.devices.active_id
            &&& post.to_update_devices == pre.to_update_devices
        } else {
            match pre.devices.resolved_index(handle) {
                Some(j) => {
                    let c0 = DeviceController { positioning, ..pre.devices.devs@[j].ctrl };
                    let (r2, c2) = pre.relocator.on_mouse_update_spec(c0, wtick);
                    &&& post.relocator == r2
                    &&& post.devices.devs@ =~= pre.devices.devs@.update(
                        j,
                        WinDevice { ctrl: c2, ..pre.devices.devs@[j] },
                    )
                    &&& post.devices.active_id matches Some(u) && u as int == j
                    &&& post.to_update_devices == pre.to_update_devices
                },
                None => {
                    &&& post.relocator == pre.relocator
                    &&& post.devices.devs@ =~= pre.devices.devs@
                    &&& post.devices.active_id is None
                    &&& post.to_update_devices
                },
            }
        }
    }
}

/// What the jump shortcut does: the engine jump-cycles, the active device's
/// controller (if any) loses its cached lock region, and everything else
/// stays.
pub open spec fn jump_effect_rel(pre: WinDeviceProcessor, post: WinDeviceProcessor) -> bool {
    &&& MouseRelocator::jump_rel(pre.relocator, post.relocator)
    &&& post.settings == pre.settings
    &&& post.tick_widen == pre.tick_widen
    &&& post.to_update_devices == pre.to_update_devices
    &&& post.to_update_monitors == pre.to_update_monitors
    &&& post.rl_update_mon == pre.rl_update_mon
    &&& post.rl_update_dev == pre.rl_update_dev
    &&& post.devices.active_id == pre.devices.active_id
    &&& match pre.devices.active_id {
        Some(i) => post.devices.devs@ =~= (if pre.relocator.monitors.list@.len() == 0 {
            pre.devices.devs@
        } else {
            pre.devices.devs@.update(
                i as int,
                WinDevice {
                    ctrl: MouseRelocator::jump_ctrl_after(pre.devices.devs@[i as int].ctrl),
                    ..pre.devices.devs@[i as int]
                },
            )
        }),
        None => post.devices.devs@ =~= pre.devices.devs@,
    }
}

impl WinDeviceProcessor {
    /// Whether an unattributed event is close enough in time to the active
    /// device's last activity to be merged into it.
    pub open spec fn merge_applies(self, wtick: u64) -> bool {
        &&& self.settings.merge_unassociated_events_ms >= 0
        &&& match self.devices.active_id {
            Some(i) => i < self.devices.devs@.len() && {
                let c = self.devices.devs@[i as int].ctrl;
                c.last_active_tick > 0 && sat_add_u64(
                    c.last_active_tick,
                    self.settings.merge_unassociated_events_ms as u64,
                ) >= wtick
            },
            None => false,
        }
    }

    /// Toggles the lock-in-monitor policy of the active device, storing the
    /// new policy and applying it to the device's controller. Without an
    /// active device, or one without an identity, nothing changes.
    pub fn cur_mouse_lock_toogle(&mut self)
        requires
            old(self).wf(),
        ensures
            final(self).wf(),
            lock_toggle_rel(*old(self), *final(self)),
    {
        let i = match self.devices.active_id {
            Some(i) => i,
            None => {
                return ;
            },
        };
        let id = match &self.devices.devs[i].id {
            Some(s) => s.clone(),
            None => {
                return ;
            },
        };
        let prior = match self.settings.get_device(id.as_str()) {
            Some(s) => s,
            None => DeviceSetting { locked_in_monitor: false, switch: false },
        };
        let toggled = DeviceSetting {
            locked_in_monitor: !prior.locked_in_monitor,
            switch: prior.switch,
        };
        self.settings.ensure_mut_device(id.as_str(), toggled);
        proof {
            lemma_device_index_after_ensure(
                old(self).settings.devices@,
                self.settings.devices@,
                id@,
                toggled,
            );
        }
        self.devices.devs[i].ctrl.update_settings(&toggled);
    }

    /// Digests a raw position report from the host's low-level hook: the
    /// relocation engine adopts or clamps the position against the active
    /// device's lock region.
    pub fn on_mouse_event(&mut self, ev: &SysMouseEvent)
        requires
            old(self).wf(),
        ensures
            final(self).wf(),
            pos_event_rel(*old(self), *final(self), *ev),
    {
        let pos = MousePos::from(ev.pos_x, ev.pos_y);
        match self.devices.active_id {
            Some(i) => {
                self.relocator.on_pos_update(Some(&mut self.devices.devs[i].ctrl), pos);
            },
            None => {
                self.relocator.on_pos_update(None, pos);
            },
        }
    }

    /// Digests one raw input event: widens its tick, merges an unattributed
    /// event into the active device when the configured window allows it,
    /// otherwise resolves the device by handle, attributing the event to it
    /// or, for an unknown handle, asking for a device rescan. The embedding
    /// drains the staged effects afterwards.
    pub fn on_raw_input(&mut self, handle: u64, positioning: Positioning, tick: u32, now64: u64)
        requires
            old(self).wf(),
        ensures
            final(self).wf(),
            raw_input_rel(*old(self), *final(self), handle, positioning, tick, now64),
    {
        let wtick = self.tick_widen.widen(tick, now64);
        if handle == 0 && self.settings.merge_unassociated_events_ms >= 0 {
            let merge_within = self.settings.merge_unassociated_events_ms as u64;
            if let Some(i) = self.devices.active_id {
                let last_tick = self.devices.devs[i].ctrl.last_active_tick;
                if last_tick > 0 && saturating_add_u64(last_tick, merge_within) >= wtick {
                    self.devices.devs[i].ctrl.update_positioning(positioning);
                    self.relocator.on_mouse_update(&mut self.devices.devs[i].ctrl, wtick);
                    return ;
                }
            }
        }
        match self.devices.get_and_update_active(handle) {
            Some(j) => {
                self.devices.devs[j].ctrl.update_positioning(positioning);
                self.relocator.on_mouse_update(&mut self.devices.devs[j].ctrl, wtick);
            },
            None => {
                self.to_update_devices = true;
            },
        }
    }

    /// Folds the relocation engine's stale-topology signal into the pending
    /// rescans and reports which rescans the embedding should attempt now.
    pub fn resolve_pending_updating_task(&mut self) -> (r: (bool, bool))
        ensures
            final(self).to_update_monitors == (old(self).to_update_monitors || old(self).relocator.to_update_monitors),
            final(self).relocator == (MouseRelocator {
                to_update_monitors: false,
                ..old(self).relocator
            }),
            final(self).to_update_devices == old(self).to_update_devices,
            final(self).devices == old(self).devices,
            final(self).settings == old(self).settings,
            final(self).tick_widen == old(self).tick_widen,
            final(self).rl_update_mon == old(self).rl_update_mon,
            final(self).rl_update_dev == old(self).rl_update_dev,
            r == (final(self).to_update_devices, final(self).to_update_monitors),
    {
        if self.relocator.pop_need_update_monitors() {
            self.to_update_monitors = true;
        }
        (self.to_update_devices, self.to_update_monitors)
    }

    /// Drains the staged relocation; the embedding moves the cursor there.
    pub fn resolve_relocation(&mut self) -> (r: Option<MousePos>)
        ensures
            final(self).relocator == (MouseRelocator {
                relocate_pos: None::<crate::mouse_control::RelocatePos>,
                ..old(self).relocator
            }),
            r == (match old(self).relocator.relocate_pos {
                Some(p) => Some(p.0),
                None => None::<MousePos>,
            }),
            final(self).devices == old(self).devices,
            final(self).settings == old(self).settings,
            final(self).tick_widen == old(self).tick_widen,
            final(self).to_update_devices == old(self).to_update_devices,
            final(self).to_update_monitors == old(self).to_update_monitors,
            final(self).rl_update_mon == old(self).rl_update_mon,
            final(self).rl_update_dev == old(self).rl_update_dev,
    {
        match self.relocator.pop_relocate_pos() {
            Some(p) => Some(p.0),
            None => None,
        }
    }
}

/// The stored policies hold the toggled content for the device after
/// `ensure_mut_device` ran with it.
proof fn lemma_device_index_after_ensure(
    before: Seq<DeviceSettingItem>,
    after: Seq<DeviceSettingItem>,
    id: Seq<char>,
    content: DeviceSetting,
)
    requires
        match crate::setting::find_device_from(before, id, 0) {
            Some(j) => after =~= before.update(
                j,
                DeviceSettingItem { id: before[j].id, content },
            ),
            None => after.len() == before.len() + 1 && after.drop_last() =~= before
                && after.last().id@ == id && after.last().content == content,
        },
    ensures
        crate::setting::find_device_from(after, id, 0) is Some,
        after[crate::setting::find_device_from(after, id, 0)->0].content == content,
{
    lemma_find_device_props(before, id, 0);
    match crate::setting::find_device_from(before, id, 0) {
        Some(j) => {
            assert(after[j].id == before[j].id);
            assert forall|k: int| 0 <= k < j implies (#[trigger] after[k]).id@ != id by {
                assert(after[k] == before[k]);
            }
            lemma_find_device_first_from(after, id, j, 0);
        },
        None => {
            let m = before.len() as int;
            assert(after[m].id@ == id);
            assert forall|k: int| 0 <= k < m implies (#[trigger] after[k]).id@ != id by {
                assert(after[k] == after.drop_last()[k]);
                assert(after.drop_last()[k] == before[k]);
            }
            lemma_find_device_first_from(after, id, m, 0);
        },
    }
}

proof fn lemma_find_device_props(s: Seq<DeviceSettingItem>, id: Seq<char>, i: int)
    requires
        0 <= i <= s.len(),
    ensures
        match crate::setting::find_device_from(s, id, i) {
            Some(k) => i <= k < s.len() && s[k].id@ == id && (forall|j: int|
                i <= j < k ==> (#[trigger] s[j]).id@ != id),
            None => forall|j: int| i <= j < s.len() ==> (#[trigger] s[j]).id@ != id,
        },
    decreases s.len() - i,
{
    if i < s.len() && s[i].id@ != id {
        lemma_find_device_props(s, id, i + 1);
    }
}

proof fn lemma_find_device_first_from(s: Seq<DeviceSettingItem>, id: Seq<char>, m: int, i: int)
    requires
        0 <= i <= m < s.len(),
        s[m].id@ == id,
        forall|k: int| i <= k < m ==> (#[trigger] s[k]).id@ != id,
    ensures
        crate::setting::find_device_from(s, id, i) == Some(m),
    decreases m - i,
{
    if i < m {
        lemma_find_device_first_from(s, id, m, i + 1);
    }
}

/// The views of a list of string pairs.
pub open spec fn pair_views(s: Seq<(String, String)>) -> Seq<(Seq<char>, Seq<char>)> {
    s.map_values(|p: (String, String)| (p.0@, p.1@))
}

/// The pairs that one optional device property contributes to the listing.
pub open spec fn wso_pairs(label: Seq<char>, o: crate::host::WStringOption) -> Seq<
    (Seq<char>, Seq<char>),
> {
    match o {
        crate::host::WStringOption::Value(s) => seq![(label, s@)],
        _ => Seq::empty(),
    }
}

/// The platform-specific key/value pairs reported for a device.
pub open spec fn platform_infos_spec(d: WinDevice) -> Seq<(Seq<char>, Seq<char>)> {
    match d.rawinput {
        None => Seq::empty(),
        Some(ri) => {
            let base = seq![
                ("interface"@, ri.iface@),
                ("dwType"@, crate::strutil::dec_digits(ri.dw_type as nat)),
            ];
            let hid_part = match d.hid {
                Some(hm) => wso_pairs("hidManufacurer"@, hm.manufacturer) + wso_pairs(
                    "hidProduct"@,
                    hm.product,
                ) + wso_pairs("hidSerialNumber"@, hm.serial_number),
                None => Seq::empty(),
            };
            let iface_part = match d.iface {
                Some(im) => wso_pairs("manufacurer"@, im.manufacurer) + wso_pairs("name"@, im.name)
                    + wso_pairs("service"@, im.service) + wso_pairs("class"@, im.class),
                None => Seq::empty(),
            };
            let typ_part = match ri.info {
                RawDeviceInfo::Mouse(m) => seq![
                    ("dwId"@, crate::strutil::dec_digits(m.dw_id as nat)),
                    ("dwNumberOfButtons"@, crate::strutil::dec_digits(m.dw_number_of_buttons as nat)),
                    ("dwSampleRate"@, crate::strutil::dec_digits(m.dw_sample_rate as nat)),
                ],
                RawDeviceInfo::Hid(h) => seq![
                    ("dwProductId"@, crate::strutil::dec_digits(h.dw_product_id as nat)),
                    ("dwVendorId"@, crate::strutil::dec_digits(h.dw_vendor_id as nat)),
                    ("dwVersionNumber"@, crate::strutil::dec_digits(h.dw_version_number as nat)),
                    ("usUsagePage"@, crate::strutil::hex_form(h.us_usage_page as nat)),
                    ("usUsage"@, crate::strutil::hex_form(h.us_usage as nat)),
                ],
                _ => Seq::empty(),
            };
            base + hid_part + iface_part + typ_part
        },
    }
}

/// The display name built for a device: the HID manufacturer and product
/// strings when present, else the driver-level manufacturer and name, else
/// the device's id.
pub open spec fn product_name_spec(d: WinDevice) -> Seq<char> {
    let hid_name = match d.hid {
        Some(hm) => (match hm.manufacturer {
            crate::host::WStringOption::Value(s) => s@.push(' '),
            _ => Seq::<char>::empty(),
        }) + (match hm.product {
            crate::host::WStringOption::Value(s) => s@.push(' '),
            _ => Seq::<char>::empty(),
        }),
        None => Seq::<char>::empty(),
    };
    if hid_name.len() > 0 {
        hid_name
    } else {
        match d.iface {
            Some(im) => (match im.manufacurer {
                crate::host::WStringOption::Value(s) => s@.push(' '),
                _ => Seq::<char>::empty(),
            }) + im.name.display_spec(),
            None => d.id->0@,
        }
    }
}

/// Whether one listing entry describes one device.
pub open spec fn generic_matches(g: crate::message::GenericDevice, d: WinDevice) -> bool {
    &&& g.id@ == d.id->0@
    &&& g.device_type == d.device_type
    &&& g.product_name@ == crate::strutil::trim_spaces_spec(product_name_spec(d))
    &&& pair_views(g.platform_specific_infos@) =~= platform_infos_spec(d)
}

/// The devices of a registry that carry an identity, in registry order.
pub open spec fn valid_devices(s: Seq<WinDevice>) -> Seq<WinDevice>
    decreases s.len(),
{
    if s.len() == 0 {
        Seq::empty()
    } else {
        let rest = valid_devices(s.drop_last());
        if s.last().id is Some {
            rest.push(s.last())
        } else {
            rest
        }
    }
}

/// The status reported for one device at the given tick.
pub open spec fn device_status_spec(d: WinDevice, cur_tick: u64) -> DeviceStatus {
    if d.ctrl.last_active_tick > 0 && sat_add_u64(
        d.ctrl.last_active_tick,
        MOUSE_EVENT_ACTIVE_LAST_FOR_MS,
    ) > cur_tick {
        DeviceStatus::Active(d.ctrl.positioning)
    } else {
        DeviceStatus::Idle
    }
}

/// Builds one registry entry from the properties the host reported for a
/// device. A failed per-device property read never aborts the rescan: the
/// entry is kept, with the identity absent when the interface lookup failed,
/// no parents when the parent walk failed, and no HID properties when that
/// read failed. The device's identity is its interface instance id.
pub fn assemble_device(
    handle: u64,
    device_type: DeviceType,
    rawinput: RawinputInfo,
    iface: Result<DeviceIfaceInfo, Error>,
    parents: Result<Vec<String>, Error>,
    hid: Option<Result<HidDeviceInfo, Error>>,
) -> (d: WinDevice)
    ensures
        d.handle == handle,
        d.device_type == device_type,
        d.rawinput == Some(rawinput),
        match iface {
            Ok(i) => d.id matches Some(s) && s@ == i.instance_id@ && d.iface == Some(i),
            Err(_) => d.id is None && d.iface is None,
        },
        d.parents@ == (match parents {
            Ok(v) => v@,
            Err(_) => Seq::<String>::empty(),
        }),
        d.hid == (match hid {
            Some(Ok(h)) => Some(h),
            _ => None::<HidDeviceInfo>,
        }),
        d.ctrl == DeviceController::new_spec(handle),
        d.wf(),
{
    let (id, iface_info) = match iface {
        Ok(i) => {
            let s = i.instance_id.clone();
            (Some(s), Some(i))
        },
        Err(_) => (None, None),
    };
    let parents = match parents {
        Ok(v) => v,
        Err(_) => Vec::new(),
    };
    let hid = match hid {
        Some(Ok(h)) => Some(h),
        _ => None,
    };
    WinDevice {
        handle,
        device_type,
        id,
        rawinput: Some(rawinput),
        iface: iface_info,
        parents,
        hid,
        ctrl: init_device_control(handle),
    }
}

/// The devices of a scan that move the cursor, in scan order.
pub open spec fn pointer_devices_of(s: Seq<WinDevice>) -> Seq<WinDevice>
    decreases s.len(),
{
    if s.len() == 0 {
        Seq::empty()
    } else {
        (if s[0].device_type.is_pointer_spec() {
            seq![s[0]]
        } else {
            Seq::<WinDevice>::empty()
        }) + pointer_devices_of(s.drop_first())
    }
}

/// Keeps the pointer-class devices of a scan, dropping keyboards and other
/// raw devices the cursor engine does not track.
pub fn filter_pointer_devices(devs: Vec<WinDevice>) -> (r: Vec<WinDevice>)
    ensures
        r@ =~= pointer_devices_of(devs@),
{
    let mut devs = devs;
    let ghost orig = devs@;
    let mut r: Vec<WinDevice> = Vec::new();
    while devs.len() > 0
        invariant
            pointer_devices_of(orig) =~= r@ + pointer_devices_of(devs@),
        decreases devs.len(),
    {
        let ghost before = devs@;
        let d = devs.remove(0);
        proof {
            assert(devs@ =~= before.drop_first());
            assert(devs@ == before.drop_first());
        }
        if d.device_type.is_pointer() {
            r.push(d);
        }
    }
    proof {
        assert(r@ + pointer_devices_of(devs@) =~= r@);
    }
    r
}

/// Whether a device is the pseudo-device for unassociated events.
pub open spec fn is_unassociated_device(d: WinDevice) -> bool {
    &&& d.handle == 0
    &&& d.id is None
    &&& d.device_type == DeviceType::Dummy
    &&& d.rawinput is None
    &&& d.iface is None
    &&& d.parents@.len() == 0
    &&& d.hid is None
    &&& d.ctrl == DeviceController::new_spec(0)
}

proof fn lemma_find_dev_id_push(s: Seq<WinDevice>, p: WinDevice, id: Seq<char>, i: int)
    requires
        p.id is None,
        0 <= i <= s.len(),
    ensures
        find_dev_id_from(s.push(p), id, i) == find_dev_id_from(s, id, i),
    decreases s.len() - i,
{
    if i < s.len() {
        assert(s.push(p)[i] == s[i]);
        if !(s[i].id matches Some(d) && d@ == id) {
            lemma_find_dev_id_push(s, p, id, i + 1);
        }
    } else {
        assert(s.push(p)[i] == p);
        assert(find_dev_id_from(s.push(p), id, i) == find_dev_id_from(s.push(p), id, i + 1));
        assert(find_dev_id_from(s.push(p), id, i + 1) is None);
    }
}

proof fn lemma_apply_settings_push(s: Seq<WinDevice>, p: WinDevice, items: Seq<DeviceSettingItem>)
    requires
        p.id is None,
    ensures
        apply_settings_spec(s.push(p), items) =~= apply_settings_spec(s, items).push(p),
    decreases items.len(),
{
    if items.len() > 0 {
        lemma_apply_settings_push(s, p, items.drop_last());
        let base = apply_settings_spec(s, items.drop_last());
        let id = items.last().id@;
        let content = items.last().content;
        lemma_find_dev_id_push(base, p, id, 0);
        match find_dev_id_from(base, id, 0) {
            Some(i) => {
                assert(0 <= i < base.len()) by {
                    lemma_find_dev_id_props(base, id, 0);
                }
                assert(base.push(p)[i] == base[i]);
                assert(WinDeviceSet::apply_one_setting(base.push(p), id, content) =~= WinDeviceSet::apply_one_setting(base, id, content).push(p));
            },
            None => {},
        }
    }
}

proof fn lemma_apply_one_len(s: Seq<WinDevice>, id: Seq<char>, content: DeviceSetting)
    ensures
        WinDeviceSet::apply_one_setting(s, id, content).len() == s.len(),
{
    lemma_find_dev_id_props(s, id, 0);
}

proof fn lemma_apply_settings_len(s: Seq<WinDevice>, items: Seq<DeviceSettingItem>)
    ensures
        apply_settings_spec(s, items).len() == s.len(),
    decreases items.len(),
{
    if items.len() > 0 {
        lemma_apply_settings_len(s, items.drop_last());
        let base = apply_settings_spec(s, items.drop_last());
        lemma_find_dev_id_props(base, items.last().id@, 0);
    }
}

/// What a host shortcut-registration attempt came back with.
#[derive(Debug, Clone, Copy, PartialEq, Eq, Structural)]
pub enum HostRegisterOutcome {
    /// Registered, with the callback handle the host will report presses
    /// under.
    Registered(u32),
    /// The host reports the shortcut as already bound elsewhere.
    Conflict,
    /// Any other host failure, with its native error code.
    Failed(i32),
}

/// A host window message, reduced to what the processor reads of it.
#[derive(Debug, Clone, Copy, PartialEq, Eq, Structural)]
pub enum HostWindowEvent {
    /// A raw input report: the device handle, its positioning mode, and the
    /// host's narrow tick for the event.
    RawInput { handle: u64, positioning: Positioning, tick: u32 },
    /// A device arrived or vanished.
    InputDeviceChange,
    /// The monitor topology or a monitor's scale changed.
    DisplayChange,
    /// A registered global shortcut was pressed; carries the host's callback
    /// handle.
    Hotkey(u32),
    /// Anything else; the processor ignores it.
    Other,
}

/// What one pass over the inbound message channel ended with.
pub enum PollOutcome {
    /// An exit request arrived.
    Exited,
    /// The channel is drained, or the per-pass message budget is spent.
    Idle,
    /// A device-scan request arrived: the embedding must enumerate devices
    /// and hand the envelope to `scan_devices_respond`.
    NeedDeviceScan(RoundtripData<(), Vec<GenericDevice>>),
    /// A settings request arrived and the settings are applied: the embedding
    /// must re-register the shortcuts with the host and hand the envelope to
    /// `finish_apply_settings`.
    NeedShortcutRegistration(
        RoundtripData<ApplyProcessorSettingsData, ApplyProcessorSettingsCtx>,
    ),
    /// A message this loop does not serve arrived; the embedding treats it as
    /// a programming error.
    UnexpectedMessage(Message),
}

/// The device-processor event loop: the processor, the shortcut bookkeeping,
/// and the channel endpoints towards the control surface.
pub struct WinEventLoop {
    pub processor: WinDeviceProcessor,
    pub headless: bool,
    pub hotkey_mgr: HotKeyManager<ShortcutID>,
    pub mouse_control_reactor: MouseControlReactor,
}

impl WinEventLoop {
    pub open spec fn wf(self) -> bool {
        self.processor.wf()
    }

    pub fn new(headless: bool, mouse_control_reactor: MouseControlReactor, now64: u64) -> (r: Self)
        ensures
            r.headless == headless,
            r.processor.devices.devs@.len() == 0,
            r.hotkey_mgr.id_to_lparam@ == Map::<i32, u32>::empty(),
            r.hotkey_mgr.lparam_to_cb@ == Map::<u32, ShortcutID>::empty(),
            r.wf(),
    {
        WinEventLoop {
            processor: WinDeviceProcessor::new(now64),
            headless,
            hotkey_mgr: HotKeyManager::new(),
            mouse_control_reactor,
        }
    }

    /// Whether a device can be shown to the user: it carries an identity.
    pub fn is_valid_win_device(d: &WinDevice) -> (r: bool)
        ensures
            r == (d.id is Some),
    {
        d.id.is_some()
    }

    /// The liveness classification of one device: active when its last
    /// activity is within the liveness window of the given tick.
    pub fn build_device_status(d: &WinDevice, cur_tick: u64) -> (r: DeviceStatus)
        ensures
            r == device_status_spec(*d, cur_tick),
    {
        if let Some((last_tick, _pos, positioning)) = d.ctrl.get_last_pos() {
            if saturating_add_u64(last_tick, MOUSE_EVENT_ACTIVE_LAST_FOR_MS) > cur_tick {
                DeviceStatus::Active(positioning)
            } else {
                DeviceStatus::Idle
            }
        } else {
            DeviceStatus::Idle
        }
    }

    /// The display name of a device.
    pub fn build_product_name(d: &WinDevice) -> (r: String)
        requires
            d.id is Some,
        ensures
            r@ == product_name_spec(*d),
    {
        if let Some(hid) = &d.hid {
            let mut name = String::new();
            if let crate::host::WStringOption::Value(s) = &hid.manufacturer {
                name.push_str(s.as_str());
                name.push(' ');
            }
            if let crate::host::WStringOption::Value(s) = &hid.product {
                name.push_str(s.as_str());
                name.push(' ');
            }
            if name.unicode_len() > 0 {
                assert(name@ =~= product_name_spec(*d));
                return name;
            }
            assert(name@.len() == 0);
        }
        if let Some(iface) = &d.iface {
            let mut name = match &iface.manufacurer {
                crate::host::WStringOption::Value(s) => {
                    let mut n = s.clone();
                    n.push(' ');
                    n
                },
                _ => String::new(),
            };
            let disp = iface.name.display_string();
            name.push_str(disp.as_str());
            assert(name@ =~= product_name_spec(*d));
            return name;
        }
        let id = match &d.id {
            Some(s) => s.clone(),
            None => String::new(),
        };
        id
    }

    /// The platform-specific key/value pairs of a device.
    #[verifier::rlimit(100)]
    pub fn build_platform_specific_infos(d: &WinDevice) -> (r: Vec<(String, String)>)
        ensures
            pair_views(r@) =~= platform_infos_spec(*d),
    {
        let mut vs: Vec<(String, String)> = Vec::new();
        let rawinput = match &d.rawinput {
            Some(v) => v,
            None => {
                assert(pair_views(vs@) =~= platform_infos_spec(*d));
                return vs;
            },
        };
        let ghost base = seq![
            ("interface"@, rawinput.iface@),
            ("dwType"@, crate::strutil::dec_digits(rawinput.dw_type as nat)),
        ];
        vs.push(("interface".to_owned(), rawinput.iface.clone()));
        vs.push(("dwType".to_owned(), crate::strutil::fmt_u32(rawinput.dw_type)));
        assert(pair_views(vs@) =~= base);
        let ghost hid_part = if d.hid is Some {
            wso_pairs("hidManufacurer"@, d.hid->0.manufacturer) + wso_pairs(
                "hidProduct"@,
                d.hid->0.product,
            ) + wso_pairs("hidSerialNumber"@, d.hid->0.serial_number)
        } else {
            Seq::empty()
        };
        if let Some(hm) = &d.hid {
            if let crate::host::WStringOption::Value(s) = &hm.manufacturer {
                vs.push(("hidManufacurer".to_owned(), s.clone()));
            }
            if let crate::host::WStringOption::Value(s) = &hm.product {
                vs.push(("hidProduct".to_owned(), s.clone()));
            }
            if let crate::host::WStringOption::Value(s) = &hm.serial_number {
                vs.push(("hidSerialNumber".to_owned(), s.clone()));
            }
        }
        assert(pair_views(vs@) =~= base + hid_part);
        let ghost iface_part = if d.iface is Some {
            wso_pairs("manufacurer"@, d.iface->0.manufacurer) + wso_pairs("name"@, d.iface->0.name)
                + wso_pairs("service"@, d.iface->0.service) + wso_pairs("class"@, d.iface->0.class)
        } else {
            Seq::empty()
        };
        if let Some(im) = &d.iface {
            if let crate::host::WStringOption::Value(s) = &im.manufacurer {
                vs.push(("manufacurer".to_owned(), s.clone()));
            }
            if let crate::host::WStringOption::Value(s) = &im.name {
                vs.push(("name".to_owned(), s.clone()));
            }
            if let crate::host::WStringOption::Value(s) = &im.service {
                vs.push(("service".to_owned(), s.clone()));
            }
            if let crate::host::WStringOption::Value(s) = &im.class {
                vs.push(("class".to_owned(), s.clone()));
            }
        }
        assert(pair_views(vs@) =~= base + hid_part + iface_part);
        match &rawinput.info {
            RawDeviceInfo::Mouse(m) => {
                vs.push(("dwId".to_owned(), crate::strutil::fmt_u32(m.dw_id)));
                vs.push(
                    ("dwNumberOfButtons".to_owned(), crate::strutil::fmt_u32(
                        m.dw_number_of_buttons,
                    )),
                );
                vs.push(("dwSampleRate".to_owned(), crate::strutil::fmt_u32(m.dw_sample_rate)));
            },
            RawDeviceInfo::Hid(h) => {
                vs.push(("dwProductId".to_owned(), crate::strutil::fmt_u32(h.dw_product_id)));
                vs.push(("dwVendorId".to_owned(), crate::strutil::fmt_u32(h.dw_vendor_id)));
                vs.push(
                    ("dwVersionNumber".to_owned(), crate::strutil::fmt_u32(h.dw_version_number)),
                );
                vs.push(("usUsagePage".to_owned(), crate::strutil::fmt_hex_u16(h.us_usage_page)));
                vs.push(("usUsage".to_owned(), crate::strutil::fmt_hex_u16(h.us_usage)));
            },
            _ => {},
        }
        assert(pair_views(vs@) =~= platform_infos_spec(*d));
        vs
    }

    /// The platform-neutral descriptor of a device.
    pub fn win_device_to_generic(d: &WinDevice) -> (r: GenericDevice)
        requires
            d.id is Some,
        ensures
            generic_matches(r, *d),
    {
        let id = match &d.id {
            Some(s) => s.clone(),
            None => String::new(),
        };
        let name = Self::build_product_name(d);
        GenericDevice {
            id,
            device_type: d.device_type,
            product_name: crate::strutil::trim_spaces(name.as_str()),
            platform_specific_infos: Self::build_platform_specific_infos(d),
        }
    }

    /// The descriptors of every device carrying an identity, in registry
    /// order.
    pub fn list_generic_devices(&self) -> (r: Vec<GenericDevice>)
        ensures
            r@.len() == valid_devices(self.processor.devices.devs@).len(),
            forall|i: int|
                0 <= i < r@.len() ==> generic_matches(
                    #[trigger] r@[i],
                    valid_devices(self.processor.devices.devs@)[i],
                ),
    {
        let mut r: Vec<GenericDevice> = Vec::new();
        let n = self.processor.devices.devs.len();
        let mut i: usize = 0;
        while i < n
            invariant
                0 <= i <= n,
                n == self.processor.devices.devs@.len(),
                r@.len() == valid_devices(self.processor.devices.devs@.take(i as int)).len(),
                forall|j: int|
                    0 <= j < r@.len() ==> generic_matches(
                        #[trigger] r@[j],
                        valid_devices(self.processor.devices.devs@.take(i as int))[j],
                    ),
            decreases n - i,
        {
            proof {
                assert(self.processor.devices.devs@.take(i as int + 1).drop_last()
                    =~= self.processor.devices.devs@.take(i as int));
                assert(self.processor.devices.devs@.take(i as int + 1).last()
                    == self.processor.devices.devs@[i as int]);
            }
            let d = &self.processor.devices.devs[i];
            if Self::is_valid_win_device(d) {
                r.push(Self::win_device_to_generic(d));
            }
            i += 1;
        }
        proof {
            assert(self.processor.devices.devs@.take(n as int) =~= self.processor.devices.devs@);
        }
        r
    }

    /// The identity and liveness of every device carrying an identity, at
    /// the given tick.
    pub fn build_devices_status(&self, cur_tick: u64) -> (r: Vec<(String, DeviceStatus)>)
        ensures
            r@.len() == valid_devices(self.processor.devices.devs@).len(),
            forall|i: int|
                0 <= i < r@.len() ==> ({
                    let d = valid_devices(self.processor.devices.devs@)[i];
                    (#[trigger] r@[i]).0@ == d.id->0@ && r@[i].1 == device_status_spec(
                        d,
                        cur_tick,
                    )
                }),
    {
        let mut r: Vec<(String, DeviceStatus)> = Vec::new();
        let n = self.processor.devices.devs.len();
        let mut i: usize = 0;
        while i < n
            invariant
                0 <= i <= n,
                n == self.processor.devices.devs@.len(),
                r@.len() == valid_devices(self.processor.devices.devs@.take(i as int)).len(),
                forall|j: int|
                    0 <= j < r@.len() ==> ({
                        let d = valid_devices(self.processor.devices.devs@.take(i as int))[j];
                        (#[trigger] r@[j]).0@ == d.id->0@ && r@[j].1 == device_status_spec(
                            d,
                            cur_tick,
                        )
                    }),
            decreases n - i,
        {
            proof {
                assert(self.processor.devices.devs@.take(i as int + 1).drop_last()
                    =~= self.processor.devices.devs@.take(i as int));
                assert(self.processor.devices.devs@.take(i as int + 1).last()
                    == self.processor.devices.devs@[i as int]);
            }
            let d = &self.processor.devices.devs[i];
            if Self::is_valid_win_device(d) {
                let id = match &d.id {
                    Some(s) => s.clone(),
                    None => String::new(),
                };
                let status = Self::build_device_status(d, cur_tick);
                r.push((id, status));
            }
            i += 1;
        }
        proof {
            assert(self.processor.devices.devs@.take(n as int) =~= self.processor.devices.devs@);
        }
        r
    }

    /// Serves a forced device rescan: rebuilds the registry from the host
    /// enumeration and lists the known devices; a failed enumeration is
    /// reported and leaves the registry untouched.
    pub fn scan_devices(&mut self, now: u64, scan: Result<Vec<WinDevice>, Error>) -> (r: Result<
        Vec<GenericDevice>,
        Error,
    >)
        requires
            old(self).wf(),
            scan matches Ok(v) ==> forall|i: int| 0 <= i < v@.len() ==> (#[trigger] v@[i]).wf(),
        ensures
            final(self).wf(),
            final(self).processor.settings == old(self).processor.settings,
            final(self).processor.relocator == old(self).processor.relocator,
            final(self).processor.tick_widen == old(self).processor.tick_widen,
            final(self).hotkey_mgr == old(self).hotkey_mgr,
            match scan {
                Ok(devs) => r matches Ok(list) && {
                    &&& final(self).processor.devices.devs@.len() == devs@.len() + 1
                    &&& final(self).processor.devices.devs@.drop_last() =~= apply_settings_spec(
                        devs@,
                        old(self).processor.settings.devices@,
                    )
                    &&& is_unassociated_device(final(self).processor.devices.devs@.last())
                    &&& final(self).processor.devices.active_id is None
                    &&& !final(self).processor.to_update_devices
                    &&& list@.len() == valid_devices(final(self).processor.devices.devs@).len()
                    &&& (forall|i: int|
                        0 <= i < list@.len() ==> generic_matches(
                            #[trigger] list@[i],
                            valid_devices(final(self).processor.devices.devs@)[i],
                        ))
                },
                Err(e) => r matches Err(e2) && e2 == e && final(self).processor.devices == old(self).processor.devices,
            },
    {
        match self.processor.try_update_devices(true, now, scan) {
            Ok(()) => Ok(self.list_generic_devices()),
            Err(e) => Err(e),
        }
    }
}

/// What a shortcut press dispatches to: nothing for an unknown callback
/// handle; the lock path for the lock action (a headless embedding toggles
/// the policy, any other leaves the processor alone and notifies the control
/// surface); the jump for the jump action. The bindings themselves never
/// change here.
pub open spec fn shortcut_dispatch_rel(pre: WinEventLoop, post: WinEventLoop, cb: u32) -> bool {
    &&& post.hotkey_mgr == pre.hotkey_mgr
    &&& post.headless == pre.headless
    &&& if !pre.hotkey_mgr.lparam_to_cb@.contains_key(cb) {
        post == pre
    } else {
        match pre.hotkey_mgr.lparam_to_cb@[cb] {
            ShortcutID::CurMouseLock => if pre.headless {
                lock_toggle_rel(pre.processor, post.processor)
            } else {
                post.processor == pre.processor
            },
            ShortcutID::CurMouseJumpNext => jump_effect_rel(pre.processor, post.processor),
        }
    }
}

impl WinEventLoop {
    /// Re-binds one shortcut. The prior binding is always dropped; an empty
    /// string leaves the action unbound. `outcome` is what the host's
    /// registration attempt for the parsed shortcut came back with; a
    /// conflict surfaces as its own error kind so the user sees which binding
    /// to fix, any other failure carries the host's error code.
    pub fn apply_one_shortcut(
        mgr: &mut HotKeyManager<ShortcutID>,
        shortcut_str: &str,
        id: ShortcutID,
        outcome: Option<HostRegisterOutcome>,
    ) -> (r: Result<(), Error>)
        requires
            shortcut_str@.len() > 0 && crate::keyboard::shortcut_from_str_spec(shortcut_str@)
                is Some ==> outcome is Some,
        ensures
            ({
                let idv = (match id {
                    ShortcutID::CurMouseLock => 1000int,
                    ShortcutID::CurMouseJumpNext => 1001int,
                }) as i32;
                let unbound_ids = old(mgr).id_to_lparam@.remove(idv);
                let unbound_cbs = (match old(mgr).id_to_lparam@.contains_key(idv) {
                    true => old(mgr).lparam_to_cb@.remove(old(mgr).id_to_lparam@[idv]),
                    false => old(mgr).lparam_to_cb@,
                });
                if shortcut_str@.len() == 0 {
                    &&& r is Ok
                    &&& final(mgr).id_to_lparam@ == unbound_ids
                    &&& final(mgr).lparam_to_cb@ == unbound_cbs
                } else {
                    match crate::keyboard::shortcut_from_str_spec(shortcut_str@) {
                        Some(_) => match outcome->0 {
                            HostRegisterOutcome::Registered(lp) => {
                                &&& r is Ok
                                &&& final(mgr).id_to_lparam@ == unbound_ids.insert(idv, lp)
                                &&& final(mgr).lparam_to_cb@ == unbound_cbs.insert(lp, id)
                            },
                            HostRegisterOutcome::Conflict => {
                                &&& r matches Err(e) && e matches Error::ShortcutConflict(p)
                                    && p.0 matches Some(sv) && sv@ == shortcut_str@
                                &&& final(mgr).id_to_lparam@ == unbound_ids
                                &&& final(mgr).lparam_to_cb@ == unbound_cbs
                            },
                            HostRegisterOutcome::Failed(code) => {
                                &&& r matches Err(e) && e matches Error::WinCore(c) && c == code
                                &&& final(mgr).id_to_lparam@ == unbound_ids
                                &&& final(mgr).lparam_to_cb@ == unbound_cbs
                            },
                        },
                        None => {
                            &&& r matches Err(e) && e matches Error::InvalidShortcut(sv) && sv@
                                == shortcut_str@
                            &&& final(mgr).id_to_lparam@ == unbound_ids
                            &&& final(mgr).lparam_to_cb@ == unbound_cbs
                        },
                    }
                }
            }),
    {
        let idv = id.id_value();
        let _stale = mgr.unregister(idv);
        if shortcut_str.unicode_len() == 0 {
            return Ok(());
        }
        match crate::keyboard::shortcut_str_to_win(shortcut_str) {
            Some((_mods, _vk)) => match outcome {
                Some(HostRegisterOutcome::Registered(lp)) => {
                    mgr.register(idv, lp, id);
                    Ok(())
                },
                Some(HostRegisterOutcome::Conflict) => Err(
                    Error::ShortcutConflict(
                        crate::errors::PrintableOptionString::from_str_view(shortcut_str),
                    ),
                ),
                Some(HostRegisterOutcome::Failed(code)) => Err(Error::WinCore(code)),
                None => Err(Error::WinUnknown),
            },
            None => Err(Error::InvalidShortcut(shortcut_str.to_owned())),
        }
    }

    /// Whether re-binding a shortcut string, with the given host outcome,
    /// ends in an error.
    pub open spec fn shortcut_fails(s: Seq<char>, outcome: Option<HostRegisterOutcome>) -> bool {
        s.len() > 0 && match crate::keyboard::shortcut_from_str_spec(s) {
            Some(_) => !(outcome matches Some(HostRegisterOutcome::Registered(_))),
            None => true,
        }
    }

    /// The error a failed re-binding of the shortcut string reports: invalid
    /// syntax for an unparsable string, the conflict kind when the host says
    /// the shortcut is taken, the host's code otherwise.
    pub open spec fn shortcut_error_matches(
        s: Seq<char>,
        outcome: Option<HostRegisterOutcome>,
        e: Error,
    ) -> bool {
        match crate::keyboard::shortcut_from_str_spec(s) {
            Some(_) => match outcome {
                Some(HostRegisterOutcome::Conflict) => e matches Error::ShortcutConflict(p)
                    && p.0 matches Some(sv) && sv@ == s,
                Some(HostRegisterOutcome::Failed(code)) => e matches Error::WinCore(c) && c
                    == code,
                _ => e is WinUnknown,
            },
            None => e matches Error::InvalidShortcut(sv) && sv@ == s,
        }
    }

    /// Re-binds both configured shortcuts from the current settings,
    /// recording the host's outcomes. Each binding is applied even when the
    /// other fails; the reported error is the jump binding's when it failed,
    /// else the lock binding's; success is reported exactly when both
    /// bindings succeeded.
    pub fn register_shortcuts(
        &mut self,
        lock_outcome: Option<HostRegisterOutcome>,
        jump_outcome: Option<HostRegisterOutcome>,
    ) -> (r: Result<(), Error>)
        requires
            old(self).wf(),
            old(self).processor.settings.shortcuts.cur_mouse_lock@.len() > 0
                && crate::keyboard::shortcut_from_str_spec(
                old(self).processor.settings.shortcuts.cur_mouse_lock@,
            ) is Some ==> lock_outcome is Some,
            old(self).processor.settings.shortcuts.cur_mouse_jump_next@.len() > 0
                && crate::keyboard::shortcut_from_str_spec(
                old(self).processor.settings.shortcuts.cur_mouse_jump_next@,
            ) is Some ==> jump_outcome is Some,
        ensures
            final(self).wf(),
            final(self).processor == old(self).processor,
            r is Ok <==> (!Self::shortcut_fails(
                old(self).processor.settings.shortcuts.cur_mouse_lock@,
                lock_outcome,
            ) && !Self::shortcut_fails(
                old(self).processor.settings.shortcuts.cur_mouse_jump_next@,
                jump_outcome,
            )),
            r matches Err(e) ==> (if Self::shortcut_fails(
                old(self).processor.settings.shortcuts.cur_mouse_jump_next@,
                jump_outcome,
            ) {
                Self::shortcut_error_matches(
                    old(self).processor.settings.shortcuts.cur_mouse_jump_next@,
                    jump_outcome,
                    e,
                )
            } else {
                Self::shortcut_error_matches(
                    old(self).processor.settings.shortcuts.cur_mouse_lock@,
                    lock_outcome,
                    e,
                )
            }),
    {
        let lock_str = self.processor.settings.shortcuts.cur_mouse_lock.clone();
        let jump_str = self.processor.settings.shortcuts.cur_mouse_jump_next.clone();
        let mut last_error: Result<(), Error> = Ok(());
        match Self::apply_one_shortcut(
            &mut self.hotkey_mgr,
            lock_str.as_str(),
            ShortcutID::CurMouseLock,
            lock_outcome,
        ) {
            Ok(()) => {},
            Err(e) => {
                last_error = Err(e);
            },
        }
        match Self::apply_one_shortcut(
            &mut self.hotkey_mgr,
            jump_str.as_str(),
            ShortcutID::CurMouseJumpNext,
            jump_outcome,
        ) {
            Ok(()) => {},
            Err(e) => {
                last_error = Err(e);
            },
        }
        last_error
    }

    /// Replaces the processor settings and reports whether each shortcut
    /// binding took; the embedding supplies the host outcomes for the two
    /// registration attempts.
    pub fn apply_new_settings(
        &mut self,
        new_settings: ProcessorSettings,
        lock_outcome: Option<HostRegisterOutcome>,
        jump_outcome: Option<HostRegisterOutcome>,
    ) -> (r: Result<(), Error>)
        requires
            old(self).wf(),
            new_settings.shortcuts.cur_mouse_lock@.len() > 0
                && crate::keyboard::shortcut_from_str_spec(new_settings.shortcuts.cur_mouse_lock@)
                is Some ==> lock_outcome is Some,
            new_settings.shortcuts.cur_mouse_jump_next@.len() > 0
                && crate::keyboard::shortcut_from_str_spec(
                new_settings.shortcuts.cur_mouse_jump_next@,
            ) is Some ==> jump_outcome is Some,
        ensures
            final(self).wf(),
            final(self).processor.settings == new_settings,
            final(self).processor.devices.devs@ =~= apply_settings_spec(
                old(self).processor.devices.devs@,
                new_settings.devices@,
            ),
            r is Ok <==> (!Self::shortcut_fails(new_settings.shortcuts.cur_mouse_lock@,
            lock_outcome) && !Self::shortcut_fails(
                new_settings.shortcuts.cur_mouse_jump_next@,
                jump_outcome,
            )),
            r matches Err(e) ==> (if Self::shortcut_fails(
                new_settings.shortcuts.cur_mouse_jump_next@,
                jump_outcome,
            ) {
                Self::shortcut_error_matches(
                    new_settings.shortcuts.cur_mouse_jump_next@,
                    jump_outcome,
                    e,
                )
            } else {
                Self::shortcut_error_matches(
                    new_settings.shortcuts.cur_mouse_lock@,
                    lock_outcome,
                    e,
                )
            }),
    {
        self.processor.apply_processor_settings(Some(new_settings));
        self.register_shortcuts(lock_outcome, jump_outcome)
    }

    /// Replaces the settings from a loaded configuration.
    pub fn load_config(
        &mut self,
        config: crate::setting::Settings,
        lock_outcome: Option<HostRegisterOutcome>,
        jump_outcome: Option<HostRegisterOutcome>,
    ) -> (r: Result<(), Error>)
        requires
            old(self).wf(),
            config.processor.shortcuts.cur_mouse_lock@.len() > 0
                && crate::keyboard::shortcut_from_str_spec(
                config.processor.shortcuts.cur_mouse_lock@,
            ) is Some ==> lock_outcome is Some,
            config.processor.shortcuts.cur_mouse_jump_next@.len() > 0
                && crate::keyboard::shortcut_from_str_spec(
                config.processor.shortcuts.cur_mouse_jump_next@,
            ) is Some ==> jump_outcome is Some,
        ensures
            final(self).wf(),
            final(self).processor.settings == config.processor,
    {
        self.apply_new_settings(config.processor, lock_outcome, jump_outcome)
    }

    /// Dispatches a host shortcut press by its callback handle.
    pub fn on_shortcut(&mut self, cb: u32)
        requires
            old(self).wf(),
        ensures
            final(self).wf(),
            shortcut_dispatch_rel(*old(self), *final(self), cb),
    {
        let id = match self.hotkey_mgr.get_callback(cb) {
            Some(v) => *v,
            None => {
                return ;
            },
        };
        match id {
            ShortcutID::CurMouseLock => self.on_shortcut_cur_mouse_lock(),
            ShortcutID::CurMouseJumpNext => self.on_shortcut_cur_mouse_jump_next(),
        }
    }

    /// The lock shortcut: headless embeddings toggle the policy directly; a
    /// full embedding notifies the control surface, which owns the policy.
    pub fn on_shortcut_cur_mouse_lock(&mut self)
        requires
            old(self).wf(),
        ensures
            final(self).wf(),
            final(self).hotkey_mgr == old(self).hotkey_mgr,
            final(self).headless == old(self).headless,
            old(self).headless ==> lock_toggle_rel(old(self).processor, final(self).processor),
            !old(self).headless ==> final(self).processor == old(self).processor,
    {
        if self.headless {
            self.processor.cur_mouse_lock_toogle();
            return ;
        }
        let i = match self.processor.devices.active_id {
            Some(i) => i,
            None => {
                return ;
            },
        };
        let id = match &self.processor.devices.devs[i].id {
            Some(s) => s.clone(),
            None => {
                return ;
            },
        };
        self.mouse_control_reactor.ui_tx.send(Message::LockCurMouse(id));
    }

    /// The jump shortcut: jump-cycles the cursor to the next monitor.
    pub fn on_shortcut_cur_mouse_jump_next(&mut self)
        requires
            old(self).wf(),
        ensures
            final(self).wf(),
            final(self).hotkey_mgr == old(self).hotkey_mgr,
            final(self).headless == old(self).headless,
            jump_effect_rel(old(self).processor, final(self).processor),
    {
        match self.processor.devices.active_id {
            Some(i) => {
                self.processor.relocator.jump_to_next_monitor(
                    Some(&mut self.processor.devices.devs[i].ctrl),
                );
            },
            None => {
                self.processor.relocator.jump_to_next_monitor(None);
            },
        }
    }

    /// Answers a served device-scan request and returns the envelope to the
    /// control surface.
    pub fn scan_devices_respond(
        &mut self,
        data: RoundtripData<(), Vec<GenericDevice>>,
        now: u64,
        scan: Result<Vec<WinDevice>, Error>,
    )
        requires
            old(self).wf(),
            scan matches Ok(v) ==> forall|i: int| 0 <= i < v@.len() ==> (#[trigger] v@[i]).wf(),
        ensures
            final(self).wf(),
    {
        let mut data = data;
        let result = self.scan_devices(now, scan);
        data.set_result(result);
        self.mouse_control_reactor.return_msg(Message::ScanDevices(data));
    }

    /// Finishes a served settings request after the embedding obtained the
    /// host's two shortcut-registration outcomes for the requested settings:
    /// applies them, and answers the envelope with the request's context, or
    /// with the binding error.
    pub fn finish_apply_settings(
        &mut self,
        data: RoundtripData<ApplyProcessorSettingsData, ApplyProcessorSettingsCtx>,
        lock_outcome: Option<HostRegisterOutcome>,
        jump_outcome: Option<HostRegisterOutcome>,
    )
        requires
            old(self).wf(),
            data.request() is Some,
            ({
                let s = data.request()->0.proc_settings.shortcuts;
                &&& (s.cur_mouse_lock@.len() > 0 && crate::keyboard::shortcut_from_str_spec(
                    s.cur_mouse_lock@,
                ) is Some ==> lock_outcome is Some)
                &&& (s.cur_mouse_jump_next@.len() > 0 && crate::keyboard::shortcut_from_str_spec(
                    s.cur_mouse_jump_next@,
                ) is Some ==> jump_outcome is Some)
            }),
        ensures
            final(self).wf(),
            final(self).processor.settings == data.request()->0.proc_settings,
    {
        let mut data = data;
        let req = data.take_req();
        let result = self.apply_new_settings(req.proc_settings, lock_outcome, jump_outcome);
        match result {
            Ok(()) => data.set_ok(req.ctx),
            Err(e) => data.set_error(e),
        }
        self.mouse_control_reactor.return_msg(Message::ApplyProcessorSetting(data));
    }

    /// Handles one host window message: raw input feeds the processor, a
    /// device-change notification asks for a device rescan, a display or DPI
    /// change asks for a monitor rescan, and a hotkey press dispatches the
    /// bound action and hands back the relocation it staged, if any, for the
    /// embedding to apply.
    pub fn handle_wm_message(&mut self, msg: HostWindowEvent, now64: u64) -> (r: Option<MousePos>)
        requires
            old(self).wf(),
        ensures
            final(self).wf(),
            final(self).hotkey_mgr == old(self).hotkey_mgr,
            final(self).headless == old(self).headless,
            match msg {
                HostWindowEvent::RawInput { handle, positioning, tick } => raw_input_rel(
                    old(self).processor,
                    final(self).processor,
                    handle,
                    positioning,
                    tick,
                    now64,
                ) && r is None,
                HostWindowEvent::InputDeviceChange => final(self).processor
                    == (WinDeviceProcessor {
                    to_update_devices: true,
                    ..old(self).processor
                }) && r is None,
                HostWindowEvent::DisplayChange => final(self).processor == (WinDeviceProcessor {
                    to_update_monitors: true,
                    ..old(self).processor
                }) && r is None,
                HostWindowEvent::Hotkey(cb) => ({
                    let dispatched = WinEventLoop {
                        processor: WinDeviceProcessor {
                            relocator: MouseRelocator {
                                relocate_pos: (match r {
                                    Some(p) => Some(crate::mouse_control::RelocatePos(p)),
                                    None => None::<crate::mouse_control::RelocatePos>,
                                }),
                                ..final(self).processor.relocator
                            },
                            ..final(self).processor
                        },
                        ..*final(self)
                    };
                    &&& shortcut_dispatch_rel(*old(self), dispatched, cb)
                    &&& final(self).processor.relocator.relocate_pos is None
                }),
                HostWindowEvent::Other => *final(self) == *old(self) && r is None,
            },
    {
        match msg {
            HostWindowEvent::RawInput { handle, positioning, tick } => {
                self.processor.on_raw_input(handle, positioning, tick, now64);
                None
            },
            HostWindowEvent::InputDeviceChange => {
                self.processor.to_update_devices = true;
                None
            },
            HostWindowEvent::DisplayChange => {
                self.processor.to_update_monitors = true;
                None
            },
            HostWindowEvent::Hotkey(cb) => {
                self.on_shortcut(cb);
                self.processor.resolve_relocation()
            },
            HostWindowEvent::Other => None,
        }
    }

    /// The frame a message-serving step keeps: the bindings, the mode, the
    /// settings, the tick widener, the rate limiters, the pending-rescan
    /// flags, the registry size and the active device all stay.
    pub open spec fn message_step_frames(pre: WinEventLoop, post: WinEventLoop) -> bool {
        &&& post.hotkey_mgr == pre.hotkey_mgr
        &&& post.headless == pre.headless
        &&& post.processor.settings == pre.processor.settings
        &&& post.processor.tick_widen == pre.processor.tick_widen
        &&& post.processor.rl_update_mon == pre.processor.rl_update_mon
        &&& post.processor.rl_update_dev == pre.processor.rl_update_dev
        &&& post.processor.to_update_devices == pre.processor.to_update_devices
        &&& post.processor.to_update_monitors == pre.processor.to_update_monitors
        &&& post.processor.devices.devs@.len() == pre.processor.devices.devs@.len()
        &&& post.processor.devices.active_id == pre.processor.devices.active_id
    }

    /// Serves one inbound message. An exit request and the two requests that
    /// need host work come back as an outcome, the latter with their
    /// envelopes untouched; a position report feeds the relocation engine; a
    /// status request is answered from the registry at `now_tick` and
    /// returned; a one-device setting is applied to the registry; a message
    /// this loop does not serve comes back for the embedding to treat as a
    /// programming error.
    pub fn handle_message(&mut self, msg: Message, now_tick: u64) -> (r: Option<PollOutcome>)
        requires
            old(self).wf(),
        ensures
            final(self).wf(),
            Self::message_step_frames(*old(self), *final(self)),
            match msg {
                Message::Exit => r == Some(PollOutcome::Exited) && *final(self) == *old(self),
                Message::SysMouseEvent(ev) => r is None && pos_event_rel(
                    old(self).processor,
                    final(self).processor,
                    ev,
                ),
                Message::ScanDevices(d) => r == Some(PollOutcome::NeedDeviceScan(d)) && *final(self) == *old(self),
                Message::InspectDevicesStatus(_) => r is None && *final(self) == *old(self),
                Message::ApplyProcessorSetting(d) => r == Some(
                    PollOutcome::NeedShortcutRegistration(d),
                ) && *final(self) == *old(self),
                Message::ApplyOneDeviceSetting(d) => {
                    &&& r is None
                    &&& final(self).processor.devices.devs@ =~= (match d.payload() {
                        Some(item) => WinDeviceSet::apply_one_setting(
                            old(self).processor.devices.devs@,
                            item.id@,
                            item.content,
                        ),
                        None => old(self).processor.devices.devs@,
                    })
                    &&& final(self).processor.relocator == old(self).processor.relocator
                },
                _ => r == Some(PollOutcome::UnexpectedMessage(msg)) && *final(self) == *old(self),
            },
    {
        match msg {
            Message::Exit => Some(PollOutcome::Exited),
            Message::SysMouseEvent(mouse_ev) => {
                self.processor.on_mouse_event(&mouse_ev);
                None
            },
            Message::ScanDevices(data) => Some(PollOutcome::NeedDeviceScan(data)),
            Message::InspectDevicesStatus(data) => {
                let mut data = data;
                let ret = self.build_devices_status(now_tick);
                data.set_ok(ret);
                self.mouse_control_reactor.return_msg(Message::InspectDevicesStatus(data));
                None
            },
            Message::ApplyProcessorSetting(data) => Some(
                PollOutcome::NeedShortcutRegistration(data),
            ),
            Message::ApplyOneDeviceSetting(data) => {
                let mut data = data;
                match data.try_take() {
                    Some(item) => {
                        let ghost pre_devs = self.processor.devices.devs@;
                        let _ = self.processor.devices.update_one_device_settings(
                            item.id.as_str(),
                            &item.content,
                        );
                        proof {
                            lemma_apply_one_len(pre_devs, item.id@, item.content);
                        }
                    },
                    None => {},
                }
                None
            },
            other => Some(PollOutcome::UnexpectedMessage(other)),
        }
    }

    /// Drains the inbound channel, up to a bounded number of messages per
    /// pass, serving each message as `handle_message` says: position reports
    /// feed the relocation engine, status requests are answered at the given
    /// tick, one-device settings are applied, and requests that need host
    /// work are handed back for the embedding to serve.
    pub fn poll_messages(&mut self, now_tick: u64, max_events: u32) -> (r: PollOutcome)
        requires
            old(self).wf(),
        ensures
            final(self).wf(),
            Self::message_step_frames(*old(self), *final(self)),
    {
        let mut budget = max_events;
        while budget > 0
            invariant
                self.wf(),
                Self::message_step_frames(*old(self), *self),
            decreases budget,
        {
            budget -= 1;
            let msg = match self.mouse_control_reactor.mouse_control_rx.try_recv() {
                Some(msg) => msg,
                None => {
                    return PollOutcome::Idle;
                },
            };
            match self.handle_message(msg, now_tick) {
                Some(outcome) => {
                    return outcome;
                },
                None => {},
            }
        }
        PollOutcome::Idle
    }
}

proof fn lemma_find_dev_id_props(s: Seq<WinDevice>, id: Seq<char>, i: int)
    requires
        0 <= i <= s.len(),
    ensures
        match find_dev_id_from(s, id, i) {
            Some(k) => i <= k < s.len(),
            None => true,
        },
    decreases s.len() - i,
{
    if i < s.len() && !(s[i].id matches Some(d) && d@ == id) {
        lemma_find_dev_id_props(s, id, i + 1);
    }
}

} // verus!
