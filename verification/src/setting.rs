use vstd::prelude::*;

use crate::strutil::str_eq;

verus! {

/// Per-device user policy: clamp the cursor to the monitor the device is in,
/// and/or restore the device's last position when it becomes active again.
#[derive(Clone, Copy, Debug, PartialEq, Eq, Structural)]
pub struct DeviceSetting {
    pub locked_in_monitor: bool,
    pub switch: bool,
}

impl Default for DeviceSetting {
    fn default() -> (r: Self)
        ensures
            r == (DeviceSetting { locked_in_monitor: false, switch: false }),
    {
        DeviceSetting { locked_in_monitor: false, switch: false }
    }
}

impl DeviceSetting {
    /// A setting asks for work only if at least one policy is on.
    pub fn is_effective(&self) -> (r: bool)
        ensures
            r == (self.locked_in_monitor || self.switch),
    {
        self.locked_in_monitor || self.switch
    }
}

/// A per-device policy together with the identity of the device it is for.
#[derive(Clone, Debug)]
pub struct DeviceSettingItem {
    pub id: String,
    pub content: DeviceSetting,
}

/// Settings governing the device processor: the merge window for events that
/// carry no device identity, the per-device policies, and the shortcuts.
#[derive(Clone, Debug)]
pub struct ProcessorSettings {
    pub merge_unassociated_events_ms: i64,
    pub devices: Vec<DeviceSettingItem>,
    pub shortcuts: ShortcutSettings,
}

pub const DEFAULT_MERGE_UNASSOCIATED_EVENTS_MS: i64 = 5;

impl Default for ProcessorSettings {
    fn default() -> (r: Self)
        ensures
            r.merge_unassociated_events_ms == DEFAULT_MERGE_UNASSOCIATED_EVENTS_MS,
            r.devices@ =~= Seq::<DeviceSettingItem>::empty(),
            r.shortcuts.cur_mouse_lock@ == Seq::<char>::empty(),
            r.shortcuts.cur_mouse_jump_next@ == Seq::<char>::empty(),
    {
        ProcessorSettings {
            merge_unassociated_events_ms: DEFAULT_MERGE_UNASSOCIATED_EVENTS_MS,
            devices: Vec::new(),
            shortcuts: ShortcutSettings::default(),
        }
    }
}

/// The first position in `s`, at or after `i`, whose item is for device `id`.
pub open spec fn find_device_from(s: Seq<DeviceSettingItem>, id: Seq<char>, i: int) -> Option<int>
    decreases s.len() - i,
{
    if i < 0 || i >= s.len() {
        None
    } else if s[i].id@ == id {
        Some(i)
    } else {
        find_device_from(s, id, i + 1)
    }
}

proof fn lemma_find_device_step(s: Seq<DeviceSettingItem>, id: Seq<char>, i: int)
    requires
        0 <= i < s.len(),
        s[i].id@ != id,
    ensures
        find_device_from(s, id, i) == find_device_from(s, id, i + 1),
{
}

impl ProcessorSettings {
    /// The position of the setting stored for device `id`, if any.
    pub open spec fn device_index(self, id: Seq<char>) -> Option<int> {
        find_device_from(self.devices@, id, 0)
    }

    /// The stored policy for device `id`, if any.
    pub fn get_device(&self, id: &str) -> (r: Option<DeviceSetting>)
        ensures
            match self.device_index(id@) {
                Some(i) => r == Some(self.devices@[i].content),
                None => r is None,
            },
    {
        let n = self.devices.len();
        let mut idx: usize = 0;
        while idx < n
            invariant
                0 <= idx <= n,
                n == self.devices@.len(),
                find_device_from(self.devices@, id@, 0) == find_device_from(
                    self.devices@,
                    id@,
                    idx as int,
                ),
            decreases n - idx,
        {
            if str_eq(self.devices[idx].id.as_str(), id) {
                return Some(self.devices[idx].content);
            }
            proof {
                lemma_find_device_step(self.devices@, id@, idx as int);
            }
            idx += 1;
        }
        None
    }

    /// Replaces the stored policy for device `id`; reports whether a stored
    /// policy was found.
    pub fn mut_device(&mut self, id: &str, content: DeviceSetting) -> (found: bool)
        ensures
            match old(self).device_index(id@) {
                Some(i) => found && final(self).devices@ =~= old(self).devices@.update(
                    i,
                    DeviceSettingItem { id: old(self).devices@[i].id, content },
                ),
                None => !found && *final(self) == *old(self),
            },
            final(self).merge_unassociated_events_ms == old(self).merge_unassociated_events_ms,
            final(self).shortcuts == old(self).shortcuts,
            final(self).devices@.len() == old(self).devices@.len(),
    {
        let n = self.devices.len();
        let mut idx: usize = 0;
        while idx < n
            invariant
                0 <= idx <= n,
                *self == *old(self),
                n == self.devices@.len(),
                find_device_from(self.devices@, id@, 0) == find_device_from(
                    self.devices@,
                    id@,
                    idx as int,
                ),
            decreases n - idx,
        {
            if str_eq(self.devices[idx].id.as_str(), id) {
                self.devices[idx].content = content;
                return true;
            }
            proof {
                lemma_find_device_step(self.devices@, id@, idx as int);
            }
            idx += 1;
        }
        false
    }

    /// Replaces the stored policy for device `id`, storing a new entry when
    /// none exists yet.
    pub fn ensure_mut_device(&mut self, id: &str, content: DeviceSetting)
        ensures
            match old(self).device_index(id@) {
                Some(i) => final(self).devices@ =~= old(self).devices@.update(
                    i,
                    DeviceSettingItem { id: old(self).devices@[i].id, content },
                ),
                None => {
                    &&& final(self).devices@.len() == old(self).devices@.len() + 1
                    &&& final(self).devices@.subrange(0, old(self).devices@.len() as int) =~= old(self).devices@
                    &&& final(self).devices@.last().id@ == id@
                    &&& final(self).devices@.last().content == content
                },
            },
            final(self).merge_unassociated_events_ms == old(self).merge_unassociated_events_ms,
            final(self).shortcuts == old(self).shortcuts,
    {
        if self.mut_device(id, content) {
            return ;
        }
        self.devices.push(DeviceSettingItem { id: id.to_owned(), content });
    }
}

/// The shortcut strings the user configured, empty when unbound.
#[derive(Clone, Debug)]
pub struct ShortcutSettings {
    pub cur_mouse_lock: String,
    pub cur_mouse_jump_next: String,
}

impl Default for ShortcutSettings {
    fn default() -> (r: Self)
        ensures
            r.cur_mouse_lock@ == Seq::<char>::empty(),
            r.cur_mouse_jump_next@ == Seq::<char>::empty(),
    {
        ShortcutSettings { cur_mouse_lock: String::new(), cur_mouse_jump_next: String::new() }
    }
}

/// Settings governing the control surface.
#[derive(Clone, Debug)]
pub struct UISettings {
    pub theme: String,
    pub inspect_device_interval_ms: u64,
    pub hide_ui_on_launch: bool,
}

pub const DEFAULT_INSPECT_DEVICE_INTERVAL_MS: u64 = 100;

impl Default for UISettings {
    fn default() -> (r: Self)
        ensures
            r.theme@ == Seq::<char>::empty(),
            r.inspect_device_interval_ms == DEFAULT_INSPECT_DEVICE_INTERVAL_MS,
            !r.hide_ui_on_launch,
    {
        UISettings {
            theme: String::new(),
            inspect_device_interval_ms: DEFAULT_INSPECT_DEVICE_INTERVAL_MS,
            hide_ui_on_launch: false,
        }
    }
}

/// The whole persisted configuration.
#[derive(Clone, Debug)]
pub struct Settings {
    pub ui: UISettings,
    pub processor: ProcessorSettings,
}

impl Default for Settings {
    fn default() -> (r: Self)
        ensures
            r.ui.inspect_device_interval_ms == DEFAULT_INSPECT_DEVICE_INTERVAL_MS,
            r.processor.merge_unassociated_events_ms == DEFAULT_MERGE_UNASSOCIATED_EVENTS_MS,
            r.processor.devices@ =~= Seq::<DeviceSettingItem>::empty(),
    {
        Settings { ui: UISettings::default(), processor: ProcessorSettings::default() }
    }
}

} // verus!
