use std::collections::BTreeMap;

use vstd::prelude::*;

use crate::errors::Error;
use crate::utils::sat_add_u64;
use crate::utils::saturating_add_u64;

verus! {

broadcast use vstd::laws_cmp::group_laws_cmp, vstd::std_specs::btree::group_btree_axioms;

/// How often, at most, the monitor topology is rescanned, unless forced.
pub const RATELIMIT_UPDATE_MONITOR_ONCE_MS: u64 = 1000;

/// How often, at most, the device registry is rescanned, unless forced.
pub const RATELIMIT_UPDATE_DEVICE_ONCE_MS: u64 = 1000;

/// How recently a device must have been active to be reported as such.
pub const MOUSE_EVENT_ACTIVE_LAST_FOR_MS: u64 = 100;

/// How many host messages one pump iteration drains at most, so control
/// messages are never starved by a flood of input events.
pub const WIN_EVENTLOOP_POLL_MAX_MESSAGES: u32 = 20;

/// The bounded wait, in milliseconds, on the host's wait primitive per pump
/// iteration.
pub const WIN_EVENTLOOP_POLL_WAIT_TIMEOUT_MS: u32 = 20;

/// The host's raw-device classification of a device entry.
#[derive(PartialEq, Eq, Structural, Debug, Clone, Copy)]
pub enum RawDeviceType {
    MOUSE,
    KEYBOARD,
    HID,
    UNKNOWN,
}

impl RawDeviceType {
    pub open spec fn from_rid_spec(t: u32) -> RawDeviceType {
        if t == 0 {
            RawDeviceType::MOUSE
        } else if t == 1 {
            RawDeviceType::KEYBOARD
        } else if t == 2 {
            RawDeviceType::HID
        } else {
            RawDeviceType::UNKNOWN
        }
    }

    /// Classifies the host's numeric raw-device type code.
    pub fn from_rid(t: u32) -> (r: Self)
        ensures
            r == Self::from_rid_spec(t),
    {
        match t {
            0 => RawDeviceType::MOUSE,
            1 => RawDeviceType::KEYBOARD,
            2 => RawDeviceType::HID,
            _ => RawDeviceType::UNKNOWN,
        }
    }
}

/// What the host reports about a mouse-class raw device.
#[derive(Debug, Clone, Copy, PartialEq, Eq, Structural)]
pub struct RawMouseInfo {
    pub dw_id: u32,
    pub dw_number_of_buttons: u32,
    pub dw_sample_rate: u32,
}

/// What the host reports about a HID-class raw device.
#[derive(Debug, Clone, Copy, PartialEq, Eq, Structural)]
pub struct RawHidInfo {
    pub dw_vendor_id: u32,
    pub dw_product_id: u32,
    pub dw_version_number: u32,
    pub us_usage_page: u16,
    pub us_usage: u16,
}

/// The per-class payload of a raw-device entry.
#[derive(Debug, Clone, Copy, PartialEq, Eq, Structural)]
pub enum RawDeviceInfo {
    Mouse(RawMouseInfo),
    Keyboard,
    Hid(RawHidInfo),
    Unknown,
}

/// What the host's raw-input enumeration reports about one device: its
/// numeric type code, its class payload, and its interface path.
#[derive(Debug, Clone)]
pub struct RawinputInfo {
    pub dw_type: u32,
    pub info: RawDeviceInfo,
    pub iface: String,
}

impl RawinputInfo {
    /// The payload matches the numeric type code.
    pub open spec fn wf(self) -> bool {
        match RawDeviceType::from_rid_spec(self.dw_type) {
            RawDeviceType::MOUSE => self.info is Mouse,
            RawDeviceType::KEYBOARD => self.info is Keyboard,
            RawDeviceType::HID => self.info is Hid,
            RawDeviceType::UNKNOWN => self.info is Unknown,
        }
    }

    pub fn typ(&self) -> (r: RawDeviceType)
        ensures
            r == RawDeviceType::from_rid_spec(self.dw_type),
    {
        RawDeviceType::from_rid(self.dw_type)
    }
}

/// A device property value: present, absent, or failed to read. A failure to
/// read a single property never aborts a rescan.
#[derive(Debug)]
pub enum WStringOption {
    Value(String),
    NoValue,
    GetErr(Error),
}

impl WStringOption {
    /// The text this value displays as.
    pub open spec fn display_spec(self) -> Seq<char> {
        match self {
            WStringOption::Value(s) => s@,
            WStringOption::NoValue => "NoValue"@,
            WStringOption::GetErr(_) => "GetPropErr"@,
        }
    }

    /// The text to display for this value.
    pub fn display_string(&self) -> (r: String)
        ensures
            r@ == self.display_spec(),
    {
        match self {
            WStringOption::Value(s) => s.clone(),
            WStringOption::NoValue => "NoValue".to_owned(),
            WStringOption::GetErr(_) => "GetPropErr".to_owned(),
        }
    }

    pub fn is_some(&self) -> (r: bool)
        ensures
            r == (self matches WStringOption::Value(_)),
    {
        match self {
            WStringOption::Value(_) => true,
            _ => false,
        }
    }
}

/// The identity-related properties of a HID device.
#[derive(Debug)]
pub struct HidDeviceInfo {
    pub serial_number: WStringOption,
    pub manufacturer: WStringOption,
    pub product: WStringOption,
}

/// The driver-level properties of a device interface.
#[derive(Debug)]
pub struct DeviceIfaceInfo {
    pub instance_id: String,
    pub name: WStringOption,
    pub service: WStringOption,
    pub class: WStringOption,
    pub manufacurer: WStringOption,
}

/// One monitor as the host enumerates it: its handle, its rectangle in
/// virtual-screen coordinates, and its scale factor in percent.
#[derive(Debug, Clone, Copy, PartialEq, Eq, Structural)]
pub struct MonitorInfo {
    pub handle: u64,
    pub left: i32,
    pub top: i32,
    pub right: i32,
    pub bottom: i32,
    pub scale: u32,
}

/// The width of the host's narrow tick counter: it wraps past this value.
pub const MAX_SHORT_TICK: u64 = 4294967295;

/// How far a narrow tick may run ahead before the stored one is refreshed.
pub const MIN_FLUSH_TICK: u32 = 1000;

/// Widens the host's wrapping 32-bit millisecond counter into a monotonic
/// 64-bit tick: a rolling epoch offset is kept, re-synchronised from the
/// host's wide counter whenever the narrow counter wraps, and the produced
/// tick never decreases.
#[derive(Debug, Clone, Copy)]
pub struct TickWiden {
    pub accu_tick: u64,
    pub last_tick: u32,
    pub last_wide: u64,
}

impl TickWiden {
    /// The epoch offset derived from the host's wide counter.
    pub open spec fn epoch_of(now64: u64) -> u64 {
        ((now64 as int / MAX_SHORT_TICK as int) * MAX_SHORT_TICK as int) as u64
    }

    /// A widener synchronised to the host's wide counter `now64`.
    pub fn new(now64: u64) -> (r: TickWiden)
        ensures
            r.accu_tick == Self::epoch_of(now64),
            r.last_tick == 0,
            r.last_wide == 0,
    {
        TickWiden { accu_tick: now64 / MAX_SHORT_TICK * MAX_SHORT_TICK, last_tick: 0, last_wide: 0 }
    }

    /// Re-synchronises the epoch offset from the host's wide counter.
    pub fn flush(&mut self, now64: u64)
        ensures
            *final(self) == (TickWiden { accu_tick: Self::epoch_of(now64), ..*old(self) }),
    {
        self.accu_tick = now64 / MAX_SHORT_TICK * MAX_SHORT_TICK;
    }

    /// The transition made by `widen`: `t` is the narrow tick of the event,
    /// `now64` the host's wide counter, read only when re-synchronising.
    pub open spec fn widen_spec(self, t: u32, now64: u64) -> (TickWiden, u64) {
        let synced = if t >= self.last_tick {
            if t - self.last_tick > MIN_FLUSH_TICK {
                TickWiden { last_tick: t, ..self }
            } else {
                self
            }
        } else {
            TickWiden { accu_tick: Self::epoch_of(now64), last_tick: t, ..self }
        };
        let raw = sat_add_u64(synced.accu_tick, t as u64);
        let wide = if raw >= self.last_wide {
            raw
        } else {
            self.last_wide
        };
        (TickWiden { last_wide: wide, ..synced }, wide)
    }

    /// Widens one narrow tick. The result never decreases from one call to
    /// the next, whatever the host counters report.
    pub fn widen(&mut self, t: u32, now64: u64) -> (r: u64)
        ensures
            (*final(self), r) == old(self).widen_spec(t, now64),
            r >= old(self).last_wide,
            final(self).last_wide == r,
    {
        if t >= self.last_tick {
            if t - self.last_tick > MIN_FLUSH_TICK {
                self.last_tick = t;
            }
        } else {
            self.flush(now64);
            self.last_tick = t;
        }
        let raw = saturating_add_u64(self.accu_tick, t as u64);
        let wide = if raw >= self.last_wide {
            raw
        } else {
            self.last_wide
        };
        self.last_wide = wide;
        wide
    }
}

/// The widened ticks produced by one widener over a sequence of inputs; each
/// input pairs the narrow tick with the wide counter the host would hand back
/// at that moment.
pub open spec fn widen_outputs(w: TickWiden, inputs: Seq<(u32, u64)>) -> Seq<u64>
    decreases inputs.len(),
{
    if inputs.len() == 0 {
        Seq::empty()
    } else {
        let prefix = widen_outputs(w, inputs.drop_last());
        let state = widen_state(w, inputs.drop_last());
        prefix.push(state.widen_spec(inputs.last().0, inputs.last().1).1)
    }
}

pub open spec fn widen_state(w: TickWiden, inputs: Seq<(u32, u64)>) -> TickWiden
    decreases inputs.len(),
{
    if inputs.len() == 0 {
        w
    } else {
        widen_state(w, inputs.drop_last()).widen_spec(inputs.last().0, inputs.last().1).0
    }
}

proof fn lemma_widen_outputs_len(w: TickWiden, inputs: Seq<(u32, u64)>)
    ensures
        widen_outputs(w, inputs).len() == inputs.len(),
    decreases inputs.len(),
{
    if inputs.len() > 0 {
        lemma_widen_outputs_len(w, inputs.drop_last());
    }
}

proof fn lemma_widen_output_is_state(w: TickWiden, inputs: Seq<(u32, u64)>, i: int)
    requires
        0 <= i < inputs.len(),
    ensures
        widen_outputs(w, inputs)[i] == widen_state(w, inputs.take(i + 1)).last_wide,
    decreases inputs.len(),
{
    lemma_widen_outputs_len(w, inputs);
    lemma_widen_outputs_len(w, inputs.drop_last());
    if inputs.len() > 0 {
        if i == inputs.len() - 1 {
            assert(inputs.take(i + 1) =~= inputs);
        } else {
            lemma_widen_output_is_state(w, inputs.drop_last(), i);
            assert(inputs.drop_last().take(i + 1) =~= inputs.take(i + 1));
        }
    }
}

proof fn lemma_widen_state_monotonic(w: TickWiden, inputs: Seq<(u32, u64)>, i: int, j: int)
    requires
        0 <= i <= j <= inputs.len(),
    ensures
        widen_state(w, inputs.take(i)).last_wide <= widen_state(w, inputs.take(j)).last_wide,
    decreases j - i,
{
    if i < j {
        lemma_widen_state_monotonic(w, inputs, i, j - 1);
        let prev = widen_state(w, inputs.take(j - 1));
        assert(inputs.take(j).drop_last() =~= inputs.take(j - 1));
    }
}

/// Tick-widening monotonicity: over any sequence of native tick values,
/// wraparounds included, and whatever wide counter values the host reports,
/// the widened tick sequence is non-decreasing.
pub proof fn lemma_tick_widening_monotonic(w: TickWiden, inputs: Seq<(u32, u64)>, i: int, j: int)
    requires
        0 <= i <= j < inputs.len(),
    ensures
        widen_outputs(w, inputs)[i] <= widen_outputs(w, inputs)[j],
{
    lemma_widen_output_is_state(w, inputs, i);
    lemma_widen_output_is_state(w, inputs, j);
    lemma_widen_state_monotonic(w, inputs, i + 1, j + 1);
}

/// The flag bit set in a raw mouse report that moves by absolute coordinates.
pub const RAWINPUT_MOUSE_FLAGS_ABSOLUTE: u16 = 1;

/// Whether a raw report comes from a device reporting absolute coordinates:
/// known only for mouse-class reports, from their flags.
pub fn check_mouse_event_is_absolute(dw_type: u32, us_flags: u16) -> (r: Option<bool>)
    ensures
        r == (if RawDeviceType::from_rid_spec(dw_type) is MOUSE {
            Some((us_flags & RAWINPUT_MOUSE_FLAGS_ABSOLUTE) > 0)
        } else {
            None::<bool>
        }),
{
    match RawDeviceType::from_rid(dw_type) {
        RawDeviceType::MOUSE => Some((us_flags & RAWINPUT_MOUSE_FLAGS_ABSOLUTE) > 0),
        _ => None,
    }
}

/// The bidirectional bookkeeping of registered global shortcuts: logical id
/// to host callback handle, and host callback handle to callback payload.
/// The host registration calls themselves are made by the embedding, which
/// records their outcome here.
pub struct HotKeyManager<T> {
    pub id_to_lparam: BTreeMap<i32, u32>,
    pub lparam_to_cb: BTreeMap<u32, T>,
}

impl<T> HotKeyManager<T> {
    pub fn new() -> (r: Self)
        ensures
            r.id_to_lparam@ == Map::<i32, u32>::empty(),
            r.lparam_to_cb@ == Map::<u32, T>::empty(),
    {
        Self { id_to_lparam: BTreeMap::new(), lparam_to_cb: BTreeMap::new() }
    }

    /// Records a fresh binding of logical id `id` to the host handle
    /// `lparam` with callback payload `cb`, dropping any prior binding of the
    /// same id.
    pub fn register(&mut self, id: i32, lparam: u32, cb: T)
        ensures
            final(self).id_to_lparam@ == old(self).id_to_lparam@.insert(id, lparam),
            final(self).lparam_to_cb@ == (match old(self).id_to_lparam@.contains_key(id) {
                true => old(self).lparam_to_cb@.remove(old(self).id_to_lparam@[id]).insert(
                    lparam,
                    cb,
                ),
                false => old(self).lparam_to_cb@.insert(lparam, cb),
            }),
    {
        match self.id_to_lparam.get(&id) {
            Some(h) => {
                let hv = *h;
                self.lparam_to_cb.remove(&hv);
            },
            None => {},
        }
        self.id_to_lparam.insert(id, lparam);
        self.lparam_to_cb.insert(lparam, cb);
    }

    /// Removes the binding of logical id `id` and hands back the host handle
    /// the embedding must unregister, if one was bound.
    pub fn unregister(&mut self, id: i32) -> (r: Option<u32>)
        ensures
            match old(self).id_to_lparam@.contains_key(id) {
                true => {
                    &&& r == Some(old(self).id_to_lparam@[id])
                    &&& final(self).id_to_lparam@ == old(self).id_to_lparam@.remove(id)
                    &&& final(self).lparam_to_cb@ == old(self).lparam_to_cb@.remove(
                        old(self).id_to_lparam@[id],
                    )
                },
                false => {
                    &&& r is None
                    &&& final(self).id_to_lparam@ == old(self).id_to_lparam@
                    &&& final(self).lparam_to_cb@ == old(self).lparam_to_cb@
                },
            },
    {
        match self.id_to_lparam.get(&id) {
            Some(h) => {
                let hv = *h;
                self.lparam_to_cb.remove(&hv);
                self.id_to_lparam.remove(&id);
                Some(hv)
            },
            None => None,
        }
    }

    /// The dispatch lookup used when the host reports a shortcut press.
    pub fn get_callback(&self, lparam: u32) -> (r: Option<&T>)
        ensures
            match r {
                Some(cb) => self.lparam_to_cb@.contains_key(lparam) && *cb
                    == self.lparam_to_cb@[lparam],
                None => !self.lparam_to_cb@.contains_key(lparam),
            },
    {
        self.lparam_to_cb.get(&lparam)
    }
}

} // verus!
