use vstd::calc;
use vstd::prelude::*;

use crate::message::Positioning;
use crate::setting::DeviceSetting;

verus! {

/// A point in virtual-screen coordinates.
#[derive(Default, Clone, Copy, Debug, PartialEq, Eq, Structural)]
pub struct MousePos {
    pub x: i32,
    pub y: i32,
}

impl MousePos {
    pub fn from(x: i32, y: i32) -> (r: Self)
        ensures
            r == (MousePos { x, y }),
    {
        MousePos { x, y }
    }
}

/// A rectangular monitor region: top-left and bottom-right corner,
/// both corners inclusive.
#[derive(Default, Clone, Copy, Debug, PartialEq, Eq, Structural)]
pub struct MonitorArea {
    pub lefttop: MousePos,
    pub rigtbtm: MousePos,
}

impl MonitorArea {
    /// A well-formed area has its corners ordered.
    pub open spec fn wf(self) -> bool {
        self.lefttop.x <= self.rigtbtm.x && self.lefttop.y <= self.rigtbtm.y
    }

    /// Areas kept after a topology rescan are never degenerate:
    /// both sides have positive length.
    pub open spec fn nondegenerate(self) -> bool {
        self.lefttop.x < self.rigtbtm.x && self.lefttop.y < self.rigtbtm.y
    }

    pub open spec fn contains_spec(self, p: MousePos) -> bool {
        &&& self.lefttop.x <= p.x <= self.rigtbtm.x
        &&& self.lefttop.y <= p.y <= self.rigtbtm.y
    }

    pub fn contains(&self, p: &MousePos) -> (r: bool)
        ensures
            r == self.contains_spec(*p),
    {
        (self.lefttop.x <= p.x && p.x <= self.rigtbtm.x)
            && (self.lefttop.y <= p.y && p.y <= self.rigtbtm.y)
    }

    pub open spec fn clamp1(low: int, high: int, v: int) -> int {
        if v < low {
            low
        } else if v > high {
            high
        } else {
            v
        }
    }

    pub open spec fn capture_pos_spec(self, p: MousePos) -> MousePos {
        MousePos {
            x: Self::clamp1(
                self.lefttop.x as int,
                self.rigtbtm.x - RESERVE_PIXEL,
                p.x as int,
            ) as i32,
            y: Self::clamp1(
                self.lefttop.y as int,
                self.rigtbtm.y - RESERVE_PIXEL,
                p.y as int,
            ) as i32,
        }
    }

    /// Clamps `p` into the rectangle, reserving the inset on the right and
    /// bottom edges so a clamped cursor never sits exactly on a boundary
    /// pixel the host might treat as the adjacent monitor's; a point already
    /// inside minus the inset is returned unchanged.
    pub fn capture_pos(&self, p: &MousePos) -> (r: MousePos)
        requires
            self.nondegenerate(),
        ensures
            r == self.capture_pos_spec(*p),
            self.contains_spec(r),
            r.x <= self.rigtbtm.x - RESERVE_PIXEL,
            r.y <= self.rigtbtm.y - RESERVE_PIXEL,
    {
        let x1 = if p.x < self.lefttop.x {
            self.lefttop.x
        } else if p.x > self.rigtbtm.x - RESERVE_PIXEL {
            self.rigtbtm.x - RESERVE_PIXEL
        } else {
            p.x
        };
        let y1 = if p.y < self.lefttop.y {
            self.lefttop.y
        } else if p.y > self.rigtbtm.y - RESERVE_PIXEL {
            self.rigtbtm.y - RESERVE_PIXEL
        } else {
            p.y
        };
        MousePos { x: x1, y: y1 }
    }

    /// Division by two rounding towards zero, as the machine does it.
    pub open spec fn div2_trunc(n: int) -> int {
        if n >= 0 {
            n / 2
        } else {
            -((-n) / 2)
        }
    }

    pub open spec fn center_spec(self) -> MousePos {
        MousePos {
            x: Self::div2_trunc(self.lefttop.x + self.rigtbtm.x) as i32,
            y: Self::div2_trunc(self.lefttop.y + self.rigtbtm.y) as i32,
        }
    }

    /// The integer midpoint, used as the landing spot on a monitor jump.
    pub fn center(&self) -> (r: MousePos)
        requires
            self.wf(),
        ensures
            r == self.center_spec(),
            self.contains_spec(r),
    {
        let x = (self.lefttop.x as i64 + self.rigtbtm.x as i64) / 2;
        let y = (self.lefttop.y as i64 + self.rigtbtm.y as i64) / 2;
        MousePos { x: x as i32, y: y as i32 }
    }
}

/// The inset the clamp reserves on a monitor's right and bottom edges, so a
/// clamped cursor never sits on a boundary pixel shared with the adjacent
/// monitor.
pub const RESERVE_PIXEL: i32 = 1;

/// The position in `s`, at or after `i`, of the first area containing `p`.
pub open spec fn first_contain_from(s: Seq<MonitorArea>, p: MousePos, i: int) -> Option<int>
    decreases s.len() - i,
{
    if i < 0 || i >= s.len() {
        None
    } else if s[i].contains_spec(p) {
        Some(i)
    } else {
        first_contain_from(s, p, i + 1)
    }
}

proof fn lemma_first_contain_step(s: Seq<MonitorArea>, p: MousePos, i: int)
    requires
        0 <= i < s.len(),
        !s[i].contains_spec(p),
    ensures
        first_contain_from(s, p, i) == first_contain_from(s, p, i + 1),
{
}

/// What a located index means: it is in range, its area contains the point,
/// and no earlier area does.
pub proof fn lemma_first_contain_props(s: Seq<MonitorArea>, p: MousePos, i: int)
    requires
        0 <= i <= s.len(),
    ensures
        match first_contain_from(s, p, i) {
            Some(k) => i <= k < s.len() && s[k].contains_spec(p) && (forall|j: int|
                i <= j < k ==> !(#[trigger] s[j]).contains_spec(p)),
            None => forall|j: int| i <= j < s.len() ==> !(#[trigger] s[j]).contains_spec(p),
        },
    decreases s.len() - i,
{
    if i < s.len() && !s[i].contains_spec(p) {
        lemma_first_contain_props(s, p, i + 1);
    }
}

/// The ordered list of monitor rectangles, in the host's enumeration order.
pub struct MonitorAreasList {
    pub list: Vec<MonitorArea>,
}

impl MonitorAreasList {
    /// Every area kept in the list is non-degenerate.
    pub open spec fn wf(self) -> bool {
        forall|i: int| 0 <= i < self.list@.len() ==> (#[trigger] self.list@[i]).nondegenerate()
    }

    pub fn from(list: Vec<MonitorArea>) -> (r: Self)
        requires
            forall|i: int| 0 <= i < list@.len() ==> (#[trigger] list@[i]).nondegenerate(),
        ensures
            r.list == list,
            r.wf(),
    {
        MonitorAreasList { list }
    }

    /// The position of the first area containing `p`, if any.
    pub open spec fn locate_id_spec(self, p: MousePos) -> Option<int> {
        first_contain_from(self.list@, p, 0)
    }

    /// The first area (in list order) containing `p`; none when `p` falls in
    /// no-man's-land, which callers treat as a stale topology, never as an
    /// error.
    pub fn locate(&self, p: &MousePos) -> (r: Option<&MonitorArea>)
        ensures
            match self.locate_id_spec(*p) {
                Some(i) => r matches Some(a) && *a == self.list@[i],
                None => r is None,
            },
    {
        let n = self.list.len();
        let mut idx: usize = 0;
        while idx < n
            invariant
                0 <= idx <= n,
                n == self.list@.len(),
                first_contain_from(self.list@, *p, 0) == first_contain_from(
                    self.list@,
                    *p,
                    idx as int,
                ),
            decreases n - idx,
        {
            if self.list[idx].contains(p) {
                return Some(&self.list[idx]);
            }
            proof {
                lemma_first_contain_step(self.list@, *p, idx as int);
            }
            idx += 1;
        }
        None
    }

    /// Like `locate`, returning the index instead of the area.
    pub fn locate_id(&self, p: &MousePos) -> (r: Option<usize>)
        ensures
            match self.locate_id_spec(*p) {
                Some(i) => r matches Some(u) && u as int == i,
                None => r is None,
            },
    {
        let n = self.list.len();
        let mut idx: usize = 0;
        while idx < n
            invariant
                0 <= idx <= n,
                n == self.list@.len(),
                first_contain_from(self.list@, *p, 0) == first_contain_from(
                    self.list@,
                    *p,
                    idx as int,
                ),
            decreases n - idx,
        {
            if self.list[idx].contains(p) {
                return Some(idx);
            }
            proof {
                lemma_first_contain_step(self.list@, *p, idx as int);
            }
            idx += 1;
        }
        None
    }

    pub fn is_empty(&self) -> (r: bool)
        ensures
            r == (self.list@.len() == 0),
    {
        self.list.len() == 0
    }

    /// The next index in the circular monitor order. The modulo is evaluated
    /// against the current list length, so a stale id still resolves.
    pub fn next_id(&self, round_id: usize) -> (r: usize)
        requires
            self.list@.len() > 0,
            round_id < usize::MAX,
        ensures
            r == (round_id + 1) as int % self.list@.len() as int,
            r < self.list@.len(),
    {
        (round_id + 1) % self.list.len()
    }

    /// The area at a circular index.
    pub fn get_area(&self, round_id: usize) -> (r: Option<&MonitorArea>)
        requires
            self.list@.len() > 0,
        ensures
            r matches Some(a) && *a == self.list@[round_id as int % self.list@.len() as int],
    {
        Some(&self.list[round_id % self.list.len()])
    }
}

/// Per-device tracking state: the device's policy, its last-known
/// position/tick, its positioning mode, and the monitor it is clamped to.
#[derive(Debug, Clone, Copy)]
pub struct DeviceController {
    pub id: u64,
    pub setting: DeviceSetting,
    /// Widened tick of the last activity, in milliseconds; 0 means never
    /// active.
    pub last_active_tick: u64,
    pub last_active_pos: MousePos,
    pub positioning: Positioning,
    pub locked_area: Option<MonitorArea>,
}

impl DeviceController {
    /// A cached lock region, when present, always comes from a rescan that
    /// discarded degenerate rectangles.
    pub open spec fn wf(self) -> bool {
        self.locked_area matches Some(a) ==> a.nondegenerate()
    }

    /// A freshly created controller with an all-off policy.
    pub open spec fn new_spec(id: u64) -> DeviceController {
        DeviceController {
            id,
            setting: DeviceSetting { locked_in_monitor: false, switch: false },
            last_active_tick: 0u64,
            last_active_pos: MousePos { x: 0i32, y: 0i32 },
            positioning: Positioning::Unknown,
            locked_area: None::<MonitorArea>,
        }
    }

    pub fn new(id: u64, setting: DeviceSetting) -> (r: DeviceController)
        ensures
            r == (DeviceController {
                id,
                setting,
                last_active_tick: 0u64,
                last_active_pos: MousePos { x: 0i32, y: 0i32 },
                positioning: Positioning::Unknown,
                locked_area: None::<MonitorArea>,
            }),
            r.wf(),
    {
        DeviceController {
            id,
            setting,
            last_active_tick: 0,
            last_active_pos: MousePos { x: 0, y: 0 },
            positioning: Positioning::Unknown,
            locked_area: None,
        }
    }

    /// Replaces the policy. The cached lock region is invalidated along with
    /// it: a region computed under the old policy must never leak into
    /// behaviour under the new one.
    pub fn update_settings(&mut self, new_setting: &DeviceSetting)
        ensures
            *final(self) == (DeviceController {
                setting: *new_setting,
                locked_area: None::<MonitorArea>,
                ..*old(self)
            }),
            final(self).locked_area is None,
            final(self).wf(),
    {
        self.locked_area = None;
        self.setting = *new_setting;
    }

    /// Records the positioning mode of the most recent raw event.
    pub fn update_positioning(&mut self, p: Positioning)
        ensures
            *final(self) == (DeviceController { positioning: p, ..*old(self) }),
    {
        self.positioning = p;
    }

    /// Forgets everything a topology change invalidates: the lock region and
    /// the last-active tick.
    pub fn reset(&mut self)
        ensures
            *final(self) == (DeviceController {
                locked_area: None::<MonitorArea>,
                last_active_tick: 0u64,
                ..*old(self)
            }),
            final(self).wf(),
    {
        self.locked_area = None;
        self.last_active_tick = 0;
    }

    fn update_pos(&mut self, p: &MousePos, tick: u64)
        ensures
            *final(self) == (DeviceController {
                last_active_pos: *p,
                last_active_tick: tick,
                ..*old(self)
            }),
    {
        self.last_active_pos = *p;
        self.last_active_tick = tick;
    }

    /// The device's history, or none until it has been active at least once.
    pub open spec fn get_last_pos_spec(self) -> Option<(u64, MousePos, Positioning)> {
        if self.last_active_tick > 0 {
            Some((self.last_active_tick, self.last_active_pos, self.positioning))
        } else {
            None
        }
    }

    pub fn get_last_pos(&self) -> (r: Option<(u64, MousePos, Positioning)>)
        ensures
            r == self.get_last_pos_spec(),
    {
        if self.last_active_tick > 0 {
            Some((self.last_active_tick, self.last_active_pos, self.positioning))
        } else {
            None
        }
    }
}

/// A one-shot relocation output: the position the cursor must be moved to.
#[derive(Debug, Clone, Copy, PartialEq, Eq, Structural)]
pub struct RelocatePos(pub MousePos);

impl RelocatePos {
    pub fn from(pos: MousePos) -> (r: Option<Self>)
        ensures
            r == Some(RelocatePos(pos)),
    {
        Some(Self(pos))
    }
}

/// Stores `Some(p)` at position `i`, first growing the sequence with empty
/// slots if it is too short.
pub open spec fn jump_slot_set(s: Seq<Option<MousePos>>, i: int, p: MousePos) -> Seq<
    Option<MousePos>,
> {
    let grown = if i < s.len() {
        s
    } else {
        s + Seq::new((i + 1 - s.len()) as nat, |j: int| None::<MousePos>)
    };
    grown.update(i, Some(p))
}

/// The cursor-relocation engine: tracks the topology, the owning device, the
/// current cursor position, the pending one-shot outputs, and the remembered
/// per-monitor positions used when jump-cycling monitors.
pub struct MouseRelocator {
    pub monitors: MonitorAreasList,
    pub cur_mouse: u64,
    pub cur_pos: MousePos,
    pub relocate_pos: Option<RelocatePos>,
    pub to_update_monitors: bool,
    pub last_jump_pos: Vec<Option<MousePos>>,
}

impl MouseRelocator {
    /// Remembered jump positions are only ever stored under the index of the
    /// monitor that contained them.
    pub open spec fn slots_wf(self) -> bool {
        forall|i: int|
            0 <= i < self.last_jump_pos@.len() ==> ((#[trigger] self.last_jump_pos@[i]) matches Some(
                p,
            ) ==> self.monitors.locate_id_spec(p) == Some(i))
    }

    pub open spec fn wf(self) -> bool {
        self.monitors.wf() && self.slots_wf()
    }

    pub fn new() -> (r: Self)
        ensures
            r.monitors.list@.len() == 0,
            r.cur_mouse == 0,
            r.cur_pos == (MousePos { x: 0i32, y: 0i32 }),
            r.relocate_pos is None,
            !r.to_update_monitors,
            r.last_jump_pos@.len() == 0,
            r.wf(),
    {
        MouseRelocator {
            monitors: MonitorAreasList { list: Vec::new() },
            cur_mouse: 0,
            cur_pos: MousePos { x: 0, y: 0 },
            relocate_pos: None,
            to_update_monitors: false,
            last_jump_pos: Vec::new(),
        }
    }

    /// Swaps in a new topology. The remembered jump positions and any pending
    /// relocation are meaningless under the new geometry and are cleared.
    pub fn update_monitors(&mut self, monitors: MonitorAreasList)
        requires
            monitors.wf(),
        ensures
            final(self).monitors == monitors,
            final(self).last_jump_pos@.len() == old(self).last_jump_pos@.len(),
            forall|i: int|
                0 <= i < final(self).last_jump_pos@.len() ==> final(self).last_jump_pos@[i]
                    is None,
            final(self).relocate_pos is None,
            final(self).cur_mouse == old(self).cur_mouse,
            final(self).cur_pos == old(self).cur_pos,
            final(self).to_update_monitors == old(self).to_update_monitors,
            final(self).wf(),
    {
        self.monitors = monitors;
        let n = self.last_jump_pos.len();
        let mut i: usize = 0;
        while i < n
            invariant
                0 <= i <= n,
                n == self.last_jump_pos@.len(),
                n == old(self).last_jump_pos@.len(),
                forall|j: int| 0 <= j < i ==> self.last_jump_pos@[j] is None,
                self.monitors == monitors,
                self.cur_mouse == old(self).cur_mouse,
                self.cur_pos == old(self).cur_pos,
                self.relocate_pos == old(self).relocate_pos,
                self.to_update_monitors == old(self).to_update_monitors,
            decreases n - i,
        {
            self.last_jump_pos[i] = None;
            i += 1;
        }
        self.relocate_pos = None;
    }

    fn set_jump_slot(&mut self, i: usize, p: MousePos)
        requires
            i < usize::MAX,
        ensures
            final(self).last_jump_pos@ =~= jump_slot_set(old(self).last_jump_pos@, i as int, p),
            final(self).monitors == old(self).monitors,
            final(self).cur_mouse == old(self).cur_mouse,
            final(self).cur_pos == old(self).cur_pos,
            final(self).relocate_pos == old(self).relocate_pos,
            final(self).to_update_monitors == old(self).to_update_monitors,
    {
        let ghost orig = self.last_jump_pos@;
        while self.last_jump_pos.len() <= i
            invariant
                i < usize::MAX,
                self.monitors == old(self).monitors,
                self.cur_mouse == old(self).cur_mouse,
                self.cur_pos == old(self).cur_pos,
                self.relocate_pos == old(self).relocate_pos,
                self.to_update_monitors == old(self).to_update_monitors,
                if i < orig.len() {
                    self.last_jump_pos@ =~= orig
                } else {
                    self.last_jump_pos@.len() <= i + 1 && self.last_jump_pos@ =~= orig + Seq::new(
                        (self.last_jump_pos@.len() - orig.len()) as nat,
                        |j: int| None::<MousePos>,
                    )
                },
            decreases i + 1 - self.last_jump_pos.len(),
        {
            self.last_jump_pos.push(None);
        }
        self.last_jump_pos[i] = Some(p);
        proof {
            assert(final(self).last_jump_pos@ =~= jump_slot_set(orig, i as int, p));
        }
    }
}

/// The remembered-position slots a jump leaves behind, phrased on plain
/// sequences so that repeated jumps can be reasoned about.
pub open spec fn jump_slots_after_seq(
    mons: Seq<MonitorArea>,
    pos: MousePos,
    slots: Seq<Option<MousePos>>,
) -> Seq<Option<MousePos>> {
    match first_contain_from(mons, pos, 0) {
        Some(cur_id) => jump_slot_set(slots, cur_id, pos),
        None => slots,
    }
}

/// The index a jump lands on, phrased on plain sequences.
pub open spec fn jump_next_id_seq(mons: Seq<MonitorArea>, pos: MousePos) -> int {
    match first_contain_from(mons, pos, 0) {
        Some(cur_id) => (cur_id + 1) % mons.len() as int,
        None => 0,
    }
}

/// Where a jump lands, phrased on plain sequences: the target monitor's
/// remembered position when one is stored, else its center.
pub open spec fn jump_new_pos_seq(
    mons: Seq<MonitorArea>,
    pos: MousePos,
    slots: Seq<Option<MousePos>>,
) -> MousePos {
    let slots2 = jump_slots_after_seq(mons, pos, slots);
    let nid = jump_next_id_seq(mons, pos);
    if nid < slots2.len() && slots2[nid] is Some {
        slots2[nid]->0
    } else {
        mons[nid].center_spec()
    }
}

impl MouseRelocator {
    /// The transition made by `on_pos_update` when an active controller is
    /// present.
    pub open spec fn on_pos_update_spec(self, c: DeviceController, pos: MousePos) -> (
        MouseRelocator,
        DeviceController,
    ) {
        if c.setting.locked_in_monitor {
            match c.locked_area {
                Some(area) => {
                    let clamped = area.capture_pos_spec(pos);
                    if clamped != pos {
                        (
                            MouseRelocator {
                                cur_pos: clamped,
                                relocate_pos: Some(RelocatePos(clamped)),
                                ..self
                            },
                            c,
                        )
                    } else {
                        (MouseRelocator { cur_pos: pos, ..self }, c)
                    }
                },
                None => {
                    match self.monitors.locate_id_spec(pos) {
                        Some(i) => (
                            MouseRelocator { cur_pos: pos, ..self },
                            DeviceController { locked_area: Some(self.monitors.list@[i]), ..c },
                        ),
                        None => (MouseRelocator { to_update_monitors: true, ..self }, c),
                    }
                },
            }
        } else {
            (MouseRelocator { cur_pos: pos, ..self }, c)
        }
    }

    /// The transition made by `on_pos_update` when no controller is active.
    pub open spec fn on_pos_update_none_spec(self, pos: MousePos) -> MouseRelocator {
        MouseRelocator { cur_pos: pos, ..self }
    }

    /// `on_pos_update` for an event attributed to an active controller.
    pub fn on_pos_update_ctrl(&mut self, ctrl: &mut DeviceController, pos: MousePos)
        requires
            old(self).wf(),
            old(ctrl).wf(),
        ensures
            (*final(self), *final(ctrl)) == old(self).on_pos_update_spec(*old(ctrl), pos),
            final(self).wf(),
            final(ctrl).wf(),
    {
        proof {
            lemma_first_contain_props(self.monitors.list@, pos, 0);
        }
        if ctrl.setting.locked_in_monitor {
            if let Some(area) = &ctrl.locked_area {
                let clamped = area.capture_pos(&pos);
                if !(clamped.x == pos.x && clamped.y == pos.y) {
                    self.cur_pos = clamped;
                    self.relocate_pos = Some(RelocatePos(clamped));
                    return ;
                }
            } else {
                if let Some(area) = self.monitors.locate(&pos) {
                    ctrl.locked_area = Some(*area);
                } else {
                    self.to_update_monitors = true;
                    return ;
                }
            }
        }
        self.cur_pos = pos;
    }

    /// `on_pos_update` for an event no controller is active for.
    pub fn on_pos_update_none(&mut self, pos: MousePos)
        requires
            old(self).wf(),
        ensures
            *final(self) == old(self).on_pos_update_none_spec(pos),
            final(self).wf(),
    {
        self.cur_pos = pos;
    }

    /// Digests a raw position report, before the event is attributed to a
    /// device. With no active controller, or one whose policy does not lock,
    /// the position is adopted as-is. With a cached lock region the position
    /// is clamped against it, staging a relocation when it had left the
    /// region. With a locking policy but no cached region yet, the region is
    /// resolved from the topology, or the topology is marked stale.
    pub fn on_pos_update(&mut self, optc: Option<&mut DeviceController>, pos: MousePos)
        requires
            old(self).wf(),
            optc matches Some(c) ==> c.wf(),
        ensures
            final(self).wf(),
            match optc {
                Some(c) => (*final(self), *final(c)) == old(self).on_pos_update_spec(*c, pos)
                    && final(c).wf(),
                None => *final(self) == old(self).on_pos_update_none_spec(pos),
            },
    {
        match optc {
            Some(ctrl) => self.on_pos_update_ctrl(ctrl, pos),
            None => self.on_pos_update_none(pos),
        }
    }

    /// The transition made by `on_mouse_update`.
    pub open spec fn on_mouse_update_spec(self, c: DeviceController, tick: u64) -> (
        MouseRelocator,
        DeviceController,
    ) {
        let moved = if self.cur_mouse != c.id {
            let switched = MouseRelocator { cur_mouse: c.id, ..self };
            if c.setting.switch && c.last_active_tick > 0 {
                MouseRelocator {
                    cur_pos: c.last_active_pos,
                    relocate_pos: Some(RelocatePos(c.last_active_pos)),
                    ..switched
                }
            } else {
                switched
            }
        } else {
            self
        };
        (
            moved,
            DeviceController { last_active_pos: moved.cur_pos, last_active_tick: tick, ..c },
        )
    }

    /// Digests the attribution of an event to a device at a widened tick.
    /// When the owning device changes and the new owner remembers positions,
    /// a relocation to its remembered position is staged; in every case the
    /// engine's current position is recorded as the device's history.
    pub fn on_mouse_update(&mut self, c: &mut DeviceController, tick: u64)
        requires
            old(self).wf(),
            old(c).wf(),
        ensures
            (*final(self), *final(c)) == old(self).on_mouse_update_spec(*old(c), tick),
            final(self).wf(),
            final(c).wf(),
    {
        if self.cur_mouse != c.id {
            self.cur_mouse = c.id;
            if c.setting.switch {
                if let Some((_t, old_pos, _p)) = c.get_last_pos() {
                    self.cur_pos = old_pos;
                    self.relocate_pos = Some(RelocatePos(old_pos));
                }
            }
        }
        let cp = self.cur_pos;
        c.update_pos(&cp, tick);
    }

    /// The remembered-position slots after a jump: the departure position
    /// is stored under the monitor it leaves, when that monitor is known.
    pub open spec fn jump_slots_after(self) -> Seq<Option<MousePos>> {
        jump_slots_after_seq(self.monitors.list@, self.cur_pos, self.last_jump_pos@)
    }

    /// The index of the monitor a jump lands on: one step around the circle,
    /// or the first monitor when the current position is in no-man's-land.
    pub open spec fn jump_next_id(self) -> int {
        jump_next_id_seq(self.monitors.list@, self.cur_pos)
    }

    /// Where a jump lands: the target monitor's remembered position when one
    /// is stored, else its center.
    pub open spec fn jump_new_pos(self) -> MousePos {
        jump_new_pos_seq(self.monitors.list@, self.cur_pos, self.last_jump_pos@)
    }

    /// What a jump does to the engine: nothing on an empty topology; else
    /// the departure position is remembered, and the landing position (the
    /// target monitor's remembered position or its center) is adopted and
    /// staged as a relocation.
    pub open spec fn jump_rel(pre: MouseRelocator, post: MouseRelocator) -> bool {
        if pre.monitors.list@.len() == 0 {
            post == pre
        } else {
            &&& post.monitors == pre.monitors
            &&& post.cur_mouse == pre.cur_mouse
            &&& post.to_update_monitors == pre.to_update_monitors
            &&& post.last_jump_pos@ =~= pre.jump_slots_after()
            &&& post.cur_pos == pre.jump_new_pos()
            &&& post.relocate_pos == Some(RelocatePos(pre.jump_new_pos()))
        }
    }

    /// What a jump leaves of a controller: a locking controller loses its
    /// cached region, any other is untouched.
    pub open spec fn jump_ctrl_after(c: DeviceController) -> DeviceController {
        if c.setting.locked_in_monitor {
            DeviceController { locked_area: None::<MonitorArea>, ..c }
        } else {
            c
        }
    }

    /// `jump_to_next_monitor` with an active controller.
    pub fn jump_ctrl(&mut self, ctrl: &mut DeviceController)
        requires
            old(self).wf(),
            old(ctrl).wf(),
        ensures
            final(self).wf(),
            final(ctrl).wf(),
            MouseRelocator::jump_rel(*old(self), *final(self)),
            *final(ctrl) == (if old(self).monitors.list@.len() == 0 {
                *old(ctrl)
            } else {
                MouseRelocator::jump_ctrl_after(*old(ctrl))
            }),
    {
        proof {
            lemma_first_contain_props(self.monitors.list@, self.cur_pos, 0);
            vstd::std_specs::vec::axiom_spec_len(&self.monitors.list);
        }
        if self.monitors.is_empty() {
            return ;
        }
        let next_id: usize = match self.monitors.locate_id(&self.cur_pos) {
            Some(cur_id) => {
                let cp = self.cur_pos;
                self.set_jump_slot(cur_id, cp);
                self.monitors.next_id(cur_id)
            },
            None => 0,
        };
        let area = *match self.monitors.get_area(next_id) {
            Some(a) => a,
            None => {
                return ;
            },
        };
        proof {
            vstd::arithmetic::div_mod::lemma_small_mod(
                next_id as nat,
                self.monitors.list@.len() as nat,
            );
        }
        let mut new_pos = area.center();
        if ctrl.setting.locked_in_monitor {
            ctrl.locked_area = None;
        }
        if next_id < self.last_jump_pos.len() {
            if let Some(p) = self.last_jump_pos[next_id] {
                new_pos = p;
            }
        }
        self.cur_pos = new_pos;
        self.relocate_pos = Some(RelocatePos(new_pos));
    }

    /// `jump_to_next_monitor` with no active controller.
    pub fn jump_none(&mut self)
        requires
            old(self).wf(),
        ensures
            final(self).wf(),
            MouseRelocator::jump_rel(*old(self), *final(self)),
    {
        proof {
            lemma_first_contain_props(self.monitors.list@, self.cur_pos, 0);
            vstd::std_specs::vec::axiom_spec_len(&self.monitors.list);
        }
        if self.monitors.is_empty() {
            return ;
        }
        let next_id: usize = match self.monitors.locate_id(&self.cur_pos) {
            Some(cur_id) => {
                let cp = self.cur_pos;
                self.set_jump_slot(cur_id, cp);
                self.monitors.next_id(cur_id)
            },
            None => 0,
        };
        let area = *match self.monitors.get_area(next_id) {
            Some(a) => a,
            None => {
                return ;
            },
        };
        proof {
            vstd::arithmetic::div_mod::lemma_small_mod(
                next_id as nat,
                self.monitors.list@.len() as nat,
            );
        }
        let mut new_pos = area.center();
        if next_id < self.last_jump_pos.len() {
            if let Some(p) = self.last_jump_pos[next_id] {
                new_pos = p;
            }
        }
        self.cur_pos = new_pos;
        self.relocate_pos = Some(RelocatePos(new_pos));
    }

    /// Jump-cycles the cursor to the next monitor: remembers the departure
    /// position under the monitor it leaves, advances one step in the
    /// circular monitor order, and stages a relocation to that monitor's
    /// remembered position or its center. A locking controller loses its
    /// cached region, so the next position report re-resolves it.
    pub fn jump_to_next_monitor(&mut self, ctrl: Option<&mut DeviceController>)
        requires
            old(self).wf(),
            ctrl matches Some(c) ==> c.wf(),
        ensures
            final(self).wf(),
            MouseRelocator::jump_rel(*old(self), *final(self)),
            match ctrl {
                Some(c) => final(c).wf() && *final(c) == (if old(self).monitors.list@.len()
                    == 0 {
                    *c
                } else {
                    MouseRelocator::jump_ctrl_after(*c)
                }),
                None => true,
            },
    {
        match ctrl {
            Some(c) => self.jump_ctrl(c),
            None => self.jump_none(),
        }
    }

    /// Drains the staged relocation; a second call without an intervening
    /// event returns nothing.
    pub fn pop_relocate_pos(&mut self) -> (r: Option<RelocatePos>)
        ensures
            r == old(self).relocate_pos,
            *final(self) == (MouseRelocator { relocate_pos: None::<RelocatePos>, ..*old(self) }),
    {
        self.relocate_pos.take()
    }

    /// Drains the stale-topology flag; a second call without an intervening
    /// event returns false.
    pub fn pop_need_update_monitors(&mut self) -> (r: bool)
        ensures
            r == old(self).to_update_monitors,
            *final(self) == (MouseRelocator { to_update_monitors: false, ..*old(self) }),
    {
        let v = self.to_update_monitors;
        self.to_update_monitors = false;
        v
    }
}

/// No point lies in two distinct areas of the sequence.
pub open spec fn areas_disjoint(s: Seq<MonitorArea>) -> bool {
    forall|i: int, j: int, p: MousePos|
        0 <= i < j < s.len() ==> !(#[trigger] s[i].contains_spec(p)
            && #[trigger] s[j].contains_spec(p))
}

/// Every remembered slot holds a position located at its own index.
pub open spec fn slots_located(mons: Seq<MonitorArea>, slots: Seq<Option<MousePos>>) -> bool {
    forall|i: int|
        0 <= i < slots.len() ==> ((#[trigger] slots[i]) matches Some(p) ==> first_contain_from(
            mons,
            p,
            0,
        ) == Some(i))
}

/// A well-formed area contains its own center.
pub proof fn lemma_center_contained(a: MonitorArea)
    requires
        a.wf(),
    ensures
        a.contains_spec(a.center_spec()),
{
}

/// Under a disjoint topology, a point contained in the area at `k` is located
/// exactly there.
pub proof fn lemma_locate_unique(s: Seq<MonitorArea>, p: MousePos, k: int)
    requires
        areas_disjoint(s),
        0 <= k < s.len(),
        s[k].contains_spec(p),
    ensures
        first_contain_from(s, p, 0) == Some(k),
{
    lemma_first_contain_props(s, p, 0);
    match first_contain_from(s, p, 0) {
        Some(m) => {
            if m < k {
                assert(s[m].contains_spec(p) && s[k].contains_spec(p));
            } else if k < m {
                assert(!s[k].contains_spec(p));
            }
        },
        None => {
            assert(!s[k].contains_spec(p));
        },
    }
}

/// One jump moves the located monitor one step around the circle and keeps
/// the remembered slots consistent.
pub proof fn lemma_jump_advances(
    mons: Seq<MonitorArea>,
    pos: MousePos,
    slots: Seq<Option<MousePos>>,
    k: int,
)
    requires
        mons.len() > 0,
        forall|i: int| 0 <= i < mons.len() ==> (#[trigger] mons[i]).nondegenerate(),
        areas_disjoint(mons),
        slots_located(mons, slots),
        first_contain_from(mons, pos, 0) == Some(k),
    ensures
        ({
            let slots2 = jump_slots_after_seq(mons, pos, slots);
            let pos2 = jump_new_pos_seq(mons, pos, slots);
            &&& first_contain_from(mons, pos2, 0) == Some((k + 1) % mons.len() as int)
            &&& slots_located(mons, slots2)
        }),
{
    lemma_first_contain_props(mons, pos, 0);
    let len = mons.len() as int;
    let slots2 = jump_slots_after_seq(mons, pos, slots);
    let nid = (k + 1) % len;
    vstd::arithmetic::div_mod::lemma_mod_bound(k + 1, len);
    assert(slots2 =~= jump_slot_set(slots, k, pos));
    assert forall|i: int|
        0 <= i < slots2.len() implies ((#[trigger] slots2[i]) matches Some(q)
        ==> first_contain_from(mons, q, 0) == Some(i)) by {
        if i < slots.len() && i != k {
            assert(slots2[i] == slots[i]);
        }
    }
    let pos2 = jump_new_pos_seq(mons, pos, slots);
    if nid < slots2.len() && slots2[nid] is Some {
        assert(first_contain_from(mons, pos2, 0) == Some(nid));
    } else {
        lemma_center_contained(mons[nid]);
        lemma_locate_unique(mons, mons[nid].center_spec(), nid);
    }
}

/// The landing position and slots after `n` consecutive jumps.
pub open spec fn jump_iter(
    mons: Seq<MonitorArea>,
    pos: MousePos,
    slots: Seq<Option<MousePos>>,
    n: nat,
) -> (MousePos, Seq<Option<MousePos>>)
    decreases n,
{
    if n == 0 {
        (pos, slots)
    } else {
        let prev = jump_iter(mons, pos, slots, (n - 1) as nat);
        (
            jump_new_pos_seq(mons, prev.0, prev.1),
            jump_slots_after_seq(mons, prev.0, prev.1),
        )
    }
}

proof fn lemma_jump_iter_locate(
    mons: Seq<MonitorArea>,
    pos: MousePos,
    slots: Seq<Option<MousePos>>,
    k: int,
    n: nat,
)
    requires
        mons.len() > 0,
        forall|i: int| 0 <= i < mons.len() ==> (#[trigger] mons[i]).nondegenerate(),
        areas_disjoint(mons),
        slots_located(mons, slots),
        first_contain_from(mons, pos, 0) == Some(k),
        0 <= k < mons.len(),
    ensures
        ({
            let it = jump_iter(mons, pos, slots, n);
            &&& first_contain_from(mons, it.0, 0) == Some((k + n) % mons.len() as int)
            &&& slots_located(mons, it.1)
        }),
    decreases n,
{
    let len = mons.len() as int;
    if n == 0 {
        vstd::arithmetic::div_mod::lemma_small_mod(k as nat, len as nat);
    } else {
        lemma_jump_iter_locate(mons, pos, slots, k, (n - 1) as nat);
        let prev = jump_iter(mons, pos, slots, (n - 1) as nat);
        let kprev = (k + n - 1) % len;
        vstd::arithmetic::div_mod::lemma_mod_bound(k + n - 1, len);
        lemma_jump_advances(mons, prev.0, prev.1, kprev);
        calc! {
            (==)
            (kprev + 1) % len; {
                vstd::arithmetic::div_mod::lemma_add_mod_noop(k + n - 1, 1, len);
                vstd::arithmetic::div_mod::lemma_mod_twice(k + n - 1, len);
                if len == 1 {
                    vstd::arithmetic::div_mod::lemma_mod_self_0(len);
                } else {
                    vstd::arithmetic::div_mod::lemma_small_mod(1nat, len as nat);
                }
            }
            (k + n) % len;
        }
    }
}

/// Circular jump: on a disjoint topology of N monitors, N consecutive jumps
/// land the cursor back on the monitor it started on, whatever the remembered
/// positions.
pub proof fn lemma_circular_jump(
    mons: Seq<MonitorArea>,
    pos: MousePos,
    slots: Seq<Option<MousePos>>,
    k: int,
)
    requires
        mons.len() > 0,
        forall|i: int| 0 <= i < mons.len() ==> (#[trigger] mons[i]).nondegenerate(),
        areas_disjoint(mons),
        slots_located(mons, slots),
        first_contain_from(mons, pos, 0) == Some(k),
        0 <= k < mons.len(),
    ensures
        first_contain_from(mons, jump_iter(mons, pos, slots, mons.len()).0, 0) == Some(k),
{
    let len = mons.len() as int;
    lemma_jump_iter_locate(mons, pos, slots, k, mons.len());
    vstd::arithmetic::div_mod::lemma_mod_multiples_vanish(1, k, len);
    vstd::arithmetic::div_mod::lemma_small_mod(k as nat, len as nat);
}

/// Relocation latency bound: the first position report after a device
/// acquires the lock-in-monitor policy, with no region cached yet, either
/// caches a region without staging a relocation, or marks the topology stale;
/// it never stages a relocation, even when the position lies outside every
/// known area.
pub proof fn lemma_first_lock_no_relocation(r: MouseRelocator, c: DeviceController, pos: MousePos)
    requires
        c.setting.locked_in_monitor,
        c.locked_area is None,
    ensures
        ({
            let (r2, c2) = r.on_pos_update_spec(c, pos);
            &&& r2.relocate_pos == r.relocate_pos
            &&& (match r.monitors.locate_id_spec(pos) {
                Some(i) => c2.locked_area == Some(r.monitors.list@[i]) && r2.to_update_monitors
                    == r.to_update_monitors && r2.cur_pos == pos,
                None => r2.to_update_monitors && r2.cur_pos == r.cur_pos && c2 == c,
            })
        }),
{
}

/// Switch-remember round trip: once a device with the remember-position
/// policy has recorded a position, switching to another device and back
/// stages a relocation to exactly the recorded position.
pub proof fn lemma_switch_remember_round_trip(
    r0: MouseRelocator,
    d: DeviceController,
    e: DeviceController,
    t1: u64,
    t2: u64,
    t3: u64,
)
    requires
        d.setting.switch,
        t1 > 0,
        e.id != d.id,
    ensures
        ({
            let (r1, d1) = r0.on_mouse_update_spec(d, t1);
            let (r2, _e1) = r1.on_mouse_update_spec(e, t2);
            let (r3, d2) = r2.on_mouse_update_spec(d1, t3);
            &&& d1.last_active_pos == r1.cur_pos
            &&& r3.relocate_pos == Some(RelocatePos(d1.last_active_pos))
            &&& r3.cur_pos == d1.last_active_pos
        }),
{
}

/// Clamping is idempotent: clamping an already clamped point changes nothing.
pub proof fn lemma_capture_pos_idempotent(a: MonitorArea, p: MousePos)
    requires
        a.nondegenerate(),
    ensures
        a.capture_pos_spec(a.capture_pos_spec(p)) == a.capture_pos_spec(p),
{
}

/// A clamped point always lies within the area, inset-adjusted on the right
/// and bottom edges.
pub proof fn lemma_capture_pos_contained(a: MonitorArea, p: MousePos)
    requires
        a.nondegenerate(),
    ensures
        a.contains_spec(a.capture_pos_spec(p)),
        a.capture_pos_spec(p).x <= a.rigtbtm.x - RESERVE_PIXEL,
        a.capture_pos_spec(p).y <= a.rigtbtm.y - RESERVE_PIXEL,
{
}

} // verus!
