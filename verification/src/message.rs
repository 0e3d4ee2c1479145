use vstd::prelude::*;

use crate::device_type::DeviceType;
use crate::errors::Error;
use crate::setting::{DeviceSettingItem, ProcessorSettings};

verus! {

/// Whether a device reports absolute coordinates (tablets, touch) or relative
/// deltas (mice).
#[derive(Debug, Clone, Copy, PartialEq, Eq, Structural)]
pub enum Positioning {
    Unknown,
    Relative,
    Absolute,
}

/// The liveness classification of one device, as shown on the control
/// surface.
#[derive(Debug, Clone, Copy, PartialEq, Eq, Structural)]
pub enum DeviceStatus {
    Active(Positioning),
    Idle,
    Disconnected,
    Unknown,
}

/// A platform-neutral device descriptor handed to the control surface.
#[derive(Debug, Clone)]
pub struct GenericDevice {
    pub id: String,
    pub device_type: DeviceType,
    pub product_name: String,
    pub platform_specific_infos: Vec<(String, String)>,
}

impl GenericDevice {
    /// A descriptor that carries nothing but its identity.
    pub fn id_only(id: String) -> (r: GenericDevice)
        ensures
            r.id@ == id@,
            r.device_type == DeviceType::Unknown,
            r.product_name@ == id@,
            r.platform_specific_infos@.len() == 0,
    {
        GenericDevice {
            id: id.clone(),
            device_type: DeviceType::Unknown,
            product_name: id,
            platform_specific_infos: Vec::new(),
        }
    }
}

pub type Result<T> = std::result::Result<T, Error>;

/// A fire-and-forget payload, taken exactly once; taking twice is a
/// programming error ruled out by the `take` precondition.
#[derive(Debug)]
pub struct SendData<T> {
    inner: Box<Option<T>>,
}

impl<T> SendData<T> {
    /// The payload still waiting to be taken, if any.
    pub closed spec fn payload(self) -> Option<T> {
        *self.inner
    }

    pub fn new(d: T) -> (r: Self)
        ensures
            r.payload() == Some(d),
    {
        Self { inner: Box::new(Some(d)) }
    }

    /// Like `take`, but reporting an already consumed payload instead of
    /// treating it as a programming error.
    pub fn try_take(&mut self) -> (r: Option<T>)
        ensures
            r == old(self).payload(),
            final(self).payload() is None,
    {
        let inner: &mut Option<T> = &mut *self.inner;
        inner.take()
    }

    pub fn take(&mut self) -> (r: T)
        requires
            old(self).payload() is Some,
        ensures
            Some(r) == old(self).payload(),
            final(self).payload() is None,
    {
        let inner: &mut Option<T> = &mut *self.inner;
        inner.take().unwrap()
    }
}

/// A request envelope that round-trips: it carries the request out and the
/// response back. The response slot starts out holding a sentinel error and
/// is filled exactly once by the receiving side.
#[derive(Debug)]
pub struct RoundtripData<TReq, TRsp> {
    inner: Box<(Option<TReq>, Result<TRsp>)>,
}

impl<TReq, TRsp> RoundtripData<TReq, TRsp> {
    /// The request still waiting to be taken, if any.
    pub closed spec fn request(self) -> Option<TReq> {
        self.inner.0
    }

    /// The content of the response slot.
    pub closed spec fn response(self) -> Result<TRsp> {
        self.inner.1
    }

    pub fn new(req: TReq) -> (r: Self)
        ensures
            r.request() == Some(req),
            r.response() matches Err(e) && e is MessageInited,
    {
        Self { inner: Box::new((Some(req), Err(Error::MessageInited))) }
    }

    /// Whether the request is still waiting to be taken.
    pub fn has_req(&self) -> (r: bool)
        ensures
            r == (self.request() is Some),
    {
        self.inner.0.is_some()
    }

    pub fn req(&self) -> (r: &TReq)
        requires
            self.request() is Some,
        ensures
            Some(*r) == self.request(),
    {
        self.inner.0.as_ref().unwrap()
    }

    pub fn result(&self) -> (r: std::result::Result<&TRsp, &Error>)
        ensures
            match r {
                Ok(v) => self.response() matches Ok(w) && w == *v,
                Err(e) => self.response() matches Err(f) && f == *e,
            },
    {
        self.inner.1.as_ref()
    }

    pub fn set_result(&mut self, result: Result<TRsp>)
        ensures
            final(self).response() == result,
            final(self).request() == old(self).request(),
    {
        self.inner.1 = result;
    }

    pub fn set_ok(&mut self, result: TRsp)
        ensures
            final(self).response() == Result::<TRsp>::Ok(result),
            final(self).request() == old(self).request(),
    {
        self.inner.1 = Ok(result);
    }

    pub fn set_error(&mut self, result: Error)
        ensures
            final(self).response() matches Err(e) && e == result,
            final(self).request() == old(self).request(),
    {
        self.inner.1 = Err(result);
    }

    pub fn take_req(&mut self) -> (r: TReq)
        requires
            old(self).request() is Some,
        ensures
            Some(r) == old(self).request(),
            final(self).request() is None,
            final(self).response() == old(self).response(),
    {
        let inner: &mut (Option<TReq>, Result<TRsp>) = &mut *self.inner;
        inner.0.take().unwrap()
    }

    pub fn take_rsp(self) -> (r: Result<TRsp>)
        ensures
            r == self.response(),
    {
        self.inner.1
    }
}

/// What a periodic timer tick asks the control surface to do.
#[derive(Clone, Copy, Debug, PartialEq, Eq, Structural)]
pub enum TimerDueKind {
    InspectDevice,
}

/// The logical action a registered global shortcut is bound to.
#[derive(Clone, Copy, Debug, PartialEq, Eq, Structural)]
pub enum ShortcutID {
    CurMouseLock,
    CurMouseJumpNext,
}

impl ShortcutID {
    /// The numeric registration id used with the host; these stay clear of
    /// ids other components might register.
    pub fn id_value(self) -> (r: i32)
        ensures
            r == (match self {
                ShortcutID::CurMouseLock => 1000int,
                ShortcutID::CurMouseJumpNext => 1001int,
            }),
    {
        match self {
            ShortcutID::CurMouseLock => 1000,
            ShortcutID::CurMouseJumpNext => 1001,
        }
    }
}

/// A raw pointer-movement report from the host's low-level hook.
#[derive(Clone, Copy, Debug, PartialEq, Eq, Structural)]
pub struct SysMouseEvent {
    pub pos_x: i32,
    pub pos_y: i32,
}

/// A request to replace the processor settings.
#[derive(Debug)]
pub struct ApplyProcessorSettingsData {
    pub ctx: ApplyProcessorSettingsCtx,
    pub proc_settings: ProcessorSettings,
}

#[derive(Debug)]
pub struct ApplyProcessorSettingsCtx {
    pub user_requested: bool,
}

/// The message vocabulary spoken between the device-processor thread and the
/// control-surface thread.
#[derive(Debug)]
pub enum Message {
    Exit,
    RestartUI,
    TimerDue(TimerDueKind),
    LockCurMouse(String),
    ScanDevices(RoundtripData<(), Vec<GenericDevice>>),
    InspectDevicesStatus(RoundtripData<(), Vec<(String, DeviceStatus)>>),
    ApplyProcessorSetting(RoundtripData<ApplyProcessorSettingsData, ApplyProcessorSettingsCtx>),
    ApplyOneDeviceSetting(SendData<DeviceSettingItem>),
    SysMouseEvent(SysMouseEvent),
}

/// Relies on `std::sync::mpsc::Sender` being an ordinary opaque type.
#[verifier::external_type_specification]
#[verifier::external_body]
#[verifier::reject_recursive_types(T)]
pub struct ExSender<T>(std::sync::mpsc::Sender<T>);

/// Relies on `std::sync::mpsc::SyncSender` being an ordinary opaque type.
#[verifier::external_type_specification]
#[verifier::external_body]
#[verifier::reject_recursive_types(T)]
pub struct ExSyncSender<T>(std::sync::mpsc::SyncSender<T>);

/// Relies on `std::sync::mpsc::Receiver` being an ordinary opaque type.
#[verifier::external_type_specification]
#[verifier::external_body]
#[verifier::reject_recursive_types(T)]
pub struct ExReceiver<T>(std::sync::mpsc::Receiver<T>);

/// Relies on `std::sync::mpsc::channel`: creates a connected asynchronous
/// sender/receiver pair. Which pair comes back is not observable to specs.
pub assume_specification<T>[ std::sync::mpsc::channel::<T> ]() -> (r: (
    std::sync::mpsc::Sender<T>,
    std::sync::mpsc::Receiver<T>,
));

/// Relies on `std::sync::mpsc::sync_channel`: creates a connected bounded
/// sender/receiver pair.
pub assume_specification<T>[ std::sync::mpsc::sync_channel::<T> ](bound: usize) -> (r: (
    std::sync::mpsc::SyncSender<T>,
    std::sync::mpsc::Receiver<T>,
));

/// Relies on `Sender::clone`: a clone sends into the same channel.
pub assume_specification<T>[ <std::sync::mpsc::Sender<T> as Clone>::clone ](
    s: &std::sync::mpsc::Sender<T>,
) -> std::sync::mpsc::Sender<T>;

/// The sending half of a message channel. Sending never blocks and ignores a
/// hung-up receiver: a message to a gone thread has nobody to serve.
#[derive(Clone, Debug)]
pub struct MessageSender(std::sync::mpsc::Sender<Message>);

impl MessageSender {
    fn from(s: &std::sync::mpsc::Sender<Message>) -> Self {
        Self(s.clone())
    }

    /// Relies on `Sender::send`: queues the message; the error for a
    /// disconnected receiver is deliberately dropped.
    #[verifier::external_body]
    pub fn send(&self, msg: Message) {
        let _ = self.0.send(msg);
    }
}

/// The receiving half of a message channel. A disconnected channel reads as
/// an exit request, so a vanished peer shuts the loop down cleanly.
#[derive(Debug)]
pub struct MessageReceiver(std::sync::mpsc::Receiver<Message>);

impl MessageReceiver {
    fn from(r: std::sync::mpsc::Receiver<Message>) -> Self {
        Self(r)
    }

    /// Relies on `Receiver::try_recv`: hands out a queued message without
    /// blocking, and reports separately whether the channel has hung up.
    #[verifier::external_body]
    fn try_recv_raw(&self) -> (r: (Option<Message>, bool)) {
        match self.0.try_recv() {
            Ok(v) => (Some(v), false),
            Err(std::sync::mpsc::TryRecvError::Empty) => (None, false),
            Err(std::sync::mpsc::TryRecvError::Disconnected) => (None, true),
        }
    }

    /// Relies on `Receiver::recv`: blocks for a message; nothing comes back
    /// from a hung-up channel.
    #[verifier::external_body]
    fn recv_raw(&self) -> (r: Option<Message>) {
        match self.0.recv() {
            Ok(v) => Some(v),
            Err(std::sync::mpsc::RecvError) => None,
        }
    }

    /// Relies on `Receiver::recv_timeout`: blocks up to the given number of
    /// milliseconds, and reports separately whether the channel has hung up.
    #[verifier::external_body]
    fn recv_timeout_raw(&self, dur_ms: u64) -> (r: (Option<Message>, bool)) {
        match self.0.recv_timeout(std::time::Duration::from_millis(dur_ms)) {
            Ok(v) => (Some(v), false),
            Err(std::sync::mpsc::RecvTimeoutError::Timeout) => (None, false),
            Err(std::sync::mpsc::RecvTimeoutError::Disconnected) => (None, true),
        }
    }

    /// A queued message, without blocking; a hung-up channel reads as an
    /// exit request.
    pub fn try_recv(&self) -> Option<Message> {
        let (msg, disconnected) = self.try_recv_raw();
        match msg {
            Some(v) => Some(v),
            None => if disconnected {
                Some(Message::Exit)
            } else {
                None
            },
        }
    }

    /// The next message, blocking; a hung-up channel reads as an exit
    /// request.
    pub fn recv(&self) -> Message {
        match self.recv_raw() {
            Some(v) => v,
            None => Message::Exit,
        }
    }

    /// The next message, waiting at most the given number of milliseconds; a
    /// hung-up channel reads as an exit request.
    pub fn recv_timeout(&self, dur_ms: u64) -> Option<Message> {
        let (msg, disconnected) = self.recv_timeout_raw(dur_ms);
        match msg {
            Some(v) => Some(v),
            None => if disconnected {
                Some(Message::Exit)
            } else {
                None
            },
        }
    }
}

/// The sending half of a unit pulse used to wake a peer.
pub struct SignalSender(std::sync::mpsc::SyncSender<()>);

impl SignalSender {
    /// Relies on `SyncSender::try_send`: emits the pulse; a full buffer or a
    /// gone receiver means the peer needs no further waking.
    #[verifier::external_body]
    pub fn send(&self) {
        let _ = self.0.try_send(());
    }
}

/// The receiving half of a unit pulse.
pub struct SignalReceiver(std::sync::mpsc::Receiver<()>);

impl SignalReceiver {
    /// Relies on `Receiver::try_recv`: reports a pulse, and separately
    /// whether the channel has hung up.
    #[verifier::external_body]
    fn check_raw(&self) -> (r: (bool, bool)) {
        match self.0.try_recv() {
            Ok(_) => (true, false),
            Err(std::sync::mpsc::TryRecvError::Empty) => (false, false),
            Err(std::sync::mpsc::TryRecvError::Disconnected) => (false, true),
        }
    }

    /// A pulse when one is pending, nothing when the line is idle, and a
    /// definitive `false` once the sender is gone.
    pub fn check(&self) -> Option<bool> {
        let (got, disconnected) = self.check_raw();
        if got {
            Some(true)
        } else if disconnected {
            Some(false)
        } else {
            None
        }
    }
}

/// A connected one-slot pulse line.
pub fn signal() -> (SignalSender, SignalReceiver) {
    let (tx, rx) = std::sync::mpsc::sync_channel::<()>(1);
    (SignalSender(tx), SignalReceiver(rx))
}

/// How a reactor pokes the control surface awake after queueing a message
/// for it. Implementations are supplied by the embedding.
pub trait UINotify: Send {
    fn notify(&self);

    fn notify_close(&self);
}

/// A notifier that does nothing, for embeddings without a control surface.
#[derive(Clone, Default)]
pub struct UINotifyNoop {}

impl UINotify for UINotifyNoop {
    fn notify(&self) {
    }

    fn notify_close(&self) {
    }
}

/// The endpoints held by the tray: it can ask both threads to wind down or
/// the control surface to reopen.
pub struct TrayReactor {
    pub ui_tx: MessageSender,
    pub mouse_control_tx: MessageSender,
    pub ui_notify: Box<dyn UINotify>,
}

impl TrayReactor {
    /// Asks both threads to exit.
    pub fn exit(&self) {
        self.ui_notify.notify_close();
        self.ui_tx.send(Message::Exit);
        self.mouse_control_tx.send(Message::Exit);
    }

    /// Asks the control surface to reopen.
    pub fn restart_ui(&self) {
        self.ui_tx.send(Message::RestartUI);
    }
}

/// The endpoints held by the control surface.
pub struct UIReactor {
    pub ui_rx: MessageReceiver,
    pub ui_tx: MessageSender,
    pub mouse_control_tx: MessageSender,
}

/// The endpoints held by the device-processor thread.
pub struct MouseControlReactor {
    pub ui_tx: MessageSender,
    pub mouse_control_tx: MessageSender,
    pub mouse_control_rx: MessageReceiver,
    pub ui_notify: Box<dyn UINotify>,
}

impl MouseControlReactor {
    /// Returns an answered request envelope to the control surface. Only
    /// round-tripping requests may come back through here.
    pub fn return_msg(&self, msg: Message)
        requires
            msg matches Message::ScanDevices(_) || msg matches Message::InspectDevicesStatus(_)
                || msg matches Message::ApplyProcessorSetting(_),
    {
        self.ui_tx.send(msg);
        self.ui_notify.notify();
    }
}

/// Builds the three connected reactors over a fresh pair of channels.
pub fn setup_reactors(ui_notify1: Box<dyn UINotify>, ui_notify2: Box<dyn UINotify>) -> (
    TrayReactor,
    MouseControlReactor,
    UIReactor,
) {
    let (ui_tx, ui_rx) = std::sync::mpsc::channel::<Message>();
    let (mouse_control_tx, mouse_control_rx) = std::sync::mpsc::channel::<Message>();

    let tray = TrayReactor {
        ui_tx: MessageSender::from(&ui_tx),
        mouse_control_tx: MessageSender::from(&mouse_control_tx),
        ui_notify: ui_notify1,
    };
    let mouse_ctrl = MouseControlReactor {
        ui_tx: MessageSender::from(&ui_tx),
        mouse_control_tx: MessageSender::from(&mouse_control_tx),
        mouse_control_rx: MessageReceiver::from(mouse_control_rx),
        ui_notify: ui_notify2,
    };
    let ui = UIReactor {
        ui_rx: MessageReceiver::from(ui_rx),
        ui_tx: MessageSender::from(&ui_tx),
        mouse_control_tx: MessageSender::from(&mouse_control_tx),
    };

    (tray, mouse_ctrl, ui)
}

/// A request to a running periodic timer.
pub enum TimerOperation {
    ResetInterval(u64),
}

/// What one look at the timer's control channel decides.
#[derive(Debug, Clone, Copy, PartialEq, Eq, Structural)]
pub enum TimerStep {
    /// The control channel hung up: the timer thread winds down.
    Stop,
    /// An interval update is pending: adopt it and keep draining the channel.
    Drain(u64),
    /// The channel is idle: sleep for the current interval, then tick.
    Sleep(u64),
}

/// The periodic timer's decision for one non-blocking look at its control
/// channel: a pending update replaces the interval, a hung-up channel stops
/// the timer, and an idle channel lets it sleep out the current interval.
pub fn timer_step(op: Option<TimerOperation>, disconnected: bool, interval_ms: u64) -> (r:
    TimerStep)
    ensures
        r == (match op {
            Some(TimerOperation::ResetInterval(d)) => TimerStep::Drain(d),
            None => if disconnected {
                TimerStep::Stop
            } else {
                TimerStep::Sleep(interval_ms)
            },
        }),
{
    match op {
        Some(TimerOperation::ResetInterval(d)) => TimerStep::Drain(d),
        None => if disconnected {
            TimerStep::Stop
        } else {
            TimerStep::Sleep(interval_ms)
        },
    }
}

} // verus!
