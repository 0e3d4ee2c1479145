use vstd::prelude::*;

verus! {

/// The closed classification of a pointer device, derived from the HID usage
/// page and usage id the host reports.
#[derive(Debug, Clone, Copy, PartialEq, Eq, Structural)]
pub enum DeviceType {
    Unknown,
    Dummy,
    UnknownHID,
    // Generic desktop page (0x01)
    Pointer,
    Mouse,
    Joystick,
    Gamepad,
    Keyboard,
    Keypad,
    OtherGenericDesktop,
    // Digitizer page (0x0D)
    Digitizer,
    Pen,
    LightPen,
    TouchScreen,
    TouchPad,
    Whiteboard,
    OtherDigitizer,
    // Vendor-defined pages (0xFF00 and up)
    VendorDefined,
}

impl DeviceType {
    pub open spec fn from_hid_usage_spec(page: u16, usage: u16) -> DeviceType {
        if page >= 0xFF00 {
            DeviceType::VendorDefined
        } else if page == 0x01 {
            if usage == 0x01 {
                DeviceType::Pointer
            } else if usage == 0x02 {
                DeviceType::Mouse
            } else if usage == 0x04 {
                DeviceType::Joystick
            } else if usage == 0x05 {
                DeviceType::Gamepad
            } else if usage == 0x06 {
                DeviceType::Keyboard
            } else if usage == 0x07 {
                DeviceType::Keypad
            } else {
                DeviceType::OtherGenericDesktop
            }
        } else if page == 0x0D {
            if usage == 0x01 {
                DeviceType::Digitizer
            } else if usage == 0x02 {
                DeviceType::Pen
            } else if usage == 0x03 {
                DeviceType::LightPen
            } else if usage == 0x04 {
                DeviceType::TouchScreen
            } else if usage == 0x05 {
                DeviceType::TouchPad
            } else if usage == 0x06 {
                DeviceType::Whiteboard
            } else {
                DeviceType::OtherDigitizer
            }
        } else {
            DeviceType::UnknownHID
        }
    }

    /// Classifies a HID usage-page/usage pair; unknown pairs fall into the
    /// catch-all variants, never an error.
    pub fn from_hid_usage(page: u16, usage: u16) -> (r: Self)
        ensures
            r == Self::from_hid_usage_spec(page, usage),
    {
        if page >= 0xFF00 {
            return Self::VendorDefined;
        }
        match page {
            0x01 => match usage {
                0x01 => Self::Pointer,
                0x02 => Self::Mouse,
                0x04 => Self::Joystick,
                0x05 => Self::Gamepad,
                0x06 => Self::Keyboard,
                0x07 => Self::Keypad,
                _ => Self::OtherGenericDesktop,
            },
            0x0D => match usage {
                0x01 => Self::Digitizer,
                0x02 => Self::Pen,
                0x03 => Self::LightPen,
                0x04 => Self::TouchScreen,
                0x05 => Self::TouchPad,
                0x06 => Self::Whiteboard,
                _ => Self::OtherDigitizer,
            },
            _ => Self::UnknownHID,
        }
    }

    pub open spec fn is_pointer_spec(self) -> bool {
        self matches (DeviceType::Dummy | DeviceType::Pointer | DeviceType::Mouse
            | DeviceType::Digitizer | DeviceType::Pen | DeviceType::LightPen
            | DeviceType::TouchScreen | DeviceType::TouchPad | DeviceType::Whiteboard
            | DeviceType::OtherDigitizer)
    }

    /// Whether devices of this type move the cursor.
    pub fn is_pointer(&self) -> (r: bool)
        ensures
            r == self.is_pointer_spec(),
    {
        matches!(
            self,
            DeviceType::Dummy
                | DeviceType::Pointer
                | DeviceType::Mouse
                | DeviceType::Digitizer
                | DeviceType::Pen
                | DeviceType::LightPen
                | DeviceType::TouchScreen
                | DeviceType::TouchPad
                | DeviceType::Whiteboard
                | DeviceType::OtherDigitizer
        )
    }
}

/// The usage pages and usages this crate asks the host to deliver raw input
/// for: the whole digitizer page, plus generic-desktop pointers and mice.
pub struct WindowsRawinput {}

impl WindowsRawinput {
    /// The usage value standing for a whole page.
    pub fn all_usages() -> (r: u16)
        ensures
            r == 0,
    {
        0
    }

    /// The usage-page/usage pairs to register for.
    pub fn register_usage_set() -> (r: Vec<(u16, u16)>)
        ensures
            r@ =~= seq![(0x0Du16, 0u16), (0x01u16, 0x01u16), (0x01u16, 0x02u16)],
    {
        let mut v: Vec<(u16, u16)> = Vec::new();
        v.push((0x0D, 0));
        v.push((0x01, 0x01));
        v.push((0x01, 0x02));
        v
    }
}

} // verus!
