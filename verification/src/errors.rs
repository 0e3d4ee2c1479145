use vstd::prelude::*;

verus! {

/// Relies on `std::io::Error` being an ordinary opaque type; values of it are
/// only carried, never inspected, by this crate.
#[verifier::external_type_specification]
#[verifier::external_body]
pub struct ExIoError(std::io::Error);

/// The failure taxonomy of the whole crate. Host-API failures are
/// distinguished by kind so callers can react to (or display) each one
/// specifically.
#[derive(Debug)]
pub enum Error {
    ConfigFileNotExists(String),
    IO(std::io::Error),
    InvalidConfigFile(String),
    InvalidParam(String, String),
    InvalidShortcut(String),
    ShortcutConflict(PrintableOptionString),
    MessageInited,
    WinUnknown,
    WinCore(i32),
    WinConfigRet(u32),
    WinPredefineBufSmall(u32, u32),
    WinDeviceNoInstanceID(String),
    WinDeviceInterfaceListEmpty(String),
    WinInvalidHandle(isize),
}

/// An optional string that prints as itself when present and as nothing when
/// absent.
#[derive(Debug)]
pub struct PrintableOptionString(pub Option<String>);

impl PrintableOptionString {
    /// The text to display for this value.
    pub fn display_string(&self) -> (r: String)
        ensures
            match self.0 {
                Some(s) => r@ == s@,
                None => r@ == Seq::<char>::empty(),
            },
    {
        match &self.0 {
            Some(v) => v.clone(),
            None => String::new(),
        }
    }
}

impl From<&str> for PrintableOptionString {
    fn from(value: &str) -> (r: Self) {
        PrintableOptionString(Some(value.to_owned()))
    }
}

impl vstd::std_specs::convert::FromSpecImpl<&str> for PrintableOptionString {
    // A `String` with a prescribed view cannot be named in spec code, so this
    // conversion promises nothing; `from_str_view` below carries the contract.
    open spec fn obeys_from_spec() -> bool {
        false
    }

    open spec fn from_spec(value: &str) -> Self {
        PrintableOptionString(None)
    }
}

impl PrintableOptionString {
    /// The conversion from a borrowed slice, with its view stated.
    pub fn from_str_view(value: &str) -> (r: Self)
        ensures
            r.0 matches Some(s) && s@ == value@,
    {
        PrintableOptionString(Some(value.to_owned()))
    }
}

impl From<String> for PrintableOptionString {
    fn from(value: String) -> (r: Self) {
        PrintableOptionString(Some(value))
    }
}

impl vstd::std_specs::convert::FromSpecImpl<String> for PrintableOptionString {
    open spec fn obeys_from_spec() -> bool {
        true
    }

    open spec fn from_spec(value: String) -> Self {
        PrintableOptionString(Some(value))
    }
}

impl From<Option<String>> for PrintableOptionString {
    fn from(value: Option<String>) -> (r: Self) {
        PrintableOptionString(value)
    }
}

impl vstd::std_specs::convert::FromSpecImpl<Option<String>> for PrintableOptionString {
    open spec fn obeys_from_spec() -> bool {
        true
    }

    open spec fn from_spec(value: Option<String>) -> Self {
        PrintableOptionString(value)
    }
}

pub type Result<T> = std::result::Result<T, Error>;

} // verus!
