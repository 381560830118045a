use vstd::prelude::*;

use crate::codes::VirtualKey;

verus! {

/// A key is either a virtual key (a physical or function key) or a UTF-16
/// code unit to be typed as text.
#[derive(Debug, Clone, Copy, PartialEq, Eq, Structural)]
pub enum Code {
    VirtualKey(u16),
    UnicodeKey(u16),
}

/// One key press: a key identity and an optional hold time in milliseconds.
///
/// With no hold the key goes down and comes straight back up; with a hold of
/// `d` milliseconds it is released `d` milliseconds after going down.
#[derive(Debug, Clone, Copy, PartialEq, Eq, Structural)]
pub struct Press {
    pub code: Code,
    pub duration: Option<u64>,
}

impl Press {
    pub fn new(code: Code, duration: Option<u64>) -> (r: Self)
        ensures
            r.code == code,
            r.duration == duration,
    {
        Self { code, duration }
    }

    /// A text key press.
    pub fn new_unicode(code: u16, duration: Option<u64>) -> (r: Self)
        ensures
            r.code == Code::UnicodeKey(code),
            r.duration == duration,
    {
        Self { code: Code::UnicodeKey(code), duration }
    }

    /// A text key press held for `ms` milliseconds.
    pub fn new_unicode_ms(code: u16, ms: u64) -> (r: Self)
        ensures
            r.code == Code::UnicodeKey(code),
            r.duration == Some(ms),
    {
        Self::new_unicode(code, Some(ms))
    }

    /// A virtual key press.
    pub fn new_virtual(code: u16, duration: Option<u64>) -> (r: Self)
        ensures
            r.code == Code::VirtualKey(code),
            r.duration == duration,
    {
        Self { code: Code::VirtualKey(code), duration }
    }

    /// A virtual key press held for `ms` milliseconds.
    pub fn new_virtual_ms(code: u16, ms: u64) -> (r: Self)
        ensures
            r.code == Code::VirtualKey(code),
            r.duration == Some(ms),
    {
        Self::new_virtual(code, Some(ms))
    }
}

/// A text key press with no hold, from one UTF-16 code unit.
impl From<u16> for Press {
    fn from(code: u16) -> (r: Self) {
        Self::new_unicode(code, None)
    }
}

impl vstd::std_specs::convert::FromSpecImpl<u16> for Press {
    open spec fn obeys_from_spec() -> bool {
        true
    }

    open spec fn from_spec(code: u16) -> Press {
        Press { code: Code::UnicodeKey(code), duration: None }
    }
}

/// A virtual key press with no hold.
impl From<VirtualKey> for Press {
    fn from(key: VirtualKey) -> (r: Self) {
        Self::new_virtual(key.code(), None)
    }
}

impl vstd::std_specs::convert::FromSpecImpl<VirtualKey> for Press {
    open spec fn obeys_from_spec() -> bool {
        true
    }

    open spec fn from_spec(key: VirtualKey) -> Press {
        Press { code: Code::VirtualKey(key.spec_code()), duration: None }
    }
}

} // verus!
