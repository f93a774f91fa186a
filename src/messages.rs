use vstd::prelude::*;

verus! {

/// First message id free for a window class's own use.
pub const WM_USER: u32 = 0x0400;

/// Last id of the range private to a window class.
pub const WM_USER_LAST: u32 = 0x7fff;

/// First and last id of the messages registered by name at run time.
pub const REGISTERED_FIRST: u32 = 0xC000;
pub const REGISTERED_LAST: u32 = 0xFFFF;

/// Where a message id comes from, which decides how it is named.
#[derive(Copy, Clone, Debug, PartialEq, Eq, Structural)]
pub enum MessageKind {
    /// A class-private message, by its offset from `WM_USER`.
    User(u32),
    /// A message registered by name: the system knows its name.
    Registered,
    /// A predefined message, or an unknown one.
    System,
}

/// A message id, to be named for the log.
#[derive(Copy, Clone, Debug, PartialEq, Eq, Structural)]
pub struct Name(pub u32);

impl Name {
    pub fn kind(&self) -> (r: MessageKind)
        ensures
            r == (if WM_USER <= self.0 <= WM_USER_LAST {
                MessageKind::User((self.0 - WM_USER) as u32)
            } else if REGISTERED_FIRST <= self.0 <= REGISTERED_LAST {
                MessageKind::Registered
            } else {
                MessageKind::System
            }),
    {
        if WM_USER <= self.0 && self.0 <= WM_USER_LAST {
            MessageKind::User(self.0 - WM_USER)
        } else if REGISTERED_FIRST <= self.0 && self.0 <= REGISTERED_LAST {
            MessageKind::Registered
        } else {
            MessageKind::System
        }
    }
}

} // verus!
