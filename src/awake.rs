use vstd::prelude::*;

verus! {

/// Whether the system is being kept awake: `None` while the feature is off,
/// else the state last set.
pub struct Awake {
    currently_kept_awake: Option<bool>,
}

impl Awake {
    pub closed spec fn state(&self) -> Option<bool> {
        self.currently_kept_awake
    }

    /// Disabled: requests to keep awake are ignored.
    pub fn new() -> (r: Awake)
        ensures
            r.state() == None::<bool>,
    {
        Awake { currently_kept_awake: None }
    }

    /// Turns the feature on; the system starts out not kept awake.
    pub fn enable(&mut self)
        ensures
            final(self).state() == Some(false),
    {
        self.currently_kept_awake = Some(false);
    }

    /// Decides whether the system's execution state must be set to `awake`:
    /// not while disabled, nor when it already is.
    pub fn keep_awake(&self, awake: bool) -> (r: Option<bool>)
        ensures
            r == (match self.state() {
                None => None,
                Some(current) => if current == awake {
                    None
                } else {
                    Some(awake)
                },
            }),
    {
        match self.currently_kept_awake {
            None => None,
            Some(current) => if current == awake {
                None
            } else {
                Some(awake)
            },
        }
    }

    /// Records that the execution state was set to `awake`.
    pub fn record_kept_awake(&mut self, awake: bool)
        ensures
            final(self).state() == (match old(self).state() {
                None => None,
                Some(_) => Some(awake),
            }),
    {
        if self.currently_kept_awake.is_some() {
            self.currently_kept_awake = Some(awake);
        }
    }
}

} // verus!
