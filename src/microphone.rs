use vstd::prelude::*;

verus! {

/// The aggregate mute state of endpoints whose mute flags were read in turn
/// (`None`: the read failed): muted when all are muted, unmuted at the first
/// unmuted one, and failed at a failed read met before any unmuted one.
/// No endpoints at all count as muted.
pub open spec fn aggregate_mute(readings: Seq<Option<bool>>) -> Option<bool>
    decreases readings.len(),
{
    if readings.len() == 0 {
        Some(true)
    } else {
        match readings[0] {
            Some(false) => Some(false),
            None => None,
            Some(true) => aggregate_mute(readings.drop_first()),
        }
    }
}

/// Aggregate mute state of the tracked microphones; see `aggregate_mute`.
pub fn aggregate_muted(readings: &Vec<Option<bool>>) -> (r: Option<bool>)
    ensures
        r == aggregate_mute(readings@),
{
    let mut i: usize = 0;
    assert(readings@.subrange(0, readings@.len() as int) =~= readings@);
    while i < readings.len()
        invariant
            i <= readings@.len(),
            aggregate_mute(readings@) == aggregate_mute(readings@.subrange(i as int, readings@.len() as int)),
        decreases readings@.len() - i,
    {
        let rest = Ghost(readings@.subrange(i as int, readings@.len() as int));
        assert(rest@.drop_first() =~= readings@.subrange(i + 1, readings@.len() as int));
        match readings[i] {
            Some(false) => {
                return Some(false);
            },
            None => {
                return None;
            },
            Some(true) => {},
        }
        i = i + 1;
    }
    assert(readings@.subrange(i as int, readings@.len() as int).len() == 0);
    Some(true)
}

/// The last known aggregate mute state of the tracked microphones.
pub struct Microphone {
    is_muted: bool,
}

impl Microphone {
    pub closed spec fn is_muted_spec(&self) -> bool {
        self.is_muted
    }

    /// Starts out muted, so that no warning shows before the first check.
    pub fn new() -> (r: Microphone)
        ensures
            r.is_muted_spec(),
    {
        Microphone { is_muted: true }
    }

    pub fn is_muted(&self) -> (r: bool)
        ensures
            r == self.is_muted_spec(),
    {
        self.is_muted
    }

    /// Takes in the mute flags read from the endpoints; returns whether the
    /// aggregate state changed. A failed read leaves the state as it was.
    pub fn update_muted_state(&mut self, readings: &Vec<Option<bool>>) -> (changed: bool)
        ensures
            final(self).is_muted_spec() == (match aggregate_mute(readings@) {
                Some(m) => m,
                None => old(self).is_muted_spec(),
            }),
            changed == (final(self).is_muted_spec() != old(self).is_muted_spec()),
    {
        match aggregate_muted(readings) {
            Some(m) => {
                let changed = m != self.is_muted;
                self.is_muted = m;
                changed
            },
            None => false,
        }
    }
}

} // verus!
