use vstd::prelude::*;

verus! {

/// The outcome of asking whether the reference window (the taskbar) is topmost.
#[derive(Copy, Clone, Debug, PartialEq, Eq, Structural)]
pub enum TopmostQuery {
    /// The query succeeded.
    Topmost(bool),
    /// The reference handle no longer names a window: its process restarted.
    InvalidHandle,
    /// Any other failure.
    Failed,
}

/// What the owning window must do next to bring its stacking in line.
#[derive(Copy, Clone, Debug, PartialEq, Eq, Structural)]
pub enum ZOrderStep {
    /// Issue the one inert stacking call that must precede the first real one,
    /// then ask again with the same query.
    Touch,
    /// Set the owned window's topmost bit to this value, then report success
    /// with `record_applied`.
    Apply(bool),
    /// Nothing to do: the owned window already matches.
    Done,
    /// Resolve the reference window again and repeat the query once.
    RefetchAndRetry,
    /// Give up for now, keeping the previous state.
    Abandon,
}

/// The decision for one query: `touched` is whether the inert call was made,
/// `current` the owned window's last applied bit (`None`: unknown), and
/// `retried` whether the reference window was already resolved again.
pub open spec fn z_order_step(touched: bool, current: Option<bool>, query: TopmostQuery, retried: bool) -> ZOrderStep {
    match query {
        TopmostQuery::Topmost(b) => if !touched {
            ZOrderStep::Touch
        } else if current == Some(b) {
            ZOrderStep::Done
        } else {
            ZOrderStep::Apply(b)
        },
        TopmostQuery::InvalidHandle => if retried {
            ZOrderStep::Abandon
        } else {
            ZOrderStep::RefetchAndRetry
        },
        TopmostQuery::Failed => ZOrderStep::Abandon,
    }
}

/// Mirrors the reference window's topmost bit onto the owned window.
pub struct ZOrder {
    touched: bool,
    currently_topmost: Option<bool>,
}

impl ZOrder {
    /// Whether the inert stacking call has been made.
    pub closed spec fn touched_spec(&self) -> bool {
        self.touched
    }

    /// The owned window's last applied bit; `None` while unknown.
    pub closed spec fn topmost_spec(&self) -> Option<bool> {
        self.currently_topmost
    }

    /// The initial state: untouched, stacking unknown.
    pub fn new() -> (r: ZOrder)
        ensures
            !r.touched_spec(),
            r.topmost_spec() == None::<bool>,
    {
        ZOrder { touched: false, currently_topmost: None }
    }

    pub fn currently_topmost(&self) -> (r: Option<bool>)
        ensures
            r == self.topmost_spec(),
    {
        self.currently_topmost
    }

    /// Records the inert stacking call; returns whether it was the first,
    /// that is whether the call had to be made.
    pub fn touch_window(&mut self) -> (first: bool)
        ensures
            first == !old(self).touched_spec(),
            final(self).touched_spec(),
            final(self).topmost_spec() == old(self).topmost_spec(),
    {
        let first = !self.touched;
        self.touched = true;
        first
    }

    /// Decides what to do with the result of a query of the reference window.
    pub fn update(&self, query: TopmostQuery, retried: bool) -> (r: ZOrderStep)
        ensures
            r == z_order_step(self.touched_spec(), self.topmost_spec(), query, retried),
    {
        match query {
            TopmostQuery::Topmost(b) => {
                if !self.touched {
                    ZOrderStep::Touch
                } else {
                    match self.currently_topmost {
                        Some(c) if c == b => ZOrderStep::Done,
                        _ => ZOrderStep::Apply(b),
                    }
                }
            },
            TopmostQuery::InvalidHandle => {
                if retried {
                    ZOrderStep::Abandon
                } else {
                    ZOrderStep::RefetchAndRetry
                }
            },
            TopmostQuery::Failed => ZOrderStep::Abandon,
        }
    }

    /// Records that the owned window's topmost bit was set to `topmost`.
    pub fn record_applied(&mut self, topmost: bool)
        ensures
            final(self).topmost_spec() == Some(topmost),
            final(self).touched_spec() == old(self).touched_spec(),
    {
        self.currently_topmost = Some(topmost);
    }
}

/// The stacking calls made by successive checks that find the reference bits
/// `bits`, each `Apply` succeeding: the number of calls, and the final state.
pub open spec fn stacking_calls(current: Option<bool>, bits: Seq<bool>) -> (nat, Option<bool>)
    decreases bits.len(),
{
    if bits.len() == 0 {
        (0, current)
    } else {
        match z_order_step(true, current, TopmostQuery::Topmost(bits[0]), false) {
            ZOrderStep::Apply(b) => {
                let (n, last) = stacking_calls(Some(b), bits.drop_first());
                (n + 1, last)
            },
            _ => stacking_calls(current, bits.drop_first()),
        }
    }
}

/// Resolution is idempotent: after a touched synchronizer has applied a bit,
/// repeated checks that find the same bit make no further stacking call; from
/// any state, checks that keep finding one bit make at most one call.
pub proof fn lemma_update_idempotent(current: Option<bool>, b: bool, n: nat)
    ensures
        z_order_step(true, Some(b), TopmostQuery::Topmost(b), false) == ZOrderStep::Done,
        z_order_step(true, Some(b), TopmostQuery::Topmost(b), true) == ZOrderStep::Done,
        stacking_calls(current, Seq::new(n, |i: int| b)).0 == (if n > 0 && current != Some(b) {
            1nat
        } else {
            0nat
        }),
    decreases n,
{
    if n > 0 {
        let rest = Seq::new((n - 1) as nat, |i: int| b);
        assert(Seq::new(n, |i: int| b).drop_first() =~= rest);
        lemma_update_idempotent(Some(b), b, (n - 1) as nat);
        lemma_update_idempotent(current, b, (n - 1) as nat);
    }
}

} // verus!
