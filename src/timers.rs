use vstd::prelude::*;

verus! {

/// Timer slot ids.
pub const IDT_FETCH_AND_REDRAW_TIMER: usize = 1;
pub const IDT_TRAY_POSITION_TIMER: usize = 2;
pub const IDT_Z_ORDER_TIMER: usize = 3;
pub const IDT_MIC_STATE_TIMER: usize = 4;

/// Timer intervals, in milliseconds.
pub const FETCH_TIMER_MS: u32 = 1000;
pub const TRAY_POSITION_TIMER_MS: u32 = 10;
pub const Z_ORDER_TIMER_MS: u32 = 50;
pub const MIC_STATE_TIMER_MS: u32 = 10;

/// Coalescing tolerances, in milliseconds; zero asks for the system default.
pub const FETCH_AND_REDRAW_TIMER_COALESCE: u32 = 1000;
pub const DEFAULT_COALESCING: u32 = 0;

/// What the owning window must ask of the system's timers.
#[derive(Copy, Clone, Debug, PartialEq, Eq, Structural)]
pub enum TimerCommand {
    /// Start the slot, replacing any pending fire of it.
    Start { id: usize, interval_ms: u32, coalesce_ms: u32 },
    /// Stop the slot; a slot that is not running is not an error.
    Stop { id: usize },
}

/// One single-shot, debounced timer slot of the owning window.
///
/// It holds no state of its own: what runs is the system's.
#[derive(Copy, Clone, Debug, PartialEq, Eq, Structural)]
pub struct Timer {
    id: usize,
    interval_ms: u32,
    coalesce_ms: u32,
}

impl Timer {
    pub closed spec fn id_spec(&self) -> usize {
        self.id
    }

    pub closed spec fn interval_spec(&self) -> u32 {
        self.interval_ms
    }

    pub closed spec fn coalesce_spec(&self) -> u32 {
        self.coalesce_ms
    }

    fn new(id: usize, interval_ms: u32, coalesce_ms: u32) -> (r: Timer)
        ensures
            r.id_spec() == id,
            r.interval_spec() == interval_ms,
            r.coalesce_spec() == coalesce_ms,
    {
        Timer { id, interval_ms, coalesce_ms }
    }

    pub fn id(&self) -> (r: usize)
        ensures
            r == self.id_spec(),
    {
        self.id
    }

    pub fn interval_ms(&self) -> (r: u32)
        ensures
            r == self.interval_spec(),
    {
        self.interval_ms
    }

    /// (Re)starts the timer: cancels any pending fire of this slot and starts
    /// it anew, so a burst of calls collapses to one fire after the last.
    pub fn reschedule(&self) -> (r: TimerCommand)
        ensures
            r == (TimerCommand::Start {
                id: self.id_spec(),
                interval_ms: self.interval_spec(),
                coalesce_ms: self.coalesce_spec(),
            }),
    {
        TimerCommand::Start { id: self.id, interval_ms: self.interval_ms, coalesce_ms: self.coalesce_ms }
    }

    /// Cancels a pending fire, if any.
    pub fn kill(&self) -> (r: TimerCommand)
        ensures
            r == (TimerCommand::Stop { id: self.id_spec() }),
    {
        TimerCommand::Stop { id: self.id }
    }
}

/// The timer slots of one window.
pub struct Timers {
    pub fetch_and_redraw: Timer,
    pub tray_position: Timer,
    pub z_order: Timer,
    pub mic_state: Timer,
}

impl Timers {
    pub open spec fn wf(&self) -> bool {
        &&& self.fetch_and_redraw.id_spec() == IDT_FETCH_AND_REDRAW_TIMER
        &&& self.fetch_and_redraw.interval_spec() == FETCH_TIMER_MS
        &&& self.fetch_and_redraw.coalesce_spec() == FETCH_AND_REDRAW_TIMER_COALESCE
        &&& self.tray_position.id_spec() == IDT_TRAY_POSITION_TIMER
        &&& self.tray_position.interval_spec() == TRAY_POSITION_TIMER_MS
        &&& self.tray_position.coalesce_spec() == DEFAULT_COALESCING
        &&& self.z_order.id_spec() == IDT_Z_ORDER_TIMER
        &&& self.z_order.interval_spec() == Z_ORDER_TIMER_MS
        &&& self.z_order.coalesce_spec() == DEFAULT_COALESCING
        &&& self.mic_state.id_spec() == IDT_MIC_STATE_TIMER
        &&& self.mic_state.interval_spec() == MIC_STATE_TIMER_MS
        &&& self.mic_state.coalesce_spec() == DEFAULT_COALESCING
    }

    pub fn new() -> (r: Timers)
        ensures
            r.wf(),
    {
        Timers {
            fetch_and_redraw: Timer::new(
                IDT_FETCH_AND_REDRAW_TIMER,
                FETCH_TIMER_MS,
                FETCH_AND_REDRAW_TIMER_COALESCE,
            ),
            tray_position: Timer::new(IDT_TRAY_POSITION_TIMER, TRAY_POSITION_TIMER_MS, DEFAULT_COALESCING),
            z_order: Timer::new(IDT_Z_ORDER_TIMER, Z_ORDER_TIMER_MS, DEFAULT_COALESCING),
            mic_state: Timer::new(IDT_MIC_STATE_TIMER, MIC_STATE_TIMER_MS, DEFAULT_COALESCING),
        }
    }
}

/// How the system runs one timer slot: `Start` arms it to fire one interval
/// later (replacing a pending fire), `Stop` disarms it, and an armed slot
/// fires when its time comes and then rearms for the next interval.
#[derive(Copy, Clone, Debug, PartialEq, Eq, Structural)]
pub struct TimerSlot {
    interval_ms: u32,
    due_ms: Option<u64>,
}

/// A slot armed to fire at `d` fires at time `now` when `d <= now`.
pub open spec fn due_by(due: Option<int>, now: int) -> bool {
    match due {
        Some(d) => d <= now,
        None => false,
    }
}

/// Whether a slot armed as `due` fires before any of the reschedule calls at
/// the times `calls`, each of which rearms it one `interval` later.
pub open spec fn fires_between(due: Option<int>, calls: Seq<int>, interval: int) -> bool
    decreases calls.len(),
{
    if calls.len() == 0 {
        false
    } else {
        due_by(due, calls[0]) || fires_between(Some(calls[0] + interval), calls.drop_first(), interval)
    }
}

/// When the slot is due after the reschedule calls at the times `calls`.
pub open spec fn due_after(due: Option<int>, calls: Seq<int>, interval: int) -> Option<int> {
    if calls.len() == 0 {
        due
    } else {
        Some(calls.last() + interval)
    }
}

/// Reschedule calls that follow each other by less than the interval.
pub open spec fn bursty(calls: Seq<int>, interval: int) -> bool {
    forall|i: int| 0 <= i < calls.len() - 1 ==> calls[i] <= #[trigger] calls[i + 1] < calls[i] + interval
}

/// Debouncing: a burst of reschedule calls on an idle slot, each less than
/// one interval after the previous, fires nothing during the burst, and the
/// slot is then due exactly one interval after the last call.
pub proof fn lemma_debounce(calls: Seq<int>, interval: int)
    requires
        calls.len() > 0,
        interval > 0,
        bursty(calls, interval),
    ensures
        !fires_between(None, calls, interval),
        due_after(None, calls, interval) == Some(calls.last() + interval),
{
    lemma_burst_quiet(None, calls, interval);
}

proof fn lemma_burst_quiet(due: Option<int>, calls: Seq<int>, interval: int)
    requires
        calls.len() > 0,
        !due_by(due, calls[0]),
        bursty(calls, interval),
    ensures
        !fires_between(due, calls, interval),
    decreases calls.len(),
{
    if calls.len() > 1 {
        let rest = calls.drop_first();
        assert(calls[1] < calls[0] + interval) by {
            assert(calls[0int] <= calls[0int + 1] < calls[0int] + interval);
        }
        assert(bursty(rest, interval)) by {
            assert forall|i: int| 0 <= i < rest.len() - 1 implies rest[i] <= #[trigger] rest[i + 1] < rest[i] + interval by {
                assert(calls[i + 1] <= calls[(i + 1) + 1] < calls[i + 1] + interval);
            }
        }
        lemma_burst_quiet(Some(calls[0] + interval), rest, interval);
    } else {
        assert(calls.drop_first().len() == 0);
        assert(!fires_between(Some(calls[0] + interval), calls.drop_first(), interval));
    }
}

impl TimerSlot {
    pub closed spec fn due_spec(&self) -> Option<int> {
        match self.due_ms {
            Some(d) => Some(d as int),
            None => None,
        }
    }

    pub closed spec fn interval_spec(&self) -> int {
        self.interval_ms as int
    }

    /// An idle slot.
    pub fn idle() -> (r: TimerSlot)
        ensures
            r.due_spec() == None::<int>,
    {
        TimerSlot { interval_ms: 0, due_ms: None }
    }

    /// Applies a command issued at time `now_ms`.
    pub fn apply(&mut self, command: TimerCommand, now_ms: u64)
        requires
            now_ms + u32::MAX <= u64::MAX,
        ensures
            match command {
                TimerCommand::Start { interval_ms, .. } => {
                    &&& final(self).due_spec() == Some(now_ms + interval_ms)
                    &&& final(self).interval_spec() == interval_ms
                },
                TimerCommand::Stop { .. } => {
                    &&& final(self).due_spec() == None::<int>
                    &&& final(self).interval_spec() == old(self).interval_spec()
                },
            },
    {
        match command {
            TimerCommand::Start { interval_ms, .. } => {
                self.interval_ms = interval_ms;
                self.due_ms = Some(now_ms + interval_ms as u64);
            },
            TimerCommand::Stop { .. } => {
                self.due_ms = None;
            },
        }
    }

    /// Whether the slot fires at time `now_ms`; a slot that fires rearms
    /// one interval later.
    pub fn fire_if_due(&mut self, now_ms: u64) -> (fired: bool)
        requires
            now_ms + u32::MAX <= u64::MAX,
        ensures
            fired == due_by(old(self).due_spec(), now_ms as int),
            fired ==> final(self).due_spec() == Some(now_ms + old(self).interval_spec()),
            !fired ==> final(self).due_spec() == old(self).due_spec(),
            final(self).interval_spec() == old(self).interval_spec(),
    {
        let fired = match self.due_ms {
            Some(d) => d <= now_ms,
            None => false,
        };
        if fired {
            self.due_ms = Some(now_ms + self.interval_ms as u64);
        }
        fired
    }
}

} // verus!
