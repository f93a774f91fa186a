use vstd::prelude::*;

use crate::awake::Awake;
use crate::metrics::{Metrics, Sample};
use crate::microphone::{aggregate_mute, Microphone};
use crate::position::{dpi_scale, Position};
use crate::timers::{
    TimerCommand, Timers, DEFAULT_COALESCING, FETCH_AND_REDRAW_TIMER_COALESCE, FETCH_TIMER_MS,
    IDT_FETCH_AND_REDRAW_TIMER, IDT_MIC_STATE_TIMER, IDT_TRAY_POSITION_TIMER, IDT_Z_ORDER_TIMER,
    MIC_STATE_TIMER_MS, TRAY_POSITION_TIMER_MS, Z_ORDER_TIMER_MS,
};
use crate::opt::ConfigFile;
use crate::utils::Unscaled;
use crate::z_order::ZOrder;

verus! {

/// User message ids, carried in the first message parameter.
pub const UM_ENABLE_KEEP_AWAKE: usize = 1;
pub const UM_ENABLE_DEBUG_PAINT: usize = 2;
pub const UM_INITIAL_METRICS: usize = 3;
pub const UM_INITIAL_MIC_STATE: usize = 4;
pub const UM_INITIAL_RENDER: usize = 5;
pub const UM_QUEUE_TRAY_POSITION_CHECK: usize = 6;
pub const UM_QUEUE_MIC_STATE_CHECK: usize = 7;
pub const UM_SET_OFFSET_FROM_RIGHT: usize = 8;
pub const UM_INITIAL_Z_ORDER: usize = 9;

/// Shell hook codes after which the taskbar re-evaluates its stacking.
pub const HSHELL_WINDOWACTIVATED: usize = 0x4;
pub const HSHELL_RUDEAPPACTIVATED: usize = 0x8004;
pub const HSHELL_STACKING_A: usize = 0x35;
pub const HSHELL_STACKING_B: usize = 0x36;

/// Hotkey id of the microphone mute toggle.
pub const HOTKEY_MIC_MUTE: usize = 1;

/// One redraw per this many metric fetches.
pub const REDRAW_EVERY_N_FETCHES: u64 = 5;

/// A change of the user session.
#[derive(Copy, Clone, Debug, PartialEq, Eq, Structural)]
pub enum SessionChange {
    Logon,
    Logoff,
    Lock,
    Unlock,
    Other,
}

/// Everything that reaches the window, on its one thread, in arrival order:
/// window messages, and the results of work that an `Action` asked for.
pub enum Event {
    /// The non-client area is being sized.
    NcCalcSize,
    /// The frame should be painted.
    NcPaint,
    /// The client area should be painted.
    Paint,
    /// The background should be erased.
    EraseBackground,
    /// The window's DPI changed.
    DpiChanged { dpi: u16 },
    /// The display resolution changed.
    DisplayChange,
    /// The window is being destroyed.
    Destroy,
    /// A user message.
    User { id: usize, lparam: isize },
    /// A shell hook notification: the taskbar's own activity.
    ShellHook { code: usize, lparam: isize },
    /// A session notification.
    Session(SessionChange),
    /// A registered hotkey was pressed.
    Hotkey { id: usize },
    /// A timer slot fired.
    Timer { id: usize },
    /// The counters read after `Action::SampleCounters`.
    Sampled(Sample),
    /// The endpoint mute flags read after `Action::CheckMute`, in order;
    /// `None` where a read failed.
    MuteChecked(Vec<Option<bool>>),
    /// The execution state was set after `Action::SetKeepAwake`.
    KeepAwakeSet(bool),
    /// Any other message.
    Unhandled,
}

/// Work the window must do in response to an event, in order.
#[derive(Copy, Clone, Debug, PartialEq, Eq, Structural)]
pub enum Action {
    /// Pass a command to the system's timers.
    Timer(TimerCommand),
    /// Read the counters and hand them back as `Event::Sampled`.
    SampleCounters,
    /// Render the current averages and mute state.
    Render,
    /// Read the taskbar and tray positions into `position`, and recompute.
    UpdateSizeAndPosition,
    /// Run the z-order check through `z_order`.
    SyncZOrder,
    /// Refresh the set of tracked microphones.
    RefreshMicDevices,
    /// Set the mute flag of every tracked microphone.
    SetMute(bool),
    /// Read the microphones' mute flags and hand them back as `Event::MuteChecked`.
    CheckMute,
    /// Set the execution state and report success as `Event::KeepAwakeSet`.
    SetKeepAwake(bool),
    /// End the message loop.
    PostQuit,
}

/// What handling an event produced.
pub struct Response {
    /// The message's result; `None` hands the message to the default handler.
    pub result: Option<isize>,
    pub actions: Vec<Action>,
}

/// The per-window controller: owns the sampler, the synchronizers and the
/// timer slots, and is the only thing that changes them.
pub struct InfoBand {
    pub timers: Timers,
    pub z_order: ZOrder,
    pub position: Position,
    pub metrics: Metrics,
    pub mic: Microphone,
    pub awake: Awake,
    /// Whether the session is unlocked, so that periodic work runs.
    pub session_active: bool,
    /// Fetches since the last periodic redraw, modulo `REDRAW_EVERY_N_FETCHES`.
    pub fetch_phase: u64,
    pub debug_paint: bool,
    pub offset_from_right: Unscaled<i32>,
}

pub open spec fn start(id: usize, interval_ms: u32, coalesce_ms: u32) -> Action {
    Action::Timer(TimerCommand::Start { id, interval_ms, coalesce_ms })
}

pub open spec fn stop(id: usize) -> Action {
    Action::Timer(TimerCommand::Stop { id })
}

pub open spec fn start_fetch() -> Action {
    start(IDT_FETCH_AND_REDRAW_TIMER, FETCH_TIMER_MS, FETCH_AND_REDRAW_TIMER_COALESCE)
}

pub open spec fn start_tray() -> Action {
    start(IDT_TRAY_POSITION_TIMER, TRAY_POSITION_TIMER_MS, DEFAULT_COALESCING)
}

pub open spec fn start_z_order() -> Action {
    start(IDT_Z_ORDER_TIMER, Z_ORDER_TIMER_MS, DEFAULT_COALESCING)
}

pub open spec fn start_mic() -> Action {
    start(IDT_MIC_STATE_TIMER, MIC_STATE_TIMER_MS, DEFAULT_COALESCING)
}

/// The keep-awake request for a new session state, if one is due.
pub open spec fn keep_awake_actions(awake: Option<bool>, want: bool) -> Seq<Action> {
    match awake {
        Some(current) if current != want => seq![Action::SetKeepAwake(want)],
        _ => Seq::empty(),
    }
}

/// Whether a shell hook code asks for a debounced z-order check.
pub open spec fn is_stacking_code(code: usize) -> bool {
    code == HSHELL_WINDOWACTIVATED || code == HSHELL_RUDEAPPACTIVATED || code == HSHELL_STACKING_A
        || code == HSHELL_STACKING_B
}

/// The fetch phase after one more fetch.
pub open spec fn next_phase(phase: u64) -> u64 {
    ((phase + 1) % (REDRAW_EVERY_N_FETCHES as int)) as u64
}

/// The mute state that a check with these readings leaves.
pub open spec fn muted_after(was_muted: bool, readings: Seq<Option<bool>>) -> bool {
    match aggregate_mute(readings) {
        Some(m) => m,
        None => was_muted,
    }
}

/// The message result of each event.
pub open spec fn result_for(event: &Event) -> Option<isize> {
    match event {
        Event::Paint => None,
        Event::EraseBackground => Some(1),
        Event::User { id, .. } => if *id == UM_ENABLE_KEEP_AWAKE || *id == UM_ENABLE_DEBUG_PAINT
            || *id == UM_INITIAL_METRICS || *id == UM_INITIAL_MIC_STATE || *id == UM_INITIAL_RENDER
            || *id == UM_QUEUE_TRAY_POSITION_CHECK || *id == UM_QUEUE_MIC_STATE_CHECK
            || *id == UM_SET_OFFSET_FROM_RIGHT || *id == UM_INITIAL_Z_ORDER {
            Some(0)
        } else {
            None
        },
        Event::Timer { id } => if *id == IDT_FETCH_AND_REDRAW_TIMER || *id == IDT_MIC_STATE_TIMER
            || *id == IDT_Z_ORDER_TIMER || *id == IDT_TRAY_POSITION_TIMER {
            Some(0)
        } else {
            None
        },
        Event::Unhandled => None,
        _ => Some(0),
    }
}

/// The actions each event asks for, given the state before it.
pub open spec fn actions_for(pre: &InfoBand, event: &Event) -> Seq<Action> {
    match event {
        Event::DpiChanged { .. } | Event::DisplayChange => seq![
            Action::UpdateSizeAndPosition,
            Action::Render,
        ],
        Event::Destroy => seq![
            stop(IDT_FETCH_AND_REDRAW_TIMER),
            stop(IDT_TRAY_POSITION_TIMER),
            stop(IDT_Z_ORDER_TIMER),
            stop(IDT_MIC_STATE_TIMER),
            Action::PostQuit,
        ],
        Event::User { id, .. } => if *id == UM_ENABLE_KEEP_AWAKE {
            if pre.session_active {
                seq![Action::SetKeepAwake(true)]
            } else {
                Seq::empty()
            }
        } else if *id == UM_INITIAL_METRICS {
            seq![Action::SampleCounters, start_fetch()]
        } else if *id == UM_INITIAL_MIC_STATE {
            seq![Action::RefreshMicDevices, Action::CheckMute]
        } else if *id == UM_INITIAL_RENDER {
            seq![Action::UpdateSizeAndPosition, Action::Render]
        } else if *id == UM_QUEUE_TRAY_POSITION_CHECK {
            seq![start_tray()]
        } else if *id == UM_QUEUE_MIC_STATE_CHECK {
            seq![start_mic()]
        } else if *id == UM_INITIAL_Z_ORDER {
            seq![Action::SyncZOrder]
        } else {
            Seq::empty()
        },
        Event::ShellHook { code, lparam } => if *code == HSHELL_RUDEAPPACTIVATED && *lparam == 0 {
            seq![Action::SyncZOrder]
        } else if is_stacking_code(*code) {
            seq![start_z_order()]
        } else {
            Seq::empty()
        },
        Event::Session(change) => match change {
            SessionChange::Logon | SessionChange::Unlock => seq![start_fetch()]
                + keep_awake_actions(pre.awake.state(), true),
            SessionChange::Logoff | SessionChange::Lock => seq![stop(IDT_FETCH_AND_REDRAW_TIMER)]
                + keep_awake_actions(pre.awake.state(), false),
            SessionChange::Other => Seq::empty(),
        },
        Event::Hotkey { id } => if *id == HOTKEY_MIC_MUTE {
            seq![
                Action::RefreshMicDevices,
                Action::SetMute(!pre.mic.is_muted_spec()),
                Action::CheckMute,
            ]
        } else {
            Seq::empty()
        },
        Event::Timer { id } => if *id == IDT_FETCH_AND_REDRAW_TIMER {
            if pre.session_active {
                seq![Action::SampleCounters]
            } else {
                Seq::empty()
            }
        } else if *id == IDT_MIC_STATE_TIMER {
            seq![stop(IDT_MIC_STATE_TIMER), Action::CheckMute]
        } else if *id == IDT_Z_ORDER_TIMER {
            seq![stop(IDT_Z_ORDER_TIMER), Action::SyncZOrder]
        } else if *id == IDT_TRAY_POSITION_TIMER {
            seq![stop(IDT_TRAY_POSITION_TIMER), Action::UpdateSizeAndPosition, Action::Render]
        } else {
            Seq::empty()
        },
        Event::Sampled(_) => if pre.session_active && next_phase(pre.fetch_phase) == 0 {
            seq![Action::Render]
        } else {
            Seq::empty()
        },
        Event::MuteChecked(readings) => if muted_after(pre.mic.is_muted_spec(), readings@)
            != pre.mic.is_muted_spec() {
            seq![Action::Render]
        } else {
            Seq::empty()
        },
        _ => Seq::empty(),
    }
}

/// How each event changes the state. The timers and the z-order state are
/// never changed here: the owning window runs the z-order check itself.
pub open spec fn state_after(pre: &InfoBand, event: &Event, post: &InfoBand) -> bool {
    &&& post.timers == pre.timers
    &&& post.z_order == pre.z_order
    &&& match event {
        Event::DpiChanged { dpi } => {
            &&& post.position.dpi_spec()@ == dpi_scale(*dpi as u32)
            &&& post.position.taskbar_spec() == pre.position.taskbar_spec()
            &&& post.position.tray_left_edge_spec() == pre.position.tray_left_edge_spec()
            &&& post.position.rect_spec() == pre.position.rect_spec()
        },
        _ => post.position == pre.position,
    }
    &&& match event {
        Event::Sampled(sample) => if pre.session_active {
            crate::metrics::fetched(&pre.metrics, sample, &post.metrics)
        } else {
            post.metrics == pre.metrics
        },
        _ => post.metrics == pre.metrics,
    }
    &&& post.fetch_phase == match event {
        Event::Sampled(_) => if pre.session_active {
            next_phase(pre.fetch_phase)
        } else {
            pre.fetch_phase
        },
        _ => pre.fetch_phase,
    }
    &&& post.mic.is_muted_spec() == match event {
        Event::MuteChecked(readings) => muted_after(pre.mic.is_muted_spec(), readings@),
        _ => pre.mic.is_muted_spec(),
    }
    &&& post.awake.state() == match event {
        Event::User { id, .. } => if *id == UM_ENABLE_KEEP_AWAKE {
            Some(false)
        } else {
            pre.awake.state()
        },
        Event::KeepAwakeSet(b) => match pre.awake.state() {
            None => None,
            Some(_) => Some(*b),
        },
        _ => pre.awake.state(),
    }
    &&& post.session_active == match event {
        Event::Session(SessionChange::Logon) | Event::Session(SessionChange::Unlock) => true,
        Event::Session(SessionChange::Logoff) | Event::Session(SessionChange::Lock) => false,
        _ => pre.session_active,
    }
    &&& post.debug_paint == match event {
        Event::User { id, .. } => *id == UM_ENABLE_DEBUG_PAINT || pre.debug_paint,
        _ => pre.debug_paint,
    }
    &&& post.offset_from_right@ == match event {
        Event::User { id, lparam } => if *id == UM_SET_OFFSET_FROM_RIGHT {
            *lparam as i32
        } else {
            pre.offset_from_right@
        },
        _ => pre.offset_from_right@,
    }
}

impl InfoBand {
    pub open spec fn wf(&self) -> bool {
        &&& self.timers.wf()
        &&& self.metrics.wf()
        &&& self.fetch_phase < REDRAW_EVERY_N_FETCHES
    }

    /// The state of a newly created window with the given DPI: session
    /// active, microphones assumed muted, nothing fetched.
    pub fn new(dpi: u16) -> (r: InfoBand)
        ensures
            r.wf(),
            r.session_active,
            r.mic.is_muted_spec(),
            r.fetch_phase == 0,
            !r.debug_paint,
            r.awake.state() == None::<bool>,
            !r.z_order.touched_spec(),
            r.z_order.topmost_spec() == None::<bool>,
            r.metrics.fresh(),
            r.position.dpi_spec()@ == dpi_scale(dpi as u32),
            r.offset_from_right@ == 0,
    {
        InfoBand {
            timers: Timers::new(),
            z_order: ZOrder::new(),
            position: Position::new(dpi as u32),
            metrics: Metrics::new(),
            mic: Microphone::new(),
            awake: Awake::new(),
            session_active: true,
            fetch_phase: 0,
            debug_paint: false,
            offset_from_right: Unscaled::new(0),
        }
    }

    /// Handles one event: updates the state and says what the window must do.
    pub fn handle(&mut self, event: Event) -> (r: Response)
        requires
            old(self).wf(),
        ensures
            final(self).wf(),
            r.result == result_for(&event),
            r.actions@ == actions_for(old(self), &event),
            state_after(old(self), &event, final(self)),
    {
        let mut actions: Vec<Action> = Vec::new();
        let result: Option<isize> = match event {
            Event::NcCalcSize => Some(0),
            Event::NcPaint => Some(0),
            Event::Paint => None,
            Event::EraseBackground => Some(1),
            Event::DpiChanged { dpi } => {
                self.position.set_dpi(dpi as u32);
                actions.push(Action::UpdateSizeAndPosition);
                actions.push(Action::Render);
                Some(0)
            },
            Event::DisplayChange => {
                actions.push(Action::UpdateSizeAndPosition);
                actions.push(Action::Render);
                Some(0)
            },
            Event::Destroy => {
                actions.push(Action::Timer(self.timers.fetch_and_redraw.kill()));
                actions.push(Action::Timer(self.timers.tray_position.kill()));
                actions.push(Action::Timer(self.timers.z_order.kill()));
                actions.push(Action::Timer(self.timers.mic_state.kill()));
                actions.push(Action::PostQuit);
                Some(0)
            },
            Event::User { id, lparam } => self.handle_user(id, lparam, &mut actions),
            Event::ShellHook { code, lparam } => {
                if code == HSHELL_RUDEAPPACTIVATED && lparam == 0 {
                    // The taskbar itself was focused: restack right away.
                    actions.push(Action::SyncZOrder);
                } else if code == HSHELL_WINDOWACTIVATED || code == HSHELL_RUDEAPPACTIVATED || code
                    == HSHELL_STACKING_A || code == HSHELL_STACKING_B {
                    // The taskbar restacks itself concurrently; check after it is done.
                    actions.push(Action::Timer(self.timers.z_order.reschedule()));
                }
                Some(0)
            },
            Event::Session(change) => {
                match change {
                    SessionChange::Logon | SessionChange::Unlock => {
                        self.session_active = true;
                        actions.push(Action::Timer(self.timers.fetch_and_redraw.reschedule()));
                        if let Some(b) = self.awake.keep_awake(true) {
                            actions.push(Action::SetKeepAwake(b));
                        }
                    },
                    SessionChange::Logoff | SessionChange::Lock => {
                        self.session_active = false;
                        actions.push(Action::Timer(self.timers.fetch_and_redraw.kill()));
                        if let Some(b) = self.awake.keep_awake(false) {
                            actions.push(Action::SetKeepAwake(b));
                        }
                    },
                    SessionChange::Other => {},
                }
                Some(0)
            },
            Event::Hotkey { id } => {
                if id == HOTKEY_MIC_MUTE {
                    actions.push(Action::RefreshMicDevices);
                    actions.push(Action::SetMute(!self.mic.is_muted()));
                    actions.push(Action::CheckMute);
                }
                Some(0)
            },
            Event::Timer { id } => self.handle_timer(id, &mut actions),
            Event::Sampled(sample) => {
                if self.session_active {
                    self.metrics.fetch(sample);
                    self.fetch_phase = (self.fetch_phase + 1) % REDRAW_EVERY_N_FETCHES;
                    if self.fetch_phase == 0 {
                        actions.push(Action::Render);
                    }
                }
                Some(0)
            },
            Event::MuteChecked(readings) => {
                if self.mic.update_muted_state(&readings) {
                    actions.push(Action::Render);
                }
                Some(0)
            },
            Event::KeepAwakeSet(b) => {
                self.awake.record_kept_awake(b);
                Some(0)
            },
            Event::Unhandled => None,
        };
        proof {
            assert(actions@ =~= actions_for(old(self), &event));
        }
        Response { result, actions }
    }

    fn handle_user(&mut self, id: usize, lparam: isize, actions: &mut Vec<Action>) -> (r: Option<isize>)
        requires
            old(self).wf(),
            old(actions)@.len() == 0,
        ensures
            final(self).wf(),
            r == result_for(&Event::User { id, lparam }),
            final(actions)@ =~= actions_for(old(self), &Event::User { id, lparam }),
            state_after(old(self), &Event::User { id, lparam }, final(self)),
    {
        if id == UM_ENABLE_KEEP_AWAKE {
            self.awake.enable();
            if self.session_active {
                actions.push(Action::SetKeepAwake(true));
            }
        } else if id == UM_ENABLE_DEBUG_PAINT {
            self.debug_paint = true;
        } else if id == UM_INITIAL_METRICS {
            actions.push(Action::SampleCounters);
            actions.push(Action::Timer(self.timers.fetch_and_redraw.reschedule()));
        } else if id == UM_INITIAL_MIC_STATE {
            actions.push(Action::RefreshMicDevices);
            actions.push(Action::CheckMute);
        } else if id == UM_INITIAL_RENDER {
            actions.push(Action::UpdateSizeAndPosition);
            actions.push(Action::Render);
        } else if id == UM_QUEUE_TRAY_POSITION_CHECK {
            actions.push(Action::Timer(self.timers.tray_position.reschedule()));
        } else if id == UM_QUEUE_MIC_STATE_CHECK {
            // A burst of notifications restarts the timer each time: one check follows.
            actions.push(Action::Timer(self.timers.mic_state.reschedule()));
        } else if id == UM_SET_OFFSET_FROM_RIGHT {
            #[verifier::truncate]
            let offset = (lparam as i32);
            self.offset_from_right = Unscaled::new(offset);
        } else if id == UM_INITIAL_Z_ORDER {
            actions.push(Action::SyncZOrder);
        } else {
            return None;
        }
        Some(0)
    }

    fn handle_timer(&mut self, id: usize, actions: &mut Vec<Action>) -> (r: Option<isize>)
        requires
            old(self).wf(),
            old(actions)@.len() == 0,
        ensures
            *final(self) == *old(self),
            r == result_for(&Event::Timer { id }),
            final(actions)@ =~= actions_for(old(self), &Event::Timer { id }),
    {
        if id == IDT_FETCH_AND_REDRAW_TIMER {
            if self.session_active {
                actions.push(Action::SampleCounters);
            }
        } else if id == IDT_MIC_STATE_TIMER {
            actions.push(Action::Timer(self.timers.mic_state.kill()));
            actions.push(Action::CheckMute);
        } else if id == IDT_Z_ORDER_TIMER {
            actions.push(Action::Timer(self.timers.z_order.kill()));
            actions.push(Action::SyncZOrder);
        } else if id == IDT_TRAY_POSITION_TIMER {
            actions.push(Action::Timer(self.timers.tray_position.kill()));
            actions.push(Action::UpdateSizeAndPosition);
            actions.push(Action::Render);
        } else {
            return None;
        }
        Some(0)
    }
}

/// A user message to post to the window.
#[derive(Copy, Clone, Debug, PartialEq, Eq, Structural)]
pub struct UserMessage {
    pub id: usize,
    pub lparam: isize,
}

pub open spec fn message_if(cond: bool, m: UserMessage) -> Seq<UserMessage> {
    if cond {
        seq![m]
    } else {
        Seq::empty()
    }
}

/// The messages a new window is sent, in order: keep-awake and debug paint
/// where enabled, the offset, the first fetch, the first mute check where a
/// hotkey is set, the first z-order check, and the first render.
pub open spec fn startup_messages_spec(config: ConfigFile, debug_paint: bool) -> Seq<UserMessage> {
    message_if(config.keep_awake_while_unlocked, UserMessage { id: UM_ENABLE_KEEP_AWAKE, lparam: 0 })
        + message_if(debug_paint, UserMessage { id: UM_ENABLE_DEBUG_PAINT, lparam: 0 })
        + seq![
        UserMessage { id: UM_SET_OFFSET_FROM_RIGHT, lparam: config.offset_from_right@ as isize },
        UserMessage { id: UM_INITIAL_METRICS, lparam: 0 },
    ] + message_if(config.mic_hotkey is Some, UserMessage { id: UM_INITIAL_MIC_STATE, lparam: 0 })
        + seq![
        UserMessage { id: UM_INITIAL_Z_ORDER, lparam: 0 },
        UserMessage { id: UM_INITIAL_RENDER, lparam: 0 },
    ]
}

/// The messages to post to a newly created window; see `startup_messages_spec`.
pub fn startup_messages(config: &ConfigFile, debug_paint: bool) -> (r: Vec<UserMessage>)
    ensures
        r@ == startup_messages_spec(*config, debug_paint),
{
    let mut messages: Vec<UserMessage> = Vec::new();
    if config.keep_awake_while_unlocked {
        messages.push(UserMessage { id: UM_ENABLE_KEEP_AWAKE, lparam: 0 });
    }
    if debug_paint {
        messages.push(UserMessage { id: UM_ENABLE_DEBUG_PAINT, lparam: 0 });
    }
    let offset = *config.offset_from_right.as_inner();
    messages.push(UserMessage { id: UM_SET_OFFSET_FROM_RIGHT, lparam: offset as isize });
    messages.push(UserMessage { id: UM_INITIAL_METRICS, lparam: 0 });
    if config.mic_hotkey.is_some() {
        messages.push(UserMessage { id: UM_INITIAL_MIC_STATE, lparam: 0 });
    }
    messages.push(UserMessage { id: UM_INITIAL_Z_ORDER, lparam: 0 });
    messages.push(UserMessage { id: UM_INITIAL_RENDER, lparam: 0 });
    assert(messages@ =~= startup_messages_spec(*config, debug_paint));
    messages
}

/// While the session is locked or logged off, fetch ticks ask for no
/// sampling and no rendering, and a late sample changes nothing; the matching
/// unlock or logon restarts the fetch timer, and the next tick samples again.
pub proof fn lemma_locked_session_is_quiet(pre: &InfoBand, sample: &Sample, post: &InfoBand, change: SessionChange)
    requires
        !pre.session_active,
        change == SessionChange::Unlock || change == SessionChange::Logon,
    ensures
        actions_for(pre, &Event::Timer { id: IDT_FETCH_AND_REDRAW_TIMER }) == Seq::<Action>::empty(),
        actions_for(pre, &Event::Sampled(*sample)) == Seq::<Action>::empty(),
        state_after(pre, &Event::Sampled(*sample), post) ==> post.metrics == pre.metrics
            && post.fetch_phase == pre.fetch_phase,
        state_after(pre, &Event::Session(change), post) ==> {
            &&& post.session_active
            &&& actions_for(pre, &Event::Session(change))[0] == start_fetch()
            &&& actions_for(post, &Event::Timer { id: IDT_FETCH_AND_REDRAW_TIMER }) == seq![Action::SampleCounters]
        },
{
}

/// A mute-change notification only restarts the mute timer, so notifications
/// closer together than its interval lead to one fire (see the timer
/// model's debounce law); each fire stops the timer and asks for exactly one
/// check; and a check asks for a render exactly when the aggregate mute state
/// differs from the one before.
pub proof fn lemma_mute_recheck_once(pre: &InfoBand, readings: Seq<Option<bool>>, v: Vec<Option<bool>>)
    requires
        v@ == readings,
    ensures
        actions_for(pre, &Event::User { id: UM_QUEUE_MIC_STATE_CHECK, lparam: 0 }) == seq![start_mic()],
        actions_for(pre, &Event::Timer { id: IDT_MIC_STATE_TIMER }) == seq![stop(IDT_MIC_STATE_TIMER), Action::CheckMute],
        actions_for(pre, &Event::MuteChecked(v)) == (if muted_after(pre.mic.is_muted_spec(), readings)
            != pre.mic.is_muted_spec() {
            seq![Action::Render]
        } else {
            Seq::<Action>::empty()
        }),
{
}

} // verus!
