use infoband::metrics::{CpuTimes, Sample};
use infoband::opt::{ConfigFile, MicrophoneHotkey};
use infoband::state::{
    startup_messages, Action, Event, InfoBand, SessionChange, UserMessage, HOTKEY_MIC_MUTE,
    HSHELL_RUDEAPPACTIVATED, HSHELL_WINDOWACTIVATED, UM_ENABLE_DEBUG_PAINT, UM_ENABLE_KEEP_AWAKE,
    UM_INITIAL_METRICS, UM_INITIAL_MIC_STATE, UM_INITIAL_RENDER, UM_INITIAL_Z_ORDER,
    UM_QUEUE_MIC_STATE_CHECK, UM_SET_OFFSET_FROM_RIGHT,
};
use infoband::timers::{
    TimerCommand, TimerSlot, IDT_FETCH_AND_REDRAW_TIMER, IDT_MIC_STATE_TIMER, IDT_Z_ORDER_TIMER,
};
use infoband::utils::Unscaled;

fn tick_sample(time_us: u64) -> Sample {
    Sample {
        time_us,
        cpu: Some(CpuTimes { idle: time_us, kernel_plus_idle: 2 * time_us, user: 0 }),
        memory: None,
        disk: None,
        network: None,
    }
}

fn actions(band: &mut InfoBand, event: Event) -> Vec<Action> {
    band.handle(event).actions
}

#[test]
fn lock_pauses_sampling_until_unlock() {
    let mut band = InfoBand::new(96);
    assert_eq!(actions(&mut band, Event::Timer { id: IDT_FETCH_AND_REDRAW_TIMER }), vec![Action::SampleCounters]);
    actions(&mut band, Event::Sampled(tick_sample(1_000_000)));

    let locked = actions(&mut band, Event::Session(SessionChange::Lock));
    assert_eq!(locked, vec![Action::Timer(TimerCommand::Stop { id: IDT_FETCH_AND_REDRAW_TIMER })]);
    for i in 0..10u64 {
        assert!(actions(&mut band, Event::Timer { id: IDT_FETCH_AND_REDRAW_TIMER }).is_empty());
        assert!(actions(&mut band, Event::Sampled(tick_sample(2_000_000 + i))).is_empty());
    }
    assert_eq!(band.metrics.avg_cpu_percent(), 0);

    let unlocked = actions(&mut band, Event::Session(SessionChange::Unlock));
    assert_eq!(
        unlocked,
        vec![Action::Timer(TimerCommand::Start { id: IDT_FETCH_AND_REDRAW_TIMER, interval_ms: 1000, coalesce_ms: 1000 })]
    );
    assert_eq!(actions(&mut band, Event::Timer { id: IDT_FETCH_AND_REDRAW_TIMER }), vec![Action::SampleCounters]);
    actions(&mut band, Event::Sampled(tick_sample(20_000_000)));
    assert!(band.metrics.avg_cpu_percent() > 0);
}

#[test]
fn logoff_and_logon_pause_and_resume() {
    let mut band = InfoBand::new(96);
    actions(&mut band, Event::Session(SessionChange::Logoff));
    assert!(actions(&mut band, Event::Timer { id: IDT_FETCH_AND_REDRAW_TIMER }).is_empty());
    actions(&mut band, Event::Session(SessionChange::Logon));
    assert_eq!(actions(&mut band, Event::Timer { id: IDT_FETCH_AND_REDRAW_TIMER }), vec![Action::SampleCounters]);
}

#[test]
fn every_fifth_fetch_renders() {
    let mut band = InfoBand::new(96);
    let mut renders = Vec::new();
    for i in 1..=10u64 {
        let a = actions(&mut band, Event::Sampled(tick_sample(i * 1_000_000)));
        if a == vec![Action::Render] {
            renders.push(i);
        }
    }
    assert_eq!(renders, vec![5, 10]);
}

#[test]
fn mute_notifications_within_debounce_window_check_once() {
    let mut band = InfoBand::new(96);
    let mut slot = TimerSlot::idle();
    let mut checks = 0;
    let mut renders = 0;
    for now in 0..100u64 {
        if now == 0 || now == 4 {
            for a in actions(&mut band, Event::User { id: UM_QUEUE_MIC_STATE_CHECK, lparam: 0 }) {
                if let Action::Timer(c) = a {
                    slot.apply(c, now);
                }
            }
        }
        if slot.fire_if_due(now) {
            for a in actions(&mut band, Event::Timer { id: IDT_MIC_STATE_TIMER }) {
                match a {
                    Action::Timer(c) => slot.apply(c, now),
                    Action::CheckMute => {
                        checks += 1;
                        // One microphone is now unmuted.
                        let r = actions(&mut band, Event::MuteChecked(vec![Some(true), Some(false)]));
                        renders += r.iter().filter(|a| **a == Action::Render).count();
                    }
                    _ => {}
                }
            }
        }
    }
    assert_eq!(checks, 1);
    assert_eq!(renders, 1);
    assert!(!band.mic.is_muted());
}

#[test]
fn mute_check_renders_only_on_change() {
    let mut band = InfoBand::new(96);
    assert!(band.mic.is_muted());
    assert!(actions(&mut band, Event::MuteChecked(vec![Some(true), Some(true)])).is_empty());
    assert!(actions(&mut band, Event::MuteChecked(vec![])).is_empty());
    assert_eq!(actions(&mut band, Event::MuteChecked(vec![Some(false)])), vec![Action::Render]);
    // A failed read keeps the state.
    assert!(actions(&mut band, Event::MuteChecked(vec![None, Some(true)])).is_empty());
    assert!(!band.mic.is_muted());
}

#[test]
fn hotkey_toggles_mute() {
    let mut band = InfoBand::new(96);
    assert_eq!(
        actions(&mut band, Event::Hotkey { id: HOTKEY_MIC_MUTE }),
        vec![Action::RefreshMicDevices, Action::SetMute(false), Action::CheckMute]
    );
    assert!(actions(&mut band, Event::Hotkey { id: 99 }).is_empty());
}

#[test]
fn shell_activity_debounces_z_order_check() {
    let mut band = InfoBand::new(96);
    assert_eq!(
        actions(&mut band, Event::ShellHook { code: HSHELL_WINDOWACTIVATED, lparam: 77 }),
        vec![Action::Timer(TimerCommand::Start { id: IDT_Z_ORDER_TIMER, interval_ms: 50, coalesce_ms: 0 })]
    );
    assert_eq!(
        actions(&mut band, Event::ShellHook { code: HSHELL_RUDEAPPACTIVATED, lparam: 0 }),
        vec![Action::SyncZOrder]
    );
    assert!(actions(&mut band, Event::ShellHook { code: 0x1, lparam: 0 }).is_empty());
    assert_eq!(
        actions(&mut band, Event::Timer { id: IDT_Z_ORDER_TIMER }),
        vec![Action::Timer(TimerCommand::Stop { id: IDT_Z_ORDER_TIMER }), Action::SyncZOrder]
    );
}

#[test]
fn message_results() {
    let mut band = InfoBand::new(96);
    assert_eq!(band.handle(Event::Paint).result, None);
    assert_eq!(band.handle(Event::EraseBackground).result, Some(1));
    assert_eq!(band.handle(Event::NcCalcSize).result, Some(0));
    assert_eq!(band.handle(Event::User { id: 1234, lparam: 0 }).result, None);
    assert_eq!(band.handle(Event::Timer { id: 1234 }).result, None);
    assert_eq!(band.handle(Event::Unhandled).result, None);
}

#[test]
fn destroy_stops_timers_and_quits() {
    let mut band = InfoBand::new(96);
    let a = actions(&mut band, Event::Destroy);
    assert_eq!(a.len(), 5);
    assert_eq!(a[4], Action::PostQuit);
    assert_eq!(a[0], Action::Timer(TimerCommand::Stop { id: IDT_FETCH_AND_REDRAW_TIMER }));
}

#[test]
fn dpi_change_rescales_and_renders() {
    let mut band = InfoBand::new(96);
    let a = actions(&mut band, Event::DpiChanged { dpi: 144 });
    assert_eq!(a, vec![Action::UpdateSizeAndPosition, Action::Render]);
    assert_eq!(band.position.get().1.as_fixed(), 98304);
}

#[test]
fn user_messages_set_options() {
    let mut band = InfoBand::new(96);
    actions(&mut band, Event::User { id: UM_ENABLE_DEBUG_PAINT, lparam: 0 });
    assert!(band.debug_paint);
    actions(&mut band, Event::User { id: UM_SET_OFFSET_FROM_RIGHT, lparam: -25 });
    assert_eq!(*band.offset_from_right.as_inner(), -25);
    assert_eq!(
        actions(&mut band, Event::User { id: UM_INITIAL_METRICS, lparam: 0 }),
        vec![
            Action::SampleCounters,
            Action::Timer(TimerCommand::Start { id: IDT_FETCH_AND_REDRAW_TIMER, interval_ms: 1000, coalesce_ms: 1000 })
        ]
    );
    assert_eq!(actions(&mut band, Event::User { id: UM_INITIAL_Z_ORDER, lparam: 0 }), vec![Action::SyncZOrder]);
}

#[test]
fn keep_awake_follows_session() {
    let mut band = InfoBand::new(96);
    // Disabled: sessions changes ask for nothing more than the timer.
    assert_eq!(actions(&mut band, Event::Session(SessionChange::Lock)).len(), 1);
    actions(&mut band, Event::Session(SessionChange::Unlock));
    assert_eq!(
        actions(&mut band, Event::User { id: UM_ENABLE_KEEP_AWAKE, lparam: 0 }),
        vec![Action::SetKeepAwake(true)]
    );
    actions(&mut band, Event::KeepAwakeSet(true));
    let locked = actions(&mut band, Event::Session(SessionChange::Lock));
    assert_eq!(locked[1], Action::SetKeepAwake(false));
    actions(&mut band, Event::KeepAwakeSet(false));
    let unlocked = actions(&mut band, Event::Session(SessionChange::Unlock));
    assert_eq!(unlocked[1], Action::SetKeepAwake(true));
}

#[test]
fn startup_sends_initial_messages() {
    let config = ConfigFile {
        offset_from_right: Unscaled::new(12),
        mic_hotkey: Some(MicrophoneHotkey { virtual_key_code: 0xBF, win: true, ctrl: false, shift: false, alt: false }),
        keep_awake_while_unlocked: true,
    };
    let ids: Vec<usize> = startup_messages(&config, false).iter().map(|m| m.id).collect();
    assert_eq!(
        ids,
        vec![UM_ENABLE_KEEP_AWAKE, UM_SET_OFFSET_FROM_RIGHT, UM_INITIAL_METRICS, UM_INITIAL_MIC_STATE, UM_INITIAL_Z_ORDER, UM_INITIAL_RENDER]
    );
    let plain = startup_messages(&ConfigFile::default(), true);
    assert_eq!(plain[0], UserMessage { id: UM_ENABLE_DEBUG_PAINT, lparam: 0 });
    assert_eq!(plain[1], UserMessage { id: UM_SET_OFFSET_FROM_RIGHT, lparam: 0 });
    assert_eq!(plain.len(), 5);
}
