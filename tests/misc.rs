use infoband::awake::Awake;
use infoband::messages::{MessageKind, Name};
use infoband::microphone::{aggregate_muted, Microphone};
use infoband::opt::{Cli, ConfigFile, LogLevel, MicrophoneHotkey};
use infoband::perf::{
    instance_filter_units, select_counter_values, CounterBlock, FilterError, PerfError, SingleCounter,
};
use infoband::position::{compute_placement, taskbar_position, PlacementError, Position};
use infoband::refcount::{InfobandClassFactory, RefCount};
use infoband::string::encode_utf16_null_terminated;
use infoband::utils::{Rect, ScalingFactor};

#[test]
fn refcount_counts_factories_and_locks() {
    let mut count = RefCount::new();
    assert!(count.is_zero());
    let factory = InfobandClassFactory::new(&mut count);
    assert!(!count.is_zero());
    factory.lock_server(true, &mut count);
    factory.lock_server(false, &mut count);
    factory.release(&mut count);
    assert!(count.is_zero());
    count.increment();
    count.increment();
    count.decrement();
    assert!(!count.is_zero());
}

#[test]
fn utf16_with_terminator() {
    assert_eq!(encode_utf16_null_terminated("Hi"), vec![0x48, 0x69, 0]);
    assert_eq!(encode_utf16_null_terminated(""), vec![0]);
    assert_eq!(encode_utf16_null_terminated("é😀"), vec![0xE9, 0xD83D, 0xDE00, 0]);
}

#[test]
fn aggregate_mute_state() {
    assert_eq!(aggregate_muted(&vec![]), Some(true));
    assert_eq!(aggregate_muted(&vec![Some(true), Some(true)]), Some(true));
    assert_eq!(aggregate_muted(&vec![Some(true), Some(false), None]), Some(false));
    assert_eq!(aggregate_muted(&vec![Some(true), None, Some(false)]), None);
    let mut mic = Microphone::new();
    assert!(mic.is_muted());
    assert!(mic.update_muted_state(&vec![Some(false)]));
    assert!(!mic.update_muted_state(&vec![None]));
    assert!(!mic.is_muted());
}

#[test]
fn keep_awake_decisions() {
    let mut awake = Awake::new();
    assert_eq!(awake.keep_awake(true), None);
    awake.enable();
    assert_eq!(awake.keep_awake(false), None);
    assert_eq!(awake.keep_awake(true), Some(true));
    awake.record_kept_awake(true);
    assert_eq!(awake.keep_awake(true), None);
    assert_eq!(awake.keep_awake(false), Some(false));
}

#[test]
fn cli_log_levels() {
    assert_eq!(Cli { verbose: 0, debug_paint: false }.log_level(), LogLevel::Info);
    assert_eq!(Cli { verbose: 1, debug_paint: false }.log_level(), LogLevel::Debug);
    assert_eq!(Cli { verbose: 7, debug_paint: true }.log_level(), LogLevel::Trace);
}

#[test]
fn hotkey_modifiers() {
    let k = MicrophoneHotkey { virtual_key_code: 0xBF, win: true, ctrl: false, shift: true, alt: false };
    assert_eq!(k.modifiers(), 0x4000 | 0x8 | 0x4);
    let k = MicrophoneHotkey { virtual_key_code: 0x41, win: false, ctrl: true, shift: false, alt: true };
    assert_eq!(k.modifiers(), 0x4000 | 0x2 | 0x1);
}

#[test]
fn default_config() {
    let c = ConfigFile::default();
    assert_eq!(*c.offset_from_right.as_inner(), 0);
    assert!(c.mic_hotkey.is_none());
    assert!(!c.keep_awake_while_unlocked);
}

#[test]
fn message_kinds() {
    assert_eq!(Name(0x0400).kind(), MessageKind::User(0));
    assert_eq!(Name(0x0405).kind(), MessageKind::User(5));
    assert_eq!(Name(0xC123).kind(), MessageKind::Registered);
    assert_eq!(Name(0x0113).kind(), MessageKind::System);
    assert_eq!(Name(0x8000).kind(), MessageKind::System);
}

fn block(value: u64) -> CounterBlock {
    CounterBlock { status: 0, counter_type: 1, data_size: 8, value }
}

#[test]
fn counter_values_reordered_by_index() {
    let ty = SingleCounter.type_code();
    let blocks = vec![block(10), block(20)];
    assert_eq!(select_counter_values(2, &blocks, &vec![1, 0], ty, 8), Ok(vec![20, 10]));
}

#[test]
fn counter_value_errors() {
    let blocks = vec![block(10), block(20)];
    assert_eq!(select_counter_values(3, &blocks, &vec![0, 1], 1, 8), Err(PerfError::CounterCount));
    assert_eq!(select_counter_values(2, &blocks, &vec![0], 1, 8), Err(PerfError::CounterCount));
    let failed = vec![block(10), CounterBlock { status: 5, ..block(20) }];
    assert_eq!(select_counter_values(2, &failed, &vec![0, 1], 1, 8), Err(PerfError::Status(5)));
    assert_eq!(select_counter_values(2, &blocks, &vec![0, 1], 2, 8), Err(PerfError::WrongType(0)));
    assert_eq!(select_counter_values(2, &blocks, &vec![0, 1], 1, 4), Err(PerfError::WrongSize(0)));
    assert_eq!(select_counter_values(2, &blocks, &vec![0, 2], 1, 8), Err(PerfError::BadIndex));
}

#[test]
fn instance_filters() {
    assert_eq!(instance_filter_units(&b"_Total".to_vec()), Ok(vec![95, 84, 111, 116, 97, 108]));
    assert_eq!(instance_filter_units(&Vec::new()), Err(FilterError::NotSingle));
    assert_eq!(instance_filter_units(&b"*".to_vec()), Err(FilterError::NotSingle));
    assert_eq!(instance_filter_units(&b"**".to_vec()), Ok(vec![42, 42]));
}

#[test]
fn taskbar_below_work_area() {
    let monitor = Rect { left: 0, top: 0, right: 1920, bottom: 1080 };
    let work = Rect { left: 0, top: 0, right: 1920, bottom: 1032 };
    assert_eq!(taskbar_position(monitor, work), Rect { left: 0, top: 1032, right: 1920, bottom: 1080 });
}

#[test]
fn window_placement() {
    let taskbar = Rect { left: 0, top: 1032, right: 1920, bottom: 1080 };
    let one = ScalingFactor::one();
    // Midpoint 960, less half of the 78 wide warning.
    assert_eq!(compute_placement(taskbar, 1700, one), Ok(Rect { left: 921, top: 1032, right: 1700, bottom: 1080 }));
    let double = ScalingFactor::from_ratio(2, 1);
    assert_eq!(compute_placement(taskbar, 1700, double), Ok(Rect { left: 882, top: 1032, right: 1700, bottom: 1080 }));
    assert_eq!(compute_placement(taskbar, 921, one), Err(PlacementError::Empty));
    let flat = Rect { top: 1080, ..taskbar };
    assert_eq!(compute_placement(flat, 1700, one), Err(PlacementError::Empty));
    let far = Rect { left: i32::MIN, top: 0, right: i32::MIN + 2, bottom: 10 };
    assert_eq!(compute_placement(far, 0, one), Err(PlacementError::OutOfRange));
}

#[test]
fn position_keeps_old_rect_on_failure() {
    let mut p = Position::new(96);
    p.update_taskbar_position(Some((
        Rect { left: 0, top: 0, right: 1920, bottom: 1080 },
        Rect { left: 0, top: 0, right: 1920, bottom: 1032 },
    )));
    p.update_tray_position(Some(1700));
    let (rect, dpi) = p.recompute();
    assert_eq!(rect, Rect { left: 921, top: 1032, right: 1700, bottom: 1080 });
    assert_eq!(dpi.as_fixed(), 65536);
    p.update_tray_position(Some(921));
    p.update_taskbar_position(None);
    assert_eq!(p.recompute().0, rect);
    assert_eq!(p.set_dpi(192).as_fixed(), 131072);
    assert_eq!(p.get().0, rect);
}
