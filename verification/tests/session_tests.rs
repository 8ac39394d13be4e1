use pilka::duration::Duration;
use pilka::image::ImageDimensions;
use pilka::session::{recording_dimensions, recording_limit_reached, KeyAction, NamedKey, Playback};

fn ms(n: u64) -> Duration {
    Duration::new(n / 1000, ((n % 1000) * 1_000_000) as u32)
}

fn as_ms(d: Duration) -> u64 {
    d.secs * 1000 + (d.nanos / 1_000_000) as u64
}

fn dims() -> ImageDimensions {
    ImageDimensions::new(1279, 721, 256)
}

#[test]
fn playback_starts_running() {
    let playback = Playback::new(false);
    assert!(!playback.pause);
    assert_eq!(as_ms(playback.backup_time), 0);
    assert!(!playback.video_recording);
    assert!(Playback::new(true).video_recording);
    assert_eq!(as_ms(playback.shader_time(ms(1234))), 1234);
}

#[test]
fn playback_pause_then_resume() {
    let mut playback = Playback::new(false);
    let action = playback.on_key(NamedKey::F1, ms(5000), ms(16), dims());
    assert!(matches!(action, KeyAction::Nothing));
    assert!(playback.pause);
    assert_eq!(as_ms(playback.shader_time(ms(9000))), 5000);
    let action = playback.on_key(NamedKey::F1, ms(9000), ms(16), dims());
    assert!(!playback.pause);
    match action {
        KeyAction::ResumeFrom(d) => assert_eq!(as_ms(d), 5000),
        _ => panic!("expected a resume"),
    }
}

#[test]
fn playback_step_back_and_forward() {
    let mut playback = Playback::new(false);
    playback.on_key(NamedKey::F2, ms(1000), ms(16), dims());
    assert!(playback.pause);
    assert_eq!(as_ms(playback.backup_time), 984);
    playback.on_key(NamedKey::F3, ms(99999), ms(16), dims());
    assert!(playback.pause);
    assert_eq!(as_ms(playback.backup_time), 1000);
    playback.on_key(NamedKey::F3, ms(99999), ms(16), dims());
    assert_eq!(as_ms(playback.backup_time), 1016);
}

#[test]
fn playback_step_back_stops_at_zero() {
    let mut playback = Playback::new(false);
    playback.on_key(NamedKey::F2, ms(10), ms(16), dims());
    assert_eq!(as_ms(playback.backup_time), 0);
    assert!(playback.pause);
}

#[test]
fn playback_step_forward_from_running() {
    let mut playback = Playback::new(false);
    playback.on_key(NamedKey::F3, ms(2000), ms(16), dims());
    assert!(playback.pause);
    assert_eq!(as_ms(playback.backup_time), 2016);
}

#[test]
fn playback_restart() {
    let mut playback = Playback::new(false);
    playback.on_key(NamedKey::F1, ms(3000), ms(16), dims());
    let action = playback.on_key(NamedKey::F4, ms(3000), ms(16), dims());
    assert!(matches!(action, KeyAction::Restart));
    playback.restart(ms(0));
    assert!(playback.pause);
    assert_eq!(as_ms(playback.backup_time), 0);
}

#[test]
fn playback_record_toggle_rounds_size_to_even() {
    let mut playback = Playback::new(false);
    match playback.on_key(NamedKey::F10, ms(0), ms(16), dims()) {
        KeyAction::StartRecording(d) => {
            assert_eq!(d.width, 1280);
            assert_eq!(d.height, 722);
            assert_eq!(d.unpadded_bytes_per_row, 1279 * 4);
            assert_eq!(d.padded_bytes_per_row, 5120);
        }
        _ => panic!("expected a recording to start"),
    }
    assert!(playback.video_recording);
    assert!(matches!(playback.on_key(NamedKey::F10, ms(0), ms(16), dims()), KeyAction::FinishRecording));
    assert!(!playback.video_recording);
}

#[test]
fn playback_other_keys() {
    let mut playback = Playback::new(false);
    assert!(matches!(playback.on_key(NamedKey::F6, ms(0), ms(16), dims()), KeyAction::PrintParameters));
    assert!(matches!(playback.on_key(NamedKey::F9, ms(0), ms(16), dims()), KeyAction::SaveShaders));
    assert!(matches!(playback.on_key(NamedKey::F11, ms(0), ms(16), dims()), KeyAction::TakeScreenshot));
    assert!(matches!(playback.on_key(NamedKey::Other, ms(0), ms(16), dims()), KeyAction::Nothing));
    assert!(!playback.pause);
}

#[test]
fn recording_limit() {
    assert!(recording_limit_reached(ms(10_000), Some(ms(10_000)), true));
    assert!(!recording_limit_reached(ms(9_999), Some(ms(10_000)), true));
    assert!(!recording_limit_reached(ms(10_001), Some(ms(10_000)), false));
    assert!(!recording_limit_reached(ms(10_001), None, true));
}

#[test]
fn duration_arithmetic() {
    let a = Duration::new(1, 1_500_000_000);
    assert_eq!((a.secs, a.nanos), (2, 500_000_000));
    assert_eq!(a.as_secs(), 2);
    assert_eq!(a.subsec_nanos(), 500_000_000);
    let b = Duration::new(0, 700_000_000);
    let d = a.saturating_sub(b);
    assert_eq!((d.secs, d.nanos), (1, 800_000_000));
    let z = b.saturating_sub(a);
    assert_eq!((z.secs, z.nanos), (0, 0));
    let s = a.checked_add(b).unwrap();
    assert_eq!((s.secs, s.nanos), (3, 200_000_000));
    assert!(Duration::new(u64::MAX, 999_999_999).checked_add(Duration::new(0, 1)).is_none());
    assert!(a.ge(&a) && a.ge(&b) && !b.ge(&a));
    let f = Duration::from_secs(7);
    assert_eq!((f.secs, f.nanos), (7, 0));
}

#[test]
fn playback_unbound_keys_do_nothing() {
    let mut playback = Playback::new(false);
    assert!(matches!(playback.on_key(NamedKey::Other, ms(500), ms(16), dims()), KeyAction::Nothing));
    assert!(!playback.pause);
    assert!(!playback.video_recording);
    assert_eq!(as_ms(playback.backup_time), 0);
}

#[test]
fn playback_can_handle_step_forward() {
    let playback = Playback::new(false);
    assert!(playback.can_handle(NamedKey::F3, ms(1000), ms(16), dims()));
    let at_end = Duration::new(u64::MAX, 999_999_999);
    assert!(!playback.can_handle(NamedKey::F3, at_end, ms(16), dims()));
    assert!(playback.can_handle(NamedKey::F2, at_end, ms(16), dims()));
    assert!(playback.can_handle(NamedKey::F10, ms(0), ms(16), dims()));
}

#[test]
fn recording_frame_rounds_to_even() {
    let d = recording_dimensions(dims()).unwrap();
    assert_eq!((d.width, d.height), (1280, 722));
    assert_eq!(d.padded_bytes_per_row, dims().padded_bytes_per_row);
    let mut huge = dims();
    huge.width = usize::MAX;
    assert!(recording_dimensions(huge).is_none());
}

#[test]
fn image_rows_can_be_laid_out() {
    assert!(ImageDimensions::can_lay_out(1279, 256));
    assert!(!ImageDimensions::can_lay_out(1279, 0));
    assert!(!ImageDimensions::can_lay_out(usize::MAX / 2, 256));
    assert!(ImageDimensions::can_lay_out(64, 256));
}
