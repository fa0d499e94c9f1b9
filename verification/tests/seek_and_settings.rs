use media_mangler::gateway::{invalid_data, GatewayError};
use media_mangler::seek::{pick_seek_point, seek_with_margin, SEEK_MARGIN_MS};
use media_mangler::settings::Settings;

#[test]
fn margin_is_one_second() {
    assert_eq!(SEEK_MARGIN_MS, 1000);
}

#[test]
fn margin_pulls_back_and_clamps() {
    assert_eq!(seek_with_margin(0), 0);
    assert_eq!(seek_with_margin(999), 0);
    assert_eq!(seek_with_margin(1000), 0);
    assert_eq!(seek_with_margin(1500), 500);
    assert_eq!(seek_with_margin(61000), 60000);
}

#[test]
fn short_sources_always_seek_to_the_start() {
    // Every point below the margin clamps to zero, whatever was drawn.
    assert_eq!(pick_seek_point(1), 0);
    assert_eq!(pick_seek_point(500), 0);
    assert_eq!(pick_seek_point(1001), 0);
}

#[test]
fn seek_point_stays_inside_the_source() {
    for _ in 0..100 {
        let p = pick_seek_point(90000);
        assert!(p < 90000);
        assert!(p == 0 || p + SEEK_MARGIN_MS < 90000);
    }
}

#[test]
fn invalid_data_keeps_the_detail() {
    let e = invalid_data("not a number".to_string());
    match e {
        GatewayError::InvalidData(d) => assert_eq!(d, "not a number"),
        other => panic!("expected invalid data, got {other:?}"),
    }
}

#[test]
fn default_settings_values() {
    let s = Settings::default();
    assert_eq!(s.path, "");
    assert!(s.mangle_video);
    assert_eq!(s.fps, 30);
    assert_eq!(s.scale, 640);
    assert_eq!(s.noise_amount, 50);
    assert_eq!(s.video_bitrate, 250);
    assert!(s.mangle_audio);
    assert_eq!(s.audio_bitrate, 1);
    assert_eq!(s.volume_multiplier, 100);
}

#[test]
fn snapshot_equality_is_by_value() {
    let a = Settings::default();
    let b = a.clone();
    assert_eq!(a, b);
    let mut c = a.clone();
    c.noise_amount = 51;
    assert_ne!(a, c);
    let mut d = a.clone();
    d.path = "clip.mp4".to_string();
    assert_ne!(a, d);
}
