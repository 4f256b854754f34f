use earbuds::audio::status::MicStatus;

#[test]
fn new_status_is_idle() {
    let status = MicStatus::new();
    assert_eq!(f32::from_bits(status.level()), 0.0);
    assert!(!status.active());
    assert_eq!(status.app(), None);
    assert_eq!(status.since_last_sdu(5), None);
}

#[test]
fn level_is_kept_to_the_bit() {
    let mut status = MicStatus::default();
    status.set_level(0.625f32.to_bits());
    assert_eq!(f32::from_bits(status.level()), 0.625);
}

#[test]
fn capture_names_the_app() {
    let mut status = MicStatus::new();
    status.set_capture(Some("recorder".to_string()));
    assert!(status.active());
    assert_eq!(status.app(), Some("recorder".to_string()));
    status.set_capture(None);
    assert!(!status.active());
    assert_eq!(status.app(), None);
}

#[test]
fn elapsed_time_counts_from_the_last_sdu() {
    let mut status = MicStatus::new();
    status.mark_sdu(100);
    status.mark_sdu(250);
    assert_eq!(status.since_last_sdu(1000), Some(750));
    assert_eq!(status.since_last_sdu(250), Some(0));
    assert_eq!(status.since_last_sdu(3), Some(0));
}

#[test]
fn reset_makes_the_status_idle() {
    let mut status = MicStatus::new();
    status.set_level(1.0f32.to_bits());
    status.set_capture(Some("recorder".to_string()));
    status.mark_sdu(100);
    status.reset();
    assert_eq!(status.level(), 0);
    assert!(!status.active());
    assert_eq!(status.app(), None);
    assert_eq!(status.since_last_sdu(200), None);
}

#[test]
fn app_stays_named_over_levels_and_sdus() {
    let mut status = MicStatus::new();
    status.set_capture(Some("recorder".to_string()));
    status.set_level(1);
    status.mark_sdu(7);
    assert_eq!(status.app(), Some("recorder".to_string()));
    assert_eq!(status.app(), Some("recorder".to_string()));
    assert!(status.active());
}
