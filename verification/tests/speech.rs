use portkeydrop::speech::{clamp_percent, Announcer, BackendProfile, Delivery, SpeechAdjustment};

fn profile(name: &str, speak: bool, output: bool, set_rate: bool, set_volume: bool) -> BackendProfile {
    BackendProfile {
        name: name.to_string(),
        speak,
        output,
        set_rate,
        set_volume,
    }
}

#[test]
fn disabled_announcer_is_silent() {
    let announcer = Announcer::disabled();
    assert!(!announcer.has_backend());
    assert!(!announcer.is_screen_reader());
    assert!(!announcer.accepts_rate());
    assert_eq!(announcer.delivery(), None);
    assert_eq!(
        announcer.settings_to_apply(Some(70), Some(90)),
        SpeechAdjustment { rate: None, volume: None }
    );
    assert_eq!(announcer.backend_name(), None);
}

#[test]
fn a_screen_reader_gets_output_and_keeps_its_own_rate() {
    let announcer = Announcer::attached(Some(profile("NVDA", true, true, false, false)));
    assert!(announcer.has_backend());
    assert!(announcer.is_screen_reader());
    assert_eq!(announcer.backend_name(), Some("NVDA".to_string()));
    assert_eq!(announcer.delivery(), Some(Delivery::Output));
    assert_eq!(
        announcer.settings_to_apply(Some(70), Some(90)),
        SpeechAdjustment { rate: None, volume: None }
    );
}

#[test]
fn a_system_voice_is_spoken_to_with_clamped_settings() {
    let announcer = Announcer::attached(Some(profile("SAPI", true, false, true, true)));
    assert!(announcer.has_backend());
    assert!(!announcer.is_screen_reader());
    assert!(announcer.accepts_rate());
    assert!(announcer.accepts_volume());
    assert_eq!(announcer.delivery(), Some(Delivery::Speak));
    assert_eq!(
        announcer.settings_to_apply(Some(250), Some(-20)),
        SpeechAdjustment { rate: Some(100), volume: Some(0) }
    );
    assert_eq!(
        announcer.settings_to_apply(None, Some(55)),
        SpeechAdjustment { rate: None, volume: Some(55) }
    );
}

#[test]
fn a_backend_that_can_neither_speak_nor_output_is_not_a_backend() {
    let announcer = Announcer::attached(Some(profile("Braille only", false, false, false, false)));
    assert!(!announcer.has_backend());
}

#[test]
fn percents_are_clamped_to_the_setting_range() {
    assert_eq!(clamp_percent(0), 0);
    assert_eq!(clamp_percent(50), 50);
    assert_eq!(clamp_percent(100), 100);
    assert_eq!(clamp_percent(-20), 0);
    assert_eq!(clamp_percent(250), 100);
    assert_eq!(clamp_percent(i32::MIN), 0);
}
