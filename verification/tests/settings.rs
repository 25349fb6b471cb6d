use portkeydrop::settings::speech_backend;
use portkeydrop::settings::{
    expand_user, is_screen_reader_backend, resolve_startup_local_folder,
    settings_or_defaults, settings_path, startup_folder_candidate, update_last_local_folder, DirectoryProbe, Settings,
    SpeechSettings,
};
use portkeydrop::sound_events::{
    default_muted_sound_events, known_sound_events, normalize_known_muted_sound_events,
};
use portkeydrop::ui::dialogs::speech_prompt::{
    record_spoken_progress_answer, SPOKEN_PROGRESS_OFF, SPOKEN_PROGRESS_ON,
};
use std::path::{Path, PathBuf};
use tempfile::TempDir;

const HOME: &str = "/home/tester";

fn defaults() -> Settings {
    Settings::defaults(HOME, default_muted_sound_events())
}

fn known_events() -> Vec<String> {
    known_sound_events()
}

/// What the user interface does between the two startup steps: look at the
/// candidate folder on disk.
fn probe(candidate: &str) -> DirectoryProbe {
    let path = Path::new(candidate);
    if path.is_dir() {
        DirectoryProbe::Directory {
            path: candidate.to_string(),
            canonical: path
                .canonicalize()
                .ok()
                .map(|p| p.to_string_lossy().into_owned()),
        }
    } else {
        DirectoryProbe::Missing
    }
}

fn resolve(settings: &mut Settings, fallback: Option<&Path>) -> PathBuf {
    let fallback = fallback.map(|p| p.to_string_lossy().into_owned());
    let probed = match startup_folder_candidate(settings, HOME) {
        Some(candidate) => probe(&candidate),
        None => DirectoryProbe::Missing,
    };
    PathBuf::from(resolve_startup_local_folder(
        settings,
        fallback.as_deref(),
        HOME,
        probed,
    ))
}

fn record(settings: &mut Settings, path: &Path) -> bool {
    let resolved = path.canonicalize().unwrap_or_else(|_| path.to_path_buf());
    update_last_local_folder(settings, &resolved.to_string_lossy())
}

#[test]
fn defaults_match_the_documented_values() {
    let settings = defaults();
    assert_eq!(settings.transfer.concurrent_transfers, 2);
    assert_eq!(settings.transfer.overwrite_mode, "ask");
    assert!(settings.transfer.resume_partial);
    assert!(!settings.transfer.follow_symlinks);
    assert_eq!(settings.display.progress_interval, 25);
    assert_eq!(settings.connection.protocol, "sftp");
    assert_eq!(settings.connection.timeout, 30);
    assert_eq!(settings.speech.backend, speech_backend::AUTOMATIC);
    assert!(!settings.speech.backend_chosen);
    assert_eq!(settings.speech.rate, 50);
    assert_eq!(settings.speech.volume, 100);
    assert!(settings.audio.sound_enabled);
    assert_eq!(settings.audio.sound_pack, "default");
    assert_eq!(settings.app.update_channel, "stable");
    assert!(settings.app.remember_last_local_folder_on_startup);
    assert_eq!(settings.app.last_local_folder, None);
}

#[test]
fn default_download_dir_is_downloads_under_home() {
    assert_eq!(
        defaults().transfer.default_download_dir,
        Path::new(HOME).join("Downloads").to_string_lossy()
    );
    assert!(defaults().audio.muted_sound_events.is_empty());
    let muted = Settings::defaults(HOME, vec!["success".to_string()]);
    assert_eq!(muted.audio.muted_sound_events, vec!["success"]);
}

#[test]
fn an_unanswered_automatic_preference_does_not_speak_through_a_voice() {
    let speech = SpeechSettings::default();
    assert!(!speech.announcements_enabled(false, true));
    assert!(speech.offer_spoken_progress(false, true));
    // A screen reader is used without asking.
    assert!(speech.announcements_enabled(true, true));
    assert!(!speech.offer_spoken_progress(true, true));
    // Nothing to speak through means no question either.
    assert!(!speech.offer_spoken_progress(false, false));
}

#[test]
fn the_spoken_progress_answer_is_remembered() {
    let mut speech = SpeechSettings::default();
    speech.answer_spoken_progress(false);
    assert_eq!(speech.backend, speech_backend::SCREEN_READER);
    assert!(speech.backend_chosen);
    assert!(!speech.announcements_enabled(false, true));
    assert!(speech.announcements_enabled(true, true));
    assert!(!speech.offer_spoken_progress(false, true));

    speech.answer_spoken_progress(true);
    assert_eq!(speech.backend, speech_backend::AUTOMATIC);
    assert!(speech.announcements_enabled(false, true));
}

#[test]
fn turning_speech_off_silences_a_screen_reader_too() {
    let speech = SpeechSettings {
        backend: speech_backend::OFF.to_string(),
        backend_chosen: true,
        ..SpeechSettings::default()
    };
    assert!(!speech.announcements_enabled(true, true));
    assert!(!speech.offer_spoken_progress(false, true));
}

#[test]
fn unknown_backend_values_are_read_as_automatic() {
    let speech = SpeechSettings {
        backend: "loudspeaker".to_string(),
        ..SpeechSettings::default()
    };
    assert_eq!(speech.backend_preference(), speech_backend::AUTOMATIC);
    assert!(speech.offer_spoken_progress(false, true));
    let off = SpeechSettings {
        backend: speech_backend::OFF.to_string(),
        ..SpeechSettings::default()
    };
    assert_eq!(off.backend_preference(), speech_backend::OFF);
    // Comparison is exact: another case is not the stored value.
    let shouting = SpeechSettings {
        backend: "OFF".to_string(),
        ..SpeechSettings::default()
    };
    assert_eq!(shouting.backend_preference(), speech_backend::AUTOMATIC);
}

#[test]
fn answering_the_question_records_it_and_says_so() {
    let mut speech = SpeechSettings::default();
    assert_eq!(record_spoken_progress_answer(&mut speech, true), SPOKEN_PROGRESS_ON);
    assert_eq!(speech.backend, speech_backend::AUTOMATIC);
    assert!(speech.backend_chosen);
    assert_eq!(speech.rate, 50);
    assert_eq!(record_spoken_progress_answer(&mut speech, false), SPOKEN_PROGRESS_OFF);
    assert_eq!(speech.backend, speech_backend::SCREEN_READER);
    assert_eq!(SPOKEN_PROGRESS_ON, "Spoken progress is on.");
}

#[test]
fn screen_reader_names_are_not_system_voices() {
    assert!(is_screen_reader_backend("NVDA"));
    assert!(is_screen_reader_backend("JAWS"));
    assert!(is_screen_reader_backend("VoiceOver (macOS)"));
    assert!(is_screen_reader_backend("Orca"));
    assert!(!is_screen_reader_backend("SAPI"));
    assert!(!is_screen_reader_backend("OneCore"));
    assert!(!is_screen_reader_backend("AVSpeech"));
    assert!(!is_screen_reader_backend("speech-dispatcher"));
}

#[test]
fn screen_reader_names_ignore_case_and_surrounding_space() {
    assert!(is_screen_reader_backend("  System Access \n"));
    assert!(is_screen_reader_backend("PC-Talker 10"));
    assert!(is_screen_reader_backend("\u{3000}talkback"));
    // A reader's name must be followed by a space, not run into more letters.
    assert!(!is_screen_reader_backend("NVDAX"));
    assert!(!is_screen_reader_backend("uiautomation"));
    assert!(!is_screen_reader_backend(""));
}

#[test]
fn unknown_muted_sound_events_are_dropped_on_load() {
    let mut settings = defaults();
    settings.audio.muted_sound_events = vec![
        "success".to_string(),
        "bogus_event".to_string(),
        "success".to_string(),
    ];
    let settings = settings.with_known_muted_sound_events(&known_events());
    assert_eq!(settings.audio.muted_sound_events, vec!["success"]);
}

#[test]
fn normalizing_keeps_first_occurrences_in_order_and_is_stable() {
    let events: Vec<String> = ["transfer_failed", "x", "success", "transfer_failed", "success"]
        .iter()
        .map(|s| s.to_string())
        .collect();
    let once = normalize_known_muted_sound_events(&events, &known_events());
    assert_eq!(once, vec!["transfer_failed", "success"]);
    assert_eq!(normalize_known_muted_sound_events(&once, &known_events()), once);
    assert!(normalize_known_muted_sound_events(&events, &Vec::new()).is_empty());
}

#[test]
fn saving_clears_the_last_folder_when_the_preference_is_off() {
    let mut settings = defaults();
    settings.app.remember_last_local_folder_on_startup = false;
    settings.app.last_local_folder = Some("/somewhere".to_string());
    assert_eq!(settings.storage_form().app.last_local_folder, None);

    let mut kept = defaults();
    kept.app.last_local_folder = Some("/somewhere".to_string());
    assert_eq!(kept.clone().storage_form(), kept);
}

#[test]
fn startup_folder_uses_the_fallback_when_remembering_is_off() {
    let fallback = TempDir::new().unwrap();
    let saved = TempDir::new().unwrap();
    let mut settings = defaults();
    settings.app.remember_last_local_folder_on_startup = false;
    settings.app.last_local_folder = Some(saved.path().to_string_lossy().into_owned());
    assert_eq!(
        resolve(&mut settings, Some(fallback.path())),
        fallback.path().to_path_buf()
    );
}

#[test]
fn startup_folder_uses_the_saved_directory_when_it_still_exists() {
    let fallback = TempDir::new().unwrap();
    let saved = TempDir::new().unwrap();
    let mut settings = defaults();
    settings.app.last_local_folder = Some(saved.path().to_string_lossy().into_owned());
    let resolved = resolve(&mut settings, Some(fallback.path()));
    assert_eq!(
        resolved.canonicalize().unwrap(),
        saved.path().canonicalize().unwrap()
    );
}

#[test]
fn a_vanished_saved_folder_falls_back_and_is_forgotten() {
    let fallback = TempDir::new().unwrap();
    let mut settings = defaults();
    settings.app.last_local_folder = Some("/definitely/not/a/real/folder".to_string());
    let resolved = resolve(&mut settings, Some(fallback.path()));
    assert_eq!(resolved, fallback.path().to_path_buf());
    assert_eq!(settings.app.last_local_folder, None);
}

#[test]
fn startup_without_a_fallback_uses_home_and_expands_the_saved_folder() {
    let mut settings = defaults();
    settings.app.last_local_folder = Some(String::new());
    assert_eq!(startup_folder_candidate(&settings, HOME), None);
    assert_eq!(resolve(&mut settings, None), PathBuf::from(HOME));
    settings.app.last_local_folder = Some("~/projects".to_string());
    let candidate = startup_folder_candidate(&settings, HOME).unwrap();
    assert_eq!(candidate, "/home/tester/projects");
    // A directory without a canonical form opens as it was checked.
    let opened = resolve_startup_local_folder(
        &mut settings,
        None,
        HOME,
        DirectoryProbe::Directory { path: candidate, canonical: None },
    );
    assert_eq!(opened, "/home/tester/projects");
    assert_eq!(settings.app.last_local_folder, Some("~/projects".to_string()));
}

#[test]
fn recording_the_local_folder_reports_whether_anything_changed() {
    let dir = TempDir::new().unwrap();
    let mut settings = defaults();
    assert!(record(&mut settings, dir.path()));
    // Recording the same folder again is a no-op.
    assert!(!record(&mut settings, dir.path()));
}

#[test]
fn recording_clears_the_folder_when_remembering_is_off() {
    let dir = TempDir::new().unwrap();
    let mut settings = defaults();
    settings.app.remember_last_local_folder_on_startup = false;
    settings.app.last_local_folder = Some("/old".to_string());
    assert!(record(&mut settings, dir.path()));
    assert_eq!(settings.app.last_local_folder, None);
    // Already cleared: nothing further to change.
    assert!(!record(&mut settings, dir.path()));
}

#[test]
fn tilde_expansion_resolves_against_the_home_directory() {
    let home = HOME;
    assert_eq!(expand_user("~", home), home);
    assert_eq!(expand_user("~/Downloads", home), "/home/tester/Downloads");
    assert_eq!(
        expand_user("~/Downloads", home),
        Path::new(home).join("Downloads").to_string_lossy()
    );
    assert_eq!(expand_user("/absolute/path", home), "/absolute/path");
}

#[test]
fn tilde_expansion_edge_cases() {
    assert_eq!(
        expand_user("~\\docs", HOME),
        Path::new(HOME).join("docs").to_string_lossy()
    );
    assert_eq!(expand_user("~/", HOME), Path::new(HOME).join("").to_string_lossy());
    assert_eq!(expand_user("~user/x", HOME), "~user/x");
    assert_eq!(expand_user("", HOME), "");
    assert_eq!(
        expand_user("~//etc", HOME),
        Path::new(HOME).join("/etc").to_string_lossy()
    );
}

#[test]
fn the_sound_event_lists() {
    assert_eq!(known_sound_events(), vec!["success", "transfer_failed"]);
    assert!(default_muted_sound_events().is_empty());
}

#[test]
fn the_settings_document_lives_in_the_config_directory() {
    assert_eq!(settings_path("/cfg"), "/cfg/settings.json");
    assert_eq!(settings_path("/cfg/"), "/cfg/settings.json");
    assert_eq!(settings_path(""), "settings.json");
    assert_eq!(
        settings_path("/cfg"),
        Path::new("/cfg").join("settings.json").to_string_lossy()
    );
}

#[test]
fn loading_falls_back_to_defaults_when_nothing_parsed() {
    assert_eq!(settings_or_defaults(None, HOME), defaults());
    let mut stored = defaults();
    stored.speech.rate = 75;
    assert_eq!(settings_or_defaults(Some(stored.clone()), HOME), stored);
}

#[test]
fn joining_puts_one_separator_inside_the_base() {
    assert_eq!(settings_path("/cfg"), "/cfg/settings.json");
    assert_eq!(expand_user("~/x", "/h"), "/h/x");
    assert_eq!(expand_user("~/x", "/h/"), "/h/x");
    assert_eq!(expand_user("~/x", ""), "x");
}
