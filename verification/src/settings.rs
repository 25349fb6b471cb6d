//! Application settings: defaults, the speech preference, the remembered local
//! folder, and the steps around loading and saving the settings document.
//!
//! Reading and writing `settings.json`, and probing the disk, happen outside
//! this module; the functions here decide what those steps produce.

pub mod overwrite_mode;
pub mod speech_backend;

use vstd::prelude::*;
use crate::paths::{joined_onto, path_join, plain_component};
use crate::sound_events::{
    default_muted_sound_events, known_events_once, normalize_known_muted_sound_events, texts,
};
use crate::text::{
    all_whitespace, ascii_lowercase, ascii_uppercase, lemma_lowered_trim_ignores_ascii_case,
    lemma_plain_lowercase_text, lemma_trim_ignores_padding, no_capitals_before, same_chars, trim,
    trimmed_ascii_lowercase,
};
use self::speech_backend::{AUTOMATIC, OFF, SCREEN_READER};
use self::overwrite_mode::ASK;

verus! {

/// File name of the settings document inside the config directory.
pub const SETTINGS_FILE_NAME: &'static str = "settings.json";

/// Transfer behaviour.
#[derive(Debug, Clone, PartialEq, Eq)]
pub struct TransferSettings {
    /// Number of transfers that may run at once.
    pub concurrent_transfers: usize,
    /// One of the values in [`overwrite_mode`].
    pub overwrite_mode: String,
    /// Resume interrupted downloads instead of restarting them.
    pub resume_partial: bool,
    /// Carry modification times across where the protocol allows it.
    pub preserve_timestamps: bool,
    /// Follow symbolic links when walking directories.
    pub follow_symlinks: bool,
    /// Where downloads land when no other destination is chosen.
    pub default_download_dir: String,
}

/// File list presentation and announcement verbosity.
#[derive(Debug, Clone, PartialEq, Eq)]
pub struct DisplaySettings {
    /// Announce "N items" after a directory listing loads.
    pub announce_file_count: bool,
    /// Announce transfer progress every N percent.
    pub progress_interval: u32,
    /// Include dotfiles and hidden entries in listings.
    pub show_hidden_files: bool,
    /// One of `name`, `size`, `modified`, `type`.
    pub sort_by: String,
    pub sort_ascending: bool,
    /// One of `relative`, `absolute`.
    pub date_format: String,
}

/// Defaults applied to new connections.
#[derive(Debug, Clone, PartialEq, Eq)]
pub struct ConnectionDefaults {
    /// The protocol of a new connection, such as `sftp`.
    pub protocol: String,
    /// Connect timeout in seconds.
    pub timeout: u64,
    /// Keepalive interval in seconds.
    pub keepalive: u64,
    pub max_retries: u32,
    /// FTP only: use passive mode.
    pub passive_mode: bool,
    /// FTP only: upgrade the control connection with `AUTH SSL`.
    pub ftp_explicit_ssl: bool,
    /// One of `ask`, `always`, `never`.
    pub verify_host_keys: String,
}

/// Speech output tuning, in 0–100 units.
#[derive(Debug, Clone, PartialEq, Eq)]
pub struct SpeechSettings {
    /// One of [`speech_backend`]. Anything else is treated as automatic.
    pub backend: String,
    /// Set once the user has chosen a backend, including by answering the
    /// startup question. Until then, automatic does not speak through a
    /// system voice.
    pub backend_chosen: bool,
    pub rate: i32,
    pub volume: i32,
    /// One of `minimal`, `normal`, `verbose`.
    pub verbosity: String,
}

/// Sound pack selection and per-event muting.
#[derive(Debug, Clone, PartialEq, Eq)]
pub struct AudioSettings {
    pub sound_enabled: bool,
    /// Directory name of the active pack.
    pub sound_pack: String,
    /// Event keys that should stay silent.
    pub muted_sound_events: Vec<String>,
}

/// Window, startup, and update-channel preferences.
#[derive(Debug, Clone, PartialEq, Eq)]
pub struct AppSettings {
    /// Reopen the last local folder instead of the home directory.
    pub remember_last_local_folder_on_startup: bool,
    /// The folder to reopen; cleared when the preference above is off.
    pub last_local_folder: Option<String>,
    pub auto_update_enabled: bool,
    pub update_check_interval_hours: u32,
    /// One of `stable`, `nightly`.
    pub update_channel: String,
    pub show_notification_area_icon: bool,
    pub minimize_to_notification_area_on_close: bool,
}

/// The complete settings document.
#[derive(Debug, Clone, PartialEq, Eq)]
pub struct Settings {
    pub transfer: TransferSettings,
    pub display: DisplaySettings,
    pub connection: ConnectionDefaults,
    pub speech: SpeechSettings,
    pub audio: AudioSettings,
    pub app: AppSettings,
}

// ---------------------------------------------------------------------------
// Defaults
// ---------------------------------------------------------------------------

/// `Downloads` is a single plain path component.
proof fn lemma_downloads_is_plain()
    ensures
        plain_component("Downloads"@),
{
    reveal_strlit("Downloads");
    assert("Downloads"@ =~= seq!['D', 'o', 'w', 'n', 'l', 'o', 'a', 'd', 's']);
}

/// The default download directory: `Downloads` joined onto `home`.
fn default_download_dir(home: &str) -> (r: String)
    ensures
        joined_onto(home@, "Downloads"@, r@),
        plain_component("Downloads"@),
{
    proof { lemma_downloads_is_plain(); }
    path_join(home, "Downloads")
}

impl TransferSettings {
    /// The documented transfer defaults for a user whose home directory is
    /// `home`. The download directory is `Downloads` joined onto `home` by
    /// `Path::join`: it ends with `Downloads`, and is `home`, perhaps a
    /// separator, then `Downloads` unless `home` has a verbatim prefix.
    pub fn defaults(home: &str) -> (r: Self)
        ensures
            r.concurrent_transfers == 2,
            r.overwrite_mode@ == ASK@,
            r.resume_partial,
            r.preserve_timestamps,
            !r.follow_symlinks,
            joined_onto(home@, "Downloads"@, r.default_download_dir@),
            plain_component("Downloads"@),
    {
        TransferSettings {
            concurrent_transfers: 2,
            overwrite_mode: ASK.to_owned(),
            resume_partial: true,
            preserve_timestamps: true,
            follow_symlinks: false,
            default_download_dir: default_download_dir(home),
        }
    }
}

impl Default for DisplaySettings {
    fn default() -> (r: Self)
        ensures
            r.announce_file_count,
            r.progress_interval == 25,
            !r.show_hidden_files,
            r.sort_by@ == "name"@,
            r.sort_ascending,
            r.date_format@ == "relative"@,
    {
        DisplaySettings {
            announce_file_count: true,
            progress_interval: 25,
            show_hidden_files: false,
            sort_by: "name".to_owned(),
            sort_ascending: true,
            date_format: "relative".to_owned(),
        }
    }
}

impl Default for ConnectionDefaults {
    fn default() -> (r: Self)
        ensures
            r.protocol@ == "sftp"@,
            r.timeout == 30,
            r.keepalive == 60,
            r.max_retries == 3,
            r.passive_mode,
            !r.ftp_explicit_ssl,
            r.verify_host_keys@ == "ask"@,
    {
        ConnectionDefaults {
            protocol: "sftp".to_owned(),
            timeout: 30,
            keepalive: 60,
            max_retries: 3,
            passive_mode: true,
            ftp_explicit_ssl: false,
            verify_host_keys: "ask".to_owned(),
        }
    }
}

impl Default for SpeechSettings {
    fn default() -> (r: Self)
        ensures
            r.backend@ == AUTOMATIC@,
            !r.backend_chosen,
            r.rate == 50,
            r.volume == 100,
            r.verbosity@ == "normal"@,
    {
        SpeechSettings {
            backend: AUTOMATIC.to_owned(),
            backend_chosen: false,
            rate: 50,
            volume: 100,
            verbosity: "normal".to_owned(),
        }
    }
}

impl AudioSettings {
    /// The documented audio defaults; `muted_by_default` is the list of
    /// events that start out muted.
    pub fn defaults(muted_by_default: Vec<String>) -> (r: Self)
        ensures
            r.sound_enabled,
            r.sound_pack@ == "default"@,
            r.muted_sound_events == muted_by_default,
    {
        AudioSettings {
            sound_enabled: true,
            sound_pack: "default".to_owned(),
            muted_sound_events: muted_by_default,
        }
    }
}

impl Default for AppSettings {
    fn default() -> (r: Self)
        ensures
            r.remember_last_local_folder_on_startup,
            r.last_local_folder is None,
            r.auto_update_enabled,
            r.update_check_interval_hours == 24,
            r.update_channel@ == "stable"@,
            r.show_notification_area_icon,
            !r.minimize_to_notification_area_on_close,
    {
        AppSettings {
            remember_last_local_folder_on_startup: true,
            last_local_folder: None,
            auto_update_enabled: true,
            update_check_interval_hours: 24,
            update_channel: "stable".to_owned(),
            show_notification_area_icon: true,
            minimize_to_notification_area_on_close: false,
        }
    }
}

/// Whether `r` holds every section at its documented default, for a user
/// whose home directory is `home` and with `muted` muted.
pub open spec fn documented_defaults(r: Settings, home: Seq<char>, muted: Seq<String>) -> bool {
    &&& r.transfer.concurrent_transfers == 2
    &&& r.transfer.overwrite_mode@ == ASK@
    &&& r.transfer.resume_partial
    &&& r.transfer.preserve_timestamps
    &&& !r.transfer.follow_symlinks
    &&& joined_onto(home, "Downloads"@, r.transfer.default_download_dir@)
    &&& r.display.announce_file_count
    &&& r.display.progress_interval == 25
    &&& !r.display.show_hidden_files
    &&& r.display.sort_by@ == "name"@
    &&& r.display.sort_ascending
    &&& r.display.date_format@ == "relative"@
    &&& r.connection.protocol@ == "sftp"@
    &&& r.connection.timeout == 30
    &&& r.connection.keepalive == 60
    &&& r.connection.max_retries == 3
    &&& r.connection.passive_mode
    &&& !r.connection.ftp_explicit_ssl
    &&& r.connection.verify_host_keys@ == "ask"@
    &&& r.speech.backend@ == AUTOMATIC@
    &&& !r.speech.backend_chosen
    &&& r.speech.rate == 50
    &&& r.speech.volume == 100
    &&& r.speech.verbosity@ == "normal"@
    &&& r.audio.sound_enabled
    &&& r.audio.sound_pack@ == "default"@
    &&& r.audio.muted_sound_events@ == muted
    &&& r.app.remember_last_local_folder_on_startup
    &&& r.app.last_local_folder is None
    &&& r.app.auto_update_enabled
    &&& r.app.update_check_interval_hours == 24
    &&& r.app.update_channel@ == "stable"@
    &&& r.app.show_notification_area_icon
    &&& !r.app.minimize_to_notification_area_on_close
}

/// The defaults hold the documented values: two concurrent transfers that
/// ask before overwriting, resume and keep timestamps but do not follow
/// links, downloads under the home directory; the file count announced,
/// progress every 25 percent, hidden files not shown, sorted by name
/// ascending with relative dates; SFTP with a 30 second timeout, 60 second
/// keepalive, 3 retries, passive mode, no explicit SSL and host keys asked
/// about; speech automatic and unanswered at rate 50, volume 100, normal
/// verbosity; sounds on with the default pack; the last local folder
/// remembered but none stored, daily stable update checks, the notification
/// area icon shown and closing not minimizing to it.
pub proof fn lemma_documented_default_values(r: Settings, home: Seq<char>, muted: Seq<String>)
    requires
        documented_defaults(r, home, muted),
    ensures
        r.transfer.concurrent_transfers == 2,
        r.transfer.overwrite_mode@ == ASK@,
        r.transfer.resume_partial,
        r.transfer.preserve_timestamps,
        !r.transfer.follow_symlinks,
        joined_onto(home, "Downloads"@, r.transfer.default_download_dir@),
        r.display.announce_file_count,
        r.display.progress_interval == 25,
        !r.display.show_hidden_files,
        r.display.sort_by@ == "name"@,
        r.display.sort_ascending,
        r.display.date_format@ == "relative"@,
        r.connection.protocol@ == "sftp"@,
        r.connection.timeout == 30,
        r.connection.keepalive == 60,
        r.connection.max_retries == 3,
        r.connection.passive_mode,
        !r.connection.ftp_explicit_ssl,
        r.connection.verify_host_keys@ == "ask"@,
        r.speech.backend@ == AUTOMATIC@,
        !r.speech.backend_chosen,
        r.speech.rate == 50,
        r.speech.volume == 100,
        r.speech.verbosity@ == "normal"@,
        r.audio.sound_enabled,
        r.audio.sound_pack@ == "default"@,
        r.audio.muted_sound_events@ == muted,
        r.app.remember_last_local_folder_on_startup,
        r.app.last_local_folder is None,
        r.app.auto_update_enabled,
        r.app.update_check_interval_hours == 24,
        r.app.update_channel@ == "stable"@,
        r.app.show_notification_area_icon,
        !r.app.minimize_to_notification_area_on_close,
{
}

impl Settings {
    /// Every section at its documented default, for a user whose home
    /// directory is `home` and with `muted_by_default` muted. The download
    /// directory is `Downloads` joined onto `home` by `Path::join` (see
    /// [`TransferSettings::defaults`]).
    pub fn defaults(home: &str, muted_by_default: Vec<String>) -> (r: Self)
        ensures
            documented_defaults(r, home@, muted_by_default@),
    {
        Settings {
            transfer: TransferSettings::defaults(home),
            display: DisplaySettings::default(),
            connection: ConnectionDefaults::default(),
            speech: SpeechSettings::default(),
            audio: AudioSettings::defaults(muted_by_default),
            app: AppSettings::default(),
        }
    }
}

/// What loading settings ends with: the document that was read and parsed,
/// or, when there was none or it did not parse, the documented defaults for a
/// user whose home directory is `home`, with the default muted events.
///
/// Loading is deliberately forgiving: a missing or malformed settings
/// document yields defaults rather than an error.
pub fn settings_or_defaults(parsed: Option<Settings>, home: &str) -> (r: Settings)
    ensures
        parsed is Some ==> r == parsed->0,
        parsed is None ==> documented_defaults(r, home@, Seq::empty()),
{
    match parsed {
        Some(settings) => settings,
        None => {
            let muted = default_muted_sound_events();
            assert(muted@ =~= Seq::<String>::empty());
            Settings::defaults(home, muted)
        },
    }
}

// ---------------------------------------------------------------------------
// Speech preference
// ---------------------------------------------------------------------------

/// The backend preference a stored value stands for: the value itself when it
/// is one of [`speech_backend`], automatic otherwise.
pub open spec fn preference_of(backend: Seq<char>) -> Seq<char> {
    if backend == OFF@ || backend == SCREEN_READER@ || backend == AUTOMATIC@ {
        backend
    } else {
        AUTOMATIC@
    }
}

/// Whether announcements reach a backend, for the stored `backend` and
/// `chosen` flag, with or without a running screen reader and a started
/// backend.
pub open spec fn announces(backend: Seq<char>, chosen: bool, screen_reader: bool, has_backend: bool) -> bool {
    has_backend && {
        let p = preference_of(backend);
        if p == OFF@ {
            false
        } else if p == SCREEN_READER@ {
            screen_reader
        } else {
            screen_reader || chosen
        }
    }
}

/// Whether the spoken-progress question is to be asked.
pub open spec fn offers(backend: Seq<char>, chosen: bool, screen_reader: bool, has_backend: bool) -> bool {
    has_backend && !screen_reader && !chosen && preference_of(backend) != OFF@
}

/// The backend stored by answering the spoken-progress question.
pub open spec fn answered_backend(yes: bool) -> Seq<char> {
    if yes {
        AUTOMATIC@
    } else {
        SCREEN_READER@
    }
}

impl SpeechSettings {
    /// The backend preference, with an unknown stored value read as automatic.
    pub fn backend_preference(&self) -> (r: &str)
        ensures
            r@ == preference_of(self.backend@),
    {
        let b = self.backend.as_str();
        if same_chars(b, OFF) || same_chars(b, SCREEN_READER) || same_chars(b, AUTOMATIC) {
            b
        } else {
            AUTOMATIC
        }
    }

    /// Whether announcements should reach a backend.
    ///
    /// A system voice is used only after the user has chosen automatic.
    /// Leaving the preference untouched, which is what an existing settings
    /// file looks like, does not speak through one.
    pub fn announcements_enabled(&self, screen_reader: bool, has_backend: bool) -> (r: bool)
        ensures
            r == announces(self.backend@, self.backend_chosen, screen_reader, has_backend),
    {
        if !has_backend {
            return false;
        }
        let p = self.backend_preference();
        if same_chars(p, OFF) {
            false
        } else if same_chars(p, SCREEN_READER) {
            screen_reader
        } else {
            screen_reader || self.backend_chosen
        }
    }

    /// Whether to ask about spoken progress through a system voice.
    ///
    /// Asked once, and only when nothing is speaking through a screen reader.
    pub fn offer_spoken_progress(&self, screen_reader: bool, has_backend: bool) -> (r: bool)
        ensures
            r == offers(self.backend@, self.backend_chosen, screen_reader, has_backend),
            r == (has_backend && !screen_reader && !self.backend_chosen && self.backend@ != OFF@),
    {
        proof { lemma_offered_exactly_unless_off(self.backend@, self.backend_chosen, screen_reader, has_backend); }
        has_backend && !screen_reader && !self.backend_chosen && !same_chars(
            self.backend_preference(),
            OFF,
        )
    }

    /// Record the answer to the spoken-progress question.
    pub fn answer_spoken_progress(&mut self, yes: bool)
        ensures
            final(self).backend@ == answered_backend(yes),
            final(self).backend_chosen,
            *final(self) == (SpeechSettings {
                backend: final(self).backend,
                backend_chosen: true,
                ..*old(self)
            }),
    {
        self.backend_chosen = true;
        self.backend = if yes {
            AUTOMATIC.to_owned()
        } else {
            SCREEN_READER.to_owned()
        };
    }
}

/// The three stored backend values are different texts.
proof fn lemma_backend_values_differ()
    ensures
        OFF@ != SCREEN_READER@,
        OFF@ != AUTOMATIC@,
        SCREEN_READER@ != AUTOMATIC@,
{
    reveal_strlit("off");
    reveal_strlit("screen_reader");
    reveal_strlit("automatic");
    assert(OFF@.len() != SCREEN_READER@.len());
    assert(OFF@.len() != AUTOMATIC@.len());
    assert(SCREEN_READER@.len() != AUTOMATIC@.len());
}

/// The preference is always one of the three stored values, and a stored
/// value that is one of them is its own preference.
pub proof fn lemma_preference_is_known(backend: Seq<char>)
    ensures
        preference_of(backend) == OFF@ || preference_of(backend) == SCREEN_READER@
            || preference_of(backend) == AUTOMATIC@,
        (backend == OFF@ || backend == SCREEN_READER@ || backend == AUTOMATIC@) ==> preference_of(
            backend,
        ) == backend,
{
}

/// Turning speech off silences a screen reader too, and the question is not
/// asked.
pub proof fn lemma_off_is_silent(chosen: bool, screen_reader: bool, has_backend: bool)
    ensures
        !announces(OFF@, chosen, screen_reader, has_backend),
        !offers(OFF@, chosen, screen_reader, has_backend),
{
}

/// With nothing to speak through, nothing is announced and nothing is asked.
pub proof fn lemma_no_backend_is_silent(backend: Seq<char>, chosen: bool, screen_reader: bool)
    ensures
        !announces(backend, chosen, screen_reader, false),
        !offers(backend, chosen, screen_reader, false),
{
}

/// An unanswered preference does not speak through a system voice: without a
/// screen reader and without a choice, nothing is announced.
pub proof fn lemma_unchosen_voice_is_silent(backend: Seq<char>, has_backend: bool)
    ensures
        !announces(backend, false, false, has_backend),
{
}

/// A running screen reader is used without asking, unless speech is off.
pub proof fn lemma_screen_reader_speaks_unless_off(
    backend: Seq<char>,
    chosen: bool,
    has_backend: bool,
)
    ensures
        announces(backend, chosen, true, true) == (preference_of(backend) != OFF@),
        !offers(backend, chosen, true, has_backend),
{
    lemma_backend_values_differ();
}

/// The stored value is read as off exactly when it is off.
pub proof fn lemma_preference_is_off_exactly_when_stored_off(backend: Seq<char>)
    ensures
        preference_of(backend) == OFF@ <==> backend == OFF@,
{
    lemma_backend_values_differ();
}

/// The question is asked exactly when a backend was started, no screen
/// reader is running, the question was not answered before, and the stored
/// preference is not off; an unanswered screen-reader preference, for one,
/// is asked.
pub proof fn lemma_offered_exactly_unless_off(
    backend: Seq<char>,
    chosen: bool,
    screen_reader: bool,
    has_backend: bool,
)
    ensures
        offers(backend, chosen, screen_reader, has_backend) <==> (has_backend && !screen_reader
            && !chosen && backend != OFF@),
        offers(SCREEN_READER@, false, false, true),
        offers(AUTOMATIC@, false, false, true),
{
    lemma_backend_values_differ();
}

/// Announcements reach a backend exactly when one was started and the stored
/// preference is not off, and then through a screen reader when one runs, or
/// through any backend once the user has chosen, unless the stored preference
/// is screen reader only.
pub proof fn lemma_announces_exactly(
    backend: Seq<char>,
    chosen: bool,
    screen_reader: bool,
    has_backend: bool,
)
    ensures
        announces(backend, chosen, screen_reader, has_backend) <==> (has_backend && backend
            != OFF@ && (screen_reader || (chosen && backend != SCREEN_READER@))),
{
    lemma_backend_values_differ();
}

/// The question is asked only while nothing would be spoken.
pub proof fn lemma_offered_only_while_silent(
    backend: Seq<char>,
    chosen: bool,
    screen_reader: bool,
    has_backend: bool,
)
    ensures
        offers(backend, chosen, screen_reader, has_backend) ==> !announces(
            backend,
            chosen,
            screen_reader,
            has_backend,
        ),
{
}

/// The question is asked once: after either answer it is not asked again.
pub proof fn lemma_answered_question_is_not_asked_again(
    yes: bool,
    screen_reader: bool,
    has_backend: bool,
)
    ensures
        !offers(answered_backend(yes), true, screen_reader, has_backend),
{
}

/// The answer is remembered: after yes, announcements reach any backend;
/// after no, only a screen reader.
pub proof fn lemma_answer_decides_the_voice(screen_reader: bool, has_backend: bool)
    ensures
        announces(answered_backend(true), true, screen_reader, has_backend) == has_backend,
        announces(answered_backend(false), true, screen_reader, has_backend) == (has_backend
            && screen_reader),
{
    lemma_backend_values_differ();
}

/// Whether `name` (trimmed and lowered already) is `reader`, or `reader`
/// followed by a space and more.
pub open spec fn names_reader(name: Seq<char>, reader: Seq<char>) -> bool {
    name == reader || (name.len() > reader.len() && name.take(reader.len() as int) == reader
        && name[reader.len() as int] == ' ')
}

/// Whether a backend called `name` is a screen reader: the name, trimmed of
/// surrounding whitespace and lowered in ASCII case, names one of the known
/// screen readers.
pub open spec fn names_screen_reader(name: Seq<char>) -> bool {
    let n = ascii_lowercase(trim(name));
    ||| names_reader(n, "nvda"@)
    ||| names_reader(n, "jaws"@)
    ||| names_reader(n, "voiceover"@)
    ||| names_reader(n, "orca"@)
    ||| names_reader(n, "zoomtext"@)
    ||| names_reader(n, "zdsr"@)
    ||| names_reader(n, "sensereader"@)
    ||| names_reader(n, "system access"@)
    ||| names_reader(n, "window-eyes"@)
    ||| names_reader(n, "windoweyes"@)
    ||| names_reader(n, "uia"@)
    ||| names_reader(n, "pc-talker"@)
    ||| names_reader(n, "boypcreader"@)
    ||| names_reader(n, "talkback"@)
}

/// ASCII case and surrounding whitespace never change whether a name is a
/// screen reader's.
pub proof fn lemma_screen_reader_names_ignore_case_and_padding(
    name: Seq<char>,
    before: Seq<char>,
    after: Seq<char>,
)
    requires
        all_whitespace(before),
        all_whitespace(after),
    ensures
        names_screen_reader(ascii_uppercase(name)) == names_screen_reader(name),
        names_screen_reader(ascii_lowercase(name)) == names_screen_reader(name),
        names_screen_reader(before + name + after) == names_screen_reader(name),
{
    lemma_lowered_trim_ignores_ascii_case(name);
    lemma_trim_ignores_padding(before, name, after);
}

proof fn lemma_reader_nvda_is_recognised()
    ensures
        names_screen_reader("nvda"@),
{
    reveal_strlit("nvda");
    reveal_with_fuel(no_capitals_before, 5);
    assert(no_capitals_before("nvda"@, 4));
    lemma_plain_lowercase_text("nvda"@);
}

proof fn lemma_reader_jaws_is_recognised()
    ensures
        names_screen_reader("jaws"@),
{
    reveal_strlit("jaws");
    reveal_with_fuel(no_capitals_before, 5);
    assert(no_capitals_before("jaws"@, 4));
    lemma_plain_lowercase_text("jaws"@);
}

proof fn lemma_reader_voiceover_is_recognised()
    ensures
        names_screen_reader("voiceover"@),
{
    reveal_strlit("voiceover");
    reveal_with_fuel(no_capitals_before, 10);
    assert(no_capitals_before("voiceover"@, 9));
    lemma_plain_lowercase_text("voiceover"@);
}

proof fn lemma_reader_orca_is_recognised()
    ensures
        names_screen_reader("orca"@),
{
    reveal_strlit("orca");
    reveal_with_fuel(no_capitals_before, 5);
    assert(no_capitals_before("orca"@, 4));
    lemma_plain_lowercase_text("orca"@);
}

proof fn lemma_reader_zoomtext_is_recognised()
    ensures
        names_screen_reader("zoomtext"@),
{
    reveal_strlit("zoomtext");
    reveal_with_fuel(no_capitals_before, 9);
    assert(no_capitals_before("zoomtext"@, 8));
    lemma_plain_lowercase_text("zoomtext"@);
}

proof fn lemma_reader_zdsr_is_recognised()
    ensures
        names_screen_reader("zdsr"@),
{
    reveal_strlit("zdsr");
    reveal_with_fuel(no_capitals_before, 5);
    assert(no_capitals_before("zdsr"@, 4));
    lemma_plain_lowercase_text("zdsr"@);
}

proof fn lemma_reader_sensereader_is_recognised()
    ensures
        names_screen_reader("sensereader"@),
{
    reveal_strlit("sensereader");
    reveal_with_fuel(no_capitals_before, 12);
    assert(no_capitals_before("sensereader"@, 11));
    lemma_plain_lowercase_text("sensereader"@);
}

proof fn lemma_reader_system_access_is_recognised()
    ensures
        names_screen_reader("system access"@),
{
    reveal_strlit("system access");
    reveal_with_fuel(no_capitals_before, 14);
    assert(no_capitals_before("system access"@, 13));
    lemma_plain_lowercase_text("system access"@);
}

proof fn lemma_reader_window_eyes_is_recognised()
    ensures
        names_screen_reader("window-eyes"@),
{
    reveal_strlit("window-eyes");
    reveal_with_fuel(no_capitals_before, 12);
    assert(no_capitals_before("window-eyes"@, 11));
    lemma_plain_lowercase_text("window-eyes"@);
}

proof fn lemma_reader_windoweyes_is_recognised()
    ensures
        names_screen_reader("windoweyes"@),
{
    reveal_strlit("windoweyes");
    reveal_with_fuel(no_capitals_before, 11);
    assert(no_capitals_before("windoweyes"@, 10));
    lemma_plain_lowercase_text("windoweyes"@);
}

proof fn lemma_reader_uia_is_recognised()
    ensures
        names_screen_reader("uia"@),
{
    reveal_strlit("uia");
    reveal_with_fuel(no_capitals_before, 4);
    assert(no_capitals_before("uia"@, 3));
    lemma_plain_lowercase_text("uia"@);
}

proof fn lemma_reader_pc_talker_is_recognised()
    ensures
        names_screen_reader("pc-talker"@),
{
    reveal_strlit("pc-talker");
    reveal_with_fuel(no_capitals_before, 10);
    assert(no_capitals_before("pc-talker"@, 9));
    lemma_plain_lowercase_text("pc-talker"@);
}

proof fn lemma_reader_boypcreader_is_recognised()
    ensures
        names_screen_reader("boypcreader"@),
{
    reveal_strlit("boypcreader");
    reveal_with_fuel(no_capitals_before, 12);
    assert(no_capitals_before("boypcreader"@, 11));
    lemma_plain_lowercase_text("boypcreader"@);
}

proof fn lemma_reader_talkback_is_recognised()
    ensures
        names_screen_reader("talkback"@),
{
    reveal_strlit("talkback");
    reveal_with_fuel(no_capitals_before, 9);
    assert(no_capitals_before("talkback"@, 8));
    lemma_plain_lowercase_text("talkback"@);
}

/// Every known screen reader is recognised by its own name: NVDA, JAWS,
/// VoiceOver, Orca, ZoomText, ZDSR, SenseReader, System Access, Window-Eyes
/// (written either way), UIA, PC-Talker, BoyPCReader and TalkBack.
pub proof fn lemma_known_screen_readers_are_recognised()
    ensures
        names_screen_reader("nvda"@),
        names_screen_reader("jaws"@),
        names_screen_reader("voiceover"@),
        names_screen_reader("orca"@),
        names_screen_reader("zoomtext"@),
        names_screen_reader("zdsr"@),
        names_screen_reader("sensereader"@),
        names_screen_reader("system access"@),
        names_screen_reader("window-eyes"@),
        names_screen_reader("windoweyes"@),
        names_screen_reader("uia"@),
        names_screen_reader("pc-talker"@),
        names_screen_reader("boypcreader"@),
        names_screen_reader("talkback"@),
{
    lemma_reader_nvda_is_recognised();
    lemma_reader_jaws_is_recognised();
    lemma_reader_voiceover_is_recognised();
    lemma_reader_orca_is_recognised();
    lemma_reader_zoomtext_is_recognised();
    lemma_reader_zdsr_is_recognised();
    lemma_reader_sensereader_is_recognised();
    lemma_reader_system_access_is_recognised();
    lemma_reader_window_eyes_is_recognised();
    lemma_reader_windoweyes_is_recognised();
    lemma_reader_uia_is_recognised();
    lemma_reader_pc_talker_is_recognised();
    lemma_reader_boypcreader_is_recognised();
    lemma_reader_talkback_is_recognised();
}

proof fn lemma_voice_sapi_is_no_screen_reader()
    ensures
        !names_screen_reader("sapi"@),
{
    reveal_strlit("sapi");
    reveal_with_fuel(no_capitals_before, 5);
    assert(no_capitals_before("sapi"@, 4));
    lemma_plain_lowercase_text("sapi"@);

    reveal_strlit("nvda");
    reveal_strlit("jaws");
    reveal_strlit("voiceover");
    reveal_strlit("orca");
    reveal_strlit("zoomtext");
    reveal_strlit("zdsr");
    reveal_strlit("sensereader");
    reveal_strlit("system access");
    reveal_strlit("window-eyes");
    reveal_strlit("windoweyes");
    reveal_strlit("uia");
    reveal_strlit("pc-talker");
    reveal_strlit("boypcreader");
    reveal_strlit("talkback");
    let n = "sapi"@;
    assert(n[0] == 's');
}

proof fn lemma_voice_onecore_is_no_screen_reader()
    ensures
        !names_screen_reader("onecore"@),
{
    reveal_strlit("onecore");
    reveal_with_fuel(no_capitals_before, 8);
    assert(no_capitals_before("onecore"@, 7));
    lemma_plain_lowercase_text("onecore"@);

    reveal_strlit("nvda");
    reveal_strlit("jaws");
    reveal_strlit("voiceover");
    reveal_strlit("orca");
    reveal_strlit("zoomtext");
    reveal_strlit("zdsr");
    reveal_strlit("sensereader");
    reveal_strlit("system access");
    reveal_strlit("window-eyes");
    reveal_strlit("windoweyes");
    reveal_strlit("uia");
    reveal_strlit("pc-talker");
    reveal_strlit("boypcreader");
    reveal_strlit("talkback");
    let n = "onecore"@;
    assert(n[0] == 'o');
}

proof fn lemma_voice_avspeech_is_no_screen_reader()
    ensures
        !names_screen_reader("avspeech"@),
{
    reveal_strlit("avspeech");
    reveal_with_fuel(no_capitals_before, 9);
    assert(no_capitals_before("avspeech"@, 8));
    lemma_plain_lowercase_text("avspeech"@);

    reveal_strlit("nvda");
    reveal_strlit("jaws");
    reveal_strlit("voiceover");
    reveal_strlit("orca");
    reveal_strlit("zoomtext");
    reveal_strlit("zdsr");
    reveal_strlit("sensereader");
    reveal_strlit("system access");
    reveal_strlit("window-eyes");
    reveal_strlit("windoweyes");
    reveal_strlit("uia");
    reveal_strlit("pc-talker");
    reveal_strlit("boypcreader");
    reveal_strlit("talkback");
    let n = "avspeech"@;
    assert(n[0] == 'a');
}

proof fn lemma_voice_speech_dispatcher_is_no_screen_reader()
    ensures
        !names_screen_reader("speech-dispatcher"@),
{
    reveal_strlit("speech-dispatcher");
    reveal_with_fuel(no_capitals_before, 18);
    assert(no_capitals_before("speech-dispatcher"@, 17));
    lemma_plain_lowercase_text("speech-dispatcher"@);

    reveal_strlit("nvda");
    reveal_strlit("jaws");
    reveal_strlit("voiceover");
    reveal_strlit("orca");
    reveal_strlit("zoomtext");
    reveal_strlit("zdsr");
    reveal_strlit("sensereader");
    reveal_strlit("system access");
    reveal_strlit("window-eyes");
    reveal_strlit("windoweyes");
    reveal_strlit("uia");
    reveal_strlit("pc-talker");
    reveal_strlit("boypcreader");
    reveal_strlit("talkback");
    let n = "speech-dispatcher"@;
    assert(n[0] == 's');
}

/// System voices are not screen readers: SAPI, OneCore, AVSpeech and
/// speech-dispatcher are not recognised.
pub proof fn lemma_system_voices_are_not_screen_readers()
    ensures
        !names_screen_reader("sapi"@),
        !names_screen_reader("onecore"@),
        !names_screen_reader("avspeech"@),
        !names_screen_reader("speech-dispatcher"@),
{
    lemma_voice_sapi_is_no_screen_reader();
    lemma_voice_onecore_is_no_screen_reader();
    lemma_voice_avspeech_is_no_screen_reader();
    lemma_voice_speech_dispatcher_is_no_screen_reader();
}

fn matches_reader(name: &Vec<char>, reader: &str) -> (r: bool)
    ensures
        r == names_reader(name@, reader@),
{
    let rl = reader.unicode_len();
    if name.len() < rl {
        return false;
    }
    let mut i: usize = 0;
    while i < rl
        invariant
            rl == reader@.len(),
            rl <= name@.len(),
            i <= rl,
            forall|k: int| 0 <= k < i ==> name@[k] == reader@[k],
        decreases rl - i,
    {
        if name[i] != reader.get_char(i) {
            assert(name@.take(rl as int)[i as int] != reader@[i as int]);
            return false;
        }
        i = i + 1;
    }
    assert(name@.take(rl as int) =~= reader@);
    if name.len() == rl {
        assert(name@ =~= reader@);
        true
    } else {
        name[rl] == ' '
    }
}

/// Whether `name` is a screen reader rather than a text-to-speech engine.
///
/// Prism names its own backends ("NVDA", "SAPI", "VoiceOver (macOS)"). A
/// voice such as SAPI, OneCore, or AVSpeech is not a screen reader, and
/// speaking through it is a choice rather than the default.
pub fn is_screen_reader_backend(name: &str) -> (r: bool)
    ensures
        r == names_screen_reader(name@),
{
    let n = trimmed_ascii_lowercase(name);
    matches_reader(&n, "nvda") || matches_reader(&n, "jaws") || matches_reader(&n, "voiceover")
        || matches_reader(&n, "orca") || matches_reader(&n, "zoomtext") || matches_reader(
        &n,
        "zdsr",
    ) || matches_reader(&n, "sensereader") || matches_reader(&n, "system access")
        || matches_reader(&n, "window-eyes") || matches_reader(&n, "windoweyes")
        || matches_reader(&n, "uia") || matches_reader(&n, "pc-talker") || matches_reader(
        &n,
        "boypcreader",
    ) || matches_reader(&n, "talkback")
}

// ---------------------------------------------------------------------------
// Paths and the remembered local folder
// ---------------------------------------------------------------------------

/// The text of an optional string.
pub open spec fn text_of(o: Option<String>) -> Option<Seq<char>> {
    match o {
        Some(s) => Some(s@),
        None => None,
    }
}

/// Whether `path` is `~` alone.
pub open spec fn is_bare_tilde(path: Seq<char>) -> bool {
    path == seq!['~']
}

/// What follows `~/` or `~\` at the start of `path`, if it starts so.
pub open spec fn tilde_rest(path: Seq<char>) -> Option<Seq<char>> {
    if path.len() >= 2 && path[0] == '~' && (path[1] == '/' || path[1] == '\\') {
        Some(path.skip(2))
    } else {
        None
    }
}

/// `settings.json` is a single plain path component.
proof fn lemma_settings_file_name_is_plain()
    ensures
        plain_component(SETTINGS_FILE_NAME@),
{
    reveal_strlit("settings.json");
    assert(SETTINGS_FILE_NAME@ =~= seq![
        's', 'e', 't', 't', 'i', 'n', 'g', 's', '.', 'j', 's', 'o', 'n'
    ]);
}

/// Path of the settings document inside `config_dir`: `settings.json`
/// joined onto it by `Path::join`. It ends with `settings.json`, and is
/// `config_dir`, perhaps a separator, then `settings.json` unless
/// `config_dir` has a verbatim prefix.
pub fn settings_path(config_dir: &str) -> (r: String)
    ensures
        joined_onto(config_dir@, SETTINGS_FILE_NAME@, r@),
        plain_component(SETTINGS_FILE_NAME@),
{
    proof { lemma_settings_file_name_is_plain(); }
    path_join(config_dir, SETTINGS_FILE_NAME)
}

/// Expand a leading `~` to the user's home directory, `home`: `~` alone is
/// `home`, and a path that does not start with `~/` or `~\` is kept. For
/// `~/rest` and `~\rest` the result is `rest` joined onto `home` by
/// `Path::join` (see [`joined_onto`] for what that gives on every platform).
pub fn expand_user(path: &str, home: &str) -> (r: String)
    ensures
        is_bare_tilde(path@) ==> r@ == home@,
        !is_bare_tilde(path@) && tilde_rest(path@) is None ==> r@ == path@,
        tilde_rest(path@) matches Some(rest) ==> joined_onto(home@, rest, r@),
{
    let n = path.unicode_len();
    if n == 1 && path.get_char(0) == '~' {
        assert(path@ =~= seq!['~']);
        return home.to_owned();
    }
    if n >= 2 && path.get_char(0) == '~' && (path.get_char(1) == '/' || path.get_char(1) == '\\') {
        let rest = path.substring_char(2, n);
        return path_join(home, rest);
    }
    proof {
        if is_bare_tilde(path@) {
            assert(path@[0] == '~');
        }
    }
    path.to_owned()
}

/// The stored folder that startup would try to reopen: none when the
/// preference is off or nothing (or an empty string) is stored.
pub open spec fn stored_startup_folder(s: Settings) -> Option<Seq<char>> {
    if !s.app.remember_last_local_folder_on_startup {
        None
    } else {
        match s.app.last_local_folder {
            Some(saved) => if saved@.len() > 0 {
                Some(saved@)
            } else {
                None
            },
            None => None,
        }
    }
}

/// The folder to fall back to: `fallback` when given, otherwise `home`.
pub open spec fn fallback_folder(fallback: Option<&str>, home: Seq<char>) -> Seq<char> {
    match fallback {
        Some(f) => f@,
        None => home,
    }
}

/// `s` with no remembered local folder.
pub open spec fn without_last_folder(s: Settings) -> Settings {
    Settings { app: AppSettings { last_local_folder: None, ..s.app }, ..s }
}

/// What checking the startup candidate on disk found.
pub enum DirectoryProbe {
    /// The candidate is not an existing directory.
    Missing,
    /// The candidate `path` is a directory; `canonical` is its canonical
    /// form, when that could be worked out.
    Directory { path: String, canonical: Option<String> },
}

/// The folder to check on disk before [`resolve_startup_local_folder`], if
/// any: the stored folder with a leading `~` expanded against `home` (see
/// [`expand_user`]).
pub fn startup_folder_candidate(settings: &Settings, home: &str) -> (r: Option<String>)
    ensures
        r is Some <==> stored_startup_folder(*settings) is Some,
        stored_startup_folder(*settings) matches Some(saved) ==> {
            &&& is_bare_tilde(saved) ==> r->0@ == home@
            &&& !is_bare_tilde(saved) && tilde_rest(saved) is None ==> r->0@ == saved
            &&& tilde_rest(saved) matches Some(rest) ==> joined_onto(home@, rest, r->0@)
        },
{
    if !settings.app.remember_last_local_folder_on_startup {
        return None;
    }
    match &settings.app.last_local_folder {
        Some(saved) => {
            if saved.as_str().is_empty() {
                None
            } else {
                Some(expand_user(saved.as_str(), home))
            }
        },
        None => None,
    }
}

/// Decide which local folder to open at startup.
///
/// `probe` is what checking [`startup_folder_candidate`] on disk found; it is
/// not looked at when nothing is stored. Falls back to `fallback` (or `home`)
/// when the preference is off, nothing was stored, or the stored folder no
/// longer exists. A stale entry is cleared from `settings` so it is not
/// retried next launch.
pub fn resolve_startup_local_folder(
    settings: &mut Settings,
    fallback: Option<&str>,
    home: &str,
    probe: DirectoryProbe,
) -> (r: String)
    ensures
        match stored_startup_folder(*old(settings)) {
            None => r@ == fallback_folder(fallback, home@) && *final(settings) == *old(settings),
            Some(_) => match probe {
                DirectoryProbe::Directory { path: _, canonical: Some(c) } => r@ == c@
                    && *final(settings) == *old(settings),
                DirectoryProbe::Directory { path, canonical: None } => r@ == path@
                    && *final(settings) == *old(settings),
                DirectoryProbe::Missing => r@ == fallback_folder(fallback, home@)
                    && *final(settings) == without_last_folder(*old(settings)),
            },
        },
{
    let fallback = match fallback {
        Some(f) => f.to_owned(),
        None => home.to_owned(),
    };
    let stored = settings.app.remember_last_local_folder_on_startup && match &settings.app.last_local_folder {
        Some(saved) => !saved.as_str().is_empty(),
        None => false,
    };
    if !stored {
        return fallback;
    }
    match probe {
        DirectoryProbe::Directory { path: _, canonical: Some(c) } => c,
        DirectoryProbe::Directory { path, canonical: None } => path,
        DirectoryProbe::Missing => {
            settings.app.last_local_folder = None;
            fallback
        },
    }
}

/// The remembered folder after recording `resolved`: nothing when the
/// preference is off, `resolved` otherwise.
pub open spec fn recorded_folder(remember: bool, resolved: Seq<char>) -> Option<Seq<char>> {
    if remember {
        Some(resolved)
    } else {
        None
    }
}

/// Record `resolved` (the canonical form of a folder the user opened) as the
/// last local folder, honouring the user's preference.
///
/// Returns whether `settings` actually changed, so callers only rewrite the
/// file when there is something new to store.
pub fn update_last_local_folder(settings: &mut Settings, resolved: &str) -> (r: bool)
    ensures
        *final(settings) == (Settings {
            app: AppSettings {
                last_local_folder: final(settings).app.last_local_folder,
                ..old(settings).app
            },
            ..*old(settings)
        }),
        text_of(final(settings).app.last_local_folder) == recorded_folder(
            old(settings).app.remember_last_local_folder_on_startup,
            resolved@,
        ),
        r == (text_of(old(settings).app.last_local_folder) != recorded_folder(
            old(settings).app.remember_last_local_folder_on_startup,
            resolved@,
        )),
        r == (*final(settings) != *old(settings)),
        old(settings).app.remember_last_local_folder_on_startup ==> text_of(
            final(settings).app.last_local_folder,
        ) == Some(resolved@),
        !old(settings).app.remember_last_local_folder_on_startup
            ==> final(settings).app.last_local_folder is None,
{
    if !settings.app.remember_last_local_folder_on_startup {
        if settings.app.last_local_folder.is_some() {
            settings.app.last_local_folder = None;
            return true;
        }
        return false;
    }
    let same = match &settings.app.last_local_folder {
        Some(saved) => same_chars(saved.as_str(), resolved),
        None => false,
    };
    if same {
        return false;
    }
    settings.app.last_local_folder = Some(resolved.to_owned());
    true
}

/// Recording keeps exactly the folder it is given while remembering is on,
/// and nothing while it is off.
pub proof fn lemma_recording_stores_the_given_folder(resolved: Seq<char>)
    ensures
        recorded_folder(true, resolved) == Some(resolved),
        recorded_folder(false, resolved) is None,
{
}

/// `~` alone, and `~` followed by `/` or `\\` and a rest, are the two forms
/// that expand; a path that does not start with `~` has no tilde form.
pub proof fn lemma_tilde_forms(rest: Seq<char>, path: Seq<char>)
    ensures
        is_bare_tilde(seq!['~']),
        tilde_rest(seq!['~', '/'] + rest) == Some(rest),
        tilde_rest(seq!['~', '\\'] + rest) == Some(rest),
        path.len() == 0 || path[0] != '~' ==> !is_bare_tilde(path) && tilde_rest(path) is None,
{
    assert((seq!['~', '/'] + rest).skip(2) =~= rest);
    assert((seq!['~', '\\'] + rest).skip(2) =~= rest);
    if path.len() > 0 && path[0] != '~' {
        assert(path != seq!['~']) by {
            if path == seq!['~'] {
                assert(path[0] == '~');
            }
        }
    }
}

/// Startup tries the stored folder exactly when remembering is on and a
/// non-empty folder is stored.
pub proof fn lemma_stored_startup_folder(s: Settings)
    ensures
        !s.app.remember_last_local_folder_on_startup ==> stored_startup_folder(s) is None,
        s.app.last_local_folder is None ==> stored_startup_folder(s) is None,
        s.app.remember_last_local_folder_on_startup && s.app.last_local_folder is Some
            && s.app.last_local_folder->0@.len() > 0 ==> stored_startup_folder(s) == Some(
            s.app.last_local_folder->0@,
        ),
        s.app.last_local_folder is Some && s.app.last_local_folder->0@.len() == 0
            ==> stored_startup_folder(s) is None,
{
}

/// A stale folder that was cleared is not retried: with no remembered folder
/// there is nothing to check at the next startup.
pub proof fn lemma_forgotten_folder_is_not_retried(s: Settings)
    ensures
        stored_startup_folder(without_last_folder(s)) is None,
{
}

/// Recording the same folder again is a no-op: in the settings that recording
/// `resolved` produced, recording `resolved` once more finds nothing to change.
pub proof fn lemma_recording_again_changes_nothing(before: Settings, after: Settings, resolved: Seq<char>)
    requires
        after == (Settings {
            app: AppSettings { last_local_folder: after.app.last_local_folder, ..before.app },
            ..before
        }),
        text_of(after.app.last_local_folder) == recorded_folder(
            before.app.remember_last_local_folder_on_startup,
            resolved,
        ),
    ensures
        text_of(after.app.last_local_folder) == recorded_folder(
            after.app.remember_last_local_folder_on_startup,
            resolved,
        ),
{
}

impl Settings {
    /// The form written to disk. When the app is not remembering the last
    /// local folder, the stored value is dropped so a stale path never
    /// survives the preference being turned off.
    pub fn storage_form(self) -> (r: Settings)
        ensures
            r == (if self.app.remember_last_local_folder_on_startup {
                self
            } else {
                without_last_folder(self)
            }),
    {
        let mut copy = self;
        if !copy.app.remember_last_local_folder_on_startup {
            copy.app.last_local_folder = None;
        }
        copy
    }

    /// A freshly parsed document made ready for use: muted sound events that
    /// are not in `known` are dropped, and so is every repeat.
    pub fn with_known_muted_sound_events(self, known: &Vec<String>) -> (r: Settings)
        ensures
            r == (Settings {
                audio: AudioSettings {
                    muted_sound_events: r.audio.muted_sound_events,
                    ..self.audio
                },
                ..self
            }),
            texts(r.audio.muted_sound_events@) == known_events_once(
                texts(self.audio.muted_sound_events@),
                texts(known@),
            ),
    {
        let mut settings = self;
        settings.audio.muted_sound_events = normalize_known_muted_sound_events(
            &settings.audio.muted_sound_events,
            known,
        );
        settings
    }
}

} // verus!
