//! Application configuration: its sections, their defaults, and the migration of old files.

use crate::text::contains;
use vstd::prelude::*;

verus! {

broadcast use vstd::string::group_string_axioms;

// ---------------------------------------------------------------------------------------
// Sections
// ---------------------------------------------------------------------------------------

/// General settings.
#[derive(Debug, Clone)]
pub struct GeneralConfig {
    pub auto_start: bool,
    pub language: String,
}

/// A [`GeneralConfig`] by its values.
pub struct GeneralConfigView {
    pub auto_start: bool,
    pub language: Seq<char>,
}

impl View for GeneralConfig {
    type V = GeneralConfigView;

    open spec fn view(&self) -> GeneralConfigView {
        GeneralConfigView { auto_start: self.auto_start, language: self.language@ }
    }
}

/// Hotkey settings; the times are in milliseconds.
#[derive(Debug, Clone)]
pub struct HotkeyConfig {
    pub mode: String,
    pub combo_key: String,
    pub double_tap_key: String,
    pub double_tap_interval: u64,
    pub tap_hold_key: String,
    pub tap_hold_threshold: u64,
}

/// A [`HotkeyConfig`] by its values.
pub struct HotkeyConfigView {
    pub mode: Seq<char>,
    pub combo_key: Seq<char>,
    pub double_tap_key: Seq<char>,
    pub double_tap_interval: u64,
    pub tap_hold_key: Seq<char>,
    pub tap_hold_threshold: u64,
}

impl View for HotkeyConfig {
    type V = HotkeyConfigView;

    open spec fn view(&self) -> HotkeyConfigView {
        HotkeyConfigView {
            mode: self.mode@,
            combo_key: self.combo_key@,
            double_tap_key: self.double_tap_key@,
            double_tap_interval: self.double_tap_interval,
            tap_hold_key: self.tap_hold_key@,
            tap_hold_threshold: self.tap_hold_threshold,
        }
    }
}

/// Settings of the status window that shows while recording.
#[derive(Debug, Clone, Copy, PartialEq, Eq, Structural)]
pub struct FloatingButtonConfig {
    pub enabled: bool,
    pub position_x: i32,
    pub position_y: i32,
}

/// Speech recognition settings; the times are in milliseconds.
#[derive(Debug, Clone, Copy, PartialEq, Eq, Structural)]
pub struct AsrConfig {
    pub vad_enabled: bool,
    pub low_latency_mode: bool,
    pub enable_asr_twopass: bool,
    pub enable_asr_threepass: bool,
    pub interim_insert: bool,
    pub interim_update_interval_ms: u64,
    pub max_interim_rollback_chars: usize,
    pub final_drain_timeout_ms: u64,
}

/// Text insertion settings.
#[derive(Debug, Clone)]
pub struct TextInsertionConfig {
    pub mode: String,
    pub clipboard_threshold_chars: usize,
    pub clipboard_restore_delay_ms: u64,
}

/// A [`TextInsertionConfig`] by its values.
pub struct TextInsertionConfigView {
    pub mode: Seq<char>,
    pub clipboard_threshold_chars: usize,
    pub clipboard_restore_delay_ms: u64,
}

impl View for TextInsertionConfig {
    type V = TextInsertionConfigView;

    open spec fn view(&self) -> TextInsertionConfigView {
        TextInsertionConfigView {
            mode: self.mode@,
            clipboard_threshold_chars: self.clipboard_threshold_chars,
            clipboard_restore_delay_ms: self.clipboard_restore_delay_ms,
        }
    }
}

/// The whole configuration.
#[derive(Debug, Clone)]
pub struct AppConfig {
    pub general: GeneralConfig,
    pub hotkey: HotkeyConfig,
    pub floating_button: FloatingButtonConfig,
    pub asr: AsrConfig,
    pub text_insertion: TextInsertionConfig,
}

/// An [`AppConfig`] by its values.
pub struct AppConfigView {
    pub general: GeneralConfigView,
    pub hotkey: HotkeyConfigView,
    pub floating_button: FloatingButtonConfig,
    pub asr: AsrConfig,
    pub text_insertion: TextInsertionConfigView,
}

impl View for AppConfig {
    type V = AppConfigView;

    open spec fn view(&self) -> AppConfigView {
        AppConfigView {
            general: self.general@,
            hotkey: self.hotkey@,
            floating_button: self.floating_button,
            asr: self.asr,
            text_insertion: self.text_insertion@,
        }
    }
}

// ---------------------------------------------------------------------------------------
// Defaults
// ---------------------------------------------------------------------------------------

pub fn default_language() -> (r: String)
    ensures
        r@ == "zh-CN"@,
{
    "zh-CN".to_string()
}

pub fn default_hotkey_mode() -> (r: String)
    ensures
        r@ == "tap_hold"@,
{
    "tap_hold".to_string()
}

pub fn default_combo_key() -> (r: String)
    ensures
        r@ == "Ctrl+Shift+V"@,
{
    "Ctrl+Shift+V".to_string()
}

pub fn default_double_tap_key() -> (r: String)
    ensures
        r@ == "Ctrl"@,
{
    "Ctrl".to_string()
}

pub fn default_double_tap_interval() -> (r: u64)
    ensures
        r == 300,
{
    300
}

pub fn default_tap_hold_key() -> (r: String)
    ensures
        r@ == "RightAlt"@,
{
    "RightAlt".to_string()
}

pub fn default_tap_hold_threshold() -> (r: u64)
    ensures
        r == 300,
{
    300
}

pub fn default_true() -> (r: bool)
    ensures
        r,
{
    true
}

pub fn default_false() -> (r: bool)
    ensures
        !r,
{
    false
}

pub fn default_position() -> (r: i32)
    ensures
        r == 100,
{
    100
}

pub fn default_interim_update_interval_ms() -> (r: u64)
    ensures
        r == 150,
{
    150
}

pub fn default_max_interim_rollback_chars() -> (r: usize)
    ensures
        r == 6,
{
    6
}

pub fn default_final_drain_timeout_ms() -> (r: u64)
    ensures
        r == 1500,
{
    1500
}

pub fn default_text_insert_mode() -> (r: String)
    ensures
        r@ == "auto"@,
{
    "auto".to_string()
}

pub fn default_clipboard_threshold_chars() -> (r: usize)
    ensures
        r == 8,
{
    8
}

pub fn default_clipboard_restore_delay_ms() -> (r: u64)
    ensures
        r == 350,
{
    350
}

/// The general settings of a fresh installation.
pub open spec fn default_general() -> GeneralConfigView {
    GeneralConfigView { auto_start: false, language: "zh-CN"@ }
}

/// The hotkey settings of a fresh installation.
pub open spec fn default_hotkey() -> HotkeyConfigView {
    HotkeyConfigView {
        mode: "tap_hold"@,
        combo_key: "Ctrl+Shift+V"@,
        double_tap_key: "Ctrl"@,
        double_tap_interval: 300,
        tap_hold_key: "RightAlt"@,
        tap_hold_threshold: 300,
    }
}

/// The status window settings of a fresh installation.
pub open spec fn default_floating_button() -> FloatingButtonConfig {
    FloatingButtonConfig { enabled: true, position_x: 100, position_y: 100 }
}

/// The speech recognition settings of a fresh installation.
pub open spec fn default_asr() -> AsrConfig {
    AsrConfig {
        vad_enabled: true,
        low_latency_mode: false,
        enable_asr_twopass: false,
        enable_asr_threepass: false,
        interim_insert: true,
        interim_update_interval_ms: 150,
        max_interim_rollback_chars: 6,
        final_drain_timeout_ms: 1500,
    }
}

/// The text insertion settings of a fresh installation.
pub open spec fn default_text_insertion() -> TextInsertionConfigView {
    TextInsertionConfigView {
        mode: "auto"@,
        clipboard_threshold_chars: 8,
        clipboard_restore_delay_ms: 350,
    }
}

/// The configuration of a fresh installation.
pub open spec fn default_app() -> AppConfigView {
    AppConfigView {
        general: default_general(),
        hotkey: default_hotkey(),
        floating_button: default_floating_button(),
        asr: default_asr(),
        text_insertion: default_text_insertion(),
    }
}

impl Default for GeneralConfig {
    fn default() -> (r: Self)
        ensures
            r@ == default_general(),
    {
        GeneralConfig { auto_start: false, language: default_language() }
    }
}

impl Default for HotkeyConfig {
    fn default() -> (r: Self)
        ensures
            r@ == default_hotkey(),
    {
        HotkeyConfig {
            mode: default_hotkey_mode(),
            combo_key: default_combo_key(),
            double_tap_key: default_double_tap_key(),
            double_tap_interval: default_double_tap_interval(),
            tap_hold_key: default_tap_hold_key(),
            tap_hold_threshold: default_tap_hold_threshold(),
        }
    }
}

impl Default for FloatingButtonConfig {
    fn default() -> (r: Self)
        ensures
            r == default_floating_button(),
    {
        FloatingButtonConfig {
            enabled: default_true(),
            position_x: default_position(),
            position_y: default_position(),
        }
    }
}

impl Default for AsrConfig {
    fn default() -> (r: Self)
        ensures
            r == default_asr(),
    {
        AsrConfig {
            vad_enabled: default_true(),
            low_latency_mode: default_false(),
            enable_asr_twopass: default_false(),
            enable_asr_threepass: default_false(),
            interim_insert: default_true(),
            interim_update_interval_ms: default_interim_update_interval_ms(),
            max_interim_rollback_chars: default_max_interim_rollback_chars(),
            final_drain_timeout_ms: default_final_drain_timeout_ms(),
        }
    }
}

impl Default for TextInsertionConfig {
    fn default() -> (r: Self)
        ensures
            r@ == default_text_insertion(),
    {
        TextInsertionConfig {
            mode: default_text_insert_mode(),
            clipboard_threshold_chars: default_clipboard_threshold_chars(),
            clipboard_restore_delay_ms: default_clipboard_restore_delay_ms(),
        }
    }
}

impl Default for AppConfig {
    fn default() -> (r: Self)
        ensures
            r@ == default_app(),
    {
        AppConfig {
            general: GeneralConfig::default(),
            hotkey: HotkeyConfig::default(),
            floating_button: FloatingButtonConfig::default(),
            asr: AsrConfig::default(),
            text_insertion: TextInsertionConfig::default(),
        }
    }
}

// ---------------------------------------------------------------------------------------
// The hotkey settings in use
// ---------------------------------------------------------------------------------------

/// The hotkey settings that the application runs with: those of the file, by tap and hold.
pub open spec fn settings_in_use(config: HotkeyConfigView) -> HotkeyConfigView {
    HotkeyConfigView { mode: "tap_hold"@, ..config }
}

impl HotkeyConfig {
    /// The settings that the application runs with. Only the tap/hold mode is enabled: a file
    /// that still asks for `combo` or `double_tap` is treated as `tap_hold`.
    pub fn in_use(&self) -> (r: HotkeyConfig)
        ensures
            r@ == settings_in_use(self@),
    {
        HotkeyConfig {
            mode: default_hotkey_mode(),
            combo_key: self.combo_key.clone(),
            double_tap_key: self.double_tap_key.clone(),
            double_tap_interval: self.double_tap_interval,
            tap_hold_key: self.tap_hold_key.clone(),
            tap_hold_threshold: self.tap_hold_threshold,
        }
    }
}

// ---------------------------------------------------------------------------------------
// Migration
// ---------------------------------------------------------------------------------------

/// The file holds the low-latency profile of earlier versions. Some recognition sessions
/// reject or ignore it, and then never produce text.
pub open spec fn has_legacy_profile(content: Seq<char>) -> bool {
    &&& crate::text::has_text(content, "low_latency_mode = true"@)
    &&& crate::text::has_text(content, "enable_asr_twopass = true"@)
    &&& crate::text::has_text(content, "enable_asr_threepass = false"@)
    &&& crate::text::has_text(content, "interim_insert = true"@)
}

/// The file holds the clipboard delay of earlier versions, and `config` still has one as
/// short. Many windows handle the paste later than that and would find the old clipboard.
pub open spec fn has_short_delay(config: AppConfigView, content: Seq<char>) -> bool {
    &&& crate::text::has_text(content, "clipboard_restore_delay_ms = 80"@)
    &&& config.text_insertion.clipboard_restore_delay_ms <= 80
}

/// `config`, read from `content`, with the settings of earlier versions made safe.
pub open spec fn migrated(config: AppConfigView, content: Seq<char>) -> AppConfigView {
    AppConfigView {
        asr: if has_legacy_profile(content) {
            AsrConfig { low_latency_mode: false, enable_asr_twopass: false, ..config.asr }
        } else {
            config.asr
        },
        text_insertion: if has_short_delay(config, content) {
            TextInsertionConfigView { clipboard_restore_delay_ms: 350, ..config.text_insertion }
        } else {
            config.text_insertion
        },
        ..config
    }
}

/// A setting that later versions added is missing from the file.
pub open spec fn lacks_setting(content: Seq<char>) -> bool {
    ||| !crate::text::has_text(content, "low_latency_mode"@)
    ||| !crate::text::has_text(content, "enable_asr_twopass"@)
    ||| !crate::text::has_text(content, "enable_asr_threepass"@)
    ||| !crate::text::has_text(content, "interim_insert"@)
    ||| !crate::text::has_text(content, "interim_update_interval_ms"@)
    ||| !crate::text::has_text(content, "max_interim_rollback_chars"@)
    ||| !crate::text::has_text(content, "final_drain_timeout_ms"@)
    ||| !crate::text::has_text(content, "[text_insertion]"@)
    ||| !crate::text::has_text(content, "clipboard_threshold_chars"@)
    ||| !crate::text::has_text(content, "clipboard_restore_delay_ms"@)
}

/// The configuration in force after a start, given the configuration file if there is one:
/// what it says and its text.
pub open spec fn loaded(file: Option<(AppConfigView, Seq<char>)>) -> AppConfigView {
    match file {
        Some((config, content)) => migrated(config, content),
        None => default_app(),
    }
}

/// The configuration file has to be written at a start.
pub open spec fn must_save(file: Option<(AppConfigView, Seq<char>)>) -> bool {
    match file {
        Some((config, content)) => has_legacy_profile(content) || has_short_delay(config, content)
            || lacks_setting(content),
        None => true,
    }
}

impl AppConfig {
    /// Makes the settings of earlier versions safe; tells whether `content` held any.
    pub fn apply_safe_migrations(&mut self, content: &str) -> (changed: bool)
        ensures
            final(self)@ == migrated(old(self)@, content@),
            changed == (has_legacy_profile(content@) || has_short_delay(old(self)@, content@)),
    {
        let mut changed: bool = false;
        let legacy_profile: bool = contains(content, "low_latency_mode = true") && contains(
            content,
            "enable_asr_twopass = true",
        ) && contains(content, "enable_asr_threepass = false") && contains(
            content,
            "interim_insert = true",
        );
        if legacy_profile {
            self.asr.low_latency_mode = false;
            self.asr.enable_asr_twopass = false;
            changed = true;
        }
        if contains(content, "clipboard_restore_delay_ms = 80")
            && self.text_insertion.clipboard_restore_delay_ms <= 80 {
            self.text_insertion.clipboard_restore_delay_ms = default_clipboard_restore_delay_ms();
            changed = true;
        }
        changed
    }

    /// Whether a setting that later versions added is missing from the file.
    pub fn needs_migration(&self, content: &str) -> (r: bool)
        ensures
            r == lacks_setting(content@),
    {
        !contains(content, "low_latency_mode") || !contains(content, "enable_asr_twopass")
            || !contains(content, "enable_asr_threepass") || !contains(content, "interim_insert")
            || !contains(content, "interim_update_interval_ms") || !contains(
            content,
            "max_interim_rollback_chars",
        ) || !contains(content, "final_drain_timeout_ms") || !contains(content, "[text_insertion]")
            || !contains(content, "clipboard_threshold_chars") || !contains(
            content,
            "clipboard_restore_delay_ms",
        )
    }

    /// The configuration to run with and whether to save it, given the configuration file if
    /// there is one: what it says and its text. An existing file is brought up to the current
    /// safe defaults; without a file the defaults are used and saved.
    pub fn load_or_default(file: Option<(AppConfig, &str)>) -> (r: (AppConfig, bool))
        ensures
            match file {
                Some((config, content)) => r.0@ == loaded(Some((config@, content@))) && r.1
                    == must_save(Some((config@, content@))),
                None => r.0@ == loaded(None) && r.1 == must_save(None),
            },
    {
        match file {
            Some((config, content)) => {
                let mut config: AppConfig = config;
                let save: bool = config.apply_safe_migrations(content) || config.needs_migration(
                    content,
                );
                (config, save)
            },
            None => (AppConfig::default(), true),
        }
    }
}

// ---------------------------------------------------------------------------------------
// Laws
// ---------------------------------------------------------------------------------------

/// Migrating a second time with the same file changes nothing more.
pub proof fn migration_is_idempotent(config: AppConfigView, content: Seq<char>)
    ensures
        migrated(migrated(config, content), content) == migrated(config, content),
{
}

/// A file with the legacy profile ends up with the default low-latency and two-pass settings;
/// one with the legacy clipboard delay ends up with a longer one, which is the default where
/// the delay in force was as short.
pub proof fn migration_reaches_safe_defaults(config: AppConfigView, content: Seq<char>)
    ensures
        has_legacy_profile(content) ==> {
            let asr = loaded(Some((config, content))).asr;
            asr.low_latency_mode == default_asr().low_latency_mode && asr.enable_asr_twopass
                == default_asr().enable_asr_twopass
        },
        crate::text::has_text(content, "clipboard_restore_delay_ms = 80"@) ==> {
            let delay = loaded(
                Some((config, content)),
            ).text_insertion.clipboard_restore_delay_ms;
            delay > 80 && (config.text_insertion.clipboard_restore_delay_ms <= 80 ==> delay
                == default_text_insertion().clipboard_restore_delay_ms)
        },
{
}

/// Migration leaves every other setting as the user has it.
pub proof fn migration_keeps_other_settings(config: AppConfigView, content: Seq<char>)
    ensures
        ({
            let after = migrated(config, content);
            &&& after.general == config.general
            &&& after.hotkey == config.hotkey
            &&& after.floating_button == config.floating_button
            &&& after.asr.vad_enabled == config.asr.vad_enabled
            &&& after.asr.enable_asr_threepass == config.asr.enable_asr_threepass
            &&& after.asr.interim_insert == config.asr.interim_insert
            &&& after.asr.interim_update_interval_ms == config.asr.interim_update_interval_ms
            &&& after.asr.max_interim_rollback_chars == config.asr.max_interim_rollback_chars
            &&& after.asr.final_drain_timeout_ms == config.asr.final_drain_timeout_ms
            &&& after.text_insertion.mode == config.text_insertion.mode
            &&& after.text_insertion.clipboard_threshold_chars
                == config.text_insertion.clipboard_threshold_chars
        }),
{
}

/// A file is left alone only if it needs no change: then what it says is what is in force.
pub proof fn unsaved_file_is_in_force(config: AppConfigView, content: Seq<char>)
    requires
        !must_save(Some((config, content))),
    ensures
        loaded(Some((config, content))) == config,
        !lacks_setting(content),
{
}

/// `content` is a file that was written from `config`: it holds every setting, each with its
/// value.
pub open spec fn written_from(content: Seq<char>, config: AppConfigView) -> bool {
    let delay = config.text_insertion.clipboard_restore_delay_ms;
    &&& !lacks_setting(content)
    &&& crate::text::has_text(content, "low_latency_mode = true"@) == config.asr.low_latency_mode
    &&& crate::text::has_text(content, "enable_asr_twopass = true"@)
        == config.asr.enable_asr_twopass
    &&& crate::text::has_text(content, "enable_asr_threepass = false"@)
        == !config.asr.enable_asr_threepass
    &&& crate::text::has_text(content, "interim_insert = true"@) == config.asr.interim_insert
    &&& delay <= 80 ==> (crate::text::has_text(content, "clipboard_restore_delay_ms = 80"@)
        <==> delay == 80)
}

/// Reading a file back gives the settings that it was written from, and the file is left alone,
/// except that the legacy profile and the legacy clipboard delay are made safe.
pub proof fn saved_settings_are_read_back(config: AppConfigView, content: Seq<char>)
    requires
        written_from(content, config),
    ensures
        ({
            let asr = config.asr;
            let legacy = asr.low_latency_mode && asr.enable_asr_twopass
                && !asr.enable_asr_threepass && asr.interim_insert;
            let short = config.text_insertion.clipboard_restore_delay_ms == 80;
            &&& loaded(Some((config, content))) == (AppConfigView {
                asr: AsrConfig {
                    low_latency_mode: asr.low_latency_mode && !legacy,
                    enable_asr_twopass: asr.enable_asr_twopass && !legacy,
                    ..asr
                },
                text_insertion: TextInsertionConfigView {
                    clipboard_restore_delay_ms: if short {
                        350
                    } else {
                        config.text_insertion.clipboard_restore_delay_ms
                    },
                    ..config.text_insertion
                },
                ..config
            })
            &&& must_save(Some((config, content))) == (legacy || short)
        }),
{
}

/// The low-latency and two-pass settings are switched off exactly if all four texts of the
/// legacy profile occur in the file, whatever else it holds or lacks; otherwise they are as the
/// file says.
pub proof fn legacy_profile_is_switched_off(config: AppConfigView, content: Seq<char>)
    ensures
        ({
            let profile = crate::text::has_text(content, "low_latency_mode = true"@)
                && crate::text::has_text(content, "enable_asr_twopass = true"@)
                && crate::text::has_text(content, "enable_asr_threepass = false"@)
                && crate::text::has_text(content, "interim_insert = true"@);
            let asr = loaded(Some((config, content))).asr;
            &&& profile ==> !asr.low_latency_mode && !asr.enable_asr_twopass
            &&& !profile ==> asr == config.asr
            &&& profile ==> must_save(Some((config, content)))
            &&& profile ==> migrated(config, content).asr == asr
        }),
{
}

/// The clipboard delay becomes 350 ms exactly if the file writes the old one of 80 ms and the
/// delay in force is no longer than that; otherwise it is as the file says.
pub proof fn short_delay_is_lengthened(config: AppConfigView, content: Seq<char>)
    ensures
        ({
            let old_delay = config.text_insertion.clipboard_restore_delay_ms;
            let delay = loaded(
                Some((config, content)),
            ).text_insertion.clipboard_restore_delay_ms;
            let short = crate::text::has_text(content, "clipboard_restore_delay_ms = 80"@)
                && old_delay <= 80;
            &&& short ==> delay == 350 && must_save(Some((config, content)))
            &&& !short ==> delay == old_delay
        }),
{
}

/// A file is written again exactly if it lacks one of the settings of later versions, holds the
/// four texts of the legacy profile, or writes the old clipboard delay that is still in force.
pub proof fn when_a_file_is_written_again(config: AppConfigView, content: Seq<char>)
    ensures
        ({
            let holds = |name: Seq<char>| crate::text::has_text(content, name);
            let complete = holds("low_latency_mode"@) && holds("enable_asr_twopass"@) && holds(
                "enable_asr_threepass"@,
            ) && holds("interim_insert"@) && holds("interim_update_interval_ms"@) && holds(
                "max_interim_rollback_chars"@,
            ) && holds("final_drain_timeout_ms"@) && holds("[text_insertion]"@) && holds(
                "clipboard_threshold_chars"@,
            ) && holds("clipboard_restore_delay_ms"@);
            let profile = holds("low_latency_mode = true"@) && holds("enable_asr_twopass = true"@)
                && holds("enable_asr_threepass = false"@) && holds("interim_insert = true"@);
            let short = holds("clipboard_restore_delay_ms = 80"@)
                && config.text_insertion.clipboard_restore_delay_ms <= 80;
            &&& must_save(Some((config, content))) <==> !complete || profile || short
            &&& lacks_setting(content) <==> !complete
            &&& has_legacy_profile(content) || has_short_delay(config, content) <==> profile
                || short
        }),
{
}

/// Without a file the settings are these, and they are written.
pub proof fn fresh_installation()
    ensures
        must_save(None),
        loaded(None).general == (GeneralConfigView { auto_start: false, language: "zh-CN"@ }),
        loaded(None).hotkey.mode == "tap_hold"@,
        loaded(None).hotkey.combo_key == "Ctrl+Shift+V"@,
        loaded(None).hotkey.double_tap_key == "Ctrl"@,
        loaded(None).hotkey.double_tap_interval == 300,
        loaded(None).hotkey.tap_hold_key == "RightAlt"@,
        loaded(None).hotkey.tap_hold_threshold == 300,
        loaded(None).floating_button == (FloatingButtonConfig {
            enabled: true,
            position_x: 100,
            position_y: 100,
        }),
        loaded(None).asr == (AsrConfig {
            vad_enabled: true,
            low_latency_mode: false,
            enable_asr_twopass: false,
            enable_asr_threepass: false,
            interim_insert: true,
            interim_update_interval_ms: 150,
            max_interim_rollback_chars: 6,
            final_drain_timeout_ms: 1500,
        }),
        loaded(None).text_insertion == (TextInsertionConfigView {
            mode: "auto"@,
            clipboard_threshold_chars: 8,
            clipboard_restore_delay_ms: 350,
        }),
{
}

/// The hotkey settings in use are those of the file in everything but the mode.
pub proof fn settings_in_use_are_those_of_the_file(config: HotkeyConfigView)
    ensures
        ({
            let in_use = settings_in_use(config);
            &&& in_use.mode == "tap_hold"@
            &&& in_use.combo_key == config.combo_key
            &&& in_use.double_tap_key == config.double_tap_key
            &&& in_use.double_tap_interval == config.double_tap_interval
            &&& in_use.tap_hold_key == config.tap_hold_key
            &&& in_use.tap_hold_threshold == config.tap_hold_threshold
        }),
{
}

} // verus!
