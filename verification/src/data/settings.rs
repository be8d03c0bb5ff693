use vstd::prelude::*;

verus! {

/// Colour theme of the application.
#[derive(Clone, Copy, Debug, PartialEq, Eq, Structural)]
pub enum AppTheme {
    Dark,
    Light,
}

/// Screen that the application shows.
#[derive(Clone, Copy, Debug, PartialEq, Eq, Structural)]
pub enum AppScreen {
    Home,
    Dashboard,
    Settings,
}

/// Text size of the interface.
#[derive(Clone, Copy, Debug, PartialEq, Eq, Structural)]
pub enum TextSize {
    Small,
    Normal,
    Large,
}

/// Shell that runs the commands.
#[derive(Clone, Copy, Debug, PartialEq, Eq, Structural)]
pub enum ShellKind {
    Bash,
}

/// Terminal emulator that runs the commands.
#[derive(Clone, Copy, Debug, PartialEq, Eq, Structural)]
pub enum TerminalKind {
    Gnome,
    Konsole,
    Kitty,
    Xterm,
}

/// How commands are run.
#[derive(Clone, Copy, Debug, PartialEq, Eq, Structural)]
pub enum RunMode {
    NewWindow,
    ReuseSession,
}

impl Default for AppTheme {
    fn default() -> (r: Self)
        ensures
            r == AppTheme::Dark,
    {
        AppTheme::Dark
    }
}

impl Default for AppScreen {
    fn default() -> (r: Self)
        ensures
            r == AppScreen::Home,
    {
        AppScreen::Home
    }
}

impl Default for TextSize {
    fn default() -> (r: Self)
        ensures
            r == TextSize::Normal,
    {
        TextSize::Normal
    }
}

impl Default for ShellKind {
    fn default() -> (r: Self)
        ensures
            r == ShellKind::Bash,
    {
        ShellKind::Bash
    }
}

impl Default for TerminalKind {
    fn default() -> (r: Self)
        ensures
            r == TerminalKind::Gnome,
    {
        TerminalKind::Gnome
    }
}

impl Default for RunMode {
    fn default() -> (r: Self)
        ensures
            r == RunMode::NewWindow,
    {
        RunMode::NewWindow
    }
}

/// Every setting of the application.
#[derive(Clone, Copy, Debug, PartialEq, Eq, Structural)]
pub struct SettingsInfo {
    pub theme: AppTheme,
    pub screen: AppScreen,
    pub text_size: TextSize,
    pub shell: ShellKind,
    pub terminal: TerminalKind,
    pub run_mode: RunMode,
    pub keep_open: bool,
}

/// The settings used where none were stored: dark theme, home screen,
/// normal text, bash in a GNOME terminal, each command in a new window,
/// and the terminal kept open.
pub open spec fn default_settings() -> SettingsInfo {
    SettingsInfo {
        theme: AppTheme::Dark,
        screen: AppScreen::Home,
        text_size: TextSize::Normal,
        shell: ShellKind::Bash,
        terminal: TerminalKind::Gnome,
        run_mode: RunMode::NewWindow,
        keep_open: true,
    }
}

impl Default for SettingsInfo {
    fn default() -> (r: Self)
        ensures
            r == default_settings(),
    {
        SettingsInfo {
            theme: AppTheme::default(),
            screen: AppScreen::default(),
            text_size: TextSize::default(),
            shell: ShellKind::default(),
            terminal: TerminalKind::default(),
            run_mode: RunMode::default(),
            keep_open: true,
        }
    }
}

/// A change of one setting.
#[derive(Clone, Copy, Debug, PartialEq, Eq, Structural)]
pub enum SettingChange {
    Theme(AppTheme),
    Screen(AppScreen),
    TextSize(TextSize),
    Shell(ShellKind),
    Terminal(TerminalKind),
    RunMode(RunMode),
    KeepOpen(bool),
}

/// The settings after one change: the named setting takes the new value and
/// every other setting stays.
pub open spec fn changed(s: SettingsInfo, change: SettingChange) -> SettingsInfo {
    match change {
        SettingChange::Theme(v) => SettingsInfo { theme: v, ..s },
        SettingChange::Screen(v) => SettingsInfo { screen: v, ..s },
        SettingChange::TextSize(v) => SettingsInfo { text_size: v, ..s },
        SettingChange::Shell(v) => SettingsInfo { shell: v, ..s },
        SettingChange::Terminal(v) => SettingsInfo { terminal: v, ..s },
        SettingChange::RunMode(v) => SettingsInfo { run_mode: v, ..s },
        SettingChange::KeepOpen(v) => SettingsInfo { keep_open: v, ..s },
    }
}

/// The settings that the cache hands out: a copy of what it holds.
pub fn get_settings(cache: &SettingsInfo) -> (r: SettingsInfo)
    ensures
        r == *cache,
{
    *cache
}

/// Sets a single setting in the cache.
pub fn set_settings(cache: &mut SettingsInfo, change: SettingChange)
    ensures
        *final(cache) == changed(*old(cache), change),
{
    match change {
        SettingChange::Theme(v) => cache.theme = v,
        SettingChange::Screen(v) => cache.screen = v,
        SettingChange::TextSize(v) => cache.text_size = v,
        SettingChange::Shell(v) => cache.shell = v,
        SettingChange::Terminal(v) => cache.terminal = v,
        SettingChange::RunMode(v) => cache.run_mode = v,
        SettingChange::KeepOpen(v) => cache.keep_open = v,
    }
}

/// What the settings file gave when it was read.
#[derive(Clone, Copy, Debug, PartialEq, Eq, Structural)]
pub enum StoredSettings {
    /// There is no settings file.
    Missing,
    /// The file exists but could not be read.
    Unreadable,
    /// The file was read but does not hold valid settings.
    Malformed,
    /// The file holds these settings.
    Parsed(SettingsInfo),
}

/// What has to be done to the settings file after it was read.
#[derive(Clone, Copy, Debug, PartialEq, Eq, Structural)]
pub enum SettingsFileAction {
    /// Nothing: the file holds the settings.
    Keep,
    /// Write the default settings to the file.
    WriteDefault,
    /// Move the malformed file aside, then write the default settings.
    BackupAndWriteDefault,
}

/// The settings to cache after the file was read, and what to do to the
/// file: parsed settings are kept as they are; a missing or unreadable file
/// is replaced by the defaults; a malformed one is first moved aside.
pub open spec fn loaded_settings(stored: StoredSettings) -> (SettingsInfo, SettingsFileAction) {
    match stored {
        StoredSettings::Parsed(s) => (s, SettingsFileAction::Keep),
        StoredSettings::Malformed => (default_settings(), SettingsFileAction::BackupAndWriteDefault),
        _ => (default_settings(), SettingsFileAction::WriteDefault),
    }
}

/// Decides which settings to cache once the settings file has been read,
/// and what to do to the file.
pub fn settings_from_disk(stored: StoredSettings) -> (r: (SettingsInfo, SettingsFileAction))
    ensures
        r == loaded_settings(stored),
{
    match stored {
        StoredSettings::Parsed(s) => (s, SettingsFileAction::Keep),
        StoredSettings::Malformed => (SettingsInfo::default(), SettingsFileAction::BackupAndWriteDefault),
        StoredSettings::Missing => (SettingsInfo::default(), SettingsFileAction::WriteDefault),
        StoredSettings::Unreadable => (SettingsInfo::default(), SettingsFileAction::WriteDefault),
    }
}

/// Text scale in percent for a text size.
pub open spec fn scale_percent(size: TextSize) -> u32 {
    match size {
        TextSize::Small => 85,
        TextSize::Normal => 100,
        TextSize::Large => 115,
    }
}

/// The factor, in percent, by which design-time sizes are scaled for a text
/// size: small text is 85, normal 100 and large 115.
pub fn text_scale_percent(size: TextSize) -> (r: u32)
    ensures
        r == scale_percent(size),
{
    match size {
        TextSize::Small => 85,
        TextSize::Normal => 100,
        TextSize::Large => 115,
    }
}

/// Setting one value and then reading the cache gives that value back, and
/// leaves every other setting as it was.
pub proof fn lemma_set_then_get(s: SettingsInfo, change: SettingChange)
    ensures
        ({
            let t = changed(s, change);
            &&& change matches SettingChange::Theme(v) ==> t.theme == v && t == SettingsInfo { theme: v, ..s }
            &&& change matches SettingChange::Screen(v) ==> t.screen == v && t == SettingsInfo { screen: v, ..s }
            &&& change matches SettingChange::TextSize(v) ==> t.text_size == v && t == SettingsInfo { text_size: v, ..s }
            &&& change matches SettingChange::Shell(v) ==> t.shell == v && t == SettingsInfo { shell: v, ..s }
            &&& change matches SettingChange::Terminal(v) ==> t.terminal == v && t == SettingsInfo { terminal: v, ..s }
            &&& change matches SettingChange::RunMode(v) ==> t.run_mode == v && t == SettingsInfo { run_mode: v, ..s }
            &&& change matches SettingChange::KeepOpen(v) ==> t.keep_open == v && t == SettingsInfo { keep_open: v, ..s }
        }),
{
}

/// Setting a value that the settings already hold changes nothing, and
/// setting the same value twice is the same as setting it once.
pub proof fn lemma_set_idempotent(s: SettingsInfo, change: SettingChange)
    ensures
        changed(changed(s, change), change) == changed(s, change),
{
}

} // verus!
