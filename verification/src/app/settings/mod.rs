pub mod settings;

use vstd::prelude::*;
use crate::components::status_bar::{StatusMessage, StatusMessageView};
use crate::data::settings::{AppScreen, AppTheme, RunMode, SettingChange, SettingsInfo, ShellKind, TerminalKind, TextSize};

verus! {

/// The state of the settings screen.
#[derive(Debug)]
pub struct Settings {
    pub setting_list: SettingsInfo,
    pub data_dir: String,
    pub version: String,
    pub status_message: StatusMessage,
}

/// The settings screen as plain values.
pub struct SettingsView {
    pub setting_list: SettingsInfo,
    pub data_dir: Seq<char>,
    pub version: Seq<char>,
    pub status_message: StatusMessageView,
}

impl View for Settings {
    type V = SettingsView;

    open spec fn view(&self) -> SettingsView {
        SettingsView {
            setting_list: self.setting_list,
            data_dir: self.data_dir@,
            version: self.version@,
            status_message: self.status_message@,
        }
    }
}

/// Messages of the settings screen.
#[derive(Debug)]
pub enum SettingsMessage {
    LoadSettings,
    /// The outcome of loading the settings, with the data directory (empty
    /// where it could not be found).
    SettingsLoaded(Result<SettingsInfo, String>, String),
    SetTheme(AppTheme),
    SetScreen(AppScreen),
    OpenDataDir,
    /// The outcome of opening the data directory.
    DataDirOpened(Result<(), String>),
    SetStatusMessage(StatusMessage),
    SetThemeSetting(AppTheme),
    SetScreenSetting(AppScreen),
    SetTextSize(TextSize),
    SetShell(ShellKind),
    SetTerminal(TerminalKind),
    SetRunMode(RunMode),
    ToggleKeepOpen(bool),
    /// The outcome of storing a changed setting.
    SettingSaved(SettingChange, Result<(), String>),
}

impl Clone for SettingsMessage {
    fn clone(&self) -> Self {
        match self {
            SettingsMessage::LoadSettings => SettingsMessage::LoadSettings,
            SettingsMessage::SettingsLoaded(r, d) => SettingsMessage::SettingsLoaded(
                match r {
                    Ok(s) => Ok(*s),
                    Err(e) => Err(e.clone()),
                },
                d.clone(),
            ),
            SettingsMessage::SetTheme(t) => SettingsMessage::SetTheme(*t),
            SettingsMessage::SetScreen(s) => SettingsMessage::SetScreen(*s),
            SettingsMessage::OpenDataDir => SettingsMessage::OpenDataDir,
            SettingsMessage::DataDirOpened(r) => SettingsMessage::DataDirOpened(match r {
                Ok(()) => Ok(()),
                Err(e) => Err(e.clone()),
            }),
            SettingsMessage::SetStatusMessage(m) => SettingsMessage::SetStatusMessage(m.clone()),
            SettingsMessage::SetThemeSetting(t) => SettingsMessage::SetThemeSetting(*t),
            SettingsMessage::SetScreenSetting(s) => SettingsMessage::SetScreenSetting(*s),
            SettingsMessage::SetTextSize(s) => SettingsMessage::SetTextSize(*s),
            SettingsMessage::SetShell(s) => SettingsMessage::SetShell(*s),
            SettingsMessage::SetTerminal(t) => SettingsMessage::SetTerminal(*t),
            SettingsMessage::SetRunMode(m) => SettingsMessage::SetRunMode(*m),
            SettingsMessage::ToggleKeepOpen(b) => SettingsMessage::ToggleKeepOpen(*b),
            SettingsMessage::SettingSaved(c, r) => SettingsMessage::SettingSaved(*c, match r {
                Ok(()) => Ok(()),
                Err(e) => Err(e.clone()),
            }),
        }
    }
}

/// Outside work that the settings screen asks for: `Load` comes back as
/// `SettingsLoaded`, `OpenDataDir` as `DataDirOpened`, `SaveSetting` as
/// `SettingSaved`.
#[derive(Debug)]
pub enum SettingsRequest {
    /// Load the settings from their file into the cache, and find the data
    /// directory.
    Load,
    /// Open this directory in the file manager.
    OpenDataDir(String),
    /// Change this setting in the cache and store the settings.
    SaveSetting(SettingChange),
}

} // verus!
