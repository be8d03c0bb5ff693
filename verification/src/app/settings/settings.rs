use vstd::prelude::*;
use vstd::string::*;
use crate::app::settings::{Settings, SettingsMessage, SettingsRequest, SettingsView};
use crate::app::task::Task;
use crate::components::status_bar::{no_status, StatusMessage, StatusMessageView, StatusType};
use crate::data::settings::{changed, default_settings, AppScreen, AppTheme, SettingChange, SettingsInfo};

verus! {

/// The settings screen when it opens: default settings, no data directory,
/// no version and no status.
pub open spec fn initial_settings_screen() -> SettingsView {
    SettingsView {
        setting_list: default_settings(),
        data_dir: Seq::empty(),
        version: Seq::empty(),
        status_message: no_status(),
    }
}

/// The version that the settings screen shows once loaded.
pub open spec fn version_text() -> Seq<char> {
    "Version 0.1.0"@
}

/// The change that a "set setting" message asks for, if it is one.
pub open spec fn requested_change(m: SettingsMessage) -> Option<SettingChange> {
    match m {
        SettingsMessage::SetThemeSetting(v) => Some(SettingChange::Theme(v)),
        SettingsMessage::SetScreenSetting(v) => Some(SettingChange::Screen(v)),
        SettingsMessage::SetTextSize(v) => Some(SettingChange::TextSize(v)),
        SettingsMessage::SetShell(v) => Some(SettingChange::Shell(v)),
        SettingsMessage::SetTerminal(v) => Some(SettingChange::Terminal(v)),
        SettingsMessage::SetRunMode(v) => Some(SettingChange::RunMode(v)),
        SettingsMessage::ToggleKeepOpen(v) => Some(SettingChange::KeepOpen(v)),
        _ => None,
    }
}

/// The settings screen after a message.
pub open spec fn next_settings(s: SettingsView, m: SettingsMessage) -> SettingsView {
    match m {
        SettingsMessage::SettingsLoaded(r, dir) => match r {
            Ok(info) => SettingsView { setting_list: info, data_dir: dir@, version: version_text(), ..s },
            Err(_) => s,
        },
        SettingsMessage::SetStatusMessage(msg) => SettingsView { status_message: msg@, ..s },
        SettingsMessage::SettingSaved(change, r) => match r {
            Ok(_) => SettingsView { setting_list: changed(s.setting_list, change), ..s },
            Err(_) => s,
        },
        _ => s,
    }
}

/// The screen after a message: loading takes the stored screen.
pub open spec fn next_settings_screen(screen: AppScreen, m: SettingsMessage) -> AppScreen {
    match m {
        SettingsMessage::SettingsLoaded(Ok(info), _) => info.screen,
        SettingsMessage::SetScreen(v) => v,
        _ => screen,
    }
}

/// The theme after a message: loading takes the stored theme.
pub open spec fn next_settings_theme(theme: AppTheme, m: SettingsMessage) -> AppTheme {
    match m {
        SettingsMessage::SettingsLoaded(Ok(info), _) => info.theme,
        SettingsMessage::SetTheme(v) => v,
        _ => theme,
    }
}

/// What the settings screen asks to happen after a message.
pub open spec fn settings_answer(s: SettingsView, m: SettingsMessage, t: Task<SettingsMessage, SettingsRequest>) -> bool {
    match m {
        SettingsMessage::LoadSettings => t == Task::<SettingsMessage, SettingsRequest>::Perform(SettingsRequest::Load),
        SettingsMessage::OpenDataDir => t matches Task::Perform(SettingsRequest::OpenDataDir(d)) && d@ == s.data_dir,
        SettingsMessage::DataDirOpened(r) => match r {
            Ok(_) => t is Nothing,
            Err(e) => t matches Task::Done(SettingsMessage::SetStatusMessage(msg))
                && msg@ == (StatusMessageView { message: Some(e@), status: StatusType::Error }),
        },
        SettingsMessage::SettingSaved(change, _) => match change {
            SettingChange::Theme(v) => t == Task::<SettingsMessage, SettingsRequest>::Done(SettingsMessage::SetTheme(v)),
            _ => t is Nothing,
        },
        _ => match requested_change(m) {
            Some(c) => t == Task::<SettingsMessage, SettingsRequest>::Perform(SettingsRequest::SaveSetting(c)),
            None => t is Nothing,
        },
    }
}

impl Settings {
    /// The settings screen when it opens, and the loading of the settings.
    pub fn new() -> (r: (Self, Task<SettingsMessage, SettingsRequest>))
        ensures
            r.0@ == initial_settings_screen(),
            r.1 == Task::<SettingsMessage, SettingsRequest>::Done(SettingsMessage::LoadSettings),
    {
        (
            Self {
                setting_list: SettingsInfo::default(),
                data_dir: String::new(),
                version: String::new(),
                status_message: StatusMessage::default(),
            },
            Task::Done(SettingsMessage::LoadSettings),
        )
    }

    /// Handles a message: changes the screen's state, the application's
    /// screen and theme as the message asks, and returns what has to happen
    /// next.
    pub fn update(&mut self, message: SettingsMessage, screen: &mut AppScreen, theme: &mut AppTheme) -> (task: Task<SettingsMessage, SettingsRequest>)
        ensures
            final(self)@ == next_settings(old(self)@, message),
            settings_answer(old(self)@, message, task),
            *final(screen) == next_settings_screen(*old(screen), message),
            *final(theme) == next_settings_theme(*old(theme), message),
    {
        match message {
            SettingsMessage::LoadSettings => Task::Perform(SettingsRequest::Load),
            SettingsMessage::SettingsLoaded(result, data_dir) => {
                match result {
                    Ok(settings) => {
                        *theme = settings.theme;
                        *screen = settings.screen;
                        self.setting_list = settings;
                        self.data_dir = data_dir;
                        self.version = "Version 0.1.0".to_owned();
                    },
                    Err(_) => {},
                }
                Task::Nothing
            },
            SettingsMessage::SetTheme(thm) => {
                *theme = thm;
                Task::Nothing
            },
            SettingsMessage::SetScreen(scrn) => {
                *screen = scrn;
                Task::Nothing
            },
            SettingsMessage::OpenDataDir => Task::Perform(SettingsRequest::OpenDataDir(self.data_dir.clone())),
            SettingsMessage::DataDirOpened(result) => match result {
                Ok(()) => Task::Nothing,
                Err(e) => Task::Done(SettingsMessage::SetStatusMessage(StatusMessage::new(Some(e), StatusType::Error))),
            },
            SettingsMessage::SetStatusMessage(m) => {
                self.status_message = m;
                Task::Nothing
            },
            SettingsMessage::SetThemeSetting(thm) => Task::Perform(SettingsRequest::SaveSetting(SettingChange::Theme(thm))),
            SettingsMessage::SetScreenSetting(scrn) => Task::Perform(SettingsRequest::SaveSetting(SettingChange::Screen(scrn))),
            SettingsMessage::SetTextSize(size) => Task::Perform(SettingsRequest::SaveSetting(SettingChange::TextSize(size))),
            SettingsMessage::SetShell(shell) => Task::Perform(SettingsRequest::SaveSetting(SettingChange::Shell(shell))),
            SettingsMessage::SetTerminal(terminal) => Task::Perform(SettingsRequest::SaveSetting(SettingChange::Terminal(terminal))),
            SettingsMessage::SetRunMode(mode) => Task::Perform(SettingsRequest::SaveSetting(SettingChange::RunMode(mode))),
            SettingsMessage::ToggleKeepOpen(open) => Task::Perform(SettingsRequest::SaveSetting(SettingChange::KeepOpen(open))),
            SettingsMessage::SettingSaved(change, result) => {
                match result {
                    Ok(()) => crate::data::settings::set_settings(&mut self.setting_list, change),
                    Err(_) => {},
                }
                match change {
                    SettingChange::Theme(thm) => Task::Done(SettingsMessage::SetTheme(thm)),
                    _ => Task::Nothing,
                }
            },
        }
    }
}

/// A setting that was stored is what the screen then shows, and every other
/// setting stays; a setting that could not be stored changes nothing.
pub proof fn lemma_saved_setting_shown(s: SettingsView, change: SettingChange, r: Result<(), String>)
    ensures
        r is Ok ==> next_settings(s, SettingsMessage::SettingSaved(change, r)).setting_list == changed(s.setting_list, change),
        r is Err ==> next_settings(s, SettingsMessage::SettingSaved(change, r)) == s,
{
}

/// Loading settings makes the application show the stored theme and screen.
pub proof fn lemma_loaded_settings_apply(screen: AppScreen, theme: AppTheme, info: SettingsInfo, dir: String)
    ensures
        next_settings_screen(screen, SettingsMessage::SettingsLoaded(Ok(info), dir)) == info.screen,
        next_settings_theme(theme, SettingsMessage::SettingsLoaded(Ok(info), dir)) == info.theme,
{
}

} // verus!
