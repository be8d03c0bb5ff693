use shelf::app::dashboard::status_bar::{StatusBar, StatusBarMessage};
use shelf::app::settings::{Settings, SettingsMessage, SettingsRequest};
use shelf::app::task::Task;
use shelf::components::status_bar::StatusType;
use shelf::data::settings::{
    get_settings, set_settings, settings_from_disk, text_scale_percent, AppScreen, AppTheme, RunMode,
    SettingChange, SettingsFileAction, SettingsInfo, ShellKind, StoredSettings, TerminalKind, TextSize,
};
use shelf::ui::dashboard::groups::Groups;
use shelf::ui::dashboard::group::Group;
use shelf::ui::dashboard::navbar::Navbar;
use shelf::ui::dashboard::scripts::Scripts;

fn defaults() -> SettingsInfo {
    SettingsInfo {
        theme: AppTheme::Dark,
        screen: AppScreen::Home,
        text_size: TextSize::Normal,
        shell: ShellKind::Bash,
        terminal: TerminalKind::Gnome,
        run_mode: RunMode::NewWindow,
        keep_open: true,
    }
}

#[test]
fn default_settings() {
    assert_eq!(SettingsInfo::default(), defaults());
    assert_eq!(AppTheme::default(), AppTheme::Dark);
    assert_eq!(TextSize::default(), TextSize::Normal);
}

#[test]
fn setting_then_getting() {
    let mut cache = SettingsInfo::default();
    set_settings(&mut cache, SettingChange::Terminal(TerminalKind::Kitty));
    assert_eq!(get_settings(&cache).terminal, TerminalKind::Kitty);
    assert_eq!(SettingsInfo { terminal: TerminalKind::Gnome, ..cache }, defaults());
    set_settings(&mut cache, SettingChange::KeepOpen(false));
    set_settings(&mut cache, SettingChange::KeepOpen(false));
    assert!(!cache.keep_open);
}

#[test]
fn settings_file_outcomes() {
    let mut stored = defaults();
    stored.theme = AppTheme::Light;
    assert_eq!(settings_from_disk(StoredSettings::Parsed(stored)), (stored, SettingsFileAction::Keep));
    assert_eq!(settings_from_disk(StoredSettings::Missing), (defaults(), SettingsFileAction::WriteDefault));
    assert_eq!(settings_from_disk(StoredSettings::Unreadable), (defaults(), SettingsFileAction::WriteDefault));
    assert_eq!(settings_from_disk(StoredSettings::Malformed), (defaults(), SettingsFileAction::BackupAndWriteDefault));
}

#[test]
fn text_scales() {
    assert_eq!(text_scale_percent(TextSize::Small), 85);
    assert_eq!(text_scale_percent(TextSize::Normal), 100);
    assert_eq!(text_scale_percent(TextSize::Large), 115);
}

#[test]
fn settings_screen_flow() {
    let (mut s, t) = Settings::new();
    assert!(matches!(t, Task::Done(SettingsMessage::LoadSettings)));
    assert_eq!((s.setting_list, s.data_dir.as_str(), s.version.as_str()), (defaults(), "", ""));
    let mut screen = AppScreen::Home;
    let mut theme = AppTheme::Dark;
    assert!(matches!(s.update(SettingsMessage::LoadSettings, &mut screen, &mut theme), Task::Perform(SettingsRequest::Load)));
    let mut stored = defaults();
    stored.theme = AppTheme::Light;
    stored.screen = AppScreen::Dashboard;
    s.update(SettingsMessage::SettingsLoaded(Ok(stored), "/home/u/.shelf".to_string()), &mut screen, &mut theme);
    assert_eq!((theme, screen), (AppTheme::Light, AppScreen::Dashboard));
    assert_eq!((s.data_dir.as_str(), s.version.as_str()), ("/home/u/.shelf", "Version 0.1.0"));
    // a failed load changes nothing
    s.update(SettingsMessage::SettingsLoaded(Err("x".to_string()), String::new()), &mut screen, &mut theme);
    assert_eq!(s.data_dir, "/home/u/.shelf");
    match s.update(SettingsMessage::OpenDataDir, &mut screen, &mut theme) {
        Task::Perform(SettingsRequest::OpenDataDir(d)) => assert_eq!(d, "/home/u/.shelf"),
        other => panic!("unexpected {:?}", other),
    }
    match s.update(SettingsMessage::DataDirOpened(Err("no xdg-open".to_string())), &mut screen, &mut theme) {
        Task::Done(SettingsMessage::SetStatusMessage(m)) => {
            assert_eq!((m.message.as_deref(), m.status), (Some("no xdg-open"), StatusType::Error))
        },
        other => panic!("unexpected {:?}", other),
    }
    assert!(matches!(s.update(SettingsMessage::DataDirOpened(Ok(())), &mut screen, &mut theme), Task::Nothing));
    // changing a setting stores it first, then shows it
    match s.update(SettingsMessage::SetTextSize(TextSize::Large), &mut screen, &mut theme) {
        Task::Perform(SettingsRequest::SaveSetting(c)) => assert_eq!(c, SettingChange::TextSize(TextSize::Large)),
        other => panic!("unexpected {:?}", other),
    }
    assert_eq!(s.setting_list.text_size, TextSize::Normal);
    s.update(SettingsMessage::SettingSaved(SettingChange::TextSize(TextSize::Large), Ok(())), &mut screen, &mut theme);
    assert_eq!(s.setting_list.text_size, TextSize::Large);
    s.update(SettingsMessage::SettingSaved(SettingChange::RunMode(RunMode::ReuseSession), Err("disk".to_string())), &mut screen, &mut theme);
    assert_eq!(s.setting_list.run_mode, RunMode::NewWindow);
    // the theme follows a theme setting whether or not it was stored
    assert!(matches!(
        s.update(SettingsMessage::SettingSaved(SettingChange::Theme(AppTheme::Dark), Err("disk".to_string())), &mut screen, &mut theme),
        Task::Done(SettingsMessage::SetTheme(AppTheme::Dark))
    ));
    s.update(SettingsMessage::SetTheme(AppTheme::Dark), &mut screen, &mut theme);
    assert_eq!(theme, AppTheme::Dark);
    s.update(SettingsMessage::SetScreen(AppScreen::Settings), &mut screen, &mut theme);
    assert_eq!(screen, AppScreen::Settings);
}

#[test]
fn status_bar_does_nothing() {
    let (mut bar, t) = StatusBar::new();
    assert!(matches!(t, Task::Nothing));
    assert!(matches!(bar.update(StatusBarMessage {}), Task::Nothing));
}

#[test]
fn first_layout_placeholders() {
    let n = Navbar::new();
    assert_eq!(n.search_query, "");
    assert_eq!(n.search(), vec!["temp".to_string()]);
    let g = Group::new();
    assert_eq!((g.group_id.as_str(), g.group_name.as_str(), g.command_list.len()), ("tempIdr34t4", "tempgroup", 2));
    assert_eq!(g.command_list[1].command_description, "tempCommandDescription");
    let gs = Groups::new();
    assert!(gs.search_results.is_empty());
    assert_eq!(Scripts::new(), Scripts {});
    assert_eq!(shelf::ui::home::Home::new(), shelf::ui::home::Home {});
    let mut h = shelf::screens::home::Home::new();
    h.update(&shelf::screens::home::HomeMessage::GotoDashboard);
    assert_eq!(h, shelf::screens::home::Home {});
    let mut h2 = shelf::ui::home::screen::Home::new();
    h2.update(shelf::ui::home::screen::HomeMessage::GotoDashboard);
    assert_eq!(shelf::ui::home::home::Home::new(), shelf::ui::home::home::Home {});
}
