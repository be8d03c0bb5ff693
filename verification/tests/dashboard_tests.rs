use shelf::app::dashboard::group::{item_actions_shown, item_star_shown};
use shelf::app::dashboard::item_editor::{Dialog, ItemEditor};
use shelf::app::dashboard::ordering::sort_items_by_name;
use shelf::app::dashboard::{
    Dashboard, DashboardMessage, DashboardRequest, GroupInfo, ItemFilter, ItemInfo, ItemType,
};
use shelf::app::task::Task;
use shelf::components::status_bar::{accent_color, Accent, StatusMessage, StatusType};
use shelf::data::settings::{AppScreen, AppTheme};
use shelf::services::group::GroupRow;
use shelf::services::item::{ItemQuery, ItemRow};
use shelf::services::search::SearchRow;
use shelf::utils::datetime::DateTimeParts;

fn group(id: i32, name: &str) -> GroupInfo {
    GroupInfo { id, name: name.to_string(), description: format!("about {}", name), item_count: 0, hovered: false }
}

fn row(id: i32, name: &str, count: i32) -> GroupRow {
    GroupRow { id, name: name.to_string(), description: String::new(), item_count: count }
}

fn item_row(id: i32, item_type: &str, name: Option<&str>, used: Option<&str>) -> ItemRow {
    ItemRow {
        id,
        group_id: 1,
        item_type: item_type.to_string(),
        name: name.map(|n| n.to_string()),
        content: format!("content {}", id),
        description: format!("description {}", id),
        is_favourite: if id % 2 == 0 { 1 } else { 0 },
        last_used_at: used.map(|u| u.to_string()),
        created_at: "2024-01-01 00:00:00".to_string(),
    }
}

fn item(id: i32, item_type: ItemType, name: Option<&str>) -> ItemInfo {
    ItemInfo {
        id,
        item_type,
        name: name.map(|n| n.to_string()),
        content: format!("content {}", id),
        description: format!("description {}", id),
        is_favourite: false,
        last_used_at: None,
        tags: vec!["t".to_string()],
        hovered: false,
        highlighted: false,
        copied: false,
        description_open: false,
    }
}

fn step(d: &mut Dashboard, m: DashboardMessage) -> Task<DashboardMessage, DashboardRequest> {
    let mut screen = AppScreen::Dashboard;
    let mut theme = AppTheme::Dark;
    d.update(m, &mut screen, &mut theme)
}

#[test]
fn new_dashboard_starts_loading() {
    let (d, t) = Dashboard::new();
    assert!(matches!(t, Task::Done(DashboardMessage::LoadDashboard)));
    assert!(d.group_list.is_empty() && d.item_list.is_empty());
    assert_eq!((d.group_selected.id, d.group_selected.name.as_str()), (0, ""));
    assert_eq!(d.item_filter, ItemFilter { command: true, script: true, alphabetical: true });
    assert!(d.item_editor.is_none() && d.search_result.is_none());
    assert!(d.group_navigator_open && !d.group_description_open);
    assert_eq!(d.status_message.status, StatusType::Plain);
}

#[test]
fn loading_groups_selects_default_or_kept_group() {
    let (mut d, _) = Dashboard::new();
    assert!(matches!(step(&mut d, DashboardMessage::LoadDashboard), Task::Perform(DashboardRequest::LoadGroups)));
    let t = step(&mut d, DashboardMessage::SetGroupList(Ok(vec![row(-1, "Recent", 2), row(1, "Default", 4), row(3, "Work", 1)])));
    assert_eq!(d.group_list.len(), 3);
    assert_eq!(d.group_list[1].item_count, 4);
    match t {
        Task::Done(DashboardMessage::SetGroupSelected(g)) => assert_eq!((g.id, g.name.as_str()), (1, "Default")),
        other => panic!("unexpected {:?}", other),
    }
    // the selected group is kept when it is still listed
    d.group_selected = group(3, "Work");
    let t = step(&mut d, DashboardMessage::SetGroupList(Ok(vec![row(1, "Default", 4), row(3, "Work", 1)])));
    match t {
        Task::Done(DashboardMessage::SetGroupSelected(g)) => assert_eq!(g.id, 3),
        other => panic!("unexpected {:?}", other),
    }
    // a failed load empties the list and selects the blank group
    let t = step(&mut d, DashboardMessage::SetGroupList(Err("boom".to_string())));
    assert!(d.group_list.is_empty());
    match t {
        Task::Done(DashboardMessage::SetGroupSelected(g)) => assert_eq!((g.id, g.name.as_str()), (0, "")),
        other => panic!("unexpected {:?}", other),
    }
}

#[test]
fn find_selected_group_prefers_first_match_then_last_default() {
    let list = vec![group(1, "Default"), group(5, "A"), group(5, "B"), group(9, "Default")];
    assert_eq!(Dashboard::find_selected_group_or_default(&group(5, "x"), &list).name, "A");
    let g = Dashboard::find_selected_group_or_default(&group(7, "x"), &list);
    assert_eq!((g.id, g.name.as_str()), (9, "Default"));
    let g = Dashboard::find_selected_group_or_default(&group(7, "x"), &vec![group(2, "Other")]);
    assert_eq!((g.id, g.name.as_str()), (0, ""));
}

#[test]
fn selecting_a_group_loads_its_items() {
    let (mut d, _) = Dashboard::new();
    assert!(matches!(step(&mut d, DashboardMessage::SetGroupSelected(group(-2, "Favourites"))), Task::Done(DashboardMessage::LoadGroupSelected)));
    match step(&mut d, DashboardMessage::LoadGroupSelected) {
        Task::Perform(DashboardRequest::LoadItems(q)) => assert_eq!(q, ItemQuery::Favourites { commands: true, scripts: true }),
        other => panic!("unexpected {:?}", other),
    }
    let f = ItemFilter { command: false, script: true, alphabetical: false };
    assert!(matches!(step(&mut d, DashboardMessage::SetFilter(f)), Task::Done(DashboardMessage::LoadGroupSelected)));
    d.group_selected = group(4, "Work");
    match step(&mut d, DashboardMessage::LoadGroupSelected) {
        Task::Perform(DashboardRequest::LoadItems(q)) => assert_eq!(q, ItemQuery::Group { group_id: 4, commands: false, scripts: true }),
        other => panic!("unexpected {:?}", other),
    }
}

#[test]
fn loaded_items_are_converted_and_sorted() {
    let (mut d, _) = Dashboard::new();
    let rows = vec![
        (item_row(1, "script", Some("b"), Some("2024-01-02 03:04:05")), vec!["x".to_string()]),
        (item_row(2, "command", None, None), vec![]),
        (item_row(3, "script", Some("B"), Some("not a date")), vec![]),
        (item_row(4, "script", Some("a"), None), vec![]),
    ];
    step(&mut d, DashboardMessage::SetItemList(Ok(rows)));
    let ids: Vec<i32> = d.item_list.iter().map(|i| i.id).collect();
    assert_eq!(ids, vec![2, 3, 4, 1]);
    let first = &d.item_list[0];
    assert_eq!((first.item_type, first.is_favourite, first.name.clone()), (ItemType::Command, true, None));
    let last = &d.item_list[3];
    assert_eq!(last.item_type, ItemType::Script);
    assert_eq!(last.tags, vec!["x".to_string()]);
    assert_eq!(
        last.last_used_at,
        Some(DateTimeParts { year: 2024, month: 1, day: 2, hour: 3, minute: 4, second: 5, nanosecond: 0 })
    );
    assert_eq!(d.item_list[1].last_used_at, None);
    // without the alphabetical filter the loaded order stays
    d.item_filter.alphabetical = false;
    let rows = vec![(item_row(7, "script", Some("z"), None), vec![]), (item_row(8, "script", Some("a"), None), vec![])];
    step(&mut d, DashboardMessage::SetItemList(Ok(rows)));
    let ids: Vec<i32> = d.item_list.iter().map(|i| i.id).collect();
    assert_eq!(ids, vec![7, 8]);
    step(&mut d, DashboardMessage::SetItemList(Err("down".to_string())));
    assert!(d.item_list.is_empty());
}

#[test]
fn sorting_is_stable() {
    let mut v = vec![
        item(1, ItemType::Script, Some("b")),
        item(2, ItemType::Script, Some("a")),
        item(3, ItemType::Script, Some("b")),
        item(4, ItemType::Command, None),
        item(5, ItemType::Script, Some("ab")),
        item(6, ItemType::Script, Some("a")),
    ];
    sort_items_by_name(&mut v);
    let ids: Vec<i32> = v.iter().map(|i| i.id).collect();
    assert_eq!(ids, vec![4, 2, 6, 5, 1, 3]);
}

#[test]
fn toggles_undo_themselves() {
    let (mut d, _) = Dashboard::new();
    let mut screen = AppScreen::Dashboard;
    let mut theme = AppTheme::Dark;
    d.update(DashboardMessage::SetTheme, &mut screen, &mut theme);
    assert_eq!(theme, AppTheme::Light);
    d.update(DashboardMessage::SetTheme, &mut screen, &mut theme);
    assert_eq!(theme, AppTheme::Dark);
    d.update(DashboardMessage::SetScreen(AppScreen::Settings), &mut screen, &mut theme);
    assert_eq!(screen, AppScreen::Settings);
    step(&mut d, DashboardMessage::SetGroupNavigatoOpen);
    assert!(!d.group_navigator_open);
    step(&mut d, DashboardMessage::SetGroupNavigatoOpen);
    assert!(d.group_navigator_open);
    step(&mut d, DashboardMessage::SetGroupDescriptionOpen);
    assert!(d.group_description_open);
    d.group_list = vec![group(1, "Default"), group(2, "Work")];
    step(&mut d, DashboardMessage::SetGroupHovered(2));
    assert!(d.group_list[1].hovered && !d.group_list[0].hovered);
    step(&mut d, DashboardMessage::SetGroupHovered(2));
    assert!(!d.group_list[1].hovered);
    step(&mut d, DashboardMessage::SetGroupHovered(42));
    assert!(!d.group_list[0].hovered && !d.group_list[1].hovered);
}

#[test]
fn item_marks() {
    let (mut d, _) = Dashboard::new();
    d.item_list = vec![item(1, ItemType::Command, None), item(2, ItemType::Script, Some("s"))];
    // the toggled value is stored, and the flag follows only once it is saved
    match step(&mut d, DashboardMessage::SetItemFavourite(2)) {
        Task::Perform(DashboardRequest::SetFavourite { id, favourite }) => assert_eq!((id, favourite), (2, true)),
        other => panic!("unexpected {:?}", other),
    }
    assert!(!d.item_list[1].is_favourite);
    assert!(matches!(step(&mut d, DashboardMessage::ItemFavouriteSaved(2, true, Err("locked".to_string()))), Task::Nothing));
    assert!(!d.item_list[1].is_favourite);
    assert!(matches!(step(&mut d, DashboardMessage::ItemFavouriteSaved(2, true, Ok(()))), Task::Nothing));
    assert!(d.item_list[1].is_favourite && !d.item_list[0].is_favourite);
    match step(&mut d, DashboardMessage::SetItemFavourite(2)) {
        Task::Perform(DashboardRequest::SetFavourite { id, favourite }) => assert_eq!((id, favourite), (2, false)),
        other => panic!("unexpected {:?}", other),
    }
    step(&mut d, DashboardMessage::ItemFavouriteSaved(2, false, Ok(())));
    assert!(!d.item_list[1].is_favourite);
    assert!(matches!(step(&mut d, DashboardMessage::SetItemFavourite(99)), Task::Nothing));
    step(&mut d, DashboardMessage::HighlightItem(1));
    assert!(d.item_list[0].highlighted);
    // the copy mark is set once the clipboard was written
    match step(&mut d, DashboardMessage::CopyItemContent(1)) {
        Task::Perform(DashboardRequest::WriteClipboard { id, content }) => assert_eq!((id, content.as_str()), (1, "content 1")),
        other => panic!("unexpected {:?}", other),
    }
    assert!(!d.item_list[0].copied);
    assert!(matches!(step(&mut d, DashboardMessage::CopyItemContent(99)), Task::Nothing));
    assert!(matches!(step(&mut d, DashboardMessage::ItemCopied(1)), Task::Done(DashboardMessage::SetItemUsed(1))));
    assert!(d.item_list[0].copied && !d.item_list[1].copied);
    step(&mut d, DashboardMessage::SetItemHovered(1));
    assert!(d.item_list[0].hovered && !d.item_list[0].highlighted && !d.item_list[0].copied);
    assert!(matches!(step(&mut d, DashboardMessage::SetItemUsed(1)), Task::Perform(DashboardRequest::MarkUsed(1))));
}

#[test]
fn item_card_controls() {
    let mut it = item(1, ItemType::Command, None);
    assert!(!item_star_shown(&it) && !item_actions_shown(&it));
    it.hovered = true;
    assert!(item_star_shown(&it) && item_actions_shown(&it));
    it.hovered = false;
    it.is_favourite = true;
    assert!(item_star_shown(&it) && !item_actions_shown(&it));
}

#[test]
fn search_flow() {
    let (mut d, _) = Dashboard::new();
    assert!(matches!(step(&mut d, DashboardMessage::Search), Task::Nothing));
    step(&mut d, DashboardMessage::SetSearchQuery(Some("git".to_string())));
    match step(&mut d, DashboardMessage::Search) {
        Task::Perform(DashboardRequest::Search { query, limit }) => assert_eq!((query.as_str(), limit), ("git", 50)),
        other => panic!("unexpected {:?}", other),
    }
    let rows = vec![
        SearchRow { id: 1, name: None, content: "git log --oneline --graph --decorate --all".to_string(), item_type: "command".to_string(), group_id: 1, group_name: "Default".to_string() },
        SearchRow { id: 2, name: None, content: "x".to_string(), item_type: "script".to_string(), group_id: 3, group_name: "A very long group name indeed".to_string() },
        SearchRow { id: 3, name: Some("deploy".to_string()), content: "x".to_string(), item_type: "script".to_string(), group_id: 3, group_name: "Ops".to_string() },
    ];
    step(&mut d, DashboardMessage::SetSearchResult(Ok(rows)));
    let r = d.search_result.as_ref().unwrap();
    assert_eq!(r[0].name, "git log --oneline --graph -...");
    assert_eq!(r[1].name, "Unknown");
    assert_eq!(r[1].group_name, "A very long group...");
    assert_eq!(r[2].name, "deploy");
    step(&mut d, DashboardMessage::SetSearchResult(Err("x".to_string())));
    assert!(d.search_result.is_some());
    step(&mut d, DashboardMessage::ClearSearchResult);
    assert!(d.search_result.is_none());
    step(&mut d, DashboardMessage::SetSearchQuery(None));
    assert_eq!(d.search_query, "");
}

#[test]
fn scroll_to_search_result() {
    let (mut d, _) = Dashboard::new();
    assert_eq!(d.pending_highlight, None);
    assert!(matches!(step(&mut d, DashboardMessage::ScrollToSearchResult(5, 3)), Task::Nothing));
    assert_eq!(d.pending_highlight, None);
    d.group_list = vec![group(1, "Default"), group(3, "Ops")];
    match step(&mut d, DashboardMessage::ScrollToSearchResult(5, 3)) {
        Task::Chain(v) => {
            assert_eq!(v.len(), 3);
            assert!(matches!(&v[0], DashboardMessage::SetGroupSelected(g) if g.id == 3));
            assert!(matches!(&v[1], DashboardMessage::ClearSearchResult));
            match &v[2] {
                DashboardMessage::SetStatusMessage(m) => {
                    assert_eq!(m.message.as_deref(), Some("Scroll to search result is not implemented"));
                    assert_eq!(m.status, StatusType::Warn);
                },
                other => panic!("unexpected {:?}", other),
            }
        },
        other => panic!("unexpected {:?}", other),
    }
    assert_eq!(d.pending_highlight, Some(5));
    // the highlight comes once the group's items are loaded, and only once
    let rows = vec![(item_row(5, "command", None, None), vec![])];
    assert!(matches!(step(&mut d, DashboardMessage::SetItemList(Ok(rows))), Task::Done(DashboardMessage::HighlightItem(5))));
    assert_eq!(d.pending_highlight, None);
    step(&mut d, DashboardMessage::HighlightItem(5));
    assert!(d.item_list[0].highlighted);
    assert!(matches!(step(&mut d, DashboardMessage::SetItemList(Ok(vec![]))), Task::Nothing));
}

#[test]
fn run_command_warns() {
    let (mut d, _) = Dashboard::new();
    match step(&mut d, DashboardMessage::RunCommand("ls".to_string())) {
        Task::Done(DashboardMessage::SetStatusMessage(m)) => {
            assert_eq!(m.message.as_deref(), Some("Cannot run command (Feature not implemented)"));
            assert_eq!(m.status, StatusType::Warn);
        },
        other => panic!("unexpected {:?}", other),
    }
    step(&mut d, DashboardMessage::SetStatusMessage(StatusMessage::new(Some("ok".to_string()), StatusType::Success)));
    assert_eq!(d.status_message.message.as_deref(), Some("ok"));
    assert!(matches!(step(&mut d, DashboardMessage::Nothing), Task::Nothing));
}

#[test]
fn editor_dialogs() {
    let (mut d, _) = Dashboard::new();
    step(&mut d, DashboardMessage::OpenNewGroupBox);
    let e = d.item_editor.as_ref().unwrap();
    assert_eq!((e.dialog, e.name.as_deref(), e.description.as_deref(), e.tags.is_none()), (Dialog::NewGroup, Some(""), Some(""), true));
    step(&mut d, DashboardMessage::OpenEditGroupBox(group(4, "Work")));
    let e = d.item_editor.as_ref().unwrap();
    assert_eq!((e.dialog, e.id, e.name.as_deref(), e.description.as_deref()), (Dialog::EditGroup, Some(4), Some("Work"), Some("about Work")));
    step(&mut d, DashboardMessage::OpenDeleteGroupBox(group(4, "Work")));
    let e = d.item_editor.as_ref().unwrap();
    assert_eq!((e.dialog, e.id, e.description.is_none()), (Dialog::DeleteGroup, Some(4), true));
    step(&mut d, DashboardMessage::OpenNewItemBox(ItemType::Command));
    let e = d.item_editor.as_ref().unwrap();
    assert_eq!((e.dialog, e.name.is_none(), e.tag.as_deref()), (Dialog::NewCommand, true, Some("")));
    step(&mut d, DashboardMessage::OpenNewItemBox(ItemType::Script));
    assert_eq!(d.item_editor.as_ref().unwrap().name.as_deref(), Some(""));
    step(&mut d, DashboardMessage::OpenEditItemBox(item(8, ItemType::Script, None)));
    let e = d.item_editor.as_ref().unwrap();
    assert_eq!((e.dialog, e.id, e.name.as_deref(), e.content.as_deref()), (Dialog::EditScript, Some(8), Some(""), Some("content 8")));
    step(&mut d, DashboardMessage::OpenDeleteItemBox(item(8, ItemType::Command, None)));
    let e = d.item_editor.as_ref().unwrap();
    assert_eq!((e.dialog, e.name.as_deref()), (Dialog::DeleteCommand, Some("content 8")));
    step(&mut d, DashboardMessage::CloseItemEditor);
    assert!(d.item_editor.is_none());
}

#[test]
fn editor_fields_and_tags() {
    let (mut d, _) = Dashboard::new();
    step(&mut d, DashboardMessage::OpenNewItemBox(ItemType::Command));
    // a command dialog has no name field: the name stays none
    step(&mut d, DashboardMessage::SetItemEditorName("n".to_string()));
    assert!(d.item_editor.as_ref().unwrap().name.is_none());
    step(&mut d, DashboardMessage::SetItemEditorContent("ls -la".to_string()));
    step(&mut d, DashboardMessage::SetItemEditorDescription("lists".to_string()));
    step(&mut d, DashboardMessage::SetItemEditorTag("fs".to_string()));
    step(&mut d, DashboardMessage::AddToItemEditorTags);
    step(&mut d, DashboardMessage::SetItemEditorTag("unix".to_string()));
    step(&mut d, DashboardMessage::AddToItemEditorTags);
    let e = d.item_editor.as_ref().unwrap();
    assert_eq!(e.tags.clone().unwrap(), vec!["fs".to_string(), "unix".to_string()]);
    assert_eq!(e.tag.as_deref(), Some(""));
    step(&mut d, DashboardMessage::RemoveFromItemEditorTags(0));
    assert_eq!(d.item_editor.as_ref().unwrap().tags.clone().unwrap(), vec!["unix".to_string()]);
    step(&mut d, DashboardMessage::SetItemEditorError("bad".to_string()));
    assert_eq!(d.item_editor.as_ref().unwrap().error.as_deref(), Some("bad"));
    d.group_selected = group(6, "Work");
    match step(&mut d, DashboardMessage::SubmitItemForm) {
        Task::Perform(DashboardRequest::CreateItem { group_id, item_type, name, content, description, tags }) => {
            assert_eq!((group_id, item_type.as_str(), name, content.as_str(), description.as_str()), (6, "command", None, "ls -la", "lists"));
            assert_eq!(tags, vec!["unix".to_string()]);
        },
        other => panic!("unexpected {:?}", other),
    }
}

#[test]
fn submitting_each_dialog() {
    let (mut d, _) = Dashboard::new();
    assert!(matches!(step(&mut d, DashboardMessage::SubmitItemForm), Task::Nothing));
    step(&mut d, DashboardMessage::OpenNewGroupBox);
    step(&mut d, DashboardMessage::SetItemEditorName("Tools".to_string()));
    match step(&mut d, DashboardMessage::SubmitItemForm) {
        Task::Perform(DashboardRequest::CreateGroup { name, description }) => assert_eq!((name.as_str(), description.as_str()), ("Tools", "")),
        other => panic!("unexpected {:?}", other),
    }
    step(&mut d, DashboardMessage::OpenEditGroupBox(group(4, "Work")));
    assert!(matches!(step(&mut d, DashboardMessage::SubmitItemForm), Task::Perform(DashboardRequest::UpdateGroup { id: 4, .. })));
    step(&mut d, DashboardMessage::OpenDeleteGroupBox(group(4, "Work")));
    assert!(matches!(step(&mut d, DashboardMessage::SubmitItemForm), Task::Perform(DashboardRequest::DeleteGroup(4))));
    step(&mut d, DashboardMessage::OpenEditItemBox(item(9, ItemType::Script, Some("deploy"))));
    match step(&mut d, DashboardMessage::SubmitItemForm) {
        Task::Perform(DashboardRequest::UpdateItem { id, item_type, name, .. }) => {
            assert_eq!((id, item_type.as_str(), name.as_deref()), (9, "script", Some("deploy")))
        },
        other => panic!("unexpected {:?}", other),
    }
    step(&mut d, DashboardMessage::OpenDeleteItemBox(item(9, ItemType::Script, Some("deploy"))));
    assert!(matches!(step(&mut d, DashboardMessage::SubmitItemForm), Task::Perform(DashboardRequest::DeleteItem(9))));
    // a dialog without an id submits id 0
    d.item_editor = Some(ItemEditor { dialog: Dialog::DeleteCommand, ..ItemEditor::default() });
    assert!(matches!(step(&mut d, DashboardMessage::SubmitItemForm), Task::Perform(DashboardRequest::DeleteItem(0))));
}

#[test]
fn editor_outcomes() {
    let (mut d, _) = Dashboard::new();
    assert!(matches!(step(&mut d, DashboardMessage::ItemEditorDone(Ok(()))), Task::Nothing));
    step(&mut d, DashboardMessage::OpenNewGroupBox);
    match step(&mut d, DashboardMessage::ItemEditorDone(Ok(()))) {
        Task::Chain(v) => {
            assert!(matches!(v.as_slice(), [DashboardMessage::CloseItemEditor, DashboardMessage::LoadDashboard]))
        },
        other => panic!("unexpected {:?}", other),
    }
    step(&mut d, DashboardMessage::OpenNewItemBox(ItemType::Script));
    match step(&mut d, DashboardMessage::ItemEditorDone(Ok(()))) {
        Task::Chain(v) => {
            assert!(matches!(v.as_slice(), [DashboardMessage::CloseItemEditor, DashboardMessage::LoadGroupSelected]))
        },
        other => panic!("unexpected {:?}", other),
    }
    match step(&mut d, DashboardMessage::ItemEditorDone(Err("Name is required".to_string()))) {
        Task::Done(DashboardMessage::SetItemEditorError(e)) => assert_eq!(e, "Name is required"),
        other => panic!("unexpected {:?}", other),
    }
}

#[test]
fn accents() {
    assert_eq!(accent_color(&StatusType::Success), Accent::Success);
    assert_eq!(accent_color(&StatusType::Warn), Accent::Warning);
    assert_eq!(accent_color(&StatusType::Error), Accent::Danger);
    assert_eq!(accent_color(&StatusType::Plain), Accent::Primary);
    assert_eq!(Dashboard::accent_color(&Dialog::NewScript), Accent::Success);
    assert_eq!(Dashboard::accent_color(&Dialog::EditGroup), Accent::Primary);
    assert_eq!(Dashboard::accent_color(&Dialog::DeleteCommand), Accent::Danger);
}

#[test]
fn group_rows_convert() {
    let out = Dashboard::group_row_to_group_info(vec![row(3, "Work", 7)]);
    assert_eq!((out[0].id, out[0].name.as_str(), out[0].item_count, out[0].hovered), (3, "Work", 7, false));
}
