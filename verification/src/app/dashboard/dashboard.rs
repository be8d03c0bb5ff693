use vstd::prelude::*;
use vstd::string::*;
use crate::app::dashboard::{
    clone_strings, blank_group, Dashboard, DashboardMessage, DashboardRequest, DashboardView,
    GroupInfo, GroupInfoView, ItemFilter, ItemInfo, ItemInfoView, ItemType,
};
use crate::app::dashboard::item_editor::{blank_editor, Dialog, ItemEditor, ItemEditorView};
use crate::app::dashboard::ordering::{sort_items_by_name, sorted_by_name};
use crate::app::dashboard::search_result::{SearchResult, SearchResultView};
use crate::app::task::Task;
use crate::components::status_bar::{clone_opt_string, no_status, StatusMessage, StatusMessageView, StatusType};
use crate::data::settings::{AppScreen, AppTheme};
use crate::services::group::{GroupRow, GroupRowView};
use crate::services::item::{item_query, items_of, ItemRow, ItemRowView};
use crate::services::search::{SearchRow, SearchRowView};
use crate::utils::datetime::{parse_date_time, parsed_date_time, DateTimeParts};
use crate::utils::formatting::{clamp_name, clamped};
use crate::utils::text::same_text;

verus! {

/// A stored group as the dashboard shows it, not hovered. A negative item
/// count is converted as `as usize` converts it.
pub open spec fn group_info_of(g: GroupRowView) -> GroupInfoView {
    GroupInfoView {
        id: g.id,
        name: g.name,
        description: g.description,
        item_count: g.item_count as usize,
        hovered: false,
    }
}

/// The format in which the database writes when an item was last used.
pub open spec fn used_at_format() -> Seq<char> {
    "%Y-%m-%d %H:%M:%S"@
}

/// A stored item with its tags as the dashboard shows it: of type command
/// where the stored type is "command" and script otherwise, a favourite
/// where the stored flag is not 0, with the given time of last use, and
/// neither hovered, highlighted, copied nor with its description open.
pub open spec fn item_info_with(row: ItemRowView, tags: Seq<Seq<char>>, last_used_at: Option<DateTimeParts>) -> ItemInfoView {
    ItemInfoView {
        id: row.id,
        item_type: if row.item_type == "command"@ { ItemType::Command } else { ItemType::Script },
        name: row.name,
        content: row.content,
        description: row.description,
        is_favourite: row.is_favourite != 0,
        last_used_at,
        tags,
        hovered: false,
        highlighted: false,
        copied: false,
        description_open: false,
    }
}

/// A stored item with its tags as the dashboard shows it; the time of last
/// use is what chrono parses from the stored text, none where there is none.
pub open spec fn item_info_of(row: ItemRowView, tags: Seq<Seq<char>>) -> ItemInfoView {
    item_info_with(
        row,
        tags,
        match row.last_used_at {
            Some(s) => parsed_date_time(s, used_at_format()),
            None => None,
        },
    )
}

/// A search row as the result list shows it: a command under its content and
/// a script under its name ("Unknown" where it has none), both clamped to 30
/// characters, and the group's name clamped to 20.
pub open spec fn search_result_of(r: SearchRowView) -> SearchResultView {
    SearchResultView {
        id: r.id,
        name: if r.item_type == "command"@ {
            clamped(r.content, 30)
        } else {
            match r.name {
                Some(n) => clamped(n, 30),
                None => "Unknown"@,
            }
        },
        item_type: r.item_type,
        group_id: r.group_id,
        group_name: clamped(r.group_name, 20),
    }
}

/// `i` is the first index of a group with the given id.
pub open spec fn is_first_group(list: Seq<GroupInfoView>, id: i32, i: int) -> bool {
    &&& 0 <= i < list.len()
    &&& list[i].id == id
    &&& forall|k: int| 0 <= k < i ==> list[k].id != id
}

/// `i` is the last index of a group named "Default".
pub open spec fn is_last_default(list: Seq<GroupInfoView>, i: int) -> bool {
    &&& 0 <= i < list.len()
    &&& list[i].name == "Default"@
    &&& forall|k: int| i < k < list.len() ==> list[k].name != "Default"@
}

/// The group to select once the groups are known: the first group with the
/// id of the selected one; where there is none, the last group named
/// "Default"; where there is none either, the blank group.
pub open spec fn selected_or_default(selected: GroupInfoView, list: Seq<GroupInfoView>) -> GroupInfoView {
    if exists|i: int| is_first_group(list, selected.id, i) {
        list[choose|i: int| is_first_group(list, selected.id, i)]
    } else if exists|i: int| is_last_default(list, i) {
        list[choose|i: int| is_last_default(list, i)]
    } else {
        blank_group()
    }
}

/// The index of the first group with the given id, if any.
pub open spec fn group_index(list: Seq<GroupInfoView>, id: i32) -> Option<int> {
    if exists|i: int| is_first_group(list, id, i) {
        Some(choose|i: int| is_first_group(list, id, i))
    } else {
        None
    }
}

/// `i` is the first index of an item with the given id.
pub open spec fn is_first_item(list: Seq<ItemInfoView>, id: i32, i: int) -> bool {
    &&& 0 <= i < list.len()
    &&& list[i].id == id
    &&& forall|k: int| 0 <= k < i ==> list[k].id != id
}

/// The index of the first item with the given id, if any.
pub open spec fn item_index(list: Seq<ItemInfoView>, id: i32) -> Option<int> {
    if exists|i: int| is_first_item(list, id, i) {
        Some(choose|i: int| is_first_item(list, id, i))
    } else {
        None
    }
}

proof fn lemma_first_group_unique(list: Seq<GroupInfoView>, id: i32, i: int, j: int)
    requires
        is_first_group(list, id, i),
        is_first_group(list, id, j),
    ensures
        i == j,
{
}

proof fn lemma_first_item_unique(list: Seq<ItemInfoView>, id: i32, i: int, j: int)
    requires
        is_first_item(list, id, i),
        is_first_item(list, id, j),
    ensures
        i == j,
{
}

proof fn lemma_last_default_unique(list: Seq<GroupInfoView>, i: int, j: int)
    requires
        is_last_default(list, i),
        is_last_default(list, j),
    ensures
        i == j,
{
}

impl Dashboard {
    /// Converts stored groups into the groups that the dashboard shows.
    pub fn group_row_to_group_info(groups: Vec<GroupRow>) -> (r: Vec<GroupInfo>)
        ensures
            r.deep_view() == groups.deep_view().map_values(|g: GroupRowView| group_info_of(g)),
    {
        let mut out: Vec<GroupInfo> = Vec::new();
        let mut i: usize = 0;
        while i < groups.len()
            invariant
                i <= groups.len(),
                out.deep_view() == groups.deep_view().subrange(0, i as int).map_values(
                    |g: GroupRowView| group_info_of(g),
                ),
            decreases groups.len() - i,
        {
            let g = &groups[i];
            let info = GroupInfo {
                id: g.id,
                name: g.name.clone(),
                description: g.description.clone(),
                item_count: g.item_count as usize,
                hovered: false,
            };
            let ghost before = out.deep_view();
            out.push(info);
            proof {
                assert(out.deep_view() =~= before.push(group_info_of(groups.deep_view()[i as int])));
                assert(out.deep_view() =~= groups.deep_view().subrange(0, i + 1).map_values(
                    |g: GroupRowView| group_info_of(g),
                ));
            }
            i = i + 1;
        }
        assert(groups.deep_view().subrange(0, i as int) =~= groups.deep_view());
        out
    }

    /// Chooses the group to select once the groups are known.
    pub fn find_selected_group_or_default(group_selected: &GroupInfo, group_list: &Vec<GroupInfo>) -> (r: GroupInfo)
        ensures
            r@ == selected_or_default(group_selected@, group_list.deep_view()),
    {
        let ghost list = group_list.deep_view();
        let mut group_found: GroupInfo = GroupInfo::default();
        let mut found_default: Option<usize> = None;
        let mut i: usize = 0;
        while i < group_list.len()
            invariant
                i <= group_list.len(),
                list == group_list.deep_view(),
                forall|k: int| 0 <= k < i ==> list[k].id != group_selected.id,
                match found_default {
                    Some(d) => d < i && group_found@ == list[d as int] && list[d as int].name == "Default"@
                        && forall|k: int| d < k < i ==> list[k].name != "Default"@,
                    None => group_found@ == blank_group() && forall|k: int| 0 <= k < i ==> list[k].name != "Default"@,
                },
            decreases group_list.len() - i,
        {
            let group = &group_list[i];
            assert(group@ == list[i as int]);
            if group.id == group_selected.id {
                let r = group.clone();
                proof {
                    assert(r@ == list[i as int]);
                    assert(is_first_group(list, group_selected@.id, i as int));
                    assert(exists|c: int| is_first_group(list, group_selected@.id, c));
                    let c = choose|c: int| is_first_group(list, group_selected.id, c);
                    lemma_first_group_unique(list, group_selected.id, i as int, c);
                }
                return r;
            } else if same_text(group.name.as_str(), "Default") {
                group_found = group.clone();
                found_default = Some(i);
            }
            i = i + 1;
        }
        proof {
            assert(!exists|c: int| is_first_group(list, group_selected.id, c));
            match found_default {
                Some(d) => {
                    assert(is_last_default(list, d as int));
                    let c = choose|c: int| is_last_default(list, c);
                    lemma_last_default_unique(list, d as int, c);
                },
                None => {
                    assert(!exists|c: int| is_last_default(list, c));
                },
            }
        }
        group_found
    }

    /// The index of the first group with the given id.
    pub fn find_group(&self, id: i32) -> (r: Option<usize>)
        ensures
            match group_index(self@.group_list, id) {
                Some(i) => r == Some(i as usize),
                None => r is None,
            },
            r matches Some(i) ==> i < self.group_list.len() && is_first_group(self@.group_list, id, i as int),
    {
        let ghost list = self@.group_list;
        let mut i: usize = 0;
        while i < self.group_list.len()
            invariant
                i <= self.group_list.len(),
                list == self@.group_list,
                forall|k: int| 0 <= k < i ==> list[k].id != id,
            decreases self.group_list.len() - i,
        {
            if self.group_list[i].id == id {
                proof {
                    assert(list[i as int].id == id);
                    assert(is_first_group(list, id, i as int));
                    let c = choose|c: int| is_first_group(list, id, c);
                    lemma_first_group_unique(list, id, i as int, c);
                }
                return Some(i);
            }
            i = i + 1;
        }
        None
    }

    /// The index of the first item with the given id.
    pub fn find_item(&self, id: i32) -> (r: Option<usize>)
        ensures
            match item_index(self@.item_list, id) {
                Some(i) => r == Some(i as usize),
                None => r is None,
            },
            r matches Some(i) ==> i < self.item_list.len() && is_first_item(self@.item_list, id, i as int),
    {
        let ghost list = self@.item_list;
        let mut i: usize = 0;
        while i < self.item_list.len()
            invariant
                i <= self.item_list.len(),
                list == self@.item_list,
                forall|k: int| 0 <= k < i ==> list[k].id != id,
            decreases self.item_list.len() - i,
        {
            if self.item_list[i].id == id {
                proof {
                    assert(list[i as int].id == id);
                    assert(is_first_item(list, id, i as int));
                    let c = choose|c: int| is_first_item(list, id, c);
                    lemma_first_item_unique(list, id, i as int, c);
                }
                return Some(i);
            }
            i = i + 1;
        }
        None
    }

    /// An item as the dashboard shows it, from its stored row, its tags and
    /// the time of its last use.
    pub fn item_info_from_row(row: &ItemRow, tags: &Vec<String>, last_used_at: Option<DateTimeParts>) -> (r: ItemInfo)
        ensures
            r@ == item_info_with(row@, tags.deep_view(), last_used_at),
    {
        ItemInfo {
            id: row.id,
            item_type: if same_text(row.item_type.as_str(), "command") {
                ItemType::Command
            } else {
                ItemType::Script
            },
            name: clone_opt_string(&row.name),
            content: row.content.clone(),
            description: row.description.clone(),
            is_favourite: row.is_favourite != 0,
            last_used_at,
            tags: clone_strings(tags),
            hovered: false,
            highlighted: false,
            copied: false,
            description_open: false,
        }
    }

    /// Converts stored items with their tags into the items that the
    /// dashboard shows.
    pub fn item_row_to_item_info(items: Vec<(ItemRow, Vec<String>)>) -> (r: Vec<ItemInfo>)
        ensures
            r.deep_view() == items.deep_view().map_values(
                |p: (ItemRowView, Seq<Seq<char>>)| item_info_of(p.0, p.1),
            ),
    {
        let mut out: Vec<ItemInfo> = Vec::new();
        let mut i: usize = 0;
        while i < items.len()
            invariant
                i <= items.len(),
                out.deep_view() == items.deep_view().subrange(0, i as int).map_values(
                    |p: (ItemRowView, Seq<Seq<char>>)| item_info_of(p.0, p.1),
                ),
            decreases items.len() - i,
        {
            let (row, tags) = &items[i];
            let last_used_at = match &row.last_used_at {
                Some(s) => parse_date_time(s.as_str(), "%Y-%m-%d %H:%M:%S"),
                None => None,
            };
            let info = Self::item_info_from_row(row, tags, last_used_at);
            let ghost before = out.deep_view();
            out.push(info);
            proof {
                assert(items.deep_view()[i as int] == (row@, tags.deep_view()));
                assert(out.deep_view() =~= before.push(
                    item_info_of(items.deep_view()[i as int].0, items.deep_view()[i as int].1),
                ));
                assert(out.deep_view() =~= items.deep_view().subrange(0, i + 1).map_values(
                    |p: (ItemRowView, Seq<Seq<char>>)| item_info_of(p.0, p.1),
                ));
            }
            i = i + 1;
        }
        assert(items.deep_view().subrange(0, i as int) =~= items.deep_view());
        out
    }

    /// Converts search rows into the results that the result list shows.
    pub fn search_row_to_search_result(result: Vec<SearchRow>) -> (r: Vec<SearchResult>)
        ensures
            r.deep_view() == result.deep_view().map_values(|s: SearchRowView| search_result_of(s)),
    {
        let mut out: Vec<SearchResult> = Vec::new();
        let mut i: usize = 0;
        while i < result.len()
            invariant
                i <= result.len(),
                out.deep_view() == result.deep_view().subrange(0, i as int).map_values(
                    |s: SearchRowView| search_result_of(s),
                ),
            decreases result.len() - i,
        {
            let item = &result[i];
            let name = if same_text(item.item_type.as_str(), "command") {
                clamp_name(item.content.as_str(), 30)
            } else {
                match &item.name {
                    Some(name) => clamp_name(name.as_str(), 30),
                    None => "Unknown".to_owned(),
                }
            };
            let found = SearchResult {
                id: item.id,
                name,
                item_type: item.item_type.clone(),
                group_id: item.group_id,
                group_name: clamp_name(item.group_name.as_str(), 20),
            };
            let ghost before = out.deep_view();
            out.push(found);
            proof {
                assert(out.deep_view() =~= before.push(search_result_of(result.deep_view()[i as int])));
                assert(out.deep_view() =~= result.deep_view().subrange(0, i + 1).map_values(
                    |s: SearchRowView| search_result_of(s),
                ));
            }
            i = i + 1;
        }
        assert(result.deep_view().subrange(0, i as int) =~= result.deep_view());
        out
    }
}

} // verus!

verus! {

/// The dashboard when it opens: no groups and the blank group selected, no
/// items, commands and scripts shown alphabetically, no dialog, no search,
/// the group navigator open and the group description closed, no status, and
/// no item waiting to be highlighted.
pub open spec fn initial_dashboard() -> DashboardView {
    DashboardView {
        group_list: Seq::empty(),
        group_selected: blank_group(),
        item_filter: ItemFilter { command: true, script: true, alphabetical: true },
        item_list: Seq::empty(),
        item_editor: None,
        search_query: Seq::empty(),
        search_result: None,
        group_navigator_open: true,
        group_description_open: false,
        status_message: no_status(),
        pending_highlight: None,
    }
}

/// The groups after a load: the loaded groups, or none where the load failed.
pub open spec fn loaded_groups(r: Result<Vec<GroupRow>, String>) -> Seq<GroupInfoView> {
    match r {
        Ok(rows) => rows.deep_view().map_values(|g: GroupRowView| group_info_of(g)),
        Err(_) => Seq::empty(),
    }
}

/// The items after a load: the loaded items, or none where the load failed,
/// in the order of their names where the filter asks for it.
pub open spec fn loaded_items(r: Result<Vec<(ItemRow, Vec<String>)>, String>, alphabetical: bool) -> Seq<ItemInfoView> {
    let items = match r {
        Ok(v) => v.deep_view().map_values(|p: (ItemRowView, Seq<Seq<char>>)| item_info_of(p.0, p.1)),
        Err(_) => Seq::empty(),
    };
    if alphabetical {
        sorted_by_name(items)
    } else {
        items
    }
}

/// The item list with the item at `i` changed by `f`, where there is one.
pub open spec fn change_item(list: Seq<ItemInfoView>, i: Option<int>, f: spec_fn(ItemInfoView) -> ItemInfoView) -> Seq<ItemInfoView> {
    match i {
        Some(k) => list.update(k, f(list[k])),
        None => list,
    }
}

/// The group list with the group at `i` hovered or not in turn, where there is one.
pub open spec fn toggle_group_hover(list: Seq<GroupInfoView>, i: Option<int>) -> Seq<GroupInfoView> {
    match i {
        Some(k) => list.update(k, GroupInfoView { hovered: !list[k].hovered, ..list[k] }),
        None => list,
    }
}

/// The editor with a text field set, where the editor is open and shows that field.
pub open spec fn with_name(e: Option<ItemEditorView>, v: Seq<char>) -> Option<ItemEditorView> {
    match e {
        Some(x) => if x.name is Some { Some(ItemEditorView { name: Some(v), ..x }) } else { e },
        None => e,
    }
}

pub open spec fn with_content(e: Option<ItemEditorView>, v: Seq<char>) -> Option<ItemEditorView> {
    match e {
        Some(x) => if x.content is Some { Some(ItemEditorView { content: Some(v), ..x }) } else { e },
        None => e,
    }
}

pub open spec fn with_description(e: Option<ItemEditorView>, v: Seq<char>) -> Option<ItemEditorView> {
    match e {
        Some(x) => if x.description is Some { Some(ItemEditorView { description: Some(v), ..x }) } else { e },
        None => e,
    }
}

pub open spec fn with_tag(e: Option<ItemEditorView>, v: Seq<char>) -> Option<ItemEditorView> {
    match e {
        Some(x) => if x.tag is Some { Some(ItemEditorView { tag: Some(v), ..x }) } else { e },
        None => e,
    }
}

/// The editor after the typed tag is added: where the editor shows both the
/// tag field and the tags, the tag joins the end of the tags and the field
/// is emptied.
pub open spec fn with_tag_added(e: Option<ItemEditorView>) -> Option<ItemEditorView> {
    match e {
        Some(x) => match (x.tag, x.tags) {
            (Some(t), Some(ts)) => Some(ItemEditorView { tag: Some(Seq::empty()), tags: Some(ts.push(t)), ..x }),
            _ => e,
        },
        None => e,
    }
}

/// The editor with the tag at `i` removed, where it shows tags.
pub open spec fn with_tag_removed(e: Option<ItemEditorView>, i: int) -> Option<ItemEditorView> {
    match e {
        Some(x) => match x.tags {
            Some(ts) => Some(ItemEditorView { tags: Some(ts.remove(i)), ..x }),
            None => e,
        },
        None => e,
    }
}

/// The editor with an error shown, where it is open.
pub open spec fn with_error(e: Option<ItemEditorView>, v: Seq<char>) -> Option<ItemEditorView> {
    match e {
        Some(x) => Some(ItemEditorView { error: Some(v), ..x }),
        None => e,
    }
}

/// The editor that each "open" message shows.
pub open spec fn new_group_editor() -> ItemEditorView {
    ItemEditorView { name: Some(Seq::empty()), description: Some(Seq::empty()), ..blank_editor(Dialog::NewGroup) }
}

pub open spec fn edit_group_editor(g: GroupInfoView) -> ItemEditorView {
    ItemEditorView { id: Some(g.id), name: Some(g.name), description: Some(g.description), ..blank_editor(Dialog::EditGroup) }
}

pub open spec fn delete_group_editor(g: GroupInfoView) -> ItemEditorView {
    ItemEditorView { id: Some(g.id), name: Some(g.name), ..blank_editor(Dialog::DeleteGroup) }
}

pub open spec fn new_item_editor(t: ItemType) -> ItemEditorView {
    match t {
        ItemType::Command => ItemEditorView {
            content: Some(Seq::empty()),
            description: Some(Seq::empty()),
            tag: Some(Seq::empty()),
            tags: Some(Seq::empty()),
            ..blank_editor(Dialog::NewCommand)
        },
        ItemType::Script => ItemEditorView {
            name: Some(Seq::empty()),
            content: Some(Seq::empty()),
            description: Some(Seq::empty()),
            tag: Some(Seq::empty()),
            tags: Some(Seq::empty()),
            ..blank_editor(Dialog::NewScript)
        },
    }
}

/// A script's name, or nothing where it has none.
pub open spec fn name_or_empty(n: Option<Seq<char>>) -> Seq<char> {
    match n {
        Some(x) => x,
        None => Seq::empty(),
    }
}

pub open spec fn edit_item_editor(item: ItemInfoView) -> ItemEditorView {
    match item.item_type {
        ItemType::Command => ItemEditorView {
            id: Some(item.id),
            content: Some(item.content),
            description: Some(item.description),
            tag: Some(Seq::empty()),
            tags: Some(item.tags),
            ..blank_editor(Dialog::EditCommand)
        },
        ItemType::Script => ItemEditorView {
            id: Some(item.id),
            name: Some(name_or_empty(item.name)),
            content: Some(item.content),
            description: Some(item.description),
            tag: Some(Seq::empty()),
            tags: Some(item.tags),
            ..blank_editor(Dialog::EditScript)
        },
    }
}

/// The delete dialog names a command by its content and a script by its name.
pub open spec fn delete_item_editor(item: ItemInfoView) -> ItemEditorView {
    match item.item_type {
        ItemType::Command => ItemEditorView { id: Some(item.id), name: Some(item.content), ..blank_editor(Dialog::DeleteCommand) },
        ItemType::Script => ItemEditorView {
            id: Some(item.id),
            name: Some(name_or_empty(item.name)),
            ..blank_editor(Dialog::DeleteScript)
        },
    }
}

/// The dashboard after a message.
pub open spec fn next_view(d: DashboardView, m: DashboardMessage) -> DashboardView {
    match m {
        DashboardMessage::SetGroupList(r) => DashboardView { group_list: loaded_groups(r), ..d },
        DashboardMessage::SetGroupSelected(g) => DashboardView { group_selected: g@, ..d },
        DashboardMessage::SetItemList(r) => DashboardView {
            item_list: loaded_items(r, d.item_filter.alphabetical),
            pending_highlight: None,
            ..d
        },
        DashboardMessage::SetFilter(f) => DashboardView { item_filter: f, ..d },
        DashboardMessage::SetSearchQuery(q) => match q {
            Some(q) => DashboardView { search_query: q@, ..d },
            None => DashboardView { search_query: Seq::empty(), search_result: None, ..d },
        },
        DashboardMessage::SetSearchResult(r) => match r {
            Ok(rows) => DashboardView {
                search_result: Some(rows.deep_view().map_values(|s: SearchRowView| search_result_of(s))),
                ..d
            },
            Err(_) => d,
        },
        DashboardMessage::ClearSearchResult => DashboardView { search_result: None, ..d },
        DashboardMessage::ScrollToSearchResult(id, group_id) => match group_index(d.group_list, group_id) {
            Some(_) => DashboardView { pending_highlight: Some(id), ..d },
            None => d,
        },
        DashboardMessage::SetGroupNavigatoOpen => DashboardView { group_navigator_open: !d.group_navigator_open, ..d },
        DashboardMessage::SetGroupHovered(id) => DashboardView {
            group_list: toggle_group_hover(d.group_list, group_index(d.group_list, id)),
            ..d
        },
        DashboardMessage::SetGroupDescriptionOpen => DashboardView { group_description_open: !d.group_description_open, ..d },
        DashboardMessage::ItemFavouriteSaved(id, favourite, r) => match r {
            Ok(_) => DashboardView {
                item_list: change_item(d.item_list, item_index(d.item_list, id),
                    |x: ItemInfoView| ItemInfoView { is_favourite: favourite, ..x }),
                ..d
            },
            Err(_) => d,
        },
        DashboardMessage::SetItemHovered(id) => DashboardView {
            item_list: change_item(d.item_list, item_index(d.item_list, id),
                |x: ItemInfoView| ItemInfoView { hovered: !x.hovered, highlighted: false, copied: false, ..x }),
            ..d
        },
        DashboardMessage::HighlightItem(id) => DashboardView {
            item_list: change_item(d.item_list, item_index(d.item_list, id),
                |x: ItemInfoView| ItemInfoView { highlighted: true, ..x }),
            ..d
        },
        DashboardMessage::ItemCopied(id) => DashboardView {
            item_list: change_item(d.item_list, item_index(d.item_list, id),
                |x: ItemInfoView| ItemInfoView { copied: true, ..x }),
            ..d
        },
        DashboardMessage::OpenNewGroupBox => DashboardView { item_editor: Some(new_group_editor()), ..d },
        DashboardMessage::OpenEditGroupBox(g) => DashboardView { item_editor: Some(edit_group_editor(g@)), ..d },
        DashboardMessage::OpenDeleteGroupBox(g) => DashboardView { item_editor: Some(delete_group_editor(g@)), ..d },
        DashboardMessage::OpenNewItemBox(t) => DashboardView { item_editor: Some(new_item_editor(t)), ..d },
        DashboardMessage::OpenEditItemBox(item) => DashboardView { item_editor: Some(edit_item_editor(item@)), ..d },
        DashboardMessage::OpenDeleteItemBox(item) => DashboardView { item_editor: Some(delete_item_editor(item@)), ..d },
        DashboardMessage::SetItemEditorName(n) => DashboardView { item_editor: with_name(d.item_editor, n@), ..d },
        DashboardMessage::SetItemEditorContent(c) => DashboardView { item_editor: with_content(d.item_editor, c@), ..d },
        DashboardMessage::SetItemEditorDescription(c) => DashboardView { item_editor: with_description(d.item_editor, c@), ..d },
        DashboardMessage::SetItemEditorTag(t) => DashboardView { item_editor: with_tag(d.item_editor, t@), ..d },
        DashboardMessage::AddToItemEditorTags => DashboardView { item_editor: with_tag_added(d.item_editor), ..d },
        DashboardMessage::RemoveFromItemEditorTags(i) => DashboardView { item_editor: with_tag_removed(d.item_editor, i as int), ..d },
        DashboardMessage::SetItemEditorError(e) => DashboardView { item_editor: with_error(d.item_editor, e@), ..d },
        DashboardMessage::CloseItemEditor => DashboardView { item_editor: None, ..d },
        DashboardMessage::SetStatusMessage(s) => DashboardView { status_message: s@, ..d },
        _ => d,
    }
}

/// A status message of the given kind and text.
pub open spec fn status_is(s: StatusMessage, text: Seq<char>, status: StatusType) -> bool {
    s@ == StatusMessageView { message: Some(text), status }
}

/// The request that submitting the editor makes: the editor's fields, with
/// an id of 0, empty texts and no tags where it does not show them; a command
/// is stored without a name.
pub open spec fn submit_request(d: DashboardView, e: ItemEditorView, r: DashboardRequest) -> bool {
    let id = match e.id { Some(i) => i, None => 0 };
    let name = name_or_empty(e.name);
    let content = name_or_empty(e.content);
    let description = name_or_empty(e.description);
    let tags = match e.tags { Some(t) => t, None => Seq::empty() };
    match e.dialog {
        Dialog::NewGroup => r matches DashboardRequest::CreateGroup { name: n, description: de }
            && n@ == name && de@ == description,
        Dialog::EditGroup => r matches DashboardRequest::UpdateGroup { id: i, name: n, description: de }
            && i == id && n@ == name && de@ == description,
        Dialog::DeleteGroup => r == DashboardRequest::DeleteGroup(id),
        Dialog::NewCommand => r matches DashboardRequest::CreateItem { group_id: g, item_type: t, name: n, content: c, description: de, tags: ts }
            && g == d.group_selected.id && t@ == "command"@ && n is None && c@ == content && de@ == description && ts.deep_view() == tags,
        Dialog::EditCommand => r matches DashboardRequest::UpdateItem { id: i, item_type: t, name: n, content: c, description: de, tags: ts }
            && i == id && t@ == "command"@ && n is None && c@ == content && de@ == description && ts.deep_view() == tags,
        Dialog::NewScript => r matches DashboardRequest::CreateItem { group_id: g, item_type: t, name: n, content: c, description: de, tags: ts }
            && g == d.group_selected.id && t@ == "script"@ && n.deep_view() == Some(name) && c@ == content && de@ == description && ts.deep_view() == tags,
        Dialog::EditScript => r matches DashboardRequest::UpdateItem { id: i, item_type: t, name: n, content: c, description: de, tags: ts }
            && i == id && t@ == "script"@ && n.deep_view() == Some(name) && c@ == content && de@ == description && ts.deep_view() == tags,
        Dialog::DeleteCommand | Dialog::DeleteScript => r == DashboardRequest::DeleteItem(id),
    }
}

/// The messages that scrolling to a search result sends: select its group,
/// close the results, and warn that scrolling is missing. The item is
/// highlighted once the group's items are loaded.
pub open spec fn scroll_chain(v: Seq<DashboardMessage>, g: GroupInfoView) -> bool {
    &&& v.len() == 3
    &&& v[0] matches DashboardMessage::SetGroupSelected(x) && x@ == g
    &&& v[1] == DashboardMessage::ClearSearchResult
    &&& v[2] matches DashboardMessage::SetStatusMessage(s)
        && status_is(s, "Scroll to search result is not implemented"@, StatusType::Warn)
}

/// The messages that a successful submission sends: close the editor, then
/// reload what it changed.
pub open spec fn done_chain(v: Seq<DashboardMessage>, dialog: Dialog) -> bool {
    &&& v.len() == 2
    &&& v[0] == DashboardMessage::CloseItemEditor
    &&& v[1] == (match dialog {
        Dialog::NewGroup | Dialog::EditGroup | Dialog::DeleteGroup => DashboardMessage::LoadDashboard,
        _ => DashboardMessage::LoadGroupSelected,
    })
}

/// What the dashboard asks to happen after a message.
pub open spec fn answers(d: DashboardView, m: DashboardMessage, t: Task<DashboardMessage, DashboardRequest>) -> bool {
    match m {
        DashboardMessage::LoadDashboard => t == Task::<DashboardMessage, DashboardRequest>::Perform(DashboardRequest::LoadGroups),
        DashboardMessage::SetGroupList(r) => t matches Task::Done(DashboardMessage::SetGroupSelected(g))
            && g@ == selected_or_default(d.group_selected, loaded_groups(r)),
        DashboardMessage::SetGroupSelected(_) => t == Task::<DashboardMessage, DashboardRequest>::Done(DashboardMessage::LoadGroupSelected),
        DashboardMessage::LoadGroupSelected => t == Task::<DashboardMessage, DashboardRequest>::Perform(
            DashboardRequest::LoadItems(items_of(d.group_selected.id, d.item_filter.command, d.item_filter.script)),
        ),
        DashboardMessage::SetFilter(_) => t == Task::<DashboardMessage, DashboardRequest>::Done(DashboardMessage::LoadGroupSelected),
        DashboardMessage::Search => if d.search_query.len() == 0 {
            t is Nothing
        } else {
            t matches Task::Perform(DashboardRequest::Search { query: q, limit: l }) && q@ == d.search_query && l == 50
        },
        DashboardMessage::ScrollToSearchResult(id, group_id) => match group_index(d.group_list, group_id) {
            Some(i) => t matches Task::Chain(v) && scroll_chain(v@, d.group_list[i]),
            None => t is Nothing,
        },
        DashboardMessage::SetItemFavourite(id) => match item_index(d.item_list, id) {
            Some(i) => t == Task::<DashboardMessage, DashboardRequest>::Perform(
                DashboardRequest::SetFavourite { id, favourite: !d.item_list[i].is_favourite },
            ),
            None => t is Nothing,
        },
        DashboardMessage::SetItemUsed(id) => t == Task::<DashboardMessage, DashboardRequest>::Perform(DashboardRequest::MarkUsed(id)),
        DashboardMessage::CopyItemContent(id) => match item_index(d.item_list, id) {
            Some(i) => t matches Task::Perform(DashboardRequest::WriteClipboard { id: u, content: c })
                && c@ == d.item_list[i].content && u == d.item_list[i].id,
            None => t is Nothing,
        },
        DashboardMessage::ItemCopied(id) => t == Task::<DashboardMessage, DashboardRequest>::Done(DashboardMessage::SetItemUsed(id)),
        DashboardMessage::SetItemList(_) => match d.pending_highlight {
            Some(h) => t == Task::<DashboardMessage, DashboardRequest>::Done(DashboardMessage::HighlightItem(h)),
            None => t is Nothing,
        },
        DashboardMessage::RunCommand(_) => t matches Task::Done(DashboardMessage::SetStatusMessage(s))
            && status_is(s, "Cannot run command (Feature not implemented)"@, StatusType::Warn),
        DashboardMessage::SubmitItemForm => match d.item_editor {
            Some(e) => t matches Task::Perform(r) && submit_request(d, e, r),
            None => t is Nothing,
        },
        DashboardMessage::ItemEditorDone(r) => match d.item_editor {
            Some(e) => match r {
                Ok(_) => t matches Task::Chain(v) && done_chain(v@, e.dialog),
                Err(msg) => t matches Task::Done(DashboardMessage::SetItemEditorError(x)) && x@ == msg@,
            },
            None => t is Nothing,
        },
        _ => t is Nothing,
    }
}

/// The screen after a message: only `SetScreen` changes it.
pub open spec fn next_screen(s: AppScreen, m: DashboardMessage) -> AppScreen {
    match m {
        DashboardMessage::SetScreen(x) => x,
        _ => s,
    }
}

/// The theme after a message: `SetTheme` switches between dark and light.
pub open spec fn next_theme(t: AppTheme, m: DashboardMessage) -> AppTheme {
    match m {
        DashboardMessage::SetTheme => match t {
            AppTheme::Light => AppTheme::Dark,
            AppTheme::Dark => AppTheme::Light,
        },
        _ => t,
    }
}

/// What a message asks of the dashboard that it could not do: removing a tag
/// that the editor does not show.
pub open spec fn message_applies(d: DashboardView, m: DashboardMessage) -> bool {
    m matches DashboardMessage::RemoveFromItemEditorTags(i) ==> (
        d.item_editor matches Some(e) ==> (e.tags matches Some(ts) ==> i < ts.len()))
}

} // verus!

verus! {

fn take_item(list: &mut Vec<ItemInfo>, i: usize) -> (r: ItemInfo)
    requires
        i < old(list).len(),
    ensures
        r@ == old(list).deep_view()[i as int],
        final(list).deep_view() == old(list).deep_view().remove(i as int),
        final(list).len() == old(list).len() - 1,
{
    let ghost before = list.deep_view();
    let r = list.remove(i);
    assert(list.deep_view() =~= before.remove(i as int));
    r
}

fn put_item(list: &mut Vec<ItemInfo>, i: usize, x: ItemInfo)
    requires
        i <= old(list).len(),
    ensures
        final(list).deep_view() == old(list).deep_view().insert(i as int, x@),
{
    let ghost before = list.deep_view();
    let ghost xv = x@;
    list.insert(i, x);
    assert(list.deep_view() =~= before.insert(i as int, xv));
}

fn take_group(list: &mut Vec<GroupInfo>, i: usize) -> (r: GroupInfo)
    requires
        i < old(list).len(),
    ensures
        r@ == old(list).deep_view()[i as int],
        final(list).deep_view() == old(list).deep_view().remove(i as int),
        final(list).len() == old(list).len() - 1,
{
    let ghost before = list.deep_view();
    let r = list.remove(i);
    assert(list.deep_view() =~= before.remove(i as int));
    r
}

fn put_group(list: &mut Vec<GroupInfo>, i: usize, x: GroupInfo)
    requires
        i <= old(list).len(),
    ensures
        final(list).deep_view() == old(list).deep_view().insert(i as int, x@),
{
    let ghost before = list.deep_view();
    let ghost xv = x@;
    list.insert(i, x);
    assert(list.deep_view() =~= before.insert(i as int, xv));
}

proof fn lemma_remove_insert<A>(s: Seq<A>, i: int, x: A)
    requires
        0 <= i < s.len(),
    ensures
        s.remove(i).insert(i, x) == s.update(i, x),
{
    assert(s.remove(i).insert(i, x) =~= s.update(i, x));
}

fn remove_string(list: &mut Vec<String>, i: usize)
    requires
        i < old(list).len(),
    ensures
        final(list).deep_view() == old(list).deep_view().remove(i as int),
{
    let ghost before = list.deep_view();
    list.remove(i);
    assert(list.deep_view() =~= before.remove(i as int));
}

fn push_string(list: &mut Vec<String>, s: String)
    ensures
        final(list).deep_view() == old(list).deep_view().push(s@),
{
    let ghost before = list.deep_view();
    let ghost sv = s@;
    list.push(s);
    assert(list.deep_view() =~= before.push(sv));
}

fn warning(text: &str) -> (r: StatusMessage)
    ensures
        r@ == (StatusMessageView { message: Some(text@), status: StatusType::Warn }),
{
    StatusMessage::new(Some(text.to_owned()), StatusType::Warn)
}

impl Dashboard {
    /// The dashboard when it opens, and the loading of its groups.
    pub fn new() -> (r: (Self, Task<DashboardMessage, DashboardRequest>))
        ensures
            r.0@ == initial_dashboard(),
            r.1 == Task::<DashboardMessage, DashboardRequest>::Done(DashboardMessage::LoadDashboard),
    {
        let d = Self {
            group_list: Vec::new(),
            group_selected: GroupInfo::default(),
            item_filter: ItemFilter { command: true, script: true, alphabetical: true },
            item_list: Vec::new(),
            item_editor: None,
            search_query: String::new(),
            search_result: None,
            group_navigator_open: true,
            group_description_open: false,
            status_message: StatusMessage::default(),
            pending_highlight: None,
        };
        assert(d@.group_list =~= Seq::<GroupInfoView>::empty());
        assert(d@.item_list =~= Seq::<ItemInfoView>::empty());
        (d, Task::Done(DashboardMessage::LoadDashboard))
    }

    fn change_editor_text(&mut self, which: u8, text: String)
        requires
            which < 4,
        ensures
            final(self)@ == (DashboardView {
                item_editor: if which == 0 {
                    with_name(old(self)@.item_editor, text@)
                } else if which == 1 {
                    with_content(old(self)@.item_editor, text@)
                } else if which == 2 {
                    with_description(old(self)@.item_editor, text@)
                } else {
                    with_tag(old(self)@.item_editor, text@)
                },
                ..old(self)@
            }),
    {
        match self.item_editor.take() {
            Some(mut editor) => {
                if which == 0 {
                    if editor.name.is_some() {
                        editor.name = Some(text);
                    }
                } else if which == 1 {
                    if editor.content.is_some() {
                        editor.content = Some(text);
                    }
                } else if which == 2 {
                    if editor.description.is_some() {
                        editor.description = Some(text);
                    }
                } else {
                    if editor.tag.is_some() {
                        editor.tag = Some(text);
                    }
                }
                self.item_editor = Some(editor);
            },
            None => {},
        }
    }

    fn add_editor_tag(&mut self)
        ensures
            final(self)@ == (DashboardView { item_editor: with_tag_added(old(self)@.item_editor), ..old(self)@ }),
    {
        match self.item_editor.take() {
            Some(mut editor) => {
                let tag = editor.tag.take();
                let tags = editor.tags.take();
                match (tag, tags) {
                    (Some(t), Some(mut ts)) => {
                        push_string(&mut ts, t);
                        editor.tag = Some(String::new());
                        editor.tags = Some(ts);
                    },
                    (t, ts) => {
                        editor.tag = t;
                        editor.tags = ts;
                    },
                }
                self.item_editor = Some(editor);
            },
            None => {},
        }
    }

    fn remove_editor_tag(&mut self, index: usize)
        requires
            old(self)@.item_editor matches Some(e) ==> (e.tags matches Some(ts) ==> index < ts.len()),
        ensures
            final(self)@ == (DashboardView { item_editor: with_tag_removed(old(self)@.item_editor, index as int), ..old(self)@ }),
    {
        match self.item_editor.take() {
            Some(mut editor) => {
                match editor.tags.take() {
                    Some(mut ts) => {
                        remove_string(&mut ts, index);
                        editor.tags = Some(ts);
                    },
                    None => {},
                }
                self.item_editor = Some(editor);
            },
            None => {},
        }
    }

    fn submit(&self) -> (t: Task<DashboardMessage, DashboardRequest>)
        ensures
            answers(self@, DashboardMessage::SubmitItemForm, t),
    {
        let editor = match &self.item_editor {
            Some(editor) => editor,
            None => return Task::Nothing,
        };
        let id = editor.id.unwrap_or(0);
        let name = match &editor.name {
            Some(n) => n.clone(),
            None => String::new(),
        };
        let content = match &editor.content {
            Some(c) => c.clone(),
            None => String::new(),
        };
        let description = match &editor.description {
            Some(c) => c.clone(),
            None => String::new(),
        };
        let tags = match &editor.tags {
            Some(t) => clone_strings(t),
            None => Vec::new(),
        };
        proof {
            assert(tags.deep_view() == (match editor@.tags { Some(t) => t, None => Seq::<Seq<char>>::empty() }));
        }
        let request = match editor.dialog {
            Dialog::NewGroup => DashboardRequest::CreateGroup { name, description },
            Dialog::EditGroup => DashboardRequest::UpdateGroup { id, name, description },
            Dialog::DeleteGroup => DashboardRequest::DeleteGroup(id),
            Dialog::NewCommand => DashboardRequest::CreateItem {
                group_id: self.group_selected.id,
                item_type: "command".to_owned(),
                name: None,
                content,
                description,
                tags,
            },
            Dialog::EditCommand => DashboardRequest::UpdateItem {
                id,
                item_type: "command".to_owned(),
                name: None,
                content,
                description,
                tags,
            },
            Dialog::NewScript => DashboardRequest::CreateItem {
                group_id: self.group_selected.id,
                item_type: "script".to_owned(),
                name: Some(name),
                content,
                description,
                tags,
            },
            Dialog::EditScript => DashboardRequest::UpdateItem {
                id,
                item_type: "script".to_owned(),
                name: Some(name),
                content,
                description,
                tags,
            },
            Dialog::DeleteCommand | Dialog::DeleteScript => DashboardRequest::DeleteItem(id),
        };
        Task::Perform(request)
    }

    fn editor_done(&self, result: Result<(), String>) -> (t: Task<DashboardMessage, DashboardRequest>)
        ensures
            answers(self@, DashboardMessage::ItemEditorDone(result), t),
    {
        let editor = match &self.item_editor {
            Some(editor) => editor,
            None => return Task::Nothing,
        };
        match result {
            Ok(()) => {
                let mut v: Vec<DashboardMessage> = Vec::new();
                v.push(DashboardMessage::CloseItemEditor);
                match editor.dialog {
                    Dialog::NewGroup | Dialog::EditGroup | Dialog::DeleteGroup => {
                        v.push(DashboardMessage::LoadDashboard);
                    },
                    Dialog::NewCommand | Dialog::EditCommand | Dialog::DeleteCommand | Dialog::NewScript
                    | Dialog::EditScript | Dialog::DeleteScript => {
                        v.push(DashboardMessage::LoadGroupSelected);
                    },
                }
                Task::Chain(v)
            },
            Err(e) => Task::Done(DashboardMessage::SetItemEditorError(e)),
        }
    }
}

} // verus!

verus! {

impl Dashboard {
    fn set_group_list(&mut self, groups: Result<Vec<GroupRow>, String>) -> (task: Task<DashboardMessage, DashboardRequest>)
        ensures
            final(self)@ == next_view(old(self)@, DashboardMessage::SetGroupList(groups)),
            answers(old(self)@, DashboardMessage::SetGroupList(groups), task),
    {
        let ghost g = groups;
        match groups {
            Ok(groups) => self.group_list = Self::group_row_to_group_info(groups),
            Err(_) => self.group_list = Vec::new(),
        }
        proof {
            assert(self.group_list.deep_view() =~= loaded_groups(g));
        }
        Task::Done(
            DashboardMessage::SetGroupSelected(
                Self::find_selected_group_or_default(&self.group_selected, &self.group_list),
            ),
        )
    }

    fn set_item_list(&mut self, items: Result<Vec<(ItemRow, Vec<String>)>, String>) -> (task: Task<DashboardMessage, DashboardRequest>)
        ensures
            final(self)@ == next_view(old(self)@, DashboardMessage::SetItemList(items)),
            answers(old(self)@, DashboardMessage::SetItemList(items), task),
    {
        let ghost g = items;
        match items {
            Ok(items) => self.item_list = Self::item_row_to_item_info(items),
            Err(_) => self.item_list = Vec::new(),
        }
        proof {
            assert(self.item_list.deep_view() =~= loaded_items(g, false));
        }
        if self.item_filter.alphabetical {
            sort_items_by_name(&mut self.item_list);
        }
        match self.pending_highlight.take() {
            Some(h) => Task::Done(DashboardMessage::HighlightItem(h)),
            None => Task::Nothing,
        }
    }

    fn set_search_result(&mut self, result: Result<Vec<SearchRow>, String>)
        ensures
            final(self)@ == next_view(old(self)@, DashboardMessage::SetSearchResult(result)),
    {
        match result {
            Ok(result) => self.search_result = Some(Self::search_row_to_search_result(result)),
            Err(_) => {},
        }
    }

    fn scroll_to_search_result(&mut self, id: i32, group_id: i32) -> (task: Task<DashboardMessage, DashboardRequest>)
        ensures
            final(self)@ == next_view(old(self)@, DashboardMessage::ScrollToSearchResult(id, group_id)),
            answers(old(self)@, DashboardMessage::ScrollToSearchResult(id, group_id), task),
    {
        let i = match self.find_group(group_id) {
            Some(i) => i,
            None => return Task::Nothing,
        };
        let group = self.group_list[i].clone();
        let mut v: Vec<DashboardMessage> = Vec::new();
        v.push(DashboardMessage::SetGroupSelected(group));
        v.push(DashboardMessage::ClearSearchResult);
        v.push(DashboardMessage::SetStatusMessage(warning("Scroll to search result is not implemented")));
        self.pending_highlight = Some(id);
        Task::Chain(v)
    }

    fn set_group_hovered(&mut self, id: i32)
        ensures
            final(self)@ == next_view(old(self)@, DashboardMessage::SetGroupHovered(id)),
    {
        let i = match self.find_group(id) {
            Some(i) => i,
            None => return,
        };
        let ghost before = self.group_list.deep_view();
        let mut group = take_group(&mut self.group_list, i);
        group.hovered = !group.hovered;
        put_group(&mut self.group_list, i, group);
        proof {
            lemma_remove_insert(before, i as int, GroupInfoView { hovered: !before[i as int].hovered, ..before[i as int] });
        }
    }

    fn set_item_favourite(&self, id: i32) -> (task: Task<DashboardMessage, DashboardRequest>)
        ensures
            answers(self@, DashboardMessage::SetItemFavourite(id), task),
    {
        let i = match self.find_item(id) {
            Some(i) => i,
            None => return Task::Nothing,
        };
        let favourite = !self.item_list[i].is_favourite;
        Task::Perform(DashboardRequest::SetFavourite { id, favourite })
    }

    fn save_item_favourite(&mut self, id: i32, favourite: bool, result: Result<(), String>)
        ensures
            final(self)@ == next_view(old(self)@, DashboardMessage::ItemFavouriteSaved(id, favourite, result)),
    {
        if result.is_err() {
            return;
        }
        let i = match self.find_item(id) {
            Some(i) => i,
            None => return,
        };
        let ghost before = self.item_list.deep_view();
        let mut item = take_item(&mut self.item_list, i);
        item.is_favourite = favourite;
        put_item(&mut self.item_list, i, item);
        proof {
            lemma_remove_insert(before, i as int, ItemInfoView { is_favourite: favourite, ..before[i as int] });
        }
    }

    fn set_item_hovered(&mut self, id: i32)
        ensures
            final(self)@ == next_view(old(self)@, DashboardMessage::SetItemHovered(id)),
    {
        let i = match self.find_item(id) {
            Some(i) => i,
            None => return,
        };
        let ghost before = self.item_list.deep_view();
        let mut item = take_item(&mut self.item_list, i);
        item.hovered = !item.hovered;
        item.highlighted = false;
        item.copied = false;
        put_item(&mut self.item_list, i, item);
        proof {
            lemma_remove_insert(before, i as int,
                ItemInfoView { hovered: !before[i as int].hovered, highlighted: false, copied: false, ..before[i as int] });
        }
    }

    fn highlight_item(&mut self, id: i32)
        ensures
            final(self)@ == next_view(old(self)@, DashboardMessage::HighlightItem(id)),
    {
        let i = match self.find_item(id) {
            Some(i) => i,
            None => return,
        };
        let ghost before = self.item_list.deep_view();
        let mut item = take_item(&mut self.item_list, i);
        item.highlighted = true;
        put_item(&mut self.item_list, i, item);
        proof {
            lemma_remove_insert(before, i as int, ItemInfoView { highlighted: true, ..before[i as int] });
        }
    }

    fn copy_item_content(&self, id: i32) -> (task: Task<DashboardMessage, DashboardRequest>)
        ensures
            answers(self@, DashboardMessage::CopyItemContent(id), task),
    {
        let i = match self.find_item(id) {
            Some(i) => i,
            None => return Task::Nothing,
        };
        let content = self.item_list[i].content.clone();
        let item_id = self.item_list[i].id;
        Task::Perform(DashboardRequest::WriteClipboard { id: item_id, content })
    }

    fn mark_copied(&mut self, id: i32)
        ensures
            final(self)@ == next_view(old(self)@, DashboardMessage::ItemCopied(id)),
    {
        let i = match self.find_item(id) {
            Some(i) => i,
            None => return,
        };
        let ghost before = self.item_list.deep_view();
        let mut item = take_item(&mut self.item_list, i);
        item.copied = true;
        put_item(&mut self.item_list, i, item);
        proof {
            lemma_remove_insert(before, i as int, ItemInfoView { copied: true, ..before[i as int] });
        }
    }

    fn open_group_box(&mut self, dialog: Dialog, group: GroupInfo)
        requires
            dialog == Dialog::EditGroup || dialog == Dialog::DeleteGroup,
        ensures
            final(self)@ == (DashboardView {
                item_editor: Some(if dialog == Dialog::EditGroup { edit_group_editor(group@) } else { delete_group_editor(group@) }),
                ..old(self)@
            }),
    {
        if dialog == Dialog::EditGroup {
            self.item_editor = Some(ItemEditor {
                id: Some(group.id),
                name: Some(group.name),
                description: Some(group.description),
                dialog: Dialog::EditGroup,
                ..ItemEditor::default()
            });
        } else {
            self.item_editor = Some(ItemEditor {
                id: Some(group.id),
                name: Some(group.name),
                dialog: Dialog::DeleteGroup,
                ..ItemEditor::default()
            });
        }
    }

    fn open_new_item_box(&mut self, item_type: ItemType)
        ensures
            final(self)@ == next_view(old(self)@, DashboardMessage::OpenNewItemBox(item_type)),
    {
        match item_type {
            ItemType::Command => self.item_editor = Some(ItemEditor {
                content: Some(String::new()),
                description: Some(String::new()),
                tag: Some(String::new()),
                tags: Some(Vec::new()),
                dialog: Dialog::NewCommand,
                ..ItemEditor::default()
            }),
            ItemType::Script => self.item_editor = Some(ItemEditor {
                name: Some(String::new()),
                content: Some(String::new()),
                description: Some(String::new()),
                tag: Some(String::new()),
                tags: Some(Vec::new()),
                dialog: Dialog::NewScript,
                ..ItemEditor::default()
            }),
        }
        proof {
            assert(self@.item_editor->0.tags->0 =~= Seq::<Seq<char>>::empty());
        }
    }

    fn open_item_box(&mut self, delete: bool, item: ItemInfo)
        ensures
            final(self)@ == (DashboardView {
                item_editor: Some(if delete { delete_item_editor(item@) } else { edit_item_editor(item@) }),
                ..old(self)@
            }),
    {
        let name = match item.name {
            Some(n) => n,
            None => String::new(),
        };
        if delete {
            match item.item_type {
                ItemType::Command => self.item_editor = Some(ItemEditor {
                    id: Some(item.id),
                    name: Some(item.content),
                    dialog: Dialog::DeleteCommand,
                    ..ItemEditor::default()
                }),
                ItemType::Script => self.item_editor = Some(ItemEditor {
                    id: Some(item.id),
                    name: Some(name),
                    dialog: Dialog::DeleteScript,
                    ..ItemEditor::default()
                }),
            }
        } else {
            match item.item_type {
                ItemType::Command => self.item_editor = Some(ItemEditor {
                    id: Some(item.id),
                    content: Some(item.content),
                    description: Some(item.description),
                    tag: Some(String::new()),
                    tags: Some(item.tags),
                    dialog: Dialog::EditCommand,
                    ..ItemEditor::default()
                }),
                ItemType::Script => self.item_editor = Some(ItemEditor {
                    id: Some(item.id),
                    name: Some(name),
                    content: Some(item.content),
                    description: Some(item.description),
                    tag: Some(String::new()),
                    tags: Some(item.tags),
                    dialog: Dialog::EditScript,
                    ..ItemEditor::default()
                }),
            }
        }
    }

    fn set_editor_error(&mut self, error: String)
        ensures
            final(self)@ == (DashboardView { item_editor: with_error(old(self)@.item_editor, error@), ..old(self)@ }),
    {
        match self.item_editor.take() {
            Some(mut editor) => {
                editor.error = Some(error);
                self.item_editor = Some(editor);
            },
            None => {},
        }
    }

    /// Handles a message: changes the dashboard, the screen and the theme as
    /// the message asks, and returns what has to happen next.
    pub fn update(&mut self, message: DashboardMessage, screen: &mut AppScreen, theme: &mut AppTheme) -> (task: Task<DashboardMessage, DashboardRequest>)
        requires
            message_applies(old(self)@, message),
        ensures
            final(self)@ == next_view(old(self)@, message),
            answers(old(self)@, message, task),
            *final(screen) == next_screen(*old(screen), message),
            *final(theme) == next_theme(*old(theme), message),
    {
        match message {
            DashboardMessage::LoadDashboard => Task::Perform(DashboardRequest::LoadGroups),
            DashboardMessage::SetGroupList(groups) => self.set_group_list(groups),
            DashboardMessage::SetGroupSelected(group) => {
                self.group_selected = group;
                Task::Done(DashboardMessage::LoadGroupSelected)
            },
            DashboardMessage::LoadGroupSelected => Task::Perform(
                DashboardRequest::LoadItems(
                    item_query(self.group_selected.id, self.item_filter.command, self.item_filter.script),
                ),
            ),
            DashboardMessage::SetItemList(items) => self.set_item_list(items),
            DashboardMessage::SetFilter(filter) => {
                self.item_filter = filter;
                Task::Done(DashboardMessage::LoadGroupSelected)
            },
            DashboardMessage::SetScreen(scrn) => {
                *screen = scrn;
                Task::Nothing
            },
            DashboardMessage::SetTheme => {
                match theme {
                    AppTheme::Light => *theme = AppTheme::Dark,
                    AppTheme::Dark => *theme = AppTheme::Light,
                }
                Task::Nothing
            },
            DashboardMessage::SetSearchQuery(query) => {
                match query {
                    Some(query) => self.search_query = query,
                    None => {
                        self.search_query = String::new();
                        self.search_result = None;
                    },
                }
                Task::Nothing
            },
            DashboardMessage::Search => {
                if self.search_query.unicode_len() == 0 {
                    Task::Nothing
                } else {
                    Task::Perform(DashboardRequest::Search { query: self.search_query.clone(), limit: 50 })
                }
            },
            DashboardMessage::SetSearchResult(result) => {
                self.set_search_result(result);
                Task::Nothing
            },
            DashboardMessage::ClearSearchResult => {
                self.search_result = None;
                Task::Nothing
            },
            DashboardMessage::ScrollToSearchResult(id, group_id) => self.scroll_to_search_result(id, group_id),
            DashboardMessage::SetGroupNavigatoOpen => {
                self.group_navigator_open = !self.group_navigator_open;
                Task::Nothing
            },
            DashboardMessage::SetGroupHovered(id) => {
                self.set_group_hovered(id);
                Task::Nothing
            },
            DashboardMessage::SetGroupDescriptionOpen => {
                self.group_description_open = !self.group_description_open;
                Task::Nothing
            },
            DashboardMessage::SetItemFavourite(id) => self.set_item_favourite(id),
            DashboardMessage::ItemFavouriteSaved(id, favourite, result) => {
                self.save_item_favourite(id, favourite, result);
                Task::Nothing
            },
            DashboardMessage::SetItemUsed(id) => Task::Perform(DashboardRequest::MarkUsed(id)),
            DashboardMessage::SetItemHovered(id) => {
                self.set_item_hovered(id);
                Task::Nothing
            },
            DashboardMessage::HighlightItem(id) => {
                self.highlight_item(id);
                Task::Nothing
            },
            DashboardMessage::CopyItemContent(id) => self.copy_item_content(id),
            DashboardMessage::ItemCopied(id) => {
                self.mark_copied(id);
                Task::Done(DashboardMessage::SetItemUsed(id))
            },
            DashboardMessage::RunCommand(_command) => Task::Done(
                DashboardMessage::SetStatusMessage(warning("Cannot run command (Feature not implemented)")),
            ),
            DashboardMessage::OpenNewGroupBox => {
                self.item_editor = Some(ItemEditor {
                    name: Some(String::new()),
                    description: Some(String::new()),
                    dialog: Dialog::NewGroup,
                    ..ItemEditor::default()
                });
                Task::Nothing
            },
            DashboardMessage::OpenEditGroupBox(group) => {
                self.open_group_box(Dialog::EditGroup, group);
                Task::Nothing
            },
            DashboardMessage::OpenDeleteGroupBox(group) => {
                self.open_group_box(Dialog::DeleteGroup, group);
                Task::Nothing
            },
            DashboardMessage::OpenNewItemBox(item_type) => {
                self.open_new_item_box(item_type);
                Task::Nothing
            },
            DashboardMessage::OpenEditItemBox(item) => {
                self.open_item_box(false, item);
                Task::Nothing
            },
            DashboardMessage::OpenDeleteItemBox(item) => {
                self.open_item_box(true, item);
                Task::Nothing
            },
            DashboardMessage::SetItemEditorName(name) => {
                self.change_editor_text(0, name);
                Task::Nothing
            },
            DashboardMessage::SetItemEditorContent(text) => {
                self.change_editor_text(1, text);
                Task::Nothing
            },
            DashboardMessage::SetItemEditorDescription(text) => {
                self.change_editor_text(2, text);
                Task::Nothing
            },
            DashboardMessage::SetItemEditorTag(t) => {
                self.change_editor_text(3, t);
                Task::Nothing
            },
            DashboardMessage::AddToItemEditorTags => {
                self.add_editor_tag();
                Task::Nothing
            },
            DashboardMessage::RemoveFromItemEditorTags(index) => {
                self.remove_editor_tag(index);
                Task::Nothing
            },
            DashboardMessage::SetItemEditorError(error) => {
                self.set_editor_error(error);
                Task::Nothing
            },
            DashboardMessage::CloseItemEditor => {
                self.item_editor = None;
                Task::Nothing
            },
            DashboardMessage::SubmitItemForm => self.submit(),
            DashboardMessage::ItemEditorDone(result) => self.editor_done(result),
            DashboardMessage::SetStatusMessage(message) => {
                self.status_message = message;
                Task::Nothing
            },
            DashboardMessage::Nothing => Task::Nothing,
        }
    }
}

} // verus!

verus! {

/// Toggling the group navigator, the group description or the hover of a
/// group twice leaves the dashboard as it was.
pub proof fn lemma_toggles_undo(d: DashboardView, id: i32)
    ensures
        next_view(next_view(d, DashboardMessage::SetGroupNavigatoOpen), DashboardMessage::SetGroupNavigatoOpen) == d,
        next_view(next_view(d, DashboardMessage::SetGroupDescriptionOpen), DashboardMessage::SetGroupDescriptionOpen) == d,
        next_view(next_view(d, DashboardMessage::SetGroupHovered(id)), DashboardMessage::SetGroupHovered(id)) == d,
{
    let d1 = next_view(d, DashboardMessage::SetGroupHovered(id));
    match group_index(d.group_list, id) {
        Some(i) => {
            let w = choose|k: int| is_first_group(d.group_list, id, k);
            assert(is_first_group(d.group_list, id, w));
            assert(is_first_group(d1.group_list, id, i));
            let c = choose|k: int| is_first_group(d1.group_list, id, k);
            lemma_first_group_unique(d1.group_list, id, i, c);
            assert(d1.group_list.update(i, GroupInfoView { hovered: !d1.group_list[i].hovered, ..d1.group_list[i] }) =~= d.group_list);
        },
        None => {
            assert(d1.group_list == d.group_list);
        },
    }
}

/// Marking an item as a favourite changes nothing until the database has
/// stored it; the request stores the opposite of the item's mark, and once it
/// succeeds the item shows the stored mark. A failed request changes nothing.
pub proof fn lemma_favourite_after_success(d: DashboardView, id: i32, t: Task<DashboardMessage, DashboardRequest>, e: String)
    requires
        answers(d, DashboardMessage::SetItemFavourite(id), t),
        item_index(d.item_list, id) is Some,
    ensures
        next_view(d, DashboardMessage::SetItemFavourite(id)) == d,
        ({
            let i = item_index(d.item_list, id)->0;
            &&& t == Task::<DashboardMessage, DashboardRequest>::Perform(
                DashboardRequest::SetFavourite { id, favourite: !d.item_list[i].is_favourite },
            )
            &&& next_view(d, DashboardMessage::ItemFavouriteSaved(id, !d.item_list[i].is_favourite, Ok(()))).item_list[i].is_favourite
                == !d.item_list[i].is_favourite
            &&& next_view(d, DashboardMessage::ItemFavouriteSaved(id, !d.item_list[i].is_favourite, Err(e))) == d
        }),
{
    let i = choose|k: int| is_first_item(d.item_list, id, k);
    assert(is_first_item(d.item_list, id, i));
}

/// Copying marks an item as copied only once its content is on the
/// clipboard, and then records that the item was used.
pub proof fn lemma_copied_after_write(d: DashboardView, id: i32)
    ensures
        next_view(d, DashboardMessage::CopyItemContent(id)) == d,
        answers(d, DashboardMessage::ItemCopied(id),
            Task::<DashboardMessage, DashboardRequest>::Done(DashboardMessage::SetItemUsed(id))),
{
}

/// Scrolling to a search result in a listed group highlights nothing at
/// once: the item is highlighted when the group's items have been loaded.
pub proof fn lemma_highlight_after_load(d: DashboardView, id: i32, group_id: i32, r: Result<Vec<(ItemRow, Vec<String>)>, String>)
    requires
        group_index(d.group_list, group_id) is Some,
    ensures
        next_view(d, DashboardMessage::ScrollToSearchResult(id, group_id)).item_list == d.item_list,
        answers(next_view(d, DashboardMessage::ScrollToSearchResult(id, group_id)), DashboardMessage::SetItemList(r),
            Task::<DashboardMessage, DashboardRequest>::Done(DashboardMessage::HighlightItem(id))),
{
}

/// Switching the theme twice gives the theme back.
pub proof fn lemma_theme_toggle_undo(t: AppTheme)
    ensures
        next_theme(next_theme(t, DashboardMessage::SetTheme), DashboardMessage::SetTheme) == t,
{
}

/// Adding the typed tag and then removing the last tag gives the tags back,
/// with the tag field emptied.
pub proof fn lemma_add_then_remove_tag(e: ItemEditorView)
    requires
        e.tag is Some,
        e.tags is Some,
    ensures
        with_tag_removed(with_tag_added(Some(e)), e.tags->0.len() as int)
            == Some((ItemEditorView { tag: Some(Seq::<char>::empty()), ..e })),
{
    let ts = e.tags->0;
    assert(ts.push(e.tag->0).remove(ts.len() as int) =~= ts);
}

/// A successful submission closes the editor and then reloads what it
/// changed: after a group was created, edited or deleted, the whole dashboard
/// with its list of groups; after an item, the selected group's items.
pub proof fn lemma_editor_done_reloads(d: DashboardView, t: Task<DashboardMessage, DashboardRequest>)
    requires
        d.item_editor is Some,
        answers(d, DashboardMessage::ItemEditorDone(Ok(())), t),
    ensures
        t matches Task::Chain(v) && v@.len() == 2 && v@[0] == DashboardMessage::CloseItemEditor,
        ({
            let dialog = d.item_editor->0.dialog;
            (dialog == Dialog::NewGroup || dialog == Dialog::EditGroup || dialog == Dialog::DeleteGroup)
                ==> (t matches Task::Chain(v) && v@[1] == DashboardMessage::LoadDashboard)
        }),
        ({
            let dialog = d.item_editor->0.dialog;
            !(dialog == Dialog::NewGroup || dialog == Dialog::EditGroup || dialog == Dialog::DeleteGroup)
                ==> (t matches Task::Chain(v) && v@[1] == DashboardMessage::LoadGroupSelected)
        }),
        answers(d, DashboardMessage::LoadDashboard, Task::<DashboardMessage, DashboardRequest>::Perform(DashboardRequest::LoadGroups)),
{
}

/// Opening a group for editing and submitting it unchanged stores the group
/// as it was: its id, name and description.
pub proof fn lemma_edit_group_round_trip(d: DashboardView, g: GroupInfo, t: Task<DashboardMessage, DashboardRequest>)
    requires
        answers(next_view(d, DashboardMessage::OpenEditGroupBox(g)), DashboardMessage::SubmitItemForm, t),
    ensures
        t matches Task::Perform(DashboardRequest::UpdateGroup { id, name, description })
            && id == g.id && name@ == g.name@ && description@ == g.description@,
{
}

/// Opening a group or an item for deletion and submitting asks to delete
/// exactly that group or item.
pub proof fn lemma_delete_round_trip(
    d: DashboardView,
    g: GroupInfo,
    item: ItemInfo,
    t: Task<DashboardMessage, DashboardRequest>,
    u: Task<DashboardMessage, DashboardRequest>,
)
    requires
        answers(next_view(d, DashboardMessage::OpenDeleteGroupBox(g)), DashboardMessage::SubmitItemForm, t),
        answers(next_view(d, DashboardMessage::OpenDeleteItemBox(item)), DashboardMessage::SubmitItemForm, u),
    ensures
        t == Task::<DashboardMessage, DashboardRequest>::Perform(DashboardRequest::DeleteGroup(g.id)),
        u == Task::<DashboardMessage, DashboardRequest>::Perform(DashboardRequest::DeleteItem(item.id)),
{
}

/// Opening an item for editing and submitting it unchanged stores the item
/// as it was: its id, type, content, description and tags, and a script's
/// name (a command is stored without one).
pub proof fn lemma_edit_item_round_trip(d: DashboardView, item: ItemInfo, t: Task<DashboardMessage, DashboardRequest>)
    requires
        answers(next_view(d, DashboardMessage::OpenEditItemBox(item)), DashboardMessage::SubmitItemForm, t),
    ensures
        t matches Task::Perform(DashboardRequest::UpdateItem { id, item_type, name, content, description, tags })
            && id == item.id && content@ == item.content@ && description@ == item.description@
            && tags.deep_view() == item.tags.deep_view()
            && (item.item_type == ItemType::Command ==> item_type@ == "command"@ && name is None)
            && (item.item_type == ItemType::Script ==> item_type@ == "script"@
                && name.deep_view() == Some(name_or_empty(item.name.deep_view()))),
{
}

/// A description typed into an editor that shows one is the description
/// that submitting stores, whichever group or item the editor is for.
pub proof fn lemma_typed_description_submitted(
    d: DashboardView,
    x: String,
    t: Task<DashboardMessage, DashboardRequest>,
)
    requires
        d.item_editor matches Some(e) && e.description is Some,
        answers(next_view(d, DashboardMessage::SetItemEditorDescription(x)), DashboardMessage::SubmitItemForm, t),
    ensures
        ({
            let dialog = d.item_editor->0.dialog;
            &&& dialog == Dialog::NewGroup ==> (t matches Task::Perform(DashboardRequest::CreateGroup { name, description })
                && description@ == x@)
            &&& dialog == Dialog::EditGroup ==> (t matches Task::Perform(DashboardRequest::UpdateGroup { id, name, description })
                && description@ == x@)
            &&& (dialog == Dialog::NewCommand || dialog == Dialog::NewScript) ==> (t matches Task::Perform(
                DashboardRequest::CreateItem { group_id, item_type, name, content, description, tags },
            ) && description@ == x@ && group_id == d.group_selected.id)
            &&& (dialog == Dialog::EditCommand || dialog == Dialog::EditScript) ==> (t matches Task::Perform(
                DashboardRequest::UpdateItem { id, item_type, name, content, description, tags },
            ) && description@ == x@)
        }),
{
}

/// Whatever dialog is open, closing it leaves none, and opening one and
/// closing it leaves the dashboard as it was apart from the dialog.
pub proof fn lemma_close_after_open(d: DashboardView)
    ensures
        next_view(next_view(d, DashboardMessage::OpenNewGroupBox), DashboardMessage::CloseItemEditor)
            == (DashboardView { item_editor: None, ..d }),
        next_view(d, DashboardMessage::CloseItemEditor).item_editor is None,
{
}

/// Loaded items are shown in the order of their names when the filter asks
/// for it, and none is lost or added.
pub proof fn lemma_loaded_items_sorted(r: Result<Vec<(ItemRow, Vec<String>)>, String>)
    ensures
        crate::app::dashboard::ordering::is_sorted_by_name(loaded_items(r, true)),
        loaded_items(r, true).to_multiset() == loaded_items(r, false).to_multiset(),
{
    crate::app::dashboard::ordering::lemma_sorted_by_name_is_sorted(loaded_items(r, false));
    crate::app::dashboard::ordering::lemma_sorted_by_name_permutes(loaded_items(r, false));
}

/// Searching with an empty query asks for nothing; any other query is asked
/// for with a limit of 50 results.
pub proof fn lemma_empty_search_asks_nothing(d: DashboardView, t: Task<DashboardMessage, DashboardRequest>)
    requires
        answers(d, DashboardMessage::Search, t),
    ensures
        d.search_query.len() == 0 <==> t is Nothing,
{
}

/// The group selected after the groups load keeps the id of the group that
/// was selected, or is named "Default", or is the blank group; and where the
/// selected group is still listed, it is the listed one.
pub proof fn lemma_selection_survives_reload(selected: GroupInfoView, list: Seq<GroupInfoView>)
    ensures
        ({
            let g = selected_or_default(selected, list);
            &&& g.id == selected.id || g.name == "Default"@ || g == blank_group()
            &&& (exists|i: int| 0 <= i < list.len() && list[i].id == selected.id) ==> g.id == selected.id
        }),
{
    if exists|i: int| 0 <= i < list.len() && list[i].id == selected.id {
        let i = choose|i: int| 0 <= i < list.len() && list[i].id == selected.id;
        lemma_first_group_exists(list, selected.id, i);
    }
    if exists|i: int| is_first_group(list, selected.id, i) {
        let c = choose|i: int| is_first_group(list, selected.id, i);
        assert(is_first_group(list, selected.id, c));
    } else if exists|i: int| is_last_default(list, i) {
        let c = choose|i: int| is_last_default(list, i);
        assert(is_last_default(list, c));
    }
}

proof fn lemma_first_group_exists(list: Seq<GroupInfoView>, id: i32, i: int)
    requires
        0 <= i < list.len(),
        list[i].id == id,
    ensures
        exists|k: int| is_first_group(list, id, k),
    decreases i,
{
    if exists|k: int| 0 <= k < i && list[k].id == id {
        let k = choose|k: int| 0 <= k < i && list[k].id == id;
        lemma_first_group_exists(list, id, k);
    } else {
        assert(is_first_group(list, id, i));
    }
}

} // verus!
