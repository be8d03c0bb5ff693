pub mod dashboard;
pub mod group;
pub mod item_editor;
pub mod ordering;
pub mod search_result;
pub mod status_bar;

use vstd::prelude::*;
use crate::app::dashboard::item_editor::{ItemEditor, ItemEditorView};
use crate::app::dashboard::search_result::{SearchResult, SearchResultView};
use crate::components::status_bar::{StatusMessage, StatusMessageView};
use crate::data::settings::AppScreen;
use crate::services::group::GroupRow;
use crate::services::item::{ItemQuery, ItemRow};
use crate::services::search::SearchRow;
use crate::utils::datetime::DateTimeParts;

verus! {

/// The state of the dashboard: the groups, the selected group and its items,
/// the open dialog, the search and the status bar.
#[derive(Debug)]
pub struct Dashboard {
    pub group_list: Vec<GroupInfo>,
    pub group_selected: GroupInfo,
    pub item_filter: ItemFilter,
    pub item_list: Vec<ItemInfo>,
    pub item_editor: Option<ItemEditor>,
    pub search_query: String,
    pub search_result: Option<Vec<SearchResult>>,
    pub group_navigator_open: bool,
    pub group_description_open: bool,
    pub status_message: StatusMessage,
    /// The item to highlight once the items of the selected group are loaded.
    pub pending_highlight: Option<i32>,
}

/// A group as the dashboard shows it.
#[derive(Debug)]
pub struct GroupInfo {
    pub id: i32,
    pub name: String,
    pub description: String,
    pub item_count: usize,
    pub hovered: bool,
}

/// Which items the selected group shows, and in which order.
#[derive(Clone, Copy, Debug, PartialEq, Eq, Structural)]
pub struct ItemFilter {
    pub command: bool,
    pub script: bool,
    pub alphabetical: bool,
}

/// The kind of an item.
#[derive(Clone, Copy, Debug, PartialEq, Eq, Structural)]
pub enum ItemType {
    Command,
    Script,
}

/// An item as the dashboard shows it.
#[derive(Debug)]
pub struct ItemInfo {
    pub id: i32,
    pub item_type: ItemType,
    pub name: Option<String>,
    pub content: String,
    pub description: String,
    pub is_favourite: bool,
    pub last_used_at: Option<DateTimeParts>,
    pub tags: Vec<String>,
    pub hovered: bool,
    pub highlighted: bool,
    pub copied: bool,
    pub description_open: bool,
}

/// A group as plain values.
pub struct GroupInfoView {
    pub id: i32,
    pub name: Seq<char>,
    pub description: Seq<char>,
    pub item_count: usize,
    pub hovered: bool,
}

/// An item as plain values.
pub struct ItemInfoView {
    pub id: i32,
    pub item_type: ItemType,
    pub name: Option<Seq<char>>,
    pub content: Seq<char>,
    pub description: Seq<char>,
    pub is_favourite: bool,
    pub last_used_at: Option<DateTimeParts>,
    pub tags: Seq<Seq<char>>,
    pub hovered: bool,
    pub highlighted: bool,
    pub copied: bool,
    pub description_open: bool,
}

/// The dashboard as plain values.
pub struct DashboardView {
    pub group_list: Seq<GroupInfoView>,
    pub group_selected: GroupInfoView,
    pub item_filter: ItemFilter,
    pub item_list: Seq<ItemInfoView>,
    pub item_editor: Option<ItemEditorView>,
    pub search_query: Seq<char>,
    pub search_result: Option<Seq<SearchResultView>>,
    pub group_navigator_open: bool,
    pub group_description_open: bool,
    pub status_message: StatusMessageView,
    pub pending_highlight: Option<i32>,
}

impl View for GroupInfo {
    type V = GroupInfoView;

    open spec fn view(&self) -> GroupInfoView {
        GroupInfoView {
            id: self.id,
            name: self.name@,
            description: self.description@,
            item_count: self.item_count,
            hovered: self.hovered,
        }
    }
}

impl DeepView for GroupInfo {
    type V = GroupInfoView;

    open spec fn deep_view(&self) -> GroupInfoView {
        self@
    }
}

impl View for ItemInfo {
    type V = ItemInfoView;

    open spec fn view(&self) -> ItemInfoView {
        ItemInfoView {
            id: self.id,
            item_type: self.item_type,
            name: self.name.deep_view(),
            content: self.content@,
            description: self.description@,
            is_favourite: self.is_favourite,
            last_used_at: self.last_used_at,
            tags: self.tags.deep_view(),
            hovered: self.hovered,
            highlighted: self.highlighted,
            copied: self.copied,
            description_open: self.description_open,
        }
    }
}

impl DeepView for ItemInfo {
    type V = ItemInfoView;

    open spec fn deep_view(&self) -> ItemInfoView {
        self@
    }
}

impl View for Dashboard {
    type V = DashboardView;

    open spec fn view(&self) -> DashboardView {
        DashboardView {
            group_list: self.group_list.deep_view(),
            group_selected: self.group_selected@,
            item_filter: self.item_filter,
            item_list: self.item_list.deep_view(),
            item_editor: self.item_editor.deep_view(),
            search_query: self.search_query@,
            search_result: self.search_result.deep_view(),
            group_navigator_open: self.group_navigator_open,
            group_description_open: self.group_description_open,
            status_message: self.status_message@,
            pending_highlight: self.pending_highlight,
        }
    }
}

/// Copies a list of texts.
pub fn clone_strings(v: &Vec<String>) -> (r: Vec<String>)
    ensures
        r.deep_view() == v.deep_view(),
{
    let mut out: Vec<String> = Vec::new();
    let mut i: usize = 0;
    while i < v.len()
        invariant
            i <= v.len(),
            out.deep_view() == v.deep_view().subrange(0, i as int),
        decreases v.len() - i,
    {
        let s = v[i].clone();
        let ghost before = out.deep_view();
        out.push(s);
        proof {
            assert(out.deep_view() =~= before.push(v.deep_view()[i as int]));
            assert(out.deep_view() =~= v.deep_view().subrange(0, i + 1));
        }
        i = i + 1;
    }
    assert(v.deep_view().subrange(0, i as int) =~= v.deep_view());
    out
}

impl Clone for GroupInfo {
    fn clone(&self) -> (r: Self)
        ensures
            r@ == self@,
    {
        GroupInfo {
            id: self.id,
            name: self.name.clone(),
            description: self.description.clone(),
            item_count: self.item_count,
            hovered: self.hovered,
        }
    }
}

impl Clone for ItemInfo {
    fn clone(&self) -> (r: Self)
        ensures
            r@ == self@,
    {
        ItemInfo {
            id: self.id,
            item_type: self.item_type,
            name: crate::components::status_bar::clone_opt_string(&self.name),
            content: self.content.clone(),
            description: self.description.clone(),
            is_favourite: self.is_favourite,
            last_used_at: self.last_used_at,
            tags: clone_strings(&self.tags),
            hovered: self.hovered,
            highlighted: self.highlighted,
            copied: self.copied,
            description_open: self.description_open,
        }
    }
}

/// The group selected before any is known: id 0, no name, no description,
/// no items, not hovered.
pub open spec fn blank_group() -> GroupInfoView {
    GroupInfoView { id: 0, name: Seq::empty(), description: Seq::empty(), item_count: 0, hovered: false }
}

impl Default for GroupInfo {
    fn default() -> (r: Self)
        ensures
            r@ == blank_group(),
    {
        GroupInfo { id: 0, name: String::new(), description: String::new(), item_count: 0, hovered: false }
    }
}

/// Messages of the dashboard.
#[derive(Debug)]
pub enum DashboardMessage {
    LoadDashboard,
    SetGroupList(Result<Vec<GroupRow>, String>),
    SetGroupSelected(GroupInfo),
    LoadGroupSelected,
    SetItemList(Result<Vec<(ItemRow, Vec<String>)>, String>),
    SetFilter(ItemFilter),
    SetScreen(AppScreen),
    SetTheme,
    SetSearchQuery(Option<String>),
    Search,
    SetSearchResult(Result<Vec<SearchRow>, String>),
    ClearSearchResult,
    ScrollToSearchResult(i32, i32),
    SetGroupNavigatoOpen,
    SetGroupHovered(i32),
    SetGroupDescriptionOpen,
    SetItemFavourite(i32),
    /// The outcome of storing whether an item is a favourite.
    ItemFavouriteSaved(i32, bool, Result<(), String>),
    SetItemUsed(i32),
    SetItemHovered(i32),
    HighlightItem(i32),
    CopyItemContent(i32),
    /// The content of the item was put on the clipboard.
    ItemCopied(i32),
    RunCommand(String),
    OpenNewGroupBox,
    OpenEditGroupBox(GroupInfo),
    OpenDeleteGroupBox(GroupInfo),
    OpenNewItemBox(ItemType),
    OpenEditItemBox(ItemInfo),
    OpenDeleteItemBox(ItemInfo),
    SetItemEditorName(String),
    /// The content editor now holds this text.
    SetItemEditorContent(String),
    /// The description editor now holds this text.
    SetItemEditorDescription(String),
    SetItemEditorTag(String),
    AddToItemEditorTags,
    RemoveFromItemEditorTags(usize),
    SetItemEditorError(String),
    /// Closes the editor at once.
    CloseItemEditor,
    /// Submits the editor's form; the editor stays open until the outcome
    /// comes back.
    SubmitItemForm,
    /// The outcome of a submitted form: closes the editor, or shows the error.
    ItemEditorDone(Result<(), String>),
    SetStatusMessage(StatusMessage),
    Nothing,
}

impl Clone for DashboardMessage {
    fn clone(&self) -> Self {
        match self {
            DashboardMessage::LoadDashboard => DashboardMessage::LoadDashboard,
            DashboardMessage::SetGroupList(r) => DashboardMessage::SetGroupList(match r {
                Ok(v) => Ok(v.clone()),
                Err(e) => Err(e.clone()),
            }),
            DashboardMessage::SetGroupSelected(g) => DashboardMessage::SetGroupSelected(g.clone()),
            DashboardMessage::LoadGroupSelected => DashboardMessage::LoadGroupSelected,
            DashboardMessage::SetItemList(r) => DashboardMessage::SetItemList(match r {
                Ok(v) => Ok(v.clone()),
                Err(e) => Err(e.clone()),
            }),
            DashboardMessage::SetFilter(f) => DashboardMessage::SetFilter(*f),
            DashboardMessage::SetScreen(s) => DashboardMessage::SetScreen(*s),
            DashboardMessage::SetTheme => DashboardMessage::SetTheme,
            DashboardMessage::SetSearchQuery(q) => DashboardMessage::SetSearchQuery(
                crate::components::status_bar::clone_opt_string(q),
            ),
            DashboardMessage::Search => DashboardMessage::Search,
            DashboardMessage::SetSearchResult(r) => DashboardMessage::SetSearchResult(match r {
                Ok(v) => Ok(v.clone()),
                Err(e) => Err(e.clone()),
            }),
            DashboardMessage::ClearSearchResult => DashboardMessage::ClearSearchResult,
            DashboardMessage::ScrollToSearchResult(a, b) => DashboardMessage::ScrollToSearchResult(*a, *b),
            DashboardMessage::SetGroupNavigatoOpen => DashboardMessage::SetGroupNavigatoOpen,
            DashboardMessage::SetGroupHovered(i) => DashboardMessage::SetGroupHovered(*i),
            DashboardMessage::SetGroupDescriptionOpen => DashboardMessage::SetGroupDescriptionOpen,
            DashboardMessage::SetItemFavourite(i) => DashboardMessage::SetItemFavourite(*i),
            DashboardMessage::ItemFavouriteSaved(i, f, r) => DashboardMessage::ItemFavouriteSaved(*i, *f, match r {
                Ok(()) => Ok(()),
                Err(e) => Err(e.clone()),
            }),
            DashboardMessage::SetItemUsed(i) => DashboardMessage::SetItemUsed(*i),
            DashboardMessage::SetItemHovered(i) => DashboardMessage::SetItemHovered(*i),
            DashboardMessage::HighlightItem(i) => DashboardMessage::HighlightItem(*i),
            DashboardMessage::CopyItemContent(i) => DashboardMessage::CopyItemContent(*i),
            DashboardMessage::ItemCopied(i) => DashboardMessage::ItemCopied(*i),
            DashboardMessage::RunCommand(c) => DashboardMessage::RunCommand(c.clone()),
            DashboardMessage::OpenNewGroupBox => DashboardMessage::OpenNewGroupBox,
            DashboardMessage::OpenEditGroupBox(g) => DashboardMessage::OpenEditGroupBox(g.clone()),
            DashboardMessage::OpenDeleteGroupBox(g) => DashboardMessage::OpenDeleteGroupBox(g.clone()),
            DashboardMessage::OpenNewItemBox(t) => DashboardMessage::OpenNewItemBox(*t),
            DashboardMessage::OpenEditItemBox(i) => DashboardMessage::OpenEditItemBox(i.clone()),
            DashboardMessage::OpenDeleteItemBox(i) => DashboardMessage::OpenDeleteItemBox(i.clone()),
            DashboardMessage::SetItemEditorName(n) => DashboardMessage::SetItemEditorName(n.clone()),
            DashboardMessage::SetItemEditorContent(n) => DashboardMessage::SetItemEditorContent(n.clone()),
            DashboardMessage::SetItemEditorDescription(n) => DashboardMessage::SetItemEditorDescription(n.clone()),
            DashboardMessage::SetItemEditorTag(n) => DashboardMessage::SetItemEditorTag(n.clone()),
            DashboardMessage::AddToItemEditorTags => DashboardMessage::AddToItemEditorTags,
            DashboardMessage::RemoveFromItemEditorTags(i) => DashboardMessage::RemoveFromItemEditorTags(*i),
            DashboardMessage::SetItemEditorError(e) => DashboardMessage::SetItemEditorError(e.clone()),
            DashboardMessage::CloseItemEditor => DashboardMessage::CloseItemEditor,
            DashboardMessage::SubmitItemForm => DashboardMessage::SubmitItemForm,
            DashboardMessage::ItemEditorDone(r) => DashboardMessage::ItemEditorDone(match r {
                Ok(()) => Ok(()),
                Err(e) => Err(e.clone()),
            }),
            DashboardMessage::SetStatusMessage(m) => DashboardMessage::SetStatusMessage(m.clone()),
            DashboardMessage::Nothing => DashboardMessage::Nothing,
        }
    }
}

/// Outside work that the dashboard asks for. Each comes back as a message:
/// `LoadGroups` as `SetGroupList`, `LoadItems` as `SetItemList`, `Search` as
/// `SetSearchResult`, the creations, updates and deletions as
/// `ItemEditorDone`, `SetFavourite` as `ItemFavouriteSaved`, `WriteClipboard`
/// as `ItemCopied` once the text is on the clipboard, and `MarkUsed` as
/// nothing.
#[derive(Debug)]
pub enum DashboardRequest {
    /// Load the groups, with the special groups first.
    LoadGroups,
    /// Load the items that the query names, with their tags.
    LoadItems(ItemQuery),
    /// Search the items for the query, returning at most `limit` of them.
    Search { query: String, limit: i32 },
    /// Store whether an item is a favourite.
    SetFavourite { id: i32, favourite: bool },
    /// Store that an item was used now.
    MarkUsed(i32),
    /// Put the content of an item on the clipboard.
    WriteClipboard { id: i32, content: String },
    CreateGroup { name: String, description: String },
    UpdateGroup { id: i32, name: String, description: String },
    DeleteGroup(i32),
    CreateItem {
        group_id: i32,
        item_type: String,
        name: Option<String>,
        content: String,
        description: String,
        tags: Vec<String>,
    },
    UpdateItem {
        id: i32,
        item_type: String,
        name: Option<String>,
        content: String,
        description: String,
        tags: Vec<String>,
    },
    DeleteItem(i32),
}

} // verus!
