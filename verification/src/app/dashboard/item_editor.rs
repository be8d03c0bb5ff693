use vstd::prelude::*;
use crate::components::status_bar::{clone_opt_string, Accent};
use crate::app::dashboard::{clone_strings, Dashboard};

verus! {

/// Which dialog the editor shows.
#[derive(Clone, Copy, Debug, PartialEq, Eq, Structural)]
pub enum Dialog {
    NewGroup,
    EditGroup,
    DeleteGroup,
    NewCommand,
    EditCommand,
    DeleteCommand,
    NewScript,
    EditScript,
    DeleteScript,
}

impl Default for Dialog {
    fn default() -> (r: Self)
        ensures
            r == Dialog::NewGroup,
    {
        Dialog::NewGroup
    }
}

/// The dialog that creates, edits or deletes a group or an item. A field is
/// none where the dialog does not show it; `content` and `description` hold
/// the text of their editors.
#[derive(Debug)]
pub struct ItemEditor {
    pub id: Option<i32>,
    pub name: Option<String>,
    pub content: Option<String>,
    pub description: Option<String>,
    pub tag: Option<String>,
    pub tags: Option<Vec<String>>,
    pub error: Option<String>,
    pub dialog: Dialog,
}

/// An editor as plain values.
pub struct ItemEditorView {
    pub id: Option<i32>,
    pub name: Option<Seq<char>>,
    pub content: Option<Seq<char>>,
    pub description: Option<Seq<char>>,
    pub tag: Option<Seq<char>>,
    pub tags: Option<Seq<Seq<char>>>,
    pub error: Option<Seq<char>>,
    pub dialog: Dialog,
}

impl View for ItemEditor {
    type V = ItemEditorView;

    open spec fn view(&self) -> ItemEditorView {
        ItemEditorView {
            id: self.id,
            name: self.name.deep_view(),
            content: self.content.deep_view(),
            description: self.description.deep_view(),
            tag: self.tag.deep_view(),
            tags: self.tags.deep_view(),
            error: self.error.deep_view(),
            dialog: self.dialog,
        }
    }
}

impl DeepView for ItemEditor {
    type V = ItemEditorView;

    open spec fn deep_view(&self) -> ItemEditorView {
        self@
    }
}

/// An editor that shows nothing but the given dialog.
pub open spec fn blank_editor(dialog: Dialog) -> ItemEditorView {
    ItemEditorView {
        id: None,
        name: None,
        content: None,
        description: None,
        tag: None,
        tags: None,
        error: None,
        dialog,
    }
}

impl Default for ItemEditor {
    fn default() -> (r: Self)
        ensures
            r@ == blank_editor(Dialog::NewGroup),
    {
        ItemEditor {
            id: None,
            name: None,
            content: None,
            description: None,
            tag: None,
            tags: None,
            error: None,
            dialog: Dialog::NewGroup,
        }
    }
}

impl Clone for ItemEditor {
    fn clone(&self) -> (r: Self)
        ensures
            r@ == self@,
    {
        ItemEditor {
            id: self.id,
            name: clone_opt_string(&self.name),
            content: clone_opt_string(&self.content),
            description: clone_opt_string(&self.description),
            tag: clone_opt_string(&self.tag),
            tags: match &self.tags {
                Some(t) => Some(clone_strings(t)),
                None => None,
            },
            error: clone_opt_string(&self.error),
            dialog: self.dialog,
        }
    }
}

/// The accent of each dialog: creating shows in the success colour, editing
/// in the primary colour and deleting in the danger colour.
pub open spec fn dialog_accent(dialog: Dialog) -> Accent {
    match dialog {
        Dialog::NewGroup | Dialog::NewCommand | Dialog::NewScript => Accent::Success,
        Dialog::EditGroup | Dialog::EditCommand | Dialog::EditScript => Accent::Primary,
        Dialog::DeleteGroup | Dialog::DeleteCommand | Dialog::DeleteScript => Accent::Danger,
    }
}

impl Dashboard {
    /// The colour in which a dialog is drawn.
    pub fn accent_color(item_box: &Dialog) -> (r: Accent)
        ensures
            r == dialog_accent(*item_box),
    {
        match item_box {
            Dialog::NewGroup | Dialog::NewCommand | Dialog::NewScript => Accent::Success,
            Dialog::EditGroup | Dialog::EditCommand | Dialog::EditScript => Accent::Primary,
            Dialog::DeleteGroup | Dialog::DeleteCommand | Dialog::DeleteScript => Accent::Danger,
        }
    }
}

} // verus!
