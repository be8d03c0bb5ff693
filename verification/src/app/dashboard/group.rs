use vstd::prelude::*;
use vstd::string::*;
use crate::app::dashboard::{GroupInfo, ItemInfo};
use crate::utils::formatting::{clamp_name, clamped};
use crate::utils::text::same_text;

verus! {

/// New items can be added to a group unless it is one of the special groups
/// "Favourites" and "Recent".
pub open spec fn takes_items(name: Seq<char>) -> bool {
    name != "Favourites"@ && name != "Recent"@
}

/// Whether the group view offers to add commands and scripts to a group.
pub fn group_accepts_items(name: &str) -> (r: bool)
    ensures
        r == takes_items(name@),
{
    !same_text(name, "Favourites") && !same_text(name, "Recent")
}

/// Whether the group view offers to edit a group: any group that takes
/// items, except "Default".
pub fn group_is_editable(name: &str) -> (r: bool)
    ensures
        r == (takes_items(name@) && name@ != "Default"@),
{
    group_accepts_items(name) && !same_text(name, "Default")
}

/// Whether a group's card offers to delete it: only while hovered, and
/// never for "Favourites", "Recent" or "Default".
pub fn group_card_deletable(group: &GroupInfo) -> (r: bool)
    ensures
        r == (group.hovered && takes_items(group@.name) && group@.name != "Default"@),
{
    group.hovered && group_is_editable(group.name.as_str())
}

/// The description that the group view shows: none where it is empty, the
/// whole text where the description is open, and the text clamped to 120
/// characters otherwise.
pub fn description_preview(description: &str, open: bool) -> (r: Option<String>)
    ensures
        description@.len() == 0 ==> r is None,
        description@.len() > 0 && open ==> (r matches Some(t) && t@ == description@),
        description@.len() > 0 && !open ==> (r matches Some(t) && t@ == clamped(description@, 120)),
{
    if description.unicode_len() == 0 {
        None
    } else if open {
        Some(description.to_owned())
    } else {
        Some(clamp_name(description, 120))
    }
}

/// Whether an item's card shows its star: always for a favourite, and for
/// any other item while the pointer is over the card.
pub fn item_star_shown(item: &ItemInfo) -> (r: bool)
    ensures
        r == (item.is_favourite || item.hovered),
{
    item.is_favourite || item.hovered
}

/// Whether an item's card shows its edit and delete buttons: only while the
/// pointer is over the card.
pub fn item_actions_shown(item: &ItemInfo) -> (r: bool)
    ensures
        r == item.hovered,
{
    item.hovered
}

} // verus!
