use vstd::prelude::*;
use vstd::string::*;
use crate::utils::text::{byte_len, same_text, text_byte_len, trim, trimmed};

verus! {

/// A group as the database stores it, with the number of its items.
#[derive(Clone, Debug)]
pub struct GroupRow {
    pub id: i32,
    pub name: String,
    pub description: String,
    pub item_count: i32,
}

/// A group row as plain values.
pub struct GroupRowView {
    pub id: i32,
    pub name: Seq<char>,
    pub description: Seq<char>,
    pub item_count: i32,
}

impl View for GroupRow {
    type V = GroupRowView;

    open spec fn view(&self) -> GroupRowView {
        GroupRowView {
            id: self.id,
            name: self.name@,
            description: self.description@,
            item_count: self.item_count,
        }
    }
}

impl DeepView for GroupRow {
    type V = GroupRowView;

    open spec fn deep_view(&self) -> GroupRowView {
        self@
    }
}

/// The group that holds what fits in no other; it cannot be deleted.
pub const DEFAULT_GROUP_ID: i32 = 1;

/// The special group of recently used items; it is not stored.
pub const RECENT_GROUP_ID: i32 = -1;

/// The special group of favourite items; it is not stored.
pub const FAVOURITES_GROUP_ID: i32 = -2;

/// The text that describes the "Recent" group.
pub open spec fn recent_description() -> Seq<char> {
    "Echoes of your latest thoughts linger here - the spells you whispered to the machine, still warm, still within reach."@
}

/// The text that describes the "Favourites" group.
pub open spec fn favourites_description() -> Seq<char> {
    "The ones you chose to keep close - fragments of spells that earned your trust and found a home."@
}

/// The groups that the navigator lists: "Recent" with the count of used
/// items, then "Favourites" with the count of favourite items, then the
/// stored groups in their order.
pub open spec fn listed_groups(rows: Seq<GroupRowView>, recent_count: i32, favourite_count: i32) -> Seq<GroupRowView> {
    seq![
        GroupRowView {
            id: RECENT_GROUP_ID,
            name: "Recent"@,
            description: recent_description(),
            item_count: recent_count,
        },
        GroupRowView {
            id: FAVOURITES_GROUP_ID,
            name: "Favourites"@,
            description: favourites_description(),
            item_count: favourite_count,
        },
    ] + rows
}

/// Puts the special groups in front of the stored ones.
pub fn with_special_groups(rows: Vec<GroupRow>, recent_count: i32, favourite_count: i32) -> (r: Vec<GroupRow>)
    ensures
        r.deep_view() == listed_groups(rows.deep_view(), recent_count, favourite_count),
{
    let mut rows = rows;
    let ghost stored = rows.deep_view();
    let mut out: Vec<GroupRow> = Vec::new();
    out.push(GroupRow {
        id: RECENT_GROUP_ID,
        name: "Recent".to_owned(),
        description: "Echoes of your latest thoughts linger here - the spells you whispered to the machine, still warm, still within reach.".to_owned(),
        item_count: recent_count,
    });
    out.push(GroupRow {
        id: FAVOURITES_GROUP_ID,
        name: "Favourites".to_owned(),
        description: "The ones you chose to keep close - fragments of spells that earned your trust and found a home.".to_owned(),
        item_count: favourite_count,
    });
    out.append(&mut rows);
    assert(out.deep_view() =~= listed_groups(stored, recent_count, favourite_count));
    out
}

/// The navigator lists "Recent" first and "Favourites" second, with the
/// given counts, and after them every stored group, in the order given.
pub proof fn lemma_listed_groups_keep_order(rows: Seq<GroupRowView>, recent_count: i32, favourite_count: i32)
    ensures
        ({
            let r = listed_groups(rows, recent_count, favourite_count);
            &&& r.len() == rows.len() + 2
            &&& r[0].id == RECENT_GROUP_ID && r[0].name == "Recent"@ && r[0].item_count == recent_count
            &&& r[1].id == FAVOURITES_GROUP_ID && r[1].name == "Favourites"@ && r[1].item_count == favourite_count
            &&& r.subrange(2, r.len() as int) == rows
            &&& forall|i: int| 0 <= i < rows.len() ==> r[i + 2] == #[trigger] rows[i]
        }),
{
    let r = listed_groups(rows, recent_count, favourite_count);
    assert(r.subrange(2, r.len() as int) =~= rows);
}

/// Why a group cannot be deleted, if it cannot: the special groups and the
/// default group stay.
pub open spec fn deletion_refusal(id: i32) -> Option<Seq<char>> {
    if id == RECENT_GROUP_ID {
        Some("Cannot delete 'Recent' group"@)
    } else if id == FAVOURITES_GROUP_ID {
        Some("Cannot delete 'Favourites' group"@)
    } else if id == DEFAULT_GROUP_ID {
        Some("Cannot delete 'Default' group"@)
    } else {
        None
    }
}

/// Checks that a group may be deleted.
pub fn check_group_deletable(id: i32) -> (r: Result<(), String>)
    ensures
        match deletion_refusal(id) {
            Some(e) => r matches Err(m) && m@ == e,
            None => r is Ok,
        },
{
    if id == RECENT_GROUP_ID {
        return Err("Cannot delete 'Recent' group".to_owned());
    }
    if id == FAVOURITES_GROUP_ID {
        return Err("Cannot delete 'Favourites' group".to_owned());
    }
    if id == DEFAULT_GROUP_ID {
        return Err("Cannot delete 'Default' group".to_owned());
    }
    Ok(())
}

/// Whether a name belongs to a group that the application keeps for itself.
pub open spec fn is_reserved_name(name: Seq<char>) -> bool {
    name == "Recent"@ || name == "Favourites"@ || name == "Default"@
}

/// What validating a group's fields gives: name and description trimmed, or
/// the first rule that they break, in this order: the name is not empty, is
/// at most 50 bytes and is not reserved; the description is at most 1000
/// bytes.
pub open spec fn group_fields(name: Seq<char>, description: Seq<char>) -> Result<(Seq<char>, Seq<char>), Seq<char>> {
    let n = trimmed(name);
    let d = trimmed(description);
    if n.len() == 0 {
        Err("Group name is required"@)
    } else if byte_len(n) > 50 {
        Err("Group name is too long (max 50 chars)"@)
    } else if is_reserved_name(n) {
        Err("Group name '"@ + n + "' is reserved"@)
    } else if byte_len(d) > 1000 {
        Err("Group description is too long"@)
    } else {
        Ok((n, d))
    }
}

/// The plain values of a group validation result.
pub open spec fn group_fields_view(r: Result<(String, String), String>) -> Result<(Seq<char>, Seq<char>), Seq<char>> {
    match r {
        Ok(f) => Ok((f.0@, f.1@)),
        Err(e) => Err(e@),
    }
}

/// Validates and normalises a group's name and description before they are
/// stored.
pub fn validate_fields(name: String, description: String) -> (r: Result<(String, String), String>)
    ensures
        group_fields_view(r) == group_fields(name@, description@),
{
    let name = trim(name.as_str());
    let description = trim(description.as_str());

    if name.unicode_len() == 0 {
        return Err("Group name is required".to_owned());
    }
    if text_byte_len(name.as_str()) > 50 {
        return Err("Group name is too long (max 50 chars)".to_owned());
    }
    if same_text(name.as_str(), "Recent") || same_text(name.as_str(), "Favourites")
        || same_text(name.as_str(), "Default") {
        let mut msg = "Group name '".to_owned();
        msg.append(name.as_str());
        msg.append("' is reserved");
        return Err(msg);
    }
    if text_byte_len(description.as_str()) > 1000 {
        return Err("Group description is too long".to_owned());
    }
    Ok((name, description))
}

} // verus!

verus! {

/// Validating a name and description that passed validation gives them back
/// unchanged.
pub proof fn lemma_validate_fields_idempotent(name: Seq<char>, description: Seq<char>)
    requires
        group_fields(name, description) is Ok,
    ensures
        group_fields(group_fields(name, description)->Ok_0.0, group_fields(name, description)->Ok_0.1)
            == group_fields(name, description),
{
    crate::utils::text::lemma_trimmed_idempotent(name);
    crate::utils::text::lemma_trimmed_idempotent(description);
}

/// A group that passed validation has a name that is not empty, at most 50
/// bytes long and not reserved, and a description of at most 1000 bytes.
pub proof fn lemma_validated_group_within_limits(name: Seq<char>, description: Seq<char>)
    requires
        group_fields(name, description) is Ok,
    ensures
        ({
            let v = group_fields(name, description)->Ok_0;
            &&& v.0.len() > 0
            &&& byte_len(v.0) <= 50
            &&& !is_reserved_name(v.0)
            &&& byte_len(v.1) <= 1000
        }),
{
}

} // verus!
