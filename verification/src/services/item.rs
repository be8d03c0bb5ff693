use vstd::prelude::*;
use vstd::string::*;
use crate::utils::text::{byte_len, same_text, text_byte_len, trim, trimmed};
use crate::services::tags::{clean_tags, cleaned_tags};
use crate::services::group::{FAVOURITES_GROUP_ID, RECENT_GROUP_ID};

verus! {

/// An item (command or script) as the database stores it.
#[derive(Clone, Debug)]
pub struct ItemRow {
    pub id: i32,
    pub group_id: i32,
    pub item_type: String,
    pub name: Option<String>,
    pub content: String,
    pub description: String,
    pub is_favourite: i32,
    pub last_used_at: Option<String>,
    pub created_at: String,
}

/// An item row as plain values.
pub struct ItemRowView {
    pub id: i32,
    pub group_id: i32,
    pub item_type: Seq<char>,
    pub name: Option<Seq<char>>,
    pub content: Seq<char>,
    pub description: Seq<char>,
    pub is_favourite: i32,
    pub last_used_at: Option<Seq<char>>,
    pub created_at: Seq<char>,
}

impl View for ItemRow {
    type V = ItemRowView;

    open spec fn view(&self) -> ItemRowView {
        ItemRowView {
            id: self.id,
            group_id: self.group_id,
            item_type: self.item_type@,
            name: self.name.deep_view(),
            content: self.content@,
            description: self.description@,
            is_favourite: self.is_favourite,
            last_used_at: self.last_used_at.deep_view(),
            created_at: self.created_at@,
        }
    }
}

impl DeepView for ItemRow {
    type V = ItemRowView;

    open spec fn deep_view(&self) -> ItemRowView {
        self@
    }
}

/// How many recently used items the "Recent" group shows.
pub const RECENT_ITEMS_LIMIT: i32 = 50;

/// Which items a group shows.
#[derive(Clone, Copy, Debug, PartialEq, Eq, Structural)]
pub enum ItemQuery {
    /// The favourite items, of the kinds asked for.
    Favourites { commands: bool, scripts: bool },
    /// The most recently used items, of the kinds asked for, at most `limit`.
    Recents { commands: bool, scripts: bool, limit: i32 },
    /// The items of one group, of the kinds asked for.
    Group { group_id: i32, commands: bool, scripts: bool },
}

/// The items that a group shows: the special groups "Favourites" and
/// "Recent" gather items from every group, any other shows its own.
pub open spec fn items_of(group_id: i32, commands: bool, scripts: bool) -> ItemQuery {
    if group_id == FAVOURITES_GROUP_ID {
        ItemQuery::Favourites { commands, scripts }
    } else if group_id == RECENT_GROUP_ID {
        ItemQuery::Recents { commands, scripts, limit: RECENT_ITEMS_LIMIT }
    } else {
        ItemQuery::Group { group_id, commands, scripts }
    }
}

/// Decides which items to load for a group.
pub fn item_query(group_id: i32, commands: bool, scripts: bool) -> (r: ItemQuery)
    ensures
        r == items_of(group_id, commands, scripts),
{
    if group_id == FAVOURITES_GROUP_ID {
        ItemQuery::Favourites { commands, scripts }
    } else if group_id == RECENT_GROUP_ID {
        ItemQuery::Recents { commands, scripts, limit: RECENT_ITEMS_LIMIT }
    } else {
        ItemQuery::Group { group_id, commands, scripts }
    }
}

/// The fields of an item once validated: type, name, content, description
/// and tags, each trimmed.
pub type ItemFields = (String, Option<String>, String, String, Vec<String>);

/// Validated item fields as plain values.
pub type ItemFieldsView = (Seq<char>, Option<Seq<char>>, Seq<char>, Seq<char>, Seq<Seq<char>>);

/// A trimmed name, or none where nothing is left of it.
pub open spec fn clean_name(name: Option<Seq<char>>) -> Option<Seq<char>> {
    match name {
        Some(n) => if trimmed(n).len() == 0 { None } else { Some(trimmed(n)) },
        None => None,
    }
}

/// The first tag, in order, that is longer than 20 bytes.
pub open spec fn first_long_tag(tags: Seq<Seq<char>>) -> Option<Seq<char>>
    decreases tags.len(),
{
    if tags.len() == 0 {
        None
    } else if byte_len(tags[0]) > 20 {
        Some(tags[0])
    } else {
        first_long_tag(tags.drop_first())
    }
}

/// What validating an item's fields gives: the fields trimmed (a name with
/// nothing left becomes none, tags with nothing left are dropped), or the
/// first rule that they break, in this order: the type is "command" or
/// "script"; a script has a name of at most 100 bytes; the content is not
/// empty, and a command's content is at most 500 bytes; the description is
/// at most 1000 bytes; there are at most 30 tags; no tag is longer than 20
/// bytes.
pub open spec fn item_fields(
    item_type: Seq<char>,
    name: Option<Seq<char>>,
    content: Seq<char>,
    description: Seq<char>,
    tags: Seq<Seq<char>>,
) -> Result<ItemFieldsView, Seq<char>> {
    let t = trimmed(item_type);
    let n = clean_name(name);
    let c = trimmed(content);
    let d = trimmed(description);
    let g = cleaned_tags(tags);
    if t != "command"@ && t != "script"@ {
        Err("Invalid item type"@)
    } else if t == "script"@ && n is None {
        Err("Name is required"@)
    } else if t == "script"@ && byte_len(n->0) > 100 {
        Err("Name is too long (max 100 chars)"@)
    } else if c.len() == 0 {
        Err("Content is required"@)
    } else if t == "command"@ && byte_len(c) > 500 {
        Err("Content is too long (max 500 characters: Use script instead)"@)
    } else if byte_len(d) > 1000 {
        Err("Description is too long (max 1000 characters)"@)
    } else if g.len() > 30 {
        Err("Too many tags (max 30 tags)"@)
    } else if first_long_tag(g) is Some {
        Err("Tag '"@ + first_long_tag(g)->0 + "' is too long (max 20 characters)"@)
    } else {
        Ok((t, n, c, d, g))
    }
}

/// The plain values of a validation result.
pub open spec fn item_fields_view(r: Result<ItemFields, String>) -> Result<ItemFieldsView, Seq<char>> {
    match r {
        Ok(f) => Ok((f.0@, f.1.deep_view(), f.2@, f.3@, f.4.deep_view())),
        Err(e) => Err(e@),
    }
}

fn clean_item_name(name: Option<String>) -> (r: Option<String>)
    ensures
        r.deep_view() == clean_name(name.deep_view()),
{
    match name {
        Some(n) => {
            let t = trim(n.as_str());
            if t.unicode_len() == 0 {
                None
            } else {
                Some(t)
            }
        },
        None => None,
    }
}

/// Finds the first tag longer than 20 bytes.
fn find_long_tag(tags: &Vec<String>) -> (r: Option<usize>)
    ensures
        match first_long_tag(tags.deep_view()) {
            Some(t) => r matches Some(i) && i < tags.len() && tags[i as int]@ == t,
            None => r is None,
        },
{
    let ghost all = tags.deep_view();
    let mut i: usize = 0;
    assert(all.subrange(0, all.len() as int) =~= all);
    while i < tags.len()
        invariant
            i <= tags.len(),
            all == tags.deep_view(),
            first_long_tag(all) == first_long_tag(all.subrange(i as int, all.len() as int)),
        decreases tags.len() - i,
    {
        let ghost rest = all.subrange(i as int, all.len() as int);
        assert(rest[0] == tags[i as int]@);
        if text_byte_len(tags[i].as_str()) > 20 {
            return Some(i);
        }
        assert(rest.drop_first() =~= all.subrange(i + 1, all.len() as int));
        i = i + 1;
    }
    assert(all.subrange(i as int, all.len() as int) =~= Seq::<Seq<char>>::empty());
    None
}

/// Validates and normalises the fields of an item before it is stored.
pub fn validate_fields(
    item_type: &str,
    name: Option<String>,
    content: String,
    description: String,
    tags: Vec<String>,
) -> (r: Result<ItemFields, String>)
    ensures
        item_fields_view(r) == item_fields(
            item_type@,
            name.deep_view(),
            content@,
            description@,
            tags.deep_view(),
        ),
{
    let item_type = trim(item_type);
    let name = clean_item_name(name);
    let content = trim(content.as_str());
    let description = trim(description.as_str());
    let tags = clean_tags(&tags);

    let is_command = same_text(item_type.as_str(), "command");
    let is_script = same_text(item_type.as_str(), "script");

    // Item type
    if !is_command && !is_script {
        return Err("Invalid item type".to_owned());
    }
    // Script name
    if is_script {
        match &name {
            Some(n) => {
                if text_byte_len(n.as_str()) > 100 {
                    return Err("Name is too long (max 100 chars)".to_owned());
                }
            },
            None => {
                return Err("Name is required".to_owned());
            },
        }
    }
    // Content
    if content.unicode_len() == 0 {
        return Err("Content is required".to_owned());
    } else if is_command && text_byte_len(content.as_str()) > 500 {
        return Err("Content is too long (max 500 characters: Use script instead)".to_owned());
    }
    // Description
    if text_byte_len(description.as_str()) > 1000 {
        return Err("Description is too long (max 1000 characters)".to_owned());
    }
    // Tags
    if tags.len() > 30 {
        return Err("Too many tags (max 30 tags)".to_owned());
    }
    match find_long_tag(&tags) {
        Some(i) => {
            let mut msg = "Tag '".to_owned();
            msg.append(tags[i].as_str());
            msg.append("' is too long (max 20 characters)");
            return Err(msg);
        },
        None => {},
    }
    Ok((item_type, name, content, description, tags))
}

} // verus!

verus! {

/// Validating fields that passed validation gives them back unchanged.
pub proof fn lemma_validate_fields_idempotent(
    item_type: Seq<char>,
    name: Option<Seq<char>>,
    content: Seq<char>,
    description: Seq<char>,
    tags: Seq<Seq<char>>,
)
    requires
        item_fields(item_type, name, content, description, tags) is Ok,
    ensures
        ({
            let v = item_fields(item_type, name, content, description, tags)->Ok_0;
            item_fields(v.0, v.1, v.2, v.3, v.4) == Ok::<ItemFieldsView, Seq<char>>(v)
        }),
{
    crate::utils::text::lemma_trimmed_idempotent(item_type);
    crate::utils::text::lemma_trimmed_idempotent(content);
    crate::utils::text::lemma_trimmed_idempotent(description);
    crate::services::tags::lemma_cleaned_tags_idempotent(tags);
    if let Some(n) = name {
        crate::utils::text::lemma_trimmed_idempotent(n);
    }
}

/// Fields that passed validation keep to every limit: the type is "command"
/// or "script", a script has a name of at most 100 bytes, the content is not
/// empty and a command's is at most 500 bytes, the description is at most
/// 1000 bytes, and there are at most 30 tags, none empty and none longer than
/// 20 bytes.
pub proof fn lemma_validated_fields_within_limits(
    item_type: Seq<char>,
    name: Option<Seq<char>>,
    content: Seq<char>,
    description: Seq<char>,
    tags: Seq<Seq<char>>,
)
    requires
        item_fields(item_type, name, content, description, tags) is Ok,
    ensures
        ({
            let v = item_fields(item_type, name, content, description, tags)->Ok_0;
            &&& v.0 == "command"@ || v.0 == "script"@
            &&& v.0 == "script"@ ==> v.1 is Some && byte_len(v.1->0) <= 100
            &&& v.1 is Some ==> v.1->0.len() > 0
            &&& v.2.len() > 0
            &&& v.0 == "command"@ ==> byte_len(v.2) <= 500
            &&& byte_len(v.3) <= 1000
            &&& v.4.len() <= 30
            &&& forall|i: int| 0 <= i < v.4.len() ==> (#[trigger] v.4[i]).len() > 0 && byte_len(v.4[i]) <= 20
        }),
{
    let g = cleaned_tags(tags);
    crate::services::tags::lemma_cleaned_tags_shape(tags);
    lemma_no_long_tag(g);
}

/// Fields that passed validation are the given ones trimmed: the type, the
/// content and the description trimmed, and the tags trimmed, in their
/// order, without the blank ones, every tag that is not blank kept.
pub proof fn lemma_validated_fields_are_trimmed(
    item_type: Seq<char>,
    name: Option<Seq<char>>,
    content: Seq<char>,
    description: Seq<char>,
    tags: Seq<Seq<char>>,
)
    requires
        item_fields(item_type, name, content, description, tags) is Ok,
    ensures
        ({
            let v = item_fields(item_type, name, content, description, tags)->Ok_0;
            &&& v.0 == trimmed(item_type)
            &&& v.2 == trimmed(content)
            &&& v.3 == trimmed(description)
            &&& crate::services::tags::keeps_nonblank_in_order(tags, v.4)
        }),
{
    crate::services::tags::lemma_cleaned_tags_keep_nonblank(tags);
}

proof fn lemma_no_long_tag(tags: Seq<Seq<char>>)
    requires
        first_long_tag(tags) is None,
    ensures
        forall|i: int| 0 <= i < tags.len() ==> byte_len(#[trigger] tags[i]) <= 20,
    decreases tags.len(),
{
    if tags.len() > 0 {
        lemma_no_long_tag(tags.drop_first());
        assert forall|i: int| 0 <= i < tags.len() implies byte_len(#[trigger] tags[i]) <= 20 by {
            if i > 0 {
                assert(tags[i] == tags.drop_first()[i - 1]);
            }
        }
    }
}

} // verus!
