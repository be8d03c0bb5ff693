use vstd::prelude::*;
use vstd::string::*;
use crate::utils::text::{trim, trimmed};
use crate::services::tags::{clean_tags, cleaned_tags, keeps_nonblank_in_order, lemma_cleaned_tags_keep_nonblank};

verus! {

/// A command as the database stores it.
#[derive(Clone, Debug)]
pub struct CommandRow {
    pub id: i32,
    pub group_id: i32,
    pub content: String,
    pub description: String,
    pub is_favourite: i32,
    pub last_used_at: Option<String>,
}

/// What a command is stored with: its content trimmed and its tags cleaned,
/// or an error where nothing is left of the content.
pub open spec fn command_fields(content: Seq<char>, tags: Seq<Seq<char>>) -> Result<(Seq<char>, Seq<Seq<char>>), Seq<char>> {
    if trimmed(content).len() == 0 {
        Err("Command content is required"@)
    } else {
        Ok((trimmed(content), cleaned_tags(tags)))
    }
}

/// Prepares the content and tags of a command before it is created or
/// updated.
pub fn prepare_command(content: String, tags: Vec<String>) -> (r: Result<(String, Vec<String>), String>)
    ensures
        match command_fields(content@, tags.deep_view()) {
            Ok(v) => r matches Ok(f) && f.0@ == v.0 && f.1.deep_view() == v.1,
            Err(e) => r matches Err(m) && m@ == e,
        },
{
    let content = trim(content.as_str());
    if content.unicode_len() == 0 {
        return Err("Command content is required".to_owned());
    }
    let tags = clean_tags(&tags);
    Ok((content, tags))
}

/// A command whose content is not blank is prepared with its content trimmed
/// and with its tags trimmed, in their order, without the blank ones; every
/// tag that is not blank is kept.
pub proof fn lemma_prepared_command_keeps_tags(content: Seq<char>, tags: Seq<Seq<char>>)
    requires
        trimmed(content).len() > 0,
    ensures
        command_fields(content, tags) matches Ok(v) && v.0 == trimmed(content) && keeps_nonblank_in_order(tags, v.1),
{
    lemma_cleaned_tags_keep_nonblank(tags);
}

} // verus!
