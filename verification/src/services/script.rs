use vstd::prelude::*;
use vstd::string::*;
use crate::utils::text::{trim, trimmed};
use crate::services::tags::{clean_tags, cleaned_tags, keeps_nonblank_in_order, lemma_cleaned_tags_keep_nonblank};

verus! {

/// A script as the database stores it.
#[derive(Clone, Debug)]
pub struct ScriptRow {
    pub id: i32,
    pub group_id: i32,
    pub name: String,
    pub content: String,
    pub description: String,
    pub is_favourite: i32,
    pub last_used_at: Option<String>,
}

/// What a script is stored with: its name and content trimmed and its tags
/// cleaned, or an error where nothing is left of the name, then of the
/// content.
pub open spec fn script_fields(name: Seq<char>, content: Seq<char>, tags: Seq<Seq<char>>) -> Result<(Seq<char>, Seq<char>, Seq<Seq<char>>), Seq<char>> {
    if trimmed(name).len() == 0 {
        Err("Script name is required"@)
    } else if trimmed(content).len() == 0 {
        Err("Script content is required"@)
    } else {
        Ok((trimmed(name), trimmed(content), cleaned_tags(tags)))
    }
}

/// Prepares the name, content and tags of a script before it is created or
/// updated.
pub fn prepare_script(name: String, content: String, tags: Vec<String>) -> (r: Result<(String, String, Vec<String>), String>)
    ensures
        match script_fields(name@, content@, tags.deep_view()) {
            Ok(v) => r matches Ok(f) && f.0@ == v.0 && f.1@ == v.1 && f.2.deep_view() == v.2,
            Err(e) => r matches Err(m) && m@ == e,
        },
{
    let name = trim(name.as_str());
    if name.unicode_len() == 0 {
        return Err("Script name is required".to_owned());
    }
    let content = trim(content.as_str());
    if content.unicode_len() == 0 {
        return Err("Script content is required".to_owned());
    }
    let tags = clean_tags(&tags);
    Ok((name, content, tags))
}

/// A script whose name and content are not blank is prepared with its name
/// and content trimmed and with its tags trimmed, in their order, without
/// the blank ones; every tag that is not blank is kept.
pub proof fn lemma_prepared_script_keeps_tags(name: Seq<char>, content: Seq<char>, tags: Seq<Seq<char>>)
    requires
        trimmed(name).len() > 0,
        trimmed(content).len() > 0,
    ensures
        script_fields(name, content, tags) matches Ok(v) && v.0 == trimmed(name) && v.1 == trimmed(content)
            && keeps_nonblank_in_order(tags, v.2),
{
    lemma_cleaned_tags_keep_nonblank(tags);
}

} // verus!
