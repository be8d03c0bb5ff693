use vstd::prelude::*;
use vstd::string::*;
use crate::utils::text::{trim, trimmed};

verus! {

/// An item found by a search, with the group that holds it.
#[derive(Clone, Debug)]
pub struct SearchRow {
    pub id: i32,
    pub name: Option<String>,
    pub content: String,
    pub item_type: String,
    pub group_id: i32,
    pub group_name: String,
}

/// A search row as plain values.
pub struct SearchRowView {
    pub id: i32,
    pub name: Option<Seq<char>>,
    pub content: Seq<char>,
    pub item_type: Seq<char>,
    pub group_id: i32,
    pub group_name: Seq<char>,
}

impl View for SearchRow {
    type V = SearchRowView;

    open spec fn view(&self) -> SearchRowView {
        SearchRowView {
            id: self.id,
            name: self.name.deep_view(),
            content: self.content@,
            item_type: self.item_type@,
            group_id: self.group_id,
            group_name: self.group_name@,
        }
    }
}

impl DeepView for SearchRow {
    type V = SearchRowView;

    open spec fn deep_view(&self) -> SearchRowView {
        self@
    }
}

/// The pattern that a query is matched with: the trimmed query between two
/// wildcards; none where nothing is left of the query, which finds nothing.
pub open spec fn pattern_of(query: Seq<char>) -> Option<Seq<char>> {
    if trimmed(query).len() == 0 {
        None
    } else {
        Some(seq!['%'] + trimmed(query) + seq!['%'])
    }
}

/// Turns a search query into the pattern that items are matched with.
pub fn search_pattern(query: &str) -> (r: Option<String>)
    ensures
        r.deep_view() == pattern_of(query@),
{
    let query = trim(query);
    if query.unicode_len() == 0 {
        return None;
    }
    let mut pattern = "%".to_owned();
    pattern.append(query.as_str());
    pattern.append("%");
    proof {
        reveal_strlit("%");
        assert(pattern@ =~= seq!['%'] + query@ + seq!['%']);
    }
    Some(pattern)
}

/// A query that is blank once trimmed finds nothing; any other is matched
/// anywhere in a text: the pattern is the trimmed query with one wildcard
/// before it and one after it.
pub proof fn lemma_pattern_wraps_trimmed_query(query: Seq<char>)
    ensures
        pattern_of(query) is None <==> trimmed(query).len() == 0,
        pattern_of(query) matches Some(p) ==> p.len() == trimmed(query).len() + 2 && p[0] == '%'
            && p[p.len() - 1] == '%' && p.subrange(1, p.len() - 1) == trimmed(query),
{
    if let Some(p) = pattern_of(query) {
        assert(p.subrange(1, p.len() - 1) =~= trimmed(query));
    }
}

} // verus!
