use vstd::prelude::*;

verus! {

/// An item found by a search, as the result list shows it.
#[derive(Debug)]
pub struct SearchResult {
    pub id: i32,
    pub name: String,
    pub item_type: String,
    pub group_id: i32,
    pub group_name: String,
}

/// A search result as plain values.
pub struct SearchResultView {
    pub id: i32,
    pub name: Seq<char>,
    pub item_type: Seq<char>,
    pub group_id: i32,
    pub group_name: Seq<char>,
}

impl View for SearchResult {
    type V = SearchResultView;

    open spec fn view(&self) -> SearchResultView {
        SearchResultView {
            id: self.id,
            name: self.name@,
            item_type: self.item_type@,
            group_id: self.group_id,
            group_name: self.group_name@,
        }
    }
}

impl DeepView for SearchResult {
    type V = SearchResultView;

    open spec fn deep_view(&self) -> SearchResultView {
        self@
    }
}

impl Clone for SearchResult {
    fn clone(&self) -> (r: Self)
        ensures
            r@ == self@,
    {
        SearchResult {
            id: self.id,
            name: self.name.clone(),
            item_type: self.item_type.clone(),
            group_id: self.group_id,
            group_name: self.group_name.clone(),
        }
    }
}

} // verus!
